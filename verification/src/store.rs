//! The persistent multi-entity store: five keyed tables and one id
//! counter. Creation operations validate, check parent existence,
//! allocate a fresh id and persist; mutation operations re-read,
//! modify and re-persist; queries are read-only. The well-formedness
//! predicate `StoreV::wf` carries the referential-integrity and
//! uniqueness invariants across every operation.

use vstd::prelude::*;

use crate::entities::{
    CreateMilestonePayload, CreateMilestonePayloadV, CreateProposalPayload, CreateProposalPayloadV,
    FundProposalPayload, Message, Milestone, MilestoneStatus, MilestoneV, ProofOfReproduction,
    ProofOfReproductionV, ProofStatus, ProposalStage, Researcher, ResearcherPayload,
    ResearcherPayloadV, ResearcherV, ResearchProposal, ResearchProposalV, Review, ReviewV,
    SubmitProofPayload, SubmitProofPayloadV, SubmitReviewPayload, SubmitReviewPayloadV, Timeline,
    VerifyMilestonePayload,
};
use crate::text::{
    email_check, lower_of, lowercase, phone_check, trim_str, trimmed, valid_email, valid_phone,
};

verus! {

/// The views of the elements of a table, in table order.
pub open spec fn views<T: View>(s: Seq<T>) -> Seq<T::V> {
    s.map_values(|t: T| t@)
}

/// The index of the first element satisfying `f`, or `-1`.
pub open spec fn idx_where<T>(s: Seq<T>, f: spec_fn(T) -> bool) -> int
    decreases s.len(),
{
    if s.len() == 0 {
        -1
    } else if f(s[0]) {
        0
    } else if idx_where(s.drop_first(), f) == -1 {
        -1
    } else {
        idx_where(s.drop_first(), f) + 1
    }
}

proof fn lemma_idx_where<T>(s: Seq<T>, f: spec_fn(T) -> bool)
    ensures
        (exists|i: int| 0 <= i < s.len() && f(s[i])) ==> {
            let w = idx_where(s, f);
            &&& 0 <= w < s.len()
            &&& f(s[w])
            &&& forall|k: int| 0 <= k < w ==> !f(s[k])
        },
        !(exists|i: int| 0 <= i < s.len() && f(s[i])) ==> idx_where(s, f) == -1,
    decreases s.len(),
{
    if s.len() > 0 && !f(s[0]) {
        let t = s.drop_first();
        lemma_idx_where(t, f);
        if exists|i: int| 0 <= i < s.len() && f(s[i]) {
            let i = choose|i: int| 0 <= i < s.len() && f(s[i]);
            assert(t[i - 1] == s[i]);
            assert(0 <= i - 1 < t.len() && f(t[i - 1]));
            let w = idx_where(t, f);
            assert(idx_where(s, f) == w + 1);
            assert(t[w] == s[w + 1]);
            assert forall|k: int| 0 <= k < w + 1 implies !f(s[k]) by {
                if k > 0 {
                    assert(t[k - 1] == s[k]);
                }
            }
        } else {
            if exists|j: int| 0 <= j < t.len() && f(t[j]) {
                let j = choose|j: int| 0 <= j < t.len() && f(t[j]);
                assert(t[j] == s[j + 1]);
                assert(false);
            }
        }
    }
}

pub open spec fn has_researcher(rs: Seq<ResearcherV>, id: u64) -> bool {
    exists|i: int| 0 <= i < rs.len() && rs[i].id == id
}

pub open spec fn researcher_idx(rs: Seq<ResearcherV>, id: u64) -> int {
    idx_where(rs, |r: ResearcherV| r.id == id)
}

pub open spec fn find_researcher(rs: Seq<ResearcherV>, id: u64) -> Option<ResearcherV> {
    if researcher_idx(rs, id) >= 0 {
        Some(rs[researcher_idx(rs, id)])
    } else {
        None
    }
}

pub open spec fn has_proposal(ps: Seq<ResearchProposalV>, id: u64) -> bool {
    exists|i: int| 0 <= i < ps.len() && ps[i].id == id
}

pub open spec fn proposal_idx(ps: Seq<ResearchProposalV>, id: u64) -> int {
    idx_where(ps, |p: ResearchProposalV| p.id == id)
}

pub open spec fn find_proposal(ps: Seq<ResearchProposalV>, id: u64) -> Option<ResearchProposalV> {
    if proposal_idx(ps, id) >= 0 {
        Some(ps[proposal_idx(ps, id)])
    } else {
        None
    }
}

pub open spec fn has_milestone(ms: Seq<MilestoneV>, id: u64) -> bool {
    exists|i: int| 0 <= i < ms.len() && ms[i].id == id
}

pub open spec fn milestone_idx(ms: Seq<MilestoneV>, id: u64) -> int {
    idx_where(ms, |m: MilestoneV| m.id == id)
}

pub open spec fn find_milestone(ms: Seq<MilestoneV>, id: u64) -> Option<MilestoneV> {
    if milestone_idx(ms, id) >= 0 {
        Some(ms[milestone_idx(ms, id)])
    } else {
        None
    }
}

pub open spec fn has_review(vs: Seq<ReviewV>, id: u64) -> bool {
    exists|i: int| 0 <= i < vs.len() && vs[i].id == id
}

pub open spec fn review_idx(vs: Seq<ReviewV>, id: u64) -> int {
    idx_where(vs, |v: ReviewV| v.id == id)
}

pub open spec fn find_review(vs: Seq<ReviewV>, id: u64) -> Option<ReviewV> {
    if review_idx(vs, id) >= 0 {
        Some(vs[review_idx(vs, id)])
    } else {
        None
    }
}

pub open spec fn has_proof_rec(fs: Seq<ProofOfReproductionV>, id: u64) -> bool {
    exists|i: int| 0 <= i < fs.len() && fs[i].id == id
}

pub open spec fn proof_rec_idx(fs: Seq<ProofOfReproductionV>, id: u64) -> int {
    idx_where(fs, |f: ProofOfReproductionV| f.id == id)
}

pub open spec fn find_proof_rec(fs: Seq<ProofOfReproductionV>, id: u64) -> Option<
    ProofOfReproductionV,
> {
    if proof_rec_idx(fs, id) >= 0 {
        Some(fs[proof_rec_idx(fs, id)])
    } else {
        None
    }
}

/// The abstract state of the store: the counter and the five tables,
/// each in scan (insertion) order.
pub struct StoreV {
    pub next_id: u64,
    pub researchers: Seq<ResearcherV>,
    pub proposals: Seq<ResearchProposalV>,
    pub milestones: Seq<MilestoneV>,
    pub reviews: Seq<ReviewV>,
    pub proofs: Seq<ProofOfReproductionV>,
}

impl StoreV {
    /// Every stored id was issued by the counter and is unique in its
    /// table; every cross-reference resolves; a parent's child list
    /// has no duplicates; researcher emails and phones are unique.
    pub open spec fn wf(self) -> bool {
        &&& forall|i: int|
            0 <= i < self.researchers.len() ==> 1 <= (#[trigger] self.researchers[i]).id
                <= self.next_id
        &&& forall|i: int, j: int|
            0 <= i < j < self.researchers.len() ==> self.researchers[i].id
                != self.researchers[j].id
        &&& forall|i: int|
            0 <= i < self.proposals.len() ==> 1 <= (#[trigger] self.proposals[i]).id
                <= self.next_id
        &&& forall|i: int, j: int|
            0 <= i < j < self.proposals.len() ==> self.proposals[i].id != self.proposals[j].id
        &&& forall|i: int|
            0 <= i < self.milestones.len() ==> 1 <= (#[trigger] self.milestones[i]).id
                <= self.next_id
        &&& forall|i: int, j: int|
            0 <= i < j < self.milestones.len() ==> self.milestones[i].id != self.milestones[j].id
        &&& forall|i: int|
            0 <= i < self.reviews.len() ==> 1 <= (#[trigger] self.reviews[i]).id <= self.next_id
        &&& forall|i: int, j: int|
            0 <= i < j < self.reviews.len() ==> self.reviews[i].id != self.reviews[j].id
        &&& forall|i: int|
            0 <= i < self.proofs.len() ==> 1 <= (#[trigger] self.proofs[i]).id <= self.next_id
        &&& forall|i: int, j: int|
            0 <= i < j < self.proofs.len() ==> self.proofs[i].id != self.proofs[j].id
        &&& forall|i: int|
            0 <= i < self.proposals.len() ==> has_researcher(
                self.researchers,
                (#[trigger] self.proposals[i]).researcher_id,
            )
        &&& forall|i: int, k: int|
            0 <= i < self.proposals.len() && 0 <= k < self.proposals[i].milestones.len()
                ==> has_milestone(self.milestones, #[trigger] self.proposals[i].milestones[k])
        &&& forall|i: int, k1: int, k2: int|
            #![trigger self.proposals[i].milestones[k1], self.proposals[i].milestones[k2]]
            0 <= i < self.proposals.len() && 0 <= k1 < k2 < self.proposals[i].milestones.len()
                ==> self.proposals[i].milestones[k1] != self.proposals[i].milestones[k2]
        &&& forall|i: int|
            0 <= i < self.reviews.len() ==> has_proposal(
                self.proposals,
                (#[trigger] self.reviews[i]).proposal_id,
            )
        &&& forall|i: int, k: int|
            0 <= i < self.milestones.len() && 0 <= k < self.milestones[i].proofs.len()
                ==> has_proof_rec(self.proofs, #[trigger] self.milestones[i].proofs[k])
        &&& forall|i: int, k1: int, k2: int|
            #![trigger self.milestones[i].proofs[k1], self.milestones[i].proofs[k2]]
            0 <= i < self.milestones.len() && 0 <= k1 < k2 < self.milestones[i].proofs.len()
                ==> self.milestones[i].proofs[k1] != self.milestones[i].proofs[k2]
        &&& forall|i: int, j: int|
            0 <= i < j < self.researchers.len() ==> self.researchers[i].email
                != self.researchers[j].email && self.researchers[i].phone
                != self.researchers[j].phone
    }
}

/// The researcher payload fails a shape check: short name or address,
/// malformed email, malformed phone.
pub open spec fn researcher_payload_invalid(p: ResearcherPayloadV) -> bool {
    ||| trimmed(p.name).len() < 2
    ||| trimmed(p.address).len() < 5
    ||| !valid_email(p.email)
    ||| !valid_phone(p.phone)
}

/// Some stored researcher already holds the normalized email or the
/// phone of the payload.
pub open spec fn researcher_duplicate(rs: Seq<ResearcherV>, p: ResearcherPayloadV) -> bool {
    exists|i: int|
        0 <= i < rs.len() && ((#[trigger] rs[i]).email == lower_of(p.email) || rs[i].phone
            == p.phone)
}

/// The researcher record a successful creation persists.
pub open spec fn spec_new_researcher(s: StoreV, p: ResearcherPayloadV, caller: Seq<char>) -> ResearcherV {
    ResearcherV {
        id: (s.next_id + 1) as u64,
        name: trimmed(p.name),
        address: trimmed(p.address),
        email: lower_of(p.email),
        phone: p.phone,
        owner: caller,
        reputation_score: 0,
        total_points: 0,
        badges: Seq::empty(),
        contributions: Seq::empty(),
        achievements: Seq::empty(),
    }
}

/// The store after a successful researcher creation.
pub open spec fn spec_create_researcher(s: StoreV, p: ResearcherPayloadV, caller: Seq<char>) -> StoreV {
    StoreV {
        next_id: (s.next_id + 1) as u64,
        researchers: s.researchers.push(spec_new_researcher(s, p, caller)),
        ..s
    }
}

/// The proposal payload fails a shape check: empty title, description
/// or methodology, or a funding target of zero.
pub open spec fn proposal_payload_invalid(p: CreateProposalPayloadV) -> bool {
    ||| p.title.len() == 0
    ||| p.description.len() == 0
    ||| p.methodology.len() == 0
    ||| p.funding_target == 0
}

/// The proposal record a successful creation persists: stage `Draft`,
/// no funding, no children, a creation timestamp.
pub open spec fn spec_new_proposal(s: StoreV, p: CreateProposalPayloadV, now: u64) -> ResearchProposalV {
    ResearchProposalV {
        id: (s.next_id + 1) as u64,
        researcher_id: p.researcher_id,
        title: p.title,
        description: p.description,
        methodology: p.methodology,
        milestones: Seq::empty(),
        funding_target: p.funding_target,
        current_funding: 0,
        stage: ProposalStage::Draft,
        reviews: Seq::empty(),
        timeline: Timeline::Created { at: now },
    }
}

/// The store after a successful proposal creation.
pub open spec fn spec_create_proposal(s: StoreV, p: CreateProposalPayloadV, now: u64) -> StoreV {
    StoreV {
        next_id: (s.next_id + 1) as u64,
        proposals: s.proposals.push(spec_new_proposal(s, p, now)),
        ..s
    }
}

/// The review payload fails a shape check: zero score, empty comments,
/// or zero stake.
pub open spec fn review_payload_invalid(p: SubmitReviewPayloadV) -> bool {
    ||| p.score == 0
    ||| p.comments.len() == 0
    ||| p.stake_amount == 0
}

/// The review record a successful submission persists; `verified`
/// starts false and no operation flips it.
pub open spec fn spec_new_review(s: StoreV, p: SubmitReviewPayloadV) -> ReviewV {
    ReviewV {
        id: (s.next_id + 1) as u64,
        proposal_id: p.proposal_id,
        reviewer: p.reviewer,
        score: p.score,
        comments: p.comments,
        stake_amount: p.stake_amount,
        verified: false,
    }
}

/// The store after a successful review submission. The owning
/// proposal's `reviews` list is left untouched: the submission path
/// does not link the review back.
pub open spec fn spec_submit_review(s: StoreV, p: SubmitReviewPayloadV) -> StoreV {
    StoreV { next_id: (s.next_id + 1) as u64, reviews: s.reviews.push(spec_new_review(s, p)), ..s }
}

/// The funded proposal's new funding stays within the machine bound.
pub open spec fn fund_fits(s: StoreV, pid: u64, amount: u64) -> bool {
    has_proposal(s.proposals, pid) ==> s.proposals[proposal_idx(s.proposals, pid)].current_funding
        + amount <= u64::MAX
}

/// The store after a successful funding: only `current_funding` of the
/// funded proposal grows, with no cap against `funding_target`.
pub open spec fn spec_fund(s: StoreV, pid: u64, amount: u64) -> StoreV {
    let i = proposal_idx(s.proposals, pid);
    let p0 = s.proposals[i];
    let p1 = ResearchProposalV {
        current_funding: (p0.current_funding + amount) as u64,
        ..p0
    };
    StoreV { proposals: s.proposals.update(i, p1), ..s }
}

/// The milestone payload fails a shape check: empty description or
/// zero required funding.
pub open spec fn milestone_payload_invalid(p: CreateMilestonePayloadV) -> bool {
    ||| p.description.len() == 0
    ||| p.required_funding == 0
}

/// The milestone record a successful creation persists.
pub open spec fn spec_new_milestone(s: StoreV, p: CreateMilestonePayloadV) -> MilestoneV {
    MilestoneV {
        id: (s.next_id + 1) as u64,
        description: p.description,
        required_funding: p.required_funding,
        deadline: p.deadline,
        status: MilestoneStatus::Pending,
        proofs: Seq::empty(),
    }
}

/// The store after a successful milestone creation: the milestone is
/// persisted, and the owning proposal gets the new id appended, its
/// stage set to `Active`, and its timeline overwritten.
pub open spec fn spec_create_milestone(s: StoreV, p: CreateMilestonePayloadV, now: u64) -> StoreV {
    let m = spec_new_milestone(s, p);
    let i = proposal_idx(s.proposals, p.proposal_id);
    let p0 = s.proposals[i];
    let p1 = ResearchProposalV {
        milestones: p0.milestones.push(m.id),
        stage: ProposalStage::Active,
        timeline: Timeline::MilestoneCreated { at: now },
        ..p0
    };
    StoreV {
        next_id: m.id,
        milestones: s.milestones.push(m),
        proposals: s.proposals.update(i, p1),
        ..s
    }
}

/// The store after a successful verification: the milestone's status
/// becomes `Verified` unconditionally.
pub open spec fn spec_verify_milestone(s: StoreV, mid: u64) -> StoreV {
    let i = milestone_idx(s.milestones, mid);
    let m1 = MilestoneV { status: MilestoneStatus::Verified, ..s.milestones[i] };
    StoreV { milestones: s.milestones.update(i, m1), ..s }
}

/// The proof payload fails a shape check: an empty hash.
pub open spec fn proof_payload_invalid(p: SubmitProofPayloadV) -> bool {
    ||| p.methodology_hash.len() == 0
    ||| p.results_hash.len() == 0
}

/// The proof record a successful submission persists; its status
/// starts `Pending` and no operation transitions it.
pub open spec fn spec_new_proof_rec(s: StoreV, p: SubmitProofPayloadV) -> ProofOfReproductionV {
    ProofOfReproductionV {
        id: (s.next_id + 1) as u64,
        methodology_hash: p.methodology_hash,
        results_hash: p.results_hash,
        status: ProofStatus::Pending,
    }
}

/// The store after a successful proof submission: the proof is
/// persisted and the owning milestone gets the new id appended.
pub open spec fn spec_submit_proof(s: StoreV, p: SubmitProofPayloadV) -> StoreV {
    let f = spec_new_proof_rec(s, p);
    let i = milestone_idx(s.milestones, p.milestone_id);
    let m0 = s.milestones[i];
    let m1 = MilestoneV { proofs: m0.proofs.push(f.id), ..m0 };
    StoreV {
        next_id: f.id,
        proofs: s.proofs.push(f),
        milestones: s.milestones.update(i, m1),
        ..s
    }
}

/// The proposals owned by one researcher, in table order.
pub open spec fn proposals_of(ps: Seq<ResearchProposalV>, rid: u64) -> Seq<ResearchProposalV> {
    ps.filter(|p: ResearchProposalV| p.researcher_id == rid)
}

/// The reviews attached to one proposal, in table order.
pub open spec fn reviews_of(vs: Seq<ReviewV>, pid: u64) -> Seq<ReviewV> {
    vs.filter(|v: ReviewV| v.proposal_id == pid)
}

/// The first researcher whose owner identity matches, if any.
pub open spec fn owner_idx(rs: Seq<ResearcherV>, owner: Seq<char>) -> int {
    idx_where(rs, |r: ResearcherV| r.owner == owner)
}

pub open spec fn find_owner(rs: Seq<ResearcherV>, owner: Seq<char>) -> Option<ResearcherV> {
    if owner_idx(rs, owner) >= 0 {
        Some(rs[owner_idx(rs, owner)])
    } else {
        None
    }
}

/// The store that owns the counter and the five entity tables. Every
/// exposed operation is a method; the host passes caller identity and
/// time in as plain values.
pub struct Store {
    next_id: u64,
    researchers: Vec<Researcher>,
    proposals: Vec<ResearchProposal>,
    milestones: Vec<Milestone>,
    reviews: Vec<Review>,
    proofs: Vec<ProofOfReproduction>,
}

impl View for Store {
    type V = StoreV;

    closed spec fn view(&self) -> StoreV {
        StoreV {
            next_id: self.next_id,
            researchers: views(self.researchers@),
            proposals: views(self.proposals@),
            milestones: views(self.milestones@),
            reviews: views(self.reviews@),
            proofs: views(self.proofs@),
        }
    }
}

fn researcher_pos(v: &Vec<Researcher>, id: u64) -> (r: Option<usize>)
    ensures
        r matches Some(i) ==> i < v@.len() && researcher_idx(views(v@), id) == i as int && views(
            v@,
        )[i as int].id == id && has_researcher(views(v@), id),
        r is None ==> !has_researcher(views(v@), id) && researcher_idx(views(v@), id) == -1,
{
    let mut i: usize = 0;
    while i < v.len()
        invariant
            0 <= i <= v@.len(),
            forall|k: int| 0 <= k < i ==> views(v@)[k].id != id,
        decreases v@.len() - i,
    {
        if v[i].id == id {
            proof {
                assert(views(v@)[i as int].id == id);
                lemma_idx_where(views(v@), |r: ResearcherV| r.id == id);
            }
            return Some(i);
        }
        proof {
            assert(views(v@)[i as int].id != id);
        }
        i = i + 1;
    }
    proof {
        lemma_idx_where(views(v@), |r: ResearcherV| r.id == id);
    }
    None
}

fn proposal_pos(v: &Vec<ResearchProposal>, id: u64) -> (r: Option<usize>)
    ensures
        r matches Some(i) ==> i < v@.len() && proposal_idx(views(v@), id) == i as int && views(
            v@,
        )[i as int].id == id && has_proposal(views(v@), id),
        r is None ==> !has_proposal(views(v@), id) && proposal_idx(views(v@), id) == -1,
{
    let mut i: usize = 0;
    while i < v.len()
        invariant
            0 <= i <= v@.len(),
            forall|k: int| 0 <= k < i ==> views(v@)[k].id != id,
        decreases v@.len() - i,
    {
        if v[i].id == id {
            proof {
                assert(views(v@)[i as int].id == id);
                lemma_idx_where(views(v@), |p: ResearchProposalV| p.id == id);
            }
            return Some(i);
        }
        proof {
            assert(views(v@)[i as int].id != id);
        }
        i = i + 1;
    }
    proof {
        lemma_idx_where(views(v@), |p: ResearchProposalV| p.id == id);
    }
    None
}

fn milestone_pos(v: &Vec<Milestone>, id: u64) -> (r: Option<usize>)
    ensures
        r matches Some(i) ==> i < v@.len() && milestone_idx(views(v@), id) == i as int && views(
            v@,
        )[i as int].id == id && has_milestone(views(v@), id),
        r is None ==> !has_milestone(views(v@), id) && milestone_idx(views(v@), id) == -1,
{
    let mut i: usize = 0;
    while i < v.len()
        invariant
            0 <= i <= v@.len(),
            forall|k: int| 0 <= k < i ==> views(v@)[k].id != id,
        decreases v@.len() - i,
    {
        if v[i].id == id {
            proof {
                assert(views(v@)[i as int].id == id);
                lemma_idx_where(views(v@), |m: MilestoneV| m.id == id);
            }
            return Some(i);
        }
        proof {
            assert(views(v@)[i as int].id != id);
        }
        i = i + 1;
    }
    proof {
        lemma_idx_where(views(v@), |m: MilestoneV| m.id == id);
    }
    None
}

fn review_pos(v: &Vec<Review>, id: u64) -> (r: Option<usize>)
    ensures
        r matches Some(i) ==> i < v@.len() && review_idx(views(v@), id) == i as int && views(
            v@,
        )[i as int].id == id && has_review(views(v@), id),
        r is None ==> !has_review(views(v@), id) && review_idx(views(v@), id) == -1,
{
    let mut i: usize = 0;
    while i < v.len()
        invariant
            0 <= i <= v@.len(),
            forall|k: int| 0 <= k < i ==> views(v@)[k].id != id,
        decreases v@.len() - i,
    {
        if v[i].id == id {
            proof {
                assert(views(v@)[i as int].id == id);
                lemma_idx_where(views(v@), |x: ReviewV| x.id == id);
            }
            return Some(i);
        }
        proof {
            assert(views(v@)[i as int].id != id);
        }
        i = i + 1;
    }
    proof {
        lemma_idx_where(views(v@), |x: ReviewV| x.id == id);
    }
    None
}

fn proof_rec_pos(v: &Vec<ProofOfReproduction>, id: u64) -> (r: Option<usize>)
    ensures
        r matches Some(i) ==> i < v@.len() && proof_rec_idx(views(v@), id) == i as int && views(
            v@,
        )[i as int].id == id && has_proof_rec(views(v@), id),
        r is None ==> !has_proof_rec(views(v@), id) && proof_rec_idx(views(v@), id) == -1,
{
    let mut i: usize = 0;
    while i < v.len()
        invariant
            0 <= i <= v@.len(),
            forall|k: int| 0 <= k < i ==> views(v@)[k].id != id,
        decreases v@.len() - i,
    {
        if v[i].id == id {
            proof {
                assert(views(v@)[i as int].id == id);
                lemma_idx_where(views(v@), |f: ProofOfReproductionV| f.id == id);
            }
            return Some(i);
        }
        proof {
            assert(views(v@)[i as int].id != id);
        }
        i = i + 1;
    }
    proof {
        lemma_idx_where(views(v@), |f: ProofOfReproductionV| f.id == id);
    }
    None
}

/// Whether some stored researcher already holds this email or phone.
fn duplicate_scan(v: &Vec<Researcher>, email_n: &String, phone: &String) -> (r: bool)
    ensures
        r == exists|i: int|
            0 <= i < views(v@).len() && ((#[trigger] views(v@)[i]).email == email_n@ || views(
                v@,
            )[i].phone == phone@),
{
    let mut i: usize = 0;
    while i < v.len()
        invariant
            0 <= i <= v@.len(),
            forall|k: int|
                0 <= k < i ==> (#[trigger] views(v@)[k]).email != email_n@ && views(v@)[k].phone
                    != phone@,
        decreases v@.len() - i,
    {
        if v[i].email.eq(email_n) || v[i].phone.eq(phone) {
            proof {
                assert(views(v@)[i as int].email == v@[i as int]@.email);
            }
            return true;
        }
        proof {
            assert(views(v@)[i as int].email == v@[i as int]@.email);
        }
        i = i + 1;
    }
    false
}

impl Store {
    /// An empty store: counter at zero, all five tables empty.
    pub fn new() -> (s: Store)
        ensures
            s@.wf(),
            s@.next_id == 0,
            s@.researchers.len() == 0,
            s@.proposals.len() == 0,
            s@.milestones.len() == 0,
            s@.reviews.len() == 0,
            s@.proofs.len() == 0,
    {
        let s = Store {
            next_id: 0,
            researchers: Vec::new(),
            proposals: Vec::new(),
            milestones: Vec::new(),
            reviews: Vec::new(),
            proofs: Vec::new(),
        };
        proof {
            assert(views(s.researchers@) =~= Seq::<ResearcherV>::empty());
            assert(views(s.proposals@) =~= Seq::<ResearchProposalV>::empty());
            assert(views(s.milestones@) =~= Seq::<MilestoneV>::empty());
            assert(views(s.reviews@) =~= Seq::<ReviewV>::empty());
            assert(views(s.proofs@) =~= Seq::<ProofOfReproductionV>::empty());
        }
        s
    }

    /// Issues the next id: increments the counter and returns the new
    /// value, so the first issued id is 1 and ids never repeat.
    pub fn generate_id(&mut self) -> (id: u64)
        requires
            old(self)@.next_id < u64::MAX,
        ensures
            id == old(self)@.next_id + 1,
            final(self)@ == (StoreV { next_id: id, ..old(self)@ }),
            old(self)@.wf() ==> final(self)@.wf(),
    {
        self.next_id = self.next_id + 1;
        self.next_id
    }

    /// The current value of the id counter: the number of ids issued
    /// so far, and the last id issued when any has been.
    pub fn id_counter(&self) -> (n: u64)
        ensures
            n == self@.next_id,
    {
        self.next_id
    }

    /// Validates the payload, rejects duplicates of a stored email or
    /// phone, then persists a new researcher under a fresh id.
    pub fn create_researcher(&mut self, payload: ResearcherPayload, caller: String) -> (r: Result<
        Researcher,
        Message,
    >)
        requires
            old(self)@.wf(),
            old(self)@.next_id < u64::MAX,
        ensures
            final(self)@.wf(),
            r is Ok <==> (!researcher_payload_invalid(payload@) && !researcher_duplicate(
                old(self)@.researchers,
                payload@,
            )),
            r is Err ==> final(self)@ == old(self)@ && (r matches Err(m) && m is InvalidPayload),
            r matches Ok(res) ==> res@ == spec_new_researcher(old(self)@, payload@, caller@)
                && final(self)@ == spec_create_researcher(old(self)@, payload@, caller@),
    {
        let name_t = trim_str(payload.name.as_str());
        if name_t.as_str().unicode_len() < 2 {
            return Err(
                Message::InvalidPayload("Name must be at least 2 characters long".to_owned()),
            );
        }
        let addr_t = trim_str(payload.address.as_str());
        if addr_t.as_str().unicode_len() < 5 {
            return Err(
                Message::InvalidPayload("Address must be at least 5 characters long".to_owned()),
            );
        }
        if !email_check(payload.email.as_str()) {
            return Err(Message::InvalidPayload("Invalid email format".to_owned()));
        }
        if !phone_check(payload.phone.as_str()) {
            return Err(Message::InvalidPayload("Phone number must be 10-15 digits".to_owned()));
        }
        let email_n = lowercase(payload.email.as_str());
        if duplicate_scan(&self.researchers, &email_n, &payload.phone) {
            return Err(
                Message::InvalidPayload(
                    "Researcher with this email or phone already exists".to_owned(),
                ),
            );
        }
        let id = self.generate_id();
        let researcher = Researcher {
            id,
            name: name_t,
            address: addr_t,
            email: email_n,
            phone: payload.phone,
            owner: caller,
            reputation_score: 0,
            total_points: 0,
            badges: Vec::new(),
            contributions: Vec::new(),
            achievements: Vec::new(),
        };
        let out = researcher.clone();
        let ghost pre = old(self)@;
        proof {
            assert(researcher.badges.deep_view() =~= Seq::<Seq<char>>::empty());
            assert(researcher.contributions.deep_view() =~= Seq::<Seq<char>>::empty());
            assert(researcher.achievements.deep_view() =~= Seq::<Seq<char>>::empty());
            assert(researcher@ == spec_new_researcher(pre, payload@, caller@));
        }
        self.researchers.push(researcher);
        proof {
            assert(views(self.researchers@) =~= pre.researchers.push(
                spec_new_researcher(pre, payload@, caller@),
            ));
            assert(self@ == spec_create_researcher(pre, payload@, caller@));
            lemma_create_researcher_wf(pre, payload@, caller@);
        }
        Ok(out)
    }

    /// Looks a researcher up by id.
    pub fn get_researcher_by_id(&self, researcher_id: u64) -> (r: Result<Researcher, Message>)
        ensures
            r is Ok <==> has_researcher(self@.researchers, researcher_id),
            r matches Ok(res) ==> find_researcher(self@.researchers, researcher_id) == Some(res@),
            r matches Err(m) ==> m is NotFound,
    {
        match researcher_pos(&self.researchers, researcher_id) {
            Some(i) => {
                let res = self.researchers[i].clone();
                proof {
                    assert(res@ == views(self.researchers@)[i as int]);
                }
                Ok(res)
            },
            None => Err(Message::NotFound("Researcher with the requested id not found".to_owned())),
        }
    }

    /// The full researcher table, or `NotFound` when it is empty.
    pub fn get_all_researchers(&self) -> (r: Result<Vec<Researcher>, Message>)
        ensures
            r is Ok <==> self@.researchers.len() > 0,
            r matches Ok(v) ==> views(v@) == self@.researchers,
            r matches Err(m) ==> m is NotFound,
    {
        if self.researchers.len() == 0 {
            return Err(Message::NotFound("No researchers found".to_owned()));
        }
        let mut out: Vec<Researcher> = Vec::new();
        let mut i: usize = 0;
        while i < self.researchers.len()
            invariant
                0 <= i <= self.researchers@.len(),
                out@.len() == i,
                forall|k: int| 0 <= k < i ==> out@[k]@ == views(self.researchers@)[k],
            decreases self.researchers@.len() - i,
        {
            out.push(self.researchers[i].clone());
            i = i + 1;
        }
        proof {
            assert(views(out@) =~= views(self.researchers@));
        }
        Ok(out)
    }

    /// The researcher recorded under the caller's identity, found by a
    /// linear scan over the owner field.
    pub fn get_researcher_by_owner(&self, caller: &String) -> (r: Result<Researcher, Message>)
        ensures
            r is Ok <==> owner_idx(self@.researchers, caller@) >= 0,
            r matches Ok(res) ==> find_owner(self@.researchers, caller@) == Some(res@)
                && res@.owner == caller@,
            r matches Err(m) ==> m is NotFound && forall|i: int|
                0 <= i < self@.researchers.len() ==> (#[trigger] self@.researchers[i]).owner
                    != caller@,
    {
        let mut i: usize = 0;
        while i < self.researchers.len()
            invariant
                0 <= i <= self.researchers@.len(),
                forall|k: int| 0 <= k < i ==> views(self.researchers@)[k].owner != caller@,
            decreases self.researchers@.len() - i,
        {
            if self.researchers[i].owner.eq(caller) {
                proof {
                    assert(views(self.researchers@)[i as int].owner == caller@);
                    lemma_idx_where(views(self.researchers@), |r: ResearcherV| r.owner == caller@);
                }
                let res = self.researchers[i].clone();
                proof {
                    assert(res@ == views(self.researchers@)[i as int]);
                }
                return Ok(res);
            }
            proof {
                assert(views(self.researchers@)[i as int].owner == self.researchers@[i as int]@.owner);
            }
            i = i + 1;
        }
        proof {
            lemma_idx_where(views(self.researchers@), |r: ResearcherV| r.owner == caller@);
        }
        Err(Message::NotFound("Researcher for the caller identity not found".to_owned()))
    }

    /// Validates the payload, requires the owning researcher to exist,
    /// then persists a new draft proposal under a fresh id. On failure
    /// the store is unchanged: no id is allocated.
    pub fn create_proposal(&mut self, payload: CreateProposalPayload, now: u64) -> (r: Result<
        ResearchProposal,
        Message,
    >)
        requires
            old(self)@.wf(),
            old(self)@.next_id < u64::MAX,
        ensures
            final(self)@.wf(),
            r is Ok <==> (!proposal_payload_invalid(payload@) && has_researcher(
                old(self)@.researchers,
                payload.researcher_id,
            )),
            r is Err ==> final(self)@ == old(self)@,
            proposal_payload_invalid(payload@) ==> (r matches Err(m) && m is InvalidPayload),
            !proposal_payload_invalid(payload@) && !has_researcher(
                old(self)@.researchers,
                payload.researcher_id,
            ) ==> (r matches Err(m) && m is NotFound),
            r matches Ok(res) ==> res@ == spec_new_proposal(old(self)@, payload@, now)
                && final(self)@ == spec_create_proposal(old(self)@, payload@, now),
    {
        if payload.title.as_str().is_empty() || payload.description.as_str().is_empty()
            || payload.methodology.as_str().is_empty() || payload.funding_target == 0 {
            return Err(
                Message::InvalidPayload(
                    "All fields are required, and funding target must be > 0".to_owned(),
                ),
            );
        }
        if researcher_pos(&self.researchers, payload.researcher_id).is_none() {
            return Err(Message::NotFound("Researcher with the requested id not found".to_owned()));
        }
        let ghost pre = old(self)@;
        let id = self.generate_id();
        let proposal = ResearchProposal {
            id,
            researcher_id: payload.researcher_id,
            title: payload.title,
            description: payload.description,
            methodology: payload.methodology,
            milestones: Vec::new(),
            funding_target: payload.funding_target,
            current_funding: 0,
            stage: ProposalStage::Draft,
            reviews: Vec::new(),
            timeline: Timeline::Created { at: now },
        };
        let out = proposal.clone();
        proof {
            assert(proposal@ == spec_new_proposal(pre, payload@, now));
        }
        self.proposals.push(proposal);
        proof {
            assert(views(self.proposals@) =~= pre.proposals.push(
                spec_new_proposal(pre, payload@, now),
            ));
            assert(self@ == spec_create_proposal(pre, payload@, now));
            lemma_create_proposal_wf(pre, payload@, now);
        }
        Ok(out)
    }

    /// Looks a proposal up by id.
    pub fn get_proposal_by_id(&self, proposal_id: u64) -> (r: Result<ResearchProposal, Message>)
        ensures
            r is Ok <==> has_proposal(self@.proposals, proposal_id),
            r matches Ok(res) ==> find_proposal(self@.proposals, proposal_id) == Some(res@),
            r matches Err(m) ==> m is NotFound,
    {
        match proposal_pos(&self.proposals, proposal_id) {
            Some(i) => {
                let res = self.proposals[i].clone();
                proof {
                    assert(res@ == views(self.proposals@)[i as int]);
                }
                Ok(res)
            },
            None => Err(Message::NotFound("Proposal with the requested id not found".to_owned())),
        }
    }

    /// The full proposal table, or `NotFound` when it is empty.
    pub fn get_all_proposals(&self) -> (r: Result<Vec<ResearchProposal>, Message>)
        ensures
            r is Ok <==> self@.proposals.len() > 0,
            r matches Ok(v) ==> views(v@) == self@.proposals,
            r matches Err(m) ==> m is NotFound,
    {
        if self.proposals.len() == 0 {
            return Err(Message::NotFound("No proposals found".to_owned()));
        }
        let mut out: Vec<ResearchProposal> = Vec::new();
        let mut i: usize = 0;
        while i < self.proposals.len()
            invariant
                0 <= i <= self.proposals@.len(),
                out@.len() == i,
                forall|k: int| 0 <= k < i ==> out@[k]@ == views(self.proposals@)[k],
            decreases self.proposals@.len() - i,
        {
            out.push(self.proposals[i].clone());
            i = i + 1;
        }
        proof {
            assert(views(out@) =~= views(self.proposals@));
        }
        Ok(out)
    }

    /// The proposals owned by one researcher, or `NotFound` when the
    /// filtered result is empty.
    pub fn get_proposals_by_researcher_id(&self, researcher_id: u64) -> (r: Result<
        Vec<ResearchProposal>,
        Message,
    >)
        ensures
            r is Ok <==> proposals_of(self@.proposals, researcher_id).len() > 0,
            r matches Ok(v) ==> views(v@) == proposals_of(self@.proposals, researcher_id),
            r matches Err(m) ==> m is NotFound && proposals_of(
                self@.proposals,
                researcher_id,
            ).len() == 0,
    {
        let mut out: Vec<ResearchProposal> = Vec::new();
        let mut i: usize = 0;
        while i < self.proposals.len()
            invariant
                0 <= i <= self.proposals@.len(),
                views(out@) == proposals_of(views(self.proposals@).take(i as int), researcher_id),
            decreases self.proposals@.len() - i,
        {
            let ghost ps = views(self.proposals@);
            proof {
                reveal(Seq::filter);
                assert(ps.take(i + 1).drop_last() =~= ps.take(i as int));
                assert(ps.take(i + 1).last() == ps[i as int]);
            }
            if self.proposals[i].researcher_id == researcher_id {
                out.push(self.proposals[i].clone());
                proof {
                    assert(views(out@) =~= proposals_of(ps.take(i as int), researcher_id).push(
                        ps[i as int],
                    ));
                }
            } else {
                proof {
                    assert(ps[i as int].researcher_id != researcher_id);
                }
            }
            i = i + 1;
        }
        proof {
            assert(views(self.proposals@).take(self.proposals@.len() as int) =~= views(
                self.proposals@,
            ));
        }
        if out.len() == 0 {
            proof {
                assert(proposals_of(self@.proposals, researcher_id).len() == views(out@).len());
            }
            return Err(
                Message::NotFound("No proposals found for the requested researcher".to_owned()),
            );
        }
        proof {
            assert(proposals_of(self@.proposals, researcher_id).len() == views(out@).len());
        }
        Ok(out)
    }

    /// Validates the payload, requires the reviewed proposal to exist,
    /// then persists a new review under a fresh id. The proposal's own
    /// `reviews` list is left untouched by this path.
    pub fn submit_review(&mut self, payload: SubmitReviewPayload) -> (r: Result<Review, Message>)
        requires
            old(self)@.wf(),
            old(self)@.next_id < u64::MAX,
        ensures
            final(self)@.wf(),
            r is Ok <==> (!review_payload_invalid(payload@) && has_proposal(
                old(self)@.proposals,
                payload.proposal_id,
            )),
            r is Err ==> final(self)@ == old(self)@,
            review_payload_invalid(payload@) ==> (r matches Err(m) && m is InvalidPayload),
            !review_payload_invalid(payload@) && !has_proposal(
                old(self)@.proposals,
                payload.proposal_id,
            ) ==> (r matches Err(m) && m is NotFound),
            r matches Ok(res) ==> res@ == spec_new_review(old(self)@, payload@) && final(self)@
                == spec_submit_review(old(self)@, payload@),
    {
        if payload.score == 0 || payload.comments.as_str().is_empty() || payload.stake_amount
            == 0 {
            return Err(
                Message::InvalidPayload("Score, comments, and stake amount are required".to_owned()),
            );
        }
        if proposal_pos(&self.proposals, payload.proposal_id).is_none() {
            return Err(Message::NotFound("Proposal with the requested id not found".to_owned()));
        }
        let ghost pre = old(self)@;
        let id = self.generate_id();
        let review = Review {
            id,
            proposal_id: payload.proposal_id,
            reviewer: payload.reviewer,
            score: payload.score,
            comments: payload.comments,
            stake_amount: payload.stake_amount,
            verified: false,
        };
        let out = review.clone();
        proof {
            assert(review@ == spec_new_review(pre, payload@));
        }
        self.reviews.push(review);
        proof {
            assert(views(self.reviews@) =~= pre.reviews.push(spec_new_review(pre, payload@)));
            assert(self@ == spec_submit_review(pre, payload@));
            lemma_submit_review_wf(pre, payload@);
        }
        Ok(out)
    }

    /// Looks a review up by id.
    pub fn get_review_by_id(&self, review_id: u64) -> (r: Result<Review, Message>)
        ensures
            r is Ok <==> has_review(self@.reviews, review_id),
            r matches Ok(res) ==> find_review(self@.reviews, review_id) == Some(res@),
            r matches Err(m) ==> m is NotFound,
    {
        match review_pos(&self.reviews, review_id) {
            Some(i) => {
                let res = self.reviews[i].clone();
                proof {
                    assert(res@ == views(self.reviews@)[i as int]);
                }
                Ok(res)
            },
            None => Err(Message::NotFound("Review with the requested id not found".to_owned())),
        }
    }

    /// The reviews attached to one proposal, or `NotFound` when the
    /// filtered result is empty.
    pub fn get_reviews_by_proposal_id(&self, proposal_id: u64) -> (r: Result<Vec<Review>, Message>)
        ensures
            r is Ok <==> reviews_of(self@.reviews, proposal_id).len() > 0,
            r matches Ok(v) ==> views(v@) == reviews_of(self@.reviews, proposal_id),
            r matches Err(m) ==> m is NotFound && reviews_of(self@.reviews, proposal_id).len()
                == 0,
    {
        let mut out: Vec<Review> = Vec::new();
        let mut i: usize = 0;
        while i < self.reviews.len()
            invariant
                0 <= i <= self.reviews@.len(),
                views(out@) == reviews_of(views(self.reviews@).take(i as int), proposal_id),
            decreases self.reviews@.len() - i,
        {
            let ghost vs = views(self.reviews@);
            proof {
                reveal(Seq::filter);
                assert(vs.take(i + 1).drop_last() =~= vs.take(i as int));
                assert(vs.take(i + 1).last() == vs[i as int]);
            }
            if self.reviews[i].proposal_id == proposal_id {
                out.push(self.reviews[i].clone());
                proof {
                    assert(views(out@) =~= reviews_of(vs.take(i as int), proposal_id).push(
                        vs[i as int],
                    ));
                }
            } else {
                proof {
                    assert(vs[i as int].proposal_id != proposal_id);
                }
            }
            i = i + 1;
        }
        proof {
            assert(views(self.reviews@).take(self.reviews@.len() as int) =~= views(self.reviews@));
        }
        if out.len() == 0 {
            proof {
                assert(reviews_of(self@.reviews, proposal_id).len() == views(out@).len());
            }
            return Err(
                Message::NotFound("No reviews found for the requested proposal".to_owned()),
            );
        }
        proof {
            assert(reviews_of(self@.reviews, proposal_id).len() == views(out@).len());
        }
        Ok(out)
    }

    /// Adds a positive amount to a proposal's funding. Over-funding
    /// past the target is permitted; no id is allocated.
    pub fn fund_proposal(&mut self, payload: FundProposalPayload) -> (r: Result<
        ResearchProposal,
        Message,
    >)
        requires
            old(self)@.wf(),
            fund_fits(old(self)@, payload.proposal_id, payload.funding_amount),
        ensures
            final(self)@.wf(),
            r is Ok <==> (payload.funding_amount > 0 && has_proposal(
                old(self)@.proposals,
                payload.proposal_id,
            )),
            r is Err ==> final(self)@ == old(self)@,
            payload.funding_amount == 0 ==> (r matches Err(m) && m is InvalidPayload),
            payload.funding_amount > 0 && !has_proposal(
                old(self)@.proposals,
                payload.proposal_id,
            ) ==> (r matches Err(m) && m is NotFound),
            r matches Ok(res) ==> final(self)@ == spec_fund(
                old(self)@,
                payload.proposal_id,
                payload.funding_amount,
            ) && res@ == spec_fund(old(self)@, payload.proposal_id, payload.funding_amount).proposals[proposal_idx(
                old(self)@.proposals,
                payload.proposal_id,
            )],
    {
        if payload.funding_amount == 0 {
            return Err(Message::InvalidPayload("Funding amount must be > 0".to_owned()));
        }
        match proposal_pos(&self.proposals, payload.proposal_id) {
            None => Err(Message::NotFound("Proposal with the requested id not found".to_owned())),
            Some(i) => {
                let ghost pre = old(self)@;
                let mut p = self.proposals[i].clone();
                proof {
                    assert(p@ == pre.proposals[i as int]);
                }
                p.current_funding = p.current_funding + payload.funding_amount;
                let out = p.clone();
                self.proposals[i] = p;
                proof {
                    assert(views(self.proposals@) =~= pre.proposals.update(i as int, out@));
                    assert(self@ == spec_fund(pre, payload.proposal_id, payload.funding_amount));
                    lemma_fund_wf(pre, payload.proposal_id, payload.funding_amount);
                }
                Ok(out)
            },
        }
    }

    /// Validates the payload, requires the owning proposal to exist,
    /// persists a new pending milestone under a fresh id, then re-reads
    /// the proposal, appends the id to its `milestones` list, sets its
    /// stage to `Active`, overwrites its timeline, and re-persists it.
    pub fn create_milestone(&mut self, payload: CreateMilestonePayload, now: u64) -> (r: Result<
        Milestone,
        Message,
    >)
        requires
            old(self)@.wf(),
            old(self)@.next_id < u64::MAX,
        ensures
            final(self)@.wf(),
            r is Ok <==> (!milestone_payload_invalid(payload@) && has_proposal(
                old(self)@.proposals,
                payload.proposal_id,
            )),
            r is Err ==> final(self)@ == old(self)@,
            milestone_payload_invalid(payload@) ==> (r matches Err(m) && m is InvalidPayload),
            !milestone_payload_invalid(payload@) && !has_proposal(
                old(self)@.proposals,
                payload.proposal_id,
            ) ==> (r matches Err(m) && m is NotFound),
            r matches Ok(res) ==> res@ == spec_new_milestone(old(self)@, payload@)
                && final(self)@ == spec_create_milestone(old(self)@, payload@, now),
    {
        if payload.description.as_str().is_empty() || payload.required_funding == 0 {
            return Err(
                Message::InvalidPayload("Description and required funding are required".to_owned()),
            );
        }
        match proposal_pos(&self.proposals, payload.proposal_id) {
            None => Err(Message::NotFound("Proposal with the requested id not found".to_owned())),
            Some(i) => {
                let ghost pre = old(self)@;
                let id = self.generate_id();
                let milestone = Milestone {
                    id,
                    description: payload.description,
                    required_funding: payload.required_funding,
                    deadline: payload.deadline,
                    status: MilestoneStatus::Pending,
                    proofs: Vec::new(),
                };
                let out = milestone.clone();
                proof {
                    assert(milestone@ == spec_new_milestone(pre, payload@));
                }
                self.milestones.push(milestone);
                let mut p = self.proposals[i].clone();
                proof {
                    assert(p@ == pre.proposals[i as int]);
                }
                p.milestones.push(id);
                p.stage = ProposalStage::Active;
                p.timeline = Timeline::MilestoneCreated { at: now };
                self.proposals[i] = p;
                proof {
                    assert(views(self.milestones@) =~= pre.milestones.push(
                        spec_new_milestone(pre, payload@),
                    ));
                    assert(views(self.proposals@) =~= spec_create_milestone(
                        pre,
                        payload@,
                        now,
                    ).proposals);
                    assert(self@ == spec_create_milestone(pre, payload@, now));
                    lemma_create_milestone_wf(pre, payload@, now);
                }
                Ok(out)
            },
        }
    }

    /// Looks a milestone up by id.
    pub fn get_milestone_by_id(&self, milestone_id: u64) -> (r: Result<Milestone, Message>)
        ensures
            r is Ok <==> has_milestone(self@.milestones, milestone_id),
            r matches Ok(res) ==> find_milestone(self@.milestones, milestone_id) == Some(res@),
            r matches Err(m) ==> m is NotFound,
    {
        match milestone_pos(&self.milestones, milestone_id) {
            Some(i) => {
                let res = self.milestones[i].clone();
                proof {
                    assert(res@ == views(self.milestones@)[i as int]);
                }
                Ok(res)
            },
            None => Err(Message::NotFound("Milestone with the requested id not found".to_owned())),
        }
    }

    /// Sets an existing milestone's status to `Verified`,
    /// unconditionally and idempotently; the carried proposal id plays
    /// no part. No id is allocated.
    pub fn verify_milestone(&mut self, payload: VerifyMilestonePayload) -> (r: Result<
        Milestone,
        Message,
    >)
        requires
            old(self)@.wf(),
        ensures
            final(self)@.wf(),
            r is Ok <==> has_milestone(old(self)@.milestones, payload.milestone_id),
            r is Err ==> final(self)@ == old(self)@ && (r matches Err(m) && m is NotFound),
            r matches Ok(res) ==> final(self)@ == spec_verify_milestone(
                old(self)@,
                payload.milestone_id,
            ) && res@ == spec_verify_milestone(old(self)@, payload.milestone_id).milestones[milestone_idx(
                old(self)@.milestones,
                payload.milestone_id,
            )],
    {
        match milestone_pos(&self.milestones, payload.milestone_id) {
            None => Err(Message::NotFound("Milestone with the requested id not found".to_owned())),
            Some(i) => {
                let ghost pre = old(self)@;
                let mut m = self.milestones[i].clone();
                proof {
                    assert(m@ == pre.milestones[i as int]);
                }
                m.status = MilestoneStatus::Verified;
                let out = m.clone();
                self.milestones[i] = m;
                proof {
                    assert(views(self.milestones@) =~= pre.milestones.update(i as int, out@));
                    assert(self@ == spec_verify_milestone(pre, payload.milestone_id));
                    lemma_verify_milestone_wf(pre, payload.milestone_id);
                }
                Ok(out)
            },
        }
    }

    /// Validates the payload, requires the owning milestone to exist,
    /// persists a new pending proof under a fresh id, then re-reads the
    /// milestone, appends the id to its `proofs` list, and re-persists
    /// it.
    pub fn submit_proof(&mut self, payload: SubmitProofPayload) -> (r: Result<
        ProofOfReproduction,
        Message,
    >)
        requires
            old(self)@.wf(),
            old(self)@.next_id < u64::MAX,
        ensures
            final(self)@.wf(),
            r is Ok <==> (!proof_payload_invalid(payload@) && has_milestone(
                old(self)@.milestones,
                payload.milestone_id,
            )),
            r is Err ==> final(self)@ == old(self)@,
            proof_payload_invalid(payload@) ==> (r matches Err(m) && m is InvalidPayload),
            !proof_payload_invalid(payload@) && !has_milestone(
                old(self)@.milestones,
                payload.milestone_id,
            ) ==> (r matches Err(m) && m is NotFound),
            r matches Ok(res) ==> res@ == spec_new_proof_rec(old(self)@, payload@)
                && final(self)@ == spec_submit_proof(old(self)@, payload@),
    {
        if payload.methodology_hash.as_str().is_empty()
            || payload.results_hash.as_str().is_empty() {
            return Err(
                Message::InvalidPayload(
                    "Methodology hash and results hash are required".to_owned(),
                ),
            );
        }
        match milestone_pos(&self.milestones, payload.milestone_id) {
            None => Err(Message::NotFound("Milestone with the requested id not found".to_owned())),
            Some(i) => {
                let ghost pre = old(self)@;
                let id = self.generate_id();
                let rec = ProofOfReproduction {
                    id,
                    methodology_hash: payload.methodology_hash,
                    results_hash: payload.results_hash,
                    status: ProofStatus::Pending,
                };
                let out = rec.clone();
                proof {
                    assert(rec@ == spec_new_proof_rec(pre, payload@));
                }
                self.proofs.push(rec);
                let mut m = self.milestones[i].clone();
                proof {
                    assert(m@ == pre.milestones[i as int]);
                }
                m.proofs.push(id);
                self.milestones[i] = m;
                proof {
                    assert(views(self.proofs@) =~= pre.proofs.push(
                        spec_new_proof_rec(pre, payload@),
                    ));
                    assert(views(self.milestones@) =~= spec_submit_proof(pre, payload@).milestones);
                    assert(self@ == spec_submit_proof(pre, payload@));
                    lemma_submit_proof_wf(pre, payload@);
                }
                Ok(out)
            },
        }
    }

    /// Looks a reproduction proof up by id.
    pub fn get_proof_by_id(&self, proof_id: u64) -> (r: Result<ProofOfReproduction, Message>)
        ensures
            r is Ok <==> has_proof_rec(self@.proofs, proof_id),
            r matches Ok(res) ==> find_proof_rec(self@.proofs, proof_id) == Some(res@),
            r matches Err(m) ==> m is NotFound,
    {
        match proof_rec_pos(&self.proofs, proof_id) {
            Some(i) => {
                let res = self.proofs[i].clone();
                proof {
                    assert(res@ == views(self.proofs@)[i as int]);
                }
                Ok(res)
            },
            None => Err(Message::NotFound("Proof with the requested id not found".to_owned())),
        }
    }
}

/// A successful researcher creation preserves well-formedness: the new
/// id is fresh, and the rejected duplicate check keeps emails and
/// phones unique.
pub proof fn lemma_create_researcher_wf(s: StoreV, p: ResearcherPayloadV, caller: Seq<char>)
    requires
        s.wf(),
        s.next_id < u64::MAX,
        !researcher_duplicate(s.researchers, p),
    ensures
        spec_create_researcher(s, p, caller).wf(),
{
    let r = spec_new_researcher(s, p, caller);
    let s2 = spec_create_researcher(s, p, caller);
    assert(forall|i: int|
        0 <= i < s.researchers.len() ==> s2.researchers[i] == s.researchers[i]);
    assert(forall|i: int|
        0 <= i < s2.proposals.len() ==> has_researcher(
            s2.researchers,
            (#[trigger] s2.proposals[i]).researcher_id,
        )) by {
        assert forall|i: int| 0 <= i < s2.proposals.len() implies has_researcher(
            s2.researchers,
            (#[trigger] s2.proposals[i]).researcher_id,
        ) by {
            let w = choose|w: int|
                0 <= w < s.researchers.len() && s.researchers[w].id
                    == s.proposals[i].researcher_id;
            assert(s2.researchers[w].id == s2.proposals[i].researcher_id);
        }
    }
}

/// A successful proposal creation preserves well-formedness: the new
/// id is fresh, the owning researcher exists, and the new child lists
/// are empty.
pub proof fn lemma_create_proposal_wf(s: StoreV, p: CreateProposalPayloadV, now: u64)
    requires
        s.wf(),
        s.next_id < u64::MAX,
        has_researcher(s.researchers, p.researcher_id),
    ensures
        spec_create_proposal(s, p, now).wf(),
{
    let s2 = spec_create_proposal(s, p, now);
    let n = s.proposals.len() as int;
    assert(forall|i: int| 0 <= i < n ==> s2.proposals[i] == s.proposals[i]);
    assert(s2.proposals[n] == spec_new_proposal(s, p, now));
    assert forall|i: int| 0 <= i < s2.proposals.len() implies has_researcher(
        s2.researchers,
        (#[trigger] s2.proposals[i]).researcher_id,
    ) by {
        if i < n {
            assert(has_researcher(s.researchers, s.proposals[i].researcher_id));
        }
    }
    assert forall|i: int, k: int|
        0 <= i < s2.proposals.len() && 0 <= k
            < s2.proposals[i].milestones.len() implies has_milestone(
        s2.milestones,
        #[trigger] s2.proposals[i].milestones[k],
    ) by {
        assert(i < n);
        assert(has_milestone(s.milestones, s.proposals[i].milestones[k]));
    }
    assert forall|i: int, k1: int, k2: int|
        #![trigger s2.proposals[i].milestones[k1], s2.proposals[i].milestones[k2]]
        0 <= i < s2.proposals.len() && 0 <= k1 < k2
            < s2.proposals[i].milestones.len() implies s2.proposals[i].milestones[k1]
        != s2.proposals[i].milestones[k2] by {
        assert(i < n);
        assert(s.proposals[i].milestones[k1] != s.proposals[i].milestones[k2]);
    }
    assert forall|i: int| 0 <= i < s2.reviews.len() implies has_proposal(
        s2.proposals,
        (#[trigger] s2.reviews[i]).proposal_id,
    ) by {
        let w = choose|w: int|
            0 <= w < s.proposals.len() && s.proposals[w].id == s.reviews[i].proposal_id;
        assert(s2.proposals[w].id == s2.reviews[i].proposal_id);
    }
}

/// A successful review submission preserves well-formedness: the new
/// id is fresh and the reviewed proposal exists.
pub proof fn lemma_submit_review_wf(s: StoreV, p: SubmitReviewPayloadV)
    requires
        s.wf(),
        s.next_id < u64::MAX,
        has_proposal(s.proposals, p.proposal_id),
    ensures
        spec_submit_review(s, p).wf(),
{
    let s2 = spec_submit_review(s, p);
    let n = s.reviews.len() as int;
    assert(forall|i: int| 0 <= i < n ==> s2.reviews[i] == s.reviews[i]);
    assert(s2.reviews[n] == spec_new_review(s, p));
    assert forall|i: int| 0 <= i < s2.reviews.len() implies has_proposal(
        s2.proposals,
        (#[trigger] s2.reviews[i]).proposal_id,
    ) by {
        if i < n {
            assert(has_proposal(s.proposals, s.reviews[i].proposal_id));
        }
    }
}

/// Relates `has_proposal` and `proposal_idx`: a present id is found at
/// its first-match index, an absent one yields `-1`.
pub proof fn lemma_idx_has_proposal(ps: Seq<ResearchProposalV>, id: u64)
    ensures
        has_proposal(ps, id) ==> {
            let i = proposal_idx(ps, id);
            &&& 0 <= i < ps.len()
            &&& ps[i].id == id
            &&& forall|k: int| 0 <= k < i ==> (#[trigger] ps[k]).id != id
        },
        !has_proposal(ps, id) ==> proposal_idx(ps, id) == -1,
{
    lemma_idx_where(ps, |p: ResearchProposalV| p.id == id);
}

/// Relates `has_milestone` and `milestone_idx` in the same way.
pub proof fn lemma_idx_has_milestone(ms: Seq<MilestoneV>, id: u64)
    ensures
        has_milestone(ms, id) ==> {
            let i = milestone_idx(ms, id);
            &&& 0 <= i < ms.len()
            &&& ms[i].id == id
            &&& forall|k: int| 0 <= k < i ==> (#[trigger] ms[k]).id != id
        },
        !has_milestone(ms, id) ==> milestone_idx(ms, id) == -1,
{
    lemma_idx_where(ms, |m: MilestoneV| m.id == id);
}

/// Funding keeps every proposal id in place, so the funded proposal is
/// still found at the same index.
pub proof fn lemma_idx_stable_under_fund(s: StoreV, pid: u64, amount: u64)
    requires
        has_proposal(s.proposals, pid),
    ensures
        has_proposal(spec_fund(s, pid, amount).proposals, pid),
        proposal_idx(spec_fund(s, pid, amount).proposals, pid) == proposal_idx(s.proposals, pid),
{
    lemma_idx_has_proposal(s.proposals, pid);
    let i = proposal_idx(s.proposals, pid);
    let ps2 = spec_fund(s, pid, amount).proposals;
    assert(forall|k: int| 0 <= k < ps2.len() ==> (#[trigger] ps2[k]).id == s.proposals[k].id);
    assert(ps2[i].id == pid);
    lemma_idx_has_proposal(ps2, pid);
    let j = proposal_idx(ps2, pid);
    if j < i {
        assert(s.proposals[j].id != pid);
        assert(false);
    }
    if i < j {
        assert(ps2[i].id != pid);
        assert(false);
    }
}

/// Verification keeps every milestone id in place, so the verified
/// milestone is still found at the same index.
pub proof fn lemma_idx_stable_under_verify(s: StoreV, mid: u64)
    requires
        has_milestone(s.milestones, mid),
    ensures
        has_milestone(spec_verify_milestone(s, mid).milestones, mid),
        milestone_idx(spec_verify_milestone(s, mid).milestones, mid) == milestone_idx(
            s.milestones,
            mid,
        ),
{
    lemma_idx_has_milestone(s.milestones, mid);
    let i = milestone_idx(s.milestones, mid);
    let ms2 = spec_verify_milestone(s, mid).milestones;
    assert(forall|k: int| 0 <= k < ms2.len() ==> (#[trigger] ms2[k]).id == s.milestones[k].id);
    assert(ms2[i].id == mid);
    lemma_idx_has_milestone(ms2, mid);
    let j = milestone_idx(ms2, mid);
    if j < i {
        assert(s.milestones[j].id != mid);
        assert(false);
    }
    if i < j {
        assert(ms2[i].id != mid);
        assert(false);
    }
}

/// A successful funding preserves well-formedness: only the funded
/// proposal's `current_funding` changes.
pub proof fn lemma_fund_wf(s: StoreV, pid: u64, amount: u64)
    requires
        s.wf(),
        has_proposal(s.proposals, pid),
        fund_fits(s, pid, amount),
    ensures
        spec_fund(s, pid, amount).wf(),
{
    lemma_idx_where(s.proposals, |p: ResearchProposalV| p.id == pid);
    let i = proposal_idx(s.proposals, pid);
    let s2 = spec_fund(s, pid, amount);
    assert(0 <= i < s.proposals.len());
    assert(forall|k: int|
        0 <= k < s.proposals.len() && k != i ==> s2.proposals[k] == s.proposals[k]);
    assert(s2.proposals[i].id == s.proposals[i].id);
    assert(s2.proposals[i].researcher_id == s.proposals[i].researcher_id);
    assert(s2.proposals[i].milestones == s.proposals[i].milestones);
    assert forall|k: int| 0 <= k < s2.proposals.len() implies 1 <= (
    #[trigger] s2.proposals[k]).id <= s2.next_id by {
        assert(s2.proposals[k].id == s.proposals[k].id);
    }
    assert forall|k: int, j: int|
        0 <= k < j < s2.proposals.len() implies s2.proposals[k].id != s2.proposals[j].id by {
        assert(s2.proposals[k].id == s.proposals[k].id);
        assert(s2.proposals[j].id == s.proposals[j].id);
    }
    assert forall|k: int| 0 <= k < s2.proposals.len() implies has_researcher(
        s2.researchers,
        (#[trigger] s2.proposals[k]).researcher_id,
    ) by {
        assert(s2.proposals[k].researcher_id == s.proposals[k].researcher_id);
    }
    assert forall|k: int, t: int|
        0 <= k < s2.proposals.len() && 0 <= t
            < s2.proposals[k].milestones.len() implies has_milestone(
        s2.milestones,
        #[trigger] s2.proposals[k].milestones[t],
    ) by {
        assert(s2.proposals[k].milestones == s.proposals[k].milestones);
        assert(has_milestone(s.milestones, s.proposals[k].milestones[t]));
    }
    assert forall|k: int, t1: int, t2: int|
        #![trigger s2.proposals[k].milestones[t1], s2.proposals[k].milestones[t2]]
        0 <= k < s2.proposals.len() && 0 <= t1 < t2
            < s2.proposals[k].milestones.len() implies s2.proposals[k].milestones[t1]
        != s2.proposals[k].milestones[t2] by {
        assert(s2.proposals[k].milestones == s.proposals[k].milestones);
        assert(s.proposals[k].milestones[t1] != s.proposals[k].milestones[t2]);
    }
    assert forall|k: int| 0 <= k < s2.reviews.len() implies has_proposal(
        s2.proposals,
        (#[trigger] s2.reviews[k]).proposal_id,
    ) by {
        let w = choose|w: int|
            0 <= w < s.proposals.len() && s.proposals[w].id == s.reviews[k].proposal_id;
        assert(s2.proposals[w].id == s.proposals[w].id);
    }
}

/// A successful verification preserves well-formedness: only the
/// milestone's status changes.
pub proof fn lemma_verify_milestone_wf(s: StoreV, mid: u64)
    requires
        s.wf(),
        has_milestone(s.milestones, mid),
    ensures
        spec_verify_milestone(s, mid).wf(),
{
    lemma_idx_where(s.milestones, |m: MilestoneV| m.id == mid);
    let i = milestone_idx(s.milestones, mid);
    let s2 = spec_verify_milestone(s, mid);
    assert(0 <= i < s.milestones.len());
    assert(forall|k: int|
        0 <= k < s.milestones.len() && k != i ==> s2.milestones[k] == s.milestones[k]);
    assert(s2.milestones[i].id == s.milestones[i].id);
    assert(s2.milestones[i].proofs == s.milestones[i].proofs);
    assert forall|k: int| 0 <= k < s2.milestones.len() implies 1 <= (
    #[trigger] s2.milestones[k]).id <= s2.next_id by {
        assert(s2.milestones[k].id == s.milestones[k].id);
    }
    assert forall|k: int, j: int|
        0 <= k < j < s2.milestones.len() implies s2.milestones[k].id != s2.milestones[j].id by {
        assert(s2.milestones[k].id == s.milestones[k].id);
        assert(s2.milestones[j].id == s.milestones[j].id);
    }
    assert forall|k: int, t: int|
        0 <= k < s2.proposals.len() && 0 <= t
            < s2.proposals[k].milestones.len() implies has_milestone(
        s2.milestones,
        #[trigger] s2.proposals[k].milestones[t],
    ) by {
        let e = s.proposals[k].milestones[t];
        assert(has_milestone(s.milestones, e));
        let w = choose|w: int| 0 <= w < s.milestones.len() && s.milestones[w].id == e;
        assert(s2.milestones[w].id == s.milestones[w].id);
    }
    assert forall|k: int, t: int|
        0 <= k < s2.milestones.len() && 0 <= t
            < s2.milestones[k].proofs.len() implies has_proof_rec(
        s2.proofs,
        #[trigger] s2.milestones[k].proofs[t],
    ) by {
        assert(s2.milestones[k].proofs == s.milestones[k].proofs);
        assert(has_proof_rec(s.proofs, s.milestones[k].proofs[t]));
    }
    assert forall|k: int, t1: int, t2: int|
        #![trigger s2.milestones[k].proofs[t1], s2.milestones[k].proofs[t2]]
        0 <= k < s2.milestones.len() && 0 <= t1 < t2
            < s2.milestones[k].proofs.len() implies s2.milestones[k].proofs[t1]
        != s2.milestones[k].proofs[t2] by {
        assert(s2.milestones[k].proofs == s.milestones[k].proofs);
        assert(s.milestones[k].proofs[t1] != s.milestones[k].proofs[t2]);
    }
}

/// A successful milestone creation preserves well-formedness: the new
/// milestone id is fresh, so appending it to the owning proposal's
/// list keeps the list duplicate-free and resolvable.
pub proof fn lemma_create_milestone_wf(s: StoreV, p: CreateMilestonePayloadV, now: u64)
    requires
        s.wf(),
        s.next_id < u64::MAX,
        has_proposal(s.proposals, p.proposal_id),
    ensures
        spec_create_milestone(s, p, now).wf(),
{
    lemma_idx_where(s.proposals, |q: ResearchProposalV| q.id == p.proposal_id);
    let i = proposal_idx(s.proposals, p.proposal_id);
    let m = spec_new_milestone(s, p);
    let s2 = spec_create_milestone(s, p, now);
    let nm = s.milestones.len() as int;
    assert(0 <= i < s.proposals.len());
    assert(forall|k: int| 0 <= k < nm ==> s2.milestones[k] == s.milestones[k]);
    assert(s2.milestones[nm] == m);
    assert(forall|k: int|
        0 <= k < s.proposals.len() && k != i ==> s2.proposals[k] == s.proposals[k]);
    assert(s2.proposals[i].id == s.proposals[i].id);
    assert(s2.proposals[i].researcher_id == s.proposals[i].researcher_id);
    assert(s2.proposals[i].milestones == s.proposals[i].milestones.push(m.id));
    assert forall|k: int| 0 <= k < s2.milestones.len() implies 1 <= (
    #[trigger] s2.milestones[k]).id <= s2.next_id by {
        if k < nm {
            assert(s2.milestones[k] == s.milestones[k]);
        }
    }
    assert forall|k: int, j: int|
        0 <= k < j < s2.milestones.len() implies s2.milestones[k].id != s2.milestones[j].id by {
        if j < nm {
            assert(s.milestones[k].id != s.milestones[j].id);
        } else {
            assert(s2.milestones[k].id <= s.next_id);
        }
    }
    assert forall|k: int| 0 <= k < s2.proposals.len() implies 1 <= (
    #[trigger] s2.proposals[k]).id <= s2.next_id by {
        assert(s2.proposals[k].id == s.proposals[k].id);
    }
    assert forall|k: int, j: int|
        0 <= k < j < s2.proposals.len() implies s2.proposals[k].id != s2.proposals[j].id by {
        assert(s2.proposals[k].id == s.proposals[k].id);
        assert(s2.proposals[j].id == s.proposals[j].id);
    }
    assert forall|k: int| 0 <= k < s2.proposals.len() implies has_researcher(
        s2.researchers,
        (#[trigger] s2.proposals[k]).researcher_id,
    ) by {
        assert(s2.proposals[k].researcher_id == s.proposals[k].researcher_id);
    }
    assert forall|k: int, t: int|
        0 <= k < s2.proposals.len() && 0 <= t
            < s2.proposals[k].milestones.len() implies has_milestone(
        s2.milestones,
        #[trigger] s2.proposals[k].milestones[t],
    ) by {
        if k != i || t < s.proposals[k].milestones.len() {
            let e = s.proposals[k].milestones[t];
            assert(s2.proposals[k].milestones[t] == e);
            assert(has_milestone(s.milestones, e));
            let w = choose|w: int| 0 <= w < s.milestones.len() && s.milestones[w].id == e;
            assert(s2.milestones[w].id == e);
        } else {
            assert(s2.proposals[k].milestones[t] == m.id);
            assert(s2.milestones[nm].id == m.id);
        }
    }
    assert forall|k: int, t1: int, t2: int|
        #![trigger s2.proposals[k].milestones[t1], s2.proposals[k].milestones[t2]]
        0 <= k < s2.proposals.len() && 0 <= t1 < t2
            < s2.proposals[k].milestones.len() implies s2.proposals[k].milestones[t1]
        != s2.proposals[k].milestones[t2] by {
        if k != i || t2 < s.proposals[k].milestones.len() {
            assert(s.proposals[k].milestones[t1] != s.proposals[k].milestones[t2]);
        } else {
            let e = s.proposals[i].milestones[t1];
            assert(s2.proposals[k].milestones[t1] == e);
            assert(has_milestone(s.milestones, e));
            let w = choose|w: int| 0 <= w < s.milestones.len() && s.milestones[w].id == e;
            assert(e <= s.next_id);
            assert(s2.proposals[k].milestones[t2] == m.id);
        }
    }
    assert forall|k: int| 0 <= k < s2.reviews.len() implies has_proposal(
        s2.proposals,
        (#[trigger] s2.reviews[k]).proposal_id,
    ) by {
        let w = choose|w: int|
            0 <= w < s.proposals.len() && s.proposals[w].id == s.reviews[k].proposal_id;
        assert(s2.proposals[w].id == s.proposals[w].id);
    }
    assert forall|k: int, t: int|
        0 <= k < s2.milestones.len() && 0 <= t
            < s2.milestones[k].proofs.len() implies has_proof_rec(
        s2.proofs,
        #[trigger] s2.milestones[k].proofs[t],
    ) by {
        if k < nm {
            assert(s2.milestones[k] == s.milestones[k]);
            assert(has_proof_rec(s.proofs, s.milestones[k].proofs[t]));
        } else {
            assert(s2.milestones[k].proofs.len() == 0);
        }
    }
    assert forall|k: int, t1: int, t2: int|
        #![trigger s2.milestones[k].proofs[t1], s2.milestones[k].proofs[t2]]
        0 <= k < s2.milestones.len() && 0 <= t1 < t2
            < s2.milestones[k].proofs.len() implies s2.milestones[k].proofs[t1]
        != s2.milestones[k].proofs[t2] by {
        if k < nm {
            assert(s2.milestones[k] == s.milestones[k]);
            assert(s.milestones[k].proofs[t1] != s.milestones[k].proofs[t2]);
        } else {
            assert(s2.milestones[k].proofs.len() == 0);
        }
    }
}

/// A successful proof submission preserves well-formedness: the new
/// proof id is fresh, so appending it to the owning milestone's list
/// keeps the list duplicate-free and resolvable.
pub proof fn lemma_submit_proof_wf(s: StoreV, p: SubmitProofPayloadV)
    requires
        s.wf(),
        s.next_id < u64::MAX,
        has_milestone(s.milestones, p.milestone_id),
    ensures
        spec_submit_proof(s, p).wf(),
{
    lemma_idx_where(s.milestones, |m: MilestoneV| m.id == p.milestone_id);
    let i = milestone_idx(s.milestones, p.milestone_id);
    let f = spec_new_proof_rec(s, p);
    let s2 = spec_submit_proof(s, p);
    let np = s.proofs.len() as int;
    assert(0 <= i < s.milestones.len());
    assert(forall|k: int| 0 <= k < np ==> s2.proofs[k] == s.proofs[k]);
    assert(s2.proofs[np] == f);
    assert(forall|k: int|
        0 <= k < s.milestones.len() && k != i ==> s2.milestones[k] == s.milestones[k]);
    assert(s2.milestones[i].id == s.milestones[i].id);
    assert(s2.milestones[i].proofs == s.milestones[i].proofs.push(f.id));
    assert forall|k: int| 0 <= k < s2.proofs.len() implies 1 <= (#[trigger] s2.proofs[k]).id
        <= s2.next_id by {
        if k < np {
            assert(s2.proofs[k] == s.proofs[k]);
        }
    }
    assert forall|k: int, j: int|
        0 <= k < j < s2.proofs.len() implies s2.proofs[k].id != s2.proofs[j].id by {
        if j < np {
            assert(s.proofs[k].id != s.proofs[j].id);
        } else {
            assert(s2.proofs[k].id <= s.next_id);
        }
    }
    assert forall|k: int| 0 <= k < s2.milestones.len() implies 1 <= (
    #[trigger] s2.milestones[k]).id <= s2.next_id by {
        assert(s2.milestones[k].id == s.milestones[k].id);
    }
    assert forall|k: int, j: int|
        0 <= k < j < s2.milestones.len() implies s2.milestones[k].id != s2.milestones[j].id by {
        assert(s2.milestones[k].id == s.milestones[k].id);
        assert(s2.milestones[j].id == s.milestones[j].id);
    }
    assert forall|k: int, t: int|
        0 <= k < s2.proposals.len() && 0 <= t
            < s2.proposals[k].milestones.len() implies has_milestone(
        s2.milestones,
        #[trigger] s2.proposals[k].milestones[t],
    ) by {
        let e = s.proposals[k].milestones[t];
        assert(has_milestone(s.milestones, e));
        let w = choose|w: int| 0 <= w < s.milestones.len() && s.milestones[w].id == e;
        assert(s2.milestones[w].id == s.milestones[w].id);
    }
    assert forall|k: int, t: int|
        0 <= k < s2.milestones.len() && 0 <= t
            < s2.milestones[k].proofs.len() implies has_proof_rec(
        s2.proofs,
        #[trigger] s2.milestones[k].proofs[t],
    ) by {
        if k != i || t < s.milestones[k].proofs.len() {
            let e = s.milestones[k].proofs[t];
            assert(s2.milestones[k].proofs[t] == e);
            assert(has_proof_rec(s.proofs, e));
            let w = choose|w: int| 0 <= w < s.proofs.len() && s.proofs[w].id == e;
            assert(s2.proofs[w].id == e);
        } else {
            assert(s2.milestones[k].proofs[t] == f.id);
            assert(s2.proofs[np].id == f.id);
        }
    }
    assert forall|k: int, t1: int, t2: int|
        #![trigger s2.milestones[k].proofs[t1], s2.milestones[k].proofs[t2]]
        0 <= k < s2.milestones.len() && 0 <= t1 < t2
            < s2.milestones[k].proofs.len() implies s2.milestones[k].proofs[t1]
        != s2.milestones[k].proofs[t2] by {
        if k != i || t2 < s.milestones[k].proofs.len() {
            assert(s.milestones[k].proofs[t1] != s.milestones[k].proofs[t2]);
        } else {
            let e = s.milestones[i].proofs[t1];
            assert(s2.milestones[k].proofs[t1] == e);
            assert(has_proof_rec(s.proofs, e));
            let w = choose|w: int| 0 <= w < s.proofs.len() && s.proofs[w].id == e;
            assert(e <= s.next_id);
            assert(s2.milestones[k].proofs[t2] == f.id);
        }
    }
}

} // verus!

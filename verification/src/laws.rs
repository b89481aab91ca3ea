//! Store-wide laws: properties that relate several operations or all
//! states, proved once over the spec-level transitions that the
//! operations' contracts return.

use vstd::prelude::*;

use crate::entities::{CreateMilestonePayloadV, MilestoneStatus, ProposalStage, ResearcherPayloadV};
use crate::store::{
    has_milestone, has_proof_rec, has_proposal, has_researcher, has_review, milestone_idx,
    proposal_idx, researcher_duplicate, spec_create_milestone, spec_create_researcher, spec_fund,
    spec_new_milestone, spec_new_researcher, spec_verify_milestone, StoreV,
};

verus! {

/// A created researcher's id is strictly greater than every id already
/// stored in any table — in particular it is unique — and it is the
/// next value of the counter.
pub proof fn lemma_created_researcher_id_fresh(s: StoreV, p: ResearcherPayloadV, caller: Seq<char>)
    requires
        s.wf(),
        s.next_id < u64::MAX,
    ensures
        spec_new_researcher(s, p, caller).id == s.next_id + 1,
        forall|i: int|
            0 <= i < s.researchers.len() ==> (#[trigger] s.researchers[i]).id < spec_new_researcher(
                s,
                p,
                caller,
            ).id,
        forall|i: int|
            0 <= i < s.proposals.len() ==> (#[trigger] s.proposals[i]).id < spec_new_researcher(
                s,
                p,
                caller,
            ).id,
        forall|i: int|
            0 <= i < s.milestones.len() ==> (#[trigger] s.milestones[i]).id < spec_new_researcher(
                s,
                p,
                caller,
            ).id,
        forall|i: int|
            0 <= i < s.reviews.len() ==> (#[trigger] s.reviews[i]).id < spec_new_researcher(
                s,
                p,
                caller,
            ).id,
        forall|i: int|
            0 <= i < s.proofs.len() ==> (#[trigger] s.proofs[i]).id < spec_new_researcher(
                s,
                p,
                caller,
            ).id,
        !has_researcher(s.researchers, spec_new_researcher(s, p, caller).id),
        !has_proposal(s.proposals, spec_new_researcher(s, p, caller).id),
        !has_milestone(s.milestones, spec_new_researcher(s, p, caller).id),
        !has_review(s.reviews, spec_new_researcher(s, p, caller).id),
        !has_proof_rec(s.proofs, spec_new_researcher(s, p, caller).id),
{
}

/// After one researcher is created, a second payload with the same
/// normalized email or the same phone is a duplicate, so the second
/// creation fails with `InvalidPayload`.
pub proof fn lemma_second_researcher_is_duplicate(
    s: StoreV,
    p1: ResearcherPayloadV,
    p2: ResearcherPayloadV,
    caller: Seq<char>,
)
    requires
        crate::text::lower_of(p1.email) == crate::text::lower_of(p2.email) || p1.phone == p2.phone,
    ensures
        researcher_duplicate(spec_create_researcher(s, p1, caller).researchers, p2),
{
    let rs = spec_create_researcher(s, p1, caller).researchers;
    let n = s.researchers.len() as int;
    assert(rs[n] == spec_new_researcher(s, p1, caller));
    assert(rs[n].email == crate::text::lower_of(p2.email) || rs[n].phone == p2.phone);
}

/// Funding a proposal twice adds both amounts to `current_funding`,
/// with no cap relative to `funding_target`.
pub proof fn lemma_fund_twice(s: StoreV, pid: u64, a1: u64, a2: u64)
    requires
        s.wf(),
        has_proposal(s.proposals, pid),
        a1 > 0,
        a2 > 0,
        s.proposals[proposal_idx(s.proposals, pid)].current_funding + a1 + a2 <= u64::MAX,
    ensures
        ({
            let i = proposal_idx(s.proposals, pid);
            let s2 = spec_fund(spec_fund(s, pid, a1), pid, a2);
            &&& proposal_idx(spec_fund(s, pid, a1).proposals, pid) == i
            &&& s2.proposals[i].current_funding == s.proposals[i].current_funding + a1 + a2
            &&& s2.proposals[i].funding_target == s.proposals[i].funding_target
            &&& s2.wf()
        }),
{
    crate::store::lemma_idx_has_proposal(s.proposals, pid);
    crate::store::lemma_idx_stable_under_fund(s, pid, a1);
    let s1 = spec_fund(s, pid, a1);
    crate::store::lemma_fund_wf(s, pid, a1);
    assert(s1.proposals[proposal_idx(s.proposals, pid)].current_funding == s.proposals[proposal_idx(
        s.proposals,
        pid,
    )].current_funding + a1);
    crate::store::lemma_fund_wf(s1, pid, a2);
}

/// Creating a milestone links exactly one occurrence of the new id
/// into the owning proposal's list and sets the stage to `Active`; the
/// proposal stays present, so a second creation sets `Active` again
/// (the stage is written unconditionally and idempotently).
pub proof fn lemma_milestone_linked_once(s: StoreV, p: CreateMilestonePayloadV, now: u64)
    requires
        s.wf(),
        s.next_id < u64::MAX,
        has_proposal(s.proposals, p.proposal_id),
    ensures
        ({
            let i = proposal_idx(s.proposals, p.proposal_id);
            let mid = spec_new_milestone(s, p).id;
            let s2 = spec_create_milestone(s, p, now);
            &&& s2.proposals[i].stage == ProposalStage::Active
            &&& s2.proposals[i].milestones.len() == s.proposals[i].milestones.len() + 1
            &&& s2.proposals[i].milestones.last() == mid
            &&& forall|k: int|
                0 <= k < s2.proposals[i].milestones.len() - 1 ==> s2.proposals[i].milestones[k]
                    != mid
            &&& has_proposal(s2.proposals, p.proposal_id)
            &&& s2.wf()
        }),
{
    crate::store::lemma_idx_has_proposal(s.proposals, p.proposal_id);
    let i = proposal_idx(s.proposals, p.proposal_id);
    let mid = spec_new_milestone(s, p).id;
    let s2 = spec_create_milestone(s, p, now);
    crate::store::lemma_create_milestone_wf(s, p, now);
    assert forall|k: int|
        0 <= k < s2.proposals[i].milestones.len() - 1 implies s2.proposals[i].milestones[k]
        != mid by {
        let e = s.proposals[i].milestones[k];
        assert(s2.proposals[i].milestones[k] == e);
        assert(has_milestone(s.milestones, e));
        let w = choose|w: int| 0 <= w < s.milestones.len() && s.milestones[w].id == e;
        assert(e <= s.next_id);
    }
    assert(s2.proposals[i].id == p.proposal_id);
}

/// Verifying a milestone sets its status to `Verified`, and verifying
/// it a second time changes nothing at all.
pub proof fn lemma_verify_milestone_idempotent(s: StoreV, mid: u64)
    requires
        s.wf(),
        has_milestone(s.milestones, mid),
    ensures
        ({
            let i = milestone_idx(s.milestones, mid);
            let s1 = spec_verify_milestone(s, mid);
            &&& s1.milestones[i].status == MilestoneStatus::Verified
            &&& has_milestone(s1.milestones, mid)
            &&& spec_verify_milestone(s1, mid) == s1
            &&& s1.wf()
        }),
{
    crate::store::lemma_idx_has_milestone(s.milestones, mid);
    let i = milestone_idx(s.milestones, mid);
    let s1 = spec_verify_milestone(s, mid);
    crate::store::lemma_verify_milestone_wf(s, mid);
    assert(s1.milestones[i].id == mid);
    crate::store::lemma_idx_stable_under_verify(s, mid);
    let s2 = spec_verify_milestone(s1, mid);
    assert(s1.milestones[i] == (crate::entities::MilestoneV {
        status: MilestoneStatus::Verified,
        ..s1.milestones[i]
    }));
    assert(s2.milestones =~= s1.milestones);
    assert(s2 == s1);
}

} // verus!

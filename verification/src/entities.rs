//! The five entity types of the store, their payloads, the message
//! vocabulary returned on failure, and the spec-level views that the
//! contracts speak of.

use vstd::prelude::*;

verus! {

/// The lifecycle phase of a proposal. The only implemented transition
/// is `Draft` to `Active`, on the first milestone creation.
#[derive(Clone, Copy, PartialEq, Eq, Structural, Debug)]
pub enum ProposalStage {
    Draft,
    Active,
    Completed,
}

/// The lifecycle phase of a milestone: `Pending` until verified.
#[derive(Clone, Copy, PartialEq, Eq, Structural, Debug)]
pub enum MilestoneStatus {
    Pending,
    Verified,
}

/// The lifecycle phase of a reproduction proof. No operation moves it
/// past `Pending`; the other phases are reserved.
#[derive(Clone, Copy, PartialEq, Eq, Structural, Debug)]
pub enum ProofStatus {
    Pending,
    Verified,
    Rejected,
}

/// The structured metadata stamped onto a proposal: the creation time
/// at first, overwritten (not merged) when a milestone is created.
#[derive(Clone, Copy, PartialEq, Eq, Structural, Debug)]
pub enum Timeline {
    Created { at: u64 },
    MilestoneCreated { at: u64 },
}

/// The message vocabulary returned to callers. `Success` and `Error`
/// are reserved; every failure below is a `NotFound` or an
/// `InvalidPayload`.
#[derive(Debug)]
pub enum Message {
    Success(String),
    Error(String),
    NotFound(String),
    InvalidPayload(String),
}

#[derive(Debug)]
pub struct Researcher {
    pub id: u64,
    pub name: String,
    pub address: String,
    pub email: String,
    pub phone: String,
    pub owner: String,
    pub reputation_score: u64,
    pub total_points: u64,
    pub badges: Vec<String>,
    pub contributions: Vec<String>,
    pub achievements: Vec<String>,
}

pub struct ResearcherV {
    pub id: u64,
    pub name: Seq<char>,
    pub address: Seq<char>,
    pub email: Seq<char>,
    pub phone: Seq<char>,
    pub owner: Seq<char>,
    pub reputation_score: u64,
    pub total_points: u64,
    pub badges: Seq<Seq<char>>,
    pub contributions: Seq<Seq<char>>,
    pub achievements: Seq<Seq<char>>,
}

impl View for Researcher {
    type V = ResearcherV;

    open spec fn view(&self) -> ResearcherV {
        ResearcherV {
            id: self.id,
            name: self.name@,
            address: self.address@,
            email: self.email@,
            phone: self.phone@,
            owner: self.owner@,
            reputation_score: self.reputation_score,
            total_points: self.total_points,
            badges: self.badges.deep_view(),
            contributions: self.contributions.deep_view(),
            achievements: self.achievements.deep_view(),
        }
    }
}

#[derive(Debug)]
pub struct ResearchProposal {
    pub id: u64,
    pub researcher_id: u64,
    pub title: String,
    pub description: String,
    pub methodology: String,
    pub milestones: Vec<u64>,
    pub funding_target: u64,
    pub current_funding: u64,
    pub stage: ProposalStage,
    pub reviews: Vec<u64>,
    pub timeline: Timeline,
}

pub struct ResearchProposalV {
    pub id: u64,
    pub researcher_id: u64,
    pub title: Seq<char>,
    pub description: Seq<char>,
    pub methodology: Seq<char>,
    pub milestones: Seq<u64>,
    pub funding_target: u64,
    pub current_funding: u64,
    pub stage: ProposalStage,
    pub reviews: Seq<u64>,
    pub timeline: Timeline,
}

impl View for ResearchProposal {
    type V = ResearchProposalV;

    open spec fn view(&self) -> ResearchProposalV {
        ResearchProposalV {
            id: self.id,
            researcher_id: self.researcher_id,
            title: self.title@,
            description: self.description@,
            methodology: self.methodology@,
            milestones: self.milestones@,
            funding_target: self.funding_target,
            current_funding: self.current_funding,
            stage: self.stage,
            reviews: self.reviews@,
            timeline: self.timeline,
        }
    }
}

#[derive(Debug)]
pub struct Milestone {
    pub id: u64,
    pub description: String,
    pub required_funding: u64,
    pub deadline: String,
    pub status: MilestoneStatus,
    pub proofs: Vec<u64>,
}

pub struct MilestoneV {
    pub id: u64,
    pub description: Seq<char>,
    pub required_funding: u64,
    pub deadline: Seq<char>,
    pub status: MilestoneStatus,
    pub proofs: Seq<u64>,
}

impl View for Milestone {
    type V = MilestoneV;

    open spec fn view(&self) -> MilestoneV {
        MilestoneV {
            id: self.id,
            description: self.description@,
            required_funding: self.required_funding,
            deadline: self.deadline@,
            status: self.status,
            proofs: self.proofs@,
        }
    }
}

#[derive(Debug)]
pub struct Review {
    pub id: u64,
    pub proposal_id: u64,
    pub reviewer: String,
    pub score: u64,
    pub comments: String,
    pub stake_amount: u64,
    pub verified: bool,
}

pub struct ReviewV {
    pub id: u64,
    pub proposal_id: u64,
    pub reviewer: Seq<char>,
    pub score: u64,
    pub comments: Seq<char>,
    pub stake_amount: u64,
    pub verified: bool,
}

impl View for Review {
    type V = ReviewV;

    open spec fn view(&self) -> ReviewV {
        ReviewV {
            id: self.id,
            proposal_id: self.proposal_id,
            reviewer: self.reviewer@,
            score: self.score,
            comments: self.comments@,
            stake_amount: self.stake_amount,
            verified: self.verified,
        }
    }
}

#[derive(Debug)]
pub struct ProofOfReproduction {
    pub id: u64,
    pub methodology_hash: String,
    pub results_hash: String,
    pub status: ProofStatus,
}

pub struct ProofOfReproductionV {
    pub id: u64,
    pub methodology_hash: Seq<char>,
    pub results_hash: Seq<char>,
    pub status: ProofStatus,
}

impl View for ProofOfReproduction {
    type V = ProofOfReproductionV;

    open spec fn view(&self) -> ProofOfReproductionV {
        ProofOfReproductionV {
            id: self.id,
            methodology_hash: self.methodology_hash@,
            results_hash: self.results_hash@,
            status: self.status,
        }
    }
}

/// Copies a list of id values.
fn clone_ids(v: &Vec<u64>) -> (r: Vec<u64>)
    ensures
        r@ == v@,
{
    let mut r: Vec<u64> = Vec::new();
    let mut i: usize = 0;
    while i < v.len()
        invariant
            0 <= i <= v.len(),
            r@ == v@.subrange(0, i as int),
        decreases v.len() - i,
    {
        r.push(v[i]);
        proof {
            assert(r@ =~= v@.subrange(0, i + 1));
        }
        i = i + 1;
    }
    proof {
        assert(v@.subrange(0, v@.len() as int) =~= v@);
    }
    r
}

/// Copies a list of strings.
fn clone_strings(v: &Vec<String>) -> (r: Vec<String>)
    ensures
        r.deep_view() == v.deep_view(),
{
    let mut r: Vec<String> = Vec::new();
    let mut i: usize = 0;
    while i < v.len()
        invariant
            0 <= i <= v.len(),
            r@.len() == i,
            forall|k: int| 0 <= k < i ==> r@[k] == v@[k],
        decreases v.len() - i,
    {
        r.push(v[i].clone());
        i = i + 1;
    }
    proof {
        assert(r.deep_view() =~= v.deep_view());
    }
    r
}

impl Clone for Researcher {
    fn clone(&self) -> (res: Self)
        ensures
            res@ == self@,
    {
        Researcher {
            id: self.id,
            name: self.name.clone(),
            address: self.address.clone(),
            email: self.email.clone(),
            phone: self.phone.clone(),
            owner: self.owner.clone(),
            reputation_score: self.reputation_score,
            total_points: self.total_points,
            badges: clone_strings(&self.badges),
            contributions: clone_strings(&self.contributions),
            achievements: clone_strings(&self.achievements),
        }
    }
}

impl Clone for ResearchProposal {
    fn clone(&self) -> (res: Self)
        ensures
            res@ == self@,
    {
        ResearchProposal {
            id: self.id,
            researcher_id: self.researcher_id,
            title: self.title.clone(),
            description: self.description.clone(),
            methodology: self.methodology.clone(),
            milestones: clone_ids(&self.milestones),
            funding_target: self.funding_target,
            current_funding: self.current_funding,
            stage: self.stage,
            reviews: clone_ids(&self.reviews),
            timeline: self.timeline,
        }
    }
}

impl Clone for Milestone {
    fn clone(&self) -> (res: Self)
        ensures
            res@ == self@,
    {
        Milestone {
            id: self.id,
            description: self.description.clone(),
            required_funding: self.required_funding,
            deadline: self.deadline.clone(),
            status: self.status,
            proofs: clone_ids(&self.proofs),
        }
    }
}

impl Clone for Review {
    fn clone(&self) -> (res: Self)
        ensures
            res@ == self@,
    {
        Review {
            id: self.id,
            proposal_id: self.proposal_id,
            reviewer: self.reviewer.clone(),
            score: self.score,
            comments: self.comments.clone(),
            stake_amount: self.stake_amount,
            verified: self.verified,
        }
    }
}

impl Clone for ProofOfReproduction {
    fn clone(&self) -> (res: Self)
        ensures
            res@ == self@,
    {
        ProofOfReproduction {
            id: self.id,
            methodology_hash: self.methodology_hash.clone(),
            results_hash: self.results_hash.clone(),
            status: self.status,
        }
    }
}

#[derive(Debug)]
pub struct ResearcherPayload {
    pub name: String,
    pub address: String,
    pub email: String,
    pub phone: String,
}

pub struct ResearcherPayloadV {
    pub name: Seq<char>,
    pub address: Seq<char>,
    pub email: Seq<char>,
    pub phone: Seq<char>,
}

impl View for ResearcherPayload {
    type V = ResearcherPayloadV;

    open spec fn view(&self) -> ResearcherPayloadV {
        ResearcherPayloadV {
            name: self.name@,
            address: self.address@,
            email: self.email@,
            phone: self.phone@,
        }
    }
}

#[derive(Debug)]
pub struct CreateProposalPayload {
    pub researcher_id: u64,
    pub title: String,
    pub description: String,
    pub methodology: String,
    pub funding_target: u64,
}

pub struct CreateProposalPayloadV {
    pub researcher_id: u64,
    pub title: Seq<char>,
    pub description: Seq<char>,
    pub methodology: Seq<char>,
    pub funding_target: u64,
}

impl View for CreateProposalPayload {
    type V = CreateProposalPayloadV;

    open spec fn view(&self) -> CreateProposalPayloadV {
        CreateProposalPayloadV {
            researcher_id: self.researcher_id,
            title: self.title@,
            description: self.description@,
            methodology: self.methodology@,
            funding_target: self.funding_target,
        }
    }
}

#[derive(Debug)]
pub struct SubmitReviewPayload {
    pub proposal_id: u64,
    pub reviewer: String,
    pub score: u64,
    pub comments: String,
    pub stake_amount: u64,
}

pub struct SubmitReviewPayloadV {
    pub proposal_id: u64,
    pub reviewer: Seq<char>,
    pub score: u64,
    pub comments: Seq<char>,
    pub stake_amount: u64,
}

impl View for SubmitReviewPayload {
    type V = SubmitReviewPayloadV;

    open spec fn view(&self) -> SubmitReviewPayloadV {
        SubmitReviewPayloadV {
            proposal_id: self.proposal_id,
            reviewer: self.reviewer@,
            score: self.score,
            comments: self.comments@,
            stake_amount: self.stake_amount,
        }
    }
}

#[derive(Clone, Copy, Debug)]
pub struct FundProposalPayload {
    pub proposal_id: u64,
    pub funding_amount: u64,
}

#[derive(Debug)]
pub struct CreateMilestonePayload {
    pub proposal_id: u64,
    pub description: String,
    pub required_funding: u64,
    pub deadline: String,
}

pub struct CreateMilestonePayloadV {
    pub proposal_id: u64,
    pub description: Seq<char>,
    pub required_funding: u64,
    pub deadline: Seq<char>,
}

impl View for CreateMilestonePayload {
    type V = CreateMilestonePayloadV;

    open spec fn view(&self) -> CreateMilestonePayloadV {
        CreateMilestonePayloadV {
            proposal_id: self.proposal_id,
            description: self.description@,
            required_funding: self.required_funding,
            deadline: self.deadline@,
        }
    }
}

/// The `proposal_id` field is carried for interface compatibility;
/// verification looks up the milestone alone.
#[derive(Clone, Copy, Debug)]
pub struct VerifyMilestonePayload {
    pub proposal_id: u64,
    pub milestone_id: u64,
}

#[derive(Debug)]
pub struct SubmitProofPayload {
    pub milestone_id: u64,
    pub methodology_hash: String,
    pub results_hash: String,
}

pub struct SubmitProofPayloadV {
    pub milestone_id: u64,
    pub methodology_hash: Seq<char>,
    pub results_hash: Seq<char>,
}

impl View for SubmitProofPayload {
    type V = SubmitProofPayloadV;

    open spec fn view(&self) -> SubmitProofPayloadV {
        SubmitProofPayloadV {
            milestone_id: self.milestone_id,
            methodology_hash: self.methodology_hash@,
            results_hash: self.results_hash@,
        }
    }
}

} // verus!

use research_fund::entities::{
    CreateMilestonePayload, CreateProposalPayload, FundProposalPayload, Message, MilestoneStatus,
    ProposalStage, ResearcherPayload, SubmitProofPayload, SubmitReviewPayload, Timeline,
    VerifyMilestonePayload,
};
use research_fund::store::Store;

fn ada_payload() -> ResearcherPayload {
    ResearcherPayload {
        name: "Ada Lovelace".to_string(),
        address: "10 Downing St".to_string(),
        email: "ada@example.com".to_string(),
        phone: "1234567890".to_string(),
    }
}

fn payload(name: &str, email: &str, phone: &str) -> ResearcherPayload {
    ResearcherPayload {
        name: name.to_string(),
        address: "221B Baker Street".to_string(),
        email: email.to_string(),
        phone: phone.to_string(),
    }
}

fn proposal_payload(rid: u64) -> CreateProposalPayload {
    CreateProposalPayload {
        researcher_id: rid,
        title: "X".to_string(),
        description: "Y".to_string(),
        methodology: "Z".to_string(),
        funding_target: 1000,
    }
}

#[test]
fn end_to_end_flow() {
    let mut s = Store::new();
    let r = s
        .create_researcher(ada_payload(), "owner-a".to_string())
        .unwrap();
    assert_eq!(r.id, 1);

    let p = s.create_proposal(proposal_payload(1), 7).unwrap();
    assert_eq!(p.id, 2);
    assert_eq!(p.stage, ProposalStage::Draft);
    assert_eq!(p.current_funding, 0);
    assert_eq!(p.timeline, Timeline::Created { at: 7 });

    let m = s
        .create_milestone(
            CreateMilestonePayload {
                proposal_id: 2,
                description: "M1".to_string(),
                required_funding: 500,
                deadline: "2025-01-01".to_string(),
            },
            8,
        )
        .unwrap();
    assert_eq!(m.id, 3);
    assert_eq!(m.status, MilestoneStatus::Pending);

    let p = s.get_proposal_by_id(2).unwrap();
    assert_eq!(p.stage, ProposalStage::Active);
    assert_eq!(p.milestones, vec![3]);
    assert_eq!(p.timeline, Timeline::MilestoneCreated { at: 8 });

    s.fund_proposal(FundProposalPayload {
        proposal_id: 2,
        funding_amount: 400,
    })
    .unwrap();
    let p = s
        .fund_proposal(FundProposalPayload {
            proposal_id: 2,
            funding_amount: 700,
        })
        .unwrap();
    assert_eq!(p.current_funding, 1100);

    let proof_rec = s
        .submit_proof(SubmitProofPayload {
            milestone_id: 3,
            methodology_hash: "hashA".to_string(),
            results_hash: "hashB".to_string(),
        })
        .unwrap();
    assert_eq!(proof_rec.id, 4);
    assert!(matches!(
        proof_rec.status,
        research_fund::entities::ProofStatus::Pending
    ));
    let m = s.get_milestone_by_id(3).unwrap();
    assert_eq!(m.proofs, vec![4]);
}

#[test]
fn counter_starts_at_zero_and_issues_from_one() {
    let mut s = Store::new();
    assert_eq!(s.id_counter(), 0);
    assert_eq!(s.generate_id(), 1);
    assert_eq!(s.generate_id(), 2);
    assert_eq!(s.id_counter(), 2);
}

#[test]
fn ids_strictly_increase() {
    let mut s = Store::new();
    let r1 = s
        .create_researcher(
            payload("Alice", "alice@example.com", "1111111111"),
            "o1".to_string(),
        )
        .unwrap();
    let r2 = s
        .create_researcher(
            payload("Bob", "bob@example.com", "2222222222"),
            "o2".to_string(),
        )
        .unwrap();
    let p = s.create_proposal(proposal_payload(r1.id), 0).unwrap();
    assert!(r1.id < r2.id);
    assert!(r2.id < p.id);
    assert_eq!(r1.id, 1);
    assert_eq!(r2.id, 2);
    assert_eq!(p.id, 3);
}

#[test]
fn duplicate_email_case_insensitive_rejected() {
    let mut s = Store::new();
    s.create_researcher(
        payload("Alice", "Alice@Example.COM", "1111111111"),
        "o1".to_string(),
    )
    .unwrap();
    let stored = s.get_researcher_by_id(1).unwrap();
    assert_eq!(stored.email, "alice@example.com");
    let second = s.create_researcher(
        payload("Alicia", "alice@example.com", "3333333333"),
        "o2".to_string(),
    );
    assert!(matches!(second, Err(Message::InvalidPayload(_))));
}

#[test]
fn duplicate_phone_rejected() {
    let mut s = Store::new();
    s.create_researcher(
        payload("Alice", "alice@example.com", "1111111111"),
        "o1".to_string(),
    )
    .unwrap();
    let second = s.create_researcher(
        payload("Bob", "bob@example.com", "1111111111"),
        "o2".to_string(),
    );
    assert!(matches!(second, Err(Message::InvalidPayload(_))));
}

#[test]
fn failed_proposal_creation_allocates_no_id() {
    let mut s = Store::new();
    let r = s.create_proposal(proposal_payload(42), 0);
    assert!(matches!(r, Err(Message::NotFound(_))));
    // The failed call must not have consumed an id: the first
    // researcher created afterwards still gets id 1.
    let r = s
        .create_researcher(ada_payload(), "owner-a".to_string())
        .unwrap();
    assert_eq!(r.id, 1);
}

#[test]
fn overfunding_is_permitted() {
    let mut s = Store::new();
    s.create_researcher(ada_payload(), "o".to_string()).unwrap();
    s.create_proposal(proposal_payload(1), 0).unwrap();
    s.fund_proposal(FundProposalPayload {
        proposal_id: 2,
        funding_amount: 900,
    })
    .unwrap();
    let p = s
        .fund_proposal(FundProposalPayload {
            proposal_id: 2,
            funding_amount: 900,
        })
        .unwrap();
    assert_eq!(p.current_funding, 1800);
    assert_eq!(p.funding_target, 1000);
}

#[test]
fn second_milestone_keeps_stage_active() {
    let mut s = Store::new();
    s.create_researcher(ada_payload(), "o".to_string()).unwrap();
    s.create_proposal(proposal_payload(1), 0).unwrap();
    let m1 = s
        .create_milestone(
            CreateMilestonePayload {
                proposal_id: 2,
                description: "M1".to_string(),
                required_funding: 1,
                deadline: "d1".to_string(),
            },
            1,
        )
        .unwrap();
    let m2 = s
        .create_milestone(
            CreateMilestonePayload {
                proposal_id: 2,
                description: "M2".to_string(),
                required_funding: 2,
                deadline: "d2".to_string(),
            },
            2,
        )
        .unwrap();
    let p = s.get_proposal_by_id(2).unwrap();
    assert_eq!(p.stage, ProposalStage::Active);
    assert_eq!(p.milestones, vec![m1.id, m2.id]);
    assert_eq!(p.milestones.iter().filter(|&&x| x == m1.id).count(), 1);
    assert_eq!(p.milestones.iter().filter(|&&x| x == m2.id).count(), 1);
}

#[test]
fn verify_milestone_is_idempotent() {
    let mut s = Store::new();
    s.create_researcher(ada_payload(), "o".to_string()).unwrap();
    s.create_proposal(proposal_payload(1), 0).unwrap();
    s.create_milestone(
        CreateMilestonePayload {
            proposal_id: 2,
            description: "M1".to_string(),
            required_funding: 1,
            deadline: "d".to_string(),
        },
        1,
    )
    .unwrap();
    let v1 = s
        .verify_milestone(VerifyMilestonePayload {
            proposal_id: 2,
            milestone_id: 3,
        })
        .unwrap();
    assert_eq!(v1.status, MilestoneStatus::Verified);
    let v2 = s
        .verify_milestone(VerifyMilestonePayload {
            proposal_id: 2,
            milestone_id: 3,
        })
        .unwrap();
    assert_eq!(v2.status, MilestoneStatus::Verified);
    let missing = s.verify_milestone(VerifyMilestonePayload {
        proposal_id: 2,
        milestone_id: 99,
    });
    assert!(matches!(missing, Err(Message::NotFound(_))));
}

#[test]
fn get_all_empty_then_one() {
    let mut s = Store::new();
    assert!(matches!(s.get_all_researchers(), Err(Message::NotFound(_))));
    assert!(matches!(s.get_all_proposals(), Err(Message::NotFound(_))));
    s.create_researcher(ada_payload(), "o".to_string()).unwrap();
    let all = s.get_all_researchers().unwrap();
    assert_eq!(all.len(), 1);
    assert_eq!(all[0].id, 1);
    s.create_proposal(proposal_payload(1), 0).unwrap();
    let all = s.get_all_proposals().unwrap();
    assert_eq!(all.len(), 1);
    assert_eq!(all[0].id, 2);
}

#[test]
fn review_is_not_linked_back_to_proposal() {
    // Documents the known gap: the submission path never appends the
    // review id to the owning proposal's `reviews` list.
    let mut s = Store::new();
    s.create_researcher(ada_payload(), "o".to_string()).unwrap();
    s.create_proposal(proposal_payload(1), 0).unwrap();
    let review = s
        .submit_review(SubmitReviewPayload {
            proposal_id: 2,
            reviewer: "rev".to_string(),
            score: 5,
            comments: "fine".to_string(),
            stake_amount: 10,
        })
        .unwrap();
    assert_eq!(review.id, 3);
    assert!(!review.verified);
    let p = s.get_proposal_by_id(2).unwrap();
    assert!(p.reviews.is_empty());
    // The review is still reachable through the review queries.
    let by_id = s.get_review_by_id(3).unwrap();
    assert_eq!(by_id.score, 5);
    let listed = s.get_reviews_by_proposal_id(2).unwrap();
    assert_eq!(listed.len(), 1);
    assert_eq!(listed[0].id, 3);
}

#[test]
fn get_researcher_by_owner_matches_identity() {
    let mut s = Store::new();
    s.create_researcher(
        payload("Alice", "alice@example.com", "1111111111"),
        "owner-1".to_string(),
    )
    .unwrap();
    s.create_researcher(
        payload("Bob", "bob@example.com", "2222222222"),
        "owner-2".to_string(),
    )
    .unwrap();
    let found = s.get_researcher_by_owner(&"owner-2".to_string()).unwrap();
    assert_eq!(found.id, 2);
    let missing = s.get_researcher_by_owner(&"owner-3".to_string());
    assert!(matches!(missing, Err(Message::NotFound(_))));
}

#[test]
fn filters_by_parent_id() {
    let mut s = Store::new();
    s.create_researcher(
        payload("Alice", "alice@example.com", "1111111111"),
        "o1".to_string(),
    )
    .unwrap();
    s.create_researcher(
        payload("Bob", "bob@example.com", "2222222222"),
        "o2".to_string(),
    )
    .unwrap();
    s.create_proposal(proposal_payload(1), 0).unwrap();
    s.create_proposal(proposal_payload(2), 0).unwrap();
    s.create_proposal(proposal_payload(1), 0).unwrap();
    let of_one = s.get_proposals_by_researcher_id(1).unwrap();
    assert_eq!(of_one.len(), 2);
    assert!(of_one.iter().all(|p| p.researcher_id == 1));
    let of_two = s.get_proposals_by_researcher_id(2).unwrap();
    assert_eq!(of_two.len(), 1);
    let none = s.get_proposals_by_researcher_id(3);
    assert!(matches!(none, Err(Message::NotFound(_))));
    let no_reviews = s.get_reviews_by_proposal_id(3);
    assert!(matches!(no_reviews, Err(Message::NotFound(_))));
}

#[test]
fn researcher_fields_are_normalized() {
    let mut s = Store::new();
    let r = s
        .create_researcher(
            ResearcherPayload {
                name: "  Ada Lovelace  ".to_string(),
                address: "\t10 Downing St \n".to_string(),
                email: "Ada@Example.COM".to_string(),
                phone: "1234567890".to_string(),
            },
            "owner-a".to_string(),
        )
        .unwrap();
    assert_eq!(r.name, "Ada Lovelace");
    assert_eq!(r.address, "10 Downing St");
    assert_eq!(r.email, "ada@example.com");
    assert_eq!(r.phone, "1234567890");
    assert_eq!(r.owner, "owner-a");
    assert_eq!(r.reputation_score, 0);
    assert_eq!(r.total_points, 0);
    assert!(r.badges.is_empty());
    assert!(r.contributions.is_empty());
    assert!(r.achievements.is_empty());
}

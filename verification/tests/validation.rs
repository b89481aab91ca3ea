use research_fund::entities::{
    CreateMilestonePayload, CreateProposalPayload, FundProposalPayload, Message, ResearcherPayload,
    SubmitProofPayload, SubmitReviewPayload,
};
use research_fund::store::Store;

fn base_payload() -> ResearcherPayload {
    ResearcherPayload {
        name: "Ada Lovelace".to_string(),
        address: "10 Downing St".to_string(),
        email: "ada@example.com".to_string(),
        phone: "1234567890".to_string(),
    }
}

fn seeded() -> Store {
    let mut s = Store::new();
    s.create_researcher(base_payload(), "o".to_string()).unwrap();
    s.create_proposal(
        CreateProposalPayload {
            researcher_id: 1,
            title: "T".to_string(),
            description: "D".to_string(),
            methodology: "M".to_string(),
            funding_target: 100,
        },
        0,
    )
    .unwrap();
    s
}

fn invalid(r: Result<research_fund::entities::Researcher, Message>) -> bool {
    matches!(r, Err(Message::InvalidPayload(_)))
}

#[test]
fn short_name_rejected() {
    let mut s = Store::new();
    let mut p = base_payload();
    p.name = " A ".to_string();
    assert!(invalid(s.create_researcher(p, "o".to_string())));
}

#[test]
fn short_address_rejected() {
    let mut s = Store::new();
    let mut p = base_payload();
    p.address = "  1234   ".to_string();
    assert!(invalid(s.create_researcher(p, "o".to_string())));
}

#[test]
fn malformed_emails_rejected() {
    for email in [
        "",
        "plain",
        "no-at.example.com",
        "two@@example.com",
        "a@b@c.com",
        "@example.com",
        "ada@nodot",
        "ada@.com",
        "ada@example.",
        "ada @example.com",
        "ada@exam ple.com",
        "ada@example.com ",
    ] {
        let mut s = Store::new();
        let mut p = base_payload();
        p.email = email.to_string();
        assert!(
            invalid(s.create_researcher(p, "o".to_string())),
            "email accepted: {:?}",
            email
        );
    }
}

#[test]
fn wellformed_emails_accepted() {
    for email in ["a@b.c", "first.last@sub.example.org", "x+y@d.io"] {
        let mut s = Store::new();
        let mut p = base_payload();
        p.email = email.to_string();
        assert!(
            s.create_researcher(p, "o".to_string()).is_ok(),
            "email rejected: {:?}",
            email
        );
    }
}

#[test]
fn malformed_phones_rejected() {
    for phone in ["", "123456789", "1234567890123456", "12345abcde", "12 34567890"] {
        let mut s = Store::new();
        let mut p = base_payload();
        p.phone = phone.to_string();
        assert!(
            invalid(s.create_researcher(p, "o".to_string())),
            "phone accepted: {:?}",
            phone
        );
    }
}

#[test]
fn phone_boundaries_accepted() {
    for phone in ["1234567890", "123456789012345"] {
        let mut s = Store::new();
        let mut p = base_payload();
        p.phone = phone.to_string();
        assert!(s.create_researcher(p, "o".to_string()).is_ok());
    }
}

#[test]
fn proposal_shape_checks() {
    let mut s = Store::new();
    s.create_researcher(base_payload(), "o".to_string()).unwrap();
    for (title, desc, meth, target) in [
        ("", "D", "M", 1u64),
        ("T", "", "M", 1),
        ("T", "D", "", 1),
        ("T", "D", "M", 0),
    ] {
        let r = s.create_proposal(
            CreateProposalPayload {
                researcher_id: 1,
                title: title.to_string(),
                description: desc.to_string(),
                methodology: meth.to_string(),
                funding_target: target,
            },
            0,
        );
        assert!(matches!(r, Err(Message::InvalidPayload(_))));
    }
}

#[test]
fn review_shape_and_parent_checks() {
    let mut s = seeded();
    for (score, comments, stake) in [(0u64, "c", 1u64), (1, "", 1), (1, "c", 0)] {
        let r = s.submit_review(SubmitReviewPayload {
            proposal_id: 2,
            reviewer: "rev".to_string(),
            score,
            comments: comments.to_string(),
            stake_amount: stake,
        });
        assert!(matches!(r, Err(Message::InvalidPayload(_))));
    }
    let r = s.submit_review(SubmitReviewPayload {
        proposal_id: 77,
        reviewer: "rev".to_string(),
        score: 1,
        comments: "c".to_string(),
        stake_amount: 1,
    });
    assert!(matches!(r, Err(Message::NotFound(_))));
}

#[test]
fn funding_shape_and_parent_checks() {
    let mut s = seeded();
    let r = s.fund_proposal(FundProposalPayload {
        proposal_id: 2,
        funding_amount: 0,
    });
    assert!(matches!(r, Err(Message::InvalidPayload(_))));
    let r = s.fund_proposal(FundProposalPayload {
        proposal_id: 9,
        funding_amount: 5,
    });
    assert!(matches!(r, Err(Message::NotFound(_))));
}

#[test]
fn milestone_shape_and_parent_checks() {
    let mut s = seeded();
    let r = s.create_milestone(
        CreateMilestonePayload {
            proposal_id: 2,
            description: "".to_string(),
            required_funding: 1,
            deadline: "d".to_string(),
        },
        0,
    );
    assert!(matches!(r, Err(Message::InvalidPayload(_))));
    let r = s.create_milestone(
        CreateMilestonePayload {
            proposal_id: 2,
            description: "M".to_string(),
            required_funding: 0,
            deadline: "d".to_string(),
        },
        0,
    );
    assert!(matches!(r, Err(Message::InvalidPayload(_))));
    let r = s.create_milestone(
        CreateMilestonePayload {
            proposal_id: 9,
            description: "M".to_string(),
            required_funding: 1,
            deadline: "d".to_string(),
        },
        0,
    );
    assert!(matches!(r, Err(Message::NotFound(_))));
}

#[test]
fn proof_shape_and_parent_checks() {
    let mut s = seeded();
    s.create_milestone(
        CreateMilestonePayload {
            proposal_id: 2,
            description: "M".to_string(),
            required_funding: 1,
            deadline: "d".to_string(),
        },
        0,
    )
    .unwrap();
    for (mh, rh) in [("", "r"), ("m", "")] {
        let r = s.submit_proof(SubmitProofPayload {
            milestone_id: 3,
            methodology_hash: mh.to_string(),
            results_hash: rh.to_string(),
        });
        assert!(matches!(r, Err(Message::InvalidPayload(_))));
    }
    let r = s.submit_proof(SubmitProofPayload {
        milestone_id: 42,
        methodology_hash: "m".to_string(),
        results_hash: "r".to_string(),
    });
    assert!(matches!(r, Err(Message::NotFound(_))));
}

#[test]
fn lookups_report_not_found() {
    let s = Store::new();
    assert!(matches!(s.get_researcher_by_id(1), Err(Message::NotFound(_))));
    assert!(matches!(s.get_proposal_by_id(1), Err(Message::NotFound(_))));
    assert!(matches!(s.get_milestone_by_id(1), Err(Message::NotFound(_))));
    assert!(matches!(s.get_review_by_id(1), Err(Message::NotFound(_))));
    assert!(matches!(s.get_proof_by_id(1), Err(Message::NotFound(_))));
}

#[test]
fn lookups_return_stored_records() {
    let mut s = seeded();
    let r = s.get_researcher_by_id(1).unwrap();
    assert_eq!(r.name, "Ada Lovelace");
    let p = s.get_proposal_by_id(2).unwrap();
    assert_eq!(p.title, "T");
    assert_eq!(p.researcher_id, 1);
    s.create_milestone(
        CreateMilestonePayload {
            proposal_id: 2,
            description: "M".to_string(),
            required_funding: 4,
            deadline: "2026-01-01".to_string(),
        },
        3,
    )
    .unwrap();
    let m = s.get_milestone_by_id(3).unwrap();
    assert_eq!(m.description, "M");
    assert_eq!(m.required_funding, 4);
    assert_eq!(m.deadline, "2026-01-01");
    s.submit_proof(SubmitProofPayload {
        milestone_id: 3,
        methodology_hash: "mh".to_string(),
        results_hash: "rh".to_string(),
    })
    .unwrap();
    let f = s.get_proof_by_id(4).unwrap();
    assert_eq!(f.methodology_hash, "mh");
    assert_eq!(f.results_hash, "rh");
}

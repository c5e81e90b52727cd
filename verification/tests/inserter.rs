use vit_servicing_station::db::inserter::{
    funds_plan, proposal_row, proposal_voteplan, proposals_plan, token_insert, tokens_plan, FundRow,
    InsertOp, Row, VoteplanRow,
};
use vit_servicing_station::db::models::{
    APITokenData, Category, Fund, Proposal, Proposer, VoteOptions, Voteplan,
};

fn voteplan(id: i32, name: &str, fund_id: i32) -> Voteplan {
    Voteplan {
        id,
        chain_voteplan_id: name.to_string(),
        chain_vote_start_time: 10,
        chain_vote_end_time: 20,
        chain_committee_end_time: 30,
        chain_voteplan_payload: "public".to_string(),
        chain_vote_encryption_key: "key".to_string(),
        fund_id,
    }
}

fn fund(id: i32, voteplans: Vec<Voteplan>) -> Fund {
    Fund {
        id,
        fund_name: format!("fund{}", id),
        fund_goal: "goal".to_string(),
        voting_power_info: ">= 500".to_string(),
        voting_power_threshold: 500,
        rewards_info: "rewards".to_string(),
        fund_start_time: 1,
        fund_end_time: 2,
        next_fund_start_time: 3,
        chain_vote_plans: voteplans,
    }
}

fn proposal(id: i32, voteplan: &str) -> Proposal {
    Proposal {
        internal_id: id,
        proposal_id: format!("p{}", id),
        proposal_category: Category {
            category_id: "c1".to_string(),
            category_name: "Development".to_string(),
            category_description: "dev".to_string(),
        },
        proposal_title: "title".to_string(),
        proposal_summary: "summary".to_string(),
        proposal_problem: "problem".to_string(),
        proposal_solution: "solution".to_string(),
        proposal_public_key: "pk".to_string(),
        proposal_funds: 1000,
        proposal_url: "url".to_string(),
        proposal_files_url: "files".to_string(),
        proposal_impact_score: 4,
        proposer: Proposer {
            proposer_name: "Bob".to_string(),
            proposer_email: "bob@example.com".to_string(),
            proposer_url: "bob.example.com".to_string(),
            proposer_relevant_experience: "lots".to_string(),
        },
        chain_proposal_id: vec![1, 2, 3],
        chain_proposal_index: 7,
        chain_vote_options: VoteOptions { options: vec!["blank".to_string(), "yes".to_string(), "no".to_string()] },
        chain_voteplan_id: voteplan.to_string(),
        chain_vote_start_time: 10,
        chain_vote_end_time: 20,
        chain_committee_end_time: 30,
        chain_voteplan_payload: "public".to_string(),
        chain_vote_encryption_key: "key".to_string(),
        fund_id: 9,
    }
}

#[test]
fn vote_options_as_csv_string() {
    let options = VoteOptions { options: vec!["blank".to_string(), "yes".to_string(), "no".to_string()] };
    assert_eq!(options.as_csv_string(), "blank,yes,no");
    assert_eq!(VoteOptions { options: vec!["only".to_string()] }.as_csv_string(), "only");
    assert_eq!(VoteOptions { options: vec![] }.as_csv_string(), "");
    assert_eq!(VoteOptions { options: vec!["".to_string(), "".to_string()] }.as_csv_string(), ",");
}

#[test]
fn token_is_inserted_as_its_row() {
    let data = APITokenData { token: vec![0xde, 0xad], creation_time: 5, expire_time: 6 };
    match token_insert(&data) {
        InsertOp::Insert(Row::APIToken(row)) => {
            assert_eq!(row.token, vec![0xde, 0xad]);
            assert_eq!(row.creation_time, 5);
            assert_eq!(row.expire_time, 6);
        }
        other => panic!("unexpected insert {:?}", other),
    }
}

#[test]
fn tokens_are_inserted_in_order() {
    let tokens = vec![
        APITokenData { token: vec![1], creation_time: 1, expire_time: 2 },
        APITokenData { token: vec![2], creation_time: 3, expire_time: 4 },
    ];
    let ops = tokens_plan(&tokens);
    assert_eq!(ops.len(), 2);
    assert_eq!(ops[0], token_insert(&tokens[0]));
    assert_eq!(ops[1], token_insert(&tokens[1]));
    assert!(tokens_plan(&[]).is_empty());
}

#[test]
fn proposal_row_maps_nested_fields_to_columns() {
    let p = proposal(4, "vp");
    let row = proposal_row(&p);
    assert_eq!(row.id, 4);
    assert_eq!(row.proposal_id, "p4");
    assert_eq!(row.proposal_category, "Development");
    assert_eq!(row.proposer_name, "Bob");
    assert_eq!(row.proposer_contact, "bob@example.com");
    assert_eq!(row.proposer_url, "bob.example.com");
    assert_eq!(row.proposer_relevant_experience, "lots");
    assert_eq!(row.proposal_impact_score, 4);
    assert_eq!(row.proposal_public_key, "pk");
    assert_eq!(row.chain_proposal_id, vec![1, 2, 3]);
    assert_eq!(row.chain_proposal_index, 7);
    assert_eq!(row.chain_vote_options, "blank,yes,no");
    assert_eq!(row.chain_voteplan_id, "vp");
}

#[test]
fn proposal_voteplan_row_has_no_id() {
    let p = proposal(4, "vp");
    assert_eq!(
        proposal_voteplan(&p),
        VoteplanRow {
            id: None,
            chain_voteplan_id: "vp".to_string(),
            chain_vote_start_time: 10,
            chain_vote_end_time: 20,
            chain_committee_end_time: 30,
            chain_voteplan_payload: "public".to_string(),
            chain_vote_encryption_key: "key".to_string(),
            fund_id: 9,
        }
    );
}

#[test]
fn proposals_plan_inserts_proposal_then_keeps_existing_voteplan() {
    let ps = vec![proposal(1, "a"), proposal(2, "b")];
    let ops = proposals_plan(&ps);
    assert_eq!(ops.len(), 4);
    assert_eq!(ops[0], InsertOp::Insert(Row::Proposal(proposal_row(&ps[0]))));
    assert_eq!(ops[1], InsertOp::InsertOrIgnore(Row::Voteplan(proposal_voteplan(&ps[0]))));
    assert_eq!(ops[2], InsertOp::Insert(Row::Proposal(proposal_row(&ps[1]))));
    assert_eq!(ops[3], InsertOp::InsertOrIgnore(Row::Voteplan(proposal_voteplan(&ps[1]))));
    assert!(proposals_plan(&[]).is_empty());
}

#[test]
fn funds_plan_inserts_each_fund_then_its_voteplans() {
    let fs = vec![fund(1, vec![voteplan(10, "x", 1), voteplan(11, "y", 1)]), fund(2, vec![])];
    let ops = funds_plan(&fs);
    assert_eq!(ops.len(), 4);
    assert_eq!(
        ops[0],
        InsertOp::Insert(Row::Fund(FundRow {
            id: 1,
            fund_name: "fund1".to_string(),
            fund_goal: "goal".to_string(),
            voting_power_info: ">= 500".to_string(),
            voting_power_threshold: 500,
            rewards_info: "rewards".to_string(),
            fund_start_time: 1,
            fund_end_time: 2,
            next_fund_start_time: 3,
        }))
    );
    match &ops[1] {
        InsertOp::InsertOrIgnore(Row::Voteplan(v)) => {
            assert_eq!(v.id, Some(10));
            assert_eq!(v.chain_voteplan_id, "x");
            assert_eq!(v.fund_id, 1);
        }
        other => panic!("unexpected insert {:?}", other),
    }
    match &ops[2] {
        InsertOp::InsertOrIgnore(Row::Voteplan(v)) => assert_eq!(v.id, Some(11)),
        other => panic!("unexpected insert {:?}", other),
    }
    match &ops[3] {
        InsertOp::Insert(Row::Fund(f)) => assert_eq!(f.id, 2),
        other => panic!("unexpected insert {:?}", other),
    }
    assert!(funds_plan(&[]).is_empty());
}

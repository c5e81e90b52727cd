use vit_servicing_station::graphql::{Category, Proposal, Proposer, QueryRoot};
use std::sync::Arc;

fn sample() -> Proposal {
    Proposal {
        proposal_id: "p-1".to_string(),
        proposal_category: "Development".to_string(),
        proposal_title: "A title".to_string(),
        proposal_summary: "A summary".to_string(),
        proposal_problem: "A problem".to_string(),
        proposal_solution: "A solution".to_string(),
        proposal_funds: 10000,
        proposal_url: "http://url".to_string(),
        proposal_files_url: "http://files".to_string(),
        proposer_name: "Alice".to_string(),
        proposer_contact: "alice@example.com".to_string(),
        proposer_url: "http://alice".to_string(),
        chain_proposal_id: "abcd".to_string(),
        chain_voteplan_id: "vp-1".to_string(),
        chain_proposal_index: 3,
        chain_vote_start_time: 100,
        chain_vote_end_time: 200,
        chain_committee_end_time: 300,
        chain_vote_options: "yes,no".to_string(),
    }
}

#[test]
fn category_has_only_the_stored_name() {
    let p = sample();
    let c = p.category();
    assert_eq!(c.category_id(), "");
    assert_eq!(c.category_name(), "Development");
    assert_eq!(c.category_description(), "");
}

#[test]
fn proposer_email_is_the_stored_contact() {
    let p = sample();
    let proposer = p.proposer();
    assert_eq!(proposer.proposer_name(), "Alice");
    assert_eq!(proposer.proposer_email(), "alice@example.com");
    assert_eq!(proposer.proposer_url(), "http://alice");
}

#[test]
fn proposal_fields_are_served_as_stored() {
    let p = sample();
    assert_eq!(p.proposal_id(), "p-1");
    assert_eq!(p.proposal_title(), "A title");
    assert_eq!(p.proposal_summary(), "A summary");
    assert_eq!(p.proposal_problem(), "A problem");
    assert_eq!(p.proposal_solution(), "A solution");
    assert_eq!(p.proposal_funds(), 10000);
    assert_eq!(p.proposal_url(), "http://url");
    assert_eq!(p.proposal_files_url(), "http://files");
    assert_eq!(p.chain_proposal_id(), "abcd");
    assert_eq!(p.chain_voteplan_id(), "vp-1");
    assert_eq!(p.chain_proposal_index(), 3);
    assert_eq!(p.chain_vote_start_time(), 100);
    assert_eq!(p.chain_vote_end_time(), 200);
    assert_eq!(p.chain_committee_end_time(), 300);
    assert_eq!(p.chain_vote_options(), "yes,no");
}

#[test]
fn empty_category_name_gives_empty_category() {
    let mut p = sample();
    p.proposal_category = String::new();
    let c = p.category();
    assert_eq!(c.category_name(), "");
}

#[test]
fn query_root_shares_its_pool() {
    let pool = Arc::new(42u32);
    let root = QueryRoot { db_connection_pool: pool.clone() };
    assert_eq!(*root.db_connection_pool, 42);
    assert_eq!(Arc::strong_count(&pool), 2);
}

#[test]
fn category_and_proposer_built_from_texts() {
    let c = Category::new("1".to_string(), "Dev".to_string(), "Development".to_string());
    assert_eq!((c.category_id(), c.category_name(), c.category_description()), ("1", "Dev", "Development"));
    let p = Proposer::new("Ann".to_string(), "ann@x".to_string(), "ann.x".to_string());
    assert_eq!((p.proposer_name(), p.proposer_email(), p.proposer_url()), ("Ann", "ann@x", "ann.x"));
}

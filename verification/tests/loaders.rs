use vit_servicing_station::db::models::{Category, Fund, Proposal, Proposer, VoteOptions, Voteplan};
use vit_servicing_station::loaders::{
    BackupAction, BackupEvent, BackupState, CSVDataCmd, LoadAction, LoadError, LoadErrorKind, LoadEvent,
    LoadState,
};

const DB: &str = "db.sqlite";
const FUNDS: &str = "funds.csv";
const VOTEPLANS: &str = "voteplans.csv";
const PROPOSALS: &str = "proposals.csv";

fn voteplan(id: i32, name: &str) -> Voteplan {
    Voteplan {
        id,
        chain_voteplan_id: name.to_string(),
        chain_vote_start_time: 10,
        chain_vote_end_time: 20,
        chain_committee_end_time: 30,
        chain_voteplan_payload: "public".to_string(),
        chain_vote_encryption_key: "key".to_string(),
        fund_id: 0,
    }
}

fn fund(id: i32) -> Fund {
    Fund {
        id,
        fund_name: "fund".to_string(),
        fund_goal: "goal".to_string(),
        voting_power_info: ">= 500".to_string(),
        voting_power_threshold: 500,
        rewards_info: "rewards".to_string(),
        fund_start_time: 1,
        fund_end_time: 2,
        next_fund_start_time: 3,
        chain_vote_plans: vec![],
    }
}

fn proposal(id: i32) -> Proposal {
    Proposal {
        internal_id: id,
        proposal_id: format!("p{}", id),
        proposal_category: Category {
            category_id: String::new(),
            category_name: "Development".to_string(),
            category_description: String::new(),
        },
        proposal_title: "title".to_string(),
        proposal_summary: "summary".to_string(),
        proposal_problem: "problem".to_string(),
        proposal_solution: "solution".to_string(),
        proposal_public_key: "pk".to_string(),
        proposal_funds: 1000,
        proposal_url: "url".to_string(),
        proposal_files_url: "files".to_string(),
        proposal_impact_score: 4,
        proposer: Proposer {
            proposer_name: "Bob".to_string(),
            proposer_email: "bob@example.com".to_string(),
            proposer_url: "bob.example.com".to_string(),
            proposer_relevant_experience: "lots".to_string(),
        },
        chain_proposal_id: vec![1, 2, 3],
        chain_proposal_index: 7,
        chain_vote_options: VoteOptions { options: vec!["yes".to_string(), "no".to_string()] },
        chain_voteplan_id: "vp".to_string(),
        chain_vote_start_time: 10,
        chain_vote_end_time: 20,
        chain_committee_end_time: 30,
        chain_voteplan_payload: "public".to_string(),
        chain_vote_encryption_key: "key".to_string(),
        fund_id: 0,
    }
}

fn step(state: LoadState, event: LoadEvent) -> (LoadState, LoadAction) {
    CSVDataCmd::handle_load(DB, FUNDS, VOTEPLANS, PROPOSALS, state, event)
}

fn error(kind: LoadErrorKind, message: &str) -> LoadError {
    LoadError { kind, message: message.to_string() }
}

fn finished_with(step: (LoadState, LoadAction)) -> Result<(), LoadError> {
    match step {
        (LoadState::Done, LoadAction::Finish(outcome)) => outcome,
        other => panic!("the load did not finish: {:?}", other),
    }
}

/// Runs the load up to the state that waits for the funds records.
fn reading_funds() -> LoadState {
    let (state, action) = step(LoadState::Start, LoadEvent::Begin);
    assert_eq!(action, LoadAction::CheckDbFile(DB.to_string()));
    let (state, action) = step(state, LoadEvent::DbFileChecked(Ok(())));
    assert_eq!(action, LoadAction::ReadFunds(FUNDS.to_string()));
    state
}

/// Runs the load up to the state that waits for the pool.
fn opening_pool(voteplans: Vec<Voteplan>, proposals: Vec<Proposal>) -> LoadState {
    let (state, action) = step(reading_funds(), LoadEvent::FundsRead(Ok(vec![Ok(fund(0))])));
    assert_eq!(action, LoadAction::ReadVoteplans(VOTEPLANS.to_string()));
    let (state, action) = step(state, LoadEvent::VoteplansRead(Ok(voteplans.into_iter().map(Ok).collect())));
    assert_eq!(action, LoadAction::ReadProposals(PROPOSALS.to_string()));
    let (state, action) = step(state, LoadEvent::ProposalsRead(Ok(proposals.into_iter().map(Ok).collect())));
    assert_eq!(action, LoadAction::OpenPool(DB.to_string()));
    state
}

#[test]
fn collect_records_keeps_all_values_in_order() {
    let records: Vec<Result<i32, String>> = vec![Ok(3), Ok(1), Ok(2)];
    assert_eq!(CSVDataCmd::collect_records("f.csv", records), Ok(vec![3, 1, 2]));
    let none: Vec<Result<i32, String>> = vec![];
    assert_eq!(CSVDataCmd::collect_records("f.csv", none), Ok(vec![]));
}

#[test]
fn collect_records_reports_first_bad_record() {
    let records: Vec<Result<i32, String>> = vec![Ok(3), Err("bad field".to_string()), Err("later".to_string())];
    assert_eq!(
        CSVDataCmd::collect_records("f.csv", records),
        Err(error(LoadErrorKind::InvalidInput, "Error in file f.csv.\nCause:\n\tbad field"))
    );
}

#[test]
fn load_succeeds_and_assigns_the_stored_fund_id() {
    let state = opening_pool(vec![voteplan(1, "a"), voteplan(2, "b")], vec![proposal(5)]);
    let (state, action) = step(state, LoadEvent::PoolOpened(Ok(())));
    assert_eq!(action, LoadAction::Connect);
    let (state, action) = step(state, LoadEvent::Connected(Ok(())));
    assert_eq!(action, LoadAction::InsertFund(fund(0)));
    let (state, action) = step(state, LoadEvent::FundInserted(Ok(fund(42))));
    match action {
        LoadAction::InsertVoteplans(vs) => {
            assert_eq!(vs.len(), 2);
            assert_eq!(vs[0], Voteplan { fund_id: 42, ..voteplan(1, "a") });
            assert_eq!(vs[1], Voteplan { fund_id: 42, ..voteplan(2, "b") });
        }
        other => panic!("unexpected action {:?}", other),
    }
    let (state, action) = step(state, LoadEvent::VoteplansInserted(Ok(())));
    assert_eq!(action, LoadAction::InsertProposals(vec![Proposal { fund_id: 42, ..proposal(5) }]));
    assert_eq!(finished_with(step(state, LoadEvent::ProposalsInserted(Ok(())))), Ok(()));
}

#[test]
fn missing_database_ends_the_load() {
    let (state, _) = step(LoadState::Start, LoadEvent::Begin);
    let missing = error(LoadErrorKind::NotFound, "no db");
    assert_eq!(finished_with(step(state, LoadEvent::DbFileChecked(Err(missing.clone())))), Err(missing));
}

#[test]
fn unreadable_funds_file_is_other_error() {
    assert_eq!(
        finished_with(step(reading_funds(), LoadEvent::FundsRead(Err("No such file".to_string())))),
        Err(error(LoadErrorKind::Other, "No such file"))
    );
}

#[test]
fn bad_fund_record_is_invalid_input() {
    assert_eq!(
        finished_with(step(reading_funds(), LoadEvent::FundsRead(Ok(vec![Err("bad id".to_string())])))),
        Err(error(LoadErrorKind::InvalidInput, "Error in file funds.csv.\nCause:\n\tbad id"))
    );
}

#[test]
fn no_fund_is_invalid_data() {
    assert_eq!(
        finished_with(step(reading_funds(), LoadEvent::FundsRead(Ok(vec![])))),
        Err(error(
            LoadErrorKind::InvalidData,
            "Wrong number of input fund in funds.csv, just one fund data can be process at a time"
        ))
    );
}

#[test]
fn two_funds_are_invalid_data() {
    assert_eq!(
        finished_with(step(reading_funds(), LoadEvent::FundsRead(Ok(vec![Ok(fund(1)), Ok(fund(2))])))),
        Err(error(
            LoadErrorKind::InvalidData,
            "Wrong number of input fund in funds.csv, just one fund data can be process at a time"
        ))
    );
}

#[test]
fn bad_voteplan_record_names_its_file() {
    let (state, _) = step(reading_funds(), LoadEvent::FundsRead(Ok(vec![Ok(fund(0))])));
    assert_eq!(
        finished_with(step(state, LoadEvent::VoteplansRead(Ok(vec![Ok(voteplan(1, "a")), Err("oops".to_string())])))),
        Err(error(LoadErrorKind::InvalidInput, "Error in file voteplans.csv.\nCause:\n\toops"))
    );
}

#[test]
fn bad_proposal_record_names_its_file() {
    let (state, _) = step(reading_funds(), LoadEvent::FundsRead(Ok(vec![Ok(fund(0))])));
    let (state, _) = step(state, LoadEvent::VoteplansRead(Ok(vec![])));
    assert_eq!(
        finished_with(step(state, LoadEvent::ProposalsRead(Ok(vec![Err("oops".to_string())])))),
        Err(error(LoadErrorKind::InvalidInput, "Error in file proposals.csv.\nCause:\n\toops"))
    );
}

#[test]
fn unreadable_voteplans_and_proposals_files_are_other_errors() {
    let (state, _) = step(reading_funds(), LoadEvent::FundsRead(Ok(vec![Ok(fund(0))])));
    assert_eq!(
        finished_with(step(state, LoadEvent::VoteplansRead(Err("gone".to_string())))),
        Err(error(LoadErrorKind::Other, "gone"))
    );
    let (state, _) = step(reading_funds(), LoadEvent::FundsRead(Ok(vec![Ok(fund(0))])));
    let (state, _) = step(state, LoadEvent::VoteplansRead(Ok(vec![])));
    assert_eq!(
        finished_with(step(state, LoadEvent::ProposalsRead(Err("gone".to_string())))),
        Err(error(LoadErrorKind::Other, "gone"))
    );
}

#[test]
fn pool_failure_is_invalid_input() {
    let state = opening_pool(vec![], vec![]);
    assert_eq!(
        finished_with(step(state, LoadEvent::PoolOpened(Err("bad url".to_string())))),
        Err(error(LoadErrorKind::InvalidInput, "bad url"))
    );
}

#[test]
fn connection_failure_is_not_connected() {
    let (state, _) = step(opening_pool(vec![], vec![]), LoadEvent::PoolOpened(Ok(())));
    assert_eq!(
        finished_with(step(state, LoadEvent::Connected(Err("timed out".to_string())))),
        Err(error(LoadErrorKind::NotConnected, "timed out"))
    );
}

#[test]
fn insert_failures_are_other_errors() {
    let connected = || {
        let (state, _) = step(opening_pool(vec![voteplan(1, "a")], vec![proposal(1)]), LoadEvent::PoolOpened(Ok(())));
        step(state, LoadEvent::Connected(Ok(()))).0
    };
    assert_eq!(
        finished_with(step(connected(), LoadEvent::FundInserted(Err("locked".to_string())))),
        Err(error(LoadErrorKind::Other, "locked"))
    );
    let (state, _) = step(connected(), LoadEvent::FundInserted(Ok(fund(3))));
    assert_eq!(
        finished_with(step(state, LoadEvent::VoteplansInserted(Err("dup".to_string())))),
        Err(error(LoadErrorKind::Other, "dup"))
    );
    let (state, _) = step(connected(), LoadEvent::FundInserted(Ok(fund(3))));
    let (state, _) = step(state, LoadEvent::VoteplansInserted(Ok(())));
    assert_eq!(
        finished_with(step(state, LoadEvent::ProposalsInserted(Err("dup".to_string())))),
        Err(error(LoadErrorKind::Other, "dup"))
    );
}

#[test]
fn load_run_has_at_most_ten_steps() {
    let mut state = LoadState::Start;
    let mut events = vec![
        LoadEvent::Begin,
        LoadEvent::DbFileChecked(Ok(())),
        LoadEvent::FundsRead(Ok(vec![Ok(fund(0))])),
        LoadEvent::VoteplansRead(Ok(vec![])),
        LoadEvent::ProposalsRead(Ok(vec![])),
        LoadEvent::PoolOpened(Ok(())),
        LoadEvent::Connected(Ok(())),
        LoadEvent::FundInserted(Ok(fund(1))),
        LoadEvent::VoteplansInserted(Ok(())),
        LoadEvent::ProposalsInserted(Ok(())),
    ]
    .into_iter();
    let mut steps = 0;
    loop {
        let (next, action) = step(state, events.next().unwrap());
        steps += 1;
        if let LoadAction::Finish(outcome) = action {
            assert_eq!(outcome, Ok(()));
            assert_eq!(next, LoadState::Done);
            break;
        }
        state = next;
    }
    assert_eq!(steps, 10);
}

fn backup_step(state: BackupState, event: BackupEvent) -> (BackupState, BackupAction) {
    CSVDataCmd::handle_load_with_db_backup(DB, state, event)
}

#[test]
fn guarded_load_success_does_not_restore() {
    let (state, action) = backup_step(BackupState::Start, BackupEvent::Begin);
    assert_eq!(action, BackupAction::Backup(DB.to_string()));
    let (state, action) = backup_step(state, BackupEvent::BackedUp(Ok(())));
    assert_eq!(action, BackupAction::RunLoad);
    assert_eq!(backup_step(state, BackupEvent::Loaded(Ok(()))), (BackupState::Done, BackupAction::Finish(Ok(()))));
}

#[test]
fn failed_backup_ends_before_loading() {
    let (state, _) = backup_step(BackupState::Start, BackupEvent::Begin);
    let e = error(LoadErrorKind::PermissionDenied, "read only");
    assert_eq!(
        backup_step(state, BackupEvent::BackedUp(Err(e.clone()))),
        (BackupState::Done, BackupAction::Finish(Err(e)))
    );
}

#[test]
fn failed_load_is_restored_and_reported() {
    let (state, _) = backup_step(BackupState::Start, BackupEvent::Begin);
    let (state, _) = backup_step(state, BackupEvent::BackedUp(Ok(())));
    let load_error = error(LoadErrorKind::InvalidData, "two funds");
    let (state, action) = backup_step(state, BackupEvent::Loaded(Err(load_error.clone())));
    assert_eq!(action, BackupAction::Restore(DB.to_string()));
    assert_eq!(
        backup_step(state, BackupEvent::Restored(Ok(()))),
        (BackupState::Done, BackupAction::Finish(Err(load_error)))
    );
}

#[test]
fn failed_restore_is_reported_instead() {
    let (state, _) = backup_step(BackupState::Start, BackupEvent::Begin);
    let (state, _) = backup_step(state, BackupEvent::BackedUp(Ok(())));
    let (state, _) = backup_step(state, BackupEvent::Loaded(Err(error(LoadErrorKind::Other, "load"))));
    let restore_error = error(LoadErrorKind::NotFound, "backup gone");
    assert_eq!(
        backup_step(state, BackupEvent::Restored(Err(restore_error.clone()))),
        (BackupState::Done, BackupAction::Finish(Err(restore_error)))
    );
}

#[test]
fn load_command_holds_its_paths() {
    let cmd = CSVDataCmd::Load {
        db_url: DB.to_string(),
        funds: FUNDS.to_string(),
        voteplans: VOTEPLANS.to_string(),
        proposals: PROPOSALS.to_string(),
    };
    assert_eq!(cmd.clone(), cmd);
}

//! The decisions of the command that loads a fund, its vote plans and its
//! proposals from CSV files into the database.
//!
//! Reading the files and talking to the database are the caller's part:
//! the command is driven as a state machine. The caller starts it with the
//! `Begin` event, performs each action it returns, and hands back the event
//! that reports the outcome, until the action is `Finish`.

use vstd::prelude::*;
use crate::db::models::{Fund, Proposal, Voteplan};

verus! {

/// The commands of the CSV tool.
#[derive(Clone, Debug, PartialEq, Eq)]
pub enum CSVDataCmd {
    /// Load funds, vote plans and proposals into a SQLite database file.
    Load { db_url: String, funds: String, voteplans: String, proposals: String },
}

/// The kind of a failed load, in the terms of `std::io::ErrorKind`.
#[derive(Clone, Copy, Debug, PartialEq, Eq)]
pub enum LoadErrorKind {
    NotFound,
    PermissionDenied,
    AlreadyExists,
    NotConnected,
    InvalidInput,
    InvalidData,
    Other,
}

/// Why a load failed.
#[derive(Clone, Debug, PartialEq, Eq)]
pub struct LoadError {
    pub kind: LoadErrorKind,
    pub message: String,
}

/// The message for a record of `path` that could not be read, for `cause`.
pub open spec fn record_error_message(path: Seq<char>, cause: Seq<char>) -> Seq<char> {
    "Error in file "@ + path + ".\nCause:\n\t"@ + cause
}

/// The message for a funds file that does not hold exactly one fund.
pub open spec fn fund_count_message(path: Seq<char>) -> Seq<char> {
    "Wrong number of input fund in "@ + path + ", just one fund data can be process at a time"@
}

/// Every record was read.
pub open spec fn all_parsed<T>(records: Seq<Result<T, String>>) -> bool {
    forall|i: int| 0 <= i < records.len() ==> #[trigger] records[i] is Ok
}

/// The values of records that were all read.
pub open spec fn parsed_values<T>(records: Seq<Result<T, String>>) -> Seq<T> {
    records.map_values(|r: Result<T, String>| r->Ok_0)
}

/// Record `i` is the first that could not be read.
pub open spec fn is_first_failure<T>(records: Seq<Result<T, String>>, i: int) -> bool {
    &&& 0 <= i < records.len()
    &&& records[i] is Err
    &&& forall|j: int| 0 <= j < i ==> #[trigger] records[j] is Ok
}

/// `e` reports the first record of the file at `path` that could not be
/// read.
pub open spec fn is_record_error<T>(e: LoadError, path: Seq<char>, records: Seq<Result<T, String>>) -> bool {
    &&& e.kind == LoadErrorKind::InvalidInput
    &&& exists|i: int|
        is_first_failure(records, i) && e.message@ == record_error_message(path, #[trigger] records[i]->Err_0@)
}

/// The error of a kind with a message.
pub open spec fn is_error(e: LoadError, kind: LoadErrorKind, message: Seq<char>) -> bool {
    e.kind == kind && e.message@ == message
}

/// The vote plans, each assigned to fund `fund_id`.
pub open spec fn with_fund_id_voteplans(voteplans: Seq<Voteplan>, fund_id: i32) -> Seq<Voteplan> {
    voteplans.map_values(|v: Voteplan| Voteplan { fund_id: fund_id, ..v })
}

/// The proposals, each assigned to fund `fund_id`.
pub open spec fn with_fund_id_proposals(proposals: Seq<Proposal>, fund_id: i32) -> Seq<Proposal> {
    proposals.map_values(|p: Proposal| Proposal { fund_id: fund_id, ..p })
}

/// The values of records that were all read are the records' values, one
/// for each record, in order.
pub proof fn law_parsed_values_are_the_records<T>(records: Seq<Result<T, String>>)
    requires
        all_parsed(records),
    ensures
        parsed_values(records).len() == records.len(),
        forall|i: int| 0 <= i < records.len() ==> records[i] == Ok::<T, String>(#[trigger] parsed_values(records)[i]),
{
    assert forall|i: int| 0 <= i < records.len() implies records[i] == Ok::<T, String>(#[trigger] parsed_values(records)[i]) by {
        assert(records[i] is Ok);
    }
}

/// Assigning vote plans to a fund keeps them all, in order, and changes
/// nothing but their fund id, which becomes the fund's, whatever it was.
pub proof fn law_assigned_voteplans(voteplans: Seq<Voteplan>, fund_id: i32)
    ensures
        with_fund_id_voteplans(voteplans, fund_id).len() == voteplans.len(),
        forall|i: int|
            0 <= i < voteplans.len() ==> (#[trigger] with_fund_id_voteplans(voteplans, fund_id)[i]).fund_id == fund_id,
        forall|i: int|
            0 <= i < voteplans.len() ==> #[trigger] with_fund_id_voteplans(voteplans, fund_id)[i] == (Voteplan {
                fund_id: fund_id,
                ..voteplans[i]
            }),
{
}

/// Assigning proposals to a fund keeps them all, in order, and changes
/// nothing but their fund id, which becomes the fund's, whatever it was.
pub proof fn law_assigned_proposals(proposals: Seq<Proposal>, fund_id: i32)
    ensures
        with_fund_id_proposals(proposals, fund_id).len() == proposals.len(),
        forall|i: int|
            0 <= i < proposals.len() ==> (#[trigger] with_fund_id_proposals(proposals, fund_id)[i]).fund_id == fund_id,
        forall|i: int|
            0 <= i < proposals.len() ==> #[trigger] with_fund_id_proposals(proposals, fund_id)[i] == (Proposal {
                fund_id: fund_id,
                ..proposals[i]
            }),
{
}

/// Where a load stands.
#[derive(Debug, PartialEq, Eq)]
pub enum LoadState {
    /// Nothing done yet.
    Start,
    /// Waiting to learn whether the database file exists.
    CheckingDb,
    /// Waiting for the records of the funds file.
    ReadingFunds,
    /// Waiting for the records of the vote plans file.
    ReadingVoteplans { fund: Fund },
    /// Waiting for the records of the proposals file.
    ReadingProposals { fund: Fund, voteplans: Vec<Voteplan> },
    /// Waiting for the pool of database connections.
    OpeningPool { fund: Fund, voteplans: Vec<Voteplan>, proposals: Vec<Proposal> },
    /// Waiting for a connection from the pool.
    Connecting { fund: Fund, voteplans: Vec<Voteplan>, proposals: Vec<Proposal> },
    /// Waiting for the stored fund, with the id the database gave it.
    InsertingFund { voteplans: Vec<Voteplan>, proposals: Vec<Proposal> },
    /// Waiting for the vote plans to be stored.
    InsertingVoteplans { proposals: Vec<Proposal> },
    /// Waiting for the proposals to be stored.
    InsertingProposals,
    /// Finished.
    Done,
}

/// What the caller reports back.
#[derive(Debug, PartialEq, Eq)]
pub enum LoadEvent {
    /// Start the load.
    Begin,
    /// Whether the database file is there.
    DbFileChecked(Result<(), LoadError>),
    /// The records of the funds file, each read or failed with its cause;
    /// or why the file could not be opened.
    FundsRead(Result<Vec<Result<Fund, String>>, String>),
    /// The records of the vote plans file, as for the funds.
    VoteplansRead(Result<Vec<Result<Voteplan, String>>, String>),
    /// The records of the proposals file, as for the funds.
    ProposalsRead(Result<Vec<Result<Proposal, String>>, String>),
    /// Whether the pool could be opened, or why not.
    PoolOpened(Result<(), String>),
    /// Whether a connection was had, or why not.
    Connected(Result<(), String>),
    /// The fund as stored, or why it was not.
    FundInserted(Result<Fund, String>),
    /// Whether the vote plans were stored, or why not.
    VoteplansInserted(Result<(), String>),
    /// Whether the proposals were stored, or why not.
    ProposalsInserted(Result<(), String>),
}

/// What the caller is asked to do next.
#[derive(Debug, PartialEq, Eq)]
pub enum LoadAction {
    /// Check that the database file at this url exists.
    CheckDbFile(String),
    /// Read the funds file at this path.
    ReadFunds(String),
    /// Read the vote plans file at this path.
    ReadVoteplans(String),
    /// Read the proposals file at this path.
    ReadProposals(String),
    /// Open the pool of connections to the database at this url.
    OpenPool(String),
    /// Take a connection from the pool.
    Connect,
    /// Store this fund and report it back with its id.
    InsertFund(Fund),
    /// Store these vote plans in one batch.
    InsertVoteplans(Vec<Voteplan>),
    /// Store these proposals in one batch.
    InsertProposals(Vec<Proposal>),
    /// The load is over, with this outcome.
    Finish(Result<(), LoadError>),
}

/// The event that the load waits for in `state`.
pub open spec fn load_awaits(state: LoadState, event: LoadEvent) -> bool {
    match state {
        LoadState::Start => event is Begin,
        LoadState::CheckingDb => event is DbFileChecked,
        LoadState::ReadingFunds => event is FundsRead,
        LoadState::ReadingVoteplans { .. } => event is VoteplansRead,
        LoadState::ReadingProposals { .. } => event is ProposalsRead,
        LoadState::OpeningPool { .. } => event is PoolOpened,
        LoadState::Connecting { .. } => event is Connected,
        LoadState::InsertingFund { .. } => event is FundInserted,
        LoadState::InsertingVoteplans { .. } => event is VoteplansInserted,
        LoadState::InsertingProposals => event is ProposalsInserted,
        LoadState::Done => false,
    }
}

/// The load ends, failing with an error of this kind and message.
pub open spec fn fails_with(next: LoadState, action: LoadAction, kind: LoadErrorKind, message: Seq<char>) -> bool {
    &&& next is Done
    &&& action matches LoadAction::Finish(Err(e)) && is_error(e, kind, message)
}

/// One step of the load of the files at `funds_path`, `voteplans_path` and
/// `proposals_path` into the database at `db_url`: from `state`, on
/// `event`, the load goes to `next` and asks for `action`.
pub open spec fn load_step(
    db_url: Seq<char>,
    funds_path: Seq<char>,
    voteplans_path: Seq<char>,
    proposals_path: Seq<char>,
    state: LoadState,
    event: LoadEvent,
    next: LoadState,
    action: LoadAction,
) -> bool {
    match state {
        LoadState::Start => {
            &&& next is CheckingDb
            &&& action matches LoadAction::CheckDbFile(url) && url@ == db_url
        },
        LoadState::CheckingDb => match event {
            LoadEvent::DbFileChecked(Err(e)) => next is Done && action == LoadAction::Finish(Err(e)),
            LoadEvent::DbFileChecked(Ok(_)) => {
                &&& next is ReadingFunds
                &&& action matches LoadAction::ReadFunds(path) && path@ == funds_path
            },
            _ => false,
        },
        LoadState::ReadingFunds => match event {
            LoadEvent::FundsRead(Err(cause)) => fails_with(next, action, LoadErrorKind::Other, cause@),
            LoadEvent::FundsRead(Ok(records)) => if !all_parsed(records@) {
                &&& next is Done
                &&& action matches LoadAction::Finish(Err(e)) && is_record_error(e, funds_path, records@)
            } else if records@.len() != 1 {
                fails_with(next, action, LoadErrorKind::InvalidData, fund_count_message(funds_path))
            } else {
                &&& next == LoadState::ReadingVoteplans { fund: records@[0]->Ok_0 }
                &&& action matches LoadAction::ReadVoteplans(path) && path@ == voteplans_path
            },
            _ => false,
        },
        LoadState::ReadingVoteplans { fund } => match event {
            LoadEvent::VoteplansRead(Err(cause)) => fails_with(next, action, LoadErrorKind::Other, cause@),
            LoadEvent::VoteplansRead(Ok(records)) => if !all_parsed(records@) {
                &&& next is Done
                &&& action matches LoadAction::Finish(Err(e)) && is_record_error(e, voteplans_path, records@)
            } else {
                &&& next matches LoadState::ReadingProposals { fund: f, voteplans: vs } && f == fund && vs@
                    == parsed_values(records@)
                &&& action matches LoadAction::ReadProposals(path) && path@ == proposals_path
            },
            _ => false,
        },
        LoadState::ReadingProposals { fund, voteplans } => match event {
            LoadEvent::ProposalsRead(Err(cause)) => fails_with(next, action, LoadErrorKind::Other, cause@),
            LoadEvent::ProposalsRead(Ok(records)) => if !all_parsed(records@) {
                &&& next is Done
                &&& action matches LoadAction::Finish(Err(e)) && is_record_error(e, proposals_path, records@)
            } else {
                &&& next matches LoadState::OpeningPool { fund: f, voteplans: vs, proposals: ps } && f == fund
                    && vs == voteplans && ps@ == parsed_values(records@)
                &&& action matches LoadAction::OpenPool(url) && url@ == db_url
            },
            _ => false,
        },
        LoadState::OpeningPool { fund, voteplans, proposals } => match event {
            LoadEvent::PoolOpened(Err(cause)) => fails_with(next, action, LoadErrorKind::InvalidInput, cause@),
            LoadEvent::PoolOpened(Ok(_)) => next == LoadState::Connecting { fund, voteplans, proposals } && action
                is Connect,
            _ => false,
        },
        LoadState::Connecting { fund, voteplans, proposals } => match event {
            LoadEvent::Connected(Err(cause)) => fails_with(next, action, LoadErrorKind::NotConnected, cause@),
            LoadEvent::Connected(Ok(_)) => next == LoadState::InsertingFund { voteplans, proposals } && action
                == LoadAction::InsertFund(fund),
            _ => false,
        },
        LoadState::InsertingFund { voteplans, proposals } => match event {
            LoadEvent::FundInserted(Err(cause)) => fails_with(next, action, LoadErrorKind::Other, cause@),
            LoadEvent::FundInserted(Ok(stored)) => {
                &&& next matches LoadState::InsertingVoteplans { proposals: ps } && ps@ == with_fund_id_proposals(
                    proposals@,
                    stored.id,
                )
                &&& action matches LoadAction::InsertVoteplans(vs) && vs@ == with_fund_id_voteplans(
                    voteplans@,
                    stored.id,
                )
            },
            _ => false,
        },
        LoadState::InsertingVoteplans { proposals } => match event {
            LoadEvent::VoteplansInserted(Err(cause)) => fails_with(next, action, LoadErrorKind::Other, cause@),
            LoadEvent::VoteplansInserted(Ok(_)) => next is InsertingProposals && action == LoadAction::InsertProposals(
                proposals,
            ),
            _ => false,
        },
        LoadState::InsertingProposals => match event {
            LoadEvent::ProposalsInserted(Err(cause)) => fails_with(next, action, LoadErrorKind::Other, cause@),
            LoadEvent::ProposalsInserted(Ok(_)) => next is Done && action == LoadAction::Finish(Ok(())),
            _ => false,
        },
        LoadState::Done => false,
    }
}

/// The error for a record of `csv_path` that could not be read.
fn record_error(csv_path: &str, cause: &str) -> (e: LoadError)
    ensures
        e.kind == LoadErrorKind::InvalidInput,
        e.message@ == record_error_message(csv_path@, cause@),
{
    let mut message = "Error in file ".to_owned();
    message.append(csv_path);
    message.append(".\nCause:\n\t");
    message.append(cause);
    LoadError { kind: LoadErrorKind::InvalidInput, message }
}

/// The error for a funds file that does not hold exactly one fund.
fn fund_count_error(funds_path: &str) -> (e: LoadError)
    ensures
        e.kind == LoadErrorKind::InvalidData,
        e.message@ == fund_count_message(funds_path@),
{
    let mut message = "Wrong number of input fund in ".to_owned();
    message.append(funds_path);
    message.append(", just one fund data can be process at a time");
    LoadError { kind: LoadErrorKind::InvalidData, message }
}

/// The vote plans, each assigned to the fund `fund_id`.
fn assign_voteplans(voteplans: Vec<Voteplan>, fund_id: i32) -> (assigned: Vec<Voteplan>)
    ensures
        assigned@ == with_fund_id_voteplans(voteplans@, fund_id),
        assigned@.len() == voteplans@.len(),
        forall|i: int| 0 <= i < voteplans@.len() ==> (#[trigger] assigned@[i]).fund_id == fund_id,
        forall|i: int|
            0 <= i < voteplans@.len() ==> #[trigger] assigned@[i] == (Voteplan { fund_id: fund_id, ..voteplans@[i] }),
{
    let mut assigned = voteplans;
    let n = assigned.len();
    for i in 0..n
        invariant
            n == voteplans@.len(),
            assigned@.len() == n,
            forall|j: int| 0 <= j < i ==> #[trigger] assigned@[j] == (Voteplan { fund_id: fund_id, ..voteplans@[j] }),
            forall|j: int| i <= j < n ==> #[trigger] assigned@[j] == voteplans@[j],
    {
        assigned[i].fund_id = fund_id;
    }
    proof {
        assert(assigned@ =~= with_fund_id_voteplans(voteplans@, fund_id));
    }
    assigned
}

/// The proposals, each assigned to the fund `fund_id`.
fn assign_proposals(proposals: Vec<Proposal>, fund_id: i32) -> (assigned: Vec<Proposal>)
    ensures
        assigned@ == with_fund_id_proposals(proposals@, fund_id),
        assigned@.len() == proposals@.len(),
        forall|i: int| 0 <= i < proposals@.len() ==> (#[trigger] assigned@[i]).fund_id == fund_id,
        forall|i: int|
            0 <= i < proposals@.len() ==> #[trigger] assigned@[i] == (Proposal { fund_id: fund_id, ..proposals@[i] }),
{
    let mut assigned = proposals;
    let n = assigned.len();
    for i in 0..n
        invariant
            n == proposals@.len(),
            assigned@.len() == n,
            forall|j: int| 0 <= j < i ==> #[trigger] assigned@[j] == (Proposal { fund_id: fund_id, ..proposals@[j] }),
            forall|j: int| i <= j < n ==> #[trigger] assigned@[j] == proposals@[j],
    {
        assigned[i].fund_id = fund_id;
    }
    proof {
        assert(assigned@ =~= with_fund_id_proposals(proposals@, fund_id));
    }
    assigned
}

impl CSVDataCmd {
    /// The values of the records read from the CSV file at `csv_path`, in
    /// order; or, if one could not be read, the error that names the file
    /// and the cause for the first such record.
    pub fn collect_records<T>(csv_path: &str, records: Vec<Result<T, String>>) -> (res: Result<Vec<T>, LoadError>)
        ensures
            match res {
                Ok(values) => {
                    &&& all_parsed(records@)
                    &&& values@ == parsed_values(records@)
                    &&& values@.len() == records@.len()
                    &&& forall|i: int| 0 <= i < records@.len() ==> records@[i] == Ok::<T, String>(#[trigger] values@[i])
                },
                Err(e) => is_record_error(e, csv_path@, records@),
            },
    {
        let ghost all = records@;
        let mut values: Vec<T> = Vec::new();
        for record in it: records.into_iter()
            invariant
                it.seq() == all,
                values@.len() == it.index(),
                forall|j: int| 0 <= j < it.index() ==> #[trigger] all[j] is Ok,
                forall|j: int| 0 <= j < it.index() ==> values@[j] == #[trigger] all[j]->Ok_0,
        {
            match record {
                Ok(value) => values.push(value),
                Err(cause) => {
                    let e = record_error(csv_path, cause.as_str());
                    proof {
                        assert(is_first_failure(all, it.index() as int));
                    }
                    return Err(e);
                },
            }
        }
        proof {
            assert(values@ =~= parsed_values(all));
        }
        Ok(values)
    }
}


impl CSVDataCmd {
    /// One step of loading the fund, vote plans and proposals of the CSV
    /// files at `funds_path`, `voteplans_path` and `proposals_path` into the
    /// database at `db_url`.
    ///
    /// The load checks that the database file exists, reads the three files
    /// in turn, requires the funds file to hold exactly one fund, opens the
    /// database, stores the fund, and stores the vote plans and then the
    /// proposals, each assigned to the id the database gave the fund. The
    /// first failure ends it with its error.
    pub fn handle_load(
        db_url: &str,
        funds_path: &str,
        voteplans_path: &str,
        proposals_path: &str,
        state: LoadState,
        event: LoadEvent,
    ) -> (step: (LoadState, LoadAction))
        requires
            load_awaits(state, event),
        ensures
            load_step(db_url@, funds_path@, voteplans_path@, proposals_path@, state, event, step.0, step.1),
    {
        match state {
            LoadState::Start => (LoadState::CheckingDb, LoadAction::CheckDbFile(db_url.to_owned())),
            LoadState::CheckingDb => match event {
                LoadEvent::DbFileChecked(Ok(())) => (LoadState::ReadingFunds, LoadAction::ReadFunds(funds_path.to_owned())),
                LoadEvent::DbFileChecked(Err(e)) => (LoadState::Done, LoadAction::Finish(Err(e))),
                _ => unreached(),
            },
            LoadState::ReadingFunds => match event {
                LoadEvent::FundsRead(Err(cause)) => (
                    LoadState::Done,
                    LoadAction::Finish(Err(LoadError { kind: LoadErrorKind::Other, message: cause })),
                ),
                LoadEvent::FundsRead(Ok(records)) => match Self::collect_records(funds_path, records) {
                    Err(e) => (LoadState::Done, LoadAction::Finish(Err(e))),
                    Ok(mut funds) => {
                        if funds.len() != 1 {
                            (LoadState::Done, LoadAction::Finish(Err(fund_count_error(funds_path))))
                        } else {
                            let fund = funds.remove(0);
                            (LoadState::ReadingVoteplans { fund }, LoadAction::ReadVoteplans(voteplans_path.to_owned()))
                        }
                    },
                },
                _ => unreached(),
            },
            LoadState::ReadingVoteplans { fund } => match event {
                LoadEvent::VoteplansRead(Err(cause)) => (
                    LoadState::Done,
                    LoadAction::Finish(Err(LoadError { kind: LoadErrorKind::Other, message: cause })),
                ),
                LoadEvent::VoteplansRead(Ok(records)) => match Self::collect_records(voteplans_path, records) {
                    Err(e) => (LoadState::Done, LoadAction::Finish(Err(e))),
                    Ok(voteplans) => (
                        LoadState::ReadingProposals { fund, voteplans },
                        LoadAction::ReadProposals(proposals_path.to_owned()),
                    ),
                },
                _ => unreached(),
            },
            LoadState::ReadingProposals { fund, voteplans } => match event {
                LoadEvent::ProposalsRead(Err(cause)) => (
                    LoadState::Done,
                    LoadAction::Finish(Err(LoadError { kind: LoadErrorKind::Other, message: cause })),
                ),
                LoadEvent::ProposalsRead(Ok(records)) => match Self::collect_records(proposals_path, records) {
                    Err(e) => (LoadState::Done, LoadAction::Finish(Err(e))),
                    Ok(proposals) => (
                        LoadState::OpeningPool { fund, voteplans, proposals },
                        LoadAction::OpenPool(db_url.to_owned()),
                    ),
                },
                _ => unreached(),
            },
            LoadState::OpeningPool { fund, voteplans, proposals } => match event {
                LoadEvent::PoolOpened(Err(cause)) => (
                    LoadState::Done,
                    LoadAction::Finish(Err(LoadError { kind: LoadErrorKind::InvalidInput, message: cause })),
                ),
                LoadEvent::PoolOpened(Ok(())) => (LoadState::Connecting { fund, voteplans, proposals }, LoadAction::Connect),
                _ => unreached(),
            },
            LoadState::Connecting { fund, voteplans, proposals } => match event {
                LoadEvent::Connected(Err(cause)) => (
                    LoadState::Done,
                    LoadAction::Finish(Err(LoadError { kind: LoadErrorKind::NotConnected, message: cause })),
                ),
                LoadEvent::Connected(Ok(())) => (
                    LoadState::InsertingFund { voteplans, proposals },
                    LoadAction::InsertFund(fund),
                ),
                _ => unreached(),
            },
            LoadState::InsertingFund { voteplans, proposals } => match event {
                LoadEvent::FundInserted(Err(cause)) => (
                    LoadState::Done,
                    LoadAction::Finish(Err(LoadError { kind: LoadErrorKind::Other, message: cause })),
                ),
                LoadEvent::FundInserted(Ok(stored)) => (
                    LoadState::InsertingVoteplans { proposals: assign_proposals(proposals, stored.id) },
                    LoadAction::InsertVoteplans(assign_voteplans(voteplans, stored.id)),
                ),
                _ => unreached(),
            },
            LoadState::InsertingVoteplans { proposals } => match event {
                LoadEvent::VoteplansInserted(Err(cause)) => (
                    LoadState::Done,
                    LoadAction::Finish(Err(LoadError { kind: LoadErrorKind::Other, message: cause })),
                ),
                LoadEvent::VoteplansInserted(Ok(())) => (LoadState::InsertingProposals, LoadAction::InsertProposals(proposals)),
                _ => unreached(),
            },
            LoadState::InsertingProposals => match event {
                LoadEvent::ProposalsInserted(Err(cause)) => (
                    LoadState::Done,
                    LoadAction::Finish(Err(LoadError { kind: LoadErrorKind::Other, message: cause })),
                ),
                LoadEvent::ProposalsInserted(Ok(())) => (LoadState::Done, LoadAction::Finish(Ok(()))),
                _ => unreached(),
            },
            LoadState::Done => unreached(),
        }
    }
}

/// Where a load guarded by a backup of the database stands.
#[derive(Debug, PartialEq, Eq)]
pub enum BackupState {
    /// Nothing done yet.
    Start,
    /// Waiting for the backup of the database file.
    BackingUp,
    /// Waiting for the outcome of the load.
    Loading,
    /// Waiting for the database file to be restored after the load failed
    /// with `load_error`.
    Restoring { load_error: LoadError },
    /// Finished.
    Done,
}

/// What the caller reports back.
#[derive(Debug, PartialEq, Eq)]
pub enum BackupEvent {
    /// Start.
    Begin,
    /// Whether the database file was backed up.
    BackedUp(Result<(), LoadError>),
    /// The outcome of the load.
    Loaded(Result<(), LoadError>),
    /// Whether the database file was restored from the backup.
    Restored(Result<(), LoadError>),
}

/// What the caller is asked to do next.
#[derive(Debug, PartialEq, Eq)]
pub enum BackupAction {
    /// Back up the database file at this url.
    Backup(String),
    /// Run the load (see [`CSVDataCmd::handle_load`]).
    RunLoad,
    /// Restore the database file at this url from the backup.
    Restore(String),
    /// Over, with this outcome.
    Finish(Result<(), LoadError>),
}

/// The event that the guarded load waits for in `state`.
pub open spec fn backup_awaits(state: BackupState, event: BackupEvent) -> bool {
    match state {
        BackupState::Start => event is Begin,
        BackupState::BackingUp => event is BackedUp,
        BackupState::Loading => event is Loaded,
        BackupState::Restoring { .. } => event is Restored,
        BackupState::Done => false,
    }
}

/// One step of a load guarded by a backup of the database at `db_url`:
/// from `state`, on `event`, it goes to `next` and asks for `action`.
pub open spec fn backup_step(
    db_url: Seq<char>,
    state: BackupState,
    event: BackupEvent,
    next: BackupState,
    action: BackupAction,
) -> bool {
    match state {
        BackupState::Start => {
            &&& next is BackingUp
            &&& action matches BackupAction::Backup(url) && url@ == db_url
        },
        BackupState::BackingUp => match event {
            BackupEvent::BackedUp(Err(e)) => next is Done && action == BackupAction::Finish(Err(e)),
            BackupEvent::BackedUp(Ok(_)) => next is Loading && action is RunLoad,
            _ => false,
        },
        BackupState::Loading => match event {
            BackupEvent::Loaded(Ok(_)) => next is Done && action == BackupAction::Finish(Ok(())),
            BackupEvent::Loaded(Err(e)) => {
                &&& next == BackupState::Restoring { load_error: e }
                &&& action matches BackupAction::Restore(url) && url@ == db_url
            },
            _ => false,
        },
        BackupState::Restoring { load_error } => match event {
            BackupEvent::Restored(Err(e)) => next is Done && action == BackupAction::Finish(Err(e)),
            BackupEvent::Restored(Ok(_)) => next is Done && action == BackupAction::Finish(Err(load_error)),
            _ => false,
        },
        BackupState::Done => false,
    }
}

impl CSVDataCmd {
    /// One step of a load guarded by a backup of the database at `db_url`:
    /// the database file is backed up first, and restored if the load
    /// fails. A failed load is reported with its own error, unless the
    /// restore fails too, which is then reported instead.
    pub fn handle_load_with_db_backup(db_url: &str, state: BackupState, event: BackupEvent) -> (step: (
        BackupState,
        BackupAction,
    ))
        requires
            backup_awaits(state, event),
        ensures
            backup_step(db_url@, state, event, step.0, step.1),
    {
        match state {
            BackupState::Start => (BackupState::BackingUp, BackupAction::Backup(db_url.to_owned())),
            BackupState::BackingUp => match event {
                BackupEvent::BackedUp(Ok(())) => (BackupState::Loading, BackupAction::RunLoad),
                BackupEvent::BackedUp(Err(e)) => (BackupState::Done, BackupAction::Finish(Err(e))),
                _ => unreached(),
            },
            BackupState::Loading => match event {
                BackupEvent::Loaded(Ok(())) => (BackupState::Done, BackupAction::Finish(Ok(()))),
                BackupEvent::Loaded(Err(e)) => (
                    BackupState::Restoring { load_error: e },
                    BackupAction::Restore(db_url.to_owned()),
                ),
                _ => unreached(),
            },
            BackupState::Restoring { load_error } => match event {
                BackupEvent::Restored(Ok(())) => (BackupState::Done, BackupAction::Finish(Err(load_error))),
                BackupEvent::Restored(Err(e)) => (BackupState::Done, BackupAction::Finish(Err(e))),
                _ => unreached(),
            },
            BackupState::Done => unreached(),
        }
    }
}

} // verus!

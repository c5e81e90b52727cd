//! What holds of whole runs of the CSV load: the sequence of states it goes
//! through, the events the caller reported and the actions it asked for.

use vstd::prelude::*;
use crate::db::models::{Fund, Proposal, Voteplan};
use crate::loaders::{
    LoadErrorKind, record_error_message, is_first_failure, is_record_error,
    all_parsed, load_awaits, load_step, parsed_values, with_fund_id_proposals,
    with_fund_id_voteplans, LoadAction, LoadEvent, LoadState, BackupState,
    BackupEvent, BackupAction, backup_awaits, backup_step,
};

verus! {

/// `states`, `events` and `actions` are a run of the load of the files at
/// `funds_path`, `voteplans_path` and `proposals_path` into the database
/// at `db_url`: it starts at `Start`, and on event `i` it went from state
/// `i` to state `i + 1` asking for action `i`.
pub open spec fn is_load_run(
    db_url: Seq<char>,
    funds_path: Seq<char>,
    voteplans_path: Seq<char>,
    proposals_path: Seq<char>,
    states: Seq<LoadState>,
    events: Seq<LoadEvent>,
    actions: Seq<LoadAction>,
) -> bool {
    &&& states.len() == events.len() + 1
    &&& actions.len() == events.len()
    &&& states[0] is Start
    &&& forall|i: int|
        0 <= i < events.len() ==> {
            &&& load_awaits(states[i], #[trigger] events[i])
            &&& load_step(
                db_url,
                funds_path,
                voteplans_path,
                proposals_path,
                states[i],
                events[i],
                states[i + 1],
                actions[i],
            )
        }
}

/// The event reports a funds file that holds exactly the fund `f`.
pub open spec fn reads_single_fund(e: LoadEvent, f: Fund) -> bool {
    e matches LoadEvent::FundsRead(Ok(records)) && all_parsed(records@) && records@.len() == 1
        && records@[0]->Ok_0 == f
}

/// The event reports a vote plans file whose records are the vote plans
/// `vs`.
pub open spec fn reads_voteplans(e: LoadEvent, vs: Seq<Voteplan>) -> bool {
    e matches LoadEvent::VoteplansRead(Ok(records)) && all_parsed(records@) && parsed_values(records@) == vs
}

/// The event reports a proposals file whose records are the proposals
/// `ps`.
pub open spec fn reads_proposals(e: LoadEvent, ps: Seq<Proposal>) -> bool {
    e matches LoadEvent::ProposalsRead(Ok(records)) && all_parsed(records@) && parsed_values(records@) == ps
}

/// The event reports the fund stored under the id `id`.
pub open spec fn stores_fund_as(e: LoadEvent, id: i32) -> bool {
    e matches LoadEvent::FundInserted(Ok(stored)) && stored.id == id
}

/// The fund a state holds until it is stored.
pub open spec fn held_fund(s: LoadState) -> Option<Fund> {
    match s {
        LoadState::ReadingVoteplans { fund } => Some(fund),
        LoadState::ReadingProposals { fund, .. } => Some(fund),
        LoadState::OpeningPool { fund, .. } => Some(fund),
        LoadState::Connecting { fund, .. } => Some(fund),
        _ => None,
    }
}

/// The vote plans a state holds until they are handed out to be stored.
pub open spec fn held_voteplans(s: LoadState) -> Option<Seq<Voteplan>> {
    match s {
        LoadState::ReadingProposals { voteplans, .. } => Some(voteplans@),
        LoadState::OpeningPool { voteplans, .. } => Some(voteplans@),
        LoadState::Connecting { voteplans, .. } => Some(voteplans@),
        LoadState::InsertingFund { voteplans, .. } => Some(voteplans@),
        _ => None,
    }
}

/// The proposals a state holds before the fund is stored.
pub open spec fn held_proposals(s: LoadState) -> Option<Seq<Proposal>> {
    match s {
        LoadState::OpeningPool { proposals, .. } => Some(proposals@),
        LoadState::Connecting { proposals, .. } => Some(proposals@),
        LoadState::InsertingFund { proposals, .. } => Some(proposals@),
        _ => None,
    }
}

proof fn lemma_held_values_were_read(
    db_url: Seq<char>,
    funds_path: Seq<char>,
    voteplans_path: Seq<char>,
    proposals_path: Seq<char>,
    states: Seq<LoadState>,
    events: Seq<LoadEvent>,
    actions: Seq<LoadAction>,
    i: int,
)
    requires
        is_load_run(db_url, funds_path, voteplans_path, proposals_path, states, events, actions),
        0 <= i < states.len(),
    ensures
        held_fund(states[i]) matches Some(f) ==> exists|j: int|
            0 <= j < i && reads_single_fund(#[trigger] events[j], f),
        held_voteplans(states[i]) matches Some(vs) ==> exists|j: int|
            0 <= j < i && reads_voteplans(#[trigger] events[j], vs),
        held_proposals(states[i]) matches Some(ps) ==> exists|j: int|
            0 <= j < i && reads_proposals(#[trigger] events[j], ps),
        states[i] matches LoadState::InsertingVoteplans { proposals } ==> exists|j: int, l: int|
            0 <= j < i && 0 <= l < i && #[trigger] reads_proposals(events[j], ps_of(events[j]))
            && proposals@ == with_fund_id_proposals(ps_of(events[j]), stored_id_of(#[trigger] events[l]))
            && events[l] is FundInserted && events[l]->FundInserted_0 is Ok,
    decreases i,
{
    if i > 0 {
        lemma_held_values_were_read(
            db_url,
            funds_path,
            voteplans_path,
            proposals_path,
            states,
            events,
            actions,
            i - 1,
        );
        let e = events[i - 1];
        assert(load_awaits(states[i - 1], e));
        if let LoadState::InsertingVoteplans { proposals } = states[i] {
            let ps = held_proposals(states[i - 1])->Some_0;
            let j = choose|j: int| 0 <= j < i - 1 && reads_proposals(#[trigger] events[j], ps);
            assert(ps_of(events[j]) == ps);
            assert(stored_id_of(events[i - 1]) == e->FundInserted_0->Ok_0.id);
        }
    }
}

/// The proposals a proposals-read event reports.
pub open spec fn ps_of(e: LoadEvent) -> Seq<Proposal> {
    parsed_values(e->ProposalsRead_0->Ok_0@)
}

/// The id of the fund a fund-stored event reports.
pub open spec fn stored_id_of(e: LoadEvent) -> i32 {
    e->FundInserted_0->Ok_0.id
}

/// A load stores a fund only after the funds file was read and held
/// exactly one fund, and the fund it stores is that one.
pub proof fn law_stored_fund_is_the_single_fund_read(
    db_url: Seq<char>,
    funds_path: Seq<char>,
    voteplans_path: Seq<char>,
    proposals_path: Seq<char>,
    states: Seq<LoadState>,
    events: Seq<LoadEvent>,
    actions: Seq<LoadAction>,
    k: int,
)
    requires
        is_load_run(db_url, funds_path, voteplans_path, proposals_path, states, events, actions),
        0 <= k < actions.len(),
        actions[k] is InsertFund,
    ensures
        exists|j: int| 0 <= j < k && reads_single_fund(#[trigger] events[j], actions[k]->InsertFund_0),
{
    lemma_held_values_were_read(db_url, funds_path, voteplans_path, proposals_path, states, events, actions, k);
    assert(load_awaits(states[k], events[k]));
}

/// The vote plans a load stores are those read from the vote plans file,
/// in order, each assigned to the id the database gave the stored fund.
pub proof fn law_stored_voteplans_are_read_ones_of_stored_fund(
    db_url: Seq<char>,
    funds_path: Seq<char>,
    voteplans_path: Seq<char>,
    proposals_path: Seq<char>,
    states: Seq<LoadState>,
    events: Seq<LoadEvent>,
    actions: Seq<LoadAction>,
    k: int,
)
    requires
        is_load_run(db_url, funds_path, voteplans_path, proposals_path, states, events, actions),
        0 <= k < actions.len(),
        actions[k] is InsertVoteplans,
    ensures
        events[k] is FundInserted && events[k]->FundInserted_0 is Ok,
        exists|j: int|
            0 <= j < k && #[trigger] reads_voteplans(events[j], parsed_values(events[j]->VoteplansRead_0->Ok_0@))
                && actions[k]->InsertVoteplans_0@ == with_fund_id_voteplans(
                parsed_values(events[j]->VoteplansRead_0->Ok_0@),
                stored_id_of(events[k]),
            ),
{
    lemma_held_values_were_read(db_url, funds_path, voteplans_path, proposals_path, states, events, actions, k);
    assert(load_awaits(states[k], events[k]));
    let vs = held_voteplans(states[k])->Some_0;
    let j = choose|j: int| 0 <= j < k && reads_voteplans(#[trigger] events[j], vs);
    assert(parsed_values(events[j]->VoteplansRead_0->Ok_0@) == vs);
}

/// The proposals a load stores are those read from the proposals file,
/// in order, each assigned to the id the database gave the stored fund.
pub proof fn law_stored_proposals_are_read_ones_of_stored_fund(
    db_url: Seq<char>,
    funds_path: Seq<char>,
    voteplans_path: Seq<char>,
    proposals_path: Seq<char>,
    states: Seq<LoadState>,
    events: Seq<LoadEvent>,
    actions: Seq<LoadAction>,
    k: int,
)
    requires
        is_load_run(db_url, funds_path, voteplans_path, proposals_path, states, events, actions),
        0 <= k < actions.len(),
        actions[k] is InsertProposals,
    ensures
        exists|j: int, l: int|
            0 <= j < k && 0 <= l < k && #[trigger] reads_proposals(events[j], ps_of(events[j]))
                && events[l] is FundInserted && events[l]->FundInserted_0 is Ok
                && actions[k]->InsertProposals_0@ == with_fund_id_proposals(
                ps_of(events[j]),
                stored_id_of(#[trigger] events[l]),
            ),
{
    lemma_held_values_were_read(db_url, funds_path, voteplans_path, proposals_path, states, events, actions, k);
    assert(load_awaits(states[k], events[k]));
}

/// How many steps at most are left to a load in this state.
pub open spec fn load_steps_left(s: LoadState) -> nat {
    match s {
        LoadState::Start => 10,
        LoadState::CheckingDb => 9,
        LoadState::ReadingFunds => 8,
        LoadState::ReadingVoteplans { .. } => 7,
        LoadState::ReadingProposals { .. } => 6,
        LoadState::OpeningPool { .. } => 5,
        LoadState::Connecting { .. } => 4,
        LoadState::InsertingFund { .. } => 3,
        LoadState::InsertingVoteplans { .. } => 2,
        LoadState::InsertingProposals => 1,
        LoadState::Done => 0,
    }
}

/// Every step of a load moves it forward, and the load is over when it
/// reaches a state that awaits nothing: it finishes after at most ten
/// steps, and its last action is `Finish`.
pub proof fn law_load_steps_forward(
    db_url: Seq<char>,
    funds_path: Seq<char>,
    voteplans_path: Seq<char>,
    proposals_path: Seq<char>,
    state: LoadState,
    event: LoadEvent,
    next: LoadState,
    action: LoadAction,
)
    requires
        load_awaits(state, event),
        load_step(db_url, funds_path, voteplans_path, proposals_path, state, event, next, action),
    ensures
        load_steps_left(next) < load_steps_left(state),
        !(next is Done) ==> load_steps_left(next) + 1 == load_steps_left(state),
        next is Done <==> action is Finish,
{
}

/// A run of a load has at most ten steps.
pub proof fn law_load_run_is_short(
    db_url: Seq<char>,
    funds_path: Seq<char>,
    voteplans_path: Seq<char>,
    proposals_path: Seq<char>,
    states: Seq<LoadState>,
    events: Seq<LoadEvent>,
    actions: Seq<LoadAction>,
)
    requires
        is_load_run(db_url, funds_path, voteplans_path, proposals_path, states, events, actions),
    ensures
        events.len() <= 10,
{
    assert forall|i: int| 0 <= i < states.len() implies load_steps_left(#[trigger] states[i]) + i <= 10 by {
        lemma_steps_left_bound(db_url, funds_path, voteplans_path, proposals_path, states, events, actions, i);
    }
    assert(load_steps_left(states[events.len() as int]) + events.len() <= 10);
}

proof fn lemma_steps_left_bound(
    db_url: Seq<char>,
    funds_path: Seq<char>,
    voteplans_path: Seq<char>,
    proposals_path: Seq<char>,
    states: Seq<LoadState>,
    events: Seq<LoadEvent>,
    actions: Seq<LoadAction>,
    i: int,
)
    requires
        is_load_run(db_url, funds_path, voteplans_path, proposals_path, states, events, actions),
        0 <= i < states.len(),
    ensures
        load_steps_left(states[i]) + i <= 10,
    decreases i,
{
    if i > 0 {
        lemma_steps_left_bound(db_url, funds_path, voteplans_path, proposals_path, states, events, actions, i - 1);
        let e = events[i - 1];
        law_load_steps_forward(
            db_url,
            funds_path,
            voteplans_path,
            proposals_path,
            states[i - 1],
            e,
            states[i],
            actions[i - 1],
        );
    }
}

proof fn lemma_live_states_count_down(
    db_url: Seq<char>,
    funds_path: Seq<char>,
    voteplans_path: Seq<char>,
    proposals_path: Seq<char>,
    states: Seq<LoadState>,
    events: Seq<LoadEvent>,
    actions: Seq<LoadAction>,
    i: int,
)
    requires
        is_load_run(db_url, funds_path, voteplans_path, proposals_path, states, events, actions),
        0 <= i < states.len(),
        !(states[i] is Done),
    ensures
        load_steps_left(states[i]) + i == 10,
    decreases i,
{
    if i > 0 {
        let e = events[i - 1];
        assert(load_awaits(states[i - 1], e));
        lemma_live_states_count_down(
            db_url,
            funds_path,
            voteplans_path,
            proposals_path,
            states,
            events,
            actions,
            i - 1,
        );
        law_load_steps_forward(
            db_url,
            funds_path,
            voteplans_path,
            proposals_path,
            states[i - 1],
            e,
            states[i],
            actions[i - 1],
        );
    }
}

/// A load succeeds only at its tenth step, after it stored the fund, then
/// the vote plans, then the proposals, each with success.
pub proof fn law_successful_load_stored_everything(
    db_url: Seq<char>,
    funds_path: Seq<char>,
    voteplans_path: Seq<char>,
    proposals_path: Seq<char>,
    states: Seq<LoadState>,
    events: Seq<LoadEvent>,
    actions: Seq<LoadAction>,
    k: int,
)
    requires
        is_load_run(db_url, funds_path, voteplans_path, proposals_path, states, events, actions),
        0 <= k < actions.len(),
        actions[k] == LoadAction::Finish(Ok(())),
    ensures
        k == 9,
        actions[6] is InsertFund,
        actions[7] is InsertVoteplans,
        actions[8] is InsertProposals,
        events[7] matches LoadEvent::FundInserted(Ok(_)),
        events[8] matches LoadEvent::VoteplansInserted(Ok(_)),
        events[9] matches LoadEvent::ProposalsInserted(Ok(_)),
{
    let ek = events[k];
    assert(load_awaits(states[k], ek));
    lemma_live_states_count_down(db_url, funds_path, voteplans_path, proposals_path, states, events, actions, k);
    assert(states[k] is InsertingProposals);
    let e6 = events[6];
    let e7 = events[7];
    let e8 = events[8];
    assert(load_awaits(states[6], e6));
    assert(load_awaits(states[7], e7));
    assert(load_awaits(states[8], e8));
    lemma_live_states_count_down(db_url, funds_path, voteplans_path, proposals_path, states, events, actions, 6);
    lemma_live_states_count_down(db_url, funds_path, voteplans_path, proposals_path, states, events, actions, 7);
    lemma_live_states_count_down(db_url, funds_path, voteplans_path, proposals_path, states, events, actions, 8);
}

/// `states`, `events` and `actions` are a run of a load guarded by a
/// backup of the database at `db_url`.
pub open spec fn is_backup_run(
    db_url: Seq<char>,
    states: Seq<BackupState>,
    events: Seq<BackupEvent>,
    actions: Seq<BackupAction>,
) -> bool {
    &&& states.len() == events.len() + 1
    &&& actions.len() == events.len()
    &&& states[0] is Start
    &&& forall|i: int|
        0 <= i < events.len() ==> {
            &&& backup_awaits(states[i], #[trigger] events[i])
            &&& backup_step(db_url, states[i], events[i], states[i + 1], actions[i])
        }
}

/// A guarded load runs the load only once the database is backed up; when
/// the load fails, the very next action restores the database, and the run
/// can only finish with an error: the load's own, or the restore's if that
/// fails too.
pub proof fn law_failed_load_is_restored_and_reported(
    db_url: Seq<char>,
    states: Seq<BackupState>,
    events: Seq<BackupEvent>,
    actions: Seq<BackupAction>,
    j: int,
)
    requires
        is_backup_run(db_url, states, events, actions),
        0 <= j < events.len(),
        events[j] matches BackupEvent::Loaded(Err(_)),
    ensures
        j >= 2 && actions[j - 2] is Backup && events[j - 1] matches BackupEvent::BackedUp(Ok(_)),
        actions[j] matches BackupAction::Restore(url) && url@ == db_url,
        j + 1 < events.len() ==> (actions[j + 1] matches BackupAction::Finish(Err(e)) && (e
            == events[j]->Loaded_0->Err_0 || events[j + 1] == BackupEvent::Restored(Err(e)))),
        events.len() <= j + 2,
{
    let e0 = events[j];
    assert(backup_awaits(states[j], e0));
    lemma_backup_states(db_url, states, events, actions, j);
    let e1 = events[j - 1];
    let e2 = events[j - 2];
    if j + 1 < events.len() {
        let e3 = events[j + 1];
        assert(backup_awaits(states[j + 1], e3));
        if j + 2 < events.len() {
            let e4 = events[j + 2];
            assert(backup_awaits(states[j + 2], e4));
        }
    }
}

proof fn lemma_backup_states(
    db_url: Seq<char>,
    states: Seq<BackupState>,
    events: Seq<BackupEvent>,
    actions: Seq<BackupAction>,
    i: int,
)
    requires
        is_backup_run(db_url, states, events, actions),
        0 <= i < states.len(),
    ensures
        states[i] is Loading ==> i == 2 && actions[0] is Backup && events[1] matches BackupEvent::BackedUp(Ok(_)),
        states[i] is BackingUp ==> i == 1,
        states[i] is Start ==> i == 0,
        states[i] is Restoring ==> i == 3,
    decreases i,
{
    if i > 0 {
        lemma_backup_states(db_url, states, events, actions, i - 1);
        let e = events[i - 1];
        assert(backup_awaits(states[i - 1], e));
        if i > 1 {
            let e0 = events[i - 2];
            assert(backup_awaits(states[i - 2], e0));
        }
    }
}

/// A guarded load succeeds only when the backup was made and the load
/// succeeded, and then the database is not restored.
pub proof fn law_guarded_load_succeeds_only_after_backup_and_load(
    db_url: Seq<char>,
    states: Seq<BackupState>,
    events: Seq<BackupEvent>,
    actions: Seq<BackupAction>,
    k: int,
)
    requires
        is_backup_run(db_url, states, events, actions),
        0 <= k < actions.len(),
        actions[k] == BackupAction::Finish(Ok(())),
    ensures
        k == 2,
        events[1] matches BackupEvent::BackedUp(Ok(_)),
        events[2] matches BackupEvent::Loaded(Ok(_)),
        forall|i: int| 0 <= i < actions.len() ==> !(#[trigger] actions[i] is Restore),
{
    let ek = events[k];
    assert(backup_awaits(states[k], ek));
    lemma_backup_states(db_url, states, events, actions, k);
    assert forall|i: int| 0 <= i < actions.len() implies !(#[trigger] actions[i] is Restore) by {
        let ei = events[i];
        assert(backup_awaits(states[i], ei));
        lemma_backup_states(db_url, states, events, actions, i);
        if i > k {
            let ek1 = events[k + 1];
            assert(backup_awaits(states[k + 1], ek1));
        }
    }
}

/// How a load fails, step by step: a missing database ends it with the
/// check's own error; a file that cannot be opened with an `Other` error
/// carrying the cause; a bad record with an `InvalidInput` error naming the
/// file and the first bad record's cause; a funds file without exactly one
/// fund with an `InvalidData` error naming the file; a pool that cannot be
/// opened with `InvalidInput`; a connection that cannot be had with
/// `NotConnected`; and a failed insert with `Other`, each carrying the
/// cause.
pub proof fn law_load_failures(
    db_url: Seq<char>,
    funds_path: Seq<char>,
    voteplans_path: Seq<char>,
    proposals_path: Seq<char>,
    state: LoadState,
    event: LoadEvent,
    next: LoadState,
    action: LoadAction,
)
    requires
        load_awaits(state, event),
        load_step(db_url, funds_path, voteplans_path, proposals_path, state, event, next, action),
    ensures
        event matches LoadEvent::DbFileChecked(Err(e)) ==> action == LoadAction::Finish(Err(e)) && next is Done,
        event matches LoadEvent::FundsRead(Err(c)) ==> fails_as(next, action, LoadErrorKind::Other, c@),
        event matches LoadEvent::VoteplansRead(Err(c)) ==> fails_as(next, action, LoadErrorKind::Other, c@),
        event matches LoadEvent::ProposalsRead(Err(c)) ==> fails_as(next, action, LoadErrorKind::Other, c@),
        event matches LoadEvent::FundsRead(Ok(rs)) ==> first_bad_record_ends(funds_path, rs@, next, action),
        event matches LoadEvent::VoteplansRead(Ok(rs)) ==> first_bad_record_ends(voteplans_path, rs@, next, action),
        event matches LoadEvent::ProposalsRead(Ok(rs)) ==> first_bad_record_ends(proposals_path, rs@, next, action),
        event matches LoadEvent::FundsRead(Ok(rs)) ==> (forall|i: int| 0 <= i < rs@.len() ==> #[trigger] rs@[i] is Ok)
            && rs@.len() != 1 ==> fails_as(
            next,
            action,
            LoadErrorKind::InvalidData,
            "Wrong number of input fund in "@ + funds_path + ", just one fund data can be process at a time"@,
        ),
        event matches LoadEvent::PoolOpened(Err(c)) ==> fails_as(next, action, LoadErrorKind::InvalidInput, c@),
        event matches LoadEvent::Connected(Err(c)) ==> fails_as(next, action, LoadErrorKind::NotConnected, c@),
        event matches LoadEvent::FundInserted(Err(c)) ==> fails_as(next, action, LoadErrorKind::Other, c@),
        event matches LoadEvent::VoteplansInserted(Err(c)) ==> fails_as(next, action, LoadErrorKind::Other, c@),
        event matches LoadEvent::ProposalsInserted(Err(c)) ==> fails_as(next, action, LoadErrorKind::Other, c@),
{
    if let LoadEvent::FundsRead(Ok(rs)) = event {
        lemma_first_bad_record_ends(funds_path, rs@, next, action);
    }
    if let LoadEvent::VoteplansRead(Ok(rs)) = event {
        lemma_first_bad_record_ends(voteplans_path, rs@, next, action);
    }
    if let LoadEvent::ProposalsRead(Ok(rs)) = event {
        lemma_first_bad_record_ends(proposals_path, rs@, next, action);
    }
}

/// The load is over with an error of this kind and message.
pub open spec fn fails_as(next: LoadState, action: LoadAction, kind: LoadErrorKind, message: Seq<char>) -> bool {
    &&& next is Done
    &&& action matches LoadAction::Finish(Err(e)) && e.kind == kind && e.message@ == message
}

/// If a record of the file at `path` could not be read, the load is over
/// with an `InvalidInput` error for the first such record.
pub open spec fn first_bad_record_ends<T>(
    path: Seq<char>,
    records: Seq<Result<T, String>>,
    next: LoadState,
    action: LoadAction,
) -> bool {
    forall|i: int|
        #![trigger records[i]]
        0 <= i < records.len() && records[i] is Err && (forall|j: int| 0 <= j < i ==> #[trigger] records[j] is Ok)
            ==> fails_as(
            next,
            action,
            LoadErrorKind::InvalidInput,
            "Error in file "@ + path + ".\nCause:\n\t"@ + records[i]->Err_0@,
        )
}

/// The load is over with the error for a bad record of the file at `path`.
pub open spec fn ends_with_record_error<T>(
    path: Seq<char>,
    records: Seq<Result<T, String>>,
    next: LoadState,
    action: LoadAction,
) -> bool {
    &&& next is Done
    &&& action matches LoadAction::Finish(Err(e)) && is_record_error(e, path, records)
}

proof fn lemma_first_bad_record_ends<T>(
    path: Seq<char>,
    records: Seq<Result<T, String>>,
    next: LoadState,
    action: LoadAction,
)
    requires
        !all_parsed(records) ==> ends_with_record_error(path, records, next, action),
    ensures
        first_bad_record_ends(path, records, next, action),
{
    assert forall|i: int|
        #![trigger records[i]]
        0 <= i < records.len() && records[i] is Err && (forall|j: int| 0 <= j < i ==> #[trigger] records[j] is Ok)
        implies fails_as(
        next,
        action,
        LoadErrorKind::InvalidInput,
        "Error in file "@ + path + ".\nCause:\n\t"@ + records[i]->Err_0@,
    ) by {
        assert(is_first_failure(records, i));
        let e = action->Finish_0->Err_0;
        let k = choose|k: int| is_first_failure(records, k) && e.message@ == record_error_message(path, #[trigger] records[k]->Err_0@);
        if k < i {
            assert(records[k] is Ok);
        } else if i < k {
            assert(records[i] is Ok);
        }
    }
}

/// How a load goes on, step by step: it first checks the database at
/// `db_url`, then reads the funds, vote plans and proposals files at their
/// own paths, keeps the single fund of the funds file, opens the database
/// at `db_url`, takes a connection, stores the kept fund, and finishes with
/// success once the proposals are stored.
pub proof fn law_load_progress(
    db_url: Seq<char>,
    funds_path: Seq<char>,
    voteplans_path: Seq<char>,
    proposals_path: Seq<char>,
    state: LoadState,
    event: LoadEvent,
    next: LoadState,
    action: LoadAction,
)
    requires
        load_awaits(state, event),
        load_step(db_url, funds_path, voteplans_path, proposals_path, state, event, next, action),
    ensures
        state is Start ==> (action matches LoadAction::CheckDbFile(u) && u@ == db_url),
        event matches LoadEvent::DbFileChecked(Ok(_)) ==> (action matches LoadAction::ReadFunds(p) && p@
            == funds_path),
        event matches LoadEvent::FundsRead(Ok(rs)) ==> (rs@.len() == 1 && rs@[0] is Ok) ==> (action matches LoadAction::ReadVoteplans(
            p,
        ) && p@ == voteplans_path && next == LoadState::ReadingVoteplans { fund: rs@[0]->Ok_0 }),
        event matches LoadEvent::VoteplansRead(Ok(rs)) ==> (forall|i: int| 0 <= i < rs@.len() ==> #[trigger] rs@[i] is Ok)
            ==> (action matches LoadAction::ReadProposals(p) && p@ == proposals_path),
        event matches LoadEvent::ProposalsRead(Ok(rs)) ==> (forall|i: int| 0 <= i < rs@.len() ==> #[trigger] rs@[i] is Ok)
            ==> (action matches LoadAction::OpenPool(u) && u@ == db_url),
        event matches LoadEvent::PoolOpened(Ok(_)) ==> action is Connect,
        state matches LoadState::Connecting { fund, .. } ==> event matches LoadEvent::Connected(Ok(_)) ==> action
            == LoadAction::InsertFund(fund),
        event matches LoadEvent::FundInserted(Ok(_)) ==> action is InsertVoteplans,
        state matches LoadState::InsertingVoteplans { proposals } ==> event matches LoadEvent::VoteplansInserted(Ok(_))
            ==> action == LoadAction::InsertProposals(proposals),
        event matches LoadEvent::ProposalsInserted(Ok(_)) ==> action == LoadAction::Finish(Ok(())),
{
    if let LoadEvent::FundsRead(Ok(rs)) = event {
        if rs@.len() == 1 && rs@[0] is Ok {
            assert(all_parsed(rs@));
        }
    }
}

/// How a guarded load goes, step by step: it backs up the database at
/// `db_url` first; a failed backup ends it with the backup's error; after
/// the backup it runs the load; a successful load ends it with success; a
/// failed load makes it restore the database at `db_url`, after which it
/// ends with the load's error, or with the restore's error if that failed.
pub proof fn law_backup_progress(
    db_url: Seq<char>,
    state: BackupState,
    event: BackupEvent,
    next: BackupState,
    action: BackupAction,
)
    requires
        backup_awaits(state, event),
        backup_step(db_url, state, event, next, action),
    ensures
        state is Start ==> (action matches BackupAction::Backup(u) && u@ == db_url),
        event matches BackupEvent::BackedUp(Err(e)) ==> action == BackupAction::Finish(Err(e)),
        event matches BackupEvent::BackedUp(Ok(_)) ==> action is RunLoad,
        event matches BackupEvent::Loaded(Ok(_)) ==> action == BackupAction::Finish(Ok(())),
        event matches BackupEvent::Loaded(Err(e)) ==> (action matches BackupAction::Restore(u) && u@ == db_url
            && next == BackupState::Restoring { load_error: e }),
        state matches BackupState::Restoring { load_error } ==> event matches BackupEvent::Restored(Ok(_))
            ==> action == BackupAction::Finish(Err(load_error)),
        event matches BackupEvent::Restored(Err(e)) ==> action == BackupAction::Finish(Err(e)),
        next is Done <==> action is Finish,
{
}

} // verus!

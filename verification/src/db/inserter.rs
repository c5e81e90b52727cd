//! What seeding the database writes: the row each record becomes in its
//! table, and the ordered list of inserts that stores a batch of records.
//! Running the inserts against a connection is the caller's part.

use vstd::prelude::*;
use crate::db::models::{APITokenData, Fund, Proposal, Voteplan};
use crate::db::models::comma_joined;

verus! {

/// A row of the `funds` table.
#[derive(Clone, Debug, PartialEq, Eq)]
pub struct FundRow {
    pub id: i32,
    pub fund_name: String,
    pub fund_goal: String,
    pub voting_power_info: String,
    pub voting_power_threshold: i64,
    pub rewards_info: String,
    pub fund_start_time: i64,
    pub fund_end_time: i64,
    pub next_fund_start_time: i64,
}

/// A row of the `voteplans` table; without an id the database assigns one.
#[derive(Clone, Debug, PartialEq, Eq)]
pub struct VoteplanRow {
    pub id: Option<i32>,
    pub chain_voteplan_id: String,
    pub chain_vote_start_time: i64,
    pub chain_vote_end_time: i64,
    pub chain_committee_end_time: i64,
    pub chain_voteplan_payload: String,
    pub chain_vote_encryption_key: String,
    pub fund_id: i32,
}

/// A row of the `proposals` table.
#[derive(Clone, Debug, PartialEq, Eq)]
pub struct ProposalRow {
    pub id: i32,
    pub proposal_id: String,
    pub proposal_category: String,
    pub proposal_title: String,
    pub proposal_summary: String,
    pub proposal_problem: String,
    pub proposal_solution: String,
    pub proposal_public_key: String,
    pub proposal_funds: i64,
    pub proposal_url: String,
    pub proposal_files_url: String,
    pub proposer_name: String,
    pub proposer_contact: String,
    pub proposer_url: String,
    pub proposal_impact_score: i64,
    pub proposer_relevant_experience: String,
    pub chain_proposal_id: Vec<u8>,
    pub chain_proposal_index: i64,
    pub chain_vote_options: String,
    pub chain_voteplan_id: String,
}

/// A row of the `api_tokens` table.
#[derive(Clone, Debug, PartialEq, Eq)]
pub struct APITokenRow {
    pub token: Vec<u8>,
    pub creation_time: i64,
    pub expire_time: i64,
}

/// A row, tagged with its table.
#[derive(Clone, Debug, PartialEq, Eq)]
pub enum Row {
    APIToken(APITokenRow),
    Fund(FundRow),
    Proposal(ProposalRow),
    Voteplan(VoteplanRow),
}

/// One insert: `Insert` fails on a conflicting key, `InsertOrIgnore`
/// leaves the existing row in place.
#[derive(Clone, Debug, PartialEq, Eq)]
pub enum InsertOp {
    Insert(Row),
    InsertOrIgnore(Row),
}

/// The row a fund becomes (its vote plans go to their own table).
pub open spec fn fund_row(f: Fund) -> FundRow {
    FundRow {
        id: f.id,
        fund_name: f.fund_name,
        fund_goal: f.fund_goal,
        voting_power_info: f.voting_power_info,
        voting_power_threshold: f.voting_power_threshold,
        rewards_info: f.rewards_info,
        fund_start_time: f.fund_start_time,
        fund_end_time: f.fund_end_time,
        next_fund_start_time: f.next_fund_start_time,
    }
}

/// The row a vote plan of a fund becomes, under its own id.
pub open spec fn voteplan_row(v: Voteplan) -> VoteplanRow {
    VoteplanRow {
        id: Some(v.id),
        chain_voteplan_id: v.chain_voteplan_id,
        chain_vote_start_time: v.chain_vote_start_time,
        chain_vote_end_time: v.chain_vote_end_time,
        chain_committee_end_time: v.chain_committee_end_time,
        chain_voteplan_payload: v.chain_voteplan_payload,
        chain_vote_encryption_key: v.chain_vote_encryption_key,
        fund_id: v.fund_id,
    }
}

/// The row of the vote plan a proposal is voted in; the database picks
/// its id.
pub open spec fn proposal_voteplan_row(p: Proposal) -> VoteplanRow {
    VoteplanRow {
        id: None,
        chain_voteplan_id: p.chain_voteplan_id,
        chain_vote_start_time: p.chain_vote_start_time,
        chain_vote_end_time: p.chain_vote_end_time,
        chain_committee_end_time: p.chain_committee_end_time,
        chain_voteplan_payload: p.chain_voteplan_payload,
        chain_vote_encryption_key: p.chain_vote_encryption_key,
        fund_id: p.fund_id,
    }
}

/// `r` is the row of proposal `p`: the category by its name, the proposer's
/// email as the contact, the vote options as one CSV field.
pub open spec fn is_proposal_row(r: ProposalRow, p: Proposal) -> bool {
    &&& r.id == p.internal_id
    &&& r.proposal_id == p.proposal_id
    &&& r.proposal_category == p.proposal_category.category_name
    &&& r.proposal_title == p.proposal_title
    &&& r.proposal_summary == p.proposal_summary
    &&& r.proposal_problem == p.proposal_problem
    &&& r.proposal_solution == p.proposal_solution
    &&& r.proposal_public_key == p.proposal_public_key
    &&& r.proposal_funds == p.proposal_funds
    &&& r.proposal_url == p.proposal_url
    &&& r.proposal_files_url == p.proposal_files_url
    &&& r.proposer_name == p.proposer.proposer_name
    &&& r.proposer_contact == p.proposer.proposer_email
    &&& r.proposer_url == p.proposer.proposer_url
    &&& r.proposal_impact_score == p.proposal_impact_score
    &&& r.proposer_relevant_experience == p.proposer.proposer_relevant_experience
    &&& r.chain_proposal_id@ == p.chain_proposal_id@
    &&& r.chain_proposal_index == p.chain_proposal_index
    &&& r.chain_vote_options@ == comma_joined(p.chain_vote_options.names())
    &&& r.chain_voteplan_id == p.chain_voteplan_id
}

/// `r` is the row of token `t`.
pub open spec fn is_token_row(r: APITokenRow, t: APITokenData) -> bool {
    &&& r.token@ == t.token@
    &&& r.creation_time == t.creation_time
    &&& r.expire_time == t.expire_time
}

/// `op` plainly inserts the row of token `t`.
pub open spec fn is_token_insert(op: InsertOp, t: APITokenData) -> bool {
    op matches InsertOp::Insert(Row::APIToken(r)) && is_token_row(r, t)
}

/// The inserts that store one proposal: its row, then the row of its vote
/// plan unless that vote plan is stored already.
pub open spec fn is_proposal_inserts(ops: Seq<InsertOp>, p: Proposal) -> bool {
    &&& ops.len() == 2
    &&& ops[0] matches InsertOp::Insert(Row::Proposal(r)) && is_proposal_row(r, p)
    &&& ops[1] == InsertOp::InsertOrIgnore(Row::Voteplan(proposal_voteplan_row(p)))
}

/// The inserts that store one fund: its row, then the row of each of its
/// vote plans, in order, unless that vote plan is stored already.
pub open spec fn is_fund_inserts(ops: Seq<InsertOp>, f: Fund) -> bool {
    &&& ops.len() == 1 + f.chain_vote_plans@.len()
    &&& ops[0] == InsertOp::Insert(Row::Fund(fund_row(f)))
    &&& forall|j: int|
        0 <= j < f.chain_vote_plans@.len() ==> #[trigger] ops[1 + j] == InsertOp::InsertOrIgnore(
            Row::Voteplan(voteplan_row(f.chain_vote_plans@[j])),
        )
}

/// `ops` stores the proposals `ps`: the inserts of each, in order.
pub open spec fn is_proposals_plan(ops: Seq<InsertOp>, ps: Seq<Proposal>) -> bool {
    &&& ops.len() == 2 * ps.len()
    &&& forall|i: int| 0 <= i < ps.len() ==> is_proposal_inserts(#[trigger] ops.subrange(2 * i, 2 * i + 2), ps[i])
}

/// `ops` stores the funds `fs`: the inserts of each, one after the other.
pub open spec fn is_funds_plan(ops: Seq<InsertOp>, fs: Seq<Fund>) -> bool
    decreases fs.len(),
{
    if fs.len() == 0 {
        ops.len() == 0
    } else {
        let k = 1 + fs.last().chain_vote_plans@.len();
        &&& ops.len() >= k
        &&& is_funds_plan(ops.take(ops.len() - k), fs.drop_last())
        &&& is_fund_inserts(ops.skip(ops.len() - k), fs.last())
    }
}

/// The row of a vote plan of a fund carries each of the vote plan's values
/// in the column of the same name, under the vote plan's own id.
pub proof fn law_voteplan_row_columns(v: Voteplan)
    ensures
        voteplan_row(v).id == Some(v.id),
        voteplan_row(v).chain_voteplan_id == v.chain_voteplan_id,
        voteplan_row(v).chain_vote_start_time == v.chain_vote_start_time,
        voteplan_row(v).chain_vote_end_time == v.chain_vote_end_time,
        voteplan_row(v).chain_committee_end_time == v.chain_committee_end_time,
        voteplan_row(v).chain_voteplan_payload == v.chain_voteplan_payload,
        voteplan_row(v).chain_vote_encryption_key == v.chain_vote_encryption_key,
        voteplan_row(v).fund_id == v.fund_id,
{
}

/// The row of the vote plan of a proposal carries the proposal's vote plan
/// values in the columns of the same name, and no id.
pub proof fn law_proposal_voteplan_row_columns(p: Proposal)
    ensures
        proposal_voteplan_row(p).id is None,
        proposal_voteplan_row(p).chain_voteplan_id == p.chain_voteplan_id,
        proposal_voteplan_row(p).chain_vote_start_time == p.chain_vote_start_time,
        proposal_voteplan_row(p).chain_vote_end_time == p.chain_vote_end_time,
        proposal_voteplan_row(p).chain_committee_end_time == p.chain_committee_end_time,
        proposal_voteplan_row(p).chain_voteplan_payload == p.chain_voteplan_payload,
        proposal_voteplan_row(p).chain_vote_encryption_key == p.chain_vote_encryption_key,
        proposal_voteplan_row(p).fund_id == p.fund_id,
{
}

/// The row of a fund carries each of the fund's values in the column of
/// the same name.
pub proof fn law_fund_row_columns(f: Fund)
    ensures
        fund_row(f).id == f.id,
        fund_row(f).fund_name == f.fund_name,
        fund_row(f).fund_goal == f.fund_goal,
        fund_row(f).voting_power_info == f.voting_power_info,
        fund_row(f).voting_power_threshold == f.voting_power_threshold,
        fund_row(f).rewards_info == f.rewards_info,
        fund_row(f).fund_start_time == f.fund_start_time,
        fund_row(f).fund_end_time == f.fund_end_time,
        fund_row(f).next_fund_start_time == f.next_fund_start_time,
{
}

/// A row of a proposal holds each of the proposal's values in its column:
/// the texts in the columns of the same name, the category's name, the
/// proposer's name, email (as the contact), url and experience, the chain
/// id's bytes, and the vote options joined by commas.
pub proof fn law_proposal_row_columns(r: ProposalRow, p: Proposal)
    requires
        is_proposal_row(r, p),
    ensures
        r.id == p.internal_id,
        r.proposal_id == p.proposal_id,
        r.proposal_category == p.proposal_category.category_name,
        r.proposal_title == p.proposal_title,
        r.proposal_summary == p.proposal_summary,
        r.proposal_problem == p.proposal_problem,
        r.proposal_solution == p.proposal_solution,
        r.proposal_public_key == p.proposal_public_key,
        r.proposal_funds == p.proposal_funds,
        r.proposal_url == p.proposal_url,
        r.proposal_files_url == p.proposal_files_url,
        r.proposer_name == p.proposer.proposer_name,
        r.proposer_contact == p.proposer.proposer_email,
        r.proposer_url == p.proposer.proposer_url,
        r.proposal_impact_score == p.proposal_impact_score,
        r.proposer_relevant_experience == p.proposer.proposer_relevant_experience,
        r.chain_proposal_id@ == p.chain_proposal_id@,
        r.chain_proposal_index == p.chain_proposal_index,
        r.chain_vote_options@ == comma_joined(p.chain_vote_options.names()),
        r.chain_voteplan_id == p.chain_voteplan_id,
{
}

/// A row of a token holds the token's bytes and times.
pub proof fn law_token_row_columns(r: APITokenRow, t: APITokenData)
    requires
        is_token_row(r, t),
    ensures
        r.token@ == t.token@,
        r.creation_time == t.creation_time,
        r.expire_time == t.expire_time,
{
}

/// The plan that stores proposals has two inserts per proposal, in the
/// proposals' order: the proposal's row, then its vote plan's row kept if
/// already there.
pub proof fn law_proposals_plan_shape(ops: Seq<InsertOp>, ps: Seq<Proposal>, i: int)
    requires
        is_proposals_plan(ops, ps),
        0 <= i < ps.len(),
    ensures
        ops.len() == 2 * ps.len(),
        ops[2 * i] matches InsertOp::Insert(Row::Proposal(r)) && is_proposal_row(r, ps[i]),
        ops[2 * i + 1] == InsertOp::InsertOrIgnore(Row::Voteplan(proposal_voteplan_row(ps[i]))),
{
    let seg = ops.subrange(2 * i, 2 * i + 2);
    assert(is_proposal_inserts(seg, ps[i]));
    assert(seg[0] == ops[2 * i]);
    assert(seg[1] == ops[2 * i + 1]);
}

/// The plan that stores funds starts with the first fund's row, followed by
/// the rows of its vote plans in order, each kept if already there.
pub proof fn law_funds_plan_starts_with_first_fund(ops: Seq<InsertOp>, fs: Seq<Fund>)
    requires
        is_funds_plan(ops, fs),
        fs.len() >= 1,
    ensures
        ops.len() >= 1 + fs[0].chain_vote_plans@.len(),
        ops[0] == InsertOp::Insert(Row::Fund(fund_row(fs[0]))),
        forall|j: int|
            0 <= j < fs[0].chain_vote_plans@.len() ==> #[trigger] ops[1 + j] == InsertOp::InsertOrIgnore(
                Row::Voteplan(voteplan_row(fs[0].chain_vote_plans@[j])),
            ),
    decreases fs.len(),
{
    let k = 1 + fs.last().chain_vote_plans@.len();
    if fs.len() == 1 {
        let seg = ops.skip(ops.len() - k);
        assert(fs.drop_last().len() == 0);
        assert(is_funds_plan(ops.take(ops.len() - k), fs.drop_last()));
        assert(ops.take(ops.len() - k).len() == 0);
        assert(seg =~= ops);
        assert(fs.last() == fs[0]);
    } else {
        let init = ops.take(ops.len() - k);
        law_funds_plan_starts_with_first_fund(init, fs.drop_last());
        assert(fs.drop_last()[0] == fs[0]);
        assert forall|j: int| 0 <= j < fs[0].chain_vote_plans@.len() implies #[trigger] ops[1 + j]
            == InsertOp::InsertOrIgnore(Row::Voteplan(voteplan_row(fs[0].chain_vote_plans@[j]))) by {
            assert(init[1 + j] == ops[1 + j]);
        }
        assert(init[0] == ops[0]);
    }
}

/// The plan that stores funds ends with the last fund's row, followed by
/// the rows of its vote plans in order, each kept if already there.
pub proof fn law_funds_plan_ends_with_last_fund(ops: Seq<InsertOp>, fs: Seq<Fund>)
    requires
        is_funds_plan(ops, fs),
        fs.len() >= 1,
    ensures
        ops.len() >= 1 + fs.last().chain_vote_plans@.len(),
        ops[ops.len() - 1 - fs.last().chain_vote_plans@.len()] == InsertOp::Insert(Row::Fund(fund_row(fs.last()))),
        forall|j: int|
            0 <= j < fs.last().chain_vote_plans@.len() ==> #[trigger] ops[ops.len()
                - fs.last().chain_vote_plans@.len() + j] == InsertOp::InsertOrIgnore(
                Row::Voteplan(voteplan_row(fs.last().chain_vote_plans@[j])),
            ),
{
    let n = fs.last().chain_vote_plans@.len();
    let k = 1 + n;
    let seg = ops.skip(ops.len() - k);
    assert(seg[0] == ops[ops.len() - 1 - n]);
    assert forall|j: int| 0 <= j < n implies #[trigger] ops[ops.len() - n + j] == InsertOp::InsertOrIgnore(
        Row::Voteplan(voteplan_row(fs.last().chain_vote_plans@[j])),
    ) by {
        assert(seg[1 + j] == ops[ops.len() - n + j]);
    }
}

/// The insert of a token plainly inserts a row holding the token's bytes
/// and times.
pub proof fn law_token_insert_shape(op: InsertOp, t: APITokenData)
    requires
        is_token_insert(op, t),
    ensures
        op matches InsertOp::Insert(Row::APIToken(r)) && r.token@ == t.token@ && r.creation_time == t.creation_time
            && r.expire_time == t.expire_time,
{
}

/// The number of vote plans of the funds, all together.
pub open spec fn voteplan_count(fs: Seq<Fund>) -> nat
    decreases fs.len(),
{
    if fs.len() == 0 {
        0
    } else {
        voteplan_count(fs.drop_last()) + fs.last().chain_vote_plans@.len()
    }
}

/// The plan that stores funds has one insert per fund and one per vote plan
/// of each fund, nothing more.
pub proof fn law_funds_plan_length(ops: Seq<InsertOp>, fs: Seq<Fund>)
    requires
        is_funds_plan(ops, fs),
    ensures
        ops.len() == fs.len() + voteplan_count(fs),
    decreases fs.len(),
{
    if fs.len() > 0 {
        let k = 1 + fs.last().chain_vote_plans@.len();
        law_funds_plan_length(ops.take(ops.len() - k), fs.drop_last());
    }
}

/// The insert that stores one API token.
pub fn token_insert(token_data: &APITokenData) -> (op: InsertOp)
    ensures
        is_token_insert(op, *token_data),
{
    let token = token_data.token.clone();
    proof {
        assert(token@ =~= token_data.token@);
    }
    InsertOp::Insert(Row::APIToken(APITokenRow {
        token,
        creation_time: token_data.creation_time,
        expire_time: token_data.expire_time,
    }))
}

/// The inserts that store API tokens: one each, in order.
pub fn tokens_plan(tokens_data: &[APITokenData]) -> (ops: Vec<InsertOp>)
    ensures
        ops@.len() == tokens_data@.len(),
        forall|i: int| 0 <= i < tokens_data@.len() ==> is_token_insert(#[trigger] ops@[i], tokens_data@[i]),
{
    let mut ops: Vec<InsertOp> = Vec::new();
    let n = tokens_data.len();
    for i in 0..n
        invariant
            n == tokens_data@.len(),
            ops@.len() == i,
            forall|j: int| 0 <= j < i ==> is_token_insert(#[trigger] ops@[j], tokens_data@[j]),
    {
        ops.push(token_insert(&tokens_data[i]));
    }
    ops
}

/// The row of a proposal.
pub fn proposal_row(proposal: &Proposal) -> (row: ProposalRow)
    ensures
        is_proposal_row(row, *proposal),
        row.id == proposal.internal_id,
        row.proposal_id == proposal.proposal_id,
        row.proposal_category == proposal.proposal_category.category_name,
        row.proposal_title == proposal.proposal_title,
        row.proposal_summary == proposal.proposal_summary,
        row.proposal_problem == proposal.proposal_problem,
        row.proposal_solution == proposal.proposal_solution,
        row.proposal_public_key == proposal.proposal_public_key,
        row.proposal_funds == proposal.proposal_funds,
        row.proposal_url == proposal.proposal_url,
        row.proposal_files_url == proposal.proposal_files_url,
        row.proposer_name == proposal.proposer.proposer_name,
        row.proposer_contact == proposal.proposer.proposer_email,
        row.proposer_url == proposal.proposer.proposer_url,
        row.proposal_impact_score == proposal.proposal_impact_score,
        row.proposer_relevant_experience == proposal.proposer.proposer_relevant_experience,
        row.chain_proposal_id@ == proposal.chain_proposal_id@,
        row.chain_proposal_index == proposal.chain_proposal_index,
        row.chain_vote_options@ == comma_joined(proposal.chain_vote_options.names()),
        row.chain_voteplan_id == proposal.chain_voteplan_id,
{
    let chain_proposal_id = proposal.chain_proposal_id.clone();
    proof {
        assert(chain_proposal_id@ =~= proposal.chain_proposal_id@);
    }
    ProposalRow {
        id: proposal.internal_id,
        proposal_id: proposal.proposal_id.clone(),
        proposal_category: proposal.proposal_category.category_name.clone(),
        proposal_title: proposal.proposal_title.clone(),
        proposal_summary: proposal.proposal_summary.clone(),
        proposal_problem: proposal.proposal_problem.clone(),
        proposal_solution: proposal.proposal_solution.clone(),
        proposal_public_key: proposal.proposal_public_key.clone(),
        proposal_funds: proposal.proposal_funds,
        proposal_url: proposal.proposal_url.clone(),
        proposal_files_url: proposal.proposal_files_url.clone(),
        proposer_name: proposal.proposer.proposer_name.clone(),
        proposer_contact: proposal.proposer.proposer_email.clone(),
        proposer_url: proposal.proposer.proposer_url.clone(),
        proposal_impact_score: proposal.proposal_impact_score,
        proposer_relevant_experience: proposal.proposer.proposer_relevant_experience.clone(),
        chain_proposal_id,
        chain_proposal_index: proposal.chain_proposal_index,
        chain_vote_options: proposal.chain_vote_options.as_csv_string(),
        chain_voteplan_id: proposal.chain_voteplan_id.clone(),
    }
}

/// The row of the vote plan a proposal is voted in.
pub fn proposal_voteplan(proposal: &Proposal) -> (row: VoteplanRow)
    ensures
        row == proposal_voteplan_row(*proposal),
        row.id is None,
        row.chain_voteplan_id == proposal.chain_voteplan_id,
        row.chain_vote_start_time == proposal.chain_vote_start_time,
        row.chain_vote_end_time == proposal.chain_vote_end_time,
        row.chain_committee_end_time == proposal.chain_committee_end_time,
        row.chain_voteplan_payload == proposal.chain_voteplan_payload,
        row.chain_vote_encryption_key == proposal.chain_vote_encryption_key,
        row.fund_id == proposal.fund_id,
{
    VoteplanRow {
        id: None,
        chain_voteplan_id: proposal.chain_voteplan_id.clone(),
        chain_vote_start_time: proposal.chain_vote_start_time,
        chain_vote_end_time: proposal.chain_vote_end_time,
        chain_committee_end_time: proposal.chain_committee_end_time,
        chain_voteplan_payload: proposal.chain_voteplan_payload.clone(),
        chain_vote_encryption_key: proposal.chain_vote_encryption_key.clone(),
        fund_id: proposal.fund_id,
    }
}

/// The inserts that store proposals: for each, in order, its row and then
/// the row of its vote plan, kept if already there.
pub fn proposals_plan(proposals: &[Proposal]) -> (ops: Vec<InsertOp>)
    ensures
        is_proposals_plan(ops@, proposals@),
{
    let mut ops: Vec<InsertOp> = Vec::new();
    let n = proposals.len();
    for i in 0..n
        invariant
            n == proposals@.len(),
            is_proposals_plan(ops@, proposals@.take(i as int)),
    {
        let ghost before = ops@;
        let proposal = &proposals[i];
        ops.push(InsertOp::Insert(Row::Proposal(proposal_row(proposal))));
        ops.push(InsertOp::InsertOrIgnore(Row::Voteplan(proposal_voteplan(proposal))));
        proof {
            assert forall|k: int| 0 <= k < i + 1 implies is_proposal_inserts(
                #[trigger] ops@.subrange(2 * k, 2 * k + 2),
                proposals@.take(i + 1)[k],
            ) by {
                if k < i {
                    assert(ops@.subrange(2 * k, 2 * k + 2) =~= before.subrange(2 * k, 2 * k + 2));
                    assert(proposals@.take(i as int)[k] == proposals@.take(i + 1)[k]);
                }
            }
        }
    }
    proof {
        assert(proposals@.take(n as int) =~= proposals@);
    }
    ops
}

/// The row of a fund.
pub fn fund_row_of(fund: &Fund) -> (row: FundRow)
    ensures
        row == fund_row(*fund),
        row.id == fund.id,
        row.fund_name == fund.fund_name,
        row.fund_goal == fund.fund_goal,
        row.voting_power_info == fund.voting_power_info,
        row.voting_power_threshold == fund.voting_power_threshold,
        row.rewards_info == fund.rewards_info,
        row.fund_start_time == fund.fund_start_time,
        row.fund_end_time == fund.fund_end_time,
        row.next_fund_start_time == fund.next_fund_start_time,
{
    FundRow {
        id: fund.id,
        fund_name: fund.fund_name.clone(),
        fund_goal: fund.fund_goal.clone(),
        voting_power_info: fund.voting_power_info.clone(),
        voting_power_threshold: fund.voting_power_threshold,
        rewards_info: fund.rewards_info.clone(),
        fund_start_time: fund.fund_start_time,
        fund_end_time: fund.fund_end_time,
        next_fund_start_time: fund.next_fund_start_time,
    }
}

/// The row of a vote plan of a fund.
pub fn voteplan_row_of(voteplan: &Voteplan) -> (row: VoteplanRow)
    ensures
        row == voteplan_row(*voteplan),
        row.id == Some(voteplan.id),
        row.chain_voteplan_id == voteplan.chain_voteplan_id,
        row.chain_vote_start_time == voteplan.chain_vote_start_time,
        row.chain_vote_end_time == voteplan.chain_vote_end_time,
        row.chain_committee_end_time == voteplan.chain_committee_end_time,
        row.chain_voteplan_payload == voteplan.chain_voteplan_payload,
        row.chain_vote_encryption_key == voteplan.chain_vote_encryption_key,
        row.fund_id == voteplan.fund_id,
{
    VoteplanRow {
        id: Some(voteplan.id),
        chain_voteplan_id: voteplan.chain_voteplan_id.clone(),
        chain_vote_start_time: voteplan.chain_vote_start_time,
        chain_vote_end_time: voteplan.chain_vote_end_time,
        chain_committee_end_time: voteplan.chain_committee_end_time,
        chain_voteplan_payload: voteplan.chain_voteplan_payload.clone(),
        chain_vote_encryption_key: voteplan.chain_vote_encryption_key.clone(),
        fund_id: voteplan.fund_id,
    }
}

/// The inserts that store funds: for each, in order, its row and then the
/// rows of its vote plans, each kept if already there.
pub fn funds_plan(funds: &[Fund]) -> (ops: Vec<InsertOp>)
    ensures
        is_funds_plan(ops@, funds@),
{
    let mut ops: Vec<InsertOp> = Vec::new();
    let n = funds.len();
    for i in 0..n
        invariant
            n == funds@.len(),
            is_funds_plan(ops@, funds@.take(i as int)),
    {
        let ghost before = ops@;
        let fund = &funds[i];
        ops.push(InsertOp::Insert(Row::Fund(fund_row_of(fund))));
        let m = fund.chain_vote_plans.len();
        for j in 0..m
            invariant
                m == fund.chain_vote_plans@.len(),
                ops@.len() == before.len() + 1 + j,
                ops@.take(before.len() as int) == before,
                ops@[before.len() as int] == InsertOp::Insert(Row::Fund(fund_row(*fund))),
                forall|l: int| 0 <= l < j ==> #[trigger] ops@[before.len() + 1 + l] == InsertOp::InsertOrIgnore(
                    Row::Voteplan(voteplan_row(fund.chain_vote_plans@[l])),
                ),
        {
            ops.push(InsertOp::InsertOrIgnore(Row::Voteplan(voteplan_row_of(&fund.chain_vote_plans[j]))));
            proof {
                assert(ops@.take(before.len() as int) =~= before);
            }
        }
        proof {
            let fs = funds@.take(i + 1);
            let k = 1 + fund.chain_vote_plans@.len();
            assert(fs.drop_last() =~= funds@.take(i as int));
            assert(fs.last() == *fund);
            assert(ops@.take(ops@.len() - k) =~= before);
            let seg = ops@.skip(ops@.len() - k);
            assert forall|l: int| 0 <= l < fund.chain_vote_plans@.len() implies #[trigger] seg[1 + l]
                == InsertOp::InsertOrIgnore(Row::Voteplan(voteplan_row(fund.chain_vote_plans@[l]))) by {
                assert(seg[1 + l] == ops@[before.len() + 1 + l]);
            }
            assert(is_fund_inserts(seg, fs.last()));
        }
    }
    proof {
        assert(funds@.take(n as int) =~= funds@);
    }
    ops
}

} // verus!

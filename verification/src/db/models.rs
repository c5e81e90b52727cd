//! The records that the station loads and stores.

use vstd::prelude::*;

verus! {

/// A vote plan on chain, and the fund it belongs to.
#[derive(Clone, Debug, PartialEq, Eq)]
pub struct Voteplan {
    pub id: i32,
    pub chain_voteplan_id: String,
    pub chain_vote_start_time: i64,
    pub chain_vote_end_time: i64,
    pub chain_committee_end_time: i64,
    pub chain_voteplan_payload: String,
    pub chain_vote_encryption_key: String,
    pub fund_id: i32,
}

/// A fund, with the vote plans that run under it.
#[derive(Clone, Debug, PartialEq, Eq)]
pub struct Fund {
    pub id: i32,
    pub fund_name: String,
    pub fund_goal: String,
    pub voting_power_info: String,
    pub voting_power_threshold: i64,
    pub rewards_info: String,
    pub fund_start_time: i64,
    pub fund_end_time: i64,
    pub next_fund_start_time: i64,
    pub chain_vote_plans: Vec<Voteplan>,
}

/// The category a proposal is filed under.
#[derive(Clone, Debug, PartialEq, Eq)]
pub struct Category {
    pub category_id: String,
    pub category_name: String,
    pub category_description: String,
}

/// The author of a proposal.
#[derive(Clone, Debug, PartialEq, Eq)]
pub struct Proposer {
    pub proposer_name: String,
    pub proposer_email: String,
    pub proposer_url: String,
    pub proposer_relevant_experience: String,
}

/// The options a vote on a proposal offers, in the order of their index
/// on chain: the option at position `i` is the one with index `i`.
#[derive(Clone, Debug, PartialEq, Eq)]
pub struct VoteOptions {
    pub options: Vec<String>,
}

/// The names joined by commas, in order.
pub open spec fn comma_joined(names: Seq<Seq<char>>) -> Seq<char>
    decreases names.len(),
{
    if names.len() == 0 {
        Seq::empty()
    } else if names.len() == 1 {
        names[0]
    } else {
        comma_joined(names.drop_last()) + seq![','] + names.last()
    }
}

/// The comma-separated fields of `s`, in order; a text without commas is
/// one field, so the empty text is one empty field.
pub open spec fn comma_split(s: Seq<char>) -> Seq<Seq<char>>
    decreases s.len(),
{
    if s.len() == 0 {
        seq![Seq::empty()]
    } else {
        let fields = comma_split(s.drop_last());
        if s.last() == ',' {
            fields.push(Seq::empty())
        } else {
            fields.update(fields.len() - 1, fields.last().push(s.last()))
        }
    }
}

proof fn lemma_comma_split_not_empty(s: Seq<char>)
    ensures
        comma_split(s).len() >= 1,
    decreases s.len(),
{
    if s.len() > 0 {
        lemma_comma_split_not_empty(s.drop_last());
    }
}

impl VoteOptions {
    /// The options named by the comma-separated fields of `csv`, in order.
    pub fn from_csv_string(csv: &str) -> (options: VoteOptions)
        ensures
            options.names() == comma_split(csv@),
    {
        let n = csv.unicode_len();
        let mut options: Vec<String> = Vec::new();
        let mut start: usize = 0;
        proof {
            assert(csv@.take(0).len() == 0);
            assert(comma_split(csv@.take(0)) == seq![Seq::<char>::empty()]);
            assert(csv@.subrange(0, 0) =~= Seq::<char>::empty());
            assert(options@.map_values(|s: String| s@) + seq![csv@.subrange(0, 0)] =~= seq![Seq::<char>::empty()]);
        }
        for i in 0..n
            invariant
                n == csv@.len(),
                start <= i,
                options@.map_values(|s: String| s@) + seq![csv@.subrange(start as int, i as int)] == comma_split(
                    csv@.take(i as int),
                ),
        {
            let ghost before = options@.map_values(|s: String| s@);
            proof {
                assert(csv@.take(i + 1).drop_last() =~= csv@.take(i as int));
                lemma_comma_split_not_empty(csv@.take(i as int));
            }
            let ghost old_start = start;
            proof {
                assert(csv@.take(i + 1).last() == csv@[i as int]);
            }
            if csv.get_char(i) == ',' {
                let field = csv.substring_char(start, i).to_owned();
                options.push(field);
                start = i + 1;
                proof {
                    assert(options@.map_values(|s: String| s@) =~= before.push(field@));
                    assert(comma_split(csv@.take(i + 1)) == comma_split(csv@.take(i as int)).push(Seq::empty()));
                    assert(before + seq![csv@.subrange(old_start as int, i as int)] == comma_split(csv@.take(i as int)));
                    assert(field@ == csv@.subrange(old_start as int, i as int));
                    assert(csv@.subrange(start as int, i + 1) =~= Seq::<char>::empty());
                    assert(before.push(field@) + seq![Seq::<char>::empty()] =~= (before + seq![field@]).push(Seq::empty()));
                    assert(options@.map_values(|s: String| s@) + seq![csv@.subrange(start as int, i + 1)]
                        =~= comma_split(csv@.take(i + 1)));
                }
            } else {
                proof {
                    assert(csv@.subrange(start as int, i + 1) =~= csv@.subrange(start as int, i as int).push(csv@[i as int]));
                    assert(options@.map_values(|s: String| s@) + seq![csv@.subrange(start as int, i + 1)]
                        =~= comma_split(csv@.take(i as int)).update(
                        comma_split(csv@.take(i as int)).len() - 1,
                        comma_split(csv@.take(i as int)).last().push(csv@[i as int]),
                    ));
                }
            }
        }
        let last = csv.substring_char(start, n).to_owned();
        let ghost before = options@.map_values(|s: String| s@);
        options.push(last);
        proof {
            assert(csv@.take(n as int) =~= csv@);
            assert(options@.map_values(|s: String| s@) =~= before.push(last@));
        }
        VoteOptions { options }
    }

    /// The option names, as character sequences.
    pub open spec fn names(&self) -> Seq<Seq<char>> {
        self.options@.map_values(|s: String| s@)
    }

    /// The options as one CSV field: their names in index order, separated
    /// by commas.
    pub fn as_csv_string(&self) -> (csv: String)
        ensures
            csv@ == comma_joined(self.names()),
    {
        let mut csv = String::new();
        let n = self.options.len();
        for i in 0..n
            invariant
                n == self.options@.len(),
                csv@ == comma_joined(self.names().take(i as int)),
        {
            proof {
                assert(self.names().take(i + 1).drop_last() =~= self.names().take(i as int));
            }
            if i != 0 {
                csv.append(",");
                proof {
                    assert(","@ == seq![',']) by {
                        reveal_strlit(",");
                    }
                }
            }
            csv.append(self.options[i].as_str());
        }
        proof {
            assert(self.names().take(n as int) =~= self.names());
        }
        csv
    }
}

/// One name is written as itself; more are written as the first ones,
/// a comma, and the last one.
pub proof fn law_comma_joined_parts(names: Seq<Seq<char>>)
    ensures
        names.len() == 1 ==> comma_joined(names) == names[0],
        names.len() >= 2 ==> comma_joined(names) == comma_joined(names.drop_last()) + seq![','] + names.last(),
        names.len() == 0 ==> comma_joined(names).len() == 0,
{
}

/// A text without commas is a single field; a comma ends a field and starts
/// the next.
pub proof fn law_comma_split_parts(a: Seq<char>, b: Seq<char>)
    requires
        !b.contains(','),
    ensures
        comma_split(b) == seq![b],
        comma_split(a + seq![','] + b) == comma_split(a).push(b),
{
    lemma_split_without_commas(b);
    lemma_split_after_comma(a, b);
}

/// Writing back the options read from a CSV field gives the field back:
/// joining the comma-separated fields of `s` by commas is `s`.
pub proof fn law_csv_field_round_trip(s: Seq<char>)
    ensures
        comma_joined(comma_split(s)) == s,
    decreases s.len(),
{
    if s.len() == 0 {
        assert(s =~= Seq::<char>::empty());
    } else {
        let init = s.drop_last();
        let fields = comma_split(init);
        law_csv_field_round_trip(init);
        lemma_comma_split_not_empty(init);
        if s.last() == ',' {
            let pushed = fields.push(Seq::<char>::empty());
            assert(pushed.drop_last() =~= fields);
            assert(comma_joined(pushed) == comma_joined(fields) + seq![','] + Seq::<char>::empty());
            assert(s =~= init + seq![','] + Seq::<char>::empty());
        } else {
            let last = fields.last().push(s.last());
            let updated = fields.update(fields.len() - 1, last);
            if fields.len() == 1 {
                assert(comma_joined(updated) == last);
                assert(s =~= init.push(s.last()));
            } else {
                assert(updated.drop_last() =~= fields.drop_last());
                assert(comma_joined(updated) == comma_joined(fields.drop_last()) + seq![','] + last);
                assert(comma_joined(fields) == comma_joined(fields.drop_last()) + seq![','] + fields.last());
                assert(s =~= init.push(s.last()));
                assert(comma_joined(updated) =~= comma_joined(fields).push(s.last()));
            }
        }
    }
}

proof fn lemma_split_without_commas(x: Seq<char>)
    requires
        !x.contains(','),
    ensures
        comma_split(x) == seq![x],
    decreases x.len(),
{
    if x.len() == 0 {
        assert(x =~= Seq::<char>::empty());
    } else {
        let init = x.drop_last();
        assert(!init.contains(',')) by {
            if init.contains(',') {
                let k = choose|k: int| 0 <= k < init.len() && init[k] == ',';
                assert(x[k] == ',');
            }
        }
        lemma_split_without_commas(init);
        assert(x[x.len() - 1] != ',');
        assert(init.push(x.last()) =~= x);
        assert(seq![init].update(0, init.push(x.last())) =~= seq![x]);
    }
}

proof fn lemma_split_after_comma(a: Seq<char>, b: Seq<char>)
    requires
        !b.contains(','),
    ensures
        comma_split(a + seq![','] + b) == comma_split(a).push(b),
    decreases b.len(),
{
    if b.len() == 0 {
        let t = a + seq![','];
        assert(b =~= Seq::<char>::empty());
        assert(a + seq![','] + b =~= t);
        assert(t.drop_last() =~= a);
        assert(t.last() == ',');
    } else {
        let init = b.drop_last();
        assert(!init.contains(',')) by {
            if init.contains(',') {
                let k = choose|k: int| 0 <= k < init.len() && init[k] == ',';
                assert(b[k] == ',');
            }
        }
        lemma_split_after_comma(a, init);
        let t = a + seq![','] + b;
        assert(t.drop_last() =~= a + seq![','] + init);
        assert(t.last() == b.last());
        assert(b.last() != ',') by {
            assert(b[b.len() - 1] == b.last());
        }
        assert(init.push(b.last()) =~= b);
        assert(comma_split(a).push(init).update(comma_split(a).len() as int, init.push(b.last())) =~= comma_split(
            a,
        ).push(b));
    }
}

/// Reading back the options written as a CSV field gives the same options,
/// when there is at least one and no name holds a comma.
pub proof fn law_options_round_trip(names: Seq<Seq<char>>)
    requires
        names.len() >= 1,
        forall|i: int| 0 <= i < names.len() ==> !(#[trigger] names[i]).contains(','),
    ensures
        comma_split(comma_joined(names)) == names,
    decreases names.len(),
{
    if names.len() == 1 {
        lemma_split_without_commas(names[0]);
        assert(seq![names[0]] =~= names);
    } else {
        let init = names.drop_last();
        assert forall|i: int| 0 <= i < init.len() implies !(#[trigger] init[i]).contains(',') by {
            assert(init[i] == names[i]);
        }
        law_options_round_trip(init);
        assert(!names.last().contains(',')) by {
            assert(names[names.len() - 1] == names.last());
        }
        lemma_split_after_comma(comma_joined(init), names.last());
        assert(init.push(names.last()) =~= names);
    }
}

/// A proposal submitted to a fund, with the vote plan it is voted in.
#[derive(Clone, Debug, PartialEq, Eq)]
pub struct Proposal {
    pub internal_id: i32,
    pub proposal_id: String,
    pub proposal_category: Category,
    pub proposal_title: String,
    pub proposal_summary: String,
    pub proposal_problem: String,
    pub proposal_solution: String,
    pub proposal_public_key: String,
    pub proposal_funds: i64,
    pub proposal_url: String,
    pub proposal_files_url: String,
    pub proposal_impact_score: i64,
    pub proposer: Proposer,
    pub chain_proposal_id: Vec<u8>,
    pub chain_proposal_index: i64,
    pub chain_vote_options: VoteOptions,
    pub chain_voteplan_id: String,
    pub chain_vote_start_time: i64,
    pub chain_vote_end_time: i64,
    pub chain_committee_end_time: i64,
    pub chain_voteplan_payload: String,
    pub chain_vote_encryption_key: String,
    pub fund_id: i32,
}

/// An API token and its validity window.
#[derive(Clone, Debug, PartialEq, Eq)]
pub struct APITokenData {
    pub token: Vec<u8>,
    pub creation_time: i64,
    pub expire_time: i64,
}

} // verus!

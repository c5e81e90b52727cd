//! The objects the GraphQL endpoint serves: a proposal as stored, and the
//! category and proposer it names.

use vstd::prelude::*;
use std::sync::Arc;

verus! {

/// The category of a proposal, as the endpoint presents it.
pub struct Category {
    category_id: String,
    category_name: String,
    category_description: String,
}

/// The abstract value of a [`Category`]: its three texts.
pub struct CategoryView {
    pub category_id: Seq<char>,
    pub category_name: Seq<char>,
    pub category_description: Seq<char>,
}

impl View for Category {
    type V = CategoryView;

    closed spec fn view(&self) -> CategoryView {
        CategoryView {
            category_id: self.category_id@,
            category_name: self.category_name@,
            category_description: self.category_description@,
        }
    }
}

impl Category {
    /// A category with these texts.
    pub fn new(category_id: String, category_name: String, category_description: String) -> (category: Category)
        ensures
            category@.category_id == category_id@,
            category@.category_name == category_name@,
            category@.category_description == category_description@,
    {
        Category { category_id, category_name, category_description }
    }

    pub fn category_id(&self) -> (id: &str)
        ensures
            id@ == self@.category_id,
    {
        self.category_id.as_str()
    }

    pub fn category_name(&self) -> (name: &str)
        ensures
            name@ == self@.category_name,
    {
        self.category_name.as_str()
    }

    pub fn category_description(&self) -> (description: &str)
        ensures
            description@ == self@.category_description,
    {
        self.category_description.as_str()
    }
}

/// The author of a proposal, as the endpoint presents it.
pub struct Proposer {
    proposer_name: String,
    proposer_email: String,
    proposer_url: String,
}

/// The abstract value of a [`Proposer`]: its three texts.
pub struct ProposerView {
    pub proposer_name: Seq<char>,
    pub proposer_email: Seq<char>,
    pub proposer_url: Seq<char>,
}

impl View for Proposer {
    type V = ProposerView;

    closed spec fn view(&self) -> ProposerView {
        ProposerView {
            proposer_name: self.proposer_name@,
            proposer_email: self.proposer_email@,
            proposer_url: self.proposer_url@,
        }
    }
}

impl Proposer {
    /// A proposer with these texts.
    pub fn new(proposer_name: String, proposer_email: String, proposer_url: String) -> (proposer: Proposer)
        ensures
            proposer@.proposer_name == proposer_name@,
            proposer@.proposer_email == proposer_email@,
            proposer@.proposer_url == proposer_url@,
    {
        Proposer { proposer_name, proposer_email, proposer_url }
    }

    pub fn proposer_name(&self) -> (name: &str)
        ensures
            name@ == self@.proposer_name,
    {
        self.proposer_name.as_str()
    }

    pub fn proposer_email(&self) -> (email: &str)
        ensures
            email@ == self@.proposer_email,
    {
        self.proposer_email.as_str()
    }

    pub fn proposer_url(&self) -> (url: &str)
        ensures
            url@ == self@.proposer_url,
    {
        self.proposer_url.as_str()
    }
}

/// The root of the queries; it answers them from the pool of database
/// connections `P`.
pub struct QueryRoot<P> {
    pub db_connection_pool: Arc<P>,
}

/// A proposal as the endpoint reads it from the database: the proposal's
/// columns joined with those of its vote plan.
#[derive(Clone, Debug, PartialEq, Eq)]
pub struct Proposal {
    pub proposal_id: String,
    pub proposal_category: String,
    pub proposal_title: String,
    pub proposal_summary: String,
    pub proposal_problem: String,
    pub proposal_solution: String,
    pub proposal_funds: i64,
    pub proposal_url: String,
    pub proposal_files_url: String,
    pub proposer_name: String,
    pub proposer_contact: String,
    pub proposer_url: String,
    pub chain_proposal_id: String,
    pub chain_voteplan_id: String,
    pub chain_proposal_index: i64,
    pub chain_vote_start_time: i64,
    pub chain_vote_end_time: i64,
    pub chain_committee_end_time: i64,
    pub chain_vote_options: String,
}

impl Proposal {
    /// The proposal's category: only its name is stored, so the id and the
    /// description are empty.
    pub fn category(&self) -> (category: Category)
        ensures
            category@.category_id == Seq::<char>::empty(),
            category@.category_name == self.proposal_category@,
            category@.category_description == Seq::<char>::empty(),
    {
        Category {
            category_id: String::new(),
            category_name: self.proposal_category.clone(),
            category_description: String::new(),
        }
    }

    pub fn proposal_id(&self) -> (id: &str)
        ensures
            id@ == self.proposal_id@,
    {
        self.proposal_id.as_str()
    }

    pub fn proposal_title(&self) -> (title: &str)
        ensures
            title@ == self.proposal_title@,
    {
        self.proposal_title.as_str()
    }

    pub fn proposal_summary(&self) -> (summary: &str)
        ensures
            summary@ == self.proposal_summary@,
    {
        self.proposal_summary.as_str()
    }

    pub fn proposal_problem(&self) -> (problem: &str)
        ensures
            problem@ == self.proposal_problem@,
    {
        self.proposal_problem.as_str()
    }

    pub fn proposal_solution(&self) -> (solution: &str)
        ensures
            solution@ == self.proposal_solution@,
    {
        self.proposal_solution.as_str()
    }

    pub fn proposal_funds(&self) -> (funds: i64)
        ensures
            funds == self.proposal_funds,
    {
        self.proposal_funds
    }

    pub fn proposal_url(&self) -> (url: &str)
        ensures
            url@ == self.proposal_url@,
    {
        self.proposal_url.as_str()
    }

    pub fn proposal_files_url(&self) -> (url: &str)
        ensures
            url@ == self.proposal_files_url@,
    {
        self.proposal_files_url.as_str()
    }

    /// The proposal's author: its name, its contact as the email, its url.
    pub fn proposer(&self) -> (proposer: Proposer)
        ensures
            proposer@.proposer_name == self.proposer_name@,
            proposer@.proposer_email == self.proposer_contact@,
            proposer@.proposer_url == self.proposer_url@,
    {
        Proposer {
            proposer_name: self.proposer_name.clone(),
            proposer_email: self.proposer_contact.clone(),
            proposer_url: self.proposer_url.clone(),
        }
    }

    pub fn chain_proposal_id(&self) -> (id: &str)
        ensures
            id@ == self.chain_proposal_id@,
    {
        self.chain_proposal_id.as_str()
    }

    pub fn chain_voteplan_id(&self) -> (id: &str)
        ensures
            id@ == self.chain_voteplan_id@,
    {
        self.chain_voteplan_id.as_str()
    }

    pub fn chain_proposal_index(&self) -> (index: i64)
        ensures
            index == self.chain_proposal_index,
    {
        self.chain_proposal_index
    }

    pub fn chain_vote_start_time(&self) -> (time: i64)
        ensures
            time == self.chain_vote_start_time,
    {
        self.chain_vote_start_time
    }

    pub fn chain_vote_end_time(&self) -> (time: i64)
        ensures
            time == self.chain_vote_end_time,
    {
        self.chain_vote_end_time
    }

    pub fn chain_committee_end_time(&self) -> (time: i64)
        ensures
            time == self.chain_committee_end_time,
    {
        self.chain_committee_end_time
    }

    pub fn chain_vote_options(&self) -> (options: &str)
        ensures
            options@ == self.chain_vote_options@,
    {
        self.chain_vote_options.as_str()
    }
}

} // verus!

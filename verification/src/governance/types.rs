use vstd::prelude::*;

use crate::address::Address;

verus! {

/// Status of a budget proposal.
#[derive(Clone, Copy, Debug, PartialEq, Eq, Structural)]
pub enum ProposalStatus {
    /// The proposal is open for voting.
    Active,
    /// The proposal passed (met quorum and majority voted yes).
    Approved,
    /// The proposal failed (did not meet quorum or majority voted no).
    Rejected,
    /// The approved proposal has been executed (funds disbursed).
    Executed,
    /// The proposal was cancelled by the proposer.
    Cancelled,
    /// The proposal was not finalized within the grace period.
    Expired,
}

/// The type of vote cast by a member.
#[derive(Clone, Copy, Debug, PartialEq, Eq, Structural)]
pub enum VoteChoice {
    Yes,
    No,
    Abstain,
}

/// A record of a single vote.
#[derive(Clone, Debug, PartialEq, Eq)]
pub struct VoteRecord {
    pub voter: Address,
    pub choice: VoteChoice,
    pub timestamp: u64,
}

/// The mathematical value of a [`VoteRecord`].
pub struct VoteModel {
    pub voter: Seq<char>,
    pub choice: VoteChoice,
    pub timestamp: u64,
}

impl View for VoteRecord {
    type V = VoteModel;

    open spec fn view(&self) -> VoteModel {
        VoteModel { voter: self.voter@, choice: self.choice, timestamp: self.timestamp }
    }
}

/// A single entry in the snapshotted electorate: one member and their frozen weight.
#[derive(Clone, Debug, PartialEq, Eq)]
pub struct MemberWeight {
    pub member: Address,
    pub weight: u128,
}

/// The mathematical value of a [`MemberWeight`].
pub struct MemberWeightModel {
    pub member: Seq<char>,
    pub weight: u128,
}

impl View for MemberWeight {
    type V = MemberWeightModel;

    open spec fn view(&self) -> MemberWeightModel {
        MemberWeightModel { member: self.member@, weight: self.weight }
    }
}

/// Immutable snapshot of governance parameters captured at proposal creation.
///
/// All vote-weight lookups and finalization checks use these frozen values so
/// that subsequent admin changes (member additions/removals, weight updates,
/// quorum tweaks) cannot alter the outcome of an in-flight proposal.
#[derive(Clone, Debug, PartialEq, Eq)]
pub struct ProposalSnapshot {
    /// Quorum percentage required for the proposal to be valid (0-100).
    pub quorum_percentage: u32,
    /// Grace period in seconds after voting ends before the proposal auto-expires.
    pub grace_period: u64,
    /// Total voting weight across all eligible members at creation time.
    pub total_weight: u128,
    /// Eligible electorate with per-member weights frozen at creation time.
    pub electorate: Vec<MemberWeight>,
}

/// The mathematical value of a [`ProposalSnapshot`].
pub struct SnapshotModel {
    pub quorum_percentage: u32,
    pub grace_period: u64,
    pub total_weight: u128,
    pub electorate: Seq<MemberWeightModel>,
}

impl View for ProposalSnapshot {
    type V = SnapshotModel;

    open spec fn view(&self) -> SnapshotModel {
        SnapshotModel {
            quorum_percentage: self.quorum_percentage,
            grace_period: self.grace_period,
            total_weight: self.total_weight,
            electorate: electorate_view(self.electorate@),
        }
    }
}

/// A budget proposal requesting funds from the treasury.
#[derive(Clone, Debug, PartialEq, Eq)]
pub struct Proposal {
    /// Unique proposal ID.
    pub id: u32,
    /// Who submitted the proposal.
    pub proposer: Address,
    /// Short title for the proposal.
    pub title: String,
    /// The token being requested.
    pub token: Address,
    /// Amount of tokens requested.
    pub amount: i128,
    /// The recipient of funds if approved.
    pub recipient: Address,
    /// Votes in favor.
    pub yes_votes: u128,
    /// Votes against.
    pub no_votes: u128,
    /// Abstaining votes.
    pub abstain_votes: u128,
    /// List of all vote records.
    pub votes: Vec<VoteRecord>,
    /// Current status.
    pub status: ProposalStatus,
    /// Timestamp when voting begins.
    pub start_time: u64,
    /// Timestamp when voting ends.
    pub end_time: u64,
    /// Governance parameters and electorate frozen at proposal creation.
    pub snapshot: ProposalSnapshot,
}

/// The mathematical value of a [`Proposal`].
pub struct ProposalModel {
    pub id: u32,
    pub proposer: Seq<char>,
    pub title: Seq<char>,
    pub token: Seq<char>,
    pub amount: i128,
    pub recipient: Seq<char>,
    pub yes_votes: u128,
    pub no_votes: u128,
    pub abstain_votes: u128,
    pub votes: Seq<VoteModel>,
    pub status: ProposalStatus,
    pub start_time: u64,
    pub end_time: u64,
    pub snapshot: SnapshotModel,
}

impl View for Proposal {
    type V = ProposalModel;

    open spec fn view(&self) -> ProposalModel {
        ProposalModel {
            id: self.id,
            proposer: self.proposer@,
            title: self.title@,
            token: self.token@,
            amount: self.amount,
            recipient: self.recipient@,
            yes_votes: self.yes_votes,
            no_votes: self.no_votes,
            abstain_votes: self.abstain_votes,
            votes: votes_view(self.votes@),
            status: self.status,
            start_time: self.start_time,
            end_time: self.end_time,
            snapshot: self.snapshot@,
        }
    }
}

impl MemberWeight {
    /// Returns a copy of this entry.
    pub fn duplicate(&self) -> (r: Self)
        ensures
            r@ == self@,
    {
        MemberWeight { member: self.member.clone(), weight: self.weight }
    }
}

impl VoteRecord {
    /// Returns a copy of this record.
    pub fn duplicate(&self) -> (r: Self)
        ensures
            r@ == self@,
    {
        VoteRecord { voter: self.voter.clone(), choice: self.choice, timestamp: self.timestamp }
    }
}

/// The value of an electorate.
pub open spec fn electorate_view(e: Seq<MemberWeight>) -> Seq<MemberWeightModel> {
    e.map_values(|m: MemberWeight| m@)
}

/// The value of a list of vote records.
pub open spec fn votes_view(v: Seq<VoteRecord>) -> Seq<VoteModel> {
    v.map_values(|x: VoteRecord| x@)
}

/// Returns a copy of the electorate `e`.
pub fn copy_electorate(e: &Vec<MemberWeight>) -> (r: Vec<MemberWeight>)
    ensures
        electorate_view(r@) == electorate_view(e@),
{
    let mut out: Vec<MemberWeight> = Vec::new();
    let mut i: usize = 0;
    while i < e.len()
        invariant
            i <= e.len(),
            out.len() == i,
            forall|j: int| 0 <= j < i ==> (#[trigger] out@[j])@ == e@[j]@,
        decreases e.len() - i,
    {
        let d = e[i].duplicate();
        out.push(d);
        i = i + 1;
    }
    assert(electorate_view(out@) =~= electorate_view(e@));
    out
}

/// Returns a copy of the vote records `v`.
pub fn copy_votes(v: &Vec<VoteRecord>) -> (r: Vec<VoteRecord>)
    ensures
        votes_view(r@) == votes_view(v@),
{
    let mut out: Vec<VoteRecord> = Vec::new();
    let mut i: usize = 0;
    while i < v.len()
        invariant
            i <= v.len(),
            out.len() == i,
            forall|j: int| 0 <= j < i ==> (#[trigger] out@[j])@ == v@[j]@,
        decreases v.len() - i,
    {
        let d = v[i].duplicate();
        out.push(d);
        i = i + 1;
    }
    assert(votes_view(out@) =~= votes_view(v@));
    out
}

impl ProposalSnapshot {
    /// Returns a copy of this snapshot.
    pub fn duplicate(&self) -> (r: Self)
        ensures
            r@ == self@,
    {
        ProposalSnapshot {
            quorum_percentage: self.quorum_percentage,
            grace_period: self.grace_period,
            total_weight: self.total_weight,
            electorate: copy_electorate(&self.electorate),
        }
    }
}

impl Proposal {
    /// Returns a copy of this proposal.
    pub fn duplicate(&self) -> (r: Self)
        ensures
            r@ == self@,
    {
        Proposal {
            id: self.id,
            proposer: self.proposer.clone(),
            title: self.title.clone(),
            token: self.token.clone(),
            amount: self.amount,
            recipient: self.recipient.clone(),
            yes_votes: self.yes_votes,
            no_votes: self.no_votes,
            abstain_votes: self.abstain_votes,
            votes: copy_votes(&self.votes),
            status: self.status,
            start_time: self.start_time,
            end_time: self.end_time,
            snapshot: self.snapshot.duplicate(),
        }
    }
}

/// Configuration for the governance module.
#[derive(Clone, Copy, Debug, PartialEq, Eq)]
pub struct GovernanceConfig {
    /// Minimum percentage of total voting weight that must vote for the proposal to be valid (0-100).
    pub quorum_percentage: u32,
    /// Duration of the voting window in seconds.
    pub voting_duration: u64,
    /// Buffer period after voting ends before auto-rejection (seconds).
    pub grace_period: u64,
    /// Total number of DAO members.
    pub member_count: u32,
    /// Total voting weight of all members.
    pub total_weight: u128,
}

/// A token transfer out of the governance contract that the host must carry
/// out.
#[derive(Clone, Debug, PartialEq, Eq)]
pub struct Disbursement {
    /// The token contract address.
    pub token: Address,
    /// The receiving address.
    pub to: Address,
    /// The amount to transfer.
    pub amount: i128,
}

} // verus!

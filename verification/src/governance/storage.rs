//! The governance contract's ledger storage: instance entries (admin,
//! members, counters, parameters, total weight, pending upgrade) and
//! persistent entries (proposals, voting weights).
//!
//! Entry `i` of `proposals` is the proposal stored under identifier `i`.
//! `voting_weights` holds the weight assignments in the order they were made;
//! a member's weight is the latest one assigned to them, and one for a member
//! who never had a weight assigned.

use vstd::prelude::*;

use crate::address::{contains_address, copy_addresses, opt_address, Address};
use crate::governance::types::{MemberWeight, MemberWeightModel, Proposal, ProposalModel, VoteModel, VoteChoice};
use crate::upgrade::PendingUpgrade;

verus! {

/// The governance contract's storage. An absent entry is `None`.
pub struct GovernanceStorage {
    pub admin: Option<Address>,
    pub members: Option<Vec<Address>>,
    pub proposal_count: Option<u32>,
    pub quorum_percentage: Option<u32>,
    pub voting_duration: Option<u64>,
    pub grace_period: Option<u64>,
    pub total_weight: Option<u128>,
    pub proposals: Vec<Proposal>,
    pub voting_weights: Vec<MemberWeight>,
    pub pending_upgrade_wasm: Option<[u8; 32]>,
    pub pending_upgrade_proposed_at: Option<u64>,
}

/// The mathematical value of [`GovernanceStorage`].
#[verifier::ext_equal]
pub struct GovernanceModel {
    pub admin: Option<Seq<char>>,
    pub members: Option<Seq<Seq<char>>>,
    pub proposal_count: Option<u32>,
    pub quorum_percentage: Option<u32>,
    pub voting_duration: Option<u64>,
    pub grace_period: Option<u64>,
    pub total_weight: Option<u128>,
    pub proposals: Seq<ProposalModel>,
    pub voting_weights: Seq<MemberWeightModel>,
    pub pending_upgrade_wasm: Option<Seq<u8>>,
    pub pending_upgrade_proposed_at: Option<u64>,
}

impl View for GovernanceStorage {
    type V = GovernanceModel;

    open spec fn view(&self) -> GovernanceModel {
        GovernanceModel {
            admin: opt_address(self.admin),
            members: match self.members {
                Some(m) => Some(m.deep_view()),
                None => None,
            },
            proposal_count: self.proposal_count,
            quorum_percentage: self.quorum_percentage,
            voting_duration: self.voting_duration,
            grace_period: self.grace_period,
            total_weight: self.total_weight,
            proposals: self.proposals@.map_values(|p: Proposal| p@),
            voting_weights: self.voting_weights@.map_values(|m: MemberWeight| m@),
            pending_upgrade_wasm: match self.pending_upgrade_wasm {
                Some(h) => Some(h@),
                None => None,
            },
            pending_upgrade_proposed_at: self.pending_upgrade_proposed_at,
        }
    }
}

/// The weight of `a` given the weight assignments `ws`: the latest one made
/// to `a`, and one when none was.
pub open spec fn assigned_weight(ws: Seq<MemberWeightModel>, a: Seq<char>) -> u128
    decreases ws.len(),
{
    if ws.len() == 0 {
        1
    } else if ws.last().member == a {
        ws.last().weight
    } else {
        assigned_weight(ws.drop_last(), a)
    }
}

/// The sum of the weights, under the assignments `ws`, of the members `ms`.
pub open spec fn weight_sum(ms: Seq<Seq<char>>, ws: Seq<MemberWeightModel>) -> int
    decreases ms.len(),
{
    if ms.len() == 0 {
        0
    } else {
        weight_sum(ms.drop_last(), ws) + assigned_weight(ws, ms.last())
    }
}

/// The weight of `a` in electorate `e`: that of the first entry for `a`.
pub open spec fn electorate_weight(e: Seq<MemberWeightModel>, a: Seq<char>) -> Option<u128>
    decreases e.len(),
{
    if e.len() == 0 {
        None
    } else if e[0].member == a {
        Some(e[0].weight)
    } else {
        electorate_weight(e.drop_first(), a)
    }
}

/// The total weight of the votes `votes` for `choice`, each counted with the
/// voter's weight in electorate `e`.
pub open spec fn tally(votes: Seq<VoteModel>, e: Seq<MemberWeightModel>, choice: VoteChoice) -> int
    decreases votes.len(),
{
    if votes.len() == 0 {
        0
    } else {
        tally(votes.drop_last(), e, choice) + if votes.last().choice == choice {
            match electorate_weight(e, votes.last().voter) {
                Some(w) => w as int,
                None => 0,
            }
        } else {
            0
        }
    }
}

/// The voters of `votes`, in order.
pub open spec fn voters(votes: Seq<VoteModel>) -> Seq<Seq<char>> {
    votes.map_values(|v: VoteModel| v.voter)
}

/// Well-formedness of a proposal: nobody voted twice, every voter is in the
/// snapshotted electorate, and each tally is the sum of the snapshotted
/// weights of the votes cast for that choice.
pub open spec fn proposal_wf(p: ProposalModel) -> bool {
    &&& voters(p.votes).no_duplicates()
    &&& forall|i: int| 0 <= i < p.votes.len() ==> electorate_weight(p.snapshot.electorate, (#[trigger] p.votes[i]).voter) is Some
    &&& p.yes_votes == tally(p.votes, p.snapshot.electorate, VoteChoice::Yes)
    &&& p.no_votes == tally(p.votes, p.snapshot.electorate, VoteChoice::No)
    &&& p.abstain_votes == tally(p.votes, p.snapshot.electorate, VoteChoice::Abstain)
}

impl GovernanceModel {
    /// Whether the contract has been initialized (an admin is stored).
    pub open spec fn initialized(self) -> bool {
        self.admin is Some
    }

    /// The member list (empty when absent).
    pub open spec fn member_list(self) -> Seq<Seq<char>> {
        match self.members {
            Some(m) => m,
            None => Seq::empty(),
        }
    }

    /// Whether `a` is a current member.
    pub open spec fn is_member(self, a: Seq<char>) -> bool {
        self.member_list().contains(a)
    }

    /// The number of proposals, zero when none is stored.
    pub open spec fn proposal_total(self) -> u32 {
        match self.proposal_count {
            Some(c) => c,
            None => 0,
        }
    }

    /// The current weight of `a`.
    pub open spec fn weight(self, a: Seq<char>) -> u128 {
        assigned_weight(self.voting_weights, a)
    }

    /// Well-formedness of the governance storage.
    pub open spec fn wf(self) -> bool {
        &&& self.initialized() ==> {
            &&& self.members is Some
            &&& self.proposal_count is Some
            &&& self.quorum_percentage is Some
            &&& self.voting_duration is Some
            &&& self.grace_period is Some
            &&& self.total_weight is Some
        }
        &&& !self.initialized() ==> self.proposals.len() == 0
        &&& self.proposal_total() == self.proposals.len()
        &&& self.member_list().len() <= u32::MAX
        &&& forall|i: int|
            0 <= i < self.proposals.len() ==> {
                &&& (#[trigger] self.proposals[i]).id == i
                &&& proposal_wf(self.proposals[i])
            }
    }
}

/// The storage of a freshly deployed governance contract: no entry is
/// stored.
pub open spec fn empty_governance() -> GovernanceModel {
    GovernanceModel {
        admin: None,
        members: None,
        proposal_count: None,
        quorum_percentage: None,
        voting_duration: None,
        grace_period: None,
        total_weight: None,
        proposals: Seq::empty(),
        voting_weights: Seq::empty(),
        pending_upgrade_wasm: None,
        pending_upgrade_proposed_at: None,
    }
}

impl GovernanceStorage {
    /// An empty storage: the state of a freshly deployed contract.
    pub fn new() -> (r: Self)
        ensures
            r@ == empty_governance(),
            r@.wf(),
            !r@.initialized(),
            r@.proposals.len() == 0,
    {
        GovernanceStorage {
            admin: None,
            members: None,
            proposal_count: None,
            quorum_percentage: None,
            voting_duration: None,
            grace_period: None,
            total_weight: None,
            proposals: Vec::new(),
            voting_weights: Vec::new(),
            pending_upgrade_wasm: None,
            pending_upgrade_proposed_at: None,
        }
    }
}

// ── Admin helpers ────────────────────────────────────────────────

pub fn has_admin(env: &GovernanceStorage) -> (r: bool)
    ensures
        r == env@.initialized(),
{
    env.admin.is_some()
}

pub fn get_admin(env: &GovernanceStorage) -> (r: Address)
    requires
        env@.admin is Some,
    ensures
        Some(r@) == env@.admin,
{
    match &env.admin {
        Some(a) => a.clone(),
        None => String::new(),
    }
}

pub fn set_admin(env: &mut GovernanceStorage, admin: &Address)
    ensures
        final(env)@ == (GovernanceModel { admin: Some(admin@), ..old(env)@ }),
{
    env.admin = Some(admin.clone());
    assert(final(env)@ =~= (GovernanceModel { admin: Some(admin@), ..old(env)@ }));
}

// ── Member helpers ───────────────────────────────────────────────

pub fn get_members(env: &GovernanceStorage) -> (r: Vec<Address>)
    ensures
        r.deep_view() == env@.member_list(),
{
    match &env.members {
        Some(m) => copy_addresses(m),
        None => Vec::new(),
    }
}

pub fn set_members(env: &mut GovernanceStorage, members: &Vec<Address>)
    ensures
        final(env)@ == (GovernanceModel { members: Some(members.deep_view()), ..old(env)@ }),
{
    env.members = Some(copy_addresses(members));
    assert(final(env)@ =~= (GovernanceModel { members: Some(members.deep_view()), ..old(env)@ }));
}

pub fn is_member(env: &GovernanceStorage, a: &Address) -> (r: bool)
    ensures
        r == env@.is_member(a@),
{
    match &env.members {
        Some(m) => contains_address(m, a),
        None => false,
    }
}

// ── Counter and parameter helpers ────────────────────────────────

pub fn get_proposal_count(env: &GovernanceStorage) -> (r: u32)
    ensures
        r == env@.proposal_total(),
{
    match env.proposal_count {
        Some(c) => c,
        None => 0,
    }
}

pub fn set_proposal_count(env: &mut GovernanceStorage, count: u32)
    ensures
        final(env)@ == (GovernanceModel { proposal_count: Some(count), ..old(env)@ }),
{
    env.proposal_count = Some(count);
    assert(final(env)@ =~= (GovernanceModel { proposal_count: Some(count), ..old(env)@ }));
}

pub fn get_quorum_percentage(env: &GovernanceStorage) -> (r: u32)
    requires
        env@.quorum_percentage is Some,
    ensures
        Some(r) == env@.quorum_percentage,
{
    env.quorum_percentage.unwrap()
}

pub fn set_quorum_percentage(env: &mut GovernanceStorage, q: u32)
    ensures
        final(env)@ == (GovernanceModel { quorum_percentage: Some(q), ..old(env)@ }),
{
    env.quorum_percentage = Some(q);
    assert(final(env)@ =~= (GovernanceModel { quorum_percentage: Some(q), ..old(env)@ }));
}

pub fn get_voting_duration(env: &GovernanceStorage) -> (r: u64)
    requires
        env@.voting_duration is Some,
    ensures
        Some(r) == env@.voting_duration,
{
    env.voting_duration.unwrap()
}

pub fn set_voting_duration(env: &mut GovernanceStorage, d: u64)
    ensures
        final(env)@ == (GovernanceModel { voting_duration: Some(d), ..old(env)@ }),
{
    env.voting_duration = Some(d);
    assert(final(env)@ =~= (GovernanceModel { voting_duration: Some(d), ..old(env)@ }));
}

pub fn get_grace_period(env: &GovernanceStorage) -> (r: u64)
    requires
        env@.grace_period is Some,
    ensures
        Some(r) == env@.grace_period,
{
    env.grace_period.unwrap()
}

pub fn set_grace_period(env: &mut GovernanceStorage, g: u64)
    ensures
        final(env)@ == (GovernanceModel { grace_period: Some(g), ..old(env)@ }),
{
    env.grace_period = Some(g);
    assert(final(env)@ =~= (GovernanceModel { grace_period: Some(g), ..old(env)@ }));
}

pub fn get_total_weight(env: &GovernanceStorage) -> (r: u128)
    requires
        env@.total_weight is Some,
    ensures
        Some(r) == env@.total_weight,
{
    env.total_weight.unwrap()
}

pub fn set_total_weight(env: &mut GovernanceStorage, w: u128)
    ensures
        final(env)@ == (GovernanceModel { total_weight: Some(w), ..old(env)@ }),
{
    env.total_weight = Some(w);
    assert(final(env)@ =~= (GovernanceModel { total_weight: Some(w), ..old(env)@ }));
}

// ── Voting weight helpers ────────────────────────────────────────

pub fn get_voting_weight(env: &GovernanceStorage, member: &Address) -> (r: u128)
    ensures
        r == env@.weight(member@),
{
    let ghost ws = env@.voting_weights;
    let mut i: usize = env.voting_weights.len();
    assert(ws.take(i as int) =~= ws);
    while i > 0
        invariant
            i <= env.voting_weights.len(),
            ws == env@.voting_weights,
            assigned_weight(ws, member@) == assigned_weight(ws.take(i as int), member@),
        decreases i,
    {
        i = i - 1;
        assert(ws.take(i + 1).drop_last() =~= ws.take(i as int));
        assert(ws.take(i + 1).last() == ws[i as int]);
        if env.voting_weights[i].member == *member {
            return env.voting_weights[i].weight;
        }
    }
    assert(ws.take(0).len() == 0);
    1
}

pub fn set_voting_weight(env: &mut GovernanceStorage, member: &Address, weight: u128)
    ensures
        final(env)@ == (GovernanceModel {
            voting_weights: old(env)@.voting_weights.push(MemberWeightModel { member: member@, weight }),
            ..old(env)@
        }),
{
    let ghost pre = old(env)@;
    env.voting_weights.push(MemberWeight { member: member.clone(), weight });
    assert(env@.voting_weights =~= pre.voting_weights.push(MemberWeightModel { member: member@, weight }));
    assert(env@ =~= (GovernanceModel {
        voting_weights: pre.voting_weights.push(MemberWeightModel { member: member@, weight }),
        ..pre
    }));
}

// ── Proposal helpers ─────────────────────────────────────────────

pub fn get_proposal(env: &GovernanceStorage, id: u32) -> (r: Option<Proposal>)
    ensures
        match r {
            Some(p) => id < env@.proposals.len() && p@ == env@.proposals[id as int],
            None => id >= env@.proposals.len(),
        },
{
    if (id as usize) < env.proposals.len() {
        Some(env.proposals[id as usize].duplicate())
    } else {
        None
    }
}

pub fn set_proposal(env: &mut GovernanceStorage, id: u32, proposal: &Proposal)
    requires
        id <= old(env)@.proposals.len(),
    ensures
        final(env)@ == (GovernanceModel {
            proposals: if id < old(env)@.proposals.len() {
                old(env)@.proposals.update(id as int, proposal@)
            } else {
                old(env)@.proposals.push(proposal@)
            },
            ..old(env)@
        }),
{
    let ghost pre = old(env)@;
    if (id as usize) < env.proposals.len() {
        env.proposals.set(id as usize, proposal.duplicate());
        assert(env@.proposals =~= pre.proposals.update(id as int, proposal@));
    } else {
        env.proposals.push(proposal.duplicate());
        assert(env@.proposals =~= pre.proposals.push(proposal@));
    }
    assert(env@ =~= (GovernanceModel {
        proposals: if id < pre.proposals.len() {
            pre.proposals.update(id as int, proposal@)
        } else {
            pre.proposals.push(proposal@)
        },
        ..pre
    }));
}

// ── Upgrade timelock helpers ─────────────────────────────────────

pub fn get_pending_upgrade(env: &GovernanceStorage) -> (r: Option<PendingUpgrade>)
    ensures
        match r {
            Some(u) => env@.pending_upgrade_wasm == Some(u.wasm_hash@)
                && env@.pending_upgrade_proposed_at == Some(u.proposed_at),
            None => env@.pending_upgrade_wasm is None || env@.pending_upgrade_proposed_at is None,
        },
{
    match (env.pending_upgrade_wasm, env.pending_upgrade_proposed_at) {
        (Some(w), Some(t)) => Some(PendingUpgrade { wasm_hash: w, proposed_at: t }),
        _ => None,
    }
}

pub fn set_pending_upgrade(env: &mut GovernanceStorage, upgrade: &PendingUpgrade)
    ensures
        final(env)@ == (GovernanceModel {
            pending_upgrade_wasm: Some(upgrade.wasm_hash@),
            pending_upgrade_proposed_at: Some(upgrade.proposed_at),
            ..old(env)@
        }),
{
    env.pending_upgrade_wasm = Some(upgrade.wasm_hash);
    env.pending_upgrade_proposed_at = Some(upgrade.proposed_at);
    assert(final(env)@ =~= (GovernanceModel {
        pending_upgrade_wasm: Some(upgrade.wasm_hash@),
        pending_upgrade_proposed_at: Some(upgrade.proposed_at),
        ..old(env)@
    }));
}

pub fn clear_pending_upgrade(env: &mut GovernanceStorage)
    ensures
        final(env)@ == (GovernanceModel {
            pending_upgrade_wasm: None,
            pending_upgrade_proposed_at: None,
            ..old(env)@
        }),
{
    env.pending_upgrade_wasm = None;
    env.pending_upgrade_proposed_at = None;
    assert(final(env)@ =~= (GovernanceModel {
        pending_upgrade_wasm: None,
        pending_upgrade_proposed_at: None,
        ..old(env)@
    }));
}

} // verus!

//! The governance contract's entry points, as transitions of
//! [`GovernanceStorage`]. A call that returns an error leaves the storage
//! unchanged.

use vstd::prelude::*;

use crate::address::{
    contains_address, copy_addresses, lemma_filter_len_le, lemma_filter_out_unique, lemma_push_unique, remove_all,
    without_address, Address,
};
use crate::governance::errors::GovernanceError;
use crate::governance::storage::{
    clear_pending_upgrade, electorate_weight, get_admin, get_grace_period, get_members,
    get_pending_upgrade, get_proposal, get_proposal_count, get_quorum_percentage,
    get_total_weight, get_voting_duration, get_voting_weight, has_admin, is_member,
    proposal_wf, set_admin, set_grace_period, set_members, set_pending_upgrade, set_proposal,
    set_proposal_count, set_quorum_percentage, set_total_weight, set_voting_duration,
    set_voting_weight, tally, voters, GovernanceModel, GovernanceStorage,
};
use crate::governance::types::{
    electorate_view, votes_view, Disbursement, GovernanceConfig, MemberWeight,
    MemberWeightModel, Proposal, ProposalModel, ProposalSnapshot, ProposalStatus, SnapshotModel,
    VoteChoice, VoteModel, VoteRecord,
};
use crate::upgrade::{timelock_expired, upgrade_ready_at, PendingUpgrade, MIN_UPGRADE_DELAY};

verus! {

/// The governance contract.
pub struct GovernanceContract;

// ── Model of each entry point ────────────────────────────────────────

/// The storage after a successful `initialize`.
pub open spec fn gov_initialized_state(
    s: GovernanceModel,
    admin: Seq<char>,
    members: Seq<Seq<char>>,
    quorum_percentage: u32,
    voting_duration: u64,
    grace_period: u64,
) -> GovernanceModel {
    GovernanceModel {
        admin: Some(admin),
        members: Some(members),
        quorum_percentage: Some(quorum_percentage),
        voting_duration: Some(voting_duration),
        grace_period: Some(grace_period),
        proposal_count: Some(0),
        total_weight: Some(members.len() as u128),
        ..s
    }
}

/// The error that `create_proposal` returns, if any.
pub open spec fn create_proposal_check(s: GovernanceModel, proposer: Seq<char>, amount: i128) -> Option<
    GovernanceError,
> {
    if !s.initialized() {
        Some(GovernanceError::NotInitialized)
    } else if !s.is_member(proposer) {
        Some(GovernanceError::NotAMember)
    } else if amount <= 0 {
        Some(GovernanceError::InvalidAmount)
    } else {
        None
    }
}

/// The electorate of the current members, each with their current weight.
pub open spec fn current_electorate(s: GovernanceModel) -> Seq<MemberWeightModel> {
    Seq::new(
        s.member_list().len(),
        |i: int| MemberWeightModel { member: s.member_list()[i], weight: s.weight(s.member_list()[i]) },
    )
}

/// The snapshot a proposal created in state `s` captures.
pub open spec fn current_snapshot(s: GovernanceModel) -> SnapshotModel {
    SnapshotModel {
        quorum_percentage: s.quorum_percentage->0,
        grace_period: s.grace_period->0,
        total_weight: s.total_weight->0,
        electorate: current_electorate(s),
    }
}

/// The proposal that `create_proposal` records.
pub open spec fn new_gov_proposal(
    s: GovernanceModel,
    proposer: Seq<char>,
    title: Seq<char>,
    token: Seq<char>,
    amount: i128,
    recipient: Seq<char>,
    now: u64,
) -> ProposalModel {
    ProposalModel {
        id: s.proposal_total(),
        proposer,
        title,
        token,
        amount,
        recipient,
        yes_votes: 0,
        no_votes: 0,
        abstain_votes: 0,
        votes: Seq::empty(),
        status: ProposalStatus::Active,
        start_time: now,
        end_time: (now + s.voting_duration->0) as u64,
        snapshot: current_snapshot(s),
    }
}

/// The storage with `p` recorded as the next proposal.
pub open spec fn with_new_gov_proposal(s: GovernanceModel, p: ProposalModel) -> GovernanceModel {
    GovernanceModel {
        proposals: s.proposals.push(p),
        proposal_count: Some((s.proposal_total() + 1) as u32),
        ..s
    }
}

/// The storage with proposal `id` replaced by `p`.
pub open spec fn with_gov_proposal(s: GovernanceModel, id: u32, p: ProposalModel) -> GovernanceModel {
    GovernanceModel { proposals: s.proposals.update(id as int, p), ..s }
}

/// The error that `vote` returns, if any.
pub open spec fn vote_check(s: GovernanceModel, voter: Seq<char>, id: u32, now: u64) -> Option<
    GovernanceError,
> {
    if !s.initialized() {
        Some(GovernanceError::NotInitialized)
    } else if id >= s.proposals.len() {
        Some(GovernanceError::ProposalNotFound)
    } else if s.proposals[id as int].status != ProposalStatus::Active {
        Some(GovernanceError::VotingNotActive)
    } else if now > s.proposals[id as int].end_time {
        Some(GovernanceError::VotingPeriodExpired)
    } else if electorate_weight(s.proposals[id as int].snapshot.electorate, voter) is None {
        Some(GovernanceError::NotAMember)
    } else if voters(s.proposals[id as int].votes).contains(voter) {
        Some(GovernanceError::AlreadyVoted)
    } else {
        None
    }
}

/// Whether adding `voter`'s snapshotted weight to the tally for `choice`
/// stays within `u128`.
pub open spec fn vote_fits(p: ProposalModel, voter: Seq<char>, choice: VoteChoice) -> bool {
    let w = electorate_weight(p.snapshot.electorate, voter)->0;
    match choice {
        VoteChoice::Yes => p.yes_votes + w <= u128::MAX,
        VoteChoice::No => p.no_votes + w <= u128::MAX,
        VoteChoice::Abstain => p.abstain_votes + w <= u128::MAX,
    }
}

/// The proposal after `voter` votes `choice` at `now` with their snapshotted
/// weight.
pub open spec fn voted_proposal(p: ProposalModel, voter: Seq<char>, choice: VoteChoice, now: u64) -> ProposalModel {
    let w = electorate_weight(p.snapshot.electorate, voter)->0;
    ProposalModel {
        yes_votes: if choice == VoteChoice::Yes {
            (p.yes_votes + w) as u128
        } else {
            p.yes_votes
        },
        no_votes: if choice == VoteChoice::No {
            (p.no_votes + w) as u128
        } else {
            p.no_votes
        },
        abstain_votes: if choice == VoteChoice::Abstain {
            (p.abstain_votes + w) as u128
        } else {
            p.abstain_votes
        },
        votes: p.votes.push(VoteModel { voter, choice, timestamp: now }),
        ..p
    }
}

/// The error that `finalize` returns, if any.
pub open spec fn finalize_check(s: GovernanceModel, id: u32, now: u64) -> Option<GovernanceError> {
    if !s.initialized() {
        Some(GovernanceError::NotInitialized)
    } else if id >= s.proposals.len() {
        Some(GovernanceError::ProposalNotFound)
    } else if s.proposals[id as int].status != ProposalStatus::Active {
        Some(GovernanceError::VotingNotActive)
    } else if now <= s.proposals[id as int].end_time {
        Some(GovernanceError::ProposalStillActive)
    } else {
        None
    }
}

/// The weight that voted on `p`.
pub open spec fn voted_weight(p: ProposalModel) -> int {
    p.yes_votes + p.no_votes + p.abstain_votes
}

/// The voted weight that `p` needs for quorum: the quorum percentage of the
/// snapshotted total weight, rounded down.
pub open spec fn quorum_threshold(p: ProposalModel) -> int {
    (p.snapshot.total_weight * p.snapshot.quorum_percentage) / 100
}

/// Whether the arithmetic of finalizing `p` at `now` stays within bounds.
pub open spec fn finalize_fits(p: ProposalModel) -> bool {
    &&& voted_weight(p) <= u128::MAX
    &&& p.snapshot.total_weight * p.snapshot.quorum_percentage <= u128::MAX
    &&& voted_weight(p) >= quorum_threshold(p) ==> p.end_time + p.snapshot.grace_period <= u64::MAX
}

/// The outcome of finalizing `p` at `now`, decided by the snapshot alone:
/// rejected without quorum or after the grace period, otherwise approved
/// exactly when yes votes outweigh no votes.
pub open spec fn finalize_outcome(p: ProposalModel, now: u64) -> ProposalStatus {
    if voted_weight(p) < quorum_threshold(p) {
        ProposalStatus::Rejected
    } else if now > p.end_time + p.snapshot.grace_period {
        ProposalStatus::Rejected
    } else if p.yes_votes > p.no_votes {
        ProposalStatus::Approved
    } else {
        ProposalStatus::Rejected
    }
}

/// The error that `execute` returns, if any.
pub open spec fn execute_check(s: GovernanceModel, admin: Seq<char>, id: u32) -> Option<GovernanceError> {
    if !s.initialized() {
        Some(GovernanceError::NotInitialized)
    } else if s.admin != Some(admin) {
        Some(GovernanceError::Unauthorized)
    } else if id >= s.proposals.len() {
        Some(GovernanceError::ProposalNotFound)
    } else if s.proposals[id as int].status != ProposalStatus::Approved {
        Some(GovernanceError::ProposalNotApproved)
    } else {
        None
    }
}

/// The error that `cancel_proposal` returns, if any.
pub open spec fn cancel_check(s: GovernanceModel, proposer: Seq<char>, id: u32) -> Option<GovernanceError> {
    if !s.initialized() {
        Some(GovernanceError::NotInitialized)
    } else if id >= s.proposals.len() {
        Some(GovernanceError::ProposalNotFound)
    } else if s.proposals[id as int].proposer != proposer {
        Some(GovernanceError::Unauthorized)
    } else if s.proposals[id as int].status != ProposalStatus::Active {
        Some(GovernanceError::VotingNotActive)
    } else {
        None
    }
}

/// The storage with proposal `id` given status `status`.
pub open spec fn with_status(s: GovernanceModel, id: u32, status: ProposalStatus) -> GovernanceModel {
    with_gov_proposal(s, id, ProposalModel { status, ..s.proposals[id as int] })
}

/// The error that an admin-only member operation returns for a candidate
/// `member` that must (`must_be_member`) or must not be a member, if any.
pub open spec fn member_change_check(s: GovernanceModel, admin: Seq<char>, member: Seq<char>, must_be_member: bool) -> Option<
    GovernanceError,
> {
    if s.admin != Some(admin) {
        Some(GovernanceError::Unauthorized)
    } else if must_be_member && !s.is_member(member) {
        Some(GovernanceError::NotAMember)
    } else if !must_be_member && s.is_member(member) {
        Some(GovernanceError::AlreadyVoted)
    } else {
        None
    }
}

/// The storage with member list `members` and total weight `total`.
pub open spec fn with_members(s: GovernanceModel, members: Seq<Seq<char>>, total: int) -> GovernanceModel {
    GovernanceModel { members: Some(members), total_weight: Some(total as u128), ..s }
}

/// The storage after `member` joins: appended to the member list with a
/// fresh weight of one, which the total weight gains.
pub open spec fn with_member_added(s: GovernanceModel, member: Seq<char>) -> GovernanceModel {
    GovernanceModel {
        members: Some(s.member_list().push(member)),
        total_weight: Some((s.total_weight->0 + 1) as u128),
        voting_weights: s.voting_weights.push(MemberWeightModel { member, weight: 1 }),
        ..s
    }
}

/// The storage after `member`'s weight is set to `weight`: the assignment
/// is recorded and the total weight trades the old weight for the new one.
pub open spec fn with_weight_set(s: GovernanceModel, member: Seq<char>, weight: u128) -> GovernanceModel {
    GovernanceModel {
        voting_weights: s.voting_weights.push(MemberWeightModel { member, weight }),
        total_weight: Some((s.total_weight->0 - s.weight(member) + weight) as u128),
        ..s
    }
}

/// The live status of a stored proposal at `now`: an active proposal whose
/// grace period has passed reads as expired.
pub open spec fn live_status(p: ProposalModel, now: u64) -> ProposalStatus {
    if p.status != ProposalStatus::Active {
        p.status
    } else if now > p.end_time + p.snapshot.grace_period {
        ProposalStatus::Expired
    } else {
        ProposalStatus::Active
    }
}

/// The error that `propose_upgrade` returns, if any.
pub open spec fn propose_upgrade_check(s: GovernanceModel, admin: Seq<char>) -> Option<GovernanceError> {
    if !s.initialized() {
        Some(GovernanceError::NotInitialized)
    } else if s.admin != Some(admin) {
        Some(GovernanceError::Unauthorized)
    } else {
        None
    }
}

/// The error that `execute_upgrade` returns, if any.
pub open spec fn execute_upgrade_check(s: GovernanceModel, now: u64) -> Option<GovernanceError> {
    if s.pending_upgrade_wasm is None || s.pending_upgrade_proposed_at is None {
        Some(GovernanceError::NoPendingUpgrade)
    } else if now < upgrade_ready_at(s.pending_upgrade_proposed_at->0) {
        Some(GovernanceError::TimelockNotExpired)
    } else {
        None
    }
}

/// A proposal never changes its terms or snapshot; votes are only added,
/// and only while it is active; its status moves only from active to
/// approved, rejected or cancelled, and from approved to executed.
pub open spec fn proposal_step(p1: ProposalModel, p2: ProposalModel) -> bool {
    &&& p2.id == p1.id
    &&& p2.proposer == p1.proposer
    &&& p2.title == p1.title
    &&& p2.token == p1.token
    &&& p2.amount == p1.amount
    &&& p2.recipient == p1.recipient
    &&& p2.start_time == p1.start_time
    &&& p2.end_time == p1.end_time
    &&& p2.snapshot == p1.snapshot
    &&& p1.votes.is_prefix_of(p2.votes)
    &&& p1.status != ProposalStatus::Active ==> p2.votes == p1.votes
    &&& {
        ||| p2.status == p1.status
        ||| p1.status == ProposalStatus::Active && (p2.status == ProposalStatus::Approved
            || p2.status == ProposalStatus::Rejected || p2.status == ProposalStatus::Cancelled)
        ||| p1.status == ProposalStatus::Approved && p2.status == ProposalStatus::Executed
    }
}

/// Every proposal of `s1` is still in `s2`, at most one step further.
pub open spec fn proposals_step(s1: GovernanceModel, s2: GovernanceModel) -> bool {
    &&& s1.proposals.len() <= s2.proposals.len()
    &&& forall|i: int|
        0 <= i < s1.proposals.len() ==> proposal_step(#[trigger] s1.proposals[i], s2.proposals[i])
}

/// A storage that does not change keeps every proposal as it was.
pub proof fn lemma_proposals_step_refl(s: GovernanceModel)
    ensures
        proposals_step(s, s),
{
    assert forall|i: int| 0 <= i < s.proposals.len() implies proposal_step(
        #[trigger] s.proposals[i],
        s.proposals[i],
    ) by {
        assert(s.proposals[i].votes.is_prefix_of(s.proposals[i].votes));
    }
}

/// Returns the weight of `a` in electorate `e`, if `a` is in it.
fn find_electorate_weight(e: &Vec<MemberWeight>, a: &Address) -> (r: Option<u128>)
    ensures
        r == electorate_weight(electorate_view(e@), a@),
{
    let ghost ev = electorate_view(e@);
    let mut i: usize = 0;
    assert(ev.skip(0) =~= ev);
    while i < e.len()
        invariant
            i <= e.len(),
            ev == electorate_view(e@),
            electorate_weight(ev, a@) == electorate_weight(ev.skip(i as int), a@),
        decreases e.len() - i,
    {
        assert(ev.skip(i as int)[0] == ev[i as int]);
        assert(ev.skip(i as int).drop_first() =~= ev.skip(i + 1));
        if e[i].member == *a {
            return Some(e[i].weight);
        }
        i = i + 1;
    }
    None
}

/// Returns whether `a` has a vote among `votes`.
fn has_voted(votes: &Vec<VoteRecord>, a: &Address) -> (r: bool)
    ensures
        r == voters(votes_view(votes@)).contains(a@),
{
    let ghost vs = voters(votes_view(votes@));
    let mut i: usize = 0;
    while i < votes.len()
        invariant
            i <= votes.len(),
            vs == voters(votes_view(votes@)),
            forall|j: int| 0 <= j < i ==> vs[j] != a@,
        decreases votes.len() - i,
    {
        if votes[i].voter == *a {
            assert(vs[i as int] == a@);
            return true;
        }
        i = i + 1;
    }
    false
}

impl GovernanceContract {
    /// Initializes the governance contract with its admin, its members (each
    /// of weight one), the quorum percentage, the voting window and the grace
    /// period.
    pub fn initialize(
        env: &mut GovernanceStorage,
        admin: Address,
        members: Vec<Address>,
        quorum_percentage: u32,
        voting_duration: u64,
        grace_period: u64,
    ) -> (r: Result<(), GovernanceError>)
        requires
            old(env)@.wf(),
            members.len() <= u32::MAX,
        ensures
            final(env)@.wf(),
            proposals_step(old(env)@, final(env)@),
            if old(env)@.initialized() {
                r == Err::<(), GovernanceError>(GovernanceError::AlreadyInitialized) && final(env)@
                    == old(env)@
            } else {
                r is Ok && final(env)@ == gov_initialized_state(
                    old(env)@,
                    admin@,
                    members.deep_view(),
                    quorum_percentage,
                    voting_duration,
                    grace_period,
                )
            },
    {
        proof {
            lemma_proposals_step_refl(env@);
        }
        if has_admin(env) {
            return Err(GovernanceError::AlreadyInitialized);
        }
        set_admin(env, &admin);
        set_members(env, &members);
        set_quorum_percentage(env, quorum_percentage);
        set_voting_duration(env, voting_duration);
        set_grace_period(env, grace_period);
        set_proposal_count(env, 0);
        set_total_weight(env, members.len() as u128);
        assert(env@ =~= gov_initialized_state(
            old(env)@,
            admin@,
            members.deep_view(),
            quorum_percentage,
            voting_duration,
            grace_period,
        ));
        Ok(())
    }

    /// Records a budget proposal from member `proposer`, with a snapshot of
    /// the current parameters, members and weights, and returns its
    /// identifier. Voting is open from `now` for the voting duration.
    pub fn create_proposal(
        env: &mut GovernanceStorage,
        proposer: Address,
        title: String,
        token: Address,
        amount: i128,
        recipient: Address,
        now: u64,
    ) -> (r: Result<u32, GovernanceError>)
        requires
            old(env)@.wf(),
            create_proposal_check(old(env)@, proposer@, amount) is None ==> {
                &&& old(env)@.proposal_total() < u32::MAX
                &&& now + old(env)@.voting_duration->0 <= u64::MAX
            },
        ensures
            final(env)@.wf(),
            proposals_step(old(env)@, final(env)@),
            match create_proposal_check(old(env)@, proposer@, amount) {
                Some(e) => r == Err::<u32, GovernanceError>(e) && final(env)@ == old(env)@,
                None => r == Ok::<u32, GovernanceError>(old(env)@.proposal_total()) && final(env)@
                    == with_new_gov_proposal(
                    old(env)@,
                    new_gov_proposal(old(env)@, proposer@, title@, token@, amount, recipient@, now),
                ),
            },
    {
        proof {
            lemma_proposals_step_refl(env@);
        }
        if !has_admin(env) {
            return Err(GovernanceError::NotInitialized);
        }
        if !is_member(env, &proposer) {
            return Err(GovernanceError::NotAMember);
        }
        if amount <= 0 {
            return Err(GovernanceError::InvalidAmount);
        }
        let proposal_id = get_proposal_count(env);
        let voting_duration = get_voting_duration(env);
        let members = get_members(env);
        let ghost ml = env@.member_list();
        let mut electorate: Vec<MemberWeight> = Vec::new();
        let mut i: usize = 0;
        while i < members.len()
            invariant
                i <= members.len(),
                members.deep_view() == ml,
                ml == env@.member_list(),
                electorate.len() == i,
                forall|j: int| 0 <= j < i ==> (#[trigger] electorate@[j])@ == (MemberWeightModel {
                    member: ml[j],
                    weight: env@.weight(ml[j]),
                }),
            decreases members.len() - i,
        {
            let m = members[i].clone();
            let w = get_voting_weight(env, &m);
            electorate.push(MemberWeight { member: m, weight: w });
            i = i + 1;
        }
        assert(electorate_view(electorate@) =~= current_electorate(env@));
        let snapshot = ProposalSnapshot {
            quorum_percentage: get_quorum_percentage(env),
            grace_period: get_grace_period(env),
            total_weight: get_total_weight(env),
            electorate,
        };
        let proposal = Proposal {
            id: proposal_id,
            proposer,
            title,
            token,
            amount,
            recipient,
            yes_votes: 0,
            no_votes: 0,
            abstain_votes: 0,
            votes: Vec::new(),
            status: ProposalStatus::Active,
            start_time: now,
            end_time: now + voting_duration,
            snapshot,
        };
        let ghost p = new_gov_proposal(old(env)@, proposal.proposer@, proposal.title@, proposal.token@, amount, proposal.recipient@, now);
        assert(votes_view(proposal.votes@) =~= Seq::<VoteModel>::empty());
        assert(proposal@ == p);
        set_proposal(env, proposal_id, &proposal);
        set_proposal_count(env, proposal_id + 1);
        assert(env@ =~= with_new_gov_proposal(old(env)@, p));
        proof {
            assert(voters(p.votes) =~= Seq::<Seq<char>>::empty());
            assert(proposal_wf(p));
            let s1 = old(env)@;
            let s2 = env@;
            assert forall|k: int| 0 <= k < s1.proposals.len() implies proposal_step(
                #[trigger] s1.proposals[k],
                s2.proposals[k],
            ) by {
                assert(s2.proposals[k] == s1.proposals[k]);
                assert(s1.proposals[k].votes.is_prefix_of(s1.proposals[k].votes));
            }
        }
        Ok(proposal_id)
    }

    /// Records `voter`'s vote `choice` at `now` on active proposal
    /// `proposal_id`, counted with the voter's snapshotted weight.
    pub fn vote(
        env: &mut GovernanceStorage,
        voter: Address,
        proposal_id: u32,
        choice: VoteChoice,
        now: u64,
    ) -> (r: Result<(), GovernanceError>)
        requires
            old(env)@.wf(),
            vote_check(old(env)@, voter@, proposal_id, now) is None ==> vote_fits(
                old(env)@.proposals[proposal_id as int],
                voter@,
                choice,
            ),
        ensures
            final(env)@.wf(),
            proposals_step(old(env)@, final(env)@),
            match vote_check(old(env)@, voter@, proposal_id, now) {
                Some(e) => r == Err::<(), GovernanceError>(e) && final(env)@ == old(env)@,
                None => r is Ok && final(env)@ == with_gov_proposal(
                    old(env)@,
                    proposal_id,
                    voted_proposal(old(env)@.proposals[proposal_id as int], voter@, choice, now),
                ),
            },
    {
        proof {
            lemma_proposals_step_refl(env@);
        }
        if !has_admin(env) {
            return Err(GovernanceError::NotInitialized);
        }
        let mut proposal = match get_proposal(env, proposal_id) {
            Some(p) => p,
            None => {
                return Err(GovernanceError::ProposalNotFound);
            },
        };
        if proposal.status != ProposalStatus::Active {
            return Err(GovernanceError::VotingNotActive);
        }
        if now > proposal.end_time {
            return Err(GovernanceError::VotingPeriodExpired);
        }
        let weight = match find_electorate_weight(&proposal.snapshot.electorate, &voter) {
            Some(w) => w,
            None => {
                return Err(GovernanceError::NotAMember);
            },
        };
        if has_voted(&proposal.votes, &voter) {
            return Err(GovernanceError::AlreadyVoted);
        }
        let ghost p0 = proposal@;
        match choice {
            VoteChoice::Yes => proposal.yes_votes = proposal.yes_votes + weight,
            VoteChoice::No => proposal.no_votes = proposal.no_votes + weight,
            VoteChoice::Abstain => proposal.abstain_votes = proposal.abstain_votes + weight,
        }
        let ghost vm = VoteModel { voter: voter@, choice, timestamp: now };
        proposal.votes.push(VoteRecord { voter, choice, timestamp: now });
        let ghost p1 = voted_proposal(p0, vm.voter, choice, now);
        assert(votes_view(proposal.votes@) =~= p0.votes.push(vm));
        assert(proposal@ == p1);
        set_proposal(env, proposal_id, &proposal);
        proof {
            let s1 = old(env)@;
            let s2 = env@;
            assert(s2 == with_gov_proposal(s1, proposal_id, p1));
            assert(p1.votes.drop_last() =~= p0.votes);
            assert(voters(p1.votes) =~= voters(p0.votes).push(vm.voter));
            lemma_push_unique(voters(p0.votes), vm.voter);
            assert forall|k: int| 0 <= k < p1.votes.len() implies electorate_weight(
                p1.snapshot.electorate,
                (#[trigger] p1.votes[k]).voter,
            ) is Some by {
                if k < p0.votes.len() {
                    assert(p1.votes[k] == p0.votes[k]);
                }
            }
            assert(proposal_wf(p1));
            assert forall|k: int| 0 <= k < s1.proposals.len() implies proposal_step(
                #[trigger] s1.proposals[k],
                s2.proposals[k],
            ) by {
                if k == proposal_id {
                    assert(p1.votes.subrange(0, p0.votes.len() as int) =~= p0.votes);
                } else {
                    assert(s1.proposals[k].votes.is_prefix_of(s1.proposals[k].votes));
                }
            }
        }
        Ok(())
    }

    /// Finalizes active proposal `proposal_id` after its voting window has
    /// ended, deciding the outcome from its snapshot, and returns the outcome.
    pub fn finalize(env: &mut GovernanceStorage, caller: Address, proposal_id: u32, now: u64) -> (r: Result<
        ProposalStatus,
        GovernanceError,
    >)
        requires
            old(env)@.wf(),
            finalize_check(old(env)@, proposal_id, now) is None ==> finalize_fits(
                old(env)@.proposals[proposal_id as int],
            ),
        ensures
            final(env)@.wf(),
            proposals_step(old(env)@, final(env)@),
            match finalize_check(old(env)@, proposal_id, now) {
                Some(e) => r == Err::<ProposalStatus, GovernanceError>(e) && final(env)@ == old(env)@,
                None => {
                    let outcome = finalize_outcome(old(env)@.proposals[proposal_id as int], now);
                    &&& r == Ok::<ProposalStatus, GovernanceError>(outcome)
                    &&& final(env)@ == with_status(old(env)@, proposal_id, outcome)
                },
            },
    {
        proof {
            lemma_proposals_step_refl(env@);
        }
        if !has_admin(env) {
            return Err(GovernanceError::NotInitialized);
        }
        let mut proposal = match get_proposal(env, proposal_id) {
            Some(p) => p,
            None => {
                return Err(GovernanceError::ProposalNotFound);
            },
        };
        if proposal.status != ProposalStatus::Active {
            return Err(GovernanceError::VotingNotActive);
        }
        if now <= proposal.end_time {
            return Err(GovernanceError::ProposalStillActive);
        }
        let ghost p0 = proposal@;
        let quorum_pct = proposal.snapshot.quorum_percentage;
        let total_weight = proposal.snapshot.total_weight;
        let voted_weight = proposal.yes_votes + proposal.no_votes + proposal.abstain_votes;
        let quorum_threshold = (total_weight * quorum_pct as u128) / 100;
        let outcome = if voted_weight < quorum_threshold {
            ProposalStatus::Rejected
        } else if now > proposal.end_time + proposal.snapshot.grace_period {
            ProposalStatus::Rejected
        } else if proposal.yes_votes > proposal.no_votes {
            ProposalStatus::Approved
        } else {
            ProposalStatus::Rejected
        };
        proposal.status = outcome;
        set_proposal(env, proposal_id, &proposal);
        proof {
            let s1 = old(env)@;
            let s2 = env@;
            assert(s2 =~= with_status(s1, proposal_id, outcome));
            assert forall|k: int| 0 <= k < s1.proposals.len() implies proposal_step(
                #[trigger] s1.proposals[k],
                s2.proposals[k],
            ) by {
                assert(s1.proposals[k].votes.is_prefix_of(s2.proposals[k].votes));
            }
        }
        Ok(outcome)
    }

    /// Marks approved proposal `proposal_id` executed on the admin's call and
    /// returns the disbursement that the host carries out.
    pub fn execute(env: &mut GovernanceStorage, admin: Address, proposal_id: u32) -> (r: Result<
        Disbursement,
        GovernanceError,
    >)
        requires
            old(env)@.wf(),
        ensures
            final(env)@.wf(),
            proposals_step(old(env)@, final(env)@),
            match execute_check(old(env)@, admin@, proposal_id) {
                Some(e) => r matches Err(e2) && e2 == e && final(env)@ == old(env)@,
                None => {
                    let p = old(env)@.proposals[proposal_id as int];
                    &&& r matches Ok(d) && d.token@ == p.token && d.to@ == p.recipient && d.amount
                        == p.amount
                    &&& final(env)@ == with_status(old(env)@, proposal_id, ProposalStatus::Executed)
                },
            },
    {
        proof {
            lemma_proposals_step_refl(env@);
        }
        if !has_admin(env) {
            return Err(GovernanceError::NotInitialized);
        }
        let stored_admin = get_admin(env);
        if admin != stored_admin {
            return Err(GovernanceError::Unauthorized);
        }
        let mut proposal = match get_proposal(env, proposal_id) {
            Some(p) => p,
            None => {
                return Err(GovernanceError::ProposalNotFound);
            },
        };
        if proposal.status != ProposalStatus::Approved {
            return Err(GovernanceError::ProposalNotApproved);
        }
        let disbursement = Disbursement {
            token: proposal.token.clone(),
            to: proposal.recipient.clone(),
            amount: proposal.amount,
        };
        proposal.status = ProposalStatus::Executed;
        set_proposal(env, proposal_id, &proposal);
        proof {
            let s1 = old(env)@;
            let s2 = env@;
            assert(s2 =~= with_status(s1, proposal_id, ProposalStatus::Executed));
            assert forall|k: int| 0 <= k < s1.proposals.len() implies proposal_step(
                #[trigger] s1.proposals[k],
                s2.proposals[k],
            ) by {
                assert(s1.proposals[k].votes.is_prefix_of(s2.proposals[k].votes));
            }
        }
        Ok(disbursement)
    }

    /// Cancels active proposal `proposal_id` on its proposer's call.
    pub fn cancel_proposal(env: &mut GovernanceStorage, proposer: Address, proposal_id: u32) -> (r: Result<
        (),
        GovernanceError,
    >)
        requires
            old(env)@.wf(),
        ensures
            final(env)@.wf(),
            proposals_step(old(env)@, final(env)@),
            match cancel_check(old(env)@, proposer@, proposal_id) {
                Some(e) => r == Err::<(), GovernanceError>(e) && final(env)@ == old(env)@,
                None => r is Ok && final(env)@ == with_status(old(env)@, proposal_id, ProposalStatus::Cancelled),
            },
    {
        proof {
            lemma_proposals_step_refl(env@);
        }
        if !has_admin(env) {
            return Err(GovernanceError::NotInitialized);
        }
        let mut proposal = match get_proposal(env, proposal_id) {
            Some(p) => p,
            None => {
                return Err(GovernanceError::ProposalNotFound);
            },
        };
        if proposal.proposer != proposer {
            return Err(GovernanceError::Unauthorized);
        }
        if proposal.status != ProposalStatus::Active {
            return Err(GovernanceError::VotingNotActive);
        }
        proposal.status = ProposalStatus::Cancelled;
        set_proposal(env, proposal_id, &proposal);
        proof {
            let s1 = old(env)@;
            let s2 = env@;
            assert(s2 =~= with_status(s1, proposal_id, ProposalStatus::Cancelled));
            assert forall|k: int| 0 <= k < s1.proposals.len() implies proposal_step(
                #[trigger] s1.proposals[k],
                s2.proposals[k],
            ) by {
                assert(s1.proposals[k].votes.is_prefix_of(s2.proposals[k].votes));
            }
        }
        Ok(())
    }

    /// The error that a member operation by `admin` on `member` returns
    /// before its weight arithmetic, if any: `Unauthorized` unless `admin`
    /// is the stored admin, then `NotAMember` or `AlreadyVoted` when
    /// `member`'s membership is not the one the operation needs
    /// (`must_be_member`). A host tests it to learn whether an operation
    /// reaches that arithmetic.
    pub fn member_change_error(
        env: &GovernanceStorage,
        admin: &Address,
        member: &Address,
        must_be_member: bool,
    ) -> (r: Option<GovernanceError>)
        ensures
            r == member_change_check(env@, admin@, member@, must_be_member),
    {
        let is_admin = match &env.admin {
            Some(a) => *a == *admin,
            None => false,
        };
        if !is_admin {
            return Some(GovernanceError::Unauthorized);
        }
        let present = is_member(env, member);
        if must_be_member && !present {
            Some(GovernanceError::NotAMember)
        } else if !must_be_member && present {
            Some(GovernanceError::AlreadyVoted)
        } else {
            None
        }
    }

    /// Adds `new_member` on the admin's call with a fresh weight of one,
    /// whatever weight an earlier membership left stored. The contract
    /// must have been initialized.
    pub fn add_member(env: &mut GovernanceStorage, admin: Address, new_member: Address) -> (r: Result<
        (),
        GovernanceError,
    >)
        requires
            old(env)@.wf(),
            old(env)@.initialized(),
            member_change_check(old(env)@, admin@, new_member@, false) is None ==> {
                &&& old(env)@.total_weight->0 < u128::MAX
                &&& old(env)@.member_list().len() < u32::MAX
            },
        ensures
            final(env)@.wf(),
            proposals_step(old(env)@, final(env)@),
            final(env)@.proposals == old(env)@.proposals,
            match member_change_check(old(env)@, admin@, new_member@, false) {
                Some(e) => r == Err::<(), GovernanceError>(e) && final(env)@ == old(env)@,
                None => r is Ok && final(env)@ == with_member_added(old(env)@, new_member@)
                    && final(env)@.weight(new_member@) == 1,
            },
    {
        proof {
            lemma_proposals_step_refl(env@);
        }
        let stored_admin = get_admin(env);
        if admin != stored_admin {
            return Err(GovernanceError::Unauthorized);
        }
        let mut members = get_members(env);
        if is_member(env, &new_member) {
            return Err(GovernanceError::AlreadyVoted);
        }
        let ghost before = members.deep_view();
        members.push(new_member.clone());
        assert(members.deep_view() =~= before.push(new_member@));
        set_members(env, &members);
        let total_weight = get_total_weight(env);
        set_total_weight(env, total_weight + 1);
        set_voting_weight(env, &new_member, 1);
        assert(env@ =~= with_member_added(old(env)@, new_member@));
        Ok(())
    }

    /// Removes `member` on the admin's call and takes their current weight
    /// off the total weight. Proposals keep their snapshots. The contract must
    /// have been initialized.
    pub fn remove_member(env: &mut GovernanceStorage, admin: Address, member: Address) -> (r: Result<
        (),
        GovernanceError,
    >)
        requires
            old(env)@.wf(),
            old(env)@.initialized(),
            member_change_check(old(env)@, admin@, member@, true) is None ==> old(env)@.total_weight->0
                >= old(env)@.weight(member@),
        ensures
            final(env)@.wf(),
            proposals_step(old(env)@, final(env)@),
            final(env)@.proposals == old(env)@.proposals,
            match member_change_check(old(env)@, admin@, member@, true) {
                Some(e) => r == Err::<(), GovernanceError>(e) && final(env)@ == old(env)@,
                None => r is Ok && final(env)@ == with_members(
                    old(env)@,
                    remove_all(old(env)@.member_list(), member@),
                    old(env)@.total_weight->0 - old(env)@.weight(member@),
                ),
            },
    {
        proof {
            lemma_proposals_step_refl(env@);
        }
        let stored_admin = get_admin(env);
        if admin != stored_admin {
            return Err(GovernanceError::Unauthorized);
        }
        let members = get_members(env);
        let new_members = without_address(&members, &member);
        if !contains_address(&members, &member) {
            return Err(GovernanceError::NotAMember);
        }
        proof {
            lemma_filter_len_le(members.deep_view(), member@);
        }
        set_members(env, &new_members);
        let weight = get_voting_weight(env, &member);
        let total_weight = get_total_weight(env);
        set_total_weight(env, total_weight - weight);
        assert(env@ =~= with_members(
            old(env)@,
            remove_all(old(env)@.member_list(), member@),
            old(env)@.total_weight->0 - old(env)@.weight(member@),
        ));
        Ok(())
    }

    /// Sets `member`'s voting weight on the admin's call and adjusts the
    /// total weight. Proposals keep their snapshots. The contract must have
    /// been initialized.
    pub fn set_voting_weight(
        env: &mut GovernanceStorage,
        admin: Address,
        member: Address,
        new_weight: u128,
    ) -> (r: Result<(), GovernanceError>)
        requires
            old(env)@.wf(),
            old(env)@.initialized(),
            member_change_check(old(env)@, admin@, member@, true) is None ==> {
                &&& old(env)@.total_weight->0 >= old(env)@.weight(member@)
                &&& old(env)@.total_weight->0 - old(env)@.weight(member@) + new_weight <= u128::MAX
            },
        ensures
            final(env)@.wf(),
            proposals_step(old(env)@, final(env)@),
            final(env)@.proposals == old(env)@.proposals,
            match member_change_check(old(env)@, admin@, member@, true) {
                Some(e) => r == Err::<(), GovernanceError>(e) && final(env)@ == old(env)@,
                None => r is Ok && final(env)@ == with_weight_set(old(env)@, member@, new_weight),
            },
    {
        proof {
            lemma_proposals_step_refl(env@);
        }
        let stored_admin = get_admin(env);
        if admin != stored_admin {
            return Err(GovernanceError::Unauthorized);
        }
        if !is_member(env, &member) {
            return Err(GovernanceError::NotAMember);
        }
        let old_weight = get_voting_weight(env, &member);
        let total_weight = get_total_weight(env);
        set_voting_weight(env, &member, new_weight);
        set_total_weight(env, total_weight - old_weight + new_weight);
        assert(env@ =~= (GovernanceModel {
            voting_weights: old(env)@.voting_weights.push(
                MemberWeightModel { member: member@, weight: new_weight },
            ),
            total_weight: Some((old(env)@.total_weight->0 - old(env)@.weight(member@) + new_weight) as u128),
            ..old(env)@
        }));
        Ok(())
    }

    // ── Query functions ──────────────────────────────────────────

    /// Proposal `proposal_id`.
    pub fn get_proposal(env: &GovernanceStorage, proposal_id: u32) -> (r: Result<Proposal, GovernanceError>)
        ensures
            match r {
                Ok(p) => proposal_id < env@.proposals.len() && p@ == env@.proposals[proposal_id as int],
                Err(e) => e == GovernanceError::ProposalNotFound && proposal_id >= env@.proposals.len(),
            },
    {
        match get_proposal(env, proposal_id) {
            Some(p) => Ok(p),
            None => Err(GovernanceError::ProposalNotFound),
        }
    }

    /// The number of proposals created.
    pub fn get_proposal_count(env: &GovernanceStorage) -> (r: u32)
        ensures
            r == env@.proposal_total(),
    {
        get_proposal_count(env)
    }

    /// The current members.
    pub fn get_members(env: &GovernanceStorage) -> (r: Vec<Address>)
        ensures
            r.deep_view() == env@.member_list(),
    {
        get_members(env)
    }

    /// The current parameters, member count and total weight.
    pub fn get_config(env: &GovernanceStorage) -> (r: Result<GovernanceConfig, GovernanceError>)
        requires
            env@.wf(),
        ensures
            match r {
                Ok(c) => {
                    &&& env@.initialized()
                    &&& env@.quorum_percentage == Some(c.quorum_percentage)
                    &&& env@.voting_duration == Some(c.voting_duration)
                    &&& env@.grace_period == Some(c.grace_period)
                    &&& c.member_count == env@.member_list().len()
                    &&& env@.total_weight == Some(c.total_weight)
                },
                Err(e) => e == GovernanceError::NotInitialized && !env@.initialized(),
            },
    {
        if !has_admin(env) {
            return Err(GovernanceError::NotInitialized);
        }
        let members = get_members(env);
        Ok(
            GovernanceConfig {
                quorum_percentage: get_quorum_percentage(env),
                voting_duration: get_voting_duration(env),
                grace_period: get_grace_period(env),
                member_count: members.len() as u32,
                total_weight: get_total_weight(env),
            },
        )
    }

    /// The live status of proposal `proposal_id` at `now`.
    pub fn get_proposal_status(env: &GovernanceStorage, proposal_id: u32, now: u64) -> (r: Result<
        ProposalStatus,
        GovernanceError,
    >)
        requires
            proposal_id < env@.proposals.len() && env@.proposals[proposal_id as int].status
                == ProposalStatus::Active ==> env@.proposals[proposal_id as int].end_time
                + env@.proposals[proposal_id as int].snapshot.grace_period <= u64::MAX,
        ensures
            match r {
                Ok(st) => proposal_id < env@.proposals.len() && st == live_status(
                    env@.proposals[proposal_id as int],
                    now,
                ),
                Err(e) => e == GovernanceError::ProposalNotFound && proposal_id >= env@.proposals.len(),
            },
    {
        let proposal = match get_proposal(env, proposal_id) {
            Some(p) => p,
            None => {
                return Err(GovernanceError::ProposalNotFound);
            },
        };
        if proposal.status != ProposalStatus::Active {
            return Ok(proposal.status);
        }
        let grace_period = proposal.snapshot.grace_period;
        if now > proposal.end_time + grace_period {
            return Ok(ProposalStatus::Expired);
        }
        Ok(ProposalStatus::Active)
    }

    /// The admin address.
    pub fn get_admin(env: &GovernanceStorage) -> (r: Result<Address, GovernanceError>)
        ensures
            match r {
                Ok(a) => env@.admin == Some(a@),
                Err(e) => e == GovernanceError::NotInitialized && !env@.initialized(),
            },
    {
        if !has_admin(env) {
            return Err(GovernanceError::NotInitialized);
        }
        Ok(get_admin(env))
    }

    /// Records the admin's proposal, at `now`, to upgrade to `wasm_hash`,
    /// replacing any pending one.
    pub fn propose_upgrade(
        env: &mut GovernanceStorage,
        admin: Address,
        wasm_hash: [u8; 32],
        description: String,
        now: u64,
    ) -> (r: Result<(), GovernanceError>)
        requires
            old(env)@.wf(),
        ensures
            final(env)@.wf(),
            proposals_step(old(env)@, final(env)@),
            match propose_upgrade_check(old(env)@, admin@) {
                Some(e) => r == Err::<(), GovernanceError>(e) && final(env)@ == old(env)@,
                None => r is Ok && final(env)@ == (GovernanceModel {
                    pending_upgrade_wasm: Some(wasm_hash@),
                    pending_upgrade_proposed_at: Some(now),
                    ..old(env)@
                }),
            },
    {
        proof {
            lemma_proposals_step_refl(env@);
        }
        if !has_admin(env) {
            return Err(GovernanceError::NotInitialized);
        }
        let stored_admin = get_admin(env);
        if admin != stored_admin {
            return Err(GovernanceError::Unauthorized);
        }
        set_pending_upgrade(env, &PendingUpgrade { wasm_hash, proposed_at: now });
        Ok(())
    }

    /// Installs the pending upgrade once its timelock has expired at `now`:
    /// clears it and returns the WASM hash that the host installs.
    pub fn execute_upgrade(env: &mut GovernanceStorage, executor: Address, now: u64) -> (r: Result<
        [u8; 32],
        GovernanceError,
    >)
        requires
            old(env)@.wf(),
            old(env)@.pending_upgrade_proposed_at matches Some(t) ==> t + MIN_UPGRADE_DELAY
                <= u64::MAX,
        ensures
            final(env)@.wf(),
            proposals_step(old(env)@, final(env)@),
            match execute_upgrade_check(old(env)@, now) {
                Some(e) => r == Err::<[u8; 32], GovernanceError>(e) && final(env)@ == old(env)@,
                None => {
                    &&& r matches Ok(h) && Some(h@) == old(env)@.pending_upgrade_wasm
                    &&& final(env)@ == (GovernanceModel {
                        pending_upgrade_wasm: None,
                        pending_upgrade_proposed_at: None,
                        ..old(env)@
                    })
                },
            },
    {
        proof {
            lemma_proposals_step_refl(env@);
        }
        let pending = match get_pending_upgrade(env) {
            Some(p) => p,
            None => {
                return Err(GovernanceError::NoPendingUpgrade);
            },
        };
        if !timelock_expired(pending.proposed_at, now) {
            return Err(GovernanceError::TimelockNotExpired);
        }
        clear_pending_upgrade(env);
        Ok(pending.wasm_hash)
    }

    /// The pending upgrade, if any.
    pub fn get_pending_upgrade(env: &GovernanceStorage) -> (r: Option<PendingUpgrade>)
        ensures
            match r {
                Some(u) => env@.pending_upgrade_wasm == Some(u.wasm_hash@)
                    && env@.pending_upgrade_proposed_at == Some(u.proposed_at),
                None => env@.pending_upgrade_wasm is None || env@.pending_upgrade_proposed_at is None,
            },
    {
        get_pending_upgrade(env)
    }
}

} // verus!

//! Properties of the governance contract that span several entry points.

use vstd::prelude::*;

use crate::governance::contract::{
    execute_check, live_status, propose_upgrade_check,
    cancel_check, finalize_outcome, member_change_check, with_member_added, with_status,
    with_weight_set,
    current_electorate, create_proposal_check, execute_upgrade_check, finalize_check,
    gov_initialized_state, new_gov_proposal, vote_check, vote_fits, voted_proposal, with_gov_proposal,
    with_members, with_new_gov_proposal,
};
use crate::governance::errors::GovernanceError;
use crate::address::{lemma_filter_out_unique, lemma_push_unique, remove_all};
use crate::governance::storage::{
    assigned_weight, electorate_weight, empty_governance, tally, voters, weight_sum, GovernanceModel,
};
use crate::governance::types::{MemberWeightModel, ProposalStatus, VoteChoice};
use crate::upgrade::MIN_UPGRADE_DELAY;

verus! {

/// An address has a weight in an electorate exactly when it has an entry.
pub proof fn lemma_electorate_weight_some(e: Seq<MemberWeightModel>, a: Seq<char>)
    ensures
        electorate_weight(e, a) is Some <==> exists|i: int| 0 <= i < e.len() && (#[trigger] e[i]).member == a,
    decreases e.len(),
{
    if e.len() > 0 {
        lemma_electorate_weight_some(e.drop_first(), a);
        if e[0].member != a {
            if exists|i: int| 0 <= i < e.len() && (#[trigger] e[i]).member == a {
                let i = choose|i: int| 0 <= i < e.len() && (#[trigger] e[i]).member == a;
                assert(e.drop_first()[i - 1] == e[i]);
            }
            if exists|i: int| 0 <= i < e.drop_first().len() && (#[trigger] e.drop_first()[i]).member == a {
                let i = choose|i: int| 0 <= i < e.drop_first().len() && (#[trigger] e.drop_first()[i]).member == a;
                assert(e[i + 1] == e.drop_first()[i]);
            }
        }
    }
}

/// A governance contract can be initialized only once: the state after a
/// successful `initialize` is initialized, and `initialize` refuses every
/// initialized state with `AlreadyInitialized`.
pub proof fn lemma_gov_initialize_once(
    s: GovernanceModel,
    admin: Seq<char>,
    members: Seq<Seq<char>>,
    q: u32,
    d: u64,
    g: u64,
)
    requires
        !s.initialized(),
    ensures
        gov_initialized_state(s, admin, members, q, d, g).initialized(),
{
}

/// Whether a vote is accepted, and how a proposal is finalized, depend on
/// the stored proposals alone: two initialized states with the same proposals
/// give the same answers, whatever their members, weights and parameters.
pub proof fn lemma_outcomes_depend_on_proposals_only(
    s1: GovernanceModel,
    s2: GovernanceModel,
    voter: Seq<char>,
    id: u32,
    now: u64,
)
    requires
        s1.initialized(),
        s2.initialized(),
        s1.proposals == s2.proposals,
    ensures
        vote_check(s1, voter, id, now) == vote_check(s2, voter, id, now),
        finalize_check(s1, id, now) == finalize_check(s2, id, now),
{
}

/// Changing the member list, the total weight or a member's weight (as
/// `add_member`, `remove_member` and `set_voting_weight` do) leaves every
/// proposal, snapshot included, as it was; together with
/// [`lemma_outcomes_depend_on_proposals_only`], no member change after a
/// proposal's creation can alter its votes or its outcome.
pub proof fn lemma_member_changes_keep_proposals(
    s: GovernanceModel,
    members: Seq<Seq<char>>,
    total: int,
    m: Seq<char>,
    w: u128,
)
    ensures
        with_members(s, members, total).proposals == s.proposals,
        with_members(s, members, total).initialized() == s.initialized(),
        with_member_added(s, m).proposals == s.proposals,
        with_member_added(s, m).initialized() == s.initialized(),
        with_weight_set(s, m, w).proposals == s.proposals,
        with_weight_set(s, m, w).initialized() == s.initialized(),
{
}

/// A member added after a proposal was created is not in its snapshot and
/// cannot vote on it, while the voting window is open.
pub proof fn lemma_late_member_cannot_vote(
    s: GovernanceModel,
    proposer: Seq<char>,
    title: Seq<char>,
    token: Seq<char>,
    amount: i128,
    recipient: Seq<char>,
    created: u64,
    late: Seq<char>,
    members: Seq<Seq<char>>,
    total: int,
    now: u64,
)
    requires
        s.wf(),
        create_proposal_check(s, proposer, amount) is None,
        !s.is_member(late),
        now <= new_gov_proposal(s, proposer, title, token, amount, recipient, created).end_time,
    ensures
        ({
            let s1 = with_new_gov_proposal(
                s,
                new_gov_proposal(s, proposer, title, token, amount, recipient, created),
            );
            vote_check(with_members(s1, members, total), late, s.proposal_total(), now) == Some(
                GovernanceError::NotAMember,
            )
        }),
{
    let e = current_electorate(s);
    lemma_electorate_weight_some(e, late);
    if exists|i: int| 0 <= i < e.len() && (#[trigger] e[i]).member == late {
        let i = choose|i: int| 0 <= i < e.len() && (#[trigger] e[i]).member == late;
        assert(s.member_list()[i] == late);
        assert(s.member_list().contains(late));
    }
}

/// Once `voter`'s vote on a proposal is recorded, any further vote by them
/// on it during the voting window is refused with `AlreadyVoted`.
pub proof fn lemma_vote_once(
    s: GovernanceModel,
    voter: Seq<char>,
    id: u32,
    choice: VoteChoice,
    now: u64,
    choice2: VoteChoice,
    now2: u64,
)
    requires
        s.wf(),
        vote_check(s, voter, id, now) is None,
        now2 <= s.proposals[id as int].end_time,
    ensures
        vote_check(
            with_gov_proposal(s, id, voted_proposal(s.proposals[id as int], voter, choice, now)),
            voter,
            id,
            now2,
        ) == Some(GovernanceError::AlreadyVoted),
{
    let p1 = voted_proposal(s.proposals[id as int], voter, choice, now);
    let vs = voters(p1.votes);
    assert(vs[vs.len() - 1] == voter);
    assert(vs.contains(voter));
}

/// An upgrade proposed at time `t` cannot be installed before
/// `t + MIN_UPGRADE_DELAY`, and can be from then on.
pub proof fn lemma_upgrade_timelock(s: GovernanceModel, hash: Seq<u8>, t: u64, now: u64)
    ensures
        ({
            let s1 = GovernanceModel {
                pending_upgrade_wasm: Some(hash),
                pending_upgrade_proposed_at: Some(t),
                ..s
            };
            &&& now < t + MIN_UPGRADE_DELAY ==> execute_upgrade_check(s1, now) == Some(
                GovernanceError::TimelockNotExpired,
            )
            &&& now >= t + MIN_UPGRADE_DELAY ==> execute_upgrade_check(s1, now) is None
        }),
{
}

/// After an upgrade is installed, it cannot be installed again.
pub proof fn lemma_upgrade_installed_once(s: GovernanceModel, now: u64)
    ensures
        execute_upgrade_check(
            GovernanceModel { pending_upgrade_wasm: None, pending_upgrade_proposed_at: None, ..s },
            now,
        ) == Some(GovernanceError::NoPendingUpgrade),
{
}

/// Whether the stored total weight is the sum of the current members'
/// weights, over a member list without repetitions.
pub open spec fn total_weight_consistent(s: GovernanceModel) -> bool {
    &&& s.member_list().no_duplicates()
    &&& s.total_weight is Some
    &&& s.total_weight->0 == weight_sum(s.member_list(), s.voting_weights)
}

/// The weight sum of `ms` depends only on the weights of its members.
pub proof fn lemma_weight_sum_same(ms: Seq<Seq<char>>, ws1: Seq<MemberWeightModel>, ws2: Seq<MemberWeightModel>)
    requires
        forall|x: Seq<char>| ms.contains(x) ==> assigned_weight(ws1, x) == assigned_weight(ws2, x),
    ensures
        weight_sum(ms, ws1) == weight_sum(ms, ws2),
    decreases ms.len(),
{
    if ms.len() > 0 {
        let init = ms.drop_last();
        assert forall|x: Seq<char>| init.contains(x) implies assigned_weight(ws1, x) == assigned_weight(ws2, x) by {
            let k = choose|k: int| 0 <= k < init.len() && init[k] == x;
            assert(ms[k] == x);
        }
        lemma_weight_sum_same(init, ws1, ws2);
        assert(ms[ms.len() - 1] == ms.last());
    }
}

/// Recording a weight for `m` changes the weight sum of a list without
/// repetitions by the change of `m`'s weight, when `m` is in it.
pub proof fn lemma_weight_sum_assign(ms: Seq<Seq<char>>, ws: Seq<MemberWeightModel>, m: Seq<char>, w: u128)
    requires
        ms.no_duplicates(),
    ensures
        weight_sum(ms, ws.push(MemberWeightModel { member: m, weight: w })) == weight_sum(ms, ws) + if ms.contains(m) {
            w - assigned_weight(ws, m)
        } else {
            0
        },
    decreases ms.len(),
{
    let ws2 = ws.push(MemberWeightModel { member: m, weight: w });
    assert(ws2.drop_last() =~= ws);
    if ms.len() > 0 {
        let init = ms.drop_last();
        let last = ms.last();
        assert(init.no_duplicates());
        lemma_weight_sum_assign(init, ws, m, w);
        assert(ms[ms.len() - 1] == last);
        if last == m {
            assert(!init.contains(m)) by {
                if init.contains(m) {
                    let k = choose|k: int| 0 <= k < init.len() && init[k] == m;
                    assert(ms[k] == ms[ms.len() - 1]);
                }
            }
        } else {
            assert(ms.contains(m) == init.contains(m)) by {
                if ms.contains(m) {
                    let k = choose|k: int| 0 <= k < ms.len() && ms[k] == m;
                    assert(init[k] == m);
                }
                if init.contains(m) {
                    let k = choose|k: int| 0 <= k < init.len() && init[k] == m;
                    assert(ms[k] == m);
                }
            }
        }
    }
}

/// Dropping `m` from a list without repetitions takes `m`'s weight off its
/// weight sum, when `m` is in it.
pub proof fn lemma_weight_sum_remove(ms: Seq<Seq<char>>, ws: Seq<MemberWeightModel>, m: Seq<char>)
    requires
        ms.no_duplicates(),
    ensures
        weight_sum(remove_all(ms, m), ws) == weight_sum(ms, ws) - if ms.contains(m) {
            assigned_weight(ws, m) as int
        } else {
            0
        },
    decreases ms.len(),
{
    reveal_with_fuel(Seq::filter, 1);
    if ms.len() == 0 {
        assert(remove_all(ms, m) =~= ms);
    } else {
        let init = ms.drop_last();
        let last = ms.last();
        assert(init.no_duplicates());
        lemma_weight_sum_remove(init, ws, m);
        assert(ms[ms.len() - 1] == last);
        if last == m {
            assert(remove_all(ms, m) == remove_all(init, m));
            assert(!init.contains(m)) by {
                if init.contains(m) {
                    let k = choose|k: int| 0 <= k < init.len() && init[k] == m;
                    assert(ms[k] == ms[ms.len() - 1]);
                }
            }
            assert(ms.contains(m));
        } else {
            let r = remove_all(init, m).push(last);
            assert(remove_all(ms, m) == r);
            assert(r.drop_last() =~= remove_all(init, m));
            assert(ms.contains(m) == init.contains(m)) by {
                if ms.contains(m) {
                    let k = choose|k: int| 0 <= k < ms.len() && ms[k] == m;
                    assert(init[k] == m);
                }
                if init.contains(m) {
                    let k = choose|k: int| 0 <= k < init.len() && init[k] == m;
                    assert(ms[k] == m);
                }
            }
        }
    }
}

/// A weight sum is never negative.
pub proof fn lemma_weight_sum_nonneg(ms: Seq<Seq<char>>, ws: Seq<MemberWeightModel>)
    ensures
        weight_sum(ms, ws) >= 0,
    decreases ms.len(),
{
    if ms.len() > 0 {
        lemma_weight_sum_nonneg(ms.drop_last(), ws);
    }
}

/// With no weight assigned yet, every member counts one.
pub proof fn lemma_weight_sum_fresh(ms: Seq<Seq<char>>)
    ensures
        weight_sum(ms, Seq::<MemberWeightModel>::empty()) == ms.len(),
    decreases ms.len(),
{
    if ms.len() > 0 {
        lemma_weight_sum_fresh(ms.drop_last());
    }
}

/// Initializing a freshly deployed contract with distinct members makes the
/// total weight the sum of the members' weights (one each).
pub proof fn lemma_initialize_total_weight(
    admin: Seq<char>,
    members: Seq<Seq<char>>,
    q: u32,
    d: u64,
    g: u64,
)
    requires
        members.no_duplicates(),
        members.len() <= u32::MAX,
    ensures
        total_weight_consistent(gov_initialized_state(empty_governance(), admin, members, q, d, g)),
{
    lemma_weight_sum_fresh(members);
}

/// Adding a member keeps the total weight equal to the sum of the members'
/// weights: the newcomer joins with weight one and the total gains one.
pub proof fn lemma_add_member_total_weight(s: GovernanceModel, admin: Seq<char>, m: Seq<char>)
    requires
        total_weight_consistent(s),
        member_change_check(s, admin, m, false) is None,
        s.total_weight->0 < u128::MAX,
    ensures
        total_weight_consistent(with_member_added(s, m)),
{
    let ms = s.member_list();
    lemma_push_unique(ms, m);
    lemma_weight_sum_assign(ms, s.voting_weights, m, 1);
    let s2 = with_member_added(s, m);
    assert(s2.member_list().drop_last() =~= ms);
    assert(assigned_weight(s2.voting_weights, m) == 1);
}

/// Removing a member keeps the total weight equal to the sum of the
/// remaining members' weights.
pub proof fn lemma_remove_member_total_weight(s: GovernanceModel, admin: Seq<char>, m: Seq<char>)
    requires
        total_weight_consistent(s),
        member_change_check(s, admin, m, true) is None,
    ensures
        s.total_weight->0 >= s.weight(m),
        total_weight_consistent(with_members(s, remove_all(s.member_list(), m), s.total_weight->0 - s.weight(m))),
{
    let ms = s.member_list();
    lemma_filter_out_unique(ms, m);
    lemma_weight_sum_remove(ms, s.voting_weights, m);
    lemma_weight_sum_nonneg(remove_all(ms, m), s.voting_weights);
}

/// Setting a member's weight keeps the total weight equal to the sum of the
/// members' weights.
pub proof fn lemma_set_weight_total_weight(s: GovernanceModel, admin: Seq<char>, m: Seq<char>, w: u128)
    requires
        total_weight_consistent(s),
        member_change_check(s, admin, m, true) is None,
        s.total_weight->0 - s.weight(m) + w <= u128::MAX,
    ensures
        s.total_weight->0 >= s.weight(m),
        total_weight_consistent(with_weight_set(s, m, w)),
{
    let ms = s.member_list();
    lemma_weight_sum_remove(ms, s.voting_weights, m);
    lemma_weight_sum_nonneg(remove_all(ms, m), s.voting_weights);
    lemma_weight_sum_assign(ms, s.voting_weights, m, w);
}

/// Every stored proposal's record of votes is sound: nobody voted twice,
/// every voter is in the proposal's snapshotted electorate, and each tally
/// is the sum of the snapshotted weights of the votes cast for that choice.
/// Every entry point requires and ensures `wf`, and changes a proposal only
/// by the steps of `proposal_step`, which keep its snapshot.
pub proof fn lemma_proposal_records_sound(s: GovernanceModel, id: int)
    requires
        s.wf(),
        0 <= id < s.proposals.len(),
    ensures
        voters(s.proposals[id].votes).no_duplicates(),
        forall|i: int|
            0 <= i < s.proposals[id].votes.len() ==> electorate_weight(
                s.proposals[id].snapshot.electorate,
                (#[trigger] s.proposals[id].votes[i]).voter,
            ) is Some,
        s.proposals[id].yes_votes == tally(s.proposals[id].votes, s.proposals[id].snapshot.electorate, VoteChoice::Yes),
        s.proposals[id].no_votes == tally(s.proposals[id].votes, s.proposals[id].snapshot.electorate, VoteChoice::No),
        s.proposals[id].abstain_votes == tally(
            s.proposals[id].votes,
            s.proposals[id].snapshot.electorate,
            VoteChoice::Abstain,
        ),
{
}

/// Voting and finalizing never overlap: on an active proposal, the time
/// check of a vote passes exactly until the end of the voting window and
/// that of finalization exactly after it. Once finalized, a proposal is no
/// longer active: every later vote or finalization is refused with
/// `VotingNotActive`, and so is its cancellation by its proposer.
pub proof fn lemma_finalize_closes_voting(
    s: GovernanceModel,
    id: u32,
    now: u64,
    voter: Seq<char>,
    now2: u64,
    proposer: Seq<char>,
)
    requires
        s.wf(),
        s.initialized(),
        id < s.proposals.len(),
        s.proposals[id as int].status == ProposalStatus::Active,
    ensures
        vote_check(s, voter, id, now) != Some(GovernanceError::VotingPeriodExpired) <==> now
            <= s.proposals[id as int].end_time,
        finalize_check(s, id, now) is None <==> now > s.proposals[id as int].end_time,
        finalize_check(s, id, now) is None ==> {
            let s2 = with_status(s, id, finalize_outcome(s.proposals[id as int], now));
            &&& s2.proposals[id as int].status != ProposalStatus::Active
            &&& vote_check(s2, voter, id, now2) == Some(GovernanceError::VotingNotActive)
            &&& finalize_check(s2, id, now2) == Some(GovernanceError::VotingNotActive)
            &&& cancel_check(s2, proposer, id) is Some
        },
{
}

/// Finalizing decides by the snapshot and the votes alone. The proposal is
/// approved exactly when the weight that voted on it, yes, no and abstain
/// together, reaches the quorum share of the snapshotted total weight
/// (rounded down), the call comes within the grace period after the voting
/// window, and the yes weight exceeds the no weight; otherwise it is
/// rejected. No other outcome is possible.
pub proof fn lemma_finalize_decides_by_quorum_and_majority(s: GovernanceModel, id: u32, now: u64)
    requires
        s.wf(),
        finalize_check(s, id, now) is None,
    ensures
        ({
            let p = s.proposals[id as int];
            let out = finalize_outcome(p, now);
            &&& out == ProposalStatus::Approved || out == ProposalStatus::Rejected
            &&& out == ProposalStatus::Approved <==> {
                &&& p.yes_votes + p.no_votes + p.abstain_votes >= (p.snapshot.total_weight
                    * p.snapshot.quorum_percentage) / 100
                &&& now <= p.end_time + p.snapshot.grace_period
                &&& p.yes_votes > p.no_votes
            }
            &&& with_status(s, id, out).proposals[id as int].status == out
        }),
{
}

/// Setting a member's weight makes `weight` that member's weight, whether
/// lower or higher than before, leaves every other address's weight as it
/// was, and changes the total weight by the difference; members and
/// proposals stay as they were.
pub proof fn lemma_set_weight_takes_effect(
    s: GovernanceModel,
    admin: Seq<char>,
    member: Seq<char>,
    weight: u128,
    other: Seq<char>,
)
    requires
        s.wf(),
        s.initialized(),
        member_change_check(s, admin, member, true) is None,
        s.total_weight->0 >= assigned_weight(s.voting_weights, member),
        s.total_weight->0 - assigned_weight(s.voting_weights, member) + weight <= u128::MAX,
    ensures
        ({
            let s2 = with_weight_set(s, member, weight);
            &&& assigned_weight(s2.voting_weights, member) == weight
            &&& other != member ==> assigned_weight(s2.voting_weights, other) == assigned_weight(
                s.voting_weights,
                other,
            )
            &&& s2.total_weight == Some(
                (s.total_weight->0 - assigned_weight(s.voting_weights, member) + weight) as u128,
            )
            &&& s2.members == s.members
            &&& s2.proposals == s.proposals
        }),
{
    let s2 = with_weight_set(s, member, weight);
    assert(s2.voting_weights.drop_last() =~= s.voting_weights);
}

/// A proposer may cancel their own proposal whenever it is still active,
/// whatever votes it has received: the call is refused exactly when the
/// contract is uninitialized, the proposal does not exist, the caller is not
/// its proposer or it is no longer active, and on success only its status
/// changes, to cancelled.
pub proof fn lemma_proposer_cancels_active_proposal(s: GovernanceModel, proposer: Seq<char>, id: u32)
    requires
        s.wf(),
    ensures
        cancel_check(s, proposer, id) is None <==> {
            &&& s.admin is Some
            &&& id < s.proposals.len()
            &&& s.proposals[id as int].proposer == proposer
            &&& s.proposals[id as int].status == ProposalStatus::Active
        },
        cancel_check(s, proposer, id) is None ==> {
            let s2 = with_status(s, id, ProposalStatus::Cancelled);
            &&& s2.proposals.len() == s.proposals.len()
            &&& s2.proposals[id as int].status == ProposalStatus::Cancelled
            &&& s2.proposals[id as int].votes == s.proposals[id as int].votes
            &&& s2.proposals[id as int].snapshot == s.proposals[id as int].snapshot
            &&& forall|j: int| 0 <= j < s.proposals.len() && j != id ==> s2.proposals[j] == s.proposals[j]
        },
{
}

/// A vote adds the voter's snapshotted weight to the tally of their choice
/// and to no other tally, and records the vote after the earlier ones; a
/// member of the proposal's snapshot who has not voted may vote while the
/// window is open.
pub proof fn lemma_vote_counts_snapshot_weight(
    s: GovernanceModel,
    voter: Seq<char>,
    id: u32,
    choice: VoteChoice,
    now: u64,
)
    requires
        s.wf(),
        s.admin is Some,
        id < s.proposals.len(),
        s.proposals[id as int].status == ProposalStatus::Active,
        now <= s.proposals[id as int].end_time,
        electorate_weight(s.proposals[id as int].snapshot.electorate, voter) is Some,
        !voters(s.proposals[id as int].votes).contains(voter),
        vote_fits(s.proposals[id as int], voter, choice),
    ensures
        vote_check(s, voter, id, now) is None,
        ({
            let p = s.proposals[id as int];
            let q = voted_proposal(p, voter, choice, now);
            let w = electorate_weight(p.snapshot.electorate, voter)->0;
            &&& q.yes_votes == p.yes_votes + if choice == VoteChoice::Yes { w as int } else { 0 }
            &&& q.no_votes == p.no_votes + if choice == VoteChoice::No { w as int } else { 0 }
            &&& q.abstain_votes == p.abstain_votes + if choice == VoteChoice::Abstain { w as int } else { 0 }
            &&& q.votes.len() == p.votes.len() + 1
            &&& q.votes.last().voter == voter
            &&& q.votes.last().choice == choice
            &&& q.votes.drop_last() == p.votes
            &&& q.status == p.status
            &&& q.snapshot == p.snapshot
        }),
{
    let p = s.proposals[id as int];
    let q = voted_proposal(p, voter, choice, now);
    assert(q.votes.drop_last() =~= p.votes);
}

/// Creating a proposal always succeeds for a member with a positive amount
/// on an initialized contract, whatever proposals exist: it is recorded under
/// the next identifier, active, with no votes, a voting window of the
/// configured duration from `now`, and a snapshot of the current quorum,
/// grace period, total weight and members with their weights.
pub proof fn lemma_member_creates_proposal(
    s: GovernanceModel,
    proposer: Seq<char>,
    title: Seq<char>,
    token: Seq<char>,
    amount: i128,
    recipient: Seq<char>,
    now: u64,
)
    requires
        s.wf(),
        s.admin is Some,
        s.members->0.contains(proposer),
        amount > 0,
        now + s.voting_duration->0 <= u64::MAX,
    ensures
        create_proposal_check(s, proposer, amount) is None,
        ({
            let s2 = with_new_gov_proposal(s, new_gov_proposal(s, proposer, title, token, amount, recipient, now));
            let p = s2.proposals[s.proposals.len() as int];
            &&& s2.proposals.len() == s.proposals.len() + 1
            &&& s.proposal_count == Some(s.proposals.len() as u32)
            &&& forall|j: int| 0 <= j < s.proposals.len() ==> s2.proposals[j] == s.proposals[j]
            &&& p.id == s.proposals.len()
            &&& p.proposer == proposer && p.token == token && p.amount == amount && p.recipient == recipient
            &&& p.status == ProposalStatus::Active
            &&& p.votes.len() == 0 && p.yes_votes == 0 && p.no_votes == 0 && p.abstain_votes == 0
            &&& p.start_time == now
            &&& p.end_time == now + s.voting_duration->0
            &&& p.snapshot.quorum_percentage == s.quorum_percentage->0
            &&& p.snapshot.grace_period == s.grace_period->0
            &&& p.snapshot.total_weight == s.total_weight->0
            &&& p.snapshot.electorate.len() == s.members->0.len()
            &&& forall|i: int|
                0 <= i < s.members->0.len() ==> (#[trigger] p.snapshot.electorate[i]).member
                    == s.members->0[i] && p.snapshot.electorate[i].weight == assigned_weight(
                    s.voting_weights,
                    s.members->0[i],
                )
        }),
{
}

/// Executing is for the admin and approved proposals only: it is refused
/// exactly when the contract is uninitialized, the caller is not the admin,
/// the proposal does not exist or it is not approved.
pub proof fn lemma_execute_needs_admin_and_approval(s: GovernanceModel, admin: Seq<char>, id: u32)
    ensures
        execute_check(s, admin, id) is None <==> {
            &&& s.admin == Some(admin)
            &&& id < s.proposals.len()
            &&& s.proposals[id as int].status == ProposalStatus::Approved
        },
{
}

/// A vote is accepted exactly on an existing active proposal of an
/// initialized contract, within its voting window, from a member of its
/// snapshot who has not voted on it.
pub proof fn lemma_vote_accepted(s: GovernanceModel, voter: Seq<char>, id: u32, now: u64)
    ensures
        vote_check(s, voter, id, now) is None <==> {
            &&& s.admin is Some
            &&& id < s.proposals.len()
            &&& s.proposals[id as int].status == ProposalStatus::Active
            &&& now <= s.proposals[id as int].end_time
            &&& electorate_weight(s.proposals[id as int].snapshot.electorate, voter) is Some
            &&& !voters(s.proposals[id as int].votes).contains(voter)
        },
{
}

/// A proposal is accepted exactly from a member of an initialized contract
/// with a positive amount; finalization exactly for an existing active
/// proposal after its voting window.
pub proof fn lemma_create_and_finalize_accepted(
    s: GovernanceModel,
    proposer: Seq<char>,
    amount: i128,
    id: u32,
    now: u64,
)
    ensures
        create_proposal_check(s, proposer, amount) is None <==> (s.admin is Some && s.member_list().contains(
            proposer,
        ) && amount > 0),
        finalize_check(s, id, now) is None <==> (s.admin is Some && id < s.proposals.len()
            && s.proposals[id as int].status == ProposalStatus::Active && now > s.proposals[id as int].end_time),
{
}

/// Member operations are accepted exactly from the admin: adding one who is
/// not a member, removing or reweighting one who is. The newcomer joins last
/// with weight one, every other weight stays, and the total weight gains
/// one.
pub proof fn lemma_member_operations(s: GovernanceModel, admin: Seq<char>, m: Seq<char>, x: Seq<char>)
    ensures
        member_change_check(s, admin, m, false) is None <==> (s.admin == Some(admin)
            && !s.member_list().contains(m)),
        member_change_check(s, admin, m, true) is None <==> (s.admin == Some(admin)
            && s.member_list().contains(m)),
        ({
            let s2 = with_member_added(s, m);
            &&& s2.members == Some(s.member_list().push(m))
            &&& assigned_weight(s2.voting_weights, m) == 1
            &&& x != m ==> assigned_weight(s2.voting_weights, x) == assigned_weight(s.voting_weights, x)
            &&& s2.total_weight == Some((s.total_weight->0 + 1) as u128)
            &&& s2.proposals == s.proposals
        }),
{
    let s2 = with_member_added(s, m);
    assert(s2.voting_weights.drop_last() =~= s.voting_weights);
}

/// Upgrades are proposed only by the admin of an initialized contract, and
/// installed exactly once the pending upgrade's delay has passed.
pub proof fn lemma_upgrade_conditions(s: GovernanceModel, admin: Seq<char>, now: u64)
    ensures
        propose_upgrade_check(s, admin) is None <==> s.admin == Some(admin),
        execute_upgrade_check(s, now) is None <==> (s.pending_upgrade_wasm is Some
            && s.pending_upgrade_proposed_at is Some && now >= s.pending_upgrade_proposed_at->0
            + MIN_UPGRADE_DELAY),
{
}

/// Initialization is accepted exactly on an uninitialized contract and
/// stores the admin, the members, the parameters, zero proposals and a total
/// weight of one per listed member.
pub proof fn lemma_gov_initialize_stores_setup(
    s: GovernanceModel,
    admin: Seq<char>,
    members: Seq<Seq<char>>,
    q: u32,
    d: u64,
    g: u64,
)
    requires
        members.len() <= u32::MAX,
    ensures
        ({
            let s2 = gov_initialized_state(s, admin, members, q, d, g);
            &&& s2.admin == Some(admin)
            &&& s2.members == Some(members)
            &&& s2.quorum_percentage == Some(q)
            &&& s2.voting_duration == Some(d)
            &&& s2.grace_period == Some(g)
            &&& s2.proposal_count == Some(0u32)
            &&& s2.total_weight == Some(members.len() as u128)
            &&& s2.proposals == s.proposals
        }),
{
}

/// The live status of a proposal is its stored status, except that an
/// active proposal reads as expired once its grace period after the voting
/// window has passed.
pub proof fn lemma_live_status(p: crate::governance::types::ProposalModel, now: u64)
    ensures
        p.status != ProposalStatus::Active ==> live_status(p, now) == p.status,
        p.status == ProposalStatus::Active ==> (live_status(p, now) == ProposalStatus::Expired <==> now
            > p.end_time + p.snapshot.grace_period),
        p.status == ProposalStatus::Active ==> (live_status(p, now) == ProposalStatus::Active <==> now
            <= p.end_time + p.snapshot.grace_period),
{
}

/// Setting a status changes that proposal's status and nothing else.
pub proof fn lemma_status_change_only(s: GovernanceModel, id: u32, st: ProposalStatus)
    requires
        id < s.proposals.len(),
    ensures
        ({
            let s2 = with_status(s, id, st);
            &&& s2.proposals.len() == s.proposals.len()
            &&& s2.proposals[id as int].status == st
            &&& s2.proposals[id as int].votes == s.proposals[id as int].votes
            &&& s2.proposals[id as int].token == s.proposals[id as int].token
            &&& s2.proposals[id as int].recipient == s.proposals[id as int].recipient
            &&& s2.proposals[id as int].amount == s.proposals[id as int].amount
            &&& s2.proposals[id as int].yes_votes == s.proposals[id as int].yes_votes
            &&& s2.proposals[id as int].no_votes == s.proposals[id as int].no_votes
            &&& s2.proposals[id as int].snapshot == s.proposals[id as int].snapshot
            &&& forall|j: int| 0 <= j < s.proposals.len() && j != id ==> s2.proposals[j] == s.proposals[j]
            &&& s2.members == s.members && s2.total_weight == s.total_weight && s2.admin == s.admin
        }),
{
}

} // verus!

use vstd::prelude::*;

use crate::error::GroupError;
use crate::instructions::{settle_error, settled, SettlePayment};
use crate::state::{
    contribute_error, contributed, create_error, new_group, Group, GroupStatus, Pubkey,
};

verus! {

/// The sum of a sequence of amounts.
pub open spec fn sum_of(amounts: Seq<u64>) -> int
    decreases amounts.len(),
{
    if amounts.len() == 0 {
        0
    } else {
        sum_of(amounts.drop_last()) + amounts.last()
    }
}

/// The group after contributing each of `amounts` in turn, or `None` if one
/// of those contributions is refused.
pub open spec fn contribute_all(g: Group, amounts: Seq<u64>) -> Option<Group>
    decreases amounts.len(),
{
    if amounts.len() == 0 {
        Some(g)
    } else {
        match contribute_all(g, amounts.drop_last()) {
            Some(h) => if contribute_error(h, amounts.last()) is None {
                Some(contributed(h, amounts.last()))
            } else {
                None
            },
            None => None,
        }
    }
}

/// Accepted contributions add up: starting from any group, a run of accepted
/// contributions adds their sum to the collected amount and their number to
/// the paid count, and leaves the group's parameters alone.
proof fn lemma_contribute_all_counts(g: Group, amounts: Seq<u64>)
    ensures
        contribute_all(g, amounts) matches Some(h) ==> {
            &&& h.collected_amount == g.collected_amount + sum_of(amounts)
            &&& h.paid_participants == g.paid_participants + amounts.len()
            &&& h.organizer == g.organizer
            &&& h.total_amount == g.total_amount
            &&& h.participant_count == g.participant_count
        },
    decreases amounts.len(),
{
    if amounts.len() > 0 {
        lemma_contribute_all_counts(g, amounts.drop_last());
    }
}

/// After any run of accepted contributions to a freshly created group, the
/// collected amount is the sum of the amounts and the paid count is the
/// number of contributions.
pub proof fn lemma_collected_is_sum(
    organizer: Pubkey,
    total_amount: u64,
    participant_count: u8,
    amounts: Seq<u64>,
)
    requires
        create_error(total_amount, participant_count) is None,
    ensures
        contribute_all(new_group(organizer, total_amount, participant_count), amounts) matches Some(
            g,
        ) ==> {
            &&& g.collected_amount == sum_of(amounts)
            &&& g.paid_participants == amounts.len()
        },
{
    lemma_contribute_all_counts(new_group(organizer, total_amount, participant_count), amounts);
}

/// An accepted contribution keeps a well-formed group well-formed: it was
/// `Active`, and it is `Completed` afterwards exactly when the paid count
/// has reached the expected count.
pub proof fn lemma_completes_at_count(g: Group, amount: u64)
    requires
        g.wf(),
        contribute_error(g, amount) is None,
    ensures
        g.status == GroupStatus::Active,
        contributed(g, amount).wf(),
        contributed(g, amount).status == GroupStatus::Completed <==> contributed(
            g,
            amount,
        ).paid_participants == g.participant_count,
        contributed(g, amount).status != GroupStatus::Settled,
{
}

/// A freshly created group completes exactly when as many contributions as
/// expected have been accepted, never with fewer, and contributions alone
/// never settle it.
pub proof fn lemma_fresh_group_completes_at_count(
    organizer: Pubkey,
    total_amount: u64,
    participant_count: u8,
    amounts: Seq<u64>,
)
    requires
        create_error(total_amount, participant_count) is None,
    ensures
        contribute_all(new_group(organizer, total_amount, participant_count), amounts) matches Some(
            g,
        ) ==> {
            &&& g.wf()
            &&& g.status != GroupStatus::Settled
            &&& (g.status == GroupStatus::Completed <==> amounts.len() == participant_count)
        },
    decreases amounts.len(),
{
    let g0 = new_group(organizer, total_amount, participant_count);
    lemma_contribute_all_counts(g0, amounts);
    if amounts.len() > 0 {
        lemma_fresh_group_completes_at_count(
            organizer,
            total_amount,
            participant_count,
            amounts.drop_last(),
        );
        if let Some(h) = contribute_all(g0, amounts.drop_last()) {
            if contribute_error(h, amounts.last()) is None {
                lemma_completes_at_count(h, amounts.last());
            }
        }
    }
}

/// A settlement is accepted only on a `Completed` group, and it leaves a
/// well-formed group well-formed and `Settled`.
pub proof fn lemma_settles_only_when_completed(ctx: SettlePayment)
    requires
        ctx.group.wf(),
        settle_error(ctx) is None,
    ensures
        ctx.group.status == GroupStatus::Completed,
        ctx.group.paid_participants == ctx.group.participant_count,
        settled(ctx).group.wf(),
        settled(ctx).group.status == GroupStatus::Settled,
{
}

/// A group is paid out at most once: once a settlement has been accepted,
/// every later settlement of that group is refused with `GroupNotCompleted`,
/// whoever signs it and whatever the balances are.
pub proof fn lemma_settles_at_most_once(first: SettlePayment, second: SettlePayment)
    requires
        settle_error(first) is None,
        second.group == settled(first).group,
    ensures
        settle_error(second) == Some(GroupError::GroupNotCompleted),
{
}

/// A group that is `Completed` or `Settled` refuses every contribution with
/// `GroupNotActive` (and a refused contribution changes nothing).
pub proof fn lemma_closed_group_refuses_contributions(g: Group, amount: u64)
    requires
        g.status == GroupStatus::Completed || g.status == GroupStatus::Settled,
    ensures
        contribute_error(g, amount) == Some(GroupError::GroupNotActive),
{
}

/// An `Active` group refuses every settlement with `GroupNotCompleted`; as a
/// refusal changes nothing, asking again gives the same answer.
pub proof fn lemma_active_group_refuses_settlement(ctx: SettlePayment)
    requires
        ctx.group.status == GroupStatus::Active,
    ensures
        settle_error(ctx) == Some(GroupError::GroupNotCompleted),
{
}

} // verus!

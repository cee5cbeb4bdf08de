use vstd::prelude::*;

use crate::error::GroupError;
use crate::state::{
    contribute_error, contributed, create_error, new_group, settled_group, Group, GroupStatus,
    Participant, Pubkey,
};

verus! {

/// The accounts of a group creation: the freshly allocated group record and
/// the identity that signs as its organizer.
#[derive(Clone, Copy, Debug)]
pub struct CreateGroup {
    pub group: Group,
    pub organizer: Pubkey,
}

/// The accounts of a contribution: the group paid into, the freshly
/// allocated receipt, and the identity that signs as contributor.
#[derive(Clone, Copy, Debug)]
pub struct Contribute {
    pub group: Group,
    pub participant: Participant,
    pub contributor: Pubkey,
}

/// The accounts of a settlement: the group with the balance of its escrow
/// slot, and the signer with the balance of its own slot.
#[derive(Clone, Copy, Debug)]
pub struct SettlePayment {
    pub group: Group,
    pub group_lamports: u64,
    pub organizer: Pubkey,
    pub organizer_lamports: u64,
}

/// The error, if any, with which a settlement is refused. The status is
/// looked at first, so a group that is not `Completed` always gives
/// `GroupNotCompleted`, whoever signs.
pub open spec fn settle_error(ctx: SettlePayment) -> Option<GroupError> {
    if ctx.group.status != GroupStatus::Completed {
        Some(GroupError::GroupNotCompleted)
    } else if ctx.organizer@ != ctx.group.organizer@ {
        Some(GroupError::Unauthorized)
    } else if ctx.group_lamports < ctx.group.total_amount || ctx.organizer_lamports
        + ctx.group.total_amount > u64::MAX {
        Some(GroupError::ArithmeticOverflow)
    } else {
        None
    }
}

/// The accounts after a settlement: exactly `total_amount` has moved from
/// the escrow slot to the organizer, and the group is `Settled`.
pub open spec fn settled(ctx: SettlePayment) -> SettlePayment {
    SettlePayment {
        group: settled_group(ctx.group),
        group_lamports: (ctx.group_lamports - ctx.group.total_amount) as u64,
        organizer: ctx.organizer,
        organizer_lamports: (ctx.organizer_lamports + ctx.group.total_amount) as u64,
    }
}

/// Opens a group with the signer as organizer, nothing collected and no
/// contribution yet. A zero target or a zero count is refused.
pub fn create_group(ctx: &mut CreateGroup, total_amount: u64, participant_count: u8) -> (r: Result<(), GroupError>)
    ensures
        match r {
            Ok(()) => {
                &&& create_error(total_amount, participant_count) is None
                &&& final(ctx).group == new_group(old(ctx).organizer, total_amount, participant_count)
                &&& final(ctx).organizer == old(ctx).organizer
            },
            Err(e) => {
                &&& create_error(total_amount, participant_count) == Some(e)
                &&& *final(ctx) == *old(ctx)
            },
        },
{
    if total_amount == 0 || participant_count == 0 {
        return Err(GroupError::InvalidGroupParameters);
    }
    ctx.group.organizer = ctx.organizer;
    ctx.group.total_amount = total_amount;
    ctx.group.collected_amount = 0;
    ctx.group.participant_count = participant_count;
    ctx.group.paid_participants = 0;
    ctx.group.status = GroupStatus::Active;
    Ok(())
}

/// Records a contribution of `amount` to an `Active` group and writes the
/// receipt. The group becomes `Completed` when the contribution count
/// reaches the expected count, whatever has been collected by then.
pub fn contribute(ctx: &mut Contribute, amount: u64) -> (r: Result<(), GroupError>)
    ensures
        match r {
            Ok(()) => {
                &&& contribute_error(old(ctx).group, amount) is None
                &&& final(ctx).group == contributed(old(ctx).group, amount)
                &&& final(ctx).participant == (Participant {
                    wallet: old(ctx).contributor,
                    contributed_amount: amount,
                })
                &&& final(ctx).contributor == old(ctx).contributor
            },
            Err(e) => {
                &&& contribute_error(old(ctx).group, amount) == Some(e)
                &&& *final(ctx) == *old(ctx)
            },
        },
{
    if ctx.group.status != GroupStatus::Active {
        return Err(GroupError::GroupNotActive);
    }
    let collected = match ctx.group.collected_amount.checked_add(amount) {
        Some(c) => c,
        None => return Err(GroupError::ArithmeticOverflow),
    };
    let paid = match ctx.group.paid_participants.checked_add(1) {
        Some(p) => p,
        None => return Err(GroupError::ArithmeticOverflow),
    };
    ctx.group.collected_amount = collected;
    ctx.group.paid_participants = paid;
    ctx.participant.wallet = ctx.contributor;
    ctx.participant.contributed_amount = amount;
    if paid == ctx.group.participant_count {
        ctx.group.status = GroupStatus::Completed;
    }
    Ok(())
}

/// Pays a `Completed` group out to its organizer: moves exactly
/// `total_amount` (not the collected sum) from the escrow balance to the
/// organizer's, and marks the group `Settled`.
pub fn settle_payment(ctx: &mut SettlePayment) -> (r: Result<(), GroupError>)
    ensures
        match r {
            Ok(()) => {
                &&& settle_error(*old(ctx)) is None
                &&& *final(ctx) == settled(*old(ctx))
            },
            Err(e) => {
                &&& settle_error(*old(ctx)) == Some(e)
                &&& *final(ctx) == *old(ctx)
            },
        },
{
    if ctx.group.status != GroupStatus::Completed {
        return Err(GroupError::GroupNotCompleted);
    }
    if !ctx.organizer.same_key(&ctx.group.organizer) {
        return Err(GroupError::Unauthorized);
    }
    let to_transfer = ctx.group.total_amount;
    let organizer_lamports = match ctx.organizer_lamports.checked_add(to_transfer) {
        Some(l) => l,
        None => return Err(GroupError::ArithmeticOverflow),
    };
    let group_lamports = match ctx.group_lamports.checked_sub(to_transfer) {
        Some(l) => l,
        None => return Err(GroupError::ArithmeticOverflow),
    };
    ctx.organizer_lamports = organizer_lamports;
    ctx.group_lamports = group_lamports;
    ctx.group.status = GroupStatus::Settled;
    Ok(())
}

} // verus!

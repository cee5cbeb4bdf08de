use vstd::prelude::*;

use crate::error::GroupError;

verus! {

/// The identity of an account holder: the 32 bytes of an ed25519 public key.
#[derive(Clone, Copy, Debug)]
pub struct Pubkey {
    pub bytes: [u8; 32],
}

impl View for Pubkey {
    type V = Seq<u8>;

    open spec fn view(&self) -> Seq<u8> {
        self.bytes@
    }
}

impl Pubkey {
    /// Whether two identities are the same key, byte for byte.
    pub fn same_key(&self, other: &Pubkey) -> (r: bool)
        ensures
            r == (self@ == other@),
    {
        let mut i: usize = 0;
        while i < 32
            invariant
                i <= 32,
                self@.len() == 32,
                other@.len() == 32,
                forall|j: int| 0 <= j < i ==> self@[j] == other@[j],
            decreases 32 - i,
        {
            if self.bytes[i] != other.bytes[i] {
                return false;
            }
            i = i + 1;
        }
        assert(self@ =~= other@);
        true
    }
}

/// Where a group stands in its life: collecting, fully funded, or paid out.
#[derive(Clone, Copy, Debug, PartialEq, Eq, Structural)]
pub enum GroupStatus {
    Active,
    Completed,
    Settled,
}

/// One escrow pool: a target amount, the number of contributions expected,
/// and what has been collected so far.
#[derive(Clone, Copy, Debug)]
pub struct Group {
    pub organizer: Pubkey,
    pub total_amount: u64,
    pub collected_amount: u64,
    pub participant_count: u8,
    pub paid_participants: u8,
    pub status: GroupStatus,
}

/// The immutable receipt of one accepted contribution.
#[derive(Clone, Copy, Debug)]
pub struct Participant {
    pub wallet: Pubkey,
    pub contributed_amount: u64,
}

impl Group {
    /// A group that was created with valid parameters and has since only
    /// gone through accepted operations: the status follows the count of
    /// contributions, and is `Active` exactly while some are still missing.
    pub open spec fn wf(&self) -> bool {
        &&& self.total_amount > 0
        &&& self.participant_count > 0
        &&& self.paid_participants <= self.participant_count
        &&& (self.status == GroupStatus::Active <==> self.paid_participants
            < self.participant_count)
    }
}

/// The error, if any, with which creating a group with these parameters is refused.
pub open spec fn create_error(total_amount: u64, participant_count: u8) -> Option<GroupError> {
    if total_amount == 0 || participant_count == 0 {
        Some(GroupError::InvalidGroupParameters)
    } else {
        None
    }
}

/// The group that a successful creation produces.
pub open spec fn new_group(organizer: Pubkey, total_amount: u64, participant_count: u8) -> Group {
    Group {
        organizer,
        total_amount,
        collected_amount: 0,
        participant_count,
        paid_participants: 0,
        status: GroupStatus::Active,
    }
}

/// The error, if any, with which a contribution of `amount` to `g` is refused.
pub open spec fn contribute_error(g: Group, amount: u64) -> Option<GroupError> {
    if g.status != GroupStatus::Active {
        Some(GroupError::GroupNotActive)
    } else if g.collected_amount + amount > u64::MAX || g.paid_participants + 1 > u8::MAX {
        Some(GroupError::ArithmeticOverflow)
    } else {
        None
    }
}

/// The group after an accepted contribution of `amount`: one more paid
/// participant, `amount` more collected, and `Completed` once the count is reached.
pub open spec fn contributed(g: Group, amount: u64) -> Group {
    let paid = (g.paid_participants + 1) as u8;
    Group {
        organizer: g.organizer,
        total_amount: g.total_amount,
        collected_amount: (g.collected_amount + amount) as u64,
        participant_count: g.participant_count,
        paid_participants: paid,
        status: if paid == g.participant_count {
            GroupStatus::Completed
        } else {
            g.status
        },
    }
}

/// The group after settlement: only the status changes.
pub open spec fn settled_group(g: Group) -> Group {
    Group { status: GroupStatus::Settled, ..g }
}

} // verus!

use vstd::prelude::*;

verus! {

/// Why an escrow operation was refused. A refused operation changes nothing.
#[derive(Clone, Copy, Debug, PartialEq, Eq, Structural)]
pub enum GroupError {
    /// A contribution was made to a group that is no longer collecting.
    GroupNotActive,
    /// A settlement was asked of a group that is not fully funded, or already paid out.
    GroupNotCompleted,
    /// A counter or a balance would leave the range of its integer type.
    ArithmeticOverflow,
    /// A group was created with a zero target amount or a zero participant count.
    InvalidGroupParameters,
    /// The settlement was signed by someone other than the group's organizer.
    Unauthorized,
}

} // verus!

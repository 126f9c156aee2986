//! How occurrences that outpace the update loop are kept.

use vstd::prelude::*;

verus! {

/// What happens to an occurrence that arrives while an earlier one of the same
/// listener or interval still waits.
#[derive(Clone, Copy, Debug, PartialEq, Eq, Structural)]
pub enum QueueStrategy {
    /// Every occurrence waits its turn; none is lost.
    Fifo,
    /// The newer occurrence takes the place of the one that waits.
    DropOlder,
}

} // verus!

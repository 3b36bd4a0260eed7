//! What becomes of the rest of a stake when it is unstaked.

use vstd::prelude::*;

verus! {

/// Where the rest of an unstaked stake goes.
#[derive(Clone, Copy, Debug, PartialEq, Eq, Structural)]
pub enum Unstaked {
    /// The stake is none of the working group's: the rest is handed on as it
    /// came.
    HandedOn,
    /// The stake stood for an application to the working group: the rest is
    /// refunded through the group.
    Refunded,
}

/// Decides where the rest of an unstaked stake goes, from whether the stake
/// stands for a hiring application and whether that application is one to
/// the working group.
pub fn on_unstaked(stake_is_of_application: bool, application_is_of_group: bool) -> (r: Unstaked)
    ensures
        r == (if stake_is_of_application && application_is_of_group {
            Unstaked::Refunded
        } else {
            Unstaked::HandedOn
        }),
{
    // Stake not related to a staked role managed by the hiring module.
    if !stake_is_of_application {
        return Unstaked::HandedOn;
    }
    if application_is_of_group {
        return Unstaked::Refunded;
    }
    Unstaked::HandedOn
}

} // verus!

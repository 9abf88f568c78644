use vstd::prelude::*;

verus! {

/// What can ask the crawl to stop.
#[derive(Clone, Copy, Debug, PartialEq, Eq, Structural)]
pub enum Trigger {
    /// An extraction has found the end of the listing.
    EndOfListing,
    /// The operator has sent an interrupt.
    Interrupt,
}

/// What is done about a trigger.
#[derive(Clone, Copy, Debug, PartialEq, Eq, Structural)]
pub enum Reaction {
    /// Set the termination flag: no new work is started, work in flight is
    /// finished.
    RequestStop,
    /// Leave the process at once, without waiting for work in flight.
    ForceExit,
}

/// The reaction to a trigger, given the termination flag as it stands: an
/// interrupt that finds the flag set forces the exit, everything else sets
/// the flag.
pub open spec fn reaction_to(stop_requested: bool, trigger: Trigger) -> Reaction {
    if stop_requested && trigger == Trigger::Interrupt {
        Reaction::ForceExit
    } else {
        Reaction::RequestStop
    }
}

/// The termination flag after the reaction to a trigger has been carried
/// out: a flag that was set stays set, and a request to stop sets it. No
/// reaction clears it.
pub open spec fn flag_after(stop_requested: bool, trigger: Trigger) -> bool {
    stop_requested || reaction_to(stop_requested, trigger) == Reaction::RequestStop
}

/// The termination flag after a sequence of triggers.
pub open spec fn flag_after_all(stop_requested: bool, triggers: Seq<Trigger>) -> bool
    decreases triggers.len(),
{
    if triggers.len() == 0 {
        stop_requested
    } else {
        flag_after_all(flag_after(stop_requested, triggers[0]), triggers.drop_first())
    }
}

/// Decides what to do about a trigger, given the termination flag as read
/// just before.
pub fn react(stop_requested: bool, trigger: Trigger) -> (reaction: Reaction)
    ensures
        reaction == reaction_to(stop_requested, trigger),
{
    match trigger {
        Trigger::Interrupt => if stop_requested {
            Reaction::ForceExit
        } else {
            Reaction::RequestStop
        },
        Trigger::EndOfListing => Reaction::RequestStop,
    }
}

/// Decides what the interrupt handler does, given the termination flag as
/// read just before: the first interrupt requests the stop, an interrupt
/// that finds the flag set forces the exit.
pub fn on_interrupt(stop_requested: bool) -> (reaction: Reaction)
    ensures
        reaction == reaction_to(stop_requested, Trigger::Interrupt),
        stop_requested ==> reaction == Reaction::ForceExit,
        !stop_requested ==> reaction == Reaction::RequestStop,
{
    react(stop_requested, Trigger::Interrupt)
}

/// Whatever the trigger and whatever the flag, the flag is set once the
/// reaction has been carried out: a trigger that finds the flag clear is
/// answered by a request to stop, and a flag that is set is never cleared.
pub proof fn law_every_trigger_sets_the_flag(stop_requested: bool, trigger: Trigger)
    ensures
        flag_after(stop_requested, trigger),
        !stop_requested ==> reaction_to(stop_requested, trigger) == Reaction::RequestStop,
        reaction_to(stop_requested, trigger) == Reaction::ForceExit ==> stop_requested,
{
}

/// The termination flag, once set, stays set whatever triggers follow; and
/// any trigger at all sets it.
pub proof fn law_flag_stays_set(stop_requested: bool, triggers: Seq<Trigger>)
    requires
        stop_requested || triggers.len() > 0,
    ensures
        flag_after_all(stop_requested, triggers),
    decreases triggers.len(),
{
    if triggers.len() > 0 {
        law_every_trigger_sets_the_flag(stop_requested, triggers[0]);
        law_flag_stays_set(true, triggers.drop_first());
    }
}

} // verus!

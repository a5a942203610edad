use vstd::prelude::*;

use crate::event::RawEvent;

verus! {

/// One unit of work for the update step.
#[derive(Clone, Debug, PartialEq, Eq)]
pub enum Action {
    /// Nothing more to do: ends a chain.
    Noop,
    /// Interpret one raw event against the model.
    TranslateRawEvent(RawEvent),
    /// A periodic tick, independent of input.
    UpdateTimer,
}

impl Action {
    /// Whether this action ends a chain.
    pub fn is_noop(&self) -> (r: bool)
        ensures
            r == (*self is Noop),
    {
        match self {
            Action::Noop => true,
            _ => false,
        }
    }
}

/// The action that a chain hands to the update step next, after `current`
/// came back from it (or was the seed): none once `current` is `Noop`.
pub open spec fn chain_step(current: Action) -> Option<Action> {
    if current is Noop {
        None
    } else {
        Some(current)
    }
}

/// The action that a chain hands to the update step next, after `current`
/// came back from it (or was the seed): none once `current` is `Noop`.
pub fn invoke_update_loop(current: Action) -> (r: Option<Action>)
    ensures
        r == chain_step(current),
{
    if current.is_noop() {
        None
    } else {
        Some(current)
    }
}

/// A chain seeded with `Noop` hands nothing to the update step, however
/// often it is seeded so.
pub proof fn noop_seed_is_idle()
    ensures
        chain_step(Action::Noop) is None,
{
}

} // verus!

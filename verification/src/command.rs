use vstd::prelude::*;

verus! {

/// A request for an effect, together with what turns its response into an event.
pub struct Command<Ef, F> {
    pub effect: Ef,
    pub resolve: F,
}

impl<Ef, F> Command<Ef, F> {
    /// Pairs an effect with the callback that receives its response.
    pub fn new(effect: Ef, resolve: F) -> (command: Self)
        ensures
            command.effect == effect,
            command.resolve == resolve,
    {
        Command { effect, resolve }
    }
}

/// Marks the types through which an application asks for effects.
pub trait Capability {

}

} // verus!

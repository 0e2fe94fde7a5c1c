use vstd::prelude::*;

use crate::app::ports::{AuthBusinessEvent, Observability};

verus! {

/// Observability adapter that intentionally drops all emitted events.
pub struct NoopObservability {
    handed: Ghost<Seq<AuthBusinessEvent>>,
}

impl NoopObservability {
    /// An adapter that has been handed no events.
    pub fn new() -> (observability: Self)
        ensures
            observability.emitted() == Seq::<AuthBusinessEvent>::empty(),
    {
        NoopObservability { handed: Ghost(Seq::empty()) }
    }
}

impl Observability for NoopObservability {
    /// The events handed to the adapter (and dropped).
    closed spec fn emitted(&self) -> Seq<AuthBusinessEvent> {
        self.handed@
    }

    fn emit(&mut self, event: AuthBusinessEvent) {
        proof {
            self.handed@ = self.handed@.push(event);
        }
    }
}

} // verus!

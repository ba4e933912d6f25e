//! The service that serves server-streaming methods.

use std::marker::PhantomData;
use vstd::prelude::*;

use crate::False;
use crate::Method;
use crate::True;

verus! {

/// Serves method `M` with handler `H`.
pub struct ServerStreamingService<M, H> {
    method: PhantomData<M>,
    handler: H,
}

impl<M, H> ServerStreamingService<M, H> {
    /// The handler that answers the calls.
    pub closed spec fn spec_handler(&self) -> H {
        self.handler
    }

    /// Wraps a handler of method `M`.
    pub fn new(handler: H) -> (service: Self)
        where
            M: Method<IsRequestStreamed = False, IsResponseStreamed = True>,
        ensures
            service.spec_handler() == handler,
    {
        Self { method: PhantomData, handler }
    }

    /// The handler, to answer a call with.
    pub fn handler_mut(&mut self) -> (handler: &mut H)
        ensures
            *handler == old(self).spec_handler(),
            final(self).spec_handler() == *final(handler),
    {
        &mut self.handler
    }
}

impl<M, H: Clone> Clone for ServerStreamingService<M, H> {
    /// A service of the same method whose handler is a clone of this one's.
    fn clone(&self) -> (service: Self)
        ensures
            cloned(self.spec_handler(), service.spec_handler()),
    {
        Self { method: PhantomData, handler: self.handler.clone() }
    }
}

} // verus!

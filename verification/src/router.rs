//! The protocol router facade: one router on a bound endpoint, serving the
//! overlay's protocol.

use vstd::prelude::*;
use crate::endpoint::IrohEndpoint;
use crate::error::{prerequisite_refusal, FacadeError};
use crate::gossip::IrohGossip;

verus! {

/// A protocol router, built or not yet.
#[derive(Debug)]
pub struct IrohRouter<T> {
    router: Option<T>,
}

impl<T> View for IrohRouter<T> {
    type V = Option<T>;

    closed spec fn view(&self) -> Option<T> {
        self.router
    }
}

impl<T> IrohRouter<T> {
    /// A facade without a router.
    pub fn new() -> (facade: Self)
        ensures
            facade@ is None,
    {
        IrohRouter { router: None }
    }

    /// Whether a router has been built.
    pub fn is_bound(&self) -> (bound: bool)
        ensures
            bound == (self@ is Some),
    {
        self.router.is_some()
    }

    /// Builds the router with `build` on the endpoint's transport object and
    /// the overlay, and keeps it; a router that was there before is handed
    /// back as it was. An unbound endpoint, or an overlay that has not been
    /// started, refuses with `NotInitialized`: `build` is not called and the
    /// facade stays as it was.
    pub fn bind<E, G, S, R, F: FnOnce(&E, &G) -> T>(
        &mut self,
        endpoint: &IrohEndpoint<E>,
        gossip: &IrohGossip<G, S, R>,
        build: F,
    ) -> (superseded: Result<Option<T>, FacadeError>)
        requires
            endpoint@ matches Some(binding) ==> (gossip.overlay() matches Some(overlay)
                ==> call_requires(build, (&binding.transport, &overlay))),
        ensures
            match superseded {
                Ok(prior) => {
                    &&& endpoint@ matches Some(binding)
                    &&& gossip.overlay() matches Some(overlay)
                    &&& final(self)@ matches Some(router)
                    &&& call_ensures(build, (&binding.transport, &overlay), router)
                    &&& prior == old(self)@
                },
                Err(e) => {
                    &&& Some(e@) == prerequisite_refusal(
                        endpoint@ is Some && gossip.overlay() is Some,
                    )
                    &&& final(self)@ == old(self)@
                },
            },
    {
        let transport = match endpoint.accept_logic() {
            Ok(transport) => transport,
            Err(error) => {
                return Err(error);
            },
        };
        let overlay = match gossip.get_gossip() {
            Ok(overlay) => overlay,
            Err(error) => {
                return Err(error);
            },
        };
        let prior = self.router.take();
        self.router = Some(build(transport, overlay));
        Ok(prior)
    }

    /// The router, or `NotInitialized` where none has been built.
    pub fn get_router(&self) -> (router: Result<&T, FacadeError>)
        ensures
            match router {
                Ok(r) => self@ == Some(*r),
                Err(e) => Some(e@) == prerequisite_refusal(self@ is Some),
            },
    {
        match &self.router {
            Some(router) => Ok(router),
            None => Err(FacadeError::NotInitialized),
        }
    }
}

} // verus!

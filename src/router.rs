//! The protocol handler's request router: a slot for the worker that is
//! filled exactly once, after which inbound requests reach it.
use vstd::prelude::*;

verus! {

/// Binding failed: a worker is already bound, and it stays bound.
#[derive(Clone, Copy, Debug, PartialEq, Eq, Structural)]
pub enum BindError {
    AlreadyBound,
}

/// Routing failed: no worker is bound yet, so the request gets an error
/// response instead of being dispatched.
#[derive(Clone, Copy, Debug, PartialEq, Eq, Structural)]
pub enum RouteError {
    WorkerNotBound,
}

/// The target held after binding `worker` into a router holding `current`.
pub open spec fn bind_spec<W>(current: Option<W>, worker: W) -> Option<W> {
    match current {
        Some(w) => Some(w),
        None => Some(worker),
    }
}

/// A single-assignment routing slot for the worker.
pub struct RequestRouter<W> {
    target: Option<W>,
}

impl<W> RequestRouter<W> {
    /// The bound worker, if any.
    pub closed spec fn target_spec(&self) -> Option<W> {
        self.target
    }

    /// A router with no worker bound.
    pub fn new() -> (r: RequestRouter<W>)
        ensures
            r.target_spec() is None,
    {
        RequestRouter { target: None }
    }

    /// Binds the worker. Succeeds only on a router with no worker; on a bound
    /// router it fails and leaves the bound worker in place.
    pub fn bind_worker(&mut self, worker: W) -> (r: Result<(), BindError>)
        ensures
            r is Ok <==> old(self).target_spec() is None,
            r is Err ==> r == Err::<(), BindError>(BindError::AlreadyBound),
            final(self).target_spec() == bind_spec(old(self).target_spec(), worker),
    {
        if self.target.is_some() {
            Err(BindError::AlreadyBound)
        } else {
            self.target = Some(worker);
            Ok(())
        }
    }

    /// Whether a worker is bound.
    pub fn is_bound(&self) -> (r: bool)
        ensures
            r == (self.target_spec() is Some),
    {
        self.target.is_some()
    }

    /// The worker that an inbound request goes to, or an error while none is bound.
    pub fn route(&self) -> (r: Result<&W, RouteError>)
        ensures
            self.target_spec() is None ==> r == Err::<&W, RouteError>(RouteError::WorkerNotBound),
            self.target_spec() is Some ==> (r is Ok && *r->Ok_0 == self.target_spec()->Some_0),
    {
        match &self.target {
            Some(w) => Ok(w),
            None => Err(RouteError::WorkerNotBound),
        }
    }
}

/// Once bound, the router's target is never rebound: a later binding of any
/// worker leaves the first one in place.
pub proof fn lemma_bound_target_is_never_rebound<W>(current: Option<W>, first: W, second: W)
    ensures
        bind_spec(bind_spec(current, first), second) == bind_spec(current, first),
        bind_spec(None, first) == Some(first),
        current is Some ==> bind_spec(current, second) == current,
{
}

} // verus!

use std::sync::Arc;
use vstd::prelude::*;

use crate::clock::{ActivityClock, LastActivityTime};

verus! {

/// Runs `handler` after recording activity at `now` on an exclusively held
/// clock, and hands back the handler's result untouched. The write happens
/// before the handler runs, so a handler that fails still counts.
pub fn dispatch<T, E, F: FnOnce() -> Result<T, E>>(
    clock: &mut ActivityClock,
    now: u64,
    handler: F,
) -> (r: Result<T, E>)
    requires
        handler.requires(()),
    ensures
        final(clock)@ == now,
        handler.ensures((), r),
{
    clock.record_activity(now);
    handler()
}

/// Builds the per-route interceptor around a service. Every interceptor that
/// one middleware builds writes to the same shared activity cell.
pub struct InactivityMiddleware {
    pub last_activity: Arc<LastActivityTime>,
    pub shutdown_duration: u64,
}

/// The interceptor around one service: it records activity, then delegates.
pub struct InactivityMiddlewareService<S> {
    pub service: S,
    pub last_activity: Arc<LastActivityTime>,
    pub shutdown_duration: u64,
}

impl InactivityMiddleware {
    /// Wraps `service` in an interceptor sharing this middleware's cell.
    pub fn new_transform<S>(&self, service: S) -> (r: InactivityMiddlewareService<S>)
        ensures
            r.service == service,
            *r.last_activity == *self.last_activity,
            r.shutdown_duration == self.shutdown_duration,
    {
        InactivityMiddlewareService {
            service,
            last_activity: self.last_activity.clone(),
            shutdown_duration: self.shutdown_duration,
        }
    }
}

impl<S> InactivityMiddlewareService<S> {
    /// Records activity at `now` in the shared cell, releases the cell, then
    /// calls `handler` on the wrapped service and returns its result
    /// unchanged, success or failure alike.
    pub fn call<T, E, F: FnOnce(&S) -> Result<T, E>>(&self, now: u64, handler: F) -> (r: Result<
        T,
        E,
    >)
        requires
            self.last_activity.wf(),
            now >= self.last_activity.origin(),
            handler.requires((&self.service,)),
        ensures
            handler.ensures((&self.service,), r),
    {
        self.last_activity.record_activity(now);
        handler(&self.service)
    }
}

} // verus!

//! Dispatch of one triggering message to a named handler of a loaded module,
//! followed by the fan-out of everything that handler emitted.
use vstd::prelude::*;
use crate::button_driver;
use crate::context::{Invocation, LogEntry};
use crate::native_module;
use crate::passthrough;
use crate::result::ResultMessage;
use crate::router::{Delivery, Router, route_all};

verus! {

/// The modules this host can load.
#[derive(Clone, Copy, Debug, PartialEq, Eq, Structural)]
pub enum ModuleId {
    ButtonDriver,
    Native,
    Passthrough,
}

/// What running `handler` of module `m` on `data` returns; `None` when `m`
/// declares no such handler.
pub open spec fn outcome(m: ModuleId, handler: Seq<char>, data: Seq<u8>) -> Option<ResultMessage> {
    match m {
        ModuleId::ButtonDriver => button_driver::outcome(handler, data),
        ModuleId::Native => native_module::outcome(handler, data),
        ModuleId::Passthrough => passthrough::outcome(handler, data),
    }
}

/// What running `handler` of module `m` on `data` emits, in order.
pub open spec fn emitted(m: ModuleId, handler: Seq<char>, data: Seq<u8>) -> Seq<(Seq<char>, Seq<u8>)> {
    match m {
        ModuleId::ButtonDriver => button_driver::emitted(handler, data),
        ModuleId::Native => native_module::emitted(handler, data),
        ModuleId::Passthrough => passthrough::emitted(handler, data),
    }
}

/// Runs `handler` of module `m` on `data`, recording into `ctx`.
pub fn invoke(m: ModuleId, handler: &str, data: &[u8], ctx: &mut Invocation) -> (r: Option<ResultMessage>)
    ensures
        r == outcome(m, handler@, data@),
        final(ctx)@.emissions == old(ctx)@.emissions + emitted(m, handler@, data@),
{
    match m {
        ModuleId::ButtonDriver => button_driver::invoke(handler, data, ctx),
        ModuleId::Native => native_module::invoke(handler, data, ctx),
        ModuleId::Passthrough => passthrough::invoke(handler, data, ctx),
    }
}

/// The result of one dispatch: what the handler returned, the deliveries of
/// what it emitted, and what it logged.
pub struct Dispatched {
    pub result: ResultMessage,
    pub deliveries: Vec<Delivery>,
    pub log: Vec<LogEntry>,
}

/// Runs `handler` of module `m` on `data` in a fresh context, then hands each
/// emission to the subscribers of its channel. `None`, with nothing run, when
/// `m` declares no such handler. The result is the handler's own, whatever
/// the subscriptions.
pub fn dispatch(router: &Router, m: ModuleId, handler: &str, data: &[u8]) -> (r: Option<Dispatched>)
    ensures
        r is None <==> outcome(m, handler@, data@) is None,
        r matches Some(d) ==> Some(d.result) == outcome(m, handler@, data@)
            && d.deliveries@.map_values(|x: Delivery| x@) == route_all(router@, emitted(m, handler@, data@)),
{
    let mut ctx = Invocation::new();
    match invoke(m, handler, data, &mut ctx) {
        None => None,
        Some(result) => {
            assert(ctx@.emissions =~= emitted(m, handler@, data@));
            let deliveries = router.route(&ctx.emissions);
            Some(Dispatched { result, deliveries, log: ctx.log })
        },
    }
}

} // verus!

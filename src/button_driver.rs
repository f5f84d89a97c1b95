//! A driver for a physical button: its one entry point is triggered by the
//! press and announces it on the `button_pressed` channel.
use vstd::prelude::*;
use crate::context::{Invocation, LogLevel};
use crate::ports::{PortKind, PortRegistry, DeclarationConflict, same_name};
use crate::result::{ResultMessage, success};

verus! {

/// The ports this module declares.
pub open spec fn declared_ports() -> Map<Seq<char>, PortKind> {
    map!["entry"@ => PortKind::Entry, "button_pressed"@ => PortKind::Output]
}

/// Declares the entry point `entry` and the output channel `button_pressed`.
pub fn declarations() -> (r: Result<PortRegistry, DeclarationConflict>)
    ensures
        r matches Ok(reg) && reg.wf() && reg@ == declared_ports(),
{
    proof {
        reveal_strlit("entry");
        reveal_strlit("button_pressed");
    }
    let mut reg = PortRegistry::new();
    reg.register_entry("entry")?;
    assert("entry"@ != "button_pressed"@) by {
        assert("entry"@.len() != "button_pressed"@.len());
    }
    reg.register_output("button_pressed")?;
    assert(reg@ =~= declared_ports());
    Ok(reg)
}

/// Announces a press: emits an empty message on `button_pressed`. The
/// triggering message carries nothing and is not read.
pub fn entry(data: &[u8], ctx: &mut Invocation) -> (r: ResultMessage)
    ensures
        r == ResultMessage::Success(None),
        final(ctx)@.emissions == old(ctx)@.emissions.push(("button_pressed"@, Seq::<u8>::empty())),
        final(ctx)@.log == old(ctx)@.log.push((LogLevel::Info, "Button has been pressed, sending output"@)),
{
    ctx.info("Button has been pressed, sending output");
    let empty: [u8; 0] = [];
    ctx.emit("button_pressed", &empty);
    assert(empty@ =~= Seq::<u8>::empty());
    success(None)
}

/// What running `handler` on `data` returns; `None` for an undeclared name.
pub open spec fn outcome(handler: Seq<char>, data: Seq<u8>) -> Option<ResultMessage> {
    if handler == "entry"@ {
        Some(ResultMessage::Success(None))
    } else {
        None
    }
}

/// What running `handler` on `data` emits, in order.
pub open spec fn emitted(handler: Seq<char>, data: Seq<u8>) -> Seq<(Seq<char>, Seq<u8>)> {
    if handler == "entry"@ {
        seq![("button_pressed"@, Seq::<u8>::empty())]
    } else {
        Seq::empty()
    }
}

/// Runs the handler declared as `handler` on `data`; `None` when this module
/// declares no entry point or input handler of that name.
pub fn invoke(handler: &str, data: &[u8], ctx: &mut Invocation) -> (r: Option<ResultMessage>)
    ensures
        r == outcome(handler@, data@),
        final(ctx)@.emissions == old(ctx)@.emissions + emitted(handler@, data@),
        handler@ == "entry"@ ==> r == Some(ResultMessage::Success(None))
            && final(ctx)@.emissions == old(ctx)@.emissions.push(("button_pressed"@, Seq::<u8>::empty()))
            && final(ctx)@.log == old(ctx)@.log.push(
                (LogLevel::Info, "Button has been pressed, sending output"@),
            ),
        handler@ != "entry"@ ==> r is None && final(ctx)@ == old(ctx)@,
{
    if same_name(handler, "entry") {
        let r = entry(data, ctx);
        assert(ctx@.emissions =~= old(ctx)@.emissions + emitted(handler@, data@));
        Some(r)
    } else {
        assert(ctx@.emissions =~= old(ctx)@.emissions + emitted(handler@, data@));
        None
    }
}

} // verus!

//! A natively compiled module with three entry points and two output
//! channels, `output` and `output2`: each entry point forwards its message
//! unchanged to one channel or to both.
use vstd::prelude::*;
use crate::context::{Invocation, InvocationView, LogLevel};
use crate::ports::{PortKind, PortRegistry, DeclarationConflict, same_name};
use crate::result::{ResultMessage, success};

verus! {

/// The ports this module declares.
pub open spec fn declared_ports() -> Map<Seq<char>, PortKind> {
    map![
        "entry"@ => PortKind::Entry,
        "entry2"@ => PortKind::Entry,
        "entry3"@ => PortKind::Entry,
        "output"@ => PortKind::Output,
        "output2"@ => PortKind::Output,
    ]
}

/// Declares the entry points `entry`, `entry2`, `entry3` and the output
/// channels `output`, `output2`.
pub fn declarations() -> (r: Result<PortRegistry, DeclarationConflict>)
    ensures
        r matches Ok(reg) && reg.wf() && reg@ == declared_ports(),
{
    proof {
        reveal_strlit("entry");
        reveal_strlit("entry2");
        reveal_strlit("entry3");
        reveal_strlit("output");
        reveal_strlit("output2");
    }
    let mut reg = PortRegistry::new();
    reg.register_entry("entry")?;
    assert("entry"@.len() != "entry2"@.len());
    reg.register_entry("entry2")?;
    assert("entry"@.len() != "entry3"@.len() && "entry2"@[5] != "entry3"@[5]);
    reg.register_entry("entry3")?;
    assert("output"@[0] != "entry"@[0] && "output"@[0] != "entry2"@[0] && "output"@[0] != "entry3"@[0]);
    reg.register_output("output")?;
    assert("output2"@[0] != "entry"@[0] && "output2"@[0] != "entry2"@[0] && "output2"@[0] != "entry3"@[0]);
    assert("output2"@.len() != "output"@.len());
    reg.register_output("output2")?;
    assert(reg@ =~= declared_ports());
    Ok(reg)
}

/// The record after a handler logs `name` and forwards `data` on each channel
/// of `channels`, in order.
pub open spec fn forwarded(
    before: InvocationView,
    name: Seq<char>,
    data: Seq<u8>,
    channels: Seq<Seq<char>>,
) -> InvocationView {
    InvocationView {
        emissions: before.emissions + channels.map_values(|c: Seq<char>| (c, data)),
        log: before.log.push((LogLevel::Info, name)),
    }
}

/// Forwards `data` unchanged on `output`.
pub fn entry(data: &[u8], ctx: &mut Invocation) -> (r: ResultMessage)
    ensures
        r == ResultMessage::Success(None),
        final(ctx)@ == forwarded(old(ctx)@, "entry"@, data@, seq!["output"@]),
{
    ctx.info("entry");
    ctx.emit("output", data);
    assert(ctx@.emissions =~= forwarded(old(ctx)@, "entry"@, data@, seq!["output"@]).emissions);
    success(None)
}

/// Forwards `data` unchanged on `output2`, and on nothing else.
pub fn entry2(data: &[u8], ctx: &mut Invocation) -> (r: ResultMessage)
    ensures
        r == ResultMessage::Success(None),
        final(ctx)@ == forwarded(old(ctx)@, "entry2"@, data@, seq!["output2"@]),
{
    ctx.info("entry2");
    ctx.emit("output2", data);
    assert(ctx@.emissions =~= forwarded(old(ctx)@, "entry2"@, data@, seq!["output2"@]).emissions);
    success(None)
}

/// Forwards `data` unchanged on `output`, then on `output2`.
pub fn entry3(data: &[u8], ctx: &mut Invocation) -> (r: ResultMessage)
    ensures
        r == ResultMessage::Success(None),
        final(ctx)@ == forwarded(old(ctx)@, "entry3"@, data@, seq!["output"@, "output2"@]),
{
    ctx.info("entry3");
    ctx.emit("output", data);
    ctx.emit("output2", data);
    assert(ctx@.emissions =~= forwarded(old(ctx)@, "entry3"@, data@, seq!["output"@, "output2"@]).emissions);
    success(None)
}

/// What running `handler` on `data` returns; `None` for an undeclared name.
pub open spec fn outcome(handler: Seq<char>, data: Seq<u8>) -> Option<ResultMessage> {
    if handler == "entry"@ || handler == "entry2"@ || handler == "entry3"@ {
        Some(ResultMessage::Success(None))
    } else {
        None
    }
}

/// The channels that `handler` forwards its message on, in order.
pub open spec fn channels_of(handler: Seq<char>) -> Seq<Seq<char>> {
    if handler == "entry"@ {
        seq!["output"@]
    } else if handler == "entry2"@ {
        seq!["output2"@]
    } else if handler == "entry3"@ {
        seq!["output"@, "output2"@]
    } else {
        Seq::empty()
    }
}

/// What running `handler` on `data` emits, in order.
pub open spec fn emitted(handler: Seq<char>, data: Seq<u8>) -> Seq<(Seq<char>, Seq<u8>)> {
    channels_of(handler).map_values(|c: Seq<char>| (c, data))
}

/// Runs the handler declared as `handler` on `data`; `None` when this module
/// declares no entry point or input handler of that name.
pub fn invoke(handler: &str, data: &[u8], ctx: &mut Invocation) -> (r: Option<ResultMessage>)
    ensures
        r == outcome(handler@, data@),
        final(ctx)@.emissions == old(ctx)@.emissions + emitted(handler@, data@),
        handler@ == "entry"@ ==> r == Some(ResultMessage::Success(None))
            && final(ctx)@ == forwarded(old(ctx)@, "entry"@, data@, seq!["output"@]),
        handler@ == "entry2"@ ==> r == Some(ResultMessage::Success(None))
            && final(ctx)@ == forwarded(old(ctx)@, "entry2"@, data@, seq!["output2"@]),
        handler@ == "entry3"@ ==> r == Some(ResultMessage::Success(None))
            && final(ctx)@ == forwarded(old(ctx)@, "entry3"@, data@, seq!["output"@, "output2"@]),
        handler@ != "entry"@ && handler@ != "entry2"@ && handler@ != "entry3"@ ==> r is None && final(ctx)@
            == old(ctx)@,
{
    proof {
        reveal_strlit("entry");
        reveal_strlit("entry2");
        reveal_strlit("entry3");
        assert("entry"@.len() != "entry2"@.len() && "entry"@.len() != "entry3"@.len());
        assert("entry2"@[5] != "entry3"@[5]);
    }
    if same_name(handler, "entry") {
        Some(entry(data, ctx))
    } else if same_name(handler, "entry2") {
        Some(entry2(data, ctx))
    } else if same_name(handler, "entry3") {
        Some(entry3(data, ctx))
    } else {
        assert(ctx@.emissions =~= old(ctx)@.emissions + emitted(handler@, data@));
        None
    }
}

} // verus!

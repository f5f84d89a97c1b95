//! A sandboxed ("hybrid") module with one entry point and one input handler,
//! `input2`, which reads a little-endian 16-bit value from each message it
//! receives and logs it. It declares no output channel.
use vstd::prelude::*;
use crate::codec::{decode_u16_le, le_value};
use crate::context::{Invocation, LogLevel, error_count, lemma_error_count_push};
use crate::ports::{PortKind, PortRegistry, DeclarationConflict, same_name};
use crate::result::{FailureReason, ResultMessage, failure, success};

verus! {

/// The fewest bytes `input2` accepts.
pub const INPUT2_MIN_LEN: usize = 2;

/// The character of decimal digit `d`.
pub open spec fn digit_char(d: nat) -> char {
    if d == 0 { '0' }
    else if d == 1 { '1' }
    else if d == 2 { '2' }
    else if d == 3 { '3' }
    else if d == 4 { '4' }
    else if d == 5 { '5' }
    else if d == 6 { '6' }
    else if d == 7 { '7' }
    else if d == 8 { '8' }
    else { '9' }
}

/// `n` written in decimal, most significant digit first, without leading zeros.
pub open spec fn decimal(n: nat) -> Seq<char>
    decreases n,
{
    if n < 10 {
        seq![digit_char(n)]
    } else {
        decimal(n / 10).push(digit_char(n % 10))
    }
}

/// The log line that reports value `v`.
pub open spec fn value_line(v: nat) -> Seq<char> {
    "Val: "@ + decimal(v)
}

/// Relies on `format!` with `u16`'s `Display`, which writes the value in
/// decimal digits without leading zeros.
#[verifier::external_body]
fn format_value_line(v: u16) -> (r: String)
    ensures
        r@ == value_line(v as nat),
{
    format!("Val: {}", v)
}

/// The ports this module declares.
pub open spec fn declared_ports() -> Map<Seq<char>, PortKind> {
    map!["input2"@ => PortKind::Input, "entry"@ => PortKind::Entry]
}

/// Declares the input handler `input2` and the entry point `entry`.
pub fn declarations() -> (r: Result<PortRegistry, DeclarationConflict>)
    ensures
        r matches Ok(reg) && reg.wf() && reg@ == declared_ports(),
{
    proof {
        reveal_strlit("input2");
        reveal_strlit("entry");
    }
    let mut reg = PortRegistry::new();
    reg.register_input("input2")?;
    assert("entry"@.len() != "input2"@.len());
    reg.register_entry("entry")?;
    assert(reg@ =~= declared_ports());
    Ok(reg)
}

/// Reads a little-endian 16-bit value from the first two bytes of `data` and
/// logs it. A shorter message is reported as `MessageTooShort`, with one
/// error-level log event. Nothing is ever emitted.
pub fn input2(data: &[u8], ctx: &mut Invocation) -> (r: ResultMessage)
    ensures
        final(ctx)@.emissions == old(ctx)@.emissions,
        data@.len() < INPUT2_MIN_LEN ==> r == ResultMessage::Failure(
            FailureReason::MessageTooShort { required: INPUT2_MIN_LEN, actual: data@.len() as usize },
        ) && final(ctx)@.log == old(ctx)@.log.push((LogLevel::Info, "input"@)).push(
            (LogLevel::Error, "Wrong data received"@),
        ) && error_count(final(ctx)@.log) == error_count(old(ctx)@.log) + 1,
        data@.len() >= INPUT2_MIN_LEN ==> r == ResultMessage::Success(None) && final(ctx)@.log
            == old(ctx)@.log.push((LogLevel::Info, "input"@)).push(
            (LogLevel::Info, value_line(le_value(data@[0], data@[1]) as nat)),
        ) && error_count(final(ctx)@.log) == error_count(old(ctx)@.log),
{
    let ghost log0 = ctx@.log;
    ctx.info("input");
    match decode_u16_le(data) {
        None => {
            ctx.error("Wrong data received");
            proof {
                let log1 = log0.push((LogLevel::Info, "input"@));
                lemma_error_count_push(log0, (LogLevel::Info, "input"@));
                lemma_error_count_push(log1, (LogLevel::Error, "Wrong data received"@));
            }
            failure(FailureReason::MessageTooShort { required: INPUT2_MIN_LEN, actual: data.len() })
        },
        Some(val) => {
            let line = format_value_line(val);
            ctx.record(LogLevel::Info, line);
            proof {
                let log1 = log0.push((LogLevel::Info, "input"@));
                lemma_error_count_push(log0, (LogLevel::Info, "input"@));
                lemma_error_count_push(log1, (LogLevel::Info, value_line(val as nat)));
            }
            success(None)
        },
    }
}

/// A pure trigger: logs its name and returns, whatever the message holds.
pub fn entry(data: &[u8], ctx: &mut Invocation) -> (r: ResultMessage)
    ensures
        r == ResultMessage::Success(None),
        final(ctx)@.emissions == old(ctx)@.emissions,
        final(ctx)@.log == old(ctx)@.log.push((LogLevel::Info, "entry"@)),
{
    ctx.info("entry");
    success(None)
}

/// What running `handler` on `data` returns; `None` for an undeclared name.
pub open spec fn outcome(handler: Seq<char>, data: Seq<u8>) -> Option<ResultMessage> {
    if handler == "entry"@ {
        Some(ResultMessage::Success(None))
    } else if handler == "input2"@ {
        if data.len() < INPUT2_MIN_LEN {
            Some(ResultMessage::Failure(
                FailureReason::MessageTooShort { required: INPUT2_MIN_LEN, actual: data.len() as usize },
            ))
        } else {
            Some(ResultMessage::Success(None))
        }
    } else {
        None
    }
}

/// What running `handler` on `data` emits: nothing, as no output is declared.
pub open spec fn emitted(handler: Seq<char>, data: Seq<u8>) -> Seq<(Seq<char>, Seq<u8>)> {
    Seq::empty()
}

/// Runs the handler declared as `handler` on `data`; `None` when this module
/// declares no entry point or input handler of that name.
pub fn invoke(handler: &str, data: &[u8], ctx: &mut Invocation) -> (r: Option<ResultMessage>)
    ensures
        r == outcome(handler@, data@),
        final(ctx)@.emissions == old(ctx)@.emissions + emitted(handler@, data@),
        handler@ == "entry"@ ==> r == Some(ResultMessage::Success(None)) && final(ctx)@.emissions
            == old(ctx)@.emissions && final(ctx)@.log == old(ctx)@.log.push((LogLevel::Info, "entry"@)),
        handler@ == "input2"@ ==> r is Some && final(ctx)@.emissions == old(ctx)@.emissions,
        handler@ == "input2"@ && data@.len() < INPUT2_MIN_LEN ==> r == Some(
            ResultMessage::Failure(
                FailureReason::MessageTooShort { required: INPUT2_MIN_LEN, actual: data@.len() as usize },
            ),
        ),
        handler@ == "input2"@ && data@.len() >= INPUT2_MIN_LEN ==> r == Some(ResultMessage::Success(None))
            && final(ctx)@.log == old(ctx)@.log.push((LogLevel::Info, "input"@)).push(
            (LogLevel::Info, value_line(le_value(data@[0], data@[1]) as nat)),
        ),
        handler@ != "entry"@ && handler@ != "input2"@ ==> r is None && final(ctx)@ == old(ctx)@,
{
    proof {
        reveal_strlit("entry");
        reveal_strlit("input2");
        assert("entry"@.len() != "input2"@.len());
    }
    assert(old(ctx)@.emissions + emitted(handler@, data@) =~= old(ctx)@.emissions);
    if same_name(handler, "input2") {
        Some(input2(data, ctx))
    } else if same_name(handler, "entry") {
        Some(entry(data, ctx))
    } else {
        None
    }
}

} // verus!

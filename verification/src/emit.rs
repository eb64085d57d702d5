//! The entry points: render a message, then hand it to the registry.

use crate::handler::TraceHandler;
use crate::level::Level;
use crate::once::OnceFlag;
use crate::registry::HandlerRegistry;
use crate::style::{lemma_plain_is_unchanged, level_of, prefix_of, presented, suffix_of, Style};
use crate::text::lemma_encode_concat;
use crate::trace_string::{bounded_text, lemma_truncate_append, truncate, TraceString};
use vstd::prelude::*;
use vstd::string::StringSliceAdditionalSpecFns;
use vstd::utf8::encode_utf8;

verus! {

/// The message that a sink is handed for `text` emitted as `style`.
pub open spec fn message(style: Style, color: bool, text: Seq<char>) -> (Level, Seq<char>) {
    (level_of(style), bounded_text(presented(style, color, text)))
}

/// What becomes of an emission.
#[derive(Clone, Copy, Debug, PartialEq, Eq, Structural)]
pub enum Fate {
    /// The registered sink is handed the message.
    Delivered,
    /// No sink is registered and the message is dropped in silence.
    Dropped,
    /// No sink is registered and the emission must not go on: the caller
    /// forgot to register one, and is to fail hard.
    Fatal,
}

/// What becomes of an emission of `style`: it is delivered where a sink is
/// registered; without one it is fatal, but for `Style::Panic`, which is
/// dropped.
pub open spec fn fate_of(registered: bool, style: Style) -> Fate {
    if registered {
        Fate::Delivered
    } else if style == Style::Panic {
        Fate::Dropped
    } else {
        Fate::Fatal
    }
}

/// Without a sink every emission but that of a failing program is fatal, and
/// that one is dropped; with a sink every emission is delivered.
pub proof fn lemma_fate(style: Style)
    ensures
        fate_of(true, style) == Fate::Delivered,
        style != Style::Panic ==> fate_of(false, style) == Fate::Fatal,
        fate_of(false, Style::Panic) == Fate::Dropped,
{
}

/// What would become of an emission of `style` now.
pub fn fate<S: TraceHandler>(registry: &HandlerRegistry<S>, style: Style) -> (fate: Fate)
    ensures
        fate == fate_of(registry.registered(), style),
{
    if registry.query() {
        Fate::Delivered
    } else {
        match style {
            Style::Panic => Fate::Dropped,
            _ => Fate::Fatal,
        }
    }
}

/// The messages delivered after one attempt at a call site: one more where
/// its flag had not fired, the same where it had.
pub open spec fn after_once(
    fired: bool,
    delivered: Seq<(Level, Seq<char>)>,
    msg: (Level, Seq<char>),
) -> Seq<(Level, Seq<char>)> {
    if fired {
        delivered
    } else {
        delivered.push(msg)
    }
}

/// The messages delivered after one attempt after the other at one call
/// site, each with the message of its turn.
pub open spec fn after_attempts(
    fired: bool,
    delivered: Seq<(Level, Seq<char>)>,
    msgs: Seq<(Level, Seq<char>)>,
) -> Seq<(Level, Seq<char>)>
    decreases msgs.len(),
{
    if msgs.len() == 0 {
        delivered
    } else {
        after_attempts(true, after_once(fired, delivered, msgs[0]), msgs.drop_first())
    }
}

/// Once means once: however often a call site is reached, and whatever it
/// would send at each turn, its first attempt delivers and no later one
/// does.
pub proof fn lemma_once_delivers_once(
    delivered: Seq<(Level, Seq<char>)>,
    msgs: Seq<(Level, Seq<char>)>,
)
    ensures
        after_attempts(true, delivered, msgs) == delivered,
        msgs.len() >= 1 ==> after_attempts(false, delivered, msgs) == delivered.push(msgs[0]),
    decreases msgs.len(),
{
    if msgs.len() > 0 {
        lemma_once_delivers_once(delivered, msgs.drop_first());
        lemma_once_delivers_once(delivered.push(msgs[0]), msgs.drop_first());
    }
}

/// Renders `text` as `style` presents it into a fresh buffer: the prefix,
/// the text and the suffix, cut at the capacity.
pub fn render(style: Style, color: bool, text: &str) -> (res: TraceString)
    ensures
        res@ == truncate(encode_utf8(presented(style, color, text@))),
{
    let mut res = TraceString::new();
    res.write_str(style.prefix(color));
    res.write_str(text);
    res.write_str(style.suffix(color));
    proof {
        let p = prefix_of(style, color);
        let s = suffix_of(style, color);
        lemma_encode_concat(p, text@);
        lemma_encode_concat(p + text@, s);
        lemma_truncate_append(encode_utf8(p), encode_utf8(text@));
        lemma_truncate_append(encode_utf8(p) + encode_utf8(text@), encode_utf8(s));
    }
    res
}

/// Emits `text` as `style`: renders it and hands it to the registered sink.
/// An emission that would be fatal is not to be made; one that is dropped
/// changes nothing.
pub fn emit<S: TraceHandler>(
    registry: &mut HandlerRegistry<S>,
    style: Style,
    color: bool,
    text: &str,
)
    requires
        fate_of(old(registry).registered(), style) != Fate::Fatal,
    ensures
        final(registry).registered() == old(registry).registered(),
        old(registry).registered() ==> final(registry).delivered() == old(
            registry,
        ).delivered().push(message(style, color, text@)),
        !old(registry).registered() ==> *final(registry) == *old(registry),
{
    let rendered = render(style, color, text);
    let level = style.level();
    match style {
        Style::Panic => registry.dispatch_panic(level, rendered.to_string()),
        _ => registry.dispatch(level, rendered.to_string()),
    }
}

/// Emits `text` as `style` where the call site's flag has not fired, and
/// fires it. Where it has fired, nothing is rendered and nothing delivered,
/// with or without a sink.
pub fn emit_once<S: TraceHandler>(
    registry: &mut HandlerRegistry<S>,
    flag: &mut OnceFlag,
    style: Style,
    color: bool,
    text: &str,
)
    requires
        !old(flag)@ ==> fate_of(old(registry).registered(), style) != Fate::Fatal,
    ensures
        final(flag)@,
        final(registry).registered() == old(registry).registered(),
        old(registry).registered() ==> final(registry).delivered() == after_once(
            old(flag)@,
            old(registry).delivered(),
            message(style, color, text@),
        ),
        old(flag)@ || !old(registry).registered() ==> *final(registry) == *old(registry),
{
    if flag.try_fire() {
        emit(registry, style, color, text);
    }
}

/// Hands the bounded `text` to the registered sink with severity `level`.
pub fn trace_format<S: TraceHandler>(registry: &mut HandlerRegistry<S>, level: Level, text: &str)
    requires
        old(registry).registered(),
    ensures
        final(registry).registered(),
        final(registry).delivered() == old(registry).delivered().push(
            (level, bounded_text(text@)),
        ),
{
    let rendered = crate::format(text);
    registry.dispatch(level, rendered.to_string());
}

/// Emits `text` as it is, as information.
pub fn trace<S: TraceHandler>(registry: &mut HandlerRegistry<S>, text: &str)
    requires
        old(registry).registered(),
    ensures
        final(registry).registered(),
        final(registry).delivered() == old(registry).delivered().push(
            (Level::Info, bounded_text(text@)),
        ),
{
    proof {
        lemma_plain_is_unchanged(false, text@);
    }
    emit(registry, Style::Plain, false, text);
}

/// Emits `text` and a line end, as information.
pub fn traceln<S: TraceHandler>(registry: &mut HandlerRegistry<S>, color: bool, text: &str)
    requires
        old(registry).registered(),
    ensures
        final(registry).registered(),
        final(registry).delivered() == old(registry).delivered().push(
            message(Style::Line, color, text@),
        ),
{
    emit(registry, Style::Line, color, text);
}

/// Emits `text` as a debug message.
pub fn trace_debug<S: TraceHandler>(registry: &mut HandlerRegistry<S>, color: bool, text: &str)
    requires
        old(registry).registered(),
    ensures
        final(registry).registered(),
        final(registry).delivered() == old(registry).delivered().push(
            message(Style::Debug, color, text@),
        ),
{
    emit(registry, Style::Debug, color, text);
}

/// Emits `text` as an informational message.
pub fn trace_info<S: TraceHandler>(registry: &mut HandlerRegistry<S>, color: bool, text: &str)
    requires
        old(registry).registered(),
    ensures
        final(registry).registered(),
        final(registry).delivered() == old(registry).delivered().push(
            message(Style::Info, color, text@),
        ),
{
    emit(registry, Style::Info, color, text);
}

/// Emits `text` as a warning.
pub fn trace_warning<S: TraceHandler>(registry: &mut HandlerRegistry<S>, color: bool, text: &str)
    requires
        old(registry).registered(),
    ensures
        final(registry).registered(),
        final(registry).delivered() == old(registry).delivered().push(
            message(Style::Warning, color, text@),
        ),
{
    emit(registry, Style::Warning, color, text);
}

/// Emits `text` as an error.
pub fn trace_error<S: TraceHandler>(registry: &mut HandlerRegistry<S>, color: bool, text: &str)
    requires
        old(registry).registered(),
    ensures
        final(registry).registered(),
        final(registry).delivered() == old(registry).delivered().push(
            message(Style::Error, color, text@),
        ),
{
    emit(registry, Style::Error, color, text);
}

/// Emits `text` from a failing program: it is delivered as an error where a
/// sink is registered, and dropped in silence where none is.
pub fn trace_panic<S: TraceHandler>(registry: &mut HandlerRegistry<S>, color: bool, text: &str)
    ensures
        final(registry).registered() == old(registry).registered(),
        old(registry).registered() ==> final(registry).delivered() == old(
            registry,
        ).delivered().push(message(Style::Panic, color, text@)),
        !old(registry).registered() ==> *final(registry) == *old(registry),
{
    emit(registry, Style::Panic, color, text);
}

/// Emits `text` as it is, as information, at the first attempt of its call
/// site only.
pub fn trace_once<S: TraceHandler>(
    registry: &mut HandlerRegistry<S>,
    flag: &mut OnceFlag,
    text: &str,
)
    requires
        !old(flag)@ ==> old(registry).registered(),
    ensures
        final(flag)@,
        final(registry).registered() == old(registry).registered(),
        old(registry).registered() ==> final(registry).delivered() == after_once(
            old(flag)@,
            old(registry).delivered(),
            (Level::Info, bounded_text(text@)),
        ),
        old(flag)@ ==> *final(registry) == *old(registry),
{
    if flag.try_fire() {
        trace(registry, text);
    }
}

/// Emits `text` and a line end, as information, at the first attempt of its
/// call site only.
pub fn traceln_once<S: TraceHandler>(
    registry: &mut HandlerRegistry<S>,
    flag: &mut OnceFlag,
    color: bool,
    text: &str,
)
    requires
        !old(flag)@ ==> old(registry).registered(),
    ensures
        final(flag)@,
        final(registry).registered() == old(registry).registered(),
        old(registry).registered() ==> final(registry).delivered() == after_once(
            old(flag)@,
            old(registry).delivered(),
            message(Style::Line, color, text@),
        ),
        old(flag)@ ==> *final(registry) == *old(registry),
{
    emit_once(registry, flag, Style::Line, color, text);
}

/// Emits `text` as a debug message at the first attempt of its call site
/// only.
pub fn trace_debug_once<S: TraceHandler>(
    registry: &mut HandlerRegistry<S>,
    flag: &mut OnceFlag,
    color: bool,
    text: &str,
)
    requires
        !old(flag)@ ==> old(registry).registered(),
    ensures
        final(flag)@,
        final(registry).registered() == old(registry).registered(),
        old(registry).registered() ==> final(registry).delivered() == after_once(
            old(flag)@,
            old(registry).delivered(),
            message(Style::Debug, color, text@),
        ),
        old(flag)@ ==> *final(registry) == *old(registry),
{
    emit_once(registry, flag, Style::Debug, color, text);
}

/// Emits `text` as an informational message at the first attempt of its
/// call site only.
pub fn trace_info_once<S: TraceHandler>(
    registry: &mut HandlerRegistry<S>,
    flag: &mut OnceFlag,
    color: bool,
    text: &str,
)
    requires
        !old(flag)@ ==> old(registry).registered(),
    ensures
        final(flag)@,
        final(registry).registered() == old(registry).registered(),
        old(registry).registered() ==> final(registry).delivered() == after_once(
            old(flag)@,
            old(registry).delivered(),
            message(Style::Info, color, text@),
        ),
        old(flag)@ ==> *final(registry) == *old(registry),
{
    emit_once(registry, flag, Style::Info, color, text);
}

/// Emits `text` as a warning at the first attempt of its call site only.
pub fn trace_warning_once<S: TraceHandler>(
    registry: &mut HandlerRegistry<S>,
    flag: &mut OnceFlag,
    color: bool,
    text: &str,
)
    requires
        !old(flag)@ ==> old(registry).registered(),
    ensures
        final(flag)@,
        final(registry).registered() == old(registry).registered(),
        old(registry).registered() ==> final(registry).delivered() == after_once(
            old(flag)@,
            old(registry).delivered(),
            message(Style::Warning, color, text@),
        ),
        old(flag)@ ==> *final(registry) == *old(registry),
{
    emit_once(registry, flag, Style::Warning, color, text);
}

/// Emits `text` as an error at the first attempt of its call site only.
pub fn trace_error_once<S: TraceHandler>(
    registry: &mut HandlerRegistry<S>,
    flag: &mut OnceFlag,
    color: bool,
    text: &str,
)
    requires
        !old(flag)@ ==> old(registry).registered(),
    ensures
        final(flag)@,
        final(registry).registered() == old(registry).registered(),
        old(registry).registered() ==> final(registry).delivered() == after_once(
            old(flag)@,
            old(registry).delivered(),
            message(Style::Error, color, text@),
        ),
        old(flag)@ ==> *final(registry) == *old(registry),
{
    emit_once(registry, flag, Style::Error, color, text);
}

/// Emits `text` from a failing program at the first attempt of its call site
/// only; without a registered sink it is dropped in silence.
pub fn trace_panic_once<S: TraceHandler>(
    registry: &mut HandlerRegistry<S>,
    flag: &mut OnceFlag,
    color: bool,
    text: &str,
)
    ensures
        final(flag)@,
        final(registry).registered() == old(registry).registered(),
        old(registry).registered() ==> final(registry).delivered() == after_once(
            old(flag)@,
            old(registry).delivered(),
            message(Style::Panic, color, text@),
        ),
        old(flag)@ || !old(registry).registered() ==> *final(registry) == *old(registry),
{
    emit_once(registry, flag, Style::Panic, color, text);
}

} // verus!

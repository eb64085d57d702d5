//! Allocation-free tracing for small targets.
//!
//! A message is rendered into a buffer of fixed capacity
//! ([`TraceString`]), which keeps the start of what does not fit, and is
//! handed to the one sink ([`TraceHandler`]) that a registry
//! ([`HandlerRegistry`]) holds. The entry points ([`trace`], [`traceln`],
//! [`trace_debug`] and the others) wrap the text as their [`Style`] says
//! before it is bounded; their `_once` forms send at the first attempt of a
//! call site only, which an [`OnceFlag`] remembers.
//!
//! Nothing here is global and nothing allocates: the caller owns the
//! registry and the flags, and exclusive access to them is the critical
//! section.

pub mod emit;
pub mod handler;
pub mod level;
pub mod once;
pub mod registry;
pub mod style;
pub mod text;
pub mod trace_string;

pub use emit::Fate;
pub use emit::{
    emit, emit_once, fate, render, trace, trace_debug, trace_debug_once, trace_error,
    trace_error_once, trace_format, trace_info, trace_info_once, trace_once, trace_panic,
    trace_panic_once, trace_warning, trace_warning_once, traceln, traceln_once,
};
pub use handler::FnHandler;
pub use handler::TraceHandler;
pub use level::Level;
pub use once::OnceFlag;
pub use registry::HandlerRegistry;
pub use style::Style;
pub use trace_string::TraceString;
pub use trace_string::TRACE_FORMAT_BUFFER_SIZE;

use text::text_of;
use trace_string::{bounded_text, lemma_bounded_text, truncate};
use vstd::prelude::*;
use vstd::string::StringSliceAdditionalSpecFns;

verus! {

/// Renders `text` into a fresh buffer: its first
/// [`TRACE_FORMAT_BUFFER_SIZE`] bytes, or all of them where there are fewer.
pub fn format(text: &str) -> (res: TraceString)
    ensures
        res@ == truncate(text.spec_bytes()),
        text.spec_bytes().len() < TRACE_FORMAT_BUFFER_SIZE ==> res@ == text.spec_bytes(),
        text.spec_bytes().len() >= TRACE_FORMAT_BUFFER_SIZE ==> res@.len()
            == TRACE_FORMAT_BUFFER_SIZE && res@ == text.spec_bytes().subrange(
            0,
            TRACE_FORMAT_BUFFER_SIZE as int,
        ),
        text_of(res@) == bounded_text(text@),
        text.spec_bytes().len() <= TRACE_FORMAT_BUFFER_SIZE ==> text_of(res@) == text@,
{
    let mut res = TraceString::new();
    res.write_str(text);
    proof {
        lemma_bounded_text(text@);
    }
    res
}

} // verus!

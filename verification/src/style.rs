//! How each kind of emission presents a message.
//!
//! A message is wrapped before it is bounded: the label, the colour codes and
//! the line end count against the capacity like the text itself.

use crate::level::Level;
use vstd::prelude::*;

verus! {

/// The kinds of emission.
#[derive(Clone, Copy, Debug, PartialEq, Eq, Structural)]
pub enum Style {
    /// The text as it is.
    Plain,
    /// The text and a line end.
    Line,
    /// A debug message, labelled, on a line of its own.
    Debug,
    /// An informational message, labelled, on a line of its own.
    Info,
    /// A warning, labelled, on a line of its own.
    Warning,
    /// An error, labelled, on a line of its own.
    Error,
    /// A message sent while the program fails, labelled, on a line of its
    /// own. It goes the way that cannot fail.
    Panic,
}

/// The severity that an emission of this kind carries.
pub open spec fn level_of(style: Style) -> Level {
    match style {
        Style::Plain => Level::Info,
        Style::Line => Level::Info,
        Style::Debug => Level::Debug,
        Style::Info => Level::Info,
        Style::Warning => Level::Warning,
        Style::Error => Level::Error,
        Style::Panic => Level::Error,
    }
}

/// True for the kinds that carry a label.
pub open spec fn is_labelled(style: Style) -> bool {
    style != Style::Plain && style != Style::Line
}

/// The label of a labelled kind.
pub open spec fn label_of(style: Style) -> Seq<char> {
    match style {
        Style::Debug => "DEBUG"@,
        Style::Info => "INFO"@,
        Style::Warning => "WARNING"@,
        Style::Error => "ERROR"@,
        Style::Panic => "PANIC"@,
        _ => Seq::empty(),
    }
}

/// The escape sequence that a kind starts with where colour is on: magenta
/// for debug messages, green for information, yellow for warnings, red for
/// errors and panics, and the reset sequence for a plain line.
pub open spec fn color_of(style: Style) -> Seq<char> {
    match style {
        Style::Plain => Seq::empty(),
        Style::Line => reset(),
        Style::Debug => "\x1b[35m"@,
        Style::Info => "\x1b[32m"@,
        Style::Warning => "\x1b[33m"@,
        Style::Error => "\x1b[31m"@,
        Style::Panic => "\x1b[31m"@,
    }
}

/// The escape sequence that ends all colour.
pub open spec fn reset() -> Seq<char> {
    "\x1b[0m"@
}

/// The line end.
pub open spec fn line_end() -> Seq<char> {
    "\r\n"@
}

/// What stands before the text: the colour of the kind where colour is on,
/// then the label of a labelled kind, a colon and a space.
pub open spec fn prefix_of(style: Style, color: bool) -> Seq<char> {
    let colored = if color {
        color_of(style)
    } else {
        Seq::empty()
    };
    if is_labelled(style) {
        colored + label_of(style) + ": "@
    } else {
        colored
    }
}

/// What stands after the text: behind a labelled kind the reset sequence
/// where colour is on, and behind every kind but the plain one the line end.
pub open spec fn suffix_of(style: Style, color: bool) -> Seq<char> {
    if style == Style::Plain {
        Seq::empty()
    } else if color && is_labelled(style) {
        reset() + line_end()
    } else {
        line_end()
    }
}

/// The text as this kind of emission presents it.
pub open spec fn presented(style: Style, color: bool, text: Seq<char>) -> Seq<char> {
    prefix_of(style, color) + text + suffix_of(style, color)
}

impl Style {
    /// The severity that an emission of this kind carries.
    pub fn level(self) -> (level: Level)
        ensures
            level == level_of(self),
    {
        match self {
            Style::Plain => Level::Info,
            Style::Line => Level::Info,
            Style::Debug => Level::Debug,
            Style::Info => Level::Info,
            Style::Warning => Level::Warning,
            Style::Error => Level::Error,
            Style::Panic => Level::Error,
        }
    }

    /// What stands before the text.
    pub fn prefix(self, color: bool) -> (s: &'static str)
        ensures
            s@ == prefix_of(self, color),
    {
        proof {
            lemma_prefix_literals();
        }
        match self {
            Style::Plain => "",
            Style::Line => if color {
                "\x1b[0m"
            } else {
                ""
            },
            Style::Debug => if color {
                "\x1b[35mDEBUG: "
            } else {
                "DEBUG: "
            },
            Style::Info => if color {
                "\x1b[32mINFO: "
            } else {
                "INFO: "
            },
            Style::Warning => if color {
                "\x1b[33mWARNING: "
            } else {
                "WARNING: "
            },
            Style::Error => if color {
                "\x1b[31mERROR: "
            } else {
                "ERROR: "
            },
            Style::Panic => if color {
                "\x1b[31mPANIC: "
            } else {
                "PANIC: "
            },
        }
    }

    /// What stands after the text.
    pub fn suffix(self, color: bool) -> (s: &'static str)
        ensures
            s@ == suffix_of(self, color),
    {
        proof {
            lemma_suffix_literals();
        }
        match self {
            Style::Plain => "",
            Style::Line => "\r\n",
            _ => if color {
                "\x1b[0m\r\n"
            } else {
                "\r\n"
            },
        }
    }
}

/// Plain text is presented as it is.
pub proof fn lemma_plain_is_unchanged(color: bool, text: Seq<char>)
    ensures
        presented(Style::Plain, color, text) == text,
{
    assert(presented(Style::Plain, color, text) =~= text);
}

/// Each prefix written in one piece is the colour, the label, the colon and
/// the space in a row.
proof fn lemma_prefix_literals()
    ensures
        ""@ == Seq::<char>::empty(),
        "DEBUG: "@ == "DEBUG"@ + ": "@,
        "INFO: "@ == "INFO"@ + ": "@,
        "WARNING: "@ == "WARNING"@ + ": "@,
        "ERROR: "@ == "ERROR"@ + ": "@,
        "PANIC: "@ == "PANIC"@ + ": "@,
        "\x1b[35mDEBUG: "@ == "\x1b[35m"@ + "DEBUG"@ + ": "@,
        "\x1b[32mINFO: "@ == "\x1b[32m"@ + "INFO"@ + ": "@,
        "\x1b[33mWARNING: "@ == "\x1b[33m"@ + "WARNING"@ + ": "@,
        "\x1b[31mERROR: "@ == "\x1b[31m"@ + "ERROR"@ + ": "@,
        "\x1b[31mPANIC: "@ == "\x1b[31m"@ + "PANIC"@ + ": "@,
{
    reveal_strlit("");
    reveal_strlit(": ");
    reveal_strlit("DEBUG");
    reveal_strlit("INFO");
    reveal_strlit("WARNING");
    reveal_strlit("ERROR");
    reveal_strlit("PANIC");
    reveal_strlit("\x1b[35m");
    reveal_strlit("\x1b[32m");
    reveal_strlit("\x1b[33m");
    reveal_strlit("\x1b[31m");
    reveal_strlit("DEBUG: ");
    reveal_strlit("INFO: ");
    reveal_strlit("WARNING: ");
    reveal_strlit("ERROR: ");
    reveal_strlit("PANIC: ");
    reveal_strlit("\x1b[35mDEBUG: ");
    reveal_strlit("\x1b[32mINFO: ");
    reveal_strlit("\x1b[33mWARNING: ");
    reveal_strlit("\x1b[31mERROR: ");
    reveal_strlit("\x1b[31mPANIC: ");
    assert(""@ =~= Seq::<char>::empty());
    assert("DEBUG: "@ =~= "DEBUG"@ + ": "@);
    assert("INFO: "@ =~= "INFO"@ + ": "@);
    assert("WARNING: "@ =~= "WARNING"@ + ": "@);
    assert("ERROR: "@ =~= "ERROR"@ + ": "@);
    assert("PANIC: "@ =~= "PANIC"@ + ": "@);
    assert("\x1b[35mDEBUG: "@ =~= "\x1b[35m"@ + "DEBUG"@ + ": "@);
    assert("\x1b[32mINFO: "@ =~= "\x1b[32m"@ + "INFO"@ + ": "@);
    assert("\x1b[33mWARNING: "@ =~= "\x1b[33m"@ + "WARNING"@ + ": "@);
    assert("\x1b[31mERROR: "@ =~= "\x1b[31m"@ + "ERROR"@ + ": "@);
    assert("\x1b[31mPANIC: "@ =~= "\x1b[31m"@ + "PANIC"@ + ": "@);
}

/// The suffix written in one piece is the reset sequence and the line end in
/// a row.
proof fn lemma_suffix_literals()
    ensures
        ""@ == Seq::<char>::empty(),
        "\x1b[0m\r\n"@ == "\x1b[0m"@ + "\r\n"@,
{
    reveal_strlit("");
    reveal_strlit("\x1b[0m");
    reveal_strlit("\r\n");
    reveal_strlit("\x1b[0m\r\n");
    assert(""@ =~= Seq::<char>::empty());
    assert("\x1b[0m\r\n"@ =~= "\x1b[0m"@ + "\r\n"@);
}

} // verus!

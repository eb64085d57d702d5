use std::cell::RefCell;
use std::rc::Rc;

use trace::{Fate, FnHandler, HandlerRegistry, Level, OnceFlag, Style, TraceString};

#[derive(Clone)]
struct TraceResult {
    level: Level,
    msg: TraceString,
}

impl TraceResult {
    fn new() -> Self {
        Self {
            level: Level::Debug,
            msg: TraceString::new(),
        }
    }
}

struct TestTraceHandler {
    buffer: RefCell<TraceResult>,
    count: RefCell<usize>,
}

impl TestTraceHandler {
    fn new() -> Self {
        Self {
            buffer: RefCell::new(TraceResult::new()),
            count: RefCell::new(0),
        }
    }

    fn get_result(&self) -> TraceResult {
        let res = self.buffer.borrow().clone();
        println!(
            "get_result level: {:?}, msg: {}",
            res.level,
            res.msg.to_string()
        );
        res
    }

    fn messages(&self) -> usize {
        *self.count.borrow()
    }

    fn trace_write(&self, level: Level, msg: &str) {
        println!("Got msg {}", msg);

        let mut current_ref = self.buffer.borrow_mut();
        current_ref.msg = trace::format(&format!("{}{}", current_ref.msg.to_string(), msg));
        current_ref.level = level;
        *self.count.borrow_mut() += 1;
    }
}

type Sink = FnHandler<Box<dyn Fn(Level, &str)>>;

fn sink_of(handler: &Rc<TestTraceHandler>) -> Sink {
    let handler = handler.clone();
    FnHandler::new(Box::new(move |level: Level, msg: &str| {
        handler.trace_write(level, msg)
    }))
}

fn registered() -> (Rc<TestTraceHandler>, HandlerRegistry<Sink>) {
    let handler = Rc::new(TestTraceHandler::new());
    let mut registry = HandlerRegistry::new();
    registry.setup(sink_of(&handler));
    (handler, registry)
}

const COLOR: bool = true;

const STRING: &str = "Hello, World!";

const STRING_NEWLINE: &str = "\u{1b}[0mHello, World!\r\n";

const STRING_DEBUG: &str = "\u{1b}[35mDEBUG: Hello, World!\u{1b}[0m\r\n";

const STRING_INFO: &str = "\u{1b}[32mINFO: Hello, World!\u{1b}[0m\r\n";

const STRING_WARNING: &str = "\u{1b}[33mWARNING: Hello, World!\u{1b}[0m\r\n";

const STRING_ERROR: &str = "\u{1b}[31mERROR: Hello, World!\u{1b}[0m\r\n";

const STRING_PANIC: &str = "\u{1b}[31mPANIC: Hello, World!\u{1b}[0m\r\n";

#[test]
fn trace_string() {
    let (handler, mut registry) = registered();

    trace::trace(&mut registry, &format!("{}", STRING));
    let res = handler.get_result();
    assert_eq!(Level::Info, res.level);
    assert_eq!(STRING, res.msg.to_string());
}

#[test]
fn trace_newline() {
    let (handler, mut registry) = registered();

    trace::traceln(&mut registry, COLOR, &format!("{}", STRING));
    let res = handler.get_result();
    assert_eq!(Level::Info, res.level);
    assert_eq!(STRING_NEWLINE, res.msg.to_string());
}

#[test]
fn trace_debug() {
    let (handler, mut registry) = registered();

    trace::trace_debug(&mut registry, COLOR, &format!("{}", STRING));
    let res = handler.get_result();
    assert_eq!(Level::Debug, res.level);
    assert_eq!(STRING_DEBUG, res.msg.to_string());
}

#[test]
fn trace_info() {
    let (handler, mut registry) = registered();

    trace::trace_info(&mut registry, COLOR, &format!("{}", STRING));
    let res = handler.get_result();
    assert_eq!(Level::Info, res.level);
    assert_eq!(STRING_INFO, res.msg.to_string());
}

#[test]
fn trace_warning() {
    let (handler, mut registry) = registered();

    trace::trace_warning(&mut registry, COLOR, &format!("{}", STRING));
    let res = handler.get_result();
    assert_eq!(Level::Warning, res.level);
    assert_eq!(STRING_WARNING, res.msg.to_string());
}

#[test]
fn trace_error() {
    let (handler, mut registry) = registered();

    trace::trace_error(&mut registry, COLOR, &format!("{}", STRING));
    let res = handler.get_result();
    assert_eq!(Level::Error, res.level);
    assert_eq!(STRING_ERROR, res.msg.to_string());
}

#[test]
fn trace_panic() {
    let (handler, mut registry) = registered();

    trace::trace_panic(&mut registry, COLOR, &format!("{}", STRING));
    let res = handler.get_result();
    assert_eq!(Level::Error, res.level);
    assert_eq!(STRING_PANIC, res.msg.to_string());
}

#[test]
fn trace_once_only_traces_once() {
    let (handler, mut registry) = registered();
    let mut site = OnceFlag::new();

    let mut trace = || {
        trace::trace_once(&mut registry, &mut site, &format!("{}", STRING));
    };
    trace();
    trace();

    let res = handler.get_result();
    assert_eq!(STRING, res.msg.to_string());
}

#[test]
fn trace_ln_only_traces_once() {
    let (handler, mut registry) = registered();
    let mut site = OnceFlag::new();

    let mut traceln = || {
        trace::traceln_once(&mut registry, &mut site, COLOR, &format!("{}", STRING));
    };
    traceln();
    traceln();

    let res = handler.get_result();
    assert_eq!(STRING_NEWLINE, res.msg.to_string());
}

#[test]
fn trace_debug_only_traces_once() {
    let (handler, mut registry) = registered();
    let mut site = OnceFlag::new();

    let mut trace_debug = || {
        trace::trace_debug_once(&mut registry, &mut site, COLOR, &format!("{}", STRING));
    };
    trace_debug();
    trace_debug();

    let res = handler.get_result();
    assert_eq!(STRING_DEBUG, res.msg.to_string());
}

#[test]
fn trace_info_only_traces_once() {
    let (handler, mut registry) = registered();
    let mut site = OnceFlag::new();

    let mut trace_info = || {
        trace::trace_info_once(&mut registry, &mut site, COLOR, &format!("{}", STRING));
    };
    trace_info();
    trace_info();

    let res = handler.get_result();
    assert_eq!(STRING_INFO, res.msg.to_string());
}

#[test]
fn trace_warning_once_only_traces_once() {
    let (handler, mut registry) = registered();
    let mut site = OnceFlag::new();

    let mut warn = || {
        trace::trace_warning_once(&mut registry, &mut site, COLOR, &format!("{}", STRING));
    };
    warn();
    warn();

    let res = handler.get_result();
    assert_eq!(STRING_WARNING, res.msg.to_string());
}

#[test]
fn trace_error_only_traces_once() {
    let (handler, mut registry) = registered();
    let mut site = OnceFlag::new();

    let mut trace_info = || {
        trace::trace_error_once(&mut registry, &mut site, COLOR, &format!("{}", STRING));
    };
    trace_info();
    trace_info();

    let res = handler.get_result();
    assert_eq!(STRING_ERROR, res.msg.to_string());
}

#[test]
fn trace_panic_only_traces_once() {
    let (handler, mut registry) = registered();
    let mut site = OnceFlag::new();

    trace::trace_panic_once(&mut registry, &mut site, COLOR, STRING);
    trace::trace_panic_once(&mut registry, &mut site, COLOR, STRING);

    let res = handler.get_result();
    assert_eq!(Level::Error, res.level);
    assert_eq!(STRING_PANIC, res.msg.to_string());
    assert_eq!(handler.messages(), 1);
}

#[test]
fn formatted_arguments_arrive_as_one_message() {
    let (handler, mut registry) = registered();

    trace::trace(&mut registry, &format!("Hello, {}!", "World"));

    assert_eq!(handler.messages(), 1);
    let res = handler.get_result();
    assert_eq!("Hello, World!", res.msg.to_string());
    assert_eq!(Level::Info, res.level);
}

#[test]
fn newline_without_color_has_no_reset_sequence() {
    let (handler, mut registry) = registered();

    trace::traceln(&mut registry, false, "Hello, World!");

    assert_eq!("Hello, World!\r\n", handler.get_result().msg.to_string());
    assert_eq!(Level::Info, handler.get_result().level);
}

#[test]
fn labels_without_color_are_plain() {
    let (handler, mut registry) = registered();
    trace::trace_debug(&mut registry, false, STRING);
    assert_eq!("DEBUG: Hello, World!\r\n", handler.get_result().msg.to_string());
    assert_eq!(Level::Debug, handler.get_result().level);

    let (handler, mut registry) = registered();
    trace::trace_info(&mut registry, false, STRING);
    assert_eq!("INFO: Hello, World!\r\n", handler.get_result().msg.to_string());
    assert_eq!(Level::Info, handler.get_result().level);

    let (handler, mut registry) = registered();
    trace::trace_warning(&mut registry, false, STRING);
    assert_eq!("WARNING: Hello, World!\r\n", handler.get_result().msg.to_string());
    assert_eq!(Level::Warning, handler.get_result().level);

    let (handler, mut registry) = registered();
    trace::trace_error(&mut registry, false, STRING);
    assert_eq!("ERROR: Hello, World!\r\n", handler.get_result().msg.to_string());
    assert_eq!(Level::Error, handler.get_result().level);

    let (handler, mut registry) = registered();
    trace::trace_panic(&mut registry, false, STRING);
    assert_eq!("PANIC: Hello, World!\r\n", handler.get_result().msg.to_string());
    assert_eq!(Level::Error, handler.get_result().level);
}

#[test]
fn styles_carry_their_levels() {
    assert_eq!(Style::Plain.level(), Level::Info);
    assert_eq!(Style::Line.level(), Level::Info);
    assert_eq!(Style::Debug.level(), Level::Debug);
    assert_eq!(Style::Info.level(), Level::Info);
    assert_eq!(Style::Warning.level(), Level::Warning);
    assert_eq!(Style::Error.level(), Level::Error);
    assert_eq!(Style::Panic.level(), Level::Error);
}

#[test]
fn styles_have_their_prefixes_and_suffixes() {
    assert_eq!(Style::Plain.prefix(true), "");
    assert_eq!(Style::Plain.prefix(false), "");
    assert_eq!(Style::Plain.suffix(true), "");
    assert_eq!(Style::Plain.suffix(false), "");
    assert_eq!(Style::Line.prefix(true), "\x1b[0m");
    assert_eq!(Style::Line.prefix(false), "");
    assert_eq!(Style::Line.suffix(true), "\r\n");
    assert_eq!(Style::Line.suffix(false), "\r\n");
    assert_eq!(Style::Debug.prefix(true), "\x1b[35mDEBUG: ");
    assert_eq!(Style::Debug.prefix(false), "DEBUG: ");
    assert_eq!(Style::Info.prefix(true), "\x1b[32mINFO: ");
    assert_eq!(Style::Info.prefix(false), "INFO: ");
    assert_eq!(Style::Warning.prefix(true), "\x1b[33mWARNING: ");
    assert_eq!(Style::Warning.prefix(false), "WARNING: ");
    assert_eq!(Style::Error.prefix(true), "\x1b[31mERROR: ");
    assert_eq!(Style::Error.prefix(false), "ERROR: ");
    assert_eq!(Style::Panic.prefix(true), "\x1b[31mPANIC: ");
    assert_eq!(Style::Panic.prefix(false), "PANIC: ");
    for style in [
        Style::Debug,
        Style::Info,
        Style::Warning,
        Style::Error,
        Style::Panic,
    ] {
        assert_eq!(style.suffix(true), "\x1b[0m\r\n");
        assert_eq!(style.suffix(false), "\r\n");
    }
}

#[test]
fn render_wraps_before_it_bounds() {
    let rendered = trace::render(Style::Warning, true, "low battery");
    assert_eq!(
        rendered.to_string(),
        "\x1b[33mWARNING: low battery\x1b[0m\r\n"
    );
    assert_eq!(rendered.length(), 5 + 9 + 11 + 4 + 2);

    // The label counts against the capacity: of 1024 bytes the prefix takes
    // 7, the text gets the other 1017, and the line end is lost.
    let long = "x".repeat(2000);
    let rendered = trace::render(Style::Debug, false, &long);
    assert_eq!(rendered.length(), 1024);
    assert_eq!(
        rendered.to_string(),
        format!("DEBUG: {}", "x".repeat(1017))
    );

    // Room for the text and one byte of the line end.
    let text = "y".repeat(1024 - 7 - 1);
    let rendered = trace::render(Style::Debug, false, &text);
    assert_eq!(rendered.length(), 1024);
    assert_eq!(rendered.to_string(), format!("DEBUG: {}\r", text));
}

#[test]
fn emit_sends_what_render_gives() {
    let (handler, mut registry) = registered();
    trace::emit(&mut registry, Style::Error, true, "disk full");
    assert_eq!(handler.messages(), 1);
    assert_eq!(
        handler.get_result().msg.to_string(),
        trace::render(Style::Error, true, "disk full").to_string()
    );
    assert_eq!(handler.get_result().level, Level::Error);

    let (handler, mut registry) = registered();
    trace::emit(&mut registry, Style::Plain, true, STRING);
    assert_eq!(handler.get_result().msg.to_string(), STRING);
    assert_eq!(handler.get_result().level, Level::Info);
}

#[test]
fn trace_format_keeps_the_level_it_is_given() {
    for level in [Level::Debug, Level::Info, Level::Warning, Level::Error] {
        let (handler, mut registry) = registered();
        trace::trace_format(
            &mut registry,
            level,
            &format!("Raw access to the underlying trace function\n"),
        );
        let res = handler.get_result();
        assert_eq!(level, res.level);
        assert_eq!(
            "Raw access to the underlying trace function\n",
            res.msg.to_string()
        );
        assert_eq!(handler.messages(), 1);
    }
}

#[test]
fn long_messages_arrive_cut_at_the_capacity() {
    let (handler, mut registry) = registered();
    let long = "0123456789".repeat(200);

    trace::trace(&mut registry, &long);

    let res = handler.get_result();
    assert_eq!(res.msg.length(), 1024);
    assert_eq!(res.msg.to_string(), &long[..1024]);
}

#[test]
fn once_fires_once_whatever_the_loop_count() {
    let (handler, mut registry) = registered();
    let mut site = OnceFlag::new();

    for turn in 0..5 {
        trace::trace_info_once(&mut registry, &mut site, false, &format!("turn {}", turn));
    }

    assert_eq!(handler.messages(), 1);
    assert_eq!(handler.get_result().msg.to_string(), "INFO: turn 0\r\n");
    assert!(site.has_fired());
}

#[test]
fn call_sites_fire_independently() {
    let (handler, mut registry) = registered();
    let mut first = OnceFlag::new();
    let mut second = OnceFlag::new();

    for _ in 0..2 {
        trace::trace_once(&mut registry, &mut first, "a");
        trace::trace_once(&mut registry, &mut second, "b");
    }

    assert_eq!(handler.messages(), 2);
    assert_eq!(handler.get_result().msg.to_string(), "ab");
}

#[test]
fn a_fired_site_needs_no_sink() {
    let (handler, mut registry) = registered();
    let mut site = OnceFlag::new();
    trace::emit_once(&mut registry, &mut site, Style::Line, false, "first");
    registry.cleanup();

    trace::emit_once(&mut registry, &mut site, Style::Line, false, "second");
    trace::trace_once(&mut registry, &mut site, "third");

    assert_eq!(handler.messages(), 1);
    assert_eq!(handler.get_result().msg.to_string(), "first\r\n");
    assert!(!registry.query());
}

#[test]
fn panic_path_without_a_sink_is_silent() {
    let mut registry: HandlerRegistry<Sink> = HandlerRegistry::new();
    let mut site = OnceFlag::new();

    trace::trace_panic(&mut registry, true, STRING);
    trace::emit(&mut registry, Style::Panic, false, STRING);
    trace::trace_panic_once(&mut registry, &mut site, true, STRING);

    assert!(!registry.query());
    assert!(site.has_fired());

    // Nothing was kept for a sink that comes later.
    let handler = Rc::new(TestTraceHandler::new());
    registry.setup(sink_of(&handler));
    assert_eq!(handler.messages(), 0);
    trace::trace_panic(&mut registry, true, STRING);
    assert_eq!(handler.messages(), 1);
    assert_eq!(handler.get_result().msg.to_string(), STRING_PANIC);
}

const STYLES: [Style; 7] = [
    Style::Plain,
    Style::Line,
    Style::Debug,
    Style::Info,
    Style::Warning,
    Style::Error,
    Style::Panic,
];

#[test]
fn without_a_sink_only_the_panic_path_is_not_fatal() {
    let registry: HandlerRegistry<Sink> = HandlerRegistry::new();
    for style in STYLES {
        let expected = if style == Style::Panic {
            Fate::Dropped
        } else {
            Fate::Fatal
        };
        assert_eq!(trace::fate(&registry, style), expected);
    }
}

#[test]
fn with_a_sink_every_emission_is_delivered() {
    let (handler, mut registry) = registered();
    for style in STYLES {
        assert_eq!(trace::fate(&registry, style), Fate::Delivered);
        trace::emit(&mut registry, style, false, "x");
    }
    assert_eq!(handler.messages(), 7);
    assert_eq!(
        handler.get_result().msg.to_string(),
        "xx\r\nDEBUG: x\r\nINFO: x\r\nWARNING: x\r\nERROR: x\r\nPANIC: x\r\n"
    );
}

#[test]
fn after_cleanup_emission_is_fatal_again() {
    let (handler, mut registry) = registered();
    assert_eq!(trace::fate(&registry, Style::Info), Fate::Delivered);
    trace::trace_info(&mut registry, false, "still there");

    registry.cleanup();

    assert!(!registry.query());
    assert_eq!(trace::fate(&registry, Style::Info), Fate::Fatal);
    assert_eq!(trace::fate(&registry, Style::Plain), Fate::Fatal);
    assert_eq!(trace::fate(&registry, Style::Panic), Fate::Dropped);
    assert_eq!(handler.messages(), 1);

    registry.setup(sink_of(&handler));
    assert_eq!(trace::fate(&registry, Style::Info), Fate::Delivered);
}

use std::cell::RefCell;
use std::rc::Rc;

use trace::{FnHandler, HandlerRegistry, Level, TraceHandler};

type Log = Rc<RefCell<Vec<(Level, String)>>>;

type Sink = FnHandler<Box<dyn Fn(Level, &str)>>;

fn recorder() -> (Log, Sink) {
    let log: Log = Rc::new(RefCell::new(Vec::new()));
    let seen = log.clone();
    let sink = FnHandler::new(Box::new(move |level: Level, msg: &str| {
        seen.borrow_mut().push((level, msg.to_string()))
    }) as Box<dyn Fn(Level, &str)>);
    (log, sink)
}

#[test]
fn a_new_registry_is_unregistered() {
    let registry: HandlerRegistry<Sink> = HandlerRegistry::new();
    assert!(!registry.query());
    assert!(registry.sink().is_none());
}

#[test]
fn setup_registers_and_cleanup_unregisters() {
    let (_log, sink) = recorder();
    let mut registry = HandlerRegistry::new();

    registry.setup(sink);
    assert!(registry.query());
    assert!(registry.sink().is_some());

    let removed = registry.cleanup();
    assert!(removed.is_some());
    assert!(!registry.query());
    assert!(registry.sink().is_none());

    // Cleaning up an empty slot leaves it empty.
    assert!(registry.cleanup().is_none());
    assert!(!registry.query());
}

#[test]
fn the_registry_cycles() {
    let mut registry = HandlerRegistry::new();
    for round in 0..3 {
        let (log, sink) = recorder();
        registry.setup(sink);
        assert!(registry.query());
        registry.dispatch(Level::Info, &format!("round {}", round));
        assert_eq!(*log.borrow(), vec![(Level::Info, format!("round {}", round))]);
        registry.cleanup();
        assert!(!registry.query());
    }
}

#[test]
fn dispatch_hands_each_message_to_the_sink_in_order() {
    let (log, sink) = recorder();
    let mut registry = HandlerRegistry::new();
    registry.setup(sink);

    registry.dispatch(Level::Debug, "one");
    registry.dispatch(Level::Error, "two");
    registry.dispatch_panic(Level::Warning, "three");

    assert_eq!(
        *log.borrow(),
        vec![
            (Level::Debug, "one".to_string()),
            (Level::Error, "two".to_string()),
            (Level::Warning, "three".to_string()),
        ]
    );
}

#[test]
fn setup_replaces_the_sink() {
    let (first_log, first) = recorder();
    let (second_log, second) = recorder();
    let mut registry = HandlerRegistry::new();

    registry.setup(first);
    registry.dispatch(Level::Info, "to the first");
    registry.setup(second);
    registry.dispatch(Level::Info, "to the second");

    assert_eq!(*first_log.borrow(), vec![(Level::Info, "to the first".to_string())]);
    assert_eq!(*second_log.borrow(), vec![(Level::Info, "to the second".to_string())]);
}

#[test]
fn dispatch_panic_without_a_sink_does_nothing() {
    let mut registry: HandlerRegistry<Sink> = HandlerRegistry::new();
    registry.dispatch_panic(Level::Error, "lost");
    assert!(!registry.query());

    // The message is not kept for a sink that comes later.
    let (log, sink) = recorder();
    registry.setup(sink);
    assert!(log.borrow().is_empty());
}

#[test]
fn after_cleanup_the_sink_gets_nothing_more() {
    let (log, sink) = recorder();
    let mut registry = HandlerRegistry::new();
    registry.setup(sink);
    registry.dispatch(Level::Info, "before");
    let removed = registry.cleanup();

    assert!(!registry.query());
    registry.dispatch_panic(Level::Error, "after");
    assert_eq!(*log.borrow(), vec![(Level::Info, "before".to_string())]);

    // The sink that was handed back still works on its own.
    let mut sink = removed.unwrap();
    sink.trace_write(Level::Warning, "direct");
    assert_eq!(log.borrow().len(), 2);
    assert_eq!(log.borrow()[1], (Level::Warning, "direct".to_string()));
}

fn discard(_level: Level, _msg: &str) {}

#[test]
fn a_function_is_a_sink() {
    let mut registry = HandlerRegistry::new();
    registry.setup(FnHandler::new(discard as fn(Level, &str)));
    assert!(registry.query());
    registry.dispatch(Level::Info, "nowhere");
    assert!(registry.query());
}

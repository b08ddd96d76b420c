use mem_logger::{process_entry, ErasedLoggable, History, Level, Log, Loggable, Timestamp};

fn at(secs: i64) -> Timestamp {
    Timestamp { secs, nanos: 0 }
}

fn messages(h: &History) -> Vec<String> {
    let mut out = Vec::new();
    for i in 0..h.len() {
        out.push(h.get(i).message().to_string());
    }
    out
}

#[test]
fn simple() {
    let mut history = History::new(None);
    process_entry(&mut history, Level::Debug, ErasedLoggable::new(format!("hello there: {}", 0)));
    assert_eq!(history.len(), 1);
    let log = history.get(0);
    assert_eq!(log.level, Level::Debug);
    assert_eq!(log.message(), "hello there: 0");
}

#[test]
fn limit_two_keeps_last_two() {
    let mut history = History::new(Some(2));
    for (i, m) in ["a", "b", "c"].into_iter().enumerate() {
        history.record_at(Level::Info, ErasedLoggable::new(m), at(i as i64));
    }
    assert_eq!(messages(&history), vec!["b".to_string(), "c".to_string()]);
    assert_eq!(history.get(0).time, at(1));
    assert_eq!(history.get(1).time, at(2));
}

#[test]
fn limit_keeps_last_n_in_order() {
    let mut history = History::new(Some(3));
    for i in 0..10 {
        history.record_at(Level::Warn, ErasedLoggable::new(format!("m{}", i)), at(i));
    }
    assert_eq!(history.len(), 3);
    assert_eq!(messages(&history), vec!["m7".to_string(), "m8".to_string(), "m9".to_string()]);
}

#[test]
fn limit_not_reached_keeps_all() {
    let mut history = History::new(Some(5));
    history.record_at(Level::Info, ErasedLoggable::new("x"), at(0));
    history.record_at(Level::Info, ErasedLoggable::new("y"), at(1));
    assert_eq!(messages(&history), vec!["x".to_string(), "y".to_string()]);
}

#[test]
fn limit_one_keeps_latest() {
    let mut history = History::new(Some(1));
    history.record_at(Level::Info, ErasedLoggable::new("x"), at(0));
    history.record_at(Level::Error, ErasedLoggable::new("y"), at(1));
    assert_eq!(messages(&history), vec!["y".to_string()]);
    assert_eq!(history.get(0).level, Level::Error);
}

#[test]
fn unlimited_thousand_entries() {
    let mut history = History::new(None);
    for i in 0..1000 {
        history.record_at(Level::Info, ErasedLoggable::new(format!("{}", i)), at(i));
    }
    assert_eq!(history.len(), 1000);
    assert_eq!(history.get(0).message(), "0");
    assert_eq!(history.get(999).message(), "999");
}

#[test]
fn clear_empties_and_restarts() {
    let mut history = History::new(Some(2));
    for m in ["a", "b", "c"] {
        history.record_at(Level::Info, ErasedLoggable::new(m), at(0));
    }
    history.clear();
    assert_eq!(history.len(), 0);
    for m in ["d", "e", "f"] {
        history.record_at(Level::Info, ErasedLoggable::new(m), at(0));
    }
    assert_eq!(messages(&history), vec!["e".to_string(), "f".to_string()]);
}

#[test]
fn clear_on_empty_history() {
    let mut history = History::new(None);
    history.clear();
    assert_eq!(history.len(), 0);
}

#[test]
fn push_evicts_oldest() {
    let mut history = History::new(Some(2));
    for m in ["p", "q", "r", "s"] {
        history.push(Log { time: at(3), level: Level::Debug, message: m.to_string() });
    }
    assert_eq!(messages(&history), vec!["r".to_string(), "s".to_string()]);
}

#[test]
fn process_entry_stamps_current_time() {
    let mut history = History::new(Some(4));
    process_entry(&mut history, Level::Warn, ErasedLoggable::new("late"));
    let log = history.get(0);
    assert_eq!(log.message(), "late");
    assert_eq!(log.level, Level::Warn);
    assert!(log.time.secs > 1_600_000_000);
    assert!(log.time.nanos < 2_000_000_000);
}

#[test]
fn level_names() {
    assert_eq!(Level::Debug.as_str(), "Debug");
    assert_eq!(Level::Info.as_str(), "Info");
    assert_eq!(Level::Warn.as_str(), "Warn");
    assert_eq!(Level::Error.as_str(), "Error");
}

#[test]
fn erased_renders_into_sink() {
    let mut out = String::from(">");
    ErasedLoggable::new("abc").log_to(&mut out);
    assert_eq!(out, ">abc");
    let mut out2 = String::new();
    ErasedLoggable::new(String::from("a longer message than the inline budget would hold")).log_to(&mut out2);
    assert_eq!(out2, "a longer message than the inline budget would hold");
}

#[test]
fn erased_empty_payload() {
    let mut history = History::new(None);
    history.record_at(Level::Debug, ErasedLoggable::new(""), at(0));
    assert_eq!(history.get(0).message(), "");
}

#[test]
fn erased_defers_rendering_into_record() {
    let mut history = History::new(None);
    let erased = ErasedLoggable::new(String::from("owned text"));
    history.record_at(Level::Info, erased, at(5));
    history.record_at(Level::Info, ErasedLoggable::new(ErasedLoggable::new("nested")), at(6));
    assert_eq!(messages(&history), vec!["owned text".to_string(), "nested".to_string()]);
}

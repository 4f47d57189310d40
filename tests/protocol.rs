use swaystatus::emitter::{Action, Emitter, Phase, Received};
use swaystatus::record::{Power, State};
use swaystatus::render::{blocks, header, update_line};

const TITLE_LINE: &str = ",[{\"full_text\": \"Terminal\", \"name\": \"title\", \"separator\": false, \"align\": \"left\", \"min_width\": 1700}, {\"full_text\": \"\u{2697}\", \"separator\": false, \"name\": \"test\"}, {\"full_text\": \"\", \"name\": \"datetime\", \"min_width\": 100, \"separator\": false}]";

const BOTH_LINE: &str = ",[{\"full_text\": \"Terminal\", \"name\": \"title\", \"separator\": false, \"align\": \"left\", \"min_width\": 1700}, {\"full_text\": \"\u{2697}\", \"separator\": false, \"name\": \"test\"}, {\"full_text\": \"Mon 01 Jan 12:00\", \"name\": \"datetime\", \"min_width\": 100, \"separator\": false}]";

/// Runs one batch through the emitter and collects the actions.
fn run(e: &mut Emitter, rs: &[Received]) -> Vec<Action> {
    rs.iter().map(|r| e.on_receive(*r)).collect()
}

#[test]
fn header_is_version_then_open_array_then_empty_line() {
    let h = header();
    let lines: Vec<&str> = h.split('\n').collect();
    assert_eq!(lines, vec!["{\"version\": 1}", "[", "[]"]);
}

#[test]
fn startup_emits_nothing_before_a_token() {
    let mut e = Emitter::new();
    assert_eq!(e.phase, Phase::Waiting);
    assert_eq!(e.on_receive(Received::Empty), Action::Wait);
    assert_eq!(e.phase, Phase::Waiting);
}

#[test]
fn focus_then_clock_updates_keep_untouched_fields() {
    let mut s = State::new(String::new());
    let mut e = Emitter::new();

    s.set_title("Terminal".to_string());
    let acts = run(&mut e, &[Received::Token, Received::Empty]);
    assert_eq!(acts, vec![Action::Poll, Action::Emit]);
    assert_eq!(update_line(&s), TITLE_LINE);

    s.set_clock_text("Mon 01 Jan 12:00".to_string());
    let acts = run(&mut e, &[Received::Token, Received::Empty]);
    assert_eq!(acts, vec![Action::Poll, Action::Emit]);
    assert_eq!(update_line(&s), BOTH_LINE);
}

#[test]
fn burst_of_tokens_gives_one_emission() {
    let mut e = Emitter::new();
    let mut rs = vec![Received::Token; 5];
    rs.push(Received::Empty);
    let acts = run(&mut e, &rs);
    assert_eq!(acts.iter().filter(|a| **a == Action::Emit).count(), 1);
    assert_eq!(acts.last(), Some(&Action::Emit));
    assert_eq!(e.phase, Phase::Waiting);
}

#[test]
fn single_token_gives_one_emission() {
    let mut e = Emitter::new();
    let acts = run(&mut e, &[Received::Token, Received::Empty]);
    assert_eq!(acts, vec![Action::Poll, Action::Emit]);
}

#[test]
fn disconnect_while_draining_still_emits_then_stops() {
    let mut e = Emitter::new();
    let acts = run(
        &mut e,
        &[Received::Token, Received::Token, Received::Disconnected, Received::Disconnected],
    );
    assert_eq!(acts, vec![Action::Poll, Action::Poll, Action::Emit, Action::Stop]);
    assert_eq!(e.phase, Phase::Stopped);
    assert_eq!(e.on_receive(Received::Token), Action::Stop);
}

#[test]
fn disconnect_while_waiting_stops() {
    let mut e = Emitter::new();
    assert_eq!(e.on_receive(Received::Disconnected), Action::Stop);
    assert_eq!(e.phase, Phase::Stopped);
}

#[test]
fn same_snapshot_gives_identical_lines() {
    let mut s = State::new("Tue 02 Jan 09:05".to_string());
    s.set_title("editor".to_string());
    let a = update_line(&s);
    let b = update_line(&s.snapshot());
    assert_eq!(a, b);
    assert_eq!(update_line(&s), a);
}

#[test]
fn blocks_hold_title_icon_and_clock_in_order() {
    let mut s = State::new("Wed 03 Jan 18:30".to_string());
    s.set_title("mail".to_string());
    let b = blocks(&s);
    assert!(b.starts_with("[{\"full_text\": \"mail\", \"name\": \"title\""));
    assert!(b.ends_with("{\"full_text\": \"Wed 03 Jan 18:30\", \"name\": \"datetime\", \"min_width\": 100, \"separator\": false}]"));
    assert_eq!(update_line(&s), format!(",{}", b));
}

#[test]
fn new_record_is_empty_and_discharging() {
    let s = State::new("clock".to_string());
    assert_eq!(s.title, "");
    assert_eq!(s.power, Power::Discharging(0));
    assert_eq!(s.datetime, "clock");
}

#[test]
fn setters_touch_one_field_each() {
    let mut s = State::new("clock".to_string());
    s.set_power(Power::Charging(80));
    assert_eq!(s.power, Power::Charging(80));
    assert_eq!(s.title, "");
    assert_eq!(s.datetime, "clock");
    s.set_title("term".to_string());
    s.set_clock_text("later".to_string());
    assert_eq!(s.power, Power::Charging(80));
    assert_eq!(s.title, "term");
    assert_eq!(s.datetime, "later");
}

#[test]
fn titles_are_escaped_for_json() {
    let mut s = State::new("t\tx".to_string());
    s.set_title("say \"hi\"\\\n\u{1}".to_string());
    let b = blocks(&s);
    assert!(b.starts_with("[{\"full_text\": \"say \\\"hi\\\"\\\\\\n\\u0001\", \"name\": \"title\""));
    assert!(b.contains("{\"full_text\": \"t\\tx\", \"name\": \"datetime\""));
    assert!(!b.contains('\n'));
}

#[test]
fn control_characters_use_hex_escapes() {
    let mut s = State::new(String::new());
    s.set_title("\u{1f}\r".to_string());
    assert!(blocks(&s).starts_with("[{\"full_text\": \"\\u001f\\r\", "));
}

#[test]
fn non_ascii_titles_stand_as_they_are() {
    let mut s = State::new(String::new());
    s.set_title("caf\u{e9} \u{2697}".to_string());
    assert!(blocks(&s).starts_with("[{\"full_text\": \"caf\u{e9} \u{2697}\", "));
}

use curses::capability::{NOT_FOUND};
use curses::slot::{init_succeeded, OK};
use curses::{Answers, CapString, Code, FlagCap, NumberCap, Slot, StringCap, Term};

fn bytes(c: &Option<CapString>) -> Option<Vec<u8>> {
    c.as_ref().map(|s| s.as_bytes().to_vec())
}

fn xterm_answers() -> Answers {
    Answers {
        enter_italics_mode: None,
        exit_italics_mode: Some(b"\x1b[23m\0".to_vec()),
        enter_dim_mode: Some(b"\x1b[2m\0".to_vec()),
        max_colors: 256,
        eat_newline_glitch: 1,
    }
}

fn other_answers() -> Answers {
    Answers {
        enter_italics_mode: Some(b"\x1b[3m\0".to_vec()),
        exit_italics_mode: None,
        enter_dim_mode: None,
        max_colors: 8,
        eat_newline_glitch: 0,
    }
}

#[test]
fn code_is_two_bytes_and_nul() {
    assert_eq!(Code::new("Co").as_bytes(), b"Co\0");
    assert_eq!(Code::new("xn").as_bytes(), &[b'x', b'n', 0]);
}

#[test]
fn capability_kinds_keep_their_code() {
    assert_eq!(StringCap::new("ZH").get_code(), Code::new("ZH"));
    assert_eq!(NumberCap::new("Co").get_code(), Code::new("Co"));
    assert_eq!(FlagCap::new("xn").get_code(), Code::new("xn"));
    assert_ne!(StringCap::new("ZH").get_code(), Code::new("ZR"));
}

#[test]
fn number_not_found_is_none() {
    let cap = NumberCap::new("Co");
    assert_eq!(cap.lookup(NOT_FOUND), None);
    assert_eq!(cap.lookup(-1), None);
}

#[test]
fn number_other_values_are_kept() {
    let cap = NumberCap::new("Co");
    assert_eq!(cap.lookup(0), Some(0));
    assert_eq!(cap.lookup(-2), Some(-2));
    assert_eq!(cap.lookup(256), Some(256));
    assert_eq!(cap.lookup(i32::MIN), Some(i32::MIN));
}

#[test]
fn flag_is_any_nonzero_value() {
    let cap = FlagCap::new("xn");
    assert!(!cap.lookup(0));
    assert!(cap.lookup(1));
    assert!(cap.lookup(-1));
    assert!(cap.lookup(7));
}

#[test]
fn string_null_answer_is_none() {
    assert!(StringCap::new("ZH").lookup(None).is_none());
}

#[test]
fn string_is_copied_up_to_first_nul() {
    let cap = StringCap::new("ZH");
    let r = cap.lookup(Some(&b"\x1b[3m\0junk\0"[..]));
    assert_eq!(r.unwrap().as_bytes(), b"\x1b[3m");
    let r = cap.lookup(Some(&b"\0\x1b"[..]));
    assert_eq!(r.unwrap().as_bytes(), b"");
    let r = cap.lookup(Some(&b"abc"[..]));
    assert_eq!(r.unwrap().as_bytes(), b"abc");
    let r = cap.lookup(Some(&b""[..]));
    assert_eq!(r.unwrap().as_bytes(), b"");
}

#[test]
fn cap_string_refuses_nul() {
    assert!(CapString::new(b"a\0b".to_vec()).is_none());
    assert!(CapString::new(vec![0]).is_none());
    assert_eq!(CapString::new(b"\x1b[2m".to_vec()).unwrap().as_bytes(), b"\x1b[2m");
    assert_eq!(CapString::new(Vec::new()).unwrap().as_bytes(), b"");
}

#[test]
fn queries_name_the_fixed_codes() {
    let q = Term::queries();
    assert_eq!(q.enter_italics_mode.get_code().as_bytes(), b"ZH\0");
    assert_eq!(q.exit_italics_mode.get_code().as_bytes(), b"ZR\0");
    assert_eq!(q.enter_dim_mode.get_code().as_bytes(), b"mh\0");
    assert_eq!(q.max_colors.get_code().as_bytes(), b"Co\0");
    assert_eq!(q.eat_newline_glitch.get_code().as_bytes(), b"xn\0");
}

#[test]
fn term_is_built_from_answers() {
    let t = Term::new(&xterm_answers());
    assert_eq!(bytes(&t.enter_italics_mode), None);
    assert_eq!(bytes(&t.exit_italics_mode), Some(b"\x1b[23m".to_vec()));
    assert_eq!(bytes(&t.enter_dim_mode), Some(b"\x1b[2m".to_vec()));
    assert_eq!(t.max_colors, Some(256));
    assert!(t.eat_newline_glitch);
}

#[test]
fn term_of_missing_capabilities() {
    let t = Term::new(&Answers {
        enter_italics_mode: None,
        exit_italics_mode: None,
        enter_dim_mode: None,
        max_colors: -1,
        eat_newline_glitch: 0,
    });
    assert!(t.enter_italics_mode.is_none());
    assert!(t.exit_italics_mode.is_none());
    assert!(t.enter_dim_mode.is_none());
    assert_eq!(t.max_colors, None);
    assert!(!t.eat_newline_glitch);
}

#[test]
fn init_status_ok_only() {
    assert!(init_succeeded(OK));
    assert!(init_succeeded(0));
    assert!(!init_succeeded(-1));
    assert!(!init_succeeded(1));
}

#[test]
fn term_before_setup_is_none() {
    let slot = Slot::new();
    assert!(slot.term().is_none());
    assert!(slot.term().is_none());
}

#[test]
fn setup_xterm_scenario() {
    let mut slot = Slot::new();
    let r = slot.setup(Some(xterm_answers()), |_| {}).unwrap();
    assert_eq!(r.max_colors, Some(256));
    assert!(r.enter_italics_mode.is_none());
    let t = slot.term().unwrap();
    assert_eq!(*t, *r);
    assert_eq!(t.max_colors, Some(256));
    assert!(t.enter_italics_mode.is_none());
}

#[test]
fn configure_override_takes_precedence() {
    let mut slot = Slot::new();
    slot.setup(Some(xterm_answers()), |t: &mut Term| {
        t.enter_italics_mode = CapString::new(b"\x1b[3m".to_vec());
    });
    let t = slot.term().unwrap();
    assert_eq!(bytes(&t.enter_italics_mode), Some(b"\x1b[3m".to_vec()));
    assert_eq!(bytes(&t.exit_italics_mode), Some(b"\x1b[23m".to_vec()));
    assert_eq!(bytes(&t.enter_dim_mode), Some(b"\x1b[2m".to_vec()));
    assert_eq!(t.max_colors, Some(256));
    assert!(t.eat_newline_glitch);
}

#[test]
fn failed_setup_clears_slot() {
    let mut slot = Slot::new();
    let old = slot.setup(Some(xterm_answers()), |_| {}).unwrap();
    assert!(slot.term().is_some());
    assert!(slot.setup(None, |_| {}).is_none());
    assert!(slot.term().is_none());
    // a snapshot handed out before stays valid
    assert_eq!(old.max_colors, Some(256));
}

#[test]
fn reset_twice_is_reset_once() {
    let mut slot = Slot::new();
    slot.setup(Some(xterm_answers()), |_| {});
    assert!(slot.reset());
    assert!(slot.term().is_none());
    assert!(!slot.reset());
    assert!(slot.term().is_none());
}

#[test]
fn reset_of_empty_slot_frees_nothing() {
    let mut slot = Slot::new();
    assert!(!slot.reset());
    assert!(slot.term().is_none());
}

#[test]
fn later_setup_replaces_whole_snapshot() {
    let mut slot = Slot::new();
    let first = slot.setup(Some(xterm_answers()), |_| {}).unwrap();
    let second = slot.setup(Some(other_answers()), |_| {}).unwrap();
    let t = slot.term().unwrap();
    assert_eq!(*t, *second);
    assert_eq!(bytes(&t.enter_italics_mode), Some(b"\x1b[3m".to_vec()));
    assert!(t.exit_italics_mode.is_none());
    assert!(t.enter_dim_mode.is_none());
    assert_eq!(t.max_colors, Some(8));
    assert!(!t.eat_newline_glitch);
    assert_eq!(first.max_colors, Some(256));
}

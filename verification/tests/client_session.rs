use super_mega_chatroom::client::ClientInput;
use super_mega_chatroom::client::KeyOutcome;
use super_mega_chatroom::client::KeyPress;
use super_mega_chatroom::client::parse_line;

#[test]
fn typing_builds_a_line_and_enter_sends_it() {
    let mut session = ClientInput::new(String::from("alice"));
    assert!(matches!(session.on_key(KeyPress::Char('h', false)), KeyOutcome::Continue));
    assert!(matches!(session.on_key(KeyPress::Char('i', false)), KeyOutcome::Continue));
    assert_eq!(session.input, vec!['h', 'i']);
    match session.on_key(KeyPress::Enter) {
        KeyOutcome::Send(m) => {
            assert_eq!(m.id, 0);
            assert_eq!(m.name, String::from("alice"));
            assert_eq!(m.msg, String::from("hi"));
        }
        _ => panic!("enter must send the typed line"),
    }
    assert!(session.input.is_empty());
}

#[test]
fn shift_upper_cases_ascii() {
    let mut session = ClientInput::new(String::from("alice"));
    session.on_key(KeyPress::Char('a', true));
    session.on_key(KeyPress::Char('b', false));
    assert_eq!(session.input, vec!['A', 'b']);
}

#[test]
fn backspace_shortens_and_is_safe_on_empty() {
    let mut session = ClientInput::new(String::from("alice"));
    assert!(matches!(session.on_key(KeyPress::Backspace), KeyOutcome::Continue));
    assert!(session.input.is_empty());
    session.on_key(KeyPress::Char('x', false));
    session.on_key(KeyPress::Char('y', false));
    session.on_key(KeyPress::Backspace);
    assert_eq!(session.input, vec!['x']);
}

#[test]
fn quit_chord_quits_and_other_keys_do_nothing() {
    let mut session = ClientInput::new(String::from("alice"));
    session.on_key(KeyPress::Char('x', false));
    assert!(matches!(session.on_key(KeyPress::Other), KeyOutcome::Continue));
    assert_eq!(session.input, vec!['x']);
    assert!(matches!(session.on_key(KeyPress::Quit), KeyOutcome::Quit));
    assert_eq!(session.input, vec!['x']);
}

#[test]
fn parse_line_splits_name_and_body() {
    assert_eq!(
        parse_line("bob: hi"),
        Some((String::from("bob"), String::from("hi")))
    );
    assert_eq!(
        parse_line("  bob :  hi there "),
        Some((String::from("bob"), String::from("hi there")))
    );
}

#[test]
fn parse_line_stops_the_body_at_a_second_colon() {
    assert_eq!(
        parse_line("bob: hi: extra"),
        Some((String::from("bob"), String::from("hi")))
    );
}

#[test]
fn parse_line_needs_a_colon() {
    assert_eq!(parse_line("no colon here"), None);
    assert_eq!(parse_line(""), None);
}

#[test]
fn parse_line_tolerates_empty_parts() {
    assert_eq!(parse_line(":"), Some((String::new(), String::new())));
    assert_eq!(parse_line("bob:"), Some((String::from("bob"), String::new())));
}

use tor_balancer::capture::{capture_action, CaptureAction, OutputBuffer};

#[test]
fn capture_action_appends_single_bytes_only() {
    assert_eq!(capture_action(Ok(1), b'x'), CaptureAction::Append { byte: b'x' });
    assert_eq!(capture_action(Ok(0), b'x'), CaptureAction::StopAtEnd);
    assert_eq!(capture_action(Ok(2), b'x'), CaptureAction::StopOnCount { count: 2 });
    assert_eq!(
        capture_action(Err("broken pipe".to_string()), b'x'),
        CaptureAction::StopOnError { error: "broken pipe".to_string() }
    );
}

#[test]
fn buffer_applies_actions() {
    let mut b = OutputBuffer::new();
    assert!(b.apply(&CaptureAction::Append { byte: b'o' }));
    assert!(b.apply(&CaptureAction::Append { byte: b'k' }));
    assert!(!b.apply(&CaptureAction::StopAtEnd));
    assert!(!b.apply(&CaptureAction::StopOnCount { count: 3 }));
    assert!(!b.apply(&CaptureAction::StopOnError { error: "e".to_string() }));
    assert_eq!(b.len(), 2);
    assert_eq!(b.drain(), Some("ok".to_string()));
}

#[test]
fn drain_takes_the_text_and_clears() {
    let mut b = OutputBuffer::new();
    for byte in "Bootstrapped 100%: Done\n".bytes() {
        b.append(byte);
    }
    assert_eq!(b.len(), 24);
    assert_eq!(b.drain(), Some("Bootstrapped 100%: Done\n".to_string()));
    assert_eq!(b.len(), 0);
    assert_eq!(b.drain(), None);
}

#[test]
fn drain_of_an_empty_buffer_gives_nothing() {
    let mut b = OutputBuffer::new();
    assert_eq!(b.drain(), None);
    assert_eq!(b.len(), 0);
}

#[test]
fn drain_decodes_multibyte_text() {
    let mut b = OutputBuffer::new();
    for byte in "h\u{e9}llo \u{2713}".bytes() {
        b.append(byte);
    }
    assert_eq!(b.len(), 10);
    assert_eq!(b.drain(), Some("h\u{e9}llo \u{2713}".to_string()));
}

#[test]
fn drain_leaves_invalid_text_in_place() {
    let mut b = OutputBuffer::new();
    b.append(b'a');
    b.append(0xc3);
    assert_eq!(b.drain(), None);
    assert_eq!(b.len(), 2);
    b.append(0xa9);
    assert_eq!(b.drain(), Some("a\u{e9}".to_string()));
    assert_eq!(b.len(), 0);
}

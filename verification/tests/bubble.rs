use desktop_pet::bubble::AttachmentState;
use desktop_pet::bubble::BubbleError;
use desktop_pet::geometry::compute_secondary_placement;

#[test]
fn test_reposition_detached_fails() {
    let state = AttachmentState::new();
    let result = state.reposition(800, 600, 400, 300, 2000);
    let err = result.unwrap_err();
    assert_eq!(err, BubbleError::NoActiveBubble);
    assert_eq!(err.message(), "no active bubble to reposition");
}

#[test]
fn test_show_then_reposition() {
    let mut state = AttachmentState::new();
    state.show(b"hi".to_vec());
    let props = state.reposition(800, 600, 400, 300, 2000).expect("attached");
    let expected = compute_secondary_placement(800, 600, 400, 300, 2000, &b"hi".to_vec());
    assert_eq!(props, expected);
    // "hi" is one estimated line: height 84, so y = 300 - 84 = 216 logical.
    assert_eq!(props.height_milli, 84000);
    assert_eq!(props.x_milli, 340000);
    assert_eq!(props.y_milli, 216000);
}

#[test]
fn test_reposition_follows_moved_primary() {
    let mut state = AttachmentState::new();
    state.show(b"hi".to_vec());
    let before = state.reposition(800, 600, 400, 300, 2000).expect("attached");
    let after = state.reposition(1000, 900, 400, 300, 2000).expect("attached");
    assert_eq!(after.x_milli, before.x_milli + 100000);
    assert_eq!(after.y_milli, before.y_milli + 150000);
    assert_eq!(after.height_milli, before.height_milli);
}

#[test]
fn test_show_replaces_message() {
    let mut state = AttachmentState::new();
    state.show(b"first message".to_vec());
    state.show(vec![b'y'; 45]);
    let props = state.reposition(800, 600, 400, 300, 2000).expect("attached");
    // 45 characters: three lines, height 132.
    assert_eq!(props.height_milli, 132000);
}

#[test]
fn test_close_detaches() {
    let mut state = AttachmentState::new();
    state.show(b"hello".to_vec());
    state.close();
    assert!(state.reposition(0, 0, 100, 100, 1000).is_err());
}

#[test]
fn test_bubble_url_encodes_message() {
    let url = desktop_pet::bubble::bubble_url(&b"hi there!".to_vec());
    assert_eq!(
        url,
        b"/#/chat-bubble?message=hi%20there%21&autoHide=true&autoHideDelay=3000".to_vec(),
    );
}

#[test]
fn test_bubble_url_multibyte_and_unreserved() {
    // A multibyte character is encoded byte by byte with uppercase hex;
    // unreserved bytes stay as they are.
    let url = desktop_pet::bubble::bubble_url(&"A-b_c.~\u{e9}".as_bytes().to_vec());
    assert_eq!(
        url,
        b"/#/chat-bubble?message=A-b_c.~%C3%A9&autoHide=true&autoHideDelay=3000".to_vec(),
    );
}

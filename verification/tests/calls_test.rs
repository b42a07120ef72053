use shared_menu::calls::{frame, Response};
use shared_menu::COMMAND_LEN;

#[test]
fn short_messages_are_padded() {
    let framed = frame(vec![1, 2, 3]);
    assert_eq!(framed.len(), COMMAND_LEN);
    assert_eq!(&framed[..3], &[1, 2, 3]);
    assert!(framed[3..].iter().all(|b| *b == 0));
}

#[test]
fn long_messages_are_cut() {
    let message: Vec<u8> = (0..2000).map(|i| (i % 251) as u8).collect();
    let framed = frame(message.clone());
    assert_eq!(framed.len(), COMMAND_LEN);
    assert_eq!(&framed[..], &message[..COMMAND_LEN]);
}

#[test]
fn empty_message_frame() {
    assert_eq!(frame(Vec::new()), vec![0u8; COMMAND_LEN]);
}

#[test]
fn responses_compare_by_content() {
    assert_eq!(Response::Failure("x".to_string()), Response::Failure("x".to_string()));
    assert_ne!(Response::Success, Response::NotFound);
}

use tray_bridge::{add, create_greeting, sequence_from, Message, MessageType};

#[test]
fn test_add() {
    assert_eq!(add(2, 3), 5);
}

#[test]
fn greeting_without_prefix_says_hello() {
    let result = create_greeting("World".to_string(), None);
    assert_eq!(result, "Hello World, welcome to NAPI!");
}

#[test]
fn greeting_with_prefix_uses_it() {
    let result = create_greeting("Ada".to_string(), Some("Hi".to_string()));
    assert_eq!(result, "Hi Ada, welcome to NAPI!");
}

#[test]
fn message_tags_and_format() {
    let m = Message::new("disk low".to_string(), MessageType::Warning);
    assert_eq!(m.get_type_string(), "WARN");
    assert_eq!(m.get_formatted(), "[WARN] disk low");
    assert_eq!(Message::new(String::new(), MessageType::Info).get_type_string(), "INFO");
    assert_eq!(Message::new(String::new(), MessageType::Error).get_type_string(), "ERROR");
    assert_eq!(Message::new("ok".to_string(), MessageType::Success).get_formatted(), "[SUCCESS] ok");
}

#[test]
fn sequence_counts_up_from_start() {
    assert_eq!(sequence_from(5, 4), vec![5, 6, 7, 8]);
    assert_eq!(sequence_from(9, 0), Vec::<u32>::new());
    assert_eq!(sequence_from(u32::MAX, 1), vec![u32::MAX]);
}

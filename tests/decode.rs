use komorebik::decode::decode;
use komorebik::message::{ApplicationIdentifier, Axis, OperationDirection, ProtocolMessage, Sizing};

fn all_kinds() -> Vec<ProtocolMessage> {
    let s = String::from;
    vec![
        ProtocolMessage::FocusWindow(OperationDirection::Left),
        ProtocolMessage::MoveWindow(OperationDirection::Down),
        ProtocolMessage::ResizeWindowEdge(OperationDirection::Right, Sizing::Decrease),
        ProtocolMessage::ResizeWindowAxis(Axis::HorizontalAndVertical, Sizing::Increase),
        ProtocolMessage::ContainerPadding(1, 2, 10),
        ProtocolMessage::WorkspacePadding(usize::MAX, 0, i32::MIN),
        ProtocolMessage::WorkspacePadding(7, 8, i32::MAX),
        ProtocolMessage::FloatRule(ApplicationIdentifier::Class, s("Notepad")),
        ProtocolMessage::ManageRule(ApplicationIdentifier::Exe, s("a \"quoted\" \\ name\u{0}\u{1f}")),
        ProtocolMessage::IdentifyTrayApplication(ApplicationIdentifier::Title, s("")),
        ProtocolMessage::IdentifyObjectNameChangeApplication(ApplicationIdentifier::Exe, s("日本語")),
        ProtocolMessage::IdentifyBorderOverflowApplication(ApplicationIdentifier::Class, s("x")),
        ProtocolMessage::IdentifyLayeredApplication(ApplicationIdentifier::Title, s("\n\t")),
        ProtocolMessage::Stop,
    ]
}

#[test]
fn decoding_what_was_encoded_gives_the_message() {
    for m in all_kinds() {
        assert_eq!(decode(&m.encode()), Some(m));
    }
}

#[test]
fn literal_messages_decode() {
    assert_eq!(
        decode(r#"{"type":"FloatRule","content":["Class","Notepad"]}"#),
        Some(ProtocolMessage::FloatRule(ApplicationIdentifier::Class, String::from("Notepad")))
    );
    assert_eq!(decode(r#"{"type":"Stop"}"#), Some(ProtocolMessage::Stop));
    assert_eq!(
        decode(r#"{"type":"ContainerPadding","content":[1,2,-10]}"#),
        Some(ProtocolMessage::ContainerPadding(1, 2, -10))
    );
    assert_eq!(
        decode(r#"{"type":"ManageRule","content":["Exe","a\x"]}"#),
        None
    );
    assert_eq!(
        decode(r#"{"type":"ManageRule","content":["Exe","a\u000a"]}"#),
        Some(ProtocolMessage::ManageRule(ApplicationIdentifier::Exe, String::from("a\n")))
    );
}

#[test]
fn malformed_text_decodes_to_nothing() {
    assert_eq!(decode(""), None);
    assert_eq!(decode("{}"), None);
    assert_eq!(decode(r#"{"type":"Stop"} "#), None);
    assert_eq!(decode(r#"{"type":"Halt"}"#), None);
    assert_eq!(decode(r#"{"type":"FocusWindow","content":"Sideways"}"#), None);
    assert_eq!(decode(r#"{"type":"FocusWindow","content":"Left""#), None);
    assert_eq!(decode(r#"{"type":"FloatRule","content":["Class","Notepad]}"#), None);
    assert_eq!(decode(r#"{"type":"FloatRule","content":["Window","Notepad"]}"#), None);
    assert_eq!(decode(r#"{"type":"ContainerPadding","content":[1,2]}"#), None);
    assert_eq!(decode(r#"{"type":"ContainerPadding","content":[1,-2,3]}"#), None);
}

#[test]
fn numbers_out_of_range_decode_to_nothing() {
    assert_eq!(decode(r#"{"type":"ContainerPadding","content":[0,0,2147483648]}"#), None);
    assert_eq!(decode(r#"{"type":"ContainerPadding","content":[0,0,-2147483649]}"#), None);
    assert_eq!(
        decode(r#"{"type":"ContainerPadding","content":[0,0,-2147483648]}"#),
        Some(ProtocolMessage::ContainerPadding(0, 0, i32::MIN))
    );
    assert_eq!(
        decode(r#"{"type":"WorkspacePadding","content":[99999999999999999999999,0,0]}"#),
        None
    );
}

use komorebik::message::{ApplicationIdentifier, Axis, Message, OperationDirection, ProtocolMessage, Sizing};

fn decode(bytes: &[u8]) -> ProtocolMessage {
    let v: serde_json::Value = serde_json::from_slice(bytes).unwrap();
    let tag = v["type"].as_str().unwrap();
    let content = &v["content"];
    let direction = |x: &serde_json::Value| match x.as_str().unwrap() {
        "Left" => OperationDirection::Left,
        "Right" => OperationDirection::Right,
        "Up" => OperationDirection::Up,
        "Down" => OperationDirection::Down,
        other => panic!("unknown direction {}", other),
    };
    let sizing = |x: &serde_json::Value| match x.as_str().unwrap() {
        "Increase" => Sizing::Increase,
        "Decrease" => Sizing::Decrease,
        other => panic!("unknown sizing {}", other),
    };
    let axis = |x: &serde_json::Value| match x.as_str().unwrap() {
        "Horizontal" => Axis::Horizontal,
        "Vertical" => Axis::Vertical,
        "HorizontalAndVertical" => Axis::HorizontalAndVertical,
        other => panic!("unknown axis {}", other),
    };
    let identifier = |x: &serde_json::Value| match x.as_str().unwrap() {
        "Exe" => ApplicationIdentifier::Exe,
        "Class" => ApplicationIdentifier::Class,
        "Title" => ApplicationIdentifier::Title,
        other => panic!("unknown identifier {}", other),
    };
    let name = |x: &serde_json::Value| String::from(x.as_str().unwrap());
    match tag {
        "FocusWindow" => ProtocolMessage::FocusWindow(direction(content)),
        "MoveWindow" => ProtocolMessage::MoveWindow(direction(content)),
        "ResizeWindowEdge" => ProtocolMessage::ResizeWindowEdge(direction(&content[0]), sizing(&content[1])),
        "ResizeWindowAxis" => ProtocolMessage::ResizeWindowAxis(axis(&content[0]), sizing(&content[1])),
        "ContainerPadding" => ProtocolMessage::ContainerPadding(
            content[0].as_u64().unwrap() as usize,
            content[1].as_u64().unwrap() as usize,
            content[2].as_i64().unwrap() as i32,
        ),
        "WorkspacePadding" => ProtocolMessage::WorkspacePadding(
            content[0].as_u64().unwrap() as usize,
            content[1].as_u64().unwrap() as usize,
            content[2].as_i64().unwrap() as i32,
        ),
        "FloatRule" => ProtocolMessage::FloatRule(identifier(&content[0]), name(&content[1])),
        "ManageRule" => ProtocolMessage::ManageRule(identifier(&content[0]), name(&content[1])),
        "IdentifyTrayApplication" => ProtocolMessage::IdentifyTrayApplication(identifier(&content[0]), name(&content[1])),
        "IdentifyObjectNameChangeApplication" => {
            ProtocolMessage::IdentifyObjectNameChangeApplication(identifier(&content[0]), name(&content[1]))
        },
        "IdentifyBorderOverflowApplication" => {
            ProtocolMessage::IdentifyBorderOverflowApplication(identifier(&content[0]), name(&content[1]))
        },
        "IdentifyLayeredApplication" => {
            ProtocolMessage::IdentifyLayeredApplication(identifier(&content[0]), name(&content[1]))
        },
        "Stop" => ProtocolMessage::Stop,
        other => panic!("unknown message {}", other),
    }
}

#[test]
fn float_rule_encoding() {
    let m = ProtocolMessage::FloatRule(ApplicationIdentifier::Class, String::from("Notepad"));
    assert_eq!(m.encode(), r#"{"type":"FloatRule","content":["Class","Notepad"]}"#);
}

#[test]
fn stop_has_no_content() {
    assert_eq!(ProtocolMessage::Stop.encode(), r#"{"type":"Stop"}"#);
}

#[test]
fn padding_encoding_with_negative_padding() {
    assert_eq!(
        ProtocolMessage::ContainerPadding(1, 2, 10).encode(),
        r#"{"type":"ContainerPadding","content":[1,2,10]}"#
    );
    assert_eq!(
        ProtocolMessage::WorkspacePadding(0, 12, -305).encode(),
        r#"{"type":"WorkspacePadding","content":[0,12,-305]}"#
    );
    assert_eq!(
        ProtocolMessage::WorkspacePadding(usize::MAX, 0, i32::MIN).encode(),
        format!(r#"{{"type":"WorkspacePadding","content":[{},0,-2147483648]}}"#, usize::MAX)
    );
}

#[test]
fn direction_and_resize_encoding() {
    assert_eq!(
        ProtocolMessage::MoveWindow(OperationDirection::Left).encode(),
        r#"{"type":"MoveWindow","content":"Left"}"#
    );
    assert_eq!(
        ProtocolMessage::ResizeWindowAxis(Axis::HorizontalAndVertical, Sizing::Decrease).encode(),
        r#"{"type":"ResizeWindowAxis","content":["HorizontalAndVertical","Decrease"]}"#
    );
}

#[test]
fn names_are_escaped() {
    let m = ProtocolMessage::ManageRule(ApplicationIdentifier::Title, String::from("a\"b\\c\nd\u{1}é"));
    assert_eq!(m.encode(), "{\"type\":\"ManageRule\",\"content\":[\"Title\",\"a\\\"b\\\\c\\u000ad\\u0001é\"]}");
}

#[test]
fn decoding_the_encoding_gives_the_message_back() {
    let s = String::from;
    let messages = vec![
        ProtocolMessage::FocusWindow(OperationDirection::Down),
        ProtocolMessage::MoveWindow(OperationDirection::Right),
        ProtocolMessage::ResizeWindowEdge(OperationDirection::Up, Sizing::Increase),
        ProtocolMessage::ResizeWindowAxis(Axis::Vertical, Sizing::Decrease),
        ProtocolMessage::ContainerPadding(3, 0, -7),
        ProtocolMessage::WorkspacePadding(0, 9, 2147483647),
        ProtocolMessage::FloatRule(ApplicationIdentifier::Exe, s("x.exe")),
        ProtocolMessage::ManageRule(ApplicationIdentifier::Class, s("quote \" back \\ tab \t")),
        ProtocolMessage::IdentifyTrayApplication(ApplicationIdentifier::Title, s("")),
        ProtocolMessage::IdentifyObjectNameChangeApplication(ApplicationIdentifier::Exe, s("日本")),
        ProtocolMessage::IdentifyBorderOverflowApplication(ApplicationIdentifier::Class, s("\u{1f}")),
        ProtocolMessage::IdentifyLayeredApplication(ApplicationIdentifier::Title, s("L")),
        ProtocolMessage::Stop,
    ];
    for m in messages {
        assert_eq!(decode(m.encode().as_bytes()), m);
    }
}

#[test]
fn commands_and_their_messages() {
    assert_eq!(Message::MoveWindowLeft.command(), Some(ProtocolMessage::MoveWindow(OperationDirection::Left)));
    assert_eq!(
        Message::ResizeWindowEdgeDownIncrease.command(),
        Some(ProtocolMessage::ResizeWindowEdge(OperationDirection::Down, Sizing::Increase))
    );
    assert_eq!(
        Message::ResizeWindowAxisHorizontalDecrease.command(),
        Some(ProtocolMessage::ResizeWindowAxis(Axis::Horizontal, Sizing::Decrease))
    );
    assert_eq!(Message::Stop.command(), None);
}

#[test]
fn command_names_in_configuration() {
    assert_eq!(Message::from_name("move_left"), Some(Message::MoveWindowLeft));
    assert_eq!(Message::from_name("resize_axis_hv_inc"), Some(Message::ResizeWindowAxisHorizontalAndVerticalIncrease));
    assert_eq!(Message::from_name("stop"), Some(Message::Stop));
    assert_eq!(Message::from_name("MoveLeft"), None);
    assert_eq!(Message::FocusWindowUp.name(), "focus_up");
}

#[test]
fn duplicate_copies_every_field() {
    let m = ProtocolMessage::IdentifyLayeredApplication(ApplicationIdentifier::Exe, String::from("a"));
    assert_eq!(m.duplicate(), m);
    assert_eq!(m.tag(), "IdentifyLayeredApplication");
}

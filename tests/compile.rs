use komorebik::config::{compile, setup_messages, Binding, ConfigError, Konfig, Padding, Rule, Window};
use komorebik::keyboard::VirtualKey;
use komorebik::message::{ApplicationIdentifier, Message, OperationDirection, ProtocolMessage};

fn empty_config() -> Konfig {
    Konfig {
        container_padding: None,
        workspace_padding: None,
        default: Vec::new(),
        keys: Vec::new(),
        windows: Vec::new(),
    }
}

fn window() -> Window {
    Window {
        bordered: None,
        floating: None,
        layered: None,
        managed: None,
        name_change: None,
        tray: None,
        rules: Vec::new(),
    }
}

fn rule(identifier: ApplicationIdentifier, name: &str) -> Rule {
    Rule { identifier, name: String::from(name) }
}

#[test]
fn floating_class_rule_compiles_to_one_float_rule() {
    let mut cfg = empty_config();
    let mut w = window();
    w.floating = Some(true);
    w.rules.push(rule(ApplicationIdentifier::Class, "Notepad"));
    cfg.windows.push(w);
    let compiled = compile(&cfg).unwrap();
    assert_eq!(
        compiled.setup,
        vec![ProtocolMessage::FloatRule(ApplicationIdentifier::Class, String::from("Notepad"))]
    );
    assert!(compiled.bindings.is_empty());
}

#[test]
fn container_padding_without_workspace_padding() {
    let mut cfg = empty_config();
    cfg.container_padding = Some(Padding { monitor: 1, workspace: 2, padding: 10 });
    let compiled = compile(&cfg).unwrap();
    assert_eq!(compiled.setup, vec![ProtocolMessage::ContainerPadding(1, 2, 10)]);
    assert!(!compiled
        .setup
        .iter()
        .any(|m| matches!(m, ProtocolMessage::WorkspacePadding(..))));
}

#[test]
fn both_paddings_come_after_rules_and_before_defaults() {
    let mut cfg = empty_config();
    cfg.workspace_padding = Some(Padding { monitor: 0, workspace: 3, padding: -4 });
    cfg.container_padding = Some(Padding { monitor: 1, workspace: 2, padding: 10 });
    cfg.default.push(ProtocolMessage::FocusWindow(OperationDirection::Up));
    cfg.default.push(ProtocolMessage::Stop);
    let mut w = window();
    w.managed = Some(true);
    w.rules.push(rule(ApplicationIdentifier::Exe, "app.exe"));
    cfg.windows.push(w);
    let setup = setup_messages(&cfg);
    assert_eq!(
        setup,
        vec![
            ProtocolMessage::ManageRule(ApplicationIdentifier::Exe, String::from("app.exe")),
            ProtocolMessage::ContainerPadding(1, 2, 10),
            ProtocolMessage::WorkspacePadding(0, 3, -4),
            ProtocolMessage::FocusWindow(OperationDirection::Up),
            ProtocolMessage::Stop,
        ]
    );
}

#[test]
fn duplicate_binding_is_rejected() {
    let mut cfg = empty_config();
    cfg.keys.push(Binding { key: VirtualKey::Left, command: Message::MoveWindowLeft });
    cfg.keys.push(Binding { key: VirtualKey::Left, command: Message::MoveWindowRight });
    match compile(&cfg) {
        Err(e) => assert_eq!(e, ConfigError::DuplicateBinding(VirtualKey::Left)),
        Ok(_) => panic!("two bindings on one key must not compile"),
    }
}

#[test]
fn first_repeated_key_is_reported() {
    let mut cfg = empty_config();
    cfg.keys.push(Binding { key: VirtualKey::A, command: Message::FocusWindowLeft });
    cfg.keys.push(Binding { key: VirtualKey::B, command: Message::FocusWindowRight });
    cfg.keys.push(Binding { key: VirtualKey::B, command: Message::FocusWindowUp });
    cfg.keys.push(Binding { key: VirtualKey::A, command: Message::FocusWindowDown });
    match compile(&cfg) {
        Err(e) => assert_eq!(e, ConfigError::DuplicateBinding(VirtualKey::B)),
        Ok(_) => panic!("duplicates must not compile"),
    }
}

#[test]
fn distinct_bindings_are_kept_in_order() {
    let mut cfg = empty_config();
    cfg.keys.push(Binding { key: VirtualKey::Left, command: Message::MoveWindowLeft });
    cfg.keys.push(Binding { key: VirtualKey::Right, command: Message::MoveWindowRight });
    let compiled = compile(&cfg).unwrap();
    assert_eq!(compiled.bindings, cfg.keys);
    assert!(compiled.setup.is_empty());
}

#[test]
fn one_message_per_rule_and_enabled_category_in_order() {
    let mut cfg = empty_config();
    let mut first = window();
    first.bordered = Some(true);
    first.floating = Some(false);
    first.layered = Some(true);
    first.tray = Some(true);
    first.rules.push(rule(ApplicationIdentifier::Exe, "a.exe"));
    first.rules.push(rule(ApplicationIdentifier::Title, "B"));
    let mut second = window();
    second.name_change = Some(true);
    second.managed = Some(true);
    second.floating = Some(true);
    second.rules.push(rule(ApplicationIdentifier::Class, "C"));
    let third = window();
    cfg.windows.push(first);
    cfg.windows.push(second);
    cfg.windows.push(third);
    let setup = compile(&cfg).unwrap().setup;
    let s = String::from;
    assert_eq!(
        setup,
        vec![
            ProtocolMessage::IdentifyBorderOverflowApplication(ApplicationIdentifier::Exe, s("a.exe")),
            ProtocolMessage::IdentifyLayeredApplication(ApplicationIdentifier::Exe, s("a.exe")),
            ProtocolMessage::IdentifyTrayApplication(ApplicationIdentifier::Exe, s("a.exe")),
            ProtocolMessage::IdentifyBorderOverflowApplication(ApplicationIdentifier::Title, s("B")),
            ProtocolMessage::IdentifyLayeredApplication(ApplicationIdentifier::Title, s("B")),
            ProtocolMessage::IdentifyTrayApplication(ApplicationIdentifier::Title, s("B")),
            ProtocolMessage::FloatRule(ApplicationIdentifier::Class, s("C")),
            ProtocolMessage::ManageRule(ApplicationIdentifier::Class, s("C")),
            ProtocolMessage::IdentifyObjectNameChangeApplication(ApplicationIdentifier::Class, s("C")),
        ]
    );
}

#[test]
fn empty_config_compiles_to_nothing() {
    let compiled = compile(&empty_config()).unwrap();
    assert!(compiled.setup.is_empty());
    assert!(compiled.bindings.is_empty());
}

use komorebik::keyboard::{HotKey, HotkeyError, Registration, Registry, VirtualKey};
use komorebik::message::Message;

#[test]
fn key_codes_follow_the_platform_table() {
    assert_eq!(VirtualKey::LButton.code(), 0x01);
    assert_eq!(VirtualKey::Left.code(), 0x25);
    assert_eq!(VirtualKey::Zero.code(), 0x30);
    assert_eq!(VirtualKey::A.code(), 0x41);
    assert_eq!(VirtualKey::F24.code(), 0x87);
    assert_eq!(VirtualKey::LaunchApp2.code(), 0xB7);
}

#[test]
fn every_code_leads_back_to_its_key() {
    let mut found = 0;
    for c in 0u32..0x100 {
        if let Some(k) = VirtualKey::from_code(c) {
            assert_eq!(k.code(), c);
            found += 1;
        }
    }
    assert_eq!(found, 142);
}

#[test]
fn unknown_codes_name_no_key() {
    assert_eq!(VirtualKey::from_code(0), None);
    assert_eq!(VirtualKey::from_code(0x07), None);
    assert_eq!(VirtualKey::from_code(0x40), None);
    assert_eq!(VirtualKey::from_code(0xB8), None);
    assert_eq!(VirtualKey::from_code(u32::MAX), None);
}

#[test]
fn key_names_in_configuration() {
    assert_eq!(VirtualKey::from_name("Left"), Some(VirtualKey::Left));
    assert_eq!(VirtualKey::from_name("0"), Some(VirtualKey::Zero));
    assert_eq!(VirtualKey::from_name("NumPad7"), Some(VirtualKey::NumpadSeven));
    assert_eq!(VirtualKey::from_name("*"), Some(VirtualKey::Multiply));
    assert_eq!(VirtualKey::from_name("/"), Some(VirtualKey::Divide));
    assert_eq!(VirtualKey::from_name("F12"), Some(VirtualKey::F12));
    assert_eq!(VirtualKey::from_name("NumpadSeven"), None);
    assert_eq!(VirtualKey::from_name("left"), None);
    assert_eq!(VirtualKey::from_name(""), None);
    assert_eq!(VirtualKey::Decimal.name(), ".");
}

#[test]
fn every_name_leads_back_to_its_key() {
    for c in 0u32..0x100 {
        if let Some(k) = VirtualKey::from_code(c) {
            assert_eq!(VirtualKey::from_name(k.name()), Some(k));
        }
    }
}

#[test]
fn register_claims_the_key() {
    let mut registry = Registry::new();
    let mut h = HotKey::new(Message::MoveWindowLeft, VirtualKey::Left);
    assert!(!h.is_live());
    let r = h.register(&mut registry);
    assert_eq!(r, Ok(Registration { id: 0x25, virtual_key: 0x25 }));
    assert!(h.is_live());
    assert!(registry.holds(VirtualKey::Left));
    assert_eq!(h.message(), Message::MoveWindowLeft);
    assert_eq!(h.key(), VirtualKey::Left);
}

#[test]
fn second_handle_on_a_held_key_conflicts() {
    let mut registry = Registry::new();
    let mut first = HotKey::new(Message::MoveWindowLeft, VirtualKey::Left);
    let mut second = HotKey::new(Message::MoveWindowRight, VirtualKey::Left);
    assert!(first.register(&mut registry).is_ok());
    assert_eq!(second.register(&mut registry), Err(HotkeyError::Conflict(VirtualKey::Left)));
    assert!(first.is_live());
    assert!(!second.is_live());
    assert!(registry.holds(VirtualKey::Left));
}

#[test]
fn registering_a_live_handle_again_conflicts() {
    let mut registry = Registry::new();
    let mut h = HotKey::new(Message::Stop, VirtualKey::Q);
    assert!(h.register(&mut registry).is_ok());
    assert_eq!(h.register(&mut registry), Err(HotkeyError::Conflict(VirtualKey::Q)));
    assert!(h.is_live());
}

#[test]
fn release_yields_exactly_one_unregister_call() {
    let mut registry = Registry::new();
    let mut h = HotKey::new(Message::FocusWindowUp, VirtualKey::Up);
    h.register(&mut registry).unwrap();
    let mut calls = 0;
    for _ in 0..3 {
        if let Some(call) = h.unregister(&mut registry) {
            assert_eq!(call, Registration { id: 0x26, virtual_key: 0x26 });
            calls += 1;
        }
    }
    assert_eq!(calls, 1);
    assert!(!h.is_live());
    assert!(!registry.holds(VirtualKey::Up));
}

#[test]
fn released_key_can_be_registered_again() {
    let mut registry = Registry::new();
    let mut first = HotKey::new(Message::FocusWindowUp, VirtualKey::Up);
    first.register(&mut registry).unwrap();
    first.unregister(&mut registry);
    let mut second = HotKey::new(Message::FocusWindowDown, VirtualKey::Up);
    assert!(second.register(&mut registry).is_ok());
}

#[test]
fn unregistered_handle_yields_no_call() {
    let mut registry = Registry::new();
    let mut h = HotKey::new(Message::FocusWindowUp, VirtualKey::Up);
    assert_eq!(h.unregister(&mut registry), None);
}

#[test]
fn abandoned_registration_frees_the_key_without_a_call() {
    let mut registry = Registry::new();
    let mut h = HotKey::new(Message::FocusWindowUp, VirtualKey::Up);
    h.register(&mut registry).unwrap();
    h.abandon(&mut registry);
    assert!(!h.is_live());
    assert!(!registry.holds(VirtualKey::Up));
    assert_eq!(h.unregister(&mut registry), None);
}

#[test]
fn releasing_one_key_keeps_the_others() {
    let mut registry = Registry::new();
    let mut a = HotKey::new(Message::FocusWindowLeft, VirtualKey::A);
    let mut b = HotKey::new(Message::FocusWindowRight, VirtualKey::B);
    a.register(&mut registry).unwrap();
    b.register(&mut registry).unwrap();
    a.unregister(&mut registry);
    assert!(!registry.holds(VirtualKey::A));
    assert!(registry.holds(VirtualKey::B));
}

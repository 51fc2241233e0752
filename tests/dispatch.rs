use komorebik::config::{Binding, ConfigError, Konfig, Rule, Window};
use komorebik::dispatch::{dispatch, Action, Dispatch, Dispatcher, Event, Phase};
use komorebik::keyboard::VirtualKey;
use komorebik::message::{ApplicationIdentifier, Message, OperationDirection, ProtocolMessage};

fn config(keys: Vec<Binding>, floating: &[&str]) -> Konfig {
    let mut windows = Vec::new();
    if !floating.is_empty() {
        windows.push(Window {
            bordered: None,
            floating: Some(true),
            layered: None,
            managed: None,
            name_change: None,
            tray: None,
            rules: floating
                .iter()
                .map(|n| Rule { identifier: ApplicationIdentifier::Class, name: String::from(*n) })
                .collect(),
        });
    }
    Konfig { container_padding: None, workspace_padding: None, default: Vec::new(), keys, windows }
}

fn left_and_stop() -> Vec<Binding> {
    vec![
        Binding { key: VirtualKey::Left, command: Message::MoveWindowLeft },
        Binding { key: VirtualKey::Q, command: Message::Stop },
    ]
}

/// Starts the loop and answers every startup action with success.
fn running(cfg: &Konfig) -> Dispatcher {
    let (mut d, mut a) = Dispatcher::start(cfg).unwrap();
    while a != Action::Wait {
        a = d.step(Event::Done);
    }
    assert_eq!(d.state().phase, Phase::Running);
    d
}

#[test]
fn fired_key_delivers_its_command_once_then_waits() {
    let cfg = config(left_and_stop(), &[]);
    let mut d = running(&cfg);
    let a = d.step(Event::Fired(VirtualKey::Left.code() as u64));
    assert_eq!(a, Action::Deliver(ProtocolMessage::MoveWindow(OperationDirection::Left)));
    assert_eq!(d.step(Event::Done), Action::Wait);
    assert_eq!(d.state().phase, Phase::Running);
}

#[test]
fn unreachable_endpoint_during_startup_exits_before_registering() {
    let cfg = config(left_and_stop(), &["Notepad", "Calc"]);
    let (mut d, a) = Dispatcher::start(&cfg).unwrap();
    assert_eq!(
        a,
        Action::Deliver(ProtocolMessage::FloatRule(ApplicationIdentifier::Class, String::from("Notepad")))
    );
    let a = d.step(Event::Failed);
    assert_eq!(a, Action::Exit(1));
    assert_eq!(d.state().phase, Phase::Stopped);
    assert_eq!(d.state().acquired, 0);
    assert_eq!(d.step(Event::Done), Action::Exit(1));
}

#[test]
fn startup_delivers_setup_in_order_then_registers_each_binding() {
    let cfg = config(left_and_stop(), &["Notepad", "Calc"]);
    let (mut d, a) = Dispatcher::start(&cfg).unwrap();
    assert_eq!(
        a,
        Action::Deliver(ProtocolMessage::FloatRule(ApplicationIdentifier::Class, String::from("Notepad")))
    );
    assert_eq!(
        d.step(Event::Done),
        Action::Deliver(ProtocolMessage::FloatRule(ApplicationIdentifier::Class, String::from("Calc")))
    );
    assert_eq!(d.step(Event::Done), Action::Register(left_and_stop()[0]));
    assert_eq!(d.state().sent, 2);
    assert_eq!(d.step(Event::Done), Action::Register(left_and_stop()[1]));
    assert_eq!(d.step(Event::Done), Action::Wait);
    assert_eq!(d.state().acquired, 2);
}

#[test]
fn empty_setup_starts_with_registration() {
    let cfg = config(left_and_stop(), &[]);
    let (d, a) = Dispatcher::start(&cfg).unwrap();
    assert_eq!(a, Action::Register(left_and_stop()[0]));
    assert_eq!(d.state().phase, Phase::Registering);
}

#[test]
fn nothing_configured_runs_at_once() {
    let cfg = config(Vec::new(), &[]);
    let (d, a) = Dispatcher::start(&cfg).unwrap();
    assert_eq!(a, Action::Wait);
    assert_eq!(d.state().phase, Phase::Running);
}

#[test]
fn conflicting_registration_releases_and_exits_non_zero() {
    let cfg = config(left_and_stop(), &[]);
    let (mut d, _) = Dispatcher::start(&cfg).unwrap();
    assert_eq!(d.step(Event::Done), Action::Register(left_and_stop()[1]));
    assert_eq!(d.step(Event::Failed), Action::Release);
    assert_eq!(d.state().phase, Phase::Stopping);
    assert_eq!(d.step(Event::Done), Action::Exit(1));
}

#[test]
fn duplicate_binding_fails_start() {
    let keys = vec![
        Binding { key: VirtualKey::Left, command: Message::MoveWindowLeft },
        Binding { key: VirtualKey::Left, command: Message::MoveWindowRight },
    ];
    match Dispatcher::start(&config(keys, &["Notepad"])) {
        Err(e) => assert_eq!(e, ConfigError::DuplicateBinding(VirtualKey::Left)),
        Ok(_) => panic!("start must fail"),
    }
}

#[test]
fn bound_stop_releases_and_exits_zero() {
    let cfg = config(left_and_stop(), &[]);
    let mut d = running(&cfg);
    assert_eq!(d.step(Event::Fired(VirtualKey::Q.code() as u64)), Action::Release);
    assert_eq!(d.step(Event::Done), Action::Exit(0));
    assert_eq!(d.state().phase, Phase::Stopped);
}

#[test]
fn failed_delivery_while_running_stops_with_error() {
    let cfg = config(left_and_stop(), &[]);
    let mut d = running(&cfg);
    d.step(Event::Fired(VirtualKey::Left.code() as u64));
    assert_eq!(d.step(Event::Failed), Action::Release);
    assert_eq!(d.step(Event::Done), Action::Exit(1));
}

#[test]
fn unknown_or_unbound_events_are_ignored() {
    let cfg = config(left_and_stop(), &[]);
    let mut d = running(&cfg);
    assert_eq!(d.step(Event::Fired(0x07)), Action::Wait);
    assert_eq!(d.step(Event::Fired(VirtualKey::Right.code() as u64)), Action::Wait);
    assert_eq!(d.step(Event::Fired(1 << 40)), Action::Wait);
    assert_eq!(d.state().phase, Phase::Running);
}

#[test]
fn dispatch_resolves_ids() {
    let bindings = left_and_stop();
    assert_eq!(
        dispatch(&bindings, 0x25),
        Dispatch::Send(ProtocolMessage::MoveWindow(OperationDirection::Left))
    );
    assert_eq!(dispatch(&bindings, 0x51), Dispatch::Stop);
    assert_eq!(dispatch(&bindings, 0x27), Dispatch::Ignore);
    assert_eq!(dispatch(&bindings, 0xFFFF), Dispatch::Ignore);
}

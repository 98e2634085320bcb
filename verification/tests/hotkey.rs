use clip_translator::hotkey::{HotkeyBinding, HotkeyError, HotkeyEvent, HotkeyListener, Modifiers};

fn registered_listener() -> (HotkeyListener, u32) {
    let mut listener = HotkeyListener::new();
    let binding = HotkeyBinding::control_k();
    assert_eq!(listener.register(binding, Ok(())), Ok(()));
    (listener, binding.id())
}

fn firing(binding: u32, timestamp: u64) -> HotkeyEvent {
    HotkeyEvent { binding, timestamp }
}

#[test]
fn the_binding_is_control_and_k() {
    let binding = HotkeyBinding::control_k();
    assert_eq!(
        binding,
        HotkeyBinding {
            modifiers: Modifiers { control: true, shift: false, alt: false, meta: false },
            key: 'K',
        }
    );
    assert_eq!(binding.id(), 2_097_227);
}

#[test]
fn identifiers_tell_bindings_apart() {
    let none = Modifiers { control: false, shift: false, alt: false, meta: false };
    let all = Modifiers { control: true, shift: true, alt: true, meta: true };
    assert_eq!(HotkeyBinding { modifiers: none, key: 'K' }.id(), 75);
    assert_eq!(HotkeyBinding { modifiers: none, key: '\0' }.id(), 0);
    assert_eq!(HotkeyBinding { modifiers: all, key: '\u{10FFFF}' }.id(), 15 * 0x20_0000 + 0x10_FFFF);
    assert_eq!(
        HotkeyBinding {
            modifiers: Modifiers { control: false, shift: true, alt: false, meta: false },
            key: 'k',
        }
        .id(),
        2 * 0x20_0000 + 107
    );
    assert_eq!(
        HotkeyBinding {
            modifiers: Modifiers { control: false, shift: false, alt: true, meta: true },
            key: 'K',
        }
        .id(),
        12 * 0x20_0000 + 75
    );
}

#[test]
fn fire_then_poll_yields_exactly_one_event() {
    let (mut listener, id) = registered_listener();
    assert!(listener.deliver(firing(id, 1000)));
    assert_eq!(listener.pending_len(), 1);
    assert_eq!(listener.try_receive(), Some(firing(id, 1000)));
    assert_eq!(listener.try_receive(), None);
    assert_eq!(listener.pending_len(), 0);
}

#[test]
fn poll_without_firing_yields_nothing() {
    let (mut listener, _) = registered_listener();
    assert_eq!(listener.try_receive(), None);
    assert_eq!(listener.try_receive(), None);
    let mut unregistered = HotkeyListener::new();
    assert_eq!(unregistered.try_receive(), None);
}

#[test]
fn poll_fire_poll_yields_the_event_once() {
    let (mut listener, id) = registered_listener();
    assert_eq!(listener.try_receive(), None);
    assert!(listener.deliver(firing(id, 5)));
    assert_eq!(listener.try_receive(), Some(firing(id, 5)));
    assert_eq!(listener.try_receive(), None);
}

#[test]
fn events_are_received_in_order() {
    let (mut listener, id) = registered_listener();
    for timestamp in [3u64, 1, 2] {
        assert!(listener.deliver(firing(id, timestamp)));
    }
    assert_eq!(listener.try_receive(), Some(firing(id, 3)));
    assert!(listener.deliver(firing(id, 9)));
    assert_eq!(listener.try_receive(), Some(firing(id, 1)));
    assert_eq!(listener.try_receive(), Some(firing(id, 2)));
    assert_eq!(listener.try_receive(), Some(firing(id, 9)));
    assert_eq!(listener.try_receive(), None);
}

#[test]
fn an_unregistered_listener_takes_no_event() {
    let mut listener = HotkeyListener::new();
    assert!(!listener.is_registered());
    assert_eq!(listener.binding(), None);
    assert!(!listener.deliver(firing(HotkeyBinding::control_k().id(), 1)));
    assert_eq!(listener.pending_len(), 0);
    assert_eq!(listener.try_receive(), None);
}

#[test]
fn events_of_another_binding_are_dropped() {
    let (mut listener, id) = registered_listener();
    assert!(!listener.deliver(firing(id + 1, 1)));
    assert!(!listener.deliver(firing(75, 2)));
    assert_eq!(listener.try_receive(), None);
}

#[test]
fn a_refused_registration_leaves_the_listener_unregistered() {
    let mut listener = HotkeyListener::new();
    let refused = listener.register(HotkeyBinding::control_k(), Err("already taken".to_string()));
    assert_eq!(refused, Err(HotkeyError::Refused("already taken".to_string())));
    assert!(!listener.is_registered());
    assert_eq!(HotkeyError::Refused("already taken".to_string()).message(), "already taken");
    assert!(!listener.deliver(firing(HotkeyBinding::control_k().id(), 1)));
}

#[test]
fn a_second_registration_is_refused_and_the_first_kept() {
    let (mut listener, id) = registered_listener();
    let other = HotkeyBinding {
        modifiers: Modifiers { control: true, shift: true, alt: false, meta: false },
        key: 'J',
    };
    assert_eq!(listener.register(other, Ok(())), Err(HotkeyError::AlreadyRegistered));
    assert_eq!(
        listener.register(other, Err("busy".to_string())),
        Err(HotkeyError::AlreadyRegistered)
    );
    assert_eq!(listener.binding(), Some(HotkeyBinding::control_k()));
    assert!(listener.is_registered());
    assert!(listener.deliver(firing(id, 1)));
    assert!(!listener.deliver(firing(other.id(), 2)));
    assert_eq!(
        HotkeyError::AlreadyRegistered.message(),
        "a global hotkey is already registered"
    );
}

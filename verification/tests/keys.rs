use wakepcbox::control::{idle_action, key_action, IdleAction, KeyAction};
use wakepcbox::config::ConfigData;
use wakepcbox::keyevent::{
    ButtonEdgeEvent, Key, KeyEvent, KeySwitch, PendingEdges, GARD_TIME, KEY_SLEEP_TIME,
};
use wakepcbox::signal::EdgeFlags;
use wakepcbox::wakepacket::TargetDevice;

#[test]
fn constants_of_the_poll() {
    assert_eq!(GARD_TIME, 30);
    assert_eq!(KEY_SLEEP_TIME, 10);
}

#[test]
fn new_switch_has_all_buttons_released() {
    let mut sw = KeySwitch::new();
    for key in [Key::Up, Key::Down, Key::Left, Key::Right, Key::Center] {
        assert!(!sw.get_current_button_state(key));
        assert_eq!(sw.get_button_press_time(key), 0);
    }
    assert!(!sw.get_key_sleep());
    assert!(sw.get_key_event_and_clear().is_empty());
}

#[test]
fn bounce_train_gives_one_down_and_one_up() {
    let mut sw = KeySwitch::new();
    let up = PendingEdges::only(Key::Up);
    sw.poll_tick(up, 100);
    for t in [100, 101, 110, 120, 129] {
        sw.poll_tick(up, t);
    }
    assert!(sw.get_current_button_state(Key::Up));
    sw.poll_tick(up, 350);
    for t in [350, 360, 370, 379] {
        sw.poll_tick(up, t);
    }
    assert!(!sw.get_current_button_state(Key::Up));
    assert_eq!(sw.get_button_press_time(Key::Up), 250);
    assert_eq!(sw.get_key_event_and_clear(), vec![KeyEvent::UpKeyDown, KeyEvent::UpKeyUp]);
    assert!(sw.get_key_event_and_clear().is_empty());
}

#[test]
fn long_bounce_trains_add_nothing() {
    let mut sw = KeySwitch::new();
    let c = PendingEdges::only(Key::Center);
    sw.poll_tick(c, 1000);
    for _ in 0..1000 {
        sw.poll_tick(c, 1029);
    }
    assert_eq!(sw.get_key_event_and_clear(), vec![KeyEvent::CenterKeyDown]);
    assert!(sw.get_current_button_state(Key::Center));
}

#[test]
fn guard_time_is_thirty_milliseconds() {
    let mut sw = KeySwitch::new();
    let d = PendingEdges::only(Key::Down);
    sw.poll_tick(d, 29);
    assert!(sw.get_key_event_and_clear().is_empty());
    sw.poll_tick(d, 30);
    assert_eq!(sw.get_key_event_and_clear(), vec![KeyEvent::DownKeyDown]);
    sw.poll_tick(d, 59);
    assert!(sw.get_key_event_and_clear().is_empty());
    sw.poll_tick(d, 60);
    assert_eq!(sw.get_key_event_and_clear(), vec![KeyEvent::DownKeyUp]);
    assert_eq!(sw.get_button_press_time(Key::Down), 30);
}

#[test]
fn time_running_backward_accepts_nothing() {
    let mut sw = KeySwitch::new();
    let d = PendingEdges::only(Key::Left);
    sw.poll_tick(d, 1000);
    sw.poll_tick(d, 500);
    assert_eq!(sw.get_key_event_and_clear(), vec![KeyEvent::LeftKeyDown]);
    assert!(sw.get_current_button_state(Key::Left));
}

#[test]
fn buttons_are_debounced_each_on_its_own() {
    let mut sw = KeySwitch::new();
    sw.poll_tick(PendingEdges::only(Key::Up), 100);
    sw.poll_tick(PendingEdges::only(Key::Down), 105);
    sw.poll_tick(PendingEdges::only(Key::Up), 110);
    sw.poll_tick(PendingEdges::only(Key::Down), 140);
    sw.poll_tick(PendingEdges::only(Key::Up), 150);
    assert_eq!(
        sw.get_key_event_and_clear(),
        vec![KeyEvent::UpKeyDown, KeyEvent::DownKeyDown, KeyEvent::DownKeyUp, KeyEvent::UpKeyUp]
    );
    assert_eq!(sw.get_button_press_time(Key::Down), 35);
    assert_eq!(sw.get_button_press_time(Key::Up), 50);
}

#[test]
fn one_poll_considers_the_buttons_in_a_fixed_order() {
    let mut sw = KeySwitch::new();
    let all = PendingEdges { up: true, down: true, left: true, right: true, center: true };
    sw.poll_tick(all, 100);
    assert_eq!(
        sw.get_key_event_and_clear(),
        vec![
            KeyEvent::UpKeyDown,
            KeyEvent::DownKeyDown,
            KeyEvent::RightKeyDown,
            KeyEvent::CenterKeyDown,
            KeyEvent::LeftKeyDown,
        ]
    );
    sw.poll_tick(PendingEdges::none(), 200);
    assert!(sw.get_key_event_and_clear().is_empty());
}

#[test]
fn events_queue_up_until_they_are_taken() {
    let mut sw = KeySwitch::new();
    sw.poll_tick(PendingEdges::only(Key::Right), 100);
    sw.poll_tick(PendingEdges::only(Key::Right), 200);
    sw.poll_tick(PendingEdges::only(Key::Left), 300);
    assert_eq!(
        sw.get_key_event_and_clear(),
        vec![KeyEvent::RightKeyDown, KeyEvent::RightKeyUp, KeyEvent::LeftKeyDown]
    );
    sw.poll_tick(PendingEdges::only(Key::Left), 400);
    assert_eq!(sw.get_key_event_and_clear(), vec![KeyEvent::LeftKeyUp]);
}

#[test]
fn clearing_drops_the_queue_and_keeps_the_buttons() {
    let mut sw = KeySwitch::new();
    sw.poll_tick(PendingEdges::only(Key::Right), 100);
    sw.clear_all_button_event();
    assert!(sw.get_key_event_and_clear().is_empty());
    assert!(sw.get_current_button_state(Key::Right));
}

#[test]
fn asleep_nothing_is_queued_and_nothing_is_replayed() {
    let mut sw = KeySwitch::new();
    sw.poll_tick(PendingEdges::only(Key::Up), 100);
    sw.set_key_sleep(true);
    sw.set_key_sleep(true);
    assert!(sw.get_key_sleep());
    sw.poll_tick(PendingEdges::only(Key::Up), 200);
    sw.poll_tick(PendingEdges::only(Key::Down), 300);
    assert!(sw.get_current_button_state(Key::Up));
    assert!(!sw.get_current_button_state(Key::Down));
    sw.set_key_sleep(false);
    assert!(sw.get_key_event_and_clear().is_empty());
    sw.poll_tick(PendingEdges::only(Key::Up), 400);
    assert_eq!(sw.get_key_event_and_clear(), vec![KeyEvent::UpKeyUp]);
    assert_eq!(sw.get_button_press_time(Key::Up), 300);
}

#[test]
fn waking_keeps_nothing_but_loses_nothing_new() {
    let mut sw = KeySwitch::new();
    sw.set_key_sleep(false);
    sw.poll_tick(PendingEdges::only(Key::Up), 100);
    sw.set_key_sleep(false);
    assert_eq!(sw.get_key_event_and_clear(), vec![KeyEvent::UpKeyDown]);
}

#[test]
fn events_name_their_button_and_edge() {
    assert_eq!(KeyEvent::UpKeyDown.key(), Key::Up);
    assert_eq!(KeyEvent::DownKeyUp.key(), Key::Down);
    assert_eq!(KeyEvent::LeftKeyUp.key(), Key::Left);
    assert_eq!(KeyEvent::RightKeyDown.key(), Key::Right);
    assert_eq!(KeyEvent::CenterKeyUp.key(), Key::Center);
    assert!(KeyEvent::CenterKeyUp.is_release());
    assert!(KeyEvent::UpKeyUp.is_release());
    assert!(!KeyEvent::UpKeyDown.is_release());
    assert!(!KeyEvent::LeftKeyDown.is_release());
}

#[test]
fn flags_are_raised_once_and_taken_once() {
    let flags = EdgeFlags::new();
    assert_eq!(flags.take(), PendingEdges::none());
    flags.on_edge_signal(Key::Left);
    flags.on_edge_signal(Key::Left);
    flags.on_edge_signal(Key::Center);
    assert_eq!(
        flags.take(),
        PendingEdges { up: false, down: false, left: true, right: false, center: true }
    );
    assert_eq!(flags.take(), PendingEdges::none());
    flags.on_edge_signal(Key::Up);
    flags.on_edge_signal(Key::Down);
    flags.on_edge_signal(Key::Right);
    assert_eq!(
        flags.take(),
        PendingEdges { up: true, down: true, left: false, right: true, center: false }
    );
}

#[test]
fn pending_edges_of_one_button() {
    assert_eq!(
        PendingEdges::only(Key::Right),
        PendingEdges { up: false, down: false, left: false, right: true, center: false }
    );
}

#[test]
fn keys_outside_the_menu() {
    assert_eq!(key_action(&Vec::new()), None);
    assert_eq!(key_action(&vec![KeyEvent::UpKeyDown]), Some(KeyAction::Wake(TargetDevice::Device1)));
    assert_eq!(key_action(&vec![KeyEvent::UpKeyUp]), Some(KeyAction::Wake(TargetDevice::Device1)));
    assert_eq!(key_action(&vec![KeyEvent::DownKeyUp]), Some(KeyAction::Wake(TargetDevice::Device2)));
    assert_eq!(key_action(&vec![KeyEvent::LeftKeyDown]), Some(KeyAction::Wake(TargetDevice::Device3)));
    assert_eq!(key_action(&vec![KeyEvent::RightKeyUp]), Some(KeyAction::Wake(TargetDevice::Device4)));
    assert_eq!(key_action(&vec![KeyEvent::CenterKeyDown]), Some(KeyAction::OpenMenu));
    assert_eq!(
        key_action(&vec![KeyEvent::CenterKeyUp, KeyEvent::UpKeyDown]),
        Some(KeyAction::OpenMenu)
    );
}

#[test]
fn idle_time_leads_to_sleep_or_a_dark_display() {
    let mut c = ConfigData::new();
    assert_eq!(idle_action(&c, 29), IdleAction::Wait);
    assert_eq!(idle_action(&c, 30), IdleAction::Sleep);
    c.idle_in_sleep_time = 0;
    assert_eq!(idle_action(&c, 29), IdleAction::Wait);
    assert_eq!(idle_action(&c, 30), IdleAction::DisplayOff);
    c.display_off_time = 0;
    assert_eq!(idle_action(&c, 1000), IdleAction::Wait);
}

#[test]
fn drained_events_carry_the_length_of_the_press() {
    let mut sw = KeySwitch::new();
    sw.poll_tick(PendingEdges::only(Key::Center), 1000);
    sw.poll_tick(PendingEdges::only(Key::Left), 1100);
    sw.poll_tick(PendingEdges::only(Key::Center), 1234);
    assert_eq!(
        sw.drain_events(),
        vec![
            ButtonEdgeEvent { event: KeyEvent::CenterKeyDown, press_duration_ms: None },
            ButtonEdgeEvent { event: KeyEvent::LeftKeyDown, press_duration_ms: None },
            ButtonEdgeEvent { event: KeyEvent::CenterKeyUp, press_duration_ms: Some(234) },
        ]
    );
    assert!(sw.drain_events().is_empty());
    assert!(sw.get_key_event_and_clear().is_empty());
    assert_eq!(sw.get_button_press_time(Key::Center), 234);
}

#[test]
fn press_length_wraps_at_two_to_the_thirty_two() {
    let mut sw = KeySwitch::new();
    sw.poll_tick(PendingEdges::only(Key::Up), 100);
    sw.poll_tick(PendingEdges::only(Key::Up), 100 + 4294967296 + 7);
    assert_eq!(sw.get_button_press_time(Key::Up), 7);
    assert_eq!(
        sw.drain_events()[1],
        ButtonEdgeEvent { event: KeyEvent::UpKeyUp, press_duration_ms: Some(7) }
    );
}

#[test]
fn one_press_gives_one_pair_among_the_events_of_other_buttons() {
    let mut sw = KeySwitch::new();
    let both = PendingEdges { up: true, down: false, left: true, right: false, center: false };
    let up = PendingEdges::only(Key::Up);
    sw.poll_tick(both, 100);
    sw.poll_tick(up, 110);
    sw.poll_tick(both, 120);
    sw.poll_tick(PendingEdges::only(Key::Left), 135);
    sw.poll_tick(both, 400);
    sw.poll_tick(up, 410);
    sw.poll_tick(both, 429);
    let events = sw.get_key_event_and_clear();
    let of_up: Vec<KeyEvent> = events.iter().copied().filter(|e| e.key() == Key::Up).collect();
    assert_eq!(of_up, vec![KeyEvent::UpKeyDown, KeyEvent::UpKeyUp]);
    assert_eq!(
        events,
        vec![
            KeyEvent::UpKeyDown,
            KeyEvent::LeftKeyDown,
            KeyEvent::LeftKeyUp,
            KeyEvent::UpKeyUp,
            KeyEvent::LeftKeyDown,
        ]
    );
    assert_eq!(sw.get_button_press_time(Key::Up), 300);
    assert!(!sw.get_current_button_state(Key::Up));
}

//! What the appliance does between sessions: which key wakes which
//! machine, and when it goes to sleep.

use vstd::prelude::*;
use crate::config::ConfigData;
use crate::keyevent::{key_of_event, Key, KeyEvent};
use crate::wakepacket::TargetDevice;

verus! {

/// What a key asks for outside the menu.
#[derive(Debug, Clone, Copy, PartialEq, Eq, Structural)]
pub enum KeyAction {
    /// Wake a machine.
    Wake(TargetDevice),
    /// Open the menu.
    OpenMenu,
}

/// What to do after a second without a key.
#[derive(Debug, Clone, Copy, PartialEq, Eq, Structural)]
pub enum IdleAction {
    /// Go on waiting.
    Wait,
    /// Turn the display dark.
    DisplayOff,
    /// Go to sleep.
    Sleep,
}

/// What `event` asks for: the four outer buttons wake the first to the
/// fourth machine, the center button opens the menu. A button going down
/// counts as much as one coming up.
pub open spec fn action_of(event: KeyEvent) -> KeyAction {
    match key_of_event(event) {
        Key::Up => KeyAction::Wake(TargetDevice::Device1),
        Key::Down => KeyAction::Wake(TargetDevice::Device2),
        Key::Left => KeyAction::Wake(TargetDevice::Device3),
        Key::Right => KeyAction::Wake(TargetDevice::Device4),
        Key::Center => KeyAction::OpenMenu,
    }
}

/// What to do after `idle_seconds` without a key: with sleep switched
/// off, the display goes dark once its time is up, unless that is switched
/// off too; with sleep switched on, the appliance sleeps once the time to
/// sleep is up.
pub open spec fn idle_action_of(
    idle_in_sleep_time: u32,
    display_off_time: u32,
    idle_seconds: u32,
) -> IdleAction {
    if idle_in_sleep_time == 0 {
        if display_off_time > 0 && idle_seconds >= display_off_time {
            IdleAction::DisplayOff
        } else {
            IdleAction::Wait
        }
    } else if idle_seconds >= idle_in_sleep_time {
        IdleAction::Sleep
    } else {
        IdleAction::Wait
    }
}

/// What the first of `events` asks for; nothing without an event. Only
/// the first event of a batch counts.
pub fn key_action(events: &Vec<KeyEvent>) -> (r: Option<KeyAction>)
    ensures
        r == if events.len() == 0 {
            None
        } else {
            Some(action_of(events@[0]))
        },
{
    if events.len() == 0 {
        return None;
    }
    Some(
        match events[0].key() {
            Key::Up => KeyAction::Wake(TargetDevice::Device1),
            Key::Down => KeyAction::Wake(TargetDevice::Device2),
            Key::Left => KeyAction::Wake(TargetDevice::Device3),
            Key::Right => KeyAction::Wake(TargetDevice::Device4),
            Key::Center => KeyAction::OpenMenu,
        },
    )
}

/// What to do after `idle_seconds` without a key, under the settings
/// `config`.
pub fn idle_action(config: &ConfigData, idle_seconds: u32) -> (r: IdleAction)
    ensures
        r == idle_action_of(config.idle_in_sleep_time, config.display_off_time, idle_seconds),
{
    if config.idle_in_sleep_time == 0 {
        if config.display_off_time > 0 && idle_seconds >= config.display_off_time {
            IdleAction::DisplayOff
        } else {
            IdleAction::Wait
        }
    } else if idle_seconds >= config.idle_in_sleep_time {
        IdleAction::Sleep
    } else {
        IdleAction::Wait
    }
}

} // verus!

//! The hardware addresses of the machines to wake, and the packet that
//! wakes one.

use vstd::prelude::*;
use crate::alphabet::{is_digit, is_hex_digit, is_lower_hex, is_upper_hex};
use crate::shape::{check_shape, well_shaped};
use crate::text::chars_of;
use crate::ui::InputTypeChar;

verus! {

/// The number of machines that can be woken.
pub const NUM_OF_MAX_TARGET: usize = 4;

/// Which machine to wake.
#[derive(Debug, Clone, Copy, PartialEq, Eq, Structural)]
pub enum TargetDevice {
    /// No machine.
    NoDevice,
    Device1,
    Device2,
    Device3,
    Device4,
}

/// Why no packet was made.
#[derive(Debug, Clone, Copy, PartialEq, Eq, Structural)]
pub enum WakeError {
    /// No machine was named.
    TargetNotSet,
}

/// The hardware address of each machine.
#[derive(Debug, Clone, Copy)]
pub struct WakePacket {
    pub target_mac: [[u8; 6]; 4],
}

/// The place of `target` among the addresses.
pub open spec fn target_index(target: TargetDevice) -> Option<int> {
    match target {
        TargetDevice::NoDevice => None,
        TargetDevice::Device1 => Some(0),
        TargetDevice::Device2 => Some(1),
        TargetDevice::Device3 => Some(2),
        TargetDevice::Device4 => Some(3),
    }
}

/// The value of a hexadecimal digit.
pub open spec fn hex_value(ch: char) -> int {
    if is_digit(ch) {
        ch as int - '0' as int
    } else if is_upper_hex(ch) {
        ch as int - 'A' as int + 10
    } else if is_lower_hex(ch) {
        ch as int - 'a' as int + 10
    } else {
        0
    }
}

/// Byte `k` of the hardware address written as `text`: the value of its
/// group of two digits.
pub open spec fn mac_byte(text: Seq<char>, k: int) -> u8 {
    (hex_value(text[3 * k]) * 16 + hex_value(text[3 * k + 1])) as u8
}

/// The six bytes of the hardware address written as `text`.
pub open spec fn mac_bytes(text: Seq<char>) -> Seq<u8> {
    Seq::new(6, |k: int| mac_byte(text, k))
}

/// The payload of the packet that wakes the machine with address `mac`:
/// six bytes 0xFF, then the address sixteen times over.
pub open spec fn magic_payload(mac: Seq<u8>) -> Seq<u8> {
    Seq::new(
        102,
        |i: int|
            if i < 6 {
                0xFFu8
            } else {
                mac[(i - 6) % 6]
            },
    )
}

/// `wake_on_lan::MagicPacket::new` makes the packet for a hardware address
/// and `MagicPacket::magic_bytes` hands out its payload: 102 bytes, six of
/// them 0xFF and then the six bytes of the address sixteen times.
#[verifier::external_body]
fn payload_for(mac: &[u8; 6]) -> (bytes: Vec<u8>)
    ensures
        bytes@ == magic_payload(mac@),
{
    wake_on_lan::MagicPacket::new(mac).magic_bytes().to_vec()
}

/// The value of the hexadecimal digit `ch`.
fn digit_value(ch: char) -> (r: u8)
    requires
        is_hex_digit(ch),
    ensures
        r == hex_value(ch),
        r < 16,
{
    if ch >= '0' && ch <= '9' {
        (ch as u8) - ('0' as u8)
    } else if ch >= 'A' && ch <= 'F' {
        (ch as u8) - ('A' as u8) + 10
    } else {
        (ch as u8) - ('a' as u8) + 10
    }
}

/// The bytes of the hardware address written as `mac`: six groups of two
/// hexadecimal digits with a colon between them. Anything else is no
/// address.
pub fn parse_mac_address(mac: &str) -> (r: Option<[u8; 6]>)
    ensures
        r is Some == well_shaped(InputTypeChar::HWAddressType, mac@),
        r matches Some(bytes) ==> bytes@ == mac_bytes(mac@),
{
    let text = chars_of(mac);
    if !check_shape(InputTypeChar::HWAddressType, &text) {
        return None;
    }
    let mut bytes: [u8; 6] = [0u8;6];
    let mut k: usize = 0;
    while k < 6
        invariant
            k <= 6,
            text@ == mac@,
            well_shaped(InputTypeChar::HWAddressType, text@),
            forall|j: int| 0 <= j < k ==> bytes@[j] == mac_byte(text@, j),
        decreases 6 - k,
    {
        let high = digit_value(text[3 * k]);
        let low = digit_value(text[3 * k + 1]);
        bytes[k] = high * 16 + low;
        k += 1;
    }
    Some(bytes)
}

impl WakePacket {
    /// Every address zero.
    pub fn new() -> (r: Self)
        ensures
            forall|i: int, k: int| 0 <= i < 4 && 0 <= k < 6 ==> r.target_mac@[i]@[k] == 0,
    {
        WakePacket { target_mac: [[0u8;6];4] }
    }

    /// Sets the address of `target` to the one written as `mac`. Without a
    /// target nothing changes.
    pub fn set_target_mac(&mut self, target: TargetDevice, mac: &str)
        requires
            well_shaped(InputTypeChar::HWAddressType, mac@),
        ensures
            target_index(target) matches Some(i) ==> final(self).target_mac@[i]@ == mac_bytes(mac@),
            forall|i: int|
                0 <= i < 4 && target_index(target) != Some(i) ==> final(self).target_mac@[i] == old(
                    self,
                ).target_mac@[i],
    {
        match parse_mac_address(mac) {
            Some(bytes) => {
                match target {
                    TargetDevice::Device1 => {
                        self.target_mac[0] = bytes;
                    },
                    TargetDevice::Device2 => {
                        self.target_mac[1] = bytes;
                    },
                    TargetDevice::Device3 => {
                        self.target_mac[2] = bytes;
                    },
                    TargetDevice::Device4 => {
                        self.target_mac[3] = bytes;
                    },
                    TargetDevice::NoDevice => {},
                }
            },
            None => {},
        }
    }

    /// The payload of the packet that wakes `target`.
    pub fn magic_bytes(&self, target: TargetDevice) -> (r: Result<Vec<u8>, WakeError>)
        ensures
            r is Ok == (target != TargetDevice::NoDevice),
            r matches Ok(bytes) ==> bytes@ == magic_payload(
                self.target_mac@[target_index(target)->0]@,
            ),
            r matches Err(e) ==> e == WakeError::TargetNotSet,
    {
        let mac: [u8; 6] = match target {
            TargetDevice::Device1 => self.target_mac[0],
            TargetDevice::Device2 => self.target_mac[1],
            TargetDevice::Device3 => self.target_mac[2],
            TargetDevice::Device4 => self.target_mac[3],
            TargetDevice::NoDevice => {
                return Err(WakeError::TargetNotSet);
            },
        };
        Ok(payload_for(&mac))
    }
}

} // verus!

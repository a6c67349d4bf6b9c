use vstd::prelude::*;

use crate::endpoint::Endpoint;
use crate::errors::ButtplugDeviceError;
use crate::hardware::Hardware;
use crate::wire::{dec_chars, decimal_string, decode_le16, le16_value};

verus! {

/// What the logic reads of one enumerated input device: its identity
/// numbers, its display name when the driver reports one, and whether it
/// offers force feedback. The transport adapter fills this in from the
/// opened device before handing it over.
#[derive(Debug)]
pub struct EvdevDeviceInfo {
    /// Display name, when the driver reports one.
    pub name: Option<String>,
    /// Vendor identifier.
    pub vendor: u16,
    /// Product identifier; doubles as the device's address.
    pub product: u16,
    /// Device version.
    pub version: u16,
    /// Whether the device supports force-feedback effects.
    pub supports_ff: bool,
}

/// Parameters of one force-feedback effect upload, as plain values: a
/// rumble with no direction and no trigger, replayed once for a fixed
/// duration. The transport adapter turns this into the driver's effect
/// structure verbatim.
#[derive(Clone, Copy, Debug, PartialEq, Eq, Structural)]
pub struct FfEffectData {
    /// Direction of the effect; unused for rumble, always zero.
    pub direction: u16,
    /// Button that would trigger the effect; zero for none.
    pub trigger_button: u16,
    /// Trigger re-fire interval; zero for none.
    pub trigger_interval: u16,
    /// Delay before replay starts, in milliseconds.
    pub replay_delay: u16,
    /// Replay duration, in milliseconds.
    pub replay_length: u16,
    /// Magnitude of the weak rumble motor.
    pub weak_magnitude: u16,
    /// Magnitude of the strong rumble motor.
    pub strong_magnitude: u16,
}

/// Builds the rumble effect for one queued write: the magnitude is the
/// 16-bit value packed little-endian at the head of the payload, and both
/// rumble motors play it for `length_ms` milliseconds, with no direction,
/// no trigger and no start delay. The payload carries the magnitude by
/// protocol construction, so at least two bytes are required here.
pub fn vibrate_effect(magnitude: &Vec<u8>, length_ms: u16) -> (r: FfEffectData)
    requires
        magnitude@.len() >= 2,
    ensures
        r == (FfEffectData {
            direction: 0,
            trigger_button: 0,
            trigger_interval: 0,
            replay_delay: 0,
            replay_length: length_ms,
            weak_magnitude: le16_value(magnitude@),
            strong_magnitude: le16_value(magnitude@),
        }),
{
    let m = decode_le16(magnitude.as_slice());
    FfEffectData {
        direction: 0,
        trigger_button: 0,
        trigger_interval: 0,
        replay_delay: 0,
        replay_length: length_ms,
        weak_magnitude: m,
        strong_magnitude: m,
    }
}

/// The device-side state of one live force-feedback device: a connection
/// flag beside the write queue the transport adapter drains. The adapter
/// owns the queue and the dedicated writer thread; everything decided
/// here is decided on plain values.
#[derive(Clone, Copy, Debug, PartialEq, Eq, Structural)]
pub struct EvdevDeviceImpl {
    /// Whether the device is still connected.
    pub connected: bool,
}

impl EvdevDeviceImpl {
    /// State for a device that just connected.
    pub fn new() -> (r: EvdevDeviceImpl)
        ensures
            r.connected,
    {
        EvdevDeviceImpl { connected: true }
    }

    /// Whether the device is still connected.
    pub fn connected(&self) -> (r: bool)
        ensures
            r == self.connected,
    {
        self.connected
    }

    /// Flips the connection flag to false; idempotent. Returns whether
    /// the device was connected before, so `Removed` is emitted exactly
    /// once. The writer thread is not torn down here: it stops when its
    /// queue closes.
    pub fn disconnect(&mut self) -> (was_connected: bool)
        ensures
            !final(self).connected,
            was_connected == old(self).connected,
    {
        let was_connected = self.connected;
        self.connected = false;
        was_connected
    }

    /// Gate for a write: hands the payload back for queueing to the
    /// writer thread when the device is connected, and fails with
    /// `NotConnected` otherwise.
    pub fn write_value(&self, data: Vec<u8>) -> (r: Result<Vec<u8>, ButtplugDeviceError>)
        ensures
            self.connected ==> ({
                &&& r matches Ok(d) && d@ == data@
            }),
            !self.connected ==> r == Err::<Vec<u8>, ButtplugDeviceError>(
                ButtplugDeviceError::NotConnected,
            ),
    {
        if self.connected {
            Ok(data)
        } else {
            Err(ButtplugDeviceError::NotConnected)
        }
    }

    /// One-shot reads are meaningless on a force-feedback device, so this
    /// deterministically fails rather than hanging.
    pub fn read_value(&self) -> (r: Result<Vec<u8>, ButtplugDeviceError>)
        ensures
            r == Err::<Vec<u8>, ButtplugDeviceError>(ButtplugDeviceError::NotSupported),
    {
        Err(ButtplugDeviceError::NotSupported)
    }

    /// The device pushes no notifications, so subscriptions are
    /// meaningless and deterministically fail.
    pub fn subscribe(&self) -> (r: Result<(), ButtplugDeviceError>)
        ensures
            r == Err::<(), ButtplugDeviceError>(ButtplugDeviceError::NotSupported),
    {
        Err(ButtplugDeviceError::NotSupported)
    }

    /// Counterpart of `subscribe`: equally meaningless here.
    pub fn unsubscribe(&self) -> (r: Result<(), ButtplugDeviceError>)
        ensures
            r == Err::<(), ButtplugDeviceError>(ButtplugDeviceError::NotSupported),
    {
        Err(ButtplugDeviceError::NotSupported)
    }
}

/// The communication specifier discovery attaches to a found device; the
/// force-feedback family carries no further identity in it.
#[derive(Clone, Copy, Debug, PartialEq, Eq, Structural)]
pub enum ProtocolCommunicationSpecifier {
    /// A force-feedback input device.
    Evdev,
}

/// A discovered force-feedback device that is not yet finalized: it holds
/// what enumeration read, and resolves into a live hardware handle on
/// connect.
#[derive(Debug)]
pub struct EvdevHardwareConnector {
    /// What discovery read of the device.
    pub device: EvdevDeviceInfo,
}

impl EvdevHardwareConnector {
    /// Wraps an enumerated device for later finalization.
    pub fn new(device: EvdevDeviceInfo) -> (r: EvdevHardwareConnector)
        ensures
            r.device == device,
    {
        EvdevHardwareConnector { device }
    }

    /// The advertised identity the configuration layer resolves; the
    /// family itself is the whole identity.
    pub fn specifier(&self) -> (r: ProtocolCommunicationSpecifier)
        ensures
            r is Evdev,
    {
        ProtocolCommunicationSpecifier::Evdev
    }

    /// Finalizes the device into a live hardware handle: named after the
    /// device or a fixed fallback, addressed by its product identifier
    /// rendered in decimal, and bound to the family's two endpoints.
    pub fn connect(&self) -> (r: Hardware)
        ensures
            r.connected,
            (match self.device.name {
                Some(n) => r.name@ == n@,
                None => r.name@ == "Unnamed Device"@,
            }),
            r.address@ == dec_chars(self.device.product as nat),
            r.endpoints@ =~= seq![Endpoint::Rx, Endpoint::Tx],
    {
        let address = decimal_string(self.device.product as u64);
        let mut endpoints: Vec<Endpoint> = Vec::new();
        endpoints.push(Endpoint::Rx);
        endpoints.push(Endpoint::Tx);
        match &self.device.name {
            Some(n) => Hardware::new(n.as_str(), address.as_str(), endpoints),
            None => Hardware::new("Unnamed Device", address.as_str(), endpoints),
        }
    }
}

} // verus!

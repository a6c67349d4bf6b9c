use vstd::prelude::*;

use crate::endpoint::Endpoint;
use crate::errors::ButtplugDeviceError;

verus! {

/// A write of raw bytes to one endpoint of a device, optionally asking the
/// transport for an acknowledgment.
#[derive(Clone, Debug)]
pub struct HardwareWriteCmd {
    /// The endpoint written to.
    pub endpoint: Endpoint,
    /// The raw payload handed to the transport.
    pub data: Vec<u8>,
    /// Whether the transport must acknowledge the write.
    pub write_with_response: bool,
}

impl HardwareWriteCmd {
    /// Packs a write command.
    pub fn new(endpoint: Endpoint, data: Vec<u8>, write_with_response: bool) -> (r:
        HardwareWriteCmd)
        ensures
            r.endpoint == endpoint,
            r.data == data,
            r.write_with_response == write_with_response,
    {
        HardwareWriteCmd { endpoint, data, write_with_response }
    }
}

/// A one-shot read from one endpoint.
#[derive(Clone, Copy, Debug, PartialEq, Eq, Structural)]
pub struct HardwareReadCmd {
    /// The endpoint read from.
    pub endpoint: Endpoint,
}

/// A subscription to notifications on one endpoint.
#[derive(Clone, Copy, Debug, PartialEq, Eq, Structural)]
pub struct HardwareSubscribeCmd {
    /// The endpoint subscribed to.
    pub endpoint: Endpoint,
}

/// Cancellation of a prior subscription on one endpoint.
#[derive(Clone, Copy, Debug, PartialEq, Eq, Structural)]
pub struct HardwareUnsubscribeCmd {
    /// The endpoint unsubscribed from.
    pub endpoint: Endpoint,
}

/// A lifecycle or notification event emitted for a device, fanned out to
/// every subscriber of its event channel.
#[derive(Clone, Debug)]
pub enum HardwareEvent {
    /// Data arrived on a subscribed endpoint of the device at this address.
    Notification(String, Endpoint, Vec<u8>),
    /// The device at this address is gone. Terminal: no further events
    /// follow for that address.
    Removed(String),
}

/// One live connected device: its display name, stable address, the set of
/// endpoints its transport supports, and the connection-state flag.
///
/// This is the decision layer of the handle: it validates operations
/// against the endpoint set and the connection flag, and the surrounding
/// transport adapter performs the accepted operation. Exactly one owner
/// issues writes at a time; the connection flag may be read by many
/// holders.
pub struct Hardware {
    /// Display name of the device.
    pub name: String,
    /// Stable address/identifier of the device.
    pub address: String,
    /// Endpoints this device's transport supports. Immutable, set at
    /// construction.
    pub endpoints: Vec<Endpoint>,
    /// Whether the device is still connected. Flips to false exactly once.
    pub connected: bool,
}

impl Hardware {
    /// Whether `endpoint` is one of the device's supported endpoints.
    pub open spec fn supports(&self, endpoint: Endpoint) -> bool {
        self.endpoints@.contains(endpoint)
    }

    /// A freshly created handle for a device that just finished
    /// connecting.
    pub fn new(name: &str, address: &str, endpoints: Vec<Endpoint>) -> (r: Hardware)
        ensures
            r.name@ == name@,
            r.address@ == address@,
            r.endpoints == endpoints,
            r.connected,
    {
        Hardware {
            name: name.to_owned(),
            address: address.to_owned(),
            endpoints,
            connected: true,
        }
    }

    /// Whether the device is still connected.
    pub fn connected(&self) -> (r: bool)
        ensures
            r == self.connected,
    {
        self.connected
    }

    /// Flips the connection flag to false; idempotent. Returns whether the
    /// handle was connected before the call, so the owner can emit the
    /// terminal `Removed` event exactly once, on the first disconnect.
    /// Background listeners are not torn down here: they observe the flag
    /// or their channel closing.
    pub fn disconnect(&mut self) -> (was_connected: bool)
        ensures
            !final(self).connected,
            final(self).name == old(self).name,
            final(self).address == old(self).address,
            final(self).endpoints == old(self).endpoints,
            was_connected == old(self).connected,
    {
        let was_connected = self.connected;
        self.connected = false;
        was_connected
    }

    /// Whether `endpoint` is one of the device's supported endpoints.
    #[verifier::loop_isolation(false)]
    pub fn supports_endpoint(&self, endpoint: Endpoint) -> (r: bool)
        ensures
            r == self.supports(endpoint),
    {
        let mut i: usize = 0;
        while i < self.endpoints.len()
            invariant
                i <= self.endpoints@.len(),
                forall|j: int| 0 <= j < i ==> self.endpoints@[j] != endpoint,
            decreases self.endpoints@.len() - i,
        {
            if self.endpoints[i].same_as(&endpoint) {
                return true;
            }
            i += 1;
        }
        false
    }

    /// Gate for a write: the payload may be handed to the transport only
    /// when this returns `Ok`. Fails with `NotConnected` on a handle whose
    /// connection flag is false — a disconnected handle deterministically
    /// fails rather than hanging — and with `InvalidCommand` when the
    /// write addresses an endpoint the device does not have.
    pub fn write_value(&self, msg: &HardwareWriteCmd) -> (r: Result<(), ButtplugDeviceError>)
        ensures
            r is Ok <==> self.connected && self.supports(msg.endpoint),
            !self.connected ==> r == Err::<(), ButtplugDeviceError>(
                ButtplugDeviceError::NotConnected,
            ),
            self.connected && !self.supports(msg.endpoint) ==> r == Err::<(),
                ButtplugDeviceError,
            >(ButtplugDeviceError::InvalidCommand),
    {
        if !self.connected {
            Err(ButtplugDeviceError::NotConnected)
        } else if !self.supports_endpoint(msg.endpoint) {
            Err(ButtplugDeviceError::InvalidCommand)
        } else {
            Ok(())
        }
    }

    /// Gate for a subscription, under the same rules as a write: no new
    /// operation may start once the connection flag is false.
    pub fn subscribe(&self, msg: &HardwareSubscribeCmd) -> (r: Result<(), ButtplugDeviceError>)
        ensures
            r is Ok <==> self.connected && self.supports(msg.endpoint),
            !self.connected ==> r == Err::<(), ButtplugDeviceError>(
                ButtplugDeviceError::NotConnected,
            ),
            self.connected && !self.supports(msg.endpoint) ==> r == Err::<(),
                ButtplugDeviceError,
            >(ButtplugDeviceError::InvalidCommand),
    {
        if !self.connected {
            Err(ButtplugDeviceError::NotConnected)
        } else if !self.supports_endpoint(msg.endpoint) {
            Err(ButtplugDeviceError::InvalidCommand)
        } else {
            Ok(())
        }
    }

    /// Cancels a prior subscription. Cancelling one that does not exist is
    /// a harmless no-op, so this succeeds on any connected handle.
    pub fn unsubscribe(&self, _msg: &HardwareUnsubscribeCmd) -> (r: Result<
        (),
        ButtplugDeviceError,
    >)
        ensures
            r is Ok <==> self.connected,
            !self.connected ==> r == Err::<(), ButtplugDeviceError>(
                ButtplugDeviceError::NotConnected,
            ),
    {
        if !self.connected {
            Err(ButtplugDeviceError::NotConnected)
        } else {
            Ok(())
        }
    }
}

} // verus!

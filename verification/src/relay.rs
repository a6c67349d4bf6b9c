use vstd::prelude::*;

use crate::endpoint::Endpoint;
use crate::errors::ButtplugDeviceError;
use crate::hardware::{Hardware, HardwareEvent, HardwareReadCmd, HardwareSubscribeCmd,
    HardwareUnsubscribeCmd};

verus! {

/// Function tag of a message on the dongle relay sub-protocol. The relay
/// process multiplexes many physical toys over one port; the tag says what
/// a message is for.
#[derive(Clone, Copy, Debug, PartialEq, Eq, Structural)]
pub enum LovenseDongleMessageFunc {
    /// Host-to-relay: forward a command payload to a toy.
    Command,
    /// Relay control: start searching for toys.
    Search,
    /// Relay control: stop searching.
    StopSearch,
    /// Relay status report.
    StatusUpdate,
    /// Relay-to-host: a payload a toy sent. The only tag whose messages
    /// are forwarded to a device handle.
    ToyData,
}

/// Addressing class of an outgoing relay message.
#[derive(Clone, Copy, Debug, PartialEq, Eq, Structural)]
pub enum LovenseDongleMessageType {
    /// The message concerns one toy.
    Toy,
    /// The message concerns the relay device itself.
    Usb,
}

/// Message sent to the relay process: which toy it targets and the command
/// payload the relay forwards verbatim.
#[derive(Clone, Debug)]
pub struct LovenseDongleOutgoingMessage {
    /// What the message is for.
    pub func: LovenseDongleMessageFunc,
    /// Whom it addresses.
    pub message_type: LovenseDongleMessageType,
    /// Identifier of the targeted toy, when one is targeted.
    pub id: Option<String>,
    /// Command payload forwarded verbatim to the toy.
    pub command: Option<Vec<u8>>,
}

/// Inner payload of an incoming relay message.
#[derive(Clone, Debug)]
pub struct LovenseDongleIncomingData {
    /// Identifier of the toy the payload came from.
    pub id: Option<String>,
    /// The payload bytes.
    pub data: Option<Vec<u8>>,
}

/// Message received from the relay process: a tag, and — on toy-data
/// messages only — a payload destined for one device.
#[derive(Clone, Debug)]
pub struct LovenseDongleIncomingMessage {
    /// What the message is for.
    pub func: LovenseDongleMessageFunc,
    /// The payload, present on `ToyData` messages.
    pub data: Option<LovenseDongleIncomingData>,
}

/// Decides what an incoming relay message means for the toy at `address`:
/// only `ToyData` messages carry notification payloads, and such a message
/// becomes exactly one `Notification` on the toy's `Rx` endpoint; every
/// other tag is relay control or status, producing no event for the
/// device-facing layer.
///
/// `ToyData` messages carry their payload by protocol invariant, which is
/// required here rather than re-checked.
pub fn route_incoming(address: &str, msg: LovenseDongleIncomingMessage) -> (r: Option<
    HardwareEvent,
>)
    requires
        msg.func is ToyData ==> (msg.data matches Some(d) && d.data is Some),
    ensures
        r is Some <==> msg.func is ToyData,
        r matches Some(ev) ==> ({
            &&& msg.data matches Some(d) && d.data matches Some(payload) && ev matches
                HardwareEvent::Notification(a, ep, bytes) && a@ == address@ && ep == Endpoint::Rx
                && bytes@ == payload@
        }),
    {
    if let LovenseDongleMessageFunc::ToyData = msg.func {
        match msg.data {
            Some(d) => match d.data {
                Some(payload) => Some(
                    HardwareEvent::Notification(address.to_owned(), Endpoint::Rx, payload),
                ),
                None => None,
            },
            None => None,
        }
    } else {
        None
    }
}

/// A lightweight hardware handle for one toy reached through the relay: it
/// owns no transport of its own, only its address on the relay and a
/// connection flag. Writes become relay envelopes; the shared outgoing
/// channel and the per-toy incoming listener live with the transport
/// adapter.
#[derive(Clone, Debug)]
pub struct LovenseDongleDeviceImpl {
    /// The toy's identifier on the relay.
    pub address: String,
    /// Whether the toy's slice of the relay is still open. Loss of the
    /// shared channel is reported as `NotConnected` on the next write.
    pub connected: bool,
}

impl LovenseDongleDeviceImpl {
    /// A handle for a toy that just appeared on the relay.
    pub fn new(address: &str) -> (r: LovenseDongleDeviceImpl)
        ensures
            r.address@ == address@,
            r.connected,
    {
        LovenseDongleDeviceImpl { address: address.to_owned(), connected: true }
    }

    /// Whether the toy's relay slice is still open.
    pub fn connected(&self) -> (r: bool)
        ensures
            r == self.connected,
    {
        self.connected
    }

    /// Flips the connection flag to false; idempotent. Returns whether the
    /// handle was connected before, so the owner emits `Removed` exactly
    /// once for this toy.
    pub fn disconnect(&mut self) -> (was_connected: bool)
        ensures
            !final(self).connected,
            final(self).address == old(self).address,
            was_connected == old(self).connected,
    {
        let was_connected = self.connected;
        self.connected = false;
        was_connected
    }

    /// Builds the relay envelope for a write: a `Command` message of type
    /// `Toy`, targeting this toy's identifier, whose payload the relay
    /// forwards verbatim. Fails with `NotConnected` when the relay channel
    /// is gone, rather than hanging on a closed channel.
    pub fn write_value(&self, data: Vec<u8>) -> (r: Result<
        LovenseDongleOutgoingMessage,
        ButtplugDeviceError,
    >)
        ensures
            r is Ok <==> self.connected,
            r matches Ok(m) ==> ({
                &&& m.func is Command
                &&& m.message_type is Toy
                &&& m.id matches Some(id) && id@ == self.address@
                &&& m.command matches Some(c) && c@ == data@
            }),
            !self.connected ==> r == Err::<LovenseDongleOutgoingMessage, ButtplugDeviceError>(
                ButtplugDeviceError::NotConnected,
            ),
    {
        if !self.connected {
            return Err(ButtplugDeviceError::NotConnected);
        }
        let mut address = String::new();
        address.append(self.address.as_str());
        Ok(LovenseDongleOutgoingMessage {
            func: LovenseDongleMessageFunc::Command,
            message_type: LovenseDongleMessageType::Toy,
            id: Some(address),
            command: Some(data),
        })
    }

    /// One-shot reads are meaningless on the relay: it is a write/notify
    /// transport, so this deterministically fails rather than hanging.
    pub fn read_value(&self, _msg: &HardwareReadCmd) -> (r: Result<Vec<u8>, ButtplugDeviceError>)
        ensures
            r matches Err(e) && e == ButtplugDeviceError::NotSupported,
    {
        Err(ButtplugDeviceError::NotSupported)
    }

    /// The relay has no real subscription concept — every toy's data
    /// always flows — so subscribing is a no-op success.
    pub fn subscribe(&self, _msg: &HardwareSubscribeCmd) -> (r: Result<(), ButtplugDeviceError>)
        ensures
            r is Ok,
    {
        Ok(())
    }

    /// Counterpart of `subscribe`: a no-op success.
    pub fn unsubscribe(&self, _msg: &HardwareUnsubscribeCmd) -> (r: Result<
        (),
        ButtplugDeviceError,
    >)
        ensures
            r is Ok,
    {
        Ok(())
    }
}

/// Ephemeral representation of a toy the relay reported, not yet resolved
/// against configuration. The relay only ever carries one device family,
/// so the specifier is the fixed family name the configuration layer
/// matches on.
#[derive(Debug)]
pub struct LovenseDongleDeviceImplCreator {
    /// The toy's identifier on the relay.
    pub id: String,
}

impl LovenseDongleDeviceImplCreator {
    /// A creator for the toy the relay reported under `id`.
    pub fn new(id: &str) -> (r: LovenseDongleDeviceImplCreator)
        ensures
            r.id@ == id@,
    {
        LovenseDongleDeviceImplCreator { id: id.to_owned() }
    }

    /// The advertised identity the configuration layer resolves: the fixed
    /// device-family name every relayed toy reports.
    pub fn get_specifier(&self) -> (r: String)
        ensures
            r@ == "LVS-DongleDevice"@,
    {
        "LVS-DongleDevice".to_owned()
    }

    /// Finalizes the discovered toy: a live hardware handle bound to the
    /// relay's two endpoints, and the relay-side device implementation
    /// behind it.
    pub fn try_create_device_impl(&self) -> (r: (Hardware, LovenseDongleDeviceImpl))
        ensures
            r.0.name@ == "Lovense Dongle Device"@,
            r.0.address@ == self.id@,
            r.0.endpoints@ =~= seq![Endpoint::Rx, Endpoint::Tx],
            r.0.connected,
            r.1.address@ == self.id@,
            r.1.connected,
    {
        let mut endpoints: Vec<Endpoint> = Vec::new();
        endpoints.push(Endpoint::Rx);
        endpoints.push(Endpoint::Tx);
        let hardware = Hardware::new("Lovense Dongle Device", self.id.as_str(), endpoints);
        let device = LovenseDongleDeviceImpl::new(self.id.as_str());
        (hardware, device)
    }
}

} // verus!

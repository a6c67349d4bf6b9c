use vstd::prelude::*;

verus! {

/// A logical channel name on a device, decoupling protocol logic from the
/// physical characteristic or port addressing of the transport.
///
/// Immutable once a hardware handle is constructed: the handle carries the
/// set of endpoints it supports and rejects operations on any other.
#[derive(Clone, Copy, Debug, PartialEq, Eq, Structural)]
pub enum Endpoint {
    /// Notification channel: the device pushes data to the host on it.
    Rx,
    /// Command channel: the host writes command payloads to it.
    Tx,
}

impl Endpoint {
    /// Whether two endpoint names denote the same channel.
    pub fn same_as(&self, other: &Endpoint) -> (r: bool)
        ensures
            r == (*self == *other),
    {
        *self == *other
    }
}

} // verus!

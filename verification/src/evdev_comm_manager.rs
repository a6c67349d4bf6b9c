use vstd::prelude::*;

use crate::evdev_hardware::{EvdevDeviceInfo, EvdevHardwareConnector};
use crate::wire::dec_chars;

verus! {

/// One entry the transport enumeration produced for a scan: either the
/// entry could not be read at all, or it has a file name and — when
/// opening it succeeded — the device behind it.
#[derive(Debug)]
pub enum ScanCandidate {
    /// The directory entry itself was unreadable.
    Unreadable,
    /// A readable entry.
    Entry {
        /// The entry's file name.
        file_name: String,
        /// The opened device, or `None` when opening failed.
        device: Option<EvdevDeviceInfo>,
    },
}

/// A device-found report emitted upstream for each candidate that passes
/// the capability filter.
#[derive(Debug)]
pub struct DeviceFoundEvent {
    /// Display name of the found device.
    pub name: String,
    /// Its address: the product identifier rendered in decimal.
    pub address: String,
    /// The connector the upstream owner resolves into a handle.
    pub connector: EvdevHardwareConnector,
}

/// The capability filter a candidate must pass to be reported: it must be
/// readable, named like an input event node, openable, and offer force
/// feedback.
pub open spec fn candidate_accepted(c: ScanCandidate) -> bool {
    match c {
        ScanCandidate::Entry { file_name, device } => {
            &&& file_name@.len() >= 5
            &&& file_name@.subrange(0, 5) == "event"@
            &&& device matches Some(d) && d.supports_ff
        },
        _ => false,
    }
}

/// How many of the first `k` candidates pass the filter.
pub open spec fn accepted_count(cands: Seq<ScanCandidate>, k: int) -> int
    decreases k,
{
    if k <= 0 {
        0
    } else {
        accepted_count(cands, k - 1) + if candidate_accepted(cands[k - 1]) {
            1int
        } else {
            0int
        }
    }
}

/// Later prefixes never accept fewer candidates.
proof fn lemma_accepted_count_mono(cands: Seq<ScanCandidate>, a: int, b: int)
    requires
        0 <= a <= b,
    ensures
        accepted_count(cands, a) <= accepted_count(cands, b),
    decreases b,
{
    if a < b {
        lemma_accepted_count_mono(cands, a, b - 1);
    }
}

/// The report an accepted candidate becomes: the device's name or the
/// fixed fallback, its product identifier in decimal as the address, and
/// a connector wrapping exactly the opened device.
pub open spec fn event_for(c: ScanCandidate, e: DeviceFoundEvent) -> bool {
    match c {
        ScanCandidate::Entry { file_name: _, device: Some(d) } => {
            &&& (match d.name {
                Some(n) => e.name@ == n@,
                None => e.name@ == "Unnamed device"@,
            })
            &&& e.address@ == dec_chars(d.product as nat)
            &&& e.connector.device == d
        },
        _ => false,
    }
}

/// Whether `name` starts with the input-event node prefix.
fn starts_with_event(name: &str) -> (r: bool)
    ensures
        r == (name@.len() >= 5 && name@.subrange(0, 5) == "event"@),
{
    proof {
        reveal_strlit("event");
    }
    let n = name.unicode_len();
    if n < 5 {
        return false;
    }
    let prefix = name.substring_char(0, 5);
    let p = prefix.to_owned();
    let e = "event".to_owned();
    p == e
}

/// Builder for the force-feedback family's communication manager; the
/// surrounding runtime wraps the result in its retry loop.
#[derive(Clone, Copy, Debug, PartialEq, Eq, Structural)]
pub struct EvdevCommunicationManagerBuilder {}

impl Default for EvdevCommunicationManagerBuilder {
    /// An empty builder: the family needs no configuration.
    fn default() -> (r: EvdevCommunicationManagerBuilder)
        ensures
            r == (EvdevCommunicationManagerBuilder {  }),
    {
        EvdevCommunicationManagerBuilder {  }
    }
}

impl EvdevCommunicationManagerBuilder {
    /// Produces the communication manager this builder configures.
    pub fn finish(&self) -> (r: EvdevCommunicationManager)
        ensures
            r == (EvdevCommunicationManager {  }),
    {
        EvdevCommunicationManager {  }
    }
}

/// Discovery for the force-feedback family: it filters the transport's
/// live enumeration into device-found reports. It keeps no state across
/// scans — each scan starts from a fresh enumeration.
#[derive(Clone, Copy, Debug, PartialEq, Eq, Structural)]
pub struct EvdevCommunicationManager {}

impl EvdevCommunicationManager {
    /// The manager's fixed display name.
    pub fn name(&self) -> (r: &'static str)
        ensures
            r@ == "EvdevCommunicationManager"@,
    {
        "EvdevCommunicationManager"
    }

    /// This family has real discovery, so scanning is always allowed.
    pub fn can_scan(&self) -> (r: bool)
        ensures
            r,
    {
        true
    }

    /// Filters one enumeration into the reports to emit upstream: every
    /// candidate that passes the capability filter yields exactly one
    /// report, in enumeration order. A candidate that cannot be read or
    /// opened is skipped, never fatal to the scan: failing one candidate
    /// among many still reports all the others.
    #[verifier::loop_isolation(false)]
    pub fn scan(&self, candidates: Vec<ScanCandidate>) -> (events: Vec<DeviceFoundEvent>)
        ensures
            events@.len() == accepted_count(candidates@, candidates@.len() as int),
            forall|k: int|
                0 <= k < candidates@.len() && candidate_accepted(#[trigger] candidates@[k])
                    ==> event_for(candidates@[k], events@[accepted_count(candidates@, k)]),
    {
        let ghost orig = candidates@;
        let mut rest = candidates;
        let mut events: Vec<DeviceFoundEvent> = Vec::new();
        let ghost mut i: int = 0;
        while rest.len() > 0
            invariant
                0 <= i <= orig.len(),
                rest@ =~= orig.subrange(i, orig.len() as int),
                events@.len() == accepted_count(orig, i),
                forall|k: int|
                    0 <= k < i && candidate_accepted(#[trigger] orig[k]) ==> event_for(
                        orig[k],
                        events@[accepted_count(orig, k)],
                    ),
            decreases rest@.len(),
        {
            let c = rest.remove(0);
            proof {
                assert(c == orig[i]);
                assert(rest@ =~= orig.subrange(i + 1, orig.len() as int));
            }
            match c {
                ScanCandidate::Unreadable => {},
                ScanCandidate::Entry { file_name, device } => {
                    if starts_with_event(file_name.as_str()) {
                        if let Some(d) = device {
                            if d.supports_ff {
                                let name = match &d.name {
                                    Some(n) => n.clone(),
                                    None => "Unnamed device".to_owned(),
                                };
                                let address = crate::wire::decimal_string(d.product as u64);
                                let connector = EvdevHardwareConnector::new(d);
                                events.push(DeviceFoundEvent { name, address, connector });
                            }
                        }
                    }
                },
            }
            proof {
                assert forall|k: int|
                    0 <= k < i && candidate_accepted(#[trigger] orig[k]) implies 0
                    <= accepted_count(orig, k) < accepted_count(orig, i) by {
                    lemma_accepted_count_mono(orig, 0, k);
                    lemma_accepted_count_mono(orig, k + 1, i);
                };
                i = i + 1;
            }
        }
        proof {
            assert(orig.subrange(i, orig.len() as int).len() == 0);
            assert(i == orig.len());
        }
        events
    }
}

/// The discovery loop's state for one transport family: idle between
/// scans, scanning while one runs. Re-entered on a timer; a failed scan is
/// retried on the next tick, never terminating discovery permanently.
pub struct TimedRetryCommunicationManager {
    /// Whether a scan is currently running.
    pub scanning: bool,
    /// Whether this transport supports discovery at all.
    pub can_scan: bool,
}

/// What the discovery loop should do on a timer tick.
#[derive(Clone, Copy, Debug, PartialEq, Eq, Structural)]
pub enum ScanAction {
    /// Start a scan now.
    StartScan,
    /// Do nothing until the next tick.
    Wait,
}

impl TimedRetryCommunicationManager {
    /// A fresh, idle discovery loop for a transport that does or does not
    /// support discovery.
    pub fn new(can_scan: bool) -> (r: TimedRetryCommunicationManager)
        ensures
            !r.scanning,
            r.can_scan == can_scan,
    {
        TimedRetryCommunicationManager { scanning: false, can_scan }
    }

    /// Decides what a timer tick does: start a scan exactly when the
    /// transport supports discovery and no scan is already running.
    pub fn on_tick(&mut self) -> (action: ScanAction)
        ensures
            final(self).can_scan == old(self).can_scan,
            action is StartScan <==> old(self).can_scan && !old(self).scanning,
            final(self).scanning == (old(self).scanning || (old(self).can_scan && !old(
                self,
            ).scanning)),
    {
        if self.can_scan && !self.scanning {
            self.scanning = true;
            ScanAction::StartScan
        } else {
            ScanAction::Wait
        }
    }

    /// Records that the running scan finished, successfully or not: the
    /// loop returns to idle either way, so the next tick scans again — a
    /// single failure never stops discovery.
    pub fn on_scan_finished(&mut self, _success: bool) -> (retry: bool)
        ensures
            !final(self).scanning,
            final(self).can_scan == old(self).can_scan,
            retry == old(self).can_scan,
    {
        self.scanning = false;
        self.can_scan
    }
}

} // verus!

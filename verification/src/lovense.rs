use vstd::prelude::*;

use crate::command_manager::{
    GenericCommandManager, apply_rotate_cmd, apply_scalar_cmd, rotate_cmd_valid, rotate_delta,
    scalar_cmd_valid, scalar_delta, scalar_part, rotation_part,
};
use crate::commands::{ActuatorDesc, RotateSubcommand, ScalarSubcommand};
use crate::endpoint::Endpoint;
use crate::errors::ButtplugDeviceError;
use crate::hardware::{HardwareSubscribeCmd, HardwareWriteCmd};
use crate::wire::{dec_digits, parse_battery_spec, parse_battery_response, push_decimal};

verus! {

/// `Vibrate:<speed>;` — sets every vibration motor to one speed.
pub open spec fn vibrate_all_cmd_bytes(speed: u32) -> Seq<u8> {
    seq![86, 105, 98, 114, 97, 116, 101, 58] + dec_digits(speed as nat) + seq![59]
}

/// `Vibrate<motor>:<speed>;` — sets a single vibration motor; motors count
/// from 1 on the wire.
pub open spec fn vibrate_motor_cmd_bytes(motor: nat, speed: u32) -> Seq<u8> {
    seq![86, 105, 98, 114, 97, 116, 101] + dec_digits(motor) + seq![58]
        + dec_digits(speed as nat) + seq![59]
}

/// `Rotate:<speed>;` — sets the rotation speed.
pub open spec fn rotate_cmd_bytes(speed: u32) -> Seq<u8> {
    seq![82, 111, 116, 97, 116, 101, 58] + dec_digits(speed as nat) + seq![59]
}

/// `RotateChange;` — toggles the rotation direction.
pub open spec fn rotate_change_cmd_bytes() -> Seq<u8> {
    seq![82, 111, 116, 97, 116, 101, 67, 104, 97, 110, 103, 101, 59]
}

/// `Battery;` — queries the battery level.
pub open spec fn battery_cmd_bytes() -> Seq<u8> {
    seq![66, 97, 116, 116, 101, 114, 121, 59]
}

/// `DeviceType;` — queries the device's identification string.
pub open spec fn device_type_cmd_bytes() -> Seq<u8> {
    seq![68, 101, 118, 105, 99, 101, 84, 121, 112, 101, 59]
}

/// Encodes `Vibrate:<speed>;`.
pub fn encode_vibrate_all(speed: u32) -> (r: Vec<u8>)
    ensures
        r@ == vibrate_all_cmd_bytes(speed),
{
    let mut out: Vec<u8> = Vec::new();
    out.push(86);
    out.push(105);
    out.push(98);
    out.push(114);
    out.push(97);
    out.push(116);
    out.push(101);
    out.push(58);
    push_decimal(speed as u64, &mut out);
    out.push(59);
    proof {
        assert(out@ =~= vibrate_all_cmd_bytes(speed));
    }
    out
}

/// Encodes `Vibrate<motor>:<speed>;`.
pub fn encode_vibrate_motor(motor: u64, speed: u32) -> (r: Vec<u8>)
    ensures
        r@ == vibrate_motor_cmd_bytes(motor as nat, speed),
{
    let mut out: Vec<u8> = Vec::new();
    out.push(86);
    out.push(105);
    out.push(98);
    out.push(114);
    out.push(97);
    out.push(116);
    out.push(101);
    push_decimal(motor, &mut out);
    out.push(58);
    push_decimal(speed as u64, &mut out);
    out.push(59);
    proof {
        assert(out@ =~= vibrate_motor_cmd_bytes(motor as nat, speed));
    }
    out
}

/// Encodes `Rotate:<speed>;`.
pub fn encode_rotate(speed: u32) -> (r: Vec<u8>)
    ensures
        r@ == rotate_cmd_bytes(speed),
{
    let mut out: Vec<u8> = Vec::new();
    out.push(82);
    out.push(111);
    out.push(116);
    out.push(97);
    out.push(116);
    out.push(101);
    out.push(58);
    push_decimal(speed as u64, &mut out);
    out.push(59);
    proof {
        assert(out@ =~= rotate_cmd_bytes(speed));
    }
    out
}

/// Encodes `RotateChange;`.
pub fn encode_rotate_change() -> (r: Vec<u8>)
    ensures
        r@ == rotate_change_cmd_bytes(),
{
    let mut out: Vec<u8> = Vec::new();
    out.push(82);
    out.push(111);
    out.push(116);
    out.push(97);
    out.push(116);
    out.push(101);
    out.push(67);
    out.push(104);
    out.push(97);
    out.push(110);
    out.push(103);
    out.push(101);
    out.push(59);
    proof {
        assert(out@ =~= rotate_change_cmd_bytes());
    }
    out
}

/// Encodes `Battery;`.
pub fn encode_battery_query() -> (r: Vec<u8>)
    ensures
        r@ == battery_cmd_bytes(),
{
    let mut out: Vec<u8> = Vec::new();
    out.push(66);
    out.push(97);
    out.push(116);
    out.push(116);
    out.push(101);
    out.push(114);
    out.push(121);
    out.push(59);
    proof {
        assert(out@ =~= battery_cmd_bytes());
    }
    out
}

/// Encodes `DeviceType;`.
pub fn encode_device_type_query() -> (r: Vec<u8>)
    ensures
        r@ == device_type_cmd_bytes(),
{
    let mut out: Vec<u8> = Vec::new();
    out.push(68);
    out.push(101);
    out.push(118);
    out.push(105);
    out.push(99);
    out.push(101);
    out.push(84);
    out.push(121);
    out.push(112);
    out.push(101);
    out.push(59);
    proof {
        assert(out@ =~= device_type_cmd_bytes());
    }
    out
}

/// Whether any actuator changed in a vibrate delta.
pub open spec fn delta_any_present(delta: Seq<Option<u32>>) -> bool {
    exists|i: int| 0 <= i < delta.len() && delta[i] is Some
}

/// Whether all present entries of a vibrate delta carry one value. The
/// comparison runs across present entries only: absent entries are
/// excluded from it, as they are from emission.
pub open spec fn delta_all_equal(delta: Seq<Option<u32>>) -> bool {
    forall|i: int, j: int|
        0 <= i < delta.len() && 0 <= j < delta.len() && delta[i] is Some && delta[j] is Some
            ==> delta[i] == delta[j]
}

/// The first present entry of a delta, if any.
pub open spec fn first_present(delta: Seq<Option<u32>>) -> Option<u32>
    decreases delta.len(),
{
    if delta.len() == 0 {
        None
    } else if delta[0] is Some {
        delta[0]
    } else {
        first_present(delta.drop_first())
    }
}

/// The per-motor wire writes for the first `k` entries of a vibrate
/// delta: one `Vibrate<m>:<v>;` per present entry, in order, the motor
/// number counting from 1.
pub open spec fn per_motor_writes_prefix(delta: Seq<Option<u32>>, k: int) -> Seq<Seq<u8>>
    decreases k,
{
    if k <= 0 {
        Seq::empty()
    } else {
        let prefix = per_motor_writes_prefix(delta, k - 1);
        if delta[k - 1] is Some {
            prefix.push(vibrate_motor_cmd_bytes(k as nat, delta[k - 1]->Some_0))
        } else {
            prefix
        }
    }
}

/// The wire writes a vibrate delta becomes. If every present entry asks
/// for one identical value, a single `Vibrate:<v>;` addresses all motors
/// at once; otherwise each changed motor gets its own command. An empty
/// delta sends nothing.
pub open spec fn lovense_vibrate_writes(delta: Seq<Option<u32>>) -> Seq<Seq<u8>> {
    if !delta_any_present(delta) {
        Seq::empty()
    } else if delta_all_equal(delta) {
        seq![vibrate_all_cmd_bytes(first_present(delta)->Some_0)]
    } else {
        per_motor_writes_prefix(delta, delta.len() as int)
    }
}

/// Appending an entry to a delta leaves its first present entry alone,
/// unless there was none, in which case the appended entry takes over.
proof fn lemma_first_present_push(s: Seq<Option<u32>>, x: Option<u32>)
    ensures
        first_present(s.push(x)) == (if first_present(s) is Some {
            first_present(s)
        } else {
            x
        }),
    decreases s.len(),
{
    let t = s.push(x);
    if s.len() == 0 {
        assert(t[0] == x);
        if x is Some {
            assert(first_present(t) == x);
        } else {
            assert(t.drop_first() =~= Seq::<Option<u32>>::empty());
            assert(first_present(t) == None::<u32>);
        }
    } else {
        assert(t[0] == s[0]);
        if s[0] is Some {
            assert(first_present(t) == t[0]);
            assert(first_present(s) == s[0]);
        } else {
            assert(t.drop_first() =~= s.drop_first().push(x));
            lemma_first_present_push(s.drop_first(), x);
            assert(first_present(t) == first_present(t.drop_first()));
            assert(first_present(s) == first_present(s.drop_first()));
        }
    }
}

/// A delta has a first present entry exactly when it has a present entry
/// at all, and that first entry occurs in it.
proof fn lemma_first_present_index(s: Seq<Option<u32>>)
    ensures
        (first_present(s) is Some) <==> delta_any_present(s),
        first_present(s) is Some ==> exists|k: int|
            0 <= k < s.len() && s[k] == first_present(s),
    decreases s.len(),
{
    if s.len() == 0 {
    } else if s[0] is Some {
        assert(s[0] == first_present(s));
    } else {
        lemma_first_present_index(s.drop_first());
        assert(forall|k: int|
            0 <= k < s.drop_first().len() ==> #[trigger] s.drop_first()[k] == s[k + 1]);
        if delta_any_present(s) {
            let i = choose|i: int| 0 <= i < s.len() && s[i] is Some;
            assert(s.drop_first()[i - 1] == s[i]);
            assert(delta_any_present(s.drop_first()));
        }
        if first_present(s) is Some {
            let k = choose|k: int|
                0 <= k < s.drop_first().len() && s.drop_first()[k] == first_present(
                    s.drop_first(),
                );
            assert(s[k + 1] == first_present(s));
        }
    }
}

/// Protocol handler for the relay-spoken device family: holds the
/// per-device command manager and the last rotation direction sent, and
/// encodes deduplicated deltas into the family's ASCII wire commands.
pub struct Lovense {
    /// Display name of the device this handler drives.
    pub name: String,
    /// The per-device actuator state tracker.
    pub manager: GenericCommandManager,
    /// The rotation direction last sent on the wire; rotation commands
    /// emit a direction toggle exactly when this changes.
    pub rotation_direction: bool,
}

impl Lovense {
    /// Well-formedness: the handler's manager is well-formed.
    pub open spec fn wf(&self) -> bool {
        self.manager.wf()
    }

    /// Creates the handler for a device with the given capability
    /// metadata. The stop-command set is computed here, and all stored
    /// state starts at the off position.
    pub fn new_protocol(name: &str, descs: &Vec<ActuatorDesc>) -> (r: Lovense)
        ensures
            r.wf(),
            r.name@ == name@,
            r.manager.scalar_descs@ == scalar_part(descs@),
            r.manager.rotation_descs@ == rotation_part(descs@),
            forall|i: int|
                0 <= i < r.manager.scalar_values@.len() ==> r.manager.scalar_values@[i] == 0,
            forall|i: int|
                0 <= i < r.manager.rotation_values@.len() ==> r.manager.rotation_values@[i] == (
                0u32,
                true,
                ),
            !r.rotation_direction,
    {
        Lovense {
            name: name.to_owned(),
            manager: GenericCommandManager::new(descs),
            rotation_direction: false,
        }
    }

    /// The pre-built stop-command set for this device, independent of
    /// everything sent since construction: stops bypass the dedup path.
    pub fn stop_commands(&self) -> (r: &Vec<crate::commands::GenericCommand>)
        requires
            self.wf(),
        ensures
            crate::commands::is_stop_command_set(
                r@,
                self.manager.scalar_descs@.len(),
                self.manager.rotation_descs@.len(),
            ),
    {
        self.manager.stop_commands()
    }

    /// Handles a generic vibrate command: obtains the deduplicated delta
    /// from the manager, then encodes it. If every motor that changed
    /// asks for one identical speed, a single set-all command goes out;
    /// otherwise one command per changed motor. A fully deduplicated
    /// command (or a rejected one) writes nothing.
    #[verifier::loop_isolation(false)]
    pub fn handle_vibrate_cmd(&mut self, cmd: &Vec<ScalarSubcommand>) -> (r: Result<
        Vec<HardwareWriteCmd>,
        ButtplugDeviceError,
    >)
        requires
            old(self).wf(),
        ensures
            final(self).wf(),
            final(self).name == old(self).name,
            final(self).rotation_direction == old(self).rotation_direction,
            final(self).manager.scalar_descs == old(self).manager.scalar_descs,
            final(self).manager.rotation_descs == old(self).manager.rotation_descs,
            final(self).manager.rotation_values == old(self).manager.rotation_values,
            final(self).manager.stop_set == old(self).manager.stop_set,
            r is Err <==> !scalar_cmd_valid(old(self).manager.scalar_descs@, cmd@, false),
            r matches Err(e) ==> e == ButtplugDeviceError::InvalidCommand && *final(self) == *old(
                self,
            ),
            r is Ok ==> final(self).manager.scalar_values@ == apply_scalar_cmd(
                old(self).manager.scalar_descs@,
                old(self).manager.scalar_values@,
                cmd@,
            ),
            r matches Ok(writes) ==> ({
                let delta = scalar_delta(
                    old(self).manager.scalar_values@,
                    final(self).manager.scalar_values@,
                );
                let datas = lovense_vibrate_writes(delta);
                &&& writes@.len() == datas.len()
                &&& forall|i: int|
                    0 <= i < writes@.len() ==> (#[trigger] writes@[i]).endpoint == Endpoint::Tx
                        && !writes@[i].write_with_response && writes@[i].data@ == datas[i]
            }),
    {
        let result = match self.manager.update_scalar(cmd, false) {
            Ok(o) => o,
            Err(e) => {
                return Err(e);
            },
        };
        let mut writes: Vec<HardwareWriteCmd> = Vec::new();
        let delta = match result {
            None => {
                return Ok(writes);
            },
            Some(d) => d,
        };
        let ghost gdelta = delta@;
        let n = delta.len();
        let mut common: Option<u32> = None;
        let mut all_equal = true;
        let mut i: usize = 0;
        while i < n
            invariant
                i <= n,
                n == gdelta.len(),
                common == first_present(gdelta.subrange(0, i as int)),
                common is None ==> (forall|j: int| 0 <= j < i ==> gdelta[j] is None) && all_equal,
                common matches Some(c) ==> (all_equal <==> (forall|j: int|
                    0 <= j < i && (#[trigger] gdelta[j]) is Some ==> gdelta[j] == Some(c))),
            decreases n - i,
        {
            proof {
                assert(gdelta.subrange(0, i + 1) =~= gdelta.subrange(0, i as int).push(
                    gdelta[i as int],
                ));
                lemma_first_present_push(gdelta.subrange(0, i as int), gdelta[i as int]);
            }
            if let Some(v) = delta[i] {
                match common {
                    None => {
                        common = Some(v);
                    },
                    Some(c) => {
                        if c != v {
                            all_equal = false;
                        }
                    },
                }
            }
            i += 1;
        }
        proof {
            assert(gdelta.subrange(0, n as int) =~= gdelta);
            lemma_first_present_index(gdelta);
        }
        match common {
            None => {
                // No entry present: nothing changed, nothing to write.
                Ok(writes)
            },
            Some(c) => {
                if all_equal {
                    proof {
                        assert(delta_all_equal(gdelta));
                    }
                    let data = encode_vibrate_all(c);
                    writes.push(HardwareWriteCmd::new(Endpoint::Tx, data, false));
                    Ok(writes)
                } else {
                    proof {
                        let jj = choose|j: int|
                            0 <= j < n && (#[trigger] gdelta[j]) is Some && gdelta[j] != Some(c);
                        let kk = choose|k: int|
                            0 <= k < gdelta.len() && gdelta[k] == first_present(gdelta);
                        assert(gdelta[kk] is Some && gdelta[jj] is Some && gdelta[kk]
                            != gdelta[jj]);
                        assert(!delta_all_equal(gdelta));
                    }
                    let mut j: usize = 0;
                    while j < n
                        invariant
                            j <= n,
                            writes@.len() == per_motor_writes_prefix(gdelta, j as int).len(),
                            forall|t: int|
                                0 <= t < writes@.len() ==> (#[trigger] writes@[t]).endpoint
                                    == Endpoint::Tx && !writes@[t].write_with_response
                                    && writes@[t].data@ == per_motor_writes_prefix(
                                    gdelta,
                                    j as int,
                                )[t],
                        decreases n - j,
                    {
                        if let Some(v) = delta[j] {
                            let data = encode_vibrate_motor((j as u64) + 1, v);
                            writes.push(HardwareWriteCmd::new(Endpoint::Tx, data, false));
                        }
                        j += 1;
                    }
                    Ok(writes)
                }
            },
        }
    }

    /// Handles a generic rotation command: obtains the deduplicated delta
    /// from the manager and drives the single rotator the family has.
    /// When its `(speed, clockwise)` pair changed, the speed goes out
    /// unconditionally as `Rotate:<speed>;`, and a `RotateChange;` toggle
    /// follows exactly when the new direction differs from the last
    /// direction sent — a direction-only change still writes, while a
    /// fully deduplicated command writes nothing.
    pub fn handle_rotate_cmd(&mut self, cmd: &Vec<RotateSubcommand>) -> (r: Result<
        Vec<HardwareWriteCmd>,
        ButtplugDeviceError,
    >)
        requires
            old(self).wf(),
        ensures
            final(self).wf(),
            final(self).name == old(self).name,
            final(self).manager.scalar_descs == old(self).manager.scalar_descs,
            final(self).manager.scalar_values == old(self).manager.scalar_values,
            final(self).manager.rotation_descs == old(self).manager.rotation_descs,
            final(self).manager.stop_set == old(self).manager.stop_set,
            r is Err <==> !rotate_cmd_valid(old(self).manager.rotation_descs@, cmd@),
            r matches Err(e) ==> e == ButtplugDeviceError::InvalidCommand && *final(self) == *old(
                self,
            ),
            r is Ok ==> final(self).manager.rotation_values@ == apply_rotate_cmd(
                old(self).manager.rotation_descs@,
                old(self).manager.rotation_values@,
                cmd@,
            ),
            r matches Ok(writes) ==> ({
                let delta = rotate_delta(
                    old(self).manager.rotation_values@,
                    final(self).manager.rotation_values@,
                );
                &&& forall|i: int|
                    0 <= i < writes@.len() ==> (#[trigger] writes@[i]).endpoint == Endpoint::Tx
                        && !writes@[i].write_with_response
                &&& if delta.len() > 0 && delta[0] is Some {
                    let pair = delta[0]->Some_0;
                    if pair.1 != old(self).rotation_direction {
                        &&& final(self).rotation_direction == pair.1
                        &&& writes@.len() == 2
                        &&& writes@[0].data@ == rotate_cmd_bytes(pair.0)
                        &&& writes@[1].data@ == rotate_change_cmd_bytes()
                    } else {
                        &&& final(self).rotation_direction == old(self).rotation_direction
                        &&& writes@.len() == 1
                        &&& writes@[0].data@ == rotate_cmd_bytes(pair.0)
                    }
                } else {
                    &&& final(self).rotation_direction == old(self).rotation_direction
                    &&& writes@.len() == 0
                }
            }),
    {
        let result = match self.manager.update_rotation(cmd) {
            Ok(o) => o,
            Err(e) => {
                return Err(e);
            },
        };
        let mut writes: Vec<HardwareWriteCmd> = Vec::new();
        if let Some(delta) = result {
            if delta.len() > 0 {
                if let Some(pair) = delta[0] {
                    let data = encode_rotate(pair.0);
                    writes.push(HardwareWriteCmd::new(Endpoint::Tx, data, false));
                    if pair.1 != self.rotation_direction {
                        self.rotation_direction = pair.1;
                        let toggle = encode_rotate_change();
                        writes.push(HardwareWriteCmd::new(Endpoint::Tx, toggle, false));
                    }
                }
            }
        }
        Ok(writes)
    }

    /// The identification exchange issued on connect, before generic
    /// commands are accepted: subscribe to the notification endpoint,
    /// then query the device type. The caller awaits exactly one
    /// notification and hands it to `parse_device_type_response`.
    pub fn initialize_commands() -> (r: (HardwareSubscribeCmd, HardwareWriteCmd))
        ensures
            r.0.endpoint == Endpoint::Rx,
            r.1.endpoint == Endpoint::Tx,
            r.1.data@ == device_type_cmd_bytes(),
            !r.1.write_with_response,
    {
        let query = encode_device_type_query();
        (
            HardwareSubscribeCmd { endpoint: Endpoint::Rx },
            HardwareWriteCmd::new(Endpoint::Tx, query, false),
        )
    }

    /// Parses the one identification response awaited after
    /// `initialize_commands`: the device's sub-type identifier is the
    /// token before the first `:` delimiter, propagated upward as the
    /// resolved device sub-type.
    pub fn parse_device_type_response(data: &[u8]) -> (r: Vec<u8>)
        ensures
            r@.len() <= data@.len(),
            r@ == data@.subrange(0, r@.len() as int),
            forall|j: int| 0 <= j < r@.len() ==> data@[j] != 58,
            r@.len() < data@.len() ==> data@[r@.len() as int] == 58,
    {
        crate::wire::parse_identifier(data)
    }

    /// The battery exchange: subscribe to the notification endpoint, then
    /// send the battery query. The caller awaits exactly one notification
    /// and hands it to `handle_battery_response`.
    pub fn battery_commands() -> (r: (HardwareSubscribeCmd, HardwareWriteCmd))
        ensures
            r.0.endpoint == Endpoint::Rx,
            r.1.endpoint == Endpoint::Tx,
            r.1.data@ == battery_cmd_bytes(),
            !r.1.write_with_response,
    {
        let query = encode_battery_query();
        (
            HardwareSubscribeCmd { endpoint: Endpoint::Rx },
            HardwareWriteCmd::new(Endpoint::Tx, query, false),
        )
    }

    /// Interprets the notification awaited after a battery query: the
    /// decimal percentage before the trailing delimiter. A malformed
    /// response is treated like a device that vanished before answering,
    /// as `NotConnected`.
    pub fn handle_battery_response(data: &[u8]) -> (r: Result<u8, ButtplugDeviceError>)
        ensures
            parse_battery_spec(data@) matches Some(level) ==> r == Ok::<u8, ButtplugDeviceError>(
                level,
            ),
            parse_battery_spec(data@) is None ==> r == Err::<u8, ButtplugDeviceError>(
                ButtplugDeviceError::NotConnected,
            ),
    {
        match parse_battery_response(data) {
            Some(level) => Ok(level),
            None => Err(ButtplugDeviceError::NotConnected),
        }
    }
}

} // verus!

use vstd::prelude::*;

use crate::commands::{
    ActuatorDesc, ActuatorType, GenericCommand, RotateSubcommand, ScalarSubcommand,
    is_stop_command_set, is_stop_rotate_subs, is_stop_scalar_subs,
};
use crate::errors::ButtplugDeviceError;

verus! {

/// The scalar slice of a device's capability metadata: every entry that is
/// not a rotation actuator, in metadata order.
pub open spec fn scalar_part(descs: Seq<ActuatorDesc>) -> Seq<ActuatorDesc>
    decreases descs.len(),
{
    if descs.len() == 0 {
        Seq::empty()
    } else {
        let prefix = scalar_part(descs.drop_last());
        if descs.last().actuator is Rotate {
            prefix
        } else {
            prefix.push(descs.last())
        }
    }
}

/// The rotation slice of a device's capability metadata, in metadata order.
pub open spec fn rotation_part(descs: Seq<ActuatorDesc>) -> Seq<ActuatorDesc>
    decreases descs.len(),
{
    if descs.len() == 0 {
        Seq::empty()
    } else {
        let prefix = rotation_part(descs.drop_last());
        if descs.last().actuator is Rotate {
            prefix.push(descs.last())
        } else {
            prefix
        }
    }
}

/// A scalar subcommand addresses a configured actuator and its value lies
/// in that actuator's valid range.
pub open spec fn scalar_sub_in_range(descs: Seq<ActuatorDesc>, sub: ScalarSubcommand) -> bool {
    sub.index < descs.len() && sub.scalar <= descs[sub.index as int].max_value
}

/// A scalar command is acceptable: every entry addresses a configured
/// actuator, and — unless out-of-range values are explicitly permitted to
/// be ignored — every value lies in its actuator's range.
pub open spec fn scalar_cmd_valid(
    descs: Seq<ActuatorDesc>,
    cmd: Seq<ScalarSubcommand>,
    clear_invalid: bool,
) -> bool {
    forall|k: int|
        0 <= k < cmd.len() ==> (#[trigger] cmd[k]).index < descs.len() && (clear_invalid
            || cmd[k].scalar <= descs[cmd[k].index as int].max_value)
}

/// The stored scalar state after a command is applied entry by entry, in
/// order; entries whose value is out of range are ignored (they can only
/// be reached when ignoring them was requested).
pub open spec fn apply_scalar_cmd(
    descs: Seq<ActuatorDesc>,
    vals: Seq<u32>,
    cmd: Seq<ScalarSubcommand>,
) -> Seq<u32>
    decreases cmd.len(),
{
    if cmd.len() == 0 {
        vals
    } else {
        let prev = apply_scalar_cmd(descs, vals, cmd.drop_last());
        let sub = cmd.last();
        if scalar_sub_in_range(descs, sub) {
            prev.update(sub.index as int, sub.scalar)
        } else {
            prev
        }
    }
}

/// The dedup delta between two scalar states: one entry per actuator,
/// `Some(new)` where the value changed and `None` where it did not.
pub open spec fn scalar_delta(old_vals: Seq<u32>, new_vals: Seq<u32>) -> Seq<Option<u32>> {
    Seq::new(
        old_vals.len(),
        |i: int| if new_vals[i] != old_vals[i] {
            Some(new_vals[i])
        } else {
            None
        },
    )
}

/// A rotation subcommand addresses a configured rotation actuator and its
/// speed lies in that actuator's valid range.
pub open spec fn rotate_sub_in_range(descs: Seq<ActuatorDesc>, sub: RotateSubcommand) -> bool {
    sub.index < descs.len() && sub.speed <= descs[sub.index as int].max_value
}

/// A rotation command is acceptable: every entry addresses a configured
/// rotation actuator with an in-range speed.
pub open spec fn rotate_cmd_valid(descs: Seq<ActuatorDesc>, cmd: Seq<RotateSubcommand>) -> bool {
    forall|k: int| 0 <= k < cmd.len() ==> rotate_sub_in_range(descs, #[trigger] cmd[k])
}

/// The stored rotation state — one `(speed, clockwise)` pair per actuator —
/// after a command is applied entry by entry, in order.
pub open spec fn apply_rotate_cmd(
    descs: Seq<ActuatorDesc>,
    vals: Seq<(u32, bool)>,
    cmd: Seq<RotateSubcommand>,
) -> Seq<(u32, bool)>
    decreases cmd.len(),
{
    if cmd.len() == 0 {
        vals
    } else {
        let prev = apply_rotate_cmd(descs, vals, cmd.drop_last());
        let sub = cmd.last();
        if rotate_sub_in_range(descs, sub) {
            prev.update(sub.index as int, (sub.speed, sub.clockwise))
        } else {
            prev
        }
    }
}

/// The dedup delta between two rotation states. The compared unit is the
/// whole `(speed, clockwise)` pair, so a direction-only change is reported
/// just like a speed change.
pub open spec fn rotate_delta(
    old_vals: Seq<(u32, bool)>,
    new_vals: Seq<(u32, bool)>,
) -> Seq<Option<(u32, bool)>> {
    Seq::new(
        old_vals.len(),
        |i: int| if new_vals[i] != old_vals[i] {
            Some(new_vals[i])
        } else {
            None
        },
    )
}

/// Per-device actuator state tracker.
///
/// Holds the last value *sent towards* each actuator (updated when an
/// update call accepts a command, before the hardware write is known to
/// have succeeded) and turns incoming generic commands into deduplicated
/// deltas of what actually changed. Callers must route every hardware
/// write through the update calls; writing to hardware directly would make
/// the stored state inconsistent.
///
/// Scalar actuators and rotation actuators are tracked in two arrays,
/// since their stored values differ in shape; each is indexed by position,
/// in the order fixed at construction from the capability metadata.
pub struct GenericCommandManager {
    /// Descriptors of the scalar actuators, in metadata order.
    pub scalar_descs: Vec<ActuatorDesc>,
    /// Last-sent value per scalar actuator; starts at zero (off).
    pub scalar_values: Vec<u32>,
    /// Descriptors of the rotation actuators, in metadata order.
    pub rotation_descs: Vec<ActuatorDesc>,
    /// Last-sent `(speed, clockwise)` per rotation actuator.
    pub rotation_values: Vec<(u32, bool)>,
    /// The canonical stop-command set, pre-built at construction.
    pub stop_set: Vec<GenericCommand>,
}

impl GenericCommandManager {
    /// Well-formedness: the value arrays line up with their descriptors,
    /// every stored value is in range, and the stop set is the canonical
    /// one for this actuator configuration.
    pub open spec fn wf(&self) -> bool {
        &&& self.scalar_values@.len() == self.scalar_descs@.len()
        &&& self.rotation_values@.len() == self.rotation_descs@.len()
        &&& forall|i: int|
            0 <= i < self.scalar_values@.len() ==> #[trigger] self.scalar_values@[i]
                <= self.scalar_descs@[i].max_value
        &&& forall|i: int|
            0 <= i < self.rotation_values@.len() ==> (#[trigger] self.rotation_values@[i]).0
                <= self.rotation_descs@[i].max_value
        &&& is_stop_command_set(
            self.stop_set@,
            self.scalar_descs@.len(),
            self.rotation_descs@.len(),
        )
    }

    /// Builds a manager from a device's capability metadata: rotation
    /// entries form the rotation array, every other entry the scalar
    /// array, each in metadata order; all last-sent values start at the
    /// off state (zero, and clockwise for rotation), and the stop-command
    /// set is computed once here.
    pub fn new(descs: &Vec<ActuatorDesc>) -> (r: GenericCommandManager)
        ensures
            r.wf(),
            r.scalar_descs@ == scalar_part(descs@),
            r.rotation_descs@ == rotation_part(descs@),
            forall|i: int| 0 <= i < r.scalar_values@.len() ==> r.scalar_values@[i] == 0,
            forall|i: int|
                0 <= i < r.rotation_values@.len() ==> r.rotation_values@[i] == (0u32, true),
    {
        let mut scalar_descs: Vec<ActuatorDesc> = Vec::new();
        let mut rotation_descs: Vec<ActuatorDesc> = Vec::new();
        let mut i: usize = 0;
        while i < descs.len()
            invariant
                i <= descs.len(),
                scalar_descs@ == scalar_part(descs@.subrange(0, i as int)),
                rotation_descs@ == rotation_part(descs@.subrange(0, i as int)),
            decreases descs.len() - i,
        {
            let d = descs[i];
            proof {
                assert(descs@.subrange(0, i + 1).drop_last() =~= descs@.subrange(0, i as int));
                assert(descs@.subrange(0, i + 1).last() == descs@[i as int]);
            }
            if d.actuator == ActuatorType::Rotate {
                rotation_descs.push(d);
            } else {
                scalar_descs.push(d);
            }
            i += 1;
        }
        proof {
            assert(descs@.subrange(0, descs@.len() as int) =~= descs@);
        }

        let mut scalar_values: Vec<u32> = Vec::new();
        let mut scalar_stop: Vec<ScalarSubcommand> = Vec::new();
        let mut k: usize = 0;
        while k < scalar_descs.len()
            invariant
                k <= scalar_descs.len(),
                scalar_values@.len() == k,
                scalar_stop@.len() == k,
                forall|j: int| 0 <= j < k ==> scalar_values@[j] == 0,
                forall|j: int|
                    0 <= j < k ==> scalar_stop@[j] == (ScalarSubcommand {
                        index: j as usize,
                        scalar: 0,
                    }),
            decreases scalar_descs.len() - k,
        {
            scalar_values.push(0);
            scalar_stop.push(ScalarSubcommand { index: k, scalar: 0 });
            k += 1;
        }

        let mut rotation_values: Vec<(u32, bool)> = Vec::new();
        let mut rotate_stop: Vec<RotateSubcommand> = Vec::new();
        let mut m: usize = 0;
        while m < rotation_descs.len()
            invariant
                m <= rotation_descs.len(),
                rotation_values@.len() == m,
                rotate_stop@.len() == m,
                forall|j: int| 0 <= j < m ==> rotation_values@[j] == (0u32, true),
                forall|j: int|
                    0 <= j < m ==> rotate_stop@[j] == (RotateSubcommand {
                        index: j as usize,
                        speed: 0,
                        clockwise: true,
                    }),
            decreases rotation_descs.len() - m,
        {
            rotation_values.push((0, true));
            rotate_stop.push(RotateSubcommand { index: m, speed: 0, clockwise: true });
            m += 1;
        }

        let mut stop_set: Vec<GenericCommand> = Vec::new();
        if scalar_stop.len() > 0 {
            stop_set.push(GenericCommand::Scalar(scalar_stop));
        }
        if rotate_stop.len() > 0 {
            stop_set.push(GenericCommand::Rotate(rotate_stop));
        }

        GenericCommandManager { scalar_descs, scalar_values, rotation_descs, rotation_values, stop_set }
    }

    /// Converts an incoming scalar command into the deduplicated delta of
    /// what actually changed, updating the stored last-sent values in the
    /// same step.
    ///
    /// Entries are applied in order, so a later entry for the same actuator
    /// wins, and changes are judged against the state before the call.
    /// Returns `Ok(None)` when no addressed value differs from its stored
    /// value — repeated identical commands never touch hardware — and
    /// otherwise one entry per configured scalar actuator, `Some(new)`
    /// where the value changed and `None` where it did not.
    ///
    /// Fails with `InvalidCommand`, leaving the state untouched, if the
    /// command addresses an actuator index outside the configured count,
    /// or supplies an out-of-range value while `clear_invalid` is false.
    /// With `clear_invalid` set, out-of-range values are ignored rather
    /// than rejected (the entry is treated as if it were not addressed);
    /// an out-of-bounds index is rejected either way.
    #[verifier::loop_isolation(false)]
    pub fn update_scalar(
        &mut self,
        cmd: &Vec<ScalarSubcommand>,
        clear_invalid: bool,
    ) -> (r: Result<Option<Vec<Option<u32>>>, ButtplugDeviceError>)
        requires
            old(self).wf(),
        ensures
            final(self).wf(),
            final(self).scalar_descs == old(self).scalar_descs,
            final(self).rotation_descs == old(self).rotation_descs,
            final(self).rotation_values == old(self).rotation_values,
            final(self).stop_set == old(self).stop_set,
            r is Err <==> !scalar_cmd_valid(old(self).scalar_descs@, cmd@, clear_invalid),
            r matches Err(e) ==> e == ButtplugDeviceError::InvalidCommand && *final(self)
                == *old(self),
            r is Ok ==> final(self).scalar_values@ == apply_scalar_cmd(
                old(self).scalar_descs@,
                old(self).scalar_values@,
                cmd@,
            ),
            r matches Ok(opt) ==> (match opt {
                None => final(self).scalar_values@ == old(self).scalar_values@,
                Some(delta) => final(self).scalar_values@ != old(self).scalar_values@ && delta@
                    == scalar_delta(old(self).scalar_values@, final(self).scalar_values@),
            }),
    {
        // Validation pass: reject the whole command, before any mutation,
        // if an entry is unacceptable.
        let mut k: usize = 0;
        while k < cmd.len()
            invariant
                k <= cmd.len(),
                forall|j: int|
                    0 <= j < k ==> (#[trigger] cmd@[j]).index < self.scalar_descs@.len() && (
                    clear_invalid || cmd@[j].scalar <= self.scalar_descs@[cmd@[j].index as int].max_value),
            decreases cmd.len() - k,
        {
            let sub = cmd[k];
            if sub.index >= self.scalar_descs.len() {
                return Err(ButtplugDeviceError::InvalidCommand);
            }
            if !clear_invalid && sub.scalar > self.scalar_descs[sub.index].max_value {
                return Err(ButtplugDeviceError::InvalidCommand);
            }
            k += 1;
        }

        // Remember the state the changes are judged against.
        let mut prev: Vec<u32> = Vec::new();
        let mut c: usize = 0;
        while c < self.scalar_values.len()
            invariant
                c <= self.scalar_values@.len(),
                prev@ =~= self.scalar_values@.subrange(0, c as int),
            decreases self.scalar_values.len() - c,
        {
            prev.push(self.scalar_values[c]);
            c += 1;
        }
        proof {
            assert(prev@ =~= self.scalar_values@);
        }

        // Application pass: store each acceptable entry in order.
        let ghost descs = self.scalar_descs@;
        let mut a: usize = 0;
        while a < cmd.len()
            invariant
                a <= cmd.len(),
                self.scalar_descs == old(self).scalar_descs,
                self.rotation_descs == old(self).rotation_descs,
                self.rotation_values == old(self).rotation_values,
                self.stop_set == old(self).stop_set,
                self.scalar_values@.len() == prev@.len(),
                forall|i: int|
                    0 <= i < self.scalar_values@.len() ==> #[trigger] self.scalar_values@[i]
                        <= descs[i].max_value,
                self.scalar_values@ == apply_scalar_cmd(descs, prev@, cmd@.subrange(0, a as int)),
            decreases cmd.len() - a,
        {
            proof {
                assert(cmd@.subrange(0, a + 1).drop_last() =~= cmd@.subrange(0, a as int));
                assert(cmd@.subrange(0, a + 1).last() == cmd@[a as int]);
            }
            let sub = cmd[a];
            if sub.index < self.scalar_descs.len()
                && sub.scalar <= self.scalar_descs[sub.index].max_value {
                self.scalar_values[sub.index] = sub.scalar;
            }
            a += 1;
        }
        proof {
            assert(cmd@.subrange(0, cmd@.len() as int) =~= cmd@);
        }

        // Delta pass: compare the new state against the remembered one.
        let mut changed = false;
        let mut delta: Vec<Option<u32>> = Vec::new();
        let mut d: usize = 0;
        while d < prev.len()
            invariant
                d <= prev@.len(),
                prev@.len() == self.scalar_values@.len(),
                delta@.len() == d,
                forall|i: int|
                    0 <= i < d ==> delta@[i] == (if self.scalar_values@[i] != prev@[i] {
                        Some(self.scalar_values@[i])
                    } else {
                        None::<u32>
                    }),
                !changed ==> forall|i: int| 0 <= i < d ==> self.scalar_values@[i] == prev@[i],
                changed ==> self.scalar_values@ != prev@,
            decreases prev.len() - d,
        {
            if self.scalar_values[d] != prev[d] {
                delta.push(Some(self.scalar_values[d]));
                changed = true;
            } else {
                delta.push(None);
            }
            d += 1;
        }
        if changed {
            proof {
                assert(delta@ =~= scalar_delta(prev@, self.scalar_values@));
            }
            Ok(Some(delta))
        } else {
            proof {
                assert(self.scalar_values@ =~= prev@);
            }
            Ok(None)
        }
    }

    /// Converts an incoming rotation command into the deduplicated delta
    /// of what actually changed, updating the stored last-sent pairs in
    /// the same step.
    ///
    /// The stored and compared unit is the whole `(speed, clockwise)`
    /// pair, so a direction-only change is still reported even when the
    /// speed is unchanged: some protocols must emit a distinct
    /// direction-change side-effect command. Returns `Ok(None)` when no
    /// addressed pair differs from its stored pair, and otherwise one
    /// entry per configured rotation actuator, `Some(pair)` where the
    /// pair changed and `None` where it did not.
    ///
    /// Fails with `InvalidCommand`, leaving the state untouched, if the
    /// command addresses an actuator index outside the configured count or
    /// supplies an out-of-range speed.
    #[verifier::loop_isolation(false)]
    pub fn update_rotation(
        &mut self,
        cmd: &Vec<RotateSubcommand>,
    ) -> (r: Result<Option<Vec<Option<(u32, bool)>>>, ButtplugDeviceError>)
        requires
            old(self).wf(),
        ensures
            final(self).wf(),
            final(self).scalar_descs == old(self).scalar_descs,
            final(self).scalar_values == old(self).scalar_values,
            final(self).rotation_descs == old(self).rotation_descs,
            final(self).stop_set == old(self).stop_set,
            r is Err <==> !rotate_cmd_valid(old(self).rotation_descs@, cmd@),
            r matches Err(e) ==> e == ButtplugDeviceError::InvalidCommand && *final(self)
                == *old(self),
            r is Ok ==> final(self).rotation_values@ == apply_rotate_cmd(
                old(self).rotation_descs@,
                old(self).rotation_values@,
                cmd@,
            ),
            r matches Ok(opt) ==> (match opt {
                None => final(self).rotation_values@ == old(self).rotation_values@,
                Some(delta) => final(self).rotation_values@ != old(self).rotation_values@ && delta@
                    == rotate_delta(old(self).rotation_values@, final(self).rotation_values@),
            }),
    {
        // Validation pass: reject the whole command, before any mutation,
        // if an entry is unacceptable.
        let mut k: usize = 0;
        while k < cmd.len()
            invariant
                k <= cmd.len(),
                forall|j: int|
                    0 <= j < k ==> rotate_sub_in_range(self.rotation_descs@, #[trigger] cmd@[j]),
            decreases cmd.len() - k,
        {
            let sub = cmd[k];
            if sub.index >= self.rotation_descs.len()
                || sub.speed > self.rotation_descs[sub.index].max_value {
                return Err(ButtplugDeviceError::InvalidCommand);
            }
            k += 1;
        }

        // Remember the state the changes are judged against.
        let mut prev: Vec<(u32, bool)> = Vec::new();
        let mut c: usize = 0;
        while c < self.rotation_values.len()
            invariant
                c <= self.rotation_values@.len(),
                prev@ =~= self.rotation_values@.subrange(0, c as int),
            decreases self.rotation_values.len() - c,
        {
            prev.push(self.rotation_values[c]);
            c += 1;
        }
        proof {
            assert(prev@ =~= self.rotation_values@);
        }

        // Application pass: store each entry in order.
        let ghost descs = self.rotation_descs@;
        let mut a: usize = 0;
        while a < cmd.len()
            invariant
                a <= cmd.len(),
                self.scalar_descs == old(self).scalar_descs,
                self.scalar_values == old(self).scalar_values,
                self.rotation_descs == old(self).rotation_descs,
                self.stop_set == old(self).stop_set,
                self.rotation_values@.len() == prev@.len(),
                forall|i: int|
                    0 <= i < self.rotation_values@.len() ==> (#[trigger] self.rotation_values@[i]).0
                        <= descs[i].max_value,
                self.rotation_values@ == apply_rotate_cmd(descs, prev@, cmd@.subrange(0, a as int)),
            decreases cmd.len() - a,
        {
            proof {
                assert(cmd@.subrange(0, a + 1).drop_last() =~= cmd@.subrange(0, a as int));
                assert(cmd@.subrange(0, a + 1).last() == cmd@[a as int]);
            }
            let sub = cmd[a];
            if sub.index < self.rotation_descs.len()
                && sub.speed <= self.rotation_descs[sub.index].max_value {
                self.rotation_values[sub.index] = (sub.speed, sub.clockwise);
            }
            a += 1;
        }
        proof {
            assert(cmd@.subrange(0, cmd@.len() as int) =~= cmd@);
        }

        // Delta pass: compare the new state against the remembered one.
        let mut changed = false;
        let mut delta: Vec<Option<(u32, bool)>> = Vec::new();
        let mut d: usize = 0;
        while d < prev.len()
            invariant
                d <= prev@.len(),
                prev@.len() == self.rotation_values@.len(),
                delta@.len() == d,
                forall|i: int|
                    0 <= i < d ==> delta@[i] == (if self.rotation_values@[i] != prev@[i] {
                        Some(self.rotation_values@[i])
                    } else {
                        None::<(u32, bool)>
                    }),
                !changed ==> forall|i: int| 0 <= i < d ==> self.rotation_values@[i] == prev@[i],
                changed ==> self.rotation_values@ != prev@,
            decreases prev.len() - d,
        {
            let here = self.rotation_values[d];
            let there = prev[d];
            if here.0 != there.0 || here.1 != there.1 {
                delta.push(Some(here));
                changed = true;
            } else {
                delta.push(None);
            }
            d += 1;
        }
        if changed {
            proof {
                assert(delta@ =~= rotate_delta(prev@, self.rotation_values@));
            }
            Ok(Some(delta))
        } else {
            proof {
                assert(self.rotation_values@ =~= prev@);
            }
            Ok(None)
        }
    }

    /// The canonical stop-command set: one full-width zero command per
    /// non-empty actuator array. Computed once at construction, so it is
    /// independent of every update made since: a stop must always be sent
    /// in full, bypassing the dedup path, whatever the stored state says.
    pub fn stop_commands(&self) -> (r: &Vec<GenericCommand>)
        requires
            self.wf(),
        ensures
            r@ == self.stop_set@,
            is_stop_command_set(r@, self.scalar_descs@.len(), self.rotation_descs@.len()),
    {
        &self.stop_set
    }
}

/// The value the last acceptable entry of `cmd` stores at actuator `i`,
/// if any entry does.
pub open spec fn last_scalar_write(
    descs: Seq<ActuatorDesc>,
    cmd: Seq<ScalarSubcommand>,
    i: int,
) -> Option<u32>
    decreases cmd.len(),
{
    if cmd.len() == 0 {
        None
    } else if scalar_sub_in_range(descs, cmd.last()) && cmd.last().index == i {
        Some(cmd.last().scalar)
    } else {
        last_scalar_write(descs, cmd.drop_last(), i)
    }
}

/// Applying a scalar command stores, at each actuator, the value of the
/// last acceptable entry addressing it, and leaves every other actuator
/// untouched.
pub proof fn lemma_apply_scalar_pointwise(
    descs: Seq<ActuatorDesc>,
    vals: Seq<u32>,
    cmd: Seq<ScalarSubcommand>,
)
    requires
        vals.len() == descs.len(),
    ensures
        apply_scalar_cmd(descs, vals, cmd).len() == vals.len(),
        forall|i: int|
            0 <= i < vals.len() ==> apply_scalar_cmd(descs, vals, cmd)[i] == (
            match last_scalar_write(descs, cmd, i) {
                Some(v) => v,
                None => vals[i],
            }),
    decreases cmd.len(),
{
    if cmd.len() > 0 {
        lemma_apply_scalar_pointwise(descs, vals, cmd.drop_last());
    }
}

/// Law: scalar dedup is idempotent. Applying a scalar command to the state
/// it produced changes nothing, so the second of two identical, accepted
/// `update_scalar` calls finds no difference and reports `None`: repeated
/// identical commands never touch hardware.
pub proof fn lemma_scalar_update_idempotent(
    descs: Seq<ActuatorDesc>,
    vals: Seq<u32>,
    cmd: Seq<ScalarSubcommand>,
)
    requires
        vals.len() == descs.len(),
    ensures
        apply_scalar_cmd(descs, apply_scalar_cmd(descs, vals, cmd), cmd) == apply_scalar_cmd(
            descs,
            vals,
            cmd,
        ),
{
    let mid = apply_scalar_cmd(descs, vals, cmd);
    lemma_apply_scalar_pointwise(descs, vals, cmd);
    lemma_apply_scalar_pointwise(descs, mid, cmd);
    assert(apply_scalar_cmd(descs, mid, cmd) =~= mid);
}

/// The pair the last acceptable entry of `cmd` stores at rotation
/// actuator `i`, if any entry does.
pub open spec fn last_rotate_write(
    descs: Seq<ActuatorDesc>,
    cmd: Seq<RotateSubcommand>,
    i: int,
) -> Option<(u32, bool)>
    decreases cmd.len(),
{
    if cmd.len() == 0 {
        None
    } else if rotate_sub_in_range(descs, cmd.last()) && cmd.last().index == i {
        Some((cmd.last().speed, cmd.last().clockwise))
    } else {
        last_rotate_write(descs, cmd.drop_last(), i)
    }
}

/// Applying a rotation command stores, at each actuator, the pair of the
/// last acceptable entry addressing it, and leaves every other actuator
/// untouched.
pub proof fn lemma_apply_rotate_pointwise(
    descs: Seq<ActuatorDesc>,
    vals: Seq<(u32, bool)>,
    cmd: Seq<RotateSubcommand>,
)
    requires
        vals.len() == descs.len(),
    ensures
        apply_rotate_cmd(descs, vals, cmd).len() == vals.len(),
        forall|i: int|
            0 <= i < vals.len() ==> apply_rotate_cmd(descs, vals, cmd)[i] == (
            match last_rotate_write(descs, cmd, i) {
                Some(p) => p,
                None => vals[i],
            }),
    decreases cmd.len(),
{
    if cmd.len() > 0 {
        lemma_apply_rotate_pointwise(descs, vals, cmd.drop_last());
    }
}

/// Law: rotation dedup is idempotent. Applying a rotation command to the
/// state it produced changes nothing, so the second of two identical,
/// accepted `update_rotation` calls reports `None` — in particular,
/// sending the same `(speed, clockwise)` pair twice emits nothing on the
/// second send.
pub proof fn lemma_rotate_update_idempotent(
    descs: Seq<ActuatorDesc>,
    vals: Seq<(u32, bool)>,
    cmd: Seq<RotateSubcommand>,
)
    requires
        vals.len() == descs.len(),
    ensures
        apply_rotate_cmd(descs, apply_rotate_cmd(descs, vals, cmd), cmd) == apply_rotate_cmd(
            descs,
            vals,
            cmd,
        ),
{
    let mid = apply_rotate_cmd(descs, vals, cmd);
    lemma_apply_rotate_pointwise(descs, vals, cmd);
    lemma_apply_rotate_pointwise(descs, mid, cmd);
    assert(apply_rotate_cmd(descs, mid, cmd) =~= mid);
}

} // verus!

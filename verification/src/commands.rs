use vstd::prelude::*;

verus! {

/// The kind of physical output channel an actuator drives.
#[derive(Clone, Copy, Debug, PartialEq, Eq, Structural)]
pub enum ActuatorType {
    /// A vibration motor, driven by a scalar speed.
    Vibrate,
    /// A rotating motor, driven by a speed and a direction.
    Rotate,
    /// A linear actuator, driven by a scalar position.
    Linear,
}

/// Descriptor of one output channel: its kind and the inclusive upper bound
/// of the values it accepts. Valid values are `0 ..= max_value`; zero is the
/// channel's off state. Supplied from the device's capability metadata and
/// immutable thereafter.
#[derive(Clone, Copy, Debug, PartialEq, Eq, Structural)]
pub struct ActuatorDesc {
    /// The kind of output channel.
    pub actuator: ActuatorType,
    /// Largest value the channel accepts; zero always means off.
    pub max_value: u32,
}

/// One entry of a generic scalar command: set the scalar actuator at
/// `index` to `scalar`.
#[derive(Clone, Copy, Debug, PartialEq, Eq, Structural)]
pub struct ScalarSubcommand {
    /// Position of the addressed actuator in the device's scalar array.
    pub index: usize,
    /// Requested value for that actuator.
    pub scalar: u32,
}

/// One entry of a generic rotation command: set the rotation actuator at
/// `index` to `speed`, turning clockwise or counterclockwise.
#[derive(Clone, Copy, Debug, PartialEq, Eq, Structural)]
pub struct RotateSubcommand {
    /// Position of the addressed actuator in the device's rotation array.
    pub index: usize,
    /// Requested rotation speed.
    pub speed: u32,
    /// Requested rotation direction.
    pub clockwise: bool,
}

/// A generic device command, as issued by clients and stored in the
/// pre-built stop set.
#[derive(Clone, Debug)]
pub enum GenericCommand {
    /// Set the listed scalar actuators.
    Scalar(Vec<ScalarSubcommand>),
    /// Set the listed rotation actuators.
    Rotate(Vec<RotateSubcommand>),
}

/// Holds when `subs` addresses every one of `count` scalar actuators in
/// order and sets each to zero: the canonical scalar stop command.
pub open spec fn is_stop_scalar_subs(subs: Seq<ScalarSubcommand>, count: nat) -> bool {
    &&& subs.len() == count
    &&& forall|i: int|
        0 <= i < count ==> subs[i] == (ScalarSubcommand { index: i as usize, scalar: 0 })
}

/// Holds when `subs` addresses every one of `count` rotation actuators in
/// order and sets each to zero speed, clockwise: the canonical rotation
/// stop command.
pub open spec fn is_stop_rotate_subs(subs: Seq<RotateSubcommand>, count: nat) -> bool {
    &&& subs.len() == count
    &&& forall|i: int|
        0 <= i < count ==> subs[i] == (RotateSubcommand {
            index: i as usize,
            speed: 0,
            clockwise: true,
        })
}

/// Holds when `cmds` is exactly the canonical stop-command set for a device
/// with `scalar_count` scalar actuators and `rotation_count` rotation
/// actuators: one full-width zero command per non-empty actuator array,
/// scalars first.
pub open spec fn is_stop_command_set(
    cmds: Seq<GenericCommand>,
    scalar_count: nat,
    rotation_count: nat,
) -> bool {
    let want_scalar: int = if scalar_count > 0 { 1int } else { 0int };
    let want_rotate: int = if rotation_count > 0 { 1int } else { 0int };
    &&& cmds.len() == want_scalar + want_rotate
    &&& scalar_count > 0 ==> (cmds[0] matches GenericCommand::Scalar(subs)
        && is_stop_scalar_subs(subs@, scalar_count))
    &&& rotation_count > 0 ==> (cmds[want_scalar] matches GenericCommand::Rotate(subs)
        && is_stop_rotate_subs(subs@, rotation_count))
}

} // verus!

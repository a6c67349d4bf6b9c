use vstd::prelude::*;

use crate::commands::ActuatorType;
use crate::endpoint::Endpoint;
use crate::errors::ButtplugDeviceError;
use crate::hardware::HardwareWriteCmd;
use crate::wire::{encode_le16, le16_bytes};

verus! {

/// Protocol handler for force-feedback input devices: a single scalar
/// magnitude, encoded as a fixed-width little-endian integer with no
/// framing. The family has exactly one actuator channel.
#[derive(Clone, Copy, Debug, PartialEq, Eq, Structural)]
pub struct Evdev {}

impl Default for Evdev {
    /// The handler carries no state.
    fn default() -> (r: Evdev)
        ensures
            r == (Evdev {  }),
    {
        Evdev {  }
    }
}

impl Evdev {
    /// This family always wants the full actuator state, not only the
    /// entries that changed: the driver replays the whole effect on every
    /// write.
    pub fn needs_full_command_set(&self) -> (r: bool)
        ensures
            r,
    {
        true
    }

    /// Encodes a scalar command into the family's wire form: the low
    /// 16 bits of the single channel's value, little-endian, as one write
    /// with no framing. Only one actuator channel exists, so the command
    /// must address exactly that one, with a value present; addressing
    /// more than one index is a caller error. The two-byte encoding
    /// cannot fail, so the result is always `Ok`.
    pub fn handle_scalar_cmd(&self, cmds: &Vec<Option<(ActuatorType, u32)>>) -> (r: Result<
        Vec<HardwareWriteCmd>,
        ButtplugDeviceError,
    >)
        requires
            cmds@.len() == 1,
            cmds@[0] is Some,
        ensures
            r matches Ok(writes) && writes@.len() == 1 && writes@[0].endpoint == Endpoint::Tx
                && !writes@[0].write_with_response && writes@[0].data@ == le16_bytes(
                cmds@[0]->Some_0.1,
            ),
    {
        let (_actuator, value) = cmds[0].unwrap();
        let data = encode_le16(value);
        let mut writes: Vec<HardwareWriteCmd> = Vec::new();
        writes.push(HardwareWriteCmd::new(Endpoint::Tx, data, false));
        Ok(writes)
    }
}

} // verus!

//! Pool configuration values and the modes that update them

use vstd::prelude::*;

use crate::error::SwapError;

verus! {

/// Length of the byte array that carries a pool config value.
pub const VALUE_BYTE_ARRAY_LEN: usize = 32;

/// The pool settings an admin can update.
#[derive(Debug, Clone, Copy, PartialEq, Eq, Structural)]
pub enum UpdatePoolConfigMode {
    /// Whether the pool only accepts withdrawals
    WithdrawalsOnly,
}

impl UpdatePoolConfigMode {
    /// The mode that `mode` numbers: only 0, for `WithdrawalsOnly`.
    pub fn try_from_u16(mode: u16) -> (r: Option<UpdatePoolConfigMode>)
        ensures
            r == (if mode == 0 {
                Some(UpdatePoolConfigMode::WithdrawalsOnly)
            } else {
                None::<UpdatePoolConfigMode>
            }),
    {
        if mode == 0 {
            Some(UpdatePoolConfigMode::WithdrawalsOnly)
        } else {
            None
        }
    }

    /// The number of this mode.
    pub fn to_u16(&self) -> (r: u16)
        ensures
            r == 0,
    {
        match self {
            UpdatePoolConfigMode::WithdrawalsOnly => 0,
        }
    }
}

/// A value to set a pool setting to.
#[derive(Debug, Clone, Copy, PartialEq, Eq, Structural)]
pub enum UpdatePoolConfigValue {
    /// A flag
    Bool(bool),
}

/// The bytes a flag is carried in: its value in the first byte, zeroes after.
pub open spec fn bool_bytes(value: bool) -> Seq<u8> {
    Seq::new(VALUE_BYTE_ARRAY_LEN as nat, |i: int| if i == 0 && value { 1u8 } else { 0u8 })
}

/// The flag that the bytes of an update instruction carry: the first byte
/// must be 0 or 1.
pub open spec fn decode_bool_bytes(bytes: Seq<u8>) -> Result<UpdatePoolConfigValue, SwapError> {
    if bytes[0] == 0 {
        Ok(UpdatePoolConfigValue::Bool(false))
    } else if bytes[0] == 1 {
        Ok(UpdatePoolConfigValue::Bool(true))
    } else {
        Err(SwapError::InvalidInput)
    }
}

impl UpdatePoolConfigValue {
    /// Encode the value in the byte array of an update instruction
    pub fn to_bytes(&self) -> (r: [u8; VALUE_BYTE_ARRAY_LEN])
        ensures
            match *self {
                UpdatePoolConfigValue::Bool(b) => r@ == bool_bytes(b),
            },
    {
        let mut val = [0u8; VALUE_BYTE_ARRAY_LEN];
        match self {
            UpdatePoolConfigValue::Bool(v) => {
                if *v {
                    val[0] = 1;
                }
                proof {
                    assert(val@ =~= bool_bytes(*v));
                }
            },
        }
        val
    }

    /// The value as stored in the pool: 1 for true, 0 for false
    pub fn to_u64(&self) -> (r: u64)
        ensures
            match *self {
                UpdatePoolConfigValue::Bool(b) => r == (if b { 1u64 } else { 0u64 }),
            },
    {
        match self {
            UpdatePoolConfigValue::Bool(v) => if *v {
                1
            } else {
                0
            },
        }
    }

    /// Decode a flag from the byte array of an update instruction: the
    /// first byte must be 0 or 1
    pub fn from_bool_bytes(val: &[u8; VALUE_BYTE_ARRAY_LEN]) -> (r: Result<
        UpdatePoolConfigValue,
        SwapError,
    >)
        ensures
            r == decode_bool_bytes(val@),
    {
        if val[0] == 0 {
            Ok(UpdatePoolConfigValue::Bool(false))
        } else if val[0] == 1 {
            Ok(UpdatePoolConfigValue::Bool(true))
        } else {
            Err(SwapError::InvalidInput)
        }
    }
}

/// A flag encoded for an update instruction decodes to itself.
pub proof fn lemma_config_value_round_trip(flag: bool)
    ensures
        decode_bool_bytes(bool_bytes(flag)) == Ok::<UpdatePoolConfigValue, SwapError>(
            UpdatePoolConfigValue::Bool(flag),
        ),
{
}

} // verus!

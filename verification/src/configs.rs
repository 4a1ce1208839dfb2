//! Pool config values as the command line gives them

use vstd::prelude::*;

use crate::state::{UpdatePoolConfigMode, UpdatePoolConfigValue};

verus! {

/// A pool setting together with the value to set it to.
#[derive(Debug, Clone, Copy, PartialEq, Eq, Structural)]
pub enum PoolConfigValue {
    /// Whether the pool only accepts withdrawals
    WithdrawalsOnly(bool),
}

/// The flag that `text` spells: only "true" and "false" are flags.
pub open spec fn bool_of_str(text: Seq<char>) -> Option<bool> {
    if text == "true"@ {
        Some(true)
    } else if text == "false"@ {
        Some(false)
    } else {
        None
    }
}

/// `str::parse::<bool>`.
///
/// Trusted: std documents that `bool`'s `FromStr` accepts exactly "true"
/// and "false".
#[verifier::external_body]
pub(crate) fn parse_bool(text: &str) -> (r: Option<bool>)
    ensures
        r == bool_of_str(text@),
{
    text.parse::<bool>().ok()
}

impl PoolConfigValue {
    /// The config value for setting `mode` to `value`.
    pub fn new(mode: UpdatePoolConfigMode, value: UpdatePoolConfigValue) -> (r: Self)
        ensures
            match (mode, value) {
                (UpdatePoolConfigMode::WithdrawalsOnly, UpdatePoolConfigValue::Bool(b)) => r
                    == PoolConfigValue::WithdrawalsOnly(b),
            },
    {
        match (mode, value) {
            (UpdatePoolConfigMode::WithdrawalsOnly, UpdatePoolConfigValue::Bool(val)) => {
                PoolConfigValue::WithdrawalsOnly(val)
            },
        }
    }

    /// The config value for setting `mode` to the value written in `value`;
    /// a flag must be written "true" or "false".
    pub fn new_from_str(mode: UpdatePoolConfigMode, value: String) -> (r: PoolConfigValue)
        requires
            bool_of_str(value@) is Some,
        ensures
            match mode {
                UpdatePoolConfigMode::WithdrawalsOnly => r == PoolConfigValue::WithdrawalsOnly(
                    bool_of_str(value@)->Some_0,
                ),
            },
    {
        let parsed_value = match mode {
            UpdatePoolConfigMode::WithdrawalsOnly => {
                let flag = match parse_bool(value.as_str()) {
                    Some(b) => b,
                    None => false,
                };
                UpdatePoolConfigValue::Bool(flag)
            },
        };
        PoolConfigValue::new(mode, parsed_value)
    }

    /// The config value for setting `mode` to the value written in `value`,
    /// or `None` where `value` does not spell a value for `mode`.
    pub fn try_new_from_str(mode: UpdatePoolConfigMode, value: String) -> (r: Option<
        PoolConfigValue,
    >)
        ensures
            match mode {
                UpdatePoolConfigMode::WithdrawalsOnly => r == match bool_of_str(value@) {
                    Some(b) => Some(PoolConfigValue::WithdrawalsOnly(b)),
                    None => None::<PoolConfigValue>,
                },
            },
    {
        match mode {
            UpdatePoolConfigMode::WithdrawalsOnly => match parse_bool(value.as_str()) {
                Some(_) => Some(PoolConfigValue::new_from_str(mode, value)),
                None => None,
            },
        }
    }

    /// The mode and value an update instruction carries for this config value.
    pub fn to_update(&self) -> (r: (UpdatePoolConfigMode, UpdatePoolConfigValue))
        ensures
            match *self {
                PoolConfigValue::WithdrawalsOnly(b) => r == (
                    UpdatePoolConfigMode::WithdrawalsOnly,
                    UpdatePoolConfigValue::Bool(b),
                ),
            },
    {
        match self {
            PoolConfigValue::WithdrawalsOnly(val) => (
                UpdatePoolConfigMode::WithdrawalsOnly,
                UpdatePoolConfigValue::Bool(*val),
            ),
        }
    }
}

} // verus!

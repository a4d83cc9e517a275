use vstd::prelude::*;

use crate::errors::ConfigError;

verus! {

/// Resolves one configuration variable from what the environment offered and
/// the documented default: the value read wins, else the default, else the
/// variable is missing.
pub fn resolve_env_value(found: Option<String>, default: Option<String>) -> (r: Result<
    String,
    ConfigError,
>)
    ensures
        r == (match found {
            Option::Some(v) => Ok::<String, ConfigError>(v),
            Option::None => match default {
                Option::Some(d) => Ok::<String, ConfigError>(d),
                Option::None => Err::<String, ConfigError>(ConfigError::MissingVariable),
            },
        }),
{
    match found {
        Option::Some(v) => Ok(v),
        Option::None => match default {
            Option::Some(d) => Ok(d),
            Option::None => Err(ConfigError::MissingVariable),
        },
    }
}

} // verus!

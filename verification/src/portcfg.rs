//! Listening-port resolution, keyed by the deployment environment.
//!
//! Each hosting environment injects the listening port through a different
//! mechanism: an environment variable under one of two names, or a fixed
//! well-known port. The rules here decide, from the environment variant and
//! the value that variable carried (if any), which port the server binds —
//! or that the configuration is unusable. Reading the environment itself is
//! the server layer's job; it hands the raw string in and gets a plain port
//! number back.

use vstd::prelude::*;

use crate::decimal::{parse_u16, spec_all_digits, spec_decimal_value, spec_port_digits};

verus! {

/// The deployment environment the process runs under, used only to resolve
/// the listening port.
#[derive(Clone, Copy, Debug, PartialEq, Eq, Structural)]
pub enum Cloud {
    GCP,
    Azure,
    AliCloud,
    AWS,
    /// No recognized hosting environment: use `PORT` if set, else a default.
    Unspecified,
}

/// Why the listening port could not be resolved.
#[derive(Clone, Copy, Debug, PartialEq, Eq, Structural)]
pub enum PortError {
    /// The environment variable the variant requires is not set.
    MissingPort,
    /// The variable is set but does not hold a decimal port number.
    BadPort,
}

/// A string that denotes a port, the way Rust's unsigned parsing reads it:
/// one optional leading `+`, then one or more decimal digits whose value
/// fits in sixteen bits.
pub open spec fn spec_is_port_string(s: Seq<char>) -> bool {
    let digits = spec_port_digits(s);
    digits.len() > 0 && spec_all_digits(digits) && spec_decimal_value(digits) <= 65535
}

/// The port a well-formed port string denotes.
pub open spec fn spec_port_value(s: Seq<char>) -> u16
    recommends
        spec_is_port_string(s),
{
    spec_decimal_value(spec_port_digits(s)) as u16
}

/// The port the variant owes for a given environment-variable value.
pub open spec fn spec_resolve_port(cloud: Cloud, env: Option<Seq<char>>) -> Result<u16, PortError> {
    match cloud {
        Cloud::GCP | Cloud::Azure => match env {
            Option::None => Result::Err(PortError::MissingPort),
            Option::Some(s) => if spec_is_port_string(s) {
                Result::Ok(spec_port_value(s))
            } else {
                Result::Err(PortError::BadPort)
            },
        },
        Cloud::AWS => Result::Ok(8080),
        Cloud::AliCloud => Result::Ok(9000),
        Cloud::Unspecified => match env {
            Option::None => Result::Ok(3000),
            Option::Some(s) => if spec_is_port_string(s) {
                Result::Ok(spec_port_value(s))
            } else {
                Result::Err(PortError::BadPort)
            },
        },
    }
}

/// The name of the environment variable a variant reads its port from, if
/// it reads one at all.
pub fn port_env_var(cloud: Cloud) -> (r: Option<&'static str>)
    ensures
        cloud == Cloud::GCP ==> (r matches Some(name) && name@ == "PORT"@),
        cloud == Cloud::Azure ==> (r matches Some(name) && name@ == "FUNCTIONS_CUSTOMHANDLER_PORT"@),
        cloud == Cloud::Unspecified ==> (r matches Some(name) && name@ == "PORT"@),
        cloud == Cloud::AWS || cloud == Cloud::AliCloud ==> r is None,
{
    match cloud {
        Cloud::GCP | Cloud::Unspecified => Some("PORT"),
        Cloud::Azure => Some("FUNCTIONS_CUSTOMHANDLER_PORT"),
        Cloud::AWS | Cloud::AliCloud => None,
    }
}

/// Resolve the listening port from the deployment variant and the value of
/// its port variable: a fixed well-known port for the variants that have
/// one, the variable's decimal value where it is required or offered, the
/// generic default where nothing is set, and a distinguishable error where
/// the configuration is missing or malformed.
pub fn resolve_port(cloud: Cloud, env_value: Option<&str>) -> (r: Result<u16, PortError>)
    ensures
        env_value matches Some(s) ==> r == spec_resolve_port(cloud, Some(s@)),
        env_value is None ==> r == spec_resolve_port(cloud, None::<Seq<char>>),
{
    match cloud {
        Cloud::GCP | Cloud::Azure => match env_value {
            None => Err(PortError::MissingPort),
            Some(s) => match parse_u16(s) {
                Some(p) => Ok(p),
                None => Err(PortError::BadPort),
            },
        },
        Cloud::AWS => Ok(8080),
        Cloud::AliCloud => Ok(9000),
        Cloud::Unspecified => match env_value {
            None => Ok(3000),
            Some(s) => match parse_u16(s) {
                Some(p) => Ok(p),
                None => Err(PortError::BadPort),
            },
        },
    }
}

} // verus!

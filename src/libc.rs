use vstd::prelude::*;
use crate::error::ConfigError;
use crate::text::str_eq;
use crate::yaml::Yaml;

verus! {

/// The C library that the toolchain is built for.
#[derive(Clone, Copy, Debug, PartialEq, Eq, Structural)]
pub enum Libc {
    Musl,
    Glibc,
}

/// The C library with the given configuration name (case-sensitive).
pub open spec fn libc_from_name(s: Seq<char>) -> Option<Libc> {
    if s == "musl"@ {
        Some(Libc::Musl)
    } else if s == "glibc"@ {
        Some(Libc::Glibc)
    } else {
        None
    }
}

impl Default for Libc {
    fn default() -> (r: Libc)
        ensures
            r == Libc::Glibc,
    {
        Libc::Glibc
    }
}

impl Libc {
    /// Reads a C library from its configuration name.
    pub fn from_str(value: &str) -> (r: Result<Libc, ConfigError>)
        ensures
            r == (match libc_from_name(value@) {
                Some(l) => Ok(l),
                None => Err(ConfigError::InvalidLibc),
            }),
    {
        if str_eq(value, "musl") {
            Ok(Libc::Musl)
        } else if str_eq(value, "glibc") {
            Ok(Libc::Glibc)
        } else {
            Err(ConfigError::InvalidLibc)
        }
    }

    /// Reads a C library from a YAML node, which must be a string.
    pub fn parse(v: &Yaml) -> (r: Result<Libc, ConfigError>)
        ensures
            r == (match v {
                Yaml::String(s) => match libc_from_name(s@) {
                    Some(l) => Ok(l),
                    None => Err(ConfigError::InvalidLibc),
                },
                _ => Err(ConfigError::LibcNotString),
            }),
    {
        match v {
            Yaml::String(s) => Libc::from_str(s.as_str()),
            _ => Err(ConfigError::LibcNotString),
        }
    }
}

} // verus!

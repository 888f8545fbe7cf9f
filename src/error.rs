use vstd::prelude::*;

verus! {

/// Why a configuration was rejected.
#[derive(Clone, Copy, Debug, PartialEq, Eq, Structural)]
pub enum ConfigError {
    /// The value given for the C library is not a string.
    LibcNotString,
    /// The C library is neither `musl` nor `glibc`.
    InvalidLibc,
    /// The TLS stack is not one of the recognised names.
    InvalidTls,
    /// The `curl` block is not where it was expected, or is not a mapping.
    CurlNotFound,
    /// A key of the `curl` block is not a string.
    CurlKeyNotString,
    /// The `lib` entry of the `curl` block is not a boolean.
    CurlLibNotBool,
    /// The `bin` entry of the `curl` block is not a boolean.
    CurlBinNotBool,
    /// The `tls` entry of the `curl` block is not a string.
    CurlTlsNotString,
    /// The `curl` block holds a key other than `lib`, `bin` and `tls`.
    UnknownCurlKey,
    /// Neither the curl binary nor the library is selected.
    CurlWithoutBinOrLib,
    /// The selected TLS stack cannot be used by the curl recipe.
    TlsUnsupportedByCurl,
    /// No TLS stack is selected for curl.
    CurlMissingTls,
}

} // verus!

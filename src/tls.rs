use vstd::prelude::*;
use crate::error::ConfigError;
use crate::text::str_eq;

verus! {

/// The TLS stacks that a package can be built against.
#[derive(Clone, Copy, Debug, PartialEq, Eq, Structural)]
pub enum TLS {
    BearSSL,
    WolfSSL,
    OpenSSL,
    GnuTLS,
    MbedTLS,
    RusTLS,
}

/// The configuration name of a TLS stack.
pub open spec fn tls_name(t: TLS) -> Seq<char> {
    match t {
        TLS::BearSSL => "bearssl"@,
        TLS::WolfSSL => "wolfssl"@,
        TLS::OpenSSL => "openssl"@,
        TLS::GnuTLS => "gnutls"@,
        TLS::MbedTLS => "mbedtls"@,
        TLS::RusTLS => "rustls"@,
    }
}

/// The TLS stack with the given configuration name (names are case-sensitive).
pub open spec fn tls_from_name(s: Seq<char>) -> Option<TLS> {
    if s == "bearssl"@ {
        Some(TLS::BearSSL)
    } else if s == "wolfssl"@ {
        Some(TLS::WolfSSL)
    } else if s == "openssl"@ {
        Some(TLS::OpenSSL)
    } else if s == "gnutls"@ {
        Some(TLS::GnuTLS)
    } else if s == "mbedtls"@ {
        Some(TLS::MbedTLS)
    } else if s == "rustls"@ {
        Some(TLS::RusTLS)
    } else {
        None
    }
}

impl TLS {
    /// Reads a TLS stack from its configuration name.
    pub fn from_str(value: &str) -> (r: Result<TLS, ConfigError>)
        ensures
            r == (match tls_from_name(value@) {
                Some(t) => Ok(t),
                None => Err(ConfigError::InvalidTls),
            }),
    {
        if str_eq(value, "bearssl") {
            Ok(TLS::BearSSL)
        } else if str_eq(value, "wolfssl") {
            Ok(TLS::WolfSSL)
        } else if str_eq(value, "openssl") {
            Ok(TLS::OpenSSL)
        } else if str_eq(value, "gnutls") {
            Ok(TLS::GnuTLS)
        } else if str_eq(value, "mbedtls") {
            Ok(TLS::MbedTLS)
        } else if str_eq(value, "rustls") {
            Ok(TLS::RusTLS)
        } else {
            Err(ConfigError::InvalidTls)
        }
    }

    /// The name under which the stack is selected in a package configuration.
    pub fn to_image_install_value(&self) -> (r: String)
        ensures
            r@ == tls_name(*self),
    {
        match self {
            TLS::BearSSL => "bearssl".to_string(),
            TLS::WolfSSL => "wolfssl".to_string(),
            TLS::OpenSSL => "openssl".to_string(),
            TLS::GnuTLS => "gnutls".to_string(),
            TLS::MbedTLS => "mbedtls".to_string(),
            TLS::RusTLS => "rustls".to_string(),
        }
    }
}

/// Reading back the name of a stack gives that stack.
pub proof fn tls_name_round_trip(t: TLS)
    ensures
        tls_from_name(tls_name(t)) == Some(t),
{
    reveal_strlit("bearssl");
    reveal_strlit("wolfssl");
    reveal_strlit("openssl");
    reveal_strlit("gnutls");
    reveal_strlit("mbedtls");
    reveal_strlit("rustls");
    let n = tls_name(t);
    // the six names differ in their first character
    assert(n[0] != "bearssl"@[0] || n == "bearssl"@);
    assert(n[0] != "wolfssl"@[0] || n == "wolfssl"@);
    assert(n[0] != "openssl"@[0] || n == "openssl"@);
    assert(n[0] != "gnutls"@[0] || n == "gnutls"@);
    assert(n[0] != "mbedtls"@[0] || n == "mbedtls"@);
}

} // verus!

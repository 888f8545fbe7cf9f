use vstd::prelude::*;
use crate::error::ConfigError;
use crate::text::str_eq;
use crate::tls::{tls_from_name, tls_name, TLS};
use crate::yaml::{mapping_get, mapping_lookup, yaml_str, Yaml};

verus! {

/// A validated curl selection: at least one of `bin` and `lib`, and a TLS
/// stack that the curl recipe supports.
#[derive(Clone, Copy, Debug, PartialEq, Eq, Structural)]
pub struct Curl {
    pub bin: bool,
    pub lib: bool,
    pub tls: TLS,
}

/// A curl block as written, before the rules across its fields are checked.
#[derive(Clone, Copy, Debug, PartialEq, Eq, Structural)]
pub struct RawCurl {
    pub bin: bool,
    pub lib: bool,
    pub tls: Option<TLS>,
}

/// The two stacks that the curl recipe cannot be built against.
pub open spec fn curl_supports(t: TLS) -> bool {
    t != TLS::BearSSL && t != TLS::WolfSSL
}

impl Curl {
    pub open spec fn wf(self) -> bool {
        (self.bin || self.lib) && curl_supports(self.tls)
    }
}

/// The rules across the fields of a curl block.
pub open spec fn validate_curl(raw: RawCurl) -> Result<Curl, ConfigError> {
    if !raw.lib && !raw.bin {
        Err(ConfigError::CurlWithoutBinOrLib)
    } else {
        match raw.tls {
            Some(t) => if curl_supports(t) {
                Ok(Curl { bin: raw.bin, lib: raw.lib, tls: t })
            } else {
                Err(ConfigError::TlsUnsupportedByCurl)
            },
            None => Err(ConfigError::CurlMissingTls),
        }
    }
}

/// Reads one entry of a curl block into the fields read so far.
pub open spec fn apply_curl_entry(acc: RawCurl, entry: (Yaml, Yaml)) -> Result<RawCurl, ConfigError> {
    match yaml_str(entry.0) {
        None => Err(ConfigError::CurlKeyNotString),
        Some(k) => if k == "lib"@ {
            match entry.1 {
                Yaml::Bool(b) => Ok(RawCurl { lib: b, ..acc }),
                _ => Err(ConfigError::CurlLibNotBool),
            }
        } else if k == "bin"@ {
            match entry.1 {
                Yaml::Bool(b) => Ok(RawCurl { bin: b, ..acc }),
                _ => Err(ConfigError::CurlBinNotBool),
            }
        } else if k == "tls"@ {
            match yaml_str(entry.1) {
                Some(s) => match tls_from_name(s) {
                    Some(t) => Ok(RawCurl { tls: Some(t), ..acc }),
                    None => Err(ConfigError::InvalidTls),
                },
                None => Err(ConfigError::CurlTlsNotString),
            }
        } else {
            Err(ConfigError::UnknownCurlKey)
        },
    }
}

/// Reads the entries of a curl block in order; the first bad entry decides the error.
pub open spec fn read_curl_entries(acc: RawCurl, entries: Seq<(Yaml, Yaml)>) -> Result<RawCurl, ConfigError>
    decreases entries.len(),
{
    if entries.len() == 0 {
        Ok(acc)
    } else {
        match apply_curl_entry(acc, entries[0]) {
            Err(e) => Err(e),
            Ok(next) => read_curl_entries(next, entries.skip(1)),
        }
    }
}

pub open spec fn empty_raw_curl() -> RawCurl {
    RawCurl { bin: false, lib: false, tls: None }
}

/// A curl block given as the entries of a mapping.
pub open spec fn curl_from_entries(entries: Seq<(Yaml, Yaml)>) -> Result<Curl, ConfigError> {
    match read_curl_entries(empty_raw_curl(), entries) {
        Err(e) => Err(e),
        Ok(raw) => validate_curl(raw),
    }
}

/// A curl block given as a YAML node, which must be a mapping.
pub open spec fn curl_from_yaml(v: Yaml) -> Result<Curl, ConfigError> {
    match v {
        Yaml::Mapping(entries) => curl_from_entries(entries@),
        _ => Err(ConfigError::CurlNotFound),
    }
}

/// The text that installs curl and selects its TLS stack.
pub open spec fn curl_install_text(c: Curl) -> Seq<char> {
    "IMAGE_INSTALL:append = \" "@
        + (if c.bin { "curl"@ } else { Seq::empty() })
        + (if c.lib { " libcurl"@ } else { Seq::empty() })
        + "\"\n"@
        + "PACKAGECONFIG:append:pn-curl = \" "@
        + tls_name(c.tls)
        + "\""@
}

fn apply_entry(acc: RawCurl, entry: &(Yaml, Yaml)) -> (r: Result<RawCurl, ConfigError>)
    ensures
        r == apply_curl_entry(acc, *entry),
{
    let key = match &entry.0 {
        Yaml::String(k) => k,
        _ => {
            return Err(ConfigError::CurlKeyNotString);
        },
    };
    if str_eq(key.as_str(), "lib") {
        match &entry.1 {
            Yaml::Bool(b) => Ok(RawCurl { lib: *b, ..acc }),
            _ => Err(ConfigError::CurlLibNotBool),
        }
    } else if str_eq(key.as_str(), "bin") {
        match &entry.1 {
            Yaml::Bool(b) => Ok(RawCurl { bin: *b, ..acc }),
            _ => Err(ConfigError::CurlBinNotBool),
        }
    } else if str_eq(key.as_str(), "tls") {
        match &entry.1 {
            Yaml::String(s) => match TLS::from_str(s.as_str()) {
                Ok(t) => Ok(RawCurl { tls: Some(t), ..acc }),
                Err(e) => Err(e),
            },
            _ => Err(ConfigError::CurlTlsNotString),
        }
    } else {
        Err(ConfigError::UnknownCurlKey)
    }
}

impl RawCurl {
    /// Reads the fields of a curl block from the entries of its mapping,
    /// rejecting keys other than `lib`, `bin` and `tls` and values of the
    /// wrong kind. Fields that are not given are `false` and no stack.
    pub fn read(entries: &Vec<(Yaml, Yaml)>) -> (r: Result<RawCurl, ConfigError>)
        ensures
            r == read_curl_entries(empty_raw_curl(), entries@),
    {
        let mut acc = RawCurl { bin: false, lib: false, tls: None };
        let mut i: usize = 0;
        assert(entries@.skip(0) =~= entries@);
        while i < entries.len()
            invariant
                i <= entries@.len(),
                read_curl_entries(acc, entries@.skip(i as int))
                    == read_curl_entries(empty_raw_curl(), entries@),
            decreases entries@.len() - i,
        {
            let ghost rest = entries@.skip(i as int);
            assert(rest[0] == entries@[i as int]);
            assert(rest.skip(1) =~= entries@.skip(i + 1));
            match apply_entry(acc, &entries[i]) {
                Err(e) => {
                    return Err(e);
                },
                Ok(next) => {
                    acc = next;
                },
            }
            i = i + 1;
        }
        Ok(acc)
    }
}

impl Curl {
    /// Checks the rules across the fields of a curl block.
    pub fn validate(raw: RawCurl) -> (r: Result<Curl, ConfigError>)
        ensures
            r == validate_curl(raw),
    {
        if !raw.lib && !raw.bin {
            return Err(ConfigError::CurlWithoutBinOrLib);
        }
        match raw.tls {
            Some(TLS::BearSSL) | Some(TLS::WolfSSL) => Err(ConfigError::TlsUnsupportedByCurl),
            Some(t) => Ok(Curl { bin: raw.bin, lib: raw.lib, tls: t }),
            None => Err(ConfigError::CurlMissingTls),
        }
    }

    /// Reads and validates a curl block given as a mapping node.
    pub fn from_yaml(v: &Yaml) -> (r: Result<Curl, ConfigError>)
        ensures
            r == curl_from_yaml(*v),
            r is Ok ==> r->Ok_0.wf(),
    {
        match v {
            Yaml::Mapping(entries) => match RawCurl::read(entries) {
                Err(e) => Err(e),
                Ok(raw) => Curl::validate(raw),
            },
            _ => Err(ConfigError::CurlNotFound),
        }
    }

    /// Reads the curl block of a feature list: the first item of the
    /// sequence `v` must be a mapping whose `curl` entry holds the block.
    pub fn try_from(v: &Yaml) -> (r: Result<Curl, ConfigError>)
        ensures
            r == (match v {
                Yaml::Sequence(items) => if items@.len() > 0 {
                    match items@[0] {
                        Yaml::Mapping(entries) => match mapping_get(entries@, "curl"@) {
                            Some(block) => curl_from_yaml(block),
                            None => Err(ConfigError::CurlNotFound),
                        },
                        _ => Err(ConfigError::CurlNotFound),
                    }
                } else {
                    Err(ConfigError::CurlNotFound)
                },
                _ => Err(ConfigError::CurlNotFound),
            }),
            r is Ok ==> r->Ok_0.wf(),
    {
        match v {
            Yaml::Sequence(items) => {
                if items.len() == 0 {
                    return Err(ConfigError::CurlNotFound);
                }
                match &items[0] {
                    Yaml::Mapping(entries) => match mapping_lookup(entries, "curl") {
                        Some(block) => Curl::from_yaml(block),
                        None => Err(ConfigError::CurlNotFound),
                    },
                    _ => Err(ConfigError::CurlNotFound),
                }
            },
            _ => Err(ConfigError::CurlNotFound),
        }
    }

    /// The lines that install curl (the binary, the library or both) and
    /// select its TLS stack, without a final line break.
    pub fn to_image_install_value(&self) -> (r: String)
        ensures
            r@ == curl_install_text(*self),
    {
        let mut ret = "IMAGE_INSTALL:append = \" ".to_string();
        if self.bin {
            ret.append("curl");
        }
        if self.lib {
            ret.append(" libcurl");
        }
        ret.append("\"\n");
        ret.append("PACKAGECONFIG:append:pn-curl = \" ");
        let tls = self.tls.to_image_install_value();
        ret.append(tls.as_str());
        ret.append("\"");
        assert(ret@ =~= curl_install_text(*self));
        ret
    }
}

/// A curl block that selects neither the binary nor the library is rejected.
pub proof fn curl_without_bin_or_lib_rejected(raw: RawCurl)
    requires
        !raw.bin && !raw.lib,
    ensures
        validate_curl(raw) == Err::<Curl, ConfigError>(ConfigError::CurlWithoutBinOrLib),
{
}

/// A curl block that selects BearSSL or WolfSSL is rejected.
pub proof fn curl_with_unsupported_tls_rejected(raw: RawCurl)
    requires
        raw.tls == Some(TLS::BearSSL) || raw.tls == Some(TLS::WolfSSL),
    ensures
        validate_curl(raw) is Err,
{
}

/// A curl block that selects no TLS stack is rejected.
pub proof fn curl_without_tls_rejected(raw: RawCurl)
    requires
        raw.tls is None,
    ensures
        validate_curl(raw) is Err,
{
}

/// Every curl block that passes validation selects something to install
/// and a stack that curl supports.
pub proof fn validated_curl_is_well_formed(raw: RawCurl)
    ensures
        validate_curl(raw) is Ok ==> validate_curl(raw)->Ok_0.wf(),
{
}

} // verus!

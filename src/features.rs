use vstd::prelude::*;
use vstd::utf8::encode_utf8;
use crate::curl::{curl_from_yaml, curl_install_text, empty_raw_curl, read_curl_entries, Curl, RawCurl};
use crate::tls::TLS;
use crate::error::ConfigError;
use crate::libc::{libc_from_name, Libc};
use crate::yaml::Yaml;

verus! {

/// Relies on std's `io::Error` only as the error type of writers; writing
/// into memory never produces one.
#[verifier::external_type_specification]
#[verifier::external_body]
pub struct ExIoError(std::io::Error);

/// The optional features of an image.
#[derive(Clone, Debug)]
pub struct Features {
    /// The revision of the auxiliary feature layer.
    pub meta_thistle: String,
    pub read_only_rootfs: bool,
    pub updater: bool,
    pub libc: Option<Libc>,
    pub curl: Option<Curl>,
}

impl Features {
    /// Every selected curl block obeys the curl rules.
    pub open spec fn wf(&self) -> bool {
        match self.curl {
            Some(c) => c.wf(),
            None => true,
        }
    }
}

/// The configuration lines for a feature set, in their fixed order:
/// update client, read-only root file system, curl, C library.
pub open spec fn features_text(f: Features) -> Seq<char> {
    (if f.updater { "IMAGE_INSTALL:append = \" embedded-client\"\n"@ } else { Seq::empty() })
        + (if f.read_only_rootfs { "IMAGE_FEATURES:append = \" read-only-rootfs\"\n"@ } else { Seq::empty() })
        + (match f.curl {
            Some(c) => curl_install_text(c) + "\n"@,
            None => Seq::empty(),
        })
        + (match f.libc {
            Some(Libc::Musl) => "TCLIBC = \"musl\"\n"@,
            Some(Libc::Glibc) => "TCLIBC = \"glibc\"\n"@,
            None => Seq::empty(),
        })
}

/// A feature set from its declared parts; the C library and the curl
/// block, where given, are read and validated, the C library first.
pub open spec fn features_from_parts(
    meta_thistle: String,
    read_only_rootfs: bool,
    updater: bool,
    libc: Option<Yaml>,
    curl: Option<Yaml>,
) -> Result<(Option<Libc>, Option<Curl>), ConfigError> {
    let l: Result<Option<Libc>, ConfigError> = match libc {
        None => Ok(None),
        Some(Yaml::String(s)) => match libc_from_name(s@) {
            Some(x) => Ok(Some(x)),
            None => Err(ConfigError::InvalidLibc),
        },
        Some(_) => Err(ConfigError::LibcNotString),
    };
    match l {
        Err(e) => Err(e),
        Ok(l) => match curl {
            None => Ok((l, None)),
            Some(c) => match curl_from_yaml(c) {
                Err(e) => Err(e),
                Ok(c) => Ok((l, Some(c))),
            },
        },
    }
}

impl Features {
    /// Builds a feature set, validating the C library and the curl block.
    pub fn from_parts(
        meta_thistle: String,
        read_only_rootfs: bool,
        updater: bool,
        libc: Option<&Yaml>,
        curl: Option<&Yaml>,
    ) -> (r: Result<Features, ConfigError>)
        ensures
            match features_from_parts(meta_thistle, read_only_rootfs, updater,
                match libc { Some(y) => Some(*y), None => None },
                match curl { Some(y) => Some(*y), None => None }) {
                Err(e) => r == Err::<Features, ConfigError>(e),
                Ok((l, c)) => r is Ok && r->Ok_0.meta_thistle == meta_thistle
                    && r->Ok_0.read_only_rootfs == read_only_rootfs && r->Ok_0.updater == updater
                    && r->Ok_0.libc == l && r->Ok_0.curl == c,
            },
            r is Ok ==> r->Ok_0.wf(),
    {
        let l = match libc {
            None => None,
            Some(y) => match Libc::parse(y) {
                Ok(x) => Some(x),
                Err(e) => {
                    return Err(e);
                },
            },
        };
        let c = match curl {
            None => None,
            Some(y) => match Curl::from_yaml(y) {
                Ok(x) => Some(x),
                Err(e) => {
                    return Err(e);
                },
            },
        };
        Ok(Features { meta_thistle, read_only_rootfs, updater, libc: l, curl: c })
    }

    /// The configuration lines for this feature set.
    pub fn local_conf_text(&self) -> (r: String)
        ensures
            r@ == features_text(*self),
    {
        let mut w = String::new();
        if self.updater {
            w.append("IMAGE_INSTALL:append = \" embedded-client\"\n");
        }
        if self.read_only_rootfs {
            w.append("IMAGE_FEATURES:append = \" read-only-rootfs\"\n");
        }
        match &self.curl {
            Some(c) => {
                let t = c.to_image_install_value();
                w.append(t.as_str());
                w.append("\n");
            },
            None => {},
        }
        match self.libc {
            Some(Libc::Musl) => w.append("TCLIBC = \"musl\"\n"),
            Some(Libc::Glibc) => w.append("TCLIBC = \"glibc\"\n"),
            None => {},
        }
        assert(w@ =~= features_text(*self));
        w
    }

    /// Appends the configuration lines for this feature set to `w`, as UTF-8.
    pub fn write_local_conf(&self, w: &mut Vec<u8>) -> (r: Result<(), std::io::Error>)
        ensures
            r is Ok,
            final(w)@ == old(w)@ + encode_utf8(features_text(*self)),
    {
        let text = self.local_conf_text();
        let bytes = text.as_str().as_bytes();
        w.extend_from_slice(bytes);
        assert(final(w)@ =~= old(w)@ + encode_utf8(features_text(*self)));
        Ok(())
    }
}

/// A feature set whose curl block selects neither the binary nor the
/// library fails validation.
pub proof fn feature_set_curl_without_bin_or_lib_rejected(
    meta_thistle: String,
    read_only_rootfs: bool,
    updater: bool,
    libc: Option<Yaml>,
    curl: Yaml,
    raw: RawCurl,
)
    requires
        curl is Mapping,
        read_curl_entries(empty_raw_curl(), curl->Mapping_0@) == Ok::<RawCurl, ConfigError>(raw),
        !raw.bin && !raw.lib,
    ensures
        features_from_parts(meta_thistle, read_only_rootfs, updater, libc, Some(curl)) is Err,
{
}

/// A feature set whose curl block selects BearSSL or WolfSSL fails validation.
pub proof fn feature_set_curl_with_unsupported_tls_rejected(
    meta_thistle: String,
    read_only_rootfs: bool,
    updater: bool,
    libc: Option<Yaml>,
    curl: Yaml,
    raw: RawCurl,
)
    requires
        curl is Mapping,
        read_curl_entries(empty_raw_curl(), curl->Mapping_0@) == Ok::<RawCurl, ConfigError>(raw),
        raw.tls == Some(TLS::BearSSL) || raw.tls == Some(TLS::WolfSSL),
    ensures
        features_from_parts(meta_thistle, read_only_rootfs, updater, libc, Some(curl)) is Err,
{
}

/// A feature set whose curl block selects no TLS stack fails validation.
pub proof fn feature_set_curl_without_tls_rejected(
    meta_thistle: String,
    read_only_rootfs: bool,
    updater: bool,
    libc: Option<Yaml>,
    curl: Yaml,
    raw: RawCurl,
)
    requires
        curl is Mapping,
        read_curl_entries(empty_raw_curl(), curl->Mapping_0@) == Ok::<RawCurl, ConfigError>(raw),
        raw.tls is None,
    ensures
        features_from_parts(meta_thistle, read_only_rootfs, updater, libc, Some(curl)) is Err,
{
}

} // verus!

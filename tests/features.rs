use thistle_yocto_build::curl::{Curl, RawCurl};
use thistle_yocto_build::error::ConfigError;
use thistle_yocto_build::features::Features;
use thistle_yocto_build::libc::Libc;
use thistle_yocto_build::tls::TLS;
use thistle_yocto_build::yaml::Yaml;

fn s(v: &str) -> Yaml {
    Yaml::String(v.to_string())
}

fn curl_block(entries: Vec<(Yaml, Yaml)>) -> Yaml {
    Yaml::Mapping(entries)
}

fn feature_list(block: Yaml) -> Yaml {
    Yaml::Sequence(vec![Yaml::Mapping(vec![(s("curl"), block)])])
}

#[test]
fn test_normal_config() {
    let example_yaml = feature_list(curl_block(vec![
        (s("lib"), Yaml::Bool(true)),
        (s("bin"), Yaml::Bool(true)),
        (s("tls"), s("rustls")),
    ]));
    let curl = Curl::try_from(&example_yaml).unwrap();
    let expected_output = "IMAGE_INSTALL:append = \" curl libcurl\"\n\
        PACKAGECONFIG:append:pn-curl = \" rustls\"";
    let value = curl.to_image_install_value();
    assert_eq!(&value, expected_output);
}

#[test]
fn tls_names_read_back() {
    let all = [TLS::BearSSL, TLS::WolfSSL, TLS::OpenSSL, TLS::GnuTLS, TLS::MbedTLS, TLS::RusTLS];
    let names = ["bearssl", "wolfssl", "openssl", "gnutls", "mbedtls", "rustls"];
    for (t, n) in all.iter().zip(names.iter()) {
        assert_eq!(t.to_image_install_value(), *n);
        assert_eq!(TLS::from_str(n), Ok(*t));
    }
}

#[test]
fn tls_unknown_or_wrong_case_rejected() {
    assert_eq!(TLS::from_str("RusTLS"), Err(ConfigError::InvalidTls));
    assert_eq!(TLS::from_str("schannel"), Err(ConfigError::InvalidTls));
    assert_eq!(TLS::from_str(""), Err(ConfigError::InvalidTls));
}

#[test]
fn libc_names() {
    assert_eq!(Libc::from_str("musl"), Ok(Libc::Musl));
    assert_eq!(Libc::from_str("glibc"), Ok(Libc::Glibc));
    assert_eq!(Libc::from_str("Musl"), Err(ConfigError::InvalidLibc));
    assert_eq!(Libc::from_str("uclibc"), Err(ConfigError::InvalidLibc));
    assert_eq!(Libc::default(), Libc::Glibc);
}

#[test]
fn libc_from_yaml() {
    assert_eq!(Libc::parse(&s("musl")), Ok(Libc::Musl));
    assert_eq!(Libc::parse(&Yaml::Bool(true)), Err(ConfigError::LibcNotString));
    assert_eq!(Libc::parse(&s("bionic")), Err(ConfigError::InvalidLibc));
}

#[test]
fn curl_without_bin_or_lib_fails() {
    let block = curl_block(vec![(s("lib"), Yaml::Bool(false)), (s("tls"), s("openssl"))]);
    assert_eq!(Curl::from_yaml(&block), Err(ConfigError::CurlWithoutBinOrLib));
    let raw = RawCurl { bin: false, lib: false, tls: Some(TLS::OpenSSL) };
    assert_eq!(Curl::validate(raw), Err(ConfigError::CurlWithoutBinOrLib));
}

#[test]
fn curl_with_unsupported_stack_fails() {
    for stack in ["bearssl", "wolfssl"] {
        let block = curl_block(vec![(s("bin"), Yaml::Bool(true)), (s("tls"), s(stack))]);
        assert_eq!(Curl::from_yaml(&block), Err(ConfigError::TlsUnsupportedByCurl));
    }
}

#[test]
fn curl_without_tls_fails() {
    let block = curl_block(vec![(s("bin"), Yaml::Bool(true)), (s("lib"), Yaml::Bool(true))]);
    assert_eq!(Curl::from_yaml(&block), Err(ConfigError::CurlMissingTls));
}

#[test]
fn curl_entry_errors() {
    let unknown = curl_block(vec![(s("bin"), Yaml::Bool(true)), (s("static"), Yaml::Bool(true))]);
    assert_eq!(Curl::from_yaml(&unknown), Err(ConfigError::UnknownCurlKey));
    let bad_key = curl_block(vec![(Yaml::Bool(true), Yaml::Bool(true))]);
    assert_eq!(Curl::from_yaml(&bad_key), Err(ConfigError::CurlKeyNotString));
    let lib = curl_block(vec![(s("lib"), s("yes"))]);
    assert_eq!(Curl::from_yaml(&lib), Err(ConfigError::CurlLibNotBool));
    let bin = curl_block(vec![(s("bin"), Yaml::Number("1".to_string()))]);
    assert_eq!(Curl::from_yaml(&bin), Err(ConfigError::CurlBinNotBool));
    let tls = curl_block(vec![(s("tls"), Yaml::Null)]);
    assert_eq!(Curl::from_yaml(&tls), Err(ConfigError::CurlTlsNotString));
    let invalid = curl_block(vec![(s("bin"), Yaml::Bool(true)), (s("tls"), s("nss"))]);
    assert_eq!(Curl::from_yaml(&invalid), Err(ConfigError::InvalidTls));
    // the first bad entry decides
    let two = curl_block(vec![(s("foo"), Yaml::Bool(true)), (s("lib"), s("x"))]);
    assert_eq!(Curl::from_yaml(&two), Err(ConfigError::UnknownCurlKey));
}

#[test]
fn curl_block_shape_errors() {
    assert_eq!(Curl::try_from(&Yaml::Null), Err(ConfigError::CurlNotFound));
    assert_eq!(Curl::try_from(&Yaml::Sequence(vec![])), Err(ConfigError::CurlNotFound));
    let other = Yaml::Sequence(vec![Yaml::Mapping(vec![(s("wget"), Yaml::Null)])]);
    assert_eq!(Curl::try_from(&other), Err(ConfigError::CurlNotFound));
    assert_eq!(Curl::from_yaml(&s("curl")), Err(ConfigError::CurlNotFound));
}

#[test]
fn curl_later_entries_override_earlier() {
    let block = curl_block(vec![
        (s("bin"), Yaml::Bool(true)),
        (s("bin"), Yaml::Bool(false)),
        (s("lib"), Yaml::Bool(true)),
        (s("tls"), s("gnutls")),
    ]);
    assert_eq!(Curl::from_yaml(&block), Ok(Curl { bin: false, lib: true, tls: TLS::GnuTLS }));
}

#[test]
fn curl_library_only_install_value() {
    let c = Curl { bin: false, lib: true, tls: TLS::MbedTLS };
    assert_eq!(
        c.to_image_install_value(),
        "IMAGE_INSTALL:append = \"  libcurl\"\nPACKAGECONFIG:append:pn-curl = \" mbedtls\""
    );
}

#[test]
fn feature_fragment_for_curl_binary_with_rustls() {
    let block = curl_block(vec![
        (s("bin"), Yaml::Bool(true)),
        (s("lib"), Yaml::Bool(false)),
        (s("tls"), s("rustls")),
    ]);
    let f = Features::from_parts("abc123".to_string(), false, false, None, Some(&block)).unwrap();
    let mut w: Vec<u8> = Vec::new();
    f.write_local_conf(&mut w).unwrap();
    let text = String::from_utf8(w).unwrap();
    let install = text.lines().find(|l| l.starts_with("IMAGE_INSTALL")).unwrap();
    assert!(install.contains("curl"));
    assert!(!install.contains("libcurl"));
    let pkg = text.lines().find(|l| l.starts_with("PACKAGECONFIG")).unwrap();
    assert!(pkg.contains("rustls"));
    assert_eq!(
        text,
        "IMAGE_INSTALL:append = \" curl\"\nPACKAGECONFIG:append:pn-curl = \" rustls\"\n"
    );
}

#[test]
fn feature_fragment_order() {
    let f = Features {
        meta_thistle: "main".to_string(),
        read_only_rootfs: true,
        updater: true,
        libc: Some(Libc::Musl),
        curl: Some(Curl { bin: true, lib: true, tls: TLS::OpenSSL }),
    };
    let mut w: Vec<u8> = b"# start\n".to_vec();
    f.write_local_conf(&mut w).unwrap();
    assert_eq!(
        String::from_utf8(w).unwrap(),
        "# start\n\
         IMAGE_INSTALL:append = \" embedded-client\"\n\
         IMAGE_FEATURES:append = \" read-only-rootfs\"\n\
         IMAGE_INSTALL:append = \" curl libcurl\"\n\
         PACKAGECONFIG:append:pn-curl = \" openssl\"\n\
         TCLIBC = \"musl\"\n"
    );
}

#[test]
fn empty_feature_set_writes_nothing() {
    let f = Features::from_parts("main".to_string(), false, false, None, None).unwrap();
    let mut w: Vec<u8> = Vec::new();
    f.write_local_conf(&mut w).unwrap();
    assert!(w.is_empty());
    assert_eq!(f.local_conf_text(), "");
}

#[test]
fn feature_parts_validated() {
    let glibc = s("glibc");
    let f = Features::from_parts("main".to_string(), true, false, Some(&glibc), None).unwrap();
    assert_eq!(f.libc, Some(Libc::Glibc));
    assert!(f.read_only_rootfs);
    assert_eq!(f.local_conf_text(), "IMAGE_FEATURES:append = \" read-only-rootfs\"\nTCLIBC = \"glibc\"\n");
    let bad = s("klibc");
    assert_eq!(
        Features::from_parts("main".to_string(), false, false, Some(&bad), None).unwrap_err(),
        ConfigError::InvalidLibc
    );
    let curl = curl_block(vec![(s("bin"), Yaml::Bool(true))]);
    assert_eq!(
        Features::from_parts("main".to_string(), false, false, None, Some(&curl)).unwrap_err(),
        ConfigError::CurlMissingTls
    );
}

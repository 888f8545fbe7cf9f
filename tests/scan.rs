use thistle_yocto_build::scan::{contains_word, insecure_image_features};

#[test]
fn whole_words_only() {
    assert!(contains_word("debug-tweaks ssh-server", "debug-tweaks"));
    assert!(contains_word("a\tdebug-tweaks\n", "debug-tweaks"));
    assert!(!contains_word("debug-tweaks-extra", "debug-tweaks"));
    assert!(!contains_word("xdebug-tweaks", "debug-tweaks"));
    assert!(!contains_word("", "debug-tweaks"));
}

#[test]
fn insecure_features_in_list_order() {
    assert_eq!(
        insecure_image_features("post-install-logging read-only-rootfs debug-tweaks"),
        vec!["debug-tweaks", "post-install-logging"]
    );
    assert!(insecure_image_features("read-only-rootfs ssh-server-openssh").is_empty());
    assert_eq!(
        insecure_image_features("empty-root-password allow-empty-password"),
        vec!["allow-empty-password", "empty-root-password"]
    );
}

use deepchat_desktop::platform::{build_init_script, spoofed_ua, Platform};

#[test]
fn the_user_agent_is_that_of_edge() {
    assert_eq!(
        spoofed_ua(Platform::MacOs, None),
        "Mozilla/5.0 (Macintosh; Intel Mac OS X 10_15_7) AppleWebKit/537.36 (KHTML, like Gecko) Chrome/138.0.0.0 Safari/537.36 Edg/138.0.0.0"
    );
    assert_eq!(
        spoofed_ua(Platform::Windows, None),
        "Mozilla/5.0 (Windows NT 10.0; Win64; x64) AppleWebKit/537.36 (KHTML, like Gecko) Chrome/138.0.0.0 Safari/537.36 Edg/138.0.0.0"
    );
    assert_eq!(
        spoofed_ua(Platform::Linux, None),
        "Mozilla/5.0 (X11; Linux x86_64) AppleWebKit/537.36 (KHTML, like Gecko) Chrome/138.0.0.0 Safari/537.36 Edg/138.0.0.0"
    );
}

#[test]
fn a_build_can_set_the_version() {
    assert_eq!(
        spoofed_ua(Platform::Windows, Some("140")),
        "Mozilla/5.0 (Windows NT 10.0; Win64; x64) AppleWebKit/537.36 (KHTML, like Gecko) Chrome/140.0.0.0 Safari/537.36 Edg/140.0.0.0"
    );
}

#[test]
fn scripts_come_one_after_the_other() {
    assert_eq!(build_init_script("spoof()", "init()", None), "spoof()\ninit()");
    assert_eq!(build_init_script("spoof()", "init()", Some("test()")), "spoof()\ninit()\ntest()");
}

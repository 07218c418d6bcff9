use whoami::{distro, platform, Platform};

#[test]
fn no_parentheses_is_unknown() {
    let ua = "Mozilla/5.0 Gecko Firefox/120.0";
    assert_eq!(platform(ua), Platform::Unknown("Unknown".to_string()));
    assert_eq!(distro(ua), None);
}

#[test]
fn one_parenthesis_only_is_unknown() {
    let ua = "Mozilla/5.0 (Windows NT 10.0; Win64";
    assert_eq!(platform(ua), Platform::Unknown("Unknown".to_string()));
    assert_eq!(distro(ua), None);
    let ua = "Mozilla/5.0 Windows NT 10.0; Win64)";
    assert_eq!(platform(ua), Platform::Unknown("Unknown".to_string()));
    assert_eq!(distro(ua), None);
}

#[test]
fn windows_ten() {
    let ua = "Mozilla/5.0 (Windows NT 10.0; Win64; x64) AppleWebKit/537.36 (KHTML, like Gecko) Chrome/120.0.0.0 Safari/537.36";
    assert_eq!(platform(ua), Platform::Windows);
    assert_eq!(distro(ua), Some("Windows 10".to_string()));
}

#[test]
fn windows_thirty_two_bit() {
    let ua = "Mozilla/5.0 (Windows NT 6.1; Win32) Gecko";
    assert_eq!(platform(ua), Platform::Windows);
    assert_eq!(distro(ua), Some("Windows 6".to_string()));
}

#[test]
fn windows_without_nt_or_dot() {
    assert_eq!(distro("x (Win64; x64) y"), Some("Windows".to_string()));
    assert_eq!(distro("x (Windows NT 10; Win64) y"), Some("Windows".to_string()));
}

#[test]
fn windows_dot_too_close_to_nt() {
    assert_eq!(distro("x (Win64 NT.5) y"), Some("Windows ".to_string()));
}

#[test]
fn windows_dot_before_nt_is_skipped() {
    assert_eq!(distro("x (Win64; rv:1.0; NT 6.1) y"), Some("Windows 6".to_string()));
}

#[test]
fn x11_linux_is_unknown_linux() {
    let ua = "Mozilla/5.0 (X11; Linux x86_64) Gecko";
    assert_eq!(platform(ua), Platform::Linux);
    assert_eq!(distro(ua), Some("Unknown Linux".to_string()));
    let ua = "Mozilla/5.0 (X11; Linux x86_64; rv:120.0) Gecko/20100101 Firefox/120.0";
    assert_eq!(distro(ua), Some("Unknown Linux".to_string()));
}

#[test]
fn x11_distribution_token() {
    let ua = "Mozilla/5.0 (X11; Ubuntu; Linux x86_64; rv:120.0) Gecko/20100101 Firefox/120.0";
    assert_eq!(platform(ua), Platform::Linux);
    assert_eq!(distro(ua), Some("Ubuntu".to_string()));
    let ua = "Mozilla/5.0 (Wayland; Fedora; Linux x86_64) Gecko";
    assert_eq!(distro(ua), Some("Fedora".to_string()));
}

#[test]
fn x11_without_separator() {
    assert_eq!(distro("a (X11 Linux x86_64) b"), Some("Unknown Linux".to_string()));
}

#[test]
fn x11_separator_at_the_end() {
    assert_eq!(distro("a (Linux X11;) b"), Some("Unknown Linux".to_string()));
}

#[test]
fn linux_without_windowing_system() {
    assert_eq!(distro("a (Linux; Android 10; K) b"), Some("Unknown Linux".to_string()));
    assert_eq!(distro("a (Fedora; Linux x86_64) b"), Some("Fedora".to_string()));
    assert_eq!(distro("a (Arch Linux x86_64) b"), Some("Unknown Linux".to_string()));
}

#[test]
fn mac_version_with_underscores() {
    let ua = "Mozilla/5.0 (Macintosh; Intel Mac OS X 10_15_7) AppleWebKit/605.1.15 (KHTML, like Gecko) Version/17.1 Safari/605.1.15";
    assert_eq!(platform(ua), Platform::MacOS);
    assert_eq!(distro(ua), Some("Mac OS X 10.15.7".to_string()));
}

#[test]
fn mac_version_up_to_separator() {
    let ua = "Mozilla/5.0 (Macintosh; Intel Mac OS X 10_15; rv:120.0) Gecko/20100101 Firefox/120.0";
    assert_eq!(platform(ua), Platform::MacOS);
    assert_eq!(distro(ua), Some("Mac OS X 10_15".to_string()));
}

#[test]
fn windows_wins_over_linux_and_mac() {
    let ua = "a (Win64; Linux; Mac OS X 10_1) b";
    assert_eq!(platform(ua), Platform::Windows);
    assert_eq!(distro(ua), Some("Windows".to_string()));
    let ua = "a (Linux; Mac OS X 10_1) b";
    assert_eq!(platform(ua), Platform::Linux);
}

#[test]
fn unknown_block_is_passed_through() {
    let ua = "Mozilla/5.0 (PlayStation 4 3.11) AppleWebKit/537.73";
    assert_eq!(platform(ua), Platform::Unknown("PlayStation 4 3.11".to_string()));
    assert_eq!(distro(ua), Some("PlayStation 4 3.11".to_string()));
}

#[test]
fn closing_before_opening_gives_empty_block() {
    let ua = "a) b (c";
    assert_eq!(platform(ua), Platform::Unknown(String::new()));
    assert_eq!(distro(ua), Some(String::new()));
}

#[test]
fn queries_repeat() {
    let ua = "Mozilla/5.0 (X11; Ubuntu; Linux x86_64) Firefox/120.0";
    assert_eq!(platform(ua), platform(ua));
    assert_eq!(distro(ua), distro(ua));
}

use yuy::platform::{detect_platform, get_available_ram_gb, recommend_quantization, Platform};

#[test]
fn linux_without_a_prefix_is_linux() {
    assert_eq!(detect_platform("linux", None), Platform::Linux);
}

#[test]
fn linux_with_another_prefix_is_linux() {
    assert_eq!(detect_platform("linux", Some("/usr/local")), Platform::Linux);
    assert_eq!(detect_platform("linux", Some("")), Platform::Linux);
    assert_eq!(detect_platform("linux", Some("com.termu")), Platform::Linux);
}

#[test]
fn linux_with_a_termux_prefix_is_termux() {
    assert_eq!(
        detect_platform("linux", Some("/data/data/com.termux/files/usr")),
        Platform::Termux
    );
    assert_eq!(detect_platform("linux", Some("com.termux")), Platform::Termux);
    assert_eq!(detect_platform("linux", Some("xcom.termuxy")), Platform::Termux);
}

#[test]
fn the_prefix_counts_on_linux_only() {
    assert_eq!(detect_platform("macos", Some("com.termux")), Platform::MacOS);
    assert_eq!(detect_platform("windows", Some("com.termux")), Platform::Windows);
    assert_eq!(detect_platform("android", Some("com.termux")), Platform::Unknown);
}

#[test]
fn other_systems() {
    assert_eq!(detect_platform("macos", None), Platform::MacOS);
    assert_eq!(detect_platform("windows", None), Platform::Windows);
    assert_eq!(detect_platform("freebsd", None), Platform::Unknown);
    assert_eq!(detect_platform("", None), Platform::Unknown);
    assert_eq!(detect_platform("Linux", None), Platform::Unknown);
}

#[test]
fn memory_is_reckoned_at_eight_gigabytes() {
    assert_eq!(get_available_ram_gb(), 8);
}

#[test]
fn termux_always_gets_the_smallest_tag() {
    for ram in [0usize, 1, 4, 7, 8, 15, 16, 32, 1024, usize::MAX] {
        assert_eq!(recommend_quantization(Platform::Termux, ram), "q4_0");
    }
}

#[test]
fn linux_with_little_memory_gets_the_small_tag() {
    assert_eq!(recommend_quantization(Platform::Linux, 4), "q4_k_m");
    assert_eq!(recommend_quantization(Platform::Linux, 0), "q4_k_m");
}

#[test]
fn linux_with_much_memory_gets_the_largest_tag() {
    assert_eq!(recommend_quantization(Platform::Linux, 32), "q8_0");
    assert_eq!(recommend_quantization(Platform::Linux, usize::MAX), "q8_0");
}

#[test]
fn the_thresholds_are_strict() {
    assert_eq!(recommend_quantization(Platform::Linux, 7), "q4_k_m");
    assert_eq!(recommend_quantization(Platform::Linux, 8), "q5_k_m");
    assert_eq!(recommend_quantization(Platform::Linux, 15), "q5_k_m");
    assert_eq!(recommend_quantization(Platform::Linux, 16), "q8_0");
}

#[test]
fn the_advice_is_the_same_on_every_other_platform() {
    for platform in [Platform::Linux, Platform::MacOS, Platform::Windows, Platform::Unknown] {
        assert_eq!(recommend_quantization(platform, 7), "q4_k_m");
        assert_eq!(recommend_quantization(platform, 8), "q5_k_m");
        assert_eq!(recommend_quantization(platform, 16), "q8_0");
    }
}

use nvoc::gpu::validation::{
    check_system_for_modification, validate_architecture, validate_blackwell_architecture,
};
use nvoc::gpu::{driver_major_version, get_device, init_nvml, DriverVerdict};
use nvoc::nvml::{GpuArchitecture, NvmlError};
use nvoc::text::{append_decimal, chars_of, contains, parse_u32};

fn chars(text: &str) -> Vec<char> {
    text.chars().collect()
}

#[test]
fn characters_of_a_text() {
    assert_eq!(chars_of(""), Vec::<char>::new());
    assert_eq!(chars_of("RTX 50"), vec!['R', 'T', 'X', ' ', '5', '0']);
    assert_eq!(chars_of("héllo"), vec!['h', 'é', 'l', 'l', 'o']);
}

#[test]
fn substring_search() {
    assert!(contains(&chars("GeForce RTX 5090"), &chars("5090")));
    assert!(contains(&chars("GeForce RTX 5090"), &chars("GeForce")));
    assert!(contains(&chars("GeForce RTX 5090"), &chars("GeForce RTX 5090")));
    assert!(contains(&chars("GeForce RTX 5090"), &chars("")));
    assert!(contains(&chars(""), &chars("")));
    assert!(!contains(&chars(""), &chars("5")));
    assert!(!contains(&chars("509"), &chars("5090")));
    assert!(!contains(&chars("50 90"), &chars("5090")));
    assert!(!contains(&chars("GeForce RTX 5090"), &chars("5091")));
    assert!(contains(&chars("aab"), &chars("ab")));
    assert!(contains(&chars("555090"), &chars("5090")));
}

#[test]
fn substring_search_agrees_with_the_standard_one() {
    let texts = ["", "a", "ab", "aab", "abab", "RTX 5090", "5050", "55090"];
    for haystack in texts {
        for needle in texts {
            assert_eq!(
                contains(&chars(haystack), &chars(needle)),
                haystack.contains(needle),
                "{:?} in {:?}",
                needle,
                haystack
            );
        }
    }
}

#[test]
fn unsigned_decimal_numbers() {
    let text = chars("x+560.35");
    assert_eq!(parse_u32(&text, 1, 5), Some(560));
    assert_eq!(parse_u32(&text, 2, 5), Some(560));
    assert_eq!(parse_u32(&text, 1, 2), None);
    assert_eq!(parse_u32(&text, 3, 3), None);
    assert_eq!(parse_u32(&text, 0, 5), None);
    assert_eq!(parse_u32(&text, 2, 6), None);
    assert_eq!(parse_u32(&text, 6, 8), Some(35));
    assert_eq!(parse_u32(&chars("4294967295"), 0, 10), Some(u32::MAX));
    assert_eq!(parse_u32(&chars("4294967296"), 0, 10), None);
    assert_eq!(parse_u32(&chars("0000000000004294967295"), 0, 22), Some(u32::MAX));
    assert_eq!(parse_u32(&chars("99999999999"), 0, 11), None);
}

#[test]
fn numbers_written_in_decimal() {
    for (number, text) in [(0u32, "0"), (7, "7"), (10, "10"), (999, "999"), (1000, "1000"), (4_294_967_295, "4294967295")] {
        let mut line = String::from("n=");
        append_decimal(&mut line, number);
        assert_eq!(line, format!("n={}", text));
    }
}

#[test]
fn numbers_written_in_decimal_read_back() {
    for number in [0u32, 1, 9, 10, 11, 99, 100, 550, 65_535, 4_294_967_295] {
        let mut line = String::new();
        append_decimal(&mut line, number);
        let text = chars(&line);
        assert_eq!(parse_u32(&text, 0, text.len()), Some(number));
    }
}

#[test]
fn major_version_of_a_driver() {
    assert_eq!(driver_major_version("560.35.03"), Some(560));
    assert_eq!(driver_major_version("550"), Some(550));
    assert_eq!(driver_major_version("549.99"), Some(549));
    assert_eq!(driver_major_version(".560"), None);
    assert_eq!(driver_major_version(""), None);
    assert_eq!(driver_major_version("unknown"), None);
    assert_eq!(driver_major_version("560-beta.1"), None);
    assert_eq!(driver_major_version("+560.1"), Some(560));
    assert_eq!(driver_major_version("99999999999.1"), None);
}

#[test]
fn verdict_on_a_driver() {
    assert_eq!(init_nvml("560.35.03"), DriverVerdict::Accepted);
    assert_eq!(init_nvml("550.0"), DriverVerdict::Accepted);
    assert_eq!(init_nvml("549.999"), DriverVerdict::TooOld);
    assert_eq!(init_nvml("0"), DriverVerdict::TooOld);
    assert_eq!(init_nvml("unknown"), DriverVerdict::Unrecognized);
    assert_eq!(init_nvml(""), DriverVerdict::Unrecognized);
}

#[test]
fn device_index_must_be_below_the_count() {
    assert_eq!(get_device(0, 1), Ok(0));
    assert_eq!(get_device(3, 4), Ok(3));
    assert_eq!(get_device(0, 0), Err(NvmlError::InvalidArgument));
    assert_eq!(get_device(1, 1), Err(NvmlError::InvalidArgument));
    assert_eq!(get_device(u32::MAX, u32::MAX), Err(NvmlError::InvalidArgument));
}

#[test]
fn only_the_superuser_may_change_settings() {
    assert_eq!(check_system_for_modification(0), Ok(()));
    assert_eq!(check_system_for_modification(1), Err(NvmlError::NoPermission));
    assert_eq!(check_system_for_modification(1000), Err(NvmlError::NoPermission));
    assert_eq!(check_system_for_modification(u32::MAX), Err(NvmlError::NoPermission));
}

#[test]
fn only_blackwell_cards_are_admitted() {
    assert_eq!(validate_architecture(GpuArchitecture::Blackwell), Ok(()));
    assert_eq!(validate_architecture(GpuArchitecture::Unknown), Err(NvmlError::NotSupported));
    assert_eq!(validate_blackwell_architecture(Ok("NVIDIA GeForce RTX 5090")), Ok(()));
    assert_eq!(validate_blackwell_architecture(Ok("nvidia geforce rtx 5080")), Ok(()));
    assert_eq!(
        validate_blackwell_architecture(Ok("NVIDIA GeForce RTX 4090")),
        Err(NvmlError::NotSupported)
    );
    assert_eq!(
        validate_blackwell_architecture(Err(NvmlError::GpuIsLost)),
        Err(NvmlError::GpuIsLost)
    );
}

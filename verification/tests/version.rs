use bakery::bake::version::{ToolVersion, VersionParseError};

#[test]
fn version_4_6_enables_the_feature() {
    let version = ToolVersion::parse("mksquashfs version 4.6 (2023/03/25)\n").unwrap();
    assert_eq!(version, ToolVersion { major: 4, minor: 6 });
    assert!(version.at_least(4, 6));
}

#[test]
fn version_4_5_disables_the_feature() {
    let version = ToolVersion::parse("mksquashfs version 4.5 (2021/07/22)\n").unwrap();
    assert_eq!(version, ToolVersion { major: 4, minor: 5 });
    assert!(!version.at_least(4, 6));
}

#[test]
fn version_5_0_enables_the_feature() {
    let version = ToolVersion::parse("mksquashfs version 5.0 (2030/01/01)\n").unwrap();
    assert_eq!(version, ToolVersion { major: 5, minor: 0 });
    assert!(version.at_least(4, 6));
}

#[test]
fn empty_output_has_no_version() {
    assert_eq!(ToolVersion::parse(""), Err(VersionParseError::NoOutput));
}

#[test]
fn the_version_is_the_third_word_of_the_first_line() {
    let text = "mksquashfs version 4.6.1 (2023/03/25)\ncopyright (C) 2023 Phillip Lougher\n";
    assert_eq!(ToolVersion::parse(text), Ok(ToolVersion { major: 4, minor: 6 }));
    let text = "  tool\tversion   12.34-rc1.x\r\nversion 1.2 3.4\n";
    assert_eq!(ToolVersion::parse(text), Err(VersionParseError::BadMinor));
    let text = "a b 7.8\r\n";
    assert_eq!(ToolVersion::parse(text), Ok(ToolVersion { major: 7, minor: 8 }));
    let text = "a\u{a0}b\u{3000}1.2";
    assert_eq!(ToolVersion::parse(text), Ok(ToolVersion { major: 1, minor: 2 }));
}

#[test]
fn later_lines_are_not_read() {
    assert_eq!(ToolVersion::parse("tool version\n4.6\n"), Err(VersionParseError::NoVersionWord));
    assert_eq!(ToolVersion::parse("\ntool version 4.6\n"), Err(VersionParseError::NoVersionWord));
}

#[test]
fn too_few_words_have_no_version() {
    assert_eq!(ToolVersion::parse("mksquashfs version"), Err(VersionParseError::NoVersionWord));
    assert_eq!(ToolVersion::parse("   \n"), Err(VersionParseError::NoVersionWord));
    assert_eq!(ToolVersion::parse("4.6"), Err(VersionParseError::NoVersionWord));
}

#[test]
fn a_version_needs_two_numbers() {
    assert_eq!(ToolVersion::parse("t version 4"), Err(VersionParseError::NoMinor));
    assert_eq!(ToolVersion::parse("t version 4."), Err(VersionParseError::BadMinor));
    assert_eq!(ToolVersion::parse("t version .6"), Err(VersionParseError::BadMajor));
    assert_eq!(ToolVersion::parse("t version v4.6"), Err(VersionParseError::BadMajor));
    assert_eq!(ToolVersion::parse("t version 4.x"), Err(VersionParseError::BadMinor));
    assert_eq!(ToolVersion::parse("t version 4.6a"), Err(VersionParseError::BadMinor));
    assert_eq!(ToolVersion::parse("t version -4.6"), Err(VersionParseError::BadMajor));
    assert_eq!(ToolVersion::parse("t version 4..6"), Err(VersionParseError::BadMinor));
    assert_eq!(ToolVersion::parse("t version +.6"), Err(VersionParseError::BadMajor));
}

#[test]
fn numbers_are_read_in_decimal() {
    assert_eq!(ToolVersion::parse("t version 04.006"), Ok(ToolVersion { major: 4, minor: 6 }));
    assert_eq!(ToolVersion::parse("t version +4.+6"), Ok(ToolVersion { major: 4, minor: 6 }));
    assert_eq!(
        ToolVersion::parse("t version 4294967295.0"),
        Ok(ToolVersion { major: 4294967295, minor: 0 })
    );
    assert_eq!(ToolVersion::parse("t version 4294967296.0"), Err(VersionParseError::BadMajor));
    assert_eq!(
        ToolVersion::parse("t version 1.99999999999999999999"),
        Err(VersionParseError::BadMinor)
    );
    assert_eq!(ToolVersion::parse("t version ٤.٦"), Err(VersionParseError::BadMajor));
}

#[test]
fn versions_are_ordered_by_major_then_minor() {
    let v = |major, minor| ToolVersion { major, minor };
    assert!(v(4, 6).at_least(4, 6));
    assert!(v(4, 7).at_least(4, 6));
    assert!(v(5, 0).at_least(4, 6));
    assert!(v(4, 10).at_least(4, 6));
    assert!(!v(4, 5).at_least(4, 6));
    assert!(!v(3, 99).at_least(4, 6));
    assert!(!v(0, 0).at_least(4, 6));
    assert!(v(0, 0).at_least(0, 0));
}

/// The same reading, written with the text functions of the standard
/// library.
fn read_with_std(output: &str) -> Result<ToolVersion, VersionParseError> {
    let line = output.lines().next().ok_or(VersionParseError::NoOutput)?;
    let word = line.split_whitespace().nth(2).ok_or(VersionParseError::NoVersionWord)?;
    let mut parts = word.split('.');
    let major = parts.next().unwrap().parse::<u32>().map_err(|_| VersionParseError::BadMajor)?;
    let minor = parts
        .next()
        .ok_or(VersionParseError::NoMinor)?
        .parse::<u32>()
        .map_err(|_| VersionParseError::BadMinor)?;
    Ok(ToolVersion { major, minor })
}

/// Every text of `length` characters over `alphabet`, after `prefix`.
fn texts(prefix: &str, alphabet: &[char], length: usize) -> Vec<String> {
    let mut all = vec![prefix.to_string()];
    for _ in 0..length {
        let mut longer = Vec::new();
        for text in &all {
            for c in alphabet {
                let mut next = text.clone();
                next.push(*c);
                longer.push(next);
            }
        }
        all = longer;
    }
    all
}

#[test]
fn short_outputs_are_read_as_the_standard_library_reads_them() {
    let alphabet = [' ', '\n', '\r', '.', '4', '6', 'x', '+'];
    for length in 0..6 {
        for text in texts("", &alphabet, length) {
            assert_eq!(ToolVersion::parse(&text), read_with_std(&text), "{:?}", text);
        }
    }
}

#[test]
fn version_words_are_read_as_the_standard_library_reads_them() {
    let alphabet = ['.', '0', '4', '9', '+', '-', 'x', ' ', '\n', '\u{a0}'];
    for length in 0..6 {
        for text in texts("tool\tversion ", &alphabet, length) {
            assert_eq!(ToolVersion::parse(&text), read_with_std(&text), "{:?}", text);
        }
    }
}

#[test]
fn large_numbers_are_read_as_the_standard_library_reads_them() {
    for number in [
        "0", "00", "4294967294", "4294967295", "4294967296", "4294967300", "42949672950",
        "9999999999", "18446744073709551616", "+4294967295", "+4294967296", "0004294967295",
    ] {
        let text = format!("t v {}.{}", number, number);
        assert_eq!(ToolVersion::parse(&text), read_with_std(&text), "{:?}", text);
        let text = format!("t v 1.{}", number);
        assert_eq!(ToolVersion::parse(&text), read_with_std(&text), "{:?}", text);
    }
}

use esphome_desktop::update::{installed_version, read_version_output};
use esphome_desktop::update::{CheckError, QueryOutput, Undetectable};
use esphome_desktop::version::{is_newer_version, parse_version, vector_is_newer};

#[test]
fn test_version_comparison() {
    assert!(is_newer_version("2024.2.0", "2024.1.0"));
    assert!(is_newer_version("2024.1.1", "2024.1.0"));
    assert!(is_newer_version("2025.1.0", "2024.12.0"));
    assert!(!is_newer_version("2024.1.0", "2024.1.0"));
    assert!(!is_newer_version("2024.1.0", "2024.2.0"));
    assert!(is_newer_version("2024.1.0", "2024.1.0b1"));
}

#[test]
fn parse_reads_leading_digits_of_each_segment() {
    assert_eq!(parse_version("2024.12.1"), vec![2024, 12, 1]);
    assert_eq!(parse_version("2024.1.0b1"), vec![2024, 1, 0]);
    assert_eq!(parse_version("2024.dev.3"), vec![2024, 3]);
    assert_eq!(parse_version("2024.b1.3"), vec![2024, 3]);
    assert_eq!(parse_version(""), Vec::<u32>::new());
    assert_eq!(parse_version("..7."), vec![7]);
    assert_eq!(parse_version("000000000000012"), vec![12]);
    assert_eq!(parse_version("1.2.3.4.5.6"), vec![1, 2, 3, 4, 5, 6]);
}

#[test]
fn parse_drops_a_segment_that_does_not_fit() {
    assert_eq!(parse_version("4294967295"), vec![4294967295]);
    assert_eq!(parse_version("4294967296"), Vec::<u32>::new());
    assert_eq!(parse_version("1.99999999999999999999999999.2"), vec![1, 2]);
}

#[test]
fn parse_takes_ascii_digits_only() {
    // Arabic-Indic digits are digits to Unicode, not to a version.
    assert_eq!(parse_version("\u{0661}\u{0662}.3"), vec![3]);
    assert_eq!(parse_version("+1.-2.3"), vec![3]);
    assert_eq!(parse_version(" 1.2"), vec![2]);
}

#[test]
fn no_version_is_newer_than_itself() {
    for v in ["", "1", "2024.1.0", "2024.1.0b1", "x.y.z", "1..2", "2024.1.0.dev0"] {
        assert!(!is_newer_version(v, v), "{v}");
    }
}

#[test]
fn of_two_versions_at_most_one_is_newer() {
    let versions = ["", "1", "1.0", "2024.1.0", "2024.1.0b1", "2024.1", "2024.2.0", "2024.1.0rc1"];
    for a in versions {
        for b in versions {
            assert!(!(is_newer_version(a, b) && is_newer_version(b, a)), "{a} {b}");
        }
    }
}

#[test]
fn the_first_difference_decides() {
    assert!(is_newer_version("2.0.0", "1.99.99"));
    assert!(!is_newer_version("1.99.99", "2.0.0"));
    assert!(is_newer_version("1.10", "1.9"));
    assert!(!is_newer_version("1.9", "1.10"));
}

#[test]
fn the_longer_of_two_vectors_that_agree_is_newer() {
    assert!(is_newer_version("2024.1.0", "2024.1"));
    assert!(!is_newer_version("2024.1", "2024.1.0"));
    assert!(is_newer_version("1", ""));
    assert!(!is_newer_version("", "1"));
    // The suffix does not count where the vectors differ.
    assert!(is_newer_version("2024.1.0b1", "2024.1"));
    assert!(is_newer_version("2024.1.1b1", "2024.1.0"));
}

#[test]
fn a_plain_release_is_newer_than_its_pre_release() {
    assert!(is_newer_version("2024.1.0", "2024.1.0b1"));
    assert!(!is_newer_version("2024.1.0b1", "2024.1.0"));
    assert!(is_newer_version("2024.1.0", "2024.1.0-dev"));
    assert!(is_newer_version("2024.1.0", "2024.1.0.dev"));
    // Two pre-releases of one release are not told apart.
    assert!(!is_newer_version("2024.1.0b2", "2024.1.0b1"));
    assert!(!is_newer_version("2024.1.0b1", "2024.1.0b2"));
}

#[test]
fn vectors_are_compared_as_numbers() {
    assert!(vector_is_newer(&vec![1, 10], &vec![1, 9]));
    assert!(!vector_is_newer(&vec![1, 9], &vec![1, 10]));
    assert!(!vector_is_newer(&vec![], &vec![]));
    assert!(vector_is_newer(&vec![0], &vec![]));
    assert!(!vector_is_newer(&vec![3, 4], &vec![3, 4]));
}

#[test]
fn version_output_is_trimmed_and_stripped() {
    assert_eq!(read_version_output("Version: 2024.1.0\n"), Ok("2024.1.0".to_string()));
    assert_eq!(read_version_output("2024.1.0"), Ok("2024.1.0".to_string()));
    assert_eq!(read_version_output("  \t Version: 2024.1.0b1 \r\n"), Ok("2024.1.0b1".to_string()));
    // Only one prefix is taken away, and only at the start.
    assert_eq!(
        read_version_output("Version: Version: 1.2"),
        Ok("Version: 1.2".to_string())
    );
    assert_eq!(read_version_output("Version:2024.1.0"), Ok("Version:2024.1.0".to_string()));
    // White space that Unicode knows and ASCII does not.
    assert_eq!(read_version_output("\u{a0}\u{3000}1.2\u{2028}"), Ok("1.2".to_string()));
}

#[test]
fn version_output_without_a_number_is_unreadable() {
    assert_eq!(read_version_output(""), Err(Undetectable::Unreadable));
    assert_eq!(read_version_output("   \n"), Err(Undetectable::Unreadable));
    assert_eq!(read_version_output("Version: "), Err(Undetectable::Unreadable));
    assert_eq!(read_version_output("Version: unknown"), Err(Undetectable::Unreadable));
}

#[test]
fn installed_version_follows_the_query() {
    let undetectable = |reason| Err(CheckError::VersionUndetectable { reason });
    assert_eq!(
        installed_version(&QueryOutput::NoInterpreter),
        undetectable(Undetectable::NoInterpreter)
    );
    assert_eq!(installed_version(&QueryOutput::NotRun), undetectable(Undetectable::QueryFailed));
    assert_eq!(installed_version(&QueryOutput::Failed), undetectable(Undetectable::NotInstalled));
    assert_eq!(
        installed_version(&QueryOutput::Succeeded { stdout: b"Version: 2024.3.1\n".to_vec() }),
        Ok("2024.3.1".to_string())
    );
    assert_eq!(
        installed_version(&QueryOutput::Succeeded { stdout: b"nothing".to_vec() }),
        undetectable(Undetectable::Unreadable)
    );
}

#[test]
fn installed_version_decodes_bytes_that_are_not_text() {
    // 0xff is no UTF-8; the decoding puts U+FFFD in its place.
    assert_eq!(
        installed_version(&QueryOutput::Succeeded { stdout: vec![b'1', b'.', b'2', 0xff] }),
        Ok("1.2\u{fffd}".to_string())
    );
    assert_eq!(
        installed_version(&QueryOutput::Succeeded { stdout: "Version: 1.2\u{e9}".as_bytes().to_vec() }),
        Ok("1.2\u{e9}".to_string())
    );
}

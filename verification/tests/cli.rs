use rcli::cli::base64::parse_format as parse_base64_format;
use rcli::cli::text::parse_format;
use rcli::cli::{check_input_file, check_output_dir, verify_file, verify_path};
use rcli::{Base64Format, CliError, TextSignFormat};

#[test]
fn test_verify_input_file() {
    assert_eq!(verify_file("-").unwrap(), Into::<String>::into("-"));
    assert_eq!(
        verify_file("*").unwrap_err().to_string(),
        "File does not exists".to_owned()
    );
    // an existing file: the package's `Cargo.toml` is not present where the
    // tests run, so one of the test sources stands in for it
    assert_eq!(verify_file("tests/cli.rs").unwrap(), "tests/cli.rs".to_owned());
    assert_eq!(
        verify_file("file-not-exists").unwrap_err().to_string(),
        "File does not exists".to_owned()
    );
}

#[test]
fn check_input_file_decides_on_existence() {
    assert_eq!(check_input_file("-", false).unwrap(), "-".to_owned());
    assert_eq!(check_input_file("a.txt", true).unwrap(), "a.txt".to_owned());
    assert_eq!(check_input_file("a.txt", false), Err(CliError::FileNotExists));
}

#[test]
fn verify_path_accepts_directories_only() {
    assert_eq!(verify_path("src").unwrap(), "src".to_owned());
    assert_eq!(
        verify_path("tests/cli.rs").unwrap_err().to_string(),
        "Path: tests/cli.rs does not exist".to_owned()
    );
    assert_eq!(
        verify_path("no-such-dir").unwrap_err(),
        CliError::PathNotExists("no-such-dir".to_owned())
    );
}

#[test]
fn check_output_dir_needs_an_existing_directory() {
    assert_eq!(check_output_dir("out", true, true).unwrap(), "out".to_owned());
    assert_eq!(
        check_output_dir("out", true, false),
        Err(CliError::PathNotExists("out".to_owned()))
    );
    assert_eq!(
        check_output_dir("out", false, false),
        Err(CliError::PathNotExists("out".to_owned()))
    );
}

#[test]
fn base64_format_names_round_trip() {
    for f in [Base64Format::Standard, Base64Format::UrlSafe] {
        assert_eq!(parse_base64_format(f.as_str()).unwrap(), f);
    }
    assert_eq!(Base64Format::Standard.as_str(), "standard");
    assert_eq!(Base64Format::UrlSafe.as_str(), "url_safe");
    let err = parse_base64_format("url-safe").unwrap_err();
    assert_eq!(err, CliError::InvalidBase64Format("url-safe".to_owned()));
    assert_eq!(err.to_string(), "无法将 url-safe 转译为 Base64Format 格式".to_owned());
}

#[test]
fn text_sign_format_names_round_trip() {
    for f in [TextSignFormat::Blake3, TextSignFormat::Ed25519] {
        assert_eq!(parse_format(f.as_str()).unwrap(), f);
    }
    assert_eq!(TextSignFormat::Blake3.as_str(), "blake3");
    assert_eq!(TextSignFormat::Ed25519.as_str(), "ed25519");
    let err = parse_format("rsa").unwrap_err();
    assert_eq!(err, CliError::InvalidTextSignFormat("rsa".to_owned()));
    assert_eq!(err.to_string(), "无法将 rsa 转换为 TextSignFormat".to_owned());
    assert!(parse_format("").is_err());
    assert!(parse_format("Blake3").is_err());
}

#[test]
fn key_files_follow_the_format() {
    assert_eq!(TextSignFormat::Blake3.key_files(), vec!["blake3.txt".to_owned()]);
    assert_eq!(
        TextSignFormat::Ed25519.key_files(),
        vec!["ed25519.sk".to_owned(), "ed25519.pk".to_owned()]
    );
}


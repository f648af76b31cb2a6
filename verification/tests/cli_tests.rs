use rcli::{parse_base64_format, verify_file, verify_path, Base64Format, OutputFormat,
    TextError, TextSignFormat};

#[test]
fn test_verify_input_file() {
    assert_eq!(verify_file("-"), Ok("-".into()));
    assert_eq!(verify_file("*"), Err("File does not exist".into()))
}

#[test]
fn test_verify_path_accepts_directory() {
    assert_eq!(verify_path("."), Ok(".".into()));
}

#[test]
fn test_verify_path_rejects_missing() {
    assert_eq!(
        verify_path("no-such-directory-anywhere"),
        Err("path dose not exists or is not a directory")
    );
}

#[test]
fn test_parse_text_format() {
    assert_eq!(
        rcli::cli::text::parse_format("blacke3"),
        Ok(TextSignFormat::Blake3)
    );
    assert_eq!(
        rcli::cli::text::parse_format("ed2519"),
        Ok(TextSignFormat::Ed2519)
    );
    assert_eq!(
        rcli::cli::text::parse_format("blake3"),
        Err(TextError::UnsupportedFormatError)
    );
}

#[test]
fn test_parse_base64_format() {
    assert_eq!(parse_base64_format("standard"), Ok(Base64Format::Standard));
    assert_eq!(parse_base64_format("urlsafe"), Ok(Base64Format::UrlSafe));
    assert_eq!(
        parse_base64_format("url-safe"),
        Err(TextError::UnsupportedFormatError)
    );
}

#[test]
fn test_parse_output_format_ignores_case() {
    assert_eq!(rcli::cli::csv::parse_format("json"), Ok(OutputFormat::Json));
    assert_eq!(rcli::cli::csv::parse_format("JSON"), Ok(OutputFormat::Json));
    assert_eq!(rcli::cli::csv::parse_format("Yaml"), Ok(OutputFormat::Yaml));
    assert_eq!(
        rcli::cli::csv::parse_format("toml"),
        Err(TextError::UnsupportedFormatError)
    );
}

#[test]
fn test_format_names_round_trip() {
    assert_eq!(TextSignFormat::Blake3.as_str(), "blacke3");
    assert_eq!(TextSignFormat::Ed2519.as_str(), "ed2519");
    assert_eq!(Base64Format::Standard.as_str(), "standard");
    assert_eq!(Base64Format::UrlSafe.as_str(), "urlsafe");
    assert_eq!(OutputFormat::Json.as_str(), "json");
    assert_eq!(OutputFormat::Yaml.as_str(), "yaml");
    assert_eq!(
        rcli::cli::text::parse_format(TextSignFormat::Ed2519.as_str()),
        Ok(TextSignFormat::Ed2519)
    );
}

#[test]
fn test_error_messages_distinct() {
    let kinds = [
        TextError::IOError,
        TextError::KeyLengthError,
        TextError::SignatureLengthError,
        TextError::EncodingError,
        TextError::CryptoConstructionError,
        TextError::UnsupportedFormatError,
    ];
    for (i, a) in kinds.iter().enumerate() {
        for (j, b) in kinds.iter().enumerate() {
            if i != j {
                assert_ne!(a.message(), b.message());
            }
        }
    }
}

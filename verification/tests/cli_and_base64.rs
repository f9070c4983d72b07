use rcli::cli::b64::parse_base64_format;
use rcli::cli::text::parse_format;
use rcli::opts::{parse_format as parse_output_format, verify_input_file, OutputFormat};
use rcli::{
    process_decode, process_encode, verify_file, verify_path, Base64Format, TextError,
    TextSignFormat,
};

#[test]
fn test_process_decode() {
    let input = "cargo.toml";
    let format = Base64Format::Standard;
    let encoded = process_encode(input.as_bytes(), format).unwrap();
    assert!(process_decode(&encoded, format).is_ok());
}

#[test]
fn encode_known_values() {
    assert_eq!(process_encode(b"hello", Base64Format::Standard).unwrap(), "aGVsbG8=");
    assert_eq!(process_encode(b"hello", Base64Format::UrlSafe).unwrap(), "aGVsbG8");
    assert_eq!(process_encode(&[0xfb, 0xff], Base64Format::Standard).unwrap(), "+/8=");
    assert_eq!(process_encode(&[0xfb, 0xff], Base64Format::UrlSafe).unwrap(), "-_8");
    assert_eq!(process_encode(b"", Base64Format::UrlSafe).unwrap(), "");
}

#[test]
fn decode_known_values() {
    assert_eq!(process_decode("aGVsbG8=", Base64Format::Standard), Ok(b"hello".to_vec()));
    assert_eq!(process_decode("aGVsbG8", Base64Format::UrlSafe), Ok(b"hello".to_vec()));
    assert_eq!(process_decode("+/8=", Base64Format::Standard), Ok(vec![0xfb, 0xff]));
    assert_eq!(process_decode("-_8", Base64Format::UrlSafe), Ok(vec![0xfb, 0xff]));
    assert_eq!(process_decode("", Base64Format::Standard), Ok(vec![]));
}

#[test]
fn decode_drops_white_space_at_the_ends() {
    assert_eq!(process_decode("  aGVsbG8=\n", Base64Format::Standard), Ok(b"hello".to_vec()));
    assert_eq!(process_decode("\taGVsbG8 \r\n", Base64Format::UrlSafe), Ok(b"hello".to_vec()));
    assert_eq!(process_decode("aGVs bG8=", Base64Format::Standard), Err(TextError::Encoding));
}

#[test]
fn decode_refuses_the_other_alphabet() {
    assert_eq!(process_decode("+/8=", Base64Format::UrlSafe), Err(TextError::Encoding));
    assert_eq!(process_decode("-_8", Base64Format::Standard), Err(TextError::Encoding));
    assert_eq!(process_decode("aGVsbG8=", Base64Format::UrlSafe), Err(TextError::Encoding));
    assert_eq!(process_decode("aGVsbG8", Base64Format::Standard), Err(TextError::Encoding));
    assert_eq!(process_decode("cargo.toml", Base64Format::Standard), Err(TextError::Encoding));
}

#[test]
fn encode_then_decode_gives_the_bytes_back() {
    let data: Vec<u8> = (0u8..=255).collect();
    for format in [Base64Format::Standard, Base64Format::UrlSafe] {
        for len in [0usize, 1, 2, 3, 4, 31, 32, 64, 256] {
            let text = process_encode(&data[..len], format).unwrap();
            assert_eq!(process_decode(&text, format), Ok(data[..len].to_vec()));
        }
    }
}

#[test]
fn input_names() {
    assert_eq!(verify_file("-", false), Ok("-".to_string()));
    assert_eq!(verify_file("-", true), Ok("-".to_string()));
    assert_eq!(verify_file("notes.txt", true), Ok("notes.txt".to_string()));
    assert_eq!(verify_file("notes.txt", false), Err("File not found"));
    assert_eq!(verify_file("--", false), Err("File not found"));
    assert_eq!(verify_file("", false), Err("File not found"));
    assert_eq!(verify_input_file("-", false), Err("File not found"));
    assert_eq!(verify_input_file("a.csv", true), Ok("a.csv".to_string()));
}

#[test]
fn output_directories() {
    assert_eq!(verify_path("keys", true, true), Ok("keys".to_string()));
    assert_eq!(verify_path("keys", true, false), Err("path not exist"));
    assert_eq!(verify_path("keys", false, false), Err("path not exist"));
    assert_eq!(verify_path("keys", false, true), Err("path not exist"));
}

#[test]
fn format_names() {
    assert_eq!(parse_format("blake3"), Ok(TextSignFormat::Blake3));
    assert_eq!(parse_format("ed25519"), Ok(TextSignFormat::Ed25519));
    assert_eq!(parse_format("Blake3"), Err("Invalid format"));
    assert_eq!(parse_format(""), Err("Invalid format"));
    assert_eq!(TextSignFormat::Blake3.name(), "blake3");
    assert_eq!(TextSignFormat::Ed25519.name(), "ed25519");
    assert_eq!(TextSignFormat::default(), TextSignFormat::Blake3);
    for format in [TextSignFormat::Blake3, TextSignFormat::Ed25519] {
        assert_eq!(parse_format(format.name()), Ok(format));
    }
    assert_eq!(parse_base64_format("standard"), Ok(Base64Format::Standard));
    assert_eq!(parse_base64_format("urlsafe"), Ok(Base64Format::UrlSafe));
    assert_eq!(parse_base64_format("url"), Err("Invalid format"));
    assert_eq!(Base64Format::Standard.name(), "standard");
    assert_eq!(Base64Format::UrlSafe.name(), "urlsafe");
    assert_eq!(parse_output_format("json"), Ok(OutputFormat::Json));
    assert_eq!(parse_output_format("yaml"), Ok(OutputFormat::Yaml));
    assert_eq!(parse_output_format("toml"), Ok(OutputFormat::Toml));
    assert_eq!(parse_output_format("xml"), Err("Invalid format"));
    assert_eq!(OutputFormat::Json.name(), "json");
    assert_eq!(OutputFormat::Yaml.name(), "yaml");
    assert_eq!(OutputFormat::Toml.name(), "toml");
    let text: &str = TextSignFormat::Ed25519.into();
    assert_eq!(text, "ed25519");
    let text: &str = TextSignFormat::Blake3.into();
    assert_eq!(text, "blake3");
    let text: &str = OutputFormat::Yaml.into();
    assert_eq!(text, "yaml");
    let text: &str = OutputFormat::Json.into();
    assert_eq!(text, "json");
    let text: &str = OutputFormat::Toml.into();
    assert_eq!(text, "toml");
}

#[test]
fn error_messages() {
    assert_eq!(TextError::SourceNotFound.message(), "source not found");
    assert_eq!(TextError::KeyFormat.message(), "key has the wrong length or format");
    assert_eq!(TextError::Encoding.message(), "signature is not validly encoded");
    assert_eq!(TextError::Generation.message(), "random source unavailable");
}

#[test]
fn file_server_answers() {
    assert_eq!(
        rcli::file_response("site/a.txt", rcli::FileProbe::Missing),
        (404, "File not found: site/a.txt".to_string())
    );
    assert_eq!(
        rcli::file_response("site/a.txt", rcli::FileProbe::Read("body".to_string())),
        (200, "body".to_string())
    );
    assert_eq!(
        rcli::file_response("site/a.txt", rcli::FileProbe::Unreadable("denied".to_string())),
        (500, "denied".to_string())
    );
}

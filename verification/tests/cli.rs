use rcli::cli::base64::{Base64DecodeArgs, Base64EncodeArgs, Base64Format};
use rcli::cli::csv::{parse_format, CsvArgs, OutputFormat};
use rcli::cli::genpass::GenPassArgs;
use rcli::cli::text::{
    CommandError, KeyGenerateArgs, TextDecryptArgs, TextEncryptArgs, TextSignArgs, TextSignFormat,
    TextVerifyArgs,
};
use rcli::cli::{file_checked, path_checked, verify_file, verify_path, FormatError};
use rcli::process::base64::Base64Error;
use rcli::process::text::TextError;

#[test]
fn test_verify_file() {
    assert!(verify_file("-").is_ok());
    assert!(verify_file("src/lib.rs").is_ok());
    assert_eq!(
        verify_file("Cargo.toml"),
        file_checked("Cargo.toml", std::path::Path::new("Cargo.toml").exists())
    );
    assert_eq!(verify_file("not-exist-file"), Err("File does not exist"));
}

#[test]
fn files_that_exist_are_handed_back() {
    assert_eq!(verify_file("-"), Ok("-".to_string()));
    assert_eq!(verify_file("src"), Ok("src".to_string()));
    assert_eq!(verify_file("tests/cli.rs"), Ok("tests/cli.rs".to_string()));
    assert_eq!(verify_file(""), Err("File does not exist"));
}

#[test]
fn file_names_are_judged_by_what_is_known_of_them() {
    assert_eq!(file_checked("-", false), Ok("-".to_string()));
    assert_eq!(file_checked("-", true), Ok("-".to_string()));
    assert_eq!(file_checked("a.txt", true), Ok("a.txt".to_string()));
    assert_eq!(file_checked("a.txt", false), Err("File does not exist"));
    assert_eq!(file_checked("", false), Err("File does not exist"));
}

#[test]
fn paths_must_be_directories_that_exist() {
    assert_eq!(path_checked("dir", true, true), Ok("dir".to_string()));
    assert_eq!(path_checked("dir", true, false), Err("directory does not exist"));
    assert_eq!(path_checked("dir", false, false), Err("directory does not exist"));
    assert_eq!(path_checked("dir", false, true), Err("directory does not exist"));
    assert_eq!(verify_path("."), Ok(".".to_string()));
    assert_eq!(verify_path("src/lib.rs"), Err("directory does not exist"));
    assert_eq!(verify_path("not-exist-dir"), Err("directory does not exist"));
}

#[test]
fn formats_are_read_from_their_words() {
    assert_eq!(parse_format("json"), Ok(OutputFormat::JSON));
    assert_eq!(parse_format("YAML"), Ok(OutputFormat::YAML));
    assert_eq!(parse_format("Json"), Ok(OutputFormat::JSON));
    assert_eq!(parse_format("toml"), Err(FormatError::InvalidFormat));
    assert_eq!(OutputFormat::of_lowercase("JSON"), Err(FormatError::InvalidFormat));
    assert_eq!("yaml".parse::<OutputFormat>(), Ok(OutputFormat::YAML));
    assert_eq!(OutputFormat::JSON.name(), "json");
    assert_eq!(OutputFormat::YAML.name(), "yaml");

    assert_eq!(Base64Format::parse("stand"), Ok(Base64Format::Stand));
    assert_eq!("urlsafe".parse::<Base64Format>(), Ok(Base64Format::UrlSafe));
    assert_eq!(Base64Format::parse("Stand"), Err(FormatError::InvalidFormat));

    assert_eq!(TextSignFormat::parse("blake3"), Ok(TextSignFormat::Blake3));
    assert_eq!("ed25519".parse::<TextSignFormat>(), Ok(TextSignFormat::Ed25519));
    assert_eq!(TextSignFormat::parse("rsa"), Err(FormatError::InvalidFormat));
    assert_eq!(TextSignFormat::parse(""), Err(FormatError::InvalidFormat));
}

#[test]
fn csv_output_is_named_after_the_format() {
    let mut args = CsvArgs {
        input: "in.csv".to_string(),
        output: None,
        format: OutputFormat::JSON,
        delimiter: ',',
        header: true,
    };
    assert_eq!(args.output_name(), "output.json");
    args.format = OutputFormat::YAML;
    assert_eq!(args.output_name(), "output.yaml");
    args.output = Some("players.txt".to_string());
    assert_eq!(args.output_name(), "players.txt");
}

#[test]
fn password_options() {
    let args = GenPassArgs::new();
    assert_eq!(args.len, 8);
    assert!(args.is_valid());
    let (password, score) = args.run().unwrap().unwrap();
    assert_eq!(password.len(), 8);
    assert!(score <= 4);

    let short = GenPassArgs { len: 3, ..args };
    assert!(!short.is_valid());
    assert_eq!(short.run(), Ok(None));

    let none = GenPassArgs {
        len: 5,
        no_upper: true,
        no_lower: true,
        no_number: true,
        no_symbol: true,
    };
    assert!(!none.is_valid());
    assert_eq!(none.run(), Ok(None));

    let empty = GenPassArgs { len: 0, ..none };
    assert!(empty.is_valid());
    assert_eq!(empty.run(), Ok(Some((String::new(), 0))));

    let digits = GenPassArgs { len: 40, no_number: false, ..none };
    let (password, _) = digits.run().unwrap().unwrap();
    assert_eq!(password.len(), 40);
    assert!(password.bytes().all(|b| b.is_ascii_digit()));
}

#[test]
fn base64_commands() {
    let encode = Base64EncodeArgs { input: "-".to_string(), format: Base64Format::UrlSafe };
    assert_eq!(encode.run(&[0xfb, 0xff]), "-_8=");
    let decode = Base64DecodeArgs { input: "-".to_string(), format: Base64Format::UrlSafe };
    assert_eq!(decode.run("aGVsbG8="), Ok("hello".to_string()));
    assert_eq!(decode.run("aGVsbG8"), Err(Base64Error::InvalidBase64));
}

#[test]
fn sign_and_verify_commands() {
    let key = [1u8; 32];
    let sign = TextSignArgs {
        input: "-".to_string(),
        key: "key".to_string(),
        format: TextSignFormat::Blake3,
    };
    let sig = sign.run(b"hello!", &key).unwrap();
    assert_eq!(sig.len(), 43);
    assert!(!sig.contains('='));
    assert_eq!(sign.run(b"hello!", &key[..31]), Err(TextError::InvalidKeyLength));

    let mut verify = TextVerifyArgs {
        input: "-".to_string(),
        key: "key".to_string(),
        sig: sig.clone(),
        format: TextSignFormat::Blake3,
    };
    assert_eq!(verify.run(b"hello!", &key), Ok(true));
    assert_eq!(verify.run(b"hello?", &key), Ok(false));
    assert_eq!(
        verify.run(b"hello!", &key[..31]),
        Err(CommandError::Text(TextError::InvalidKeyLength))
    );
    verify.sig = "not base64!".to_string();
    assert_eq!(verify.run(b"hello!", &key), Err(CommandError::InvalidBase64));
    verify.sig = format!("{}=", sig);
    assert_eq!(verify.run(b"hello!", &key), Err(CommandError::InvalidBase64));
}

#[test]
fn keys_are_judged_before_the_content() {
    let key = [1u8; 32];
    for format in [TextSignFormat::Blake3, TextSignFormat::Ed25519] {
        let sign = TextSignArgs { input: "-".to_string(), key: "key".to_string(), format };
        assert_eq!(sign.check_key(&key), Ok(()));
        assert_eq!(sign.check_key(&key[..31]), Err(TextError::InvalidKeyLength));
        assert_eq!(sign.check_key(&[]), Err(TextError::InvalidKeyLength));
    }

    let mut verify = TextVerifyArgs {
        input: "-".to_string(),
        key: "key".to_string(),
        sig: "AAAA".to_string(),
        format: TextSignFormat::Blake3,
    };
    assert_eq!(verify.check(&key), Ok(()));
    assert_eq!(
        verify.check(&key[..31]),
        Err(CommandError::Text(TextError::InvalidKeyLength))
    );
    verify.sig = "not base64!".to_string();
    assert_eq!(verify.check(&key), Err(CommandError::InvalidBase64));
    assert_eq!(verify.check(&key[..31]), Err(CommandError::InvalidBase64));

    verify.sig = "AAAA".to_string();
    verify.format = TextSignFormat::Ed25519;
    let mut refused = 0;
    for first in 0..=255u8 {
        let mut public = [0u8; 32];
        public[0] = first;
        let checked = verify.check(&public);
        if checked.is_err() {
            assert_eq!(checked, Err(CommandError::Text(TextError::InvalidPublicKey)));
            assert_eq!(verify.run(b"hello!", &public), checked.map(|_| false));
            refused += 1;
        } else {
            assert_eq!(
                verify.run(b"hello!", &public),
                Err(CommandError::Text(TextError::MalformedSignature))
            );
        }
    }
    assert!(refused > 0);
}

#[test]
fn sign_command_prints_the_signature_in_base64() {
    let sign = TextSignArgs {
        input: "-".to_string(),
        key: "key".to_string(),
        format: TextSignFormat::Blake3,
    };
    assert_eq!(
        sign.run(b"", b"whats the Elvish word for friend"),
        Ok("krK3VgTtPHYfnW9iOSyKkietDqPwlXPng_FJik7WDSY".to_string())
    );
}

#[test]
fn encrypt_and_decrypt_commands() {
    let key = "yXHLHs9WcdpkTV8elon1XgoGtdy5anJR".to_string();
    let encrypt = TextEncryptArgs { key: key.clone(), input: "-".to_string() };
    let text = encrypt.run(b"hello world").unwrap();
    let decrypt = TextDecryptArgs { key: key.clone(), input: "-".to_string() };
    assert_eq!(decrypt.run(text.as_bytes()), Ok("hello world".to_string()));
    assert_eq!(decrypt.run(b"***"), Err(CommandError::InvalidBase64));
    assert_eq!(
        decrypt.run(b"AAAA"),
        Err(CommandError::Text(TextError::DecryptionFailed))
    );

    let bytes = encrypt.run(&[0xff, 0xfe]).unwrap();
    assert_eq!(decrypt.run(bytes.as_bytes()), Err(CommandError::NotText));

    let short = TextEncryptArgs { key: "short".to_string(), input: "-".to_string() };
    assert_eq!(short.run(b"hello world"), Err(TextError::InvalidKeyLength));
    let short = TextDecryptArgs { key: "short".to_string(), input: "-".to_string() };
    assert_eq!(
        short.run(text.as_bytes()),
        Err(CommandError::Text(TextError::InvalidKeyLength))
    );
}

#[test]
fn key_generation_command() {
    let args = KeyGenerateArgs { format: TextSignFormat::Ed25519, output: ".".to_string() };
    let keys = args.run().unwrap();
    let names: Vec<&str> = keys.iter().map(|(name, _)| *name).collect();
    assert_eq!(names, vec!["ed25519.sk", "ed25519.pk"]);
    let args = KeyGenerateArgs { format: TextSignFormat::Blake3, output: ".".to_string() };
    let keys = args.run().unwrap();
    let names: Vec<&str> = keys.iter().map(|(name, _)| *name).collect();
    assert_eq!(names, vec!["blake3.txt"]);
}

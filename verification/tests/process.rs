use rcli::cli::base64::Base64Format;
use rcli::process::base64::{base64_decode, base64_encode, text_of_decoded, Base64Error};
use rand::rngs::StdRng;
use rand::SeedableRng;
use rcli::process::genpass::{
    draw_password, genpass, genpass_bytes, password_text, GenPassError, LOWER, NUMBER, SYMBOL,
    UPPER,
};
use rcli::utils::{bytes_equal, str_equal};

#[test]
fn test_genpass() {
    let len = 16;
    let no_upper = false;
    let no_lower = false;
    let no_number = false;
    let no_symbol = false;

    let password = genpass(len, no_upper, no_lower, no_number, no_symbol);

    assert!(password.is_ok());
    let password = password.unwrap();
    assert_eq!(password.len() as u8, len);
}

#[test]
fn test_base64_encode() {
    assert_eq!(base64_encode(b"hello world~", Base64Format::Stand), "aGVsbG8gd29ybGR+");
}

#[test]
fn test_base64_decode() {
    assert!(base64_decode("aGVsbG8gd29ybGR+\n", Base64Format::Stand).is_ok());
}

#[test]
fn character_classes() {
    assert_eq!(&UPPER[..], b"ABCDEFGHIJKLMNOPQRSTUVWXYZ");
    assert_eq!(&LOWER[..], b"abcdefghijklmnopqrstuvwxyz");
    assert_eq!(&NUMBER[..], b"0123456789");
    assert_eq!(&SYMBOL[..], b"~!@#$%^&*()_-+=");
}

#[test]
fn password_holds_each_class_that_is_left_in() {
    for _ in 0..50 {
        let password = genpass_bytes(4, false, false, false, false).unwrap();
        assert_eq!(password.len(), 4);
        assert!(password.iter().any(|b| UPPER.contains(b)));
        assert!(password.iter().any(|b| LOWER.contains(b)));
        assert!(password.iter().any(|b| NUMBER.contains(b)));
        assert!(password.iter().any(|b| SYMBOL.contains(b)));
    }
}

#[test]
fn password_holds_no_class_that_is_left_out() {
    for _ in 0..20 {
        let password = genpass(255, true, false, true, false).unwrap();
        assert_eq!(password.len(), 255);
        assert!(password.bytes().all(|b| LOWER.contains(&b) || SYMBOL.contains(&b)));
        assert!(password.bytes().any(|b| LOWER.contains(&b)));
        assert!(password.bytes().any(|b| SYMBOL.contains(&b)));
    }
    assert_eq!(genpass(0, true, true, true, true), Ok(String::new()));
    let one = genpass(1, true, true, false, true).unwrap();
    assert!(one.bytes().all(|b| b.is_ascii_digit()));
}

#[test]
fn password_is_shuffled() {
    let mut upper_first = 0;
    for _ in 0..200 {
        let password = genpass_bytes(20, false, false, false, false).unwrap();
        if UPPER.contains(&password[0]) {
            upper_first += 1;
        }
    }
    assert!(upper_first < 200);
}

#[test]
fn password_comes_from_the_generator() {
    let mut one = StdRng::seed_from_u64(1);
    let mut same = StdRng::seed_from_u64(1);
    let mut other = StdRng::seed_from_u64(2);
    let first = draw_password(&mut one, 32, false, false, false, false);
    assert_eq!(first.len(), 32);
    assert!(first.iter().any(|b| UPPER.contains(b)));
    assert!(first.iter().any(|b| LOWER.contains(b)));
    assert!(first.iter().any(|b| NUMBER.contains(b)));
    assert!(first.iter().any(|b| SYMBOL.contains(b)));
    assert_eq!(first, draw_password(&mut same, 32, false, false, false, false));
    assert_ne!(first, draw_password(&mut other, 32, false, false, false, false));
    assert_ne!(first, draw_password(&mut one, 32, false, false, false, false));
    assert_eq!(draw_password(&mut one, 0, true, true, true, true), Vec::<u8>::new());
    let letters = draw_password(&mut one, 10, false, true, true, true);
    assert_eq!(letters.len(), 10);
    assert!(letters.iter().all(|b| UPPER.contains(b)));
}

#[test]
fn password_bytes_become_text() {
    assert_eq!(password_text(b"aB3~".to_vec()), Ok("aB3~".to_string()));
    assert_eq!(password_text(Vec::new()), Ok(String::new()));
    assert_eq!(password_text(vec![0xc3, 0xa9]), Ok("\u{e9}".to_string()));
    assert_eq!(password_text(vec![0xff]), Err(GenPassError::NotText));
}

#[test]
fn passwords_differ() {
    let one = genpass(32, false, false, false, false).unwrap();
    let other = genpass(32, false, false, false, false).unwrap();
    assert_ne!(one, other);
}

#[test]
fn base64_of_known_bytes() {
    assert_eq!(base64_encode(b"", Base64Format::Stand), "");
    assert_eq!(base64_encode(b"f", Base64Format::Stand), "Zg==");
    assert_eq!(base64_encode(b"fo", Base64Format::Stand), "Zm8=");
    assert_eq!(base64_encode(b"foo", Base64Format::Stand), "Zm9v");
    assert_eq!(base64_encode(&[0xfb, 0xff], Base64Format::Stand), "+/8=");
    assert_eq!(base64_encode(&[0xfb, 0xff], Base64Format::UrlSafe), "-_8=");
}

#[test]
fn base64_back_to_text() {
    assert_eq!(base64_decode("Zm9v", Base64Format::Stand), Ok("foo".to_string()));
    assert_eq!(base64_decode("  Zm8=\n", Base64Format::Stand), Ok("fo".to_string()));
    assert_eq!(base64_decode("", Base64Format::UrlSafe), Ok(String::new()));
    assert_eq!(base64_decode("Zm8", Base64Format::Stand), Err(Base64Error::InvalidBase64));
    assert_eq!(base64_decode("-_8=", Base64Format::Stand), Err(Base64Error::InvalidBase64));
    assert_eq!(base64_decode("+/8=", Base64Format::UrlSafe), Err(Base64Error::InvalidBase64));
    assert_eq!(base64_decode("+/8=", Base64Format::Stand), Err(Base64Error::NotText));
    assert_eq!(base64_decode("Zm 9v", Base64Format::Stand), Err(Base64Error::InvalidBase64));
}

#[test]
fn decoded_bytes_become_text() {
    assert_eq!(text_of_decoded(None), Err(Base64Error::InvalidBase64));
    assert_eq!(text_of_decoded(Some(vec![0xff])), Err(Base64Error::NotText));
    assert_eq!(text_of_decoded(Some(vec![0xc3, 0xa9])), Ok("\u{e9}".to_string()));
    assert_eq!(text_of_decoded(Some(vec![])), Ok(String::new()));
}

#[test]
fn equality_of_bytes_and_text() {
    assert!(bytes_equal(b"", b""));
    assert!(bytes_equal(b"abc", b"abc"));
    assert!(!bytes_equal(b"abc", b"abd"));
    assert!(!bytes_equal(b"abc", b"ab"));
    assert!(!bytes_equal(b"ab", b"abc"));
    assert!(str_equal("json", "json"));
    assert!(!str_equal("json", "yaml"));
    assert!(!str_equal("", "-"));
}

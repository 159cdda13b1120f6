//! Options of the base64 commands.

use vstd::prelude::*;

use crate::cli::FormatError;
use crate::process::base64::{
    base64_decode, base64_decode_spec, base64_encode, base64_encoding, encoded_fits, is_url_safe,
    text_result, Base64Error,
};
use crate::utils::str_equal;

verus! {

/// The alphabet of a base64 text.
#[derive(Debug, Clone, Copy, PartialEq, Eq, Structural)]
pub enum Base64Format {
    /// The standard alphabet, with `+` and `/`.
    Stand,
    /// The URL-safe alphabet, with `-` and `_`.
    UrlSafe,
}

impl Base64Format {
    /// Reads `stand` or `urlsafe`; every other word is refused.
    pub fn parse(s: &str) -> (r: Result<Base64Format, FormatError>)
        ensures
            s@ == "stand"@ ==> r == Ok::<Base64Format, FormatError>(Base64Format::Stand),
            s@ == "urlsafe"@ ==> r == Ok::<Base64Format, FormatError>(Base64Format::UrlSafe),
            s@ != "stand"@ && s@ != "urlsafe"@ ==> r == Err::<Base64Format, FormatError>(
                FormatError::InvalidFormat,
            ),
    {
        proof {
            reveal_strlit("stand");
            reveal_strlit("urlsafe");
            assert("stand"@.len() != "urlsafe"@.len());
        }
        if str_equal(s, "stand") {
            Ok(Base64Format::Stand)
        } else if str_equal(s, "urlsafe") {
            Ok(Base64Format::UrlSafe)
        } else {
            Err(FormatError::InvalidFormat)
        }
    }
}

impl std::str::FromStr for Base64Format {
    type Err = FormatError;

    /// Reads `stand` or `urlsafe`, as `parse` does.
    fn from_str(s: &str) -> (r: Result<Self, Self::Err>)
        ensures
            s@ == "stand"@ ==> r == Ok::<Base64Format, FormatError>(Base64Format::Stand),
            s@ == "urlsafe"@ ==> r == Ok::<Base64Format, FormatError>(Base64Format::UrlSafe),
            s@ != "stand"@ && s@ != "urlsafe"@ ==> r == Err::<Base64Format, FormatError>(
                FormatError::InvalidFormat,
            ),
    {
        Base64Format::parse(s)
    }
}

/// Options of the encode command.
#[derive(Debug)]
pub struct Base64EncodeArgs {
    /// The file to read, or `-` for the standard input.
    pub input: String,
    /// The alphabet to write in.
    pub format: Base64Format,
}

impl Base64EncodeArgs {
    /// What the command prints for the content it has read.
    pub fn run(&self, content: &[u8]) -> (text: String)
        requires
            encoded_fits(content@.len()),
        ensures
            text@ == base64_encoding(is_url_safe(self.format), true, content@),
    {
        base64_encode(content, self.format)
    }
}

/// Options of the decode command.
#[derive(Debug)]
pub struct Base64DecodeArgs {
    /// The file to read, or `-` for the standard input.
    pub input: String,
    /// The alphabet to read in.
    pub format: Base64Format,
}

impl Base64DecodeArgs {
    /// What the command prints for the text it has read.
    pub fn run(&self, text: &str) -> (r: Result<String, Base64Error>)
        ensures
            text_result(r) == base64_decode_spec(text@, self.format),
    {
        base64_decode(text, self.format)
    }
}

} // verus!

//! Options of the CSV conversion command.

use vstd::prelude::*;
use vstd::utf8::is_ascii_chars;

use crate::cli::FormatError;
use crate::utils::str_equal;

verus! {

/// The text `text` in lower case, as `str::to_lowercase` returns it.
pub uninterp spec fn lowercase(text: Seq<char>) -> Seq<char>;

/// The lower-case letter of an upper-case letter from `A` to `Z`; every
/// other character as it is.
pub open spec fn ascii_lower(c: char) -> char {
    if 'A' <= c <= 'Z' {
        ((c as u8) + 32) as char
    } else {
        c
    }
}

/// The text with each letter from `A` to `Z` in lower case.
pub open spec fn ascii_lowercase(text: Seq<char>) -> Seq<char> {
    Seq::new(text.len(), |i: int| ascii_lower(text[i]))
}

/// Calls `str::to_lowercase`. Trusted: the result is the named text, and
/// in a text of ASCII characters the letters from `A` to `Z` become those
/// from `a` to `z` and nothing else changes.
#[verifier::external_body]
fn to_lowercase(text: &str) -> (lower: String)
    ensures
        lower@ == lowercase(text@),
        is_ascii_chars(text@) ==> lower@ == ascii_lowercase(text@),
{
    text.to_lowercase()
}

/// The format that the records are written in.
#[derive(Debug, Clone, Copy, PartialEq, Eq, Structural)]
#[allow(clippy::upper_case_acronyms)]
pub enum OutputFormat {
    /// JSON, indented.
    JSON,
    /// YAML.
    YAML,
}

/// The words `json` and `yaml` are ASCII and already in lower case.
pub proof fn lemma_lower_case_words()
    ensures
        is_ascii_chars("json"@),
        is_ascii_chars("yaml"@),
        ascii_lowercase("json"@) == "json"@,
        ascii_lowercase("yaml"@) == "yaml"@,
        "json"@ != "yaml"@,
{
    reveal_strlit("json");
    reveal_strlit("yaml");
    assert("json"@ =~= seq!['j', 's', 'o', 'n']);
    assert("yaml"@ =~= seq!['y', 'a', 'm', 'l']);
    assert(ascii_lowercase("json"@) =~= "json"@);
    assert(ascii_lowercase("yaml"@) =~= "yaml"@);
    assert("json"@[0] != "yaml"@[0]);
}

impl OutputFormat {
    /// The word for the format, which is also the extension of its files.
    pub open spec fn spec_name(self) -> Seq<char> {
        match self {
            OutputFormat::JSON => "json"@,
            OutputFormat::YAML => "yaml"@,
        }
    }

    /// The word for the format.
    pub fn name(self) -> (word: &'static str)
        ensures
            word@ == self.spec_name(),
    {
        match self {
            OutputFormat::JSON => "json",
            OutputFormat::YAML => "yaml",
        }
    }

    /// What is made of a word in lower case: `json` and `yaml` name a
    /// format, every other word is refused.
    pub fn of_lowercase(word: &str) -> (r: Result<OutputFormat, FormatError>)
        ensures
            word@ == "json"@ ==> r == Ok::<OutputFormat, FormatError>(OutputFormat::JSON),
            word@ == "yaml"@ ==> r == Ok::<OutputFormat, FormatError>(OutputFormat::YAML),
            word@ != "json"@ && word@ != "yaml"@ ==> r == Err::<OutputFormat, FormatError>(
                FormatError::InvalidFormat,
            ),
            r matches Ok(format) ==> format.spec_name() == word@,
    {
        proof {
            reveal_strlit("json");
            reveal_strlit("yaml");
            assert("json"@[0] != "yaml"@[0]);
        }
        if str_equal(word, "json") {
            Ok(OutputFormat::JSON)
        } else if str_equal(word, "yaml") {
            Ok(OutputFormat::YAML)
        } else {
            Err(FormatError::InvalidFormat)
        }
    }

    /// Reads `json` or `yaml`, in any mix of upper and lower case.
    pub fn parse(s: &str) -> (r: Result<OutputFormat, FormatError>)
        ensures
            r matches Ok(format) ==> format.spec_name() == lowercase(s@),
            r is Ok <==> lowercase(s@) == "json"@ || lowercase(s@) == "yaml"@,
            r matches Err(e) ==> e == FormatError::InvalidFormat,
            is_ascii_chars(s@) ==> (r is Ok <==> ascii_lowercase(s@) == "json"@ || ascii_lowercase(
                s@,
            ) == "yaml"@),
            r matches Ok(format) ==> is_ascii_chars(s@) ==> format.spec_name() == ascii_lowercase(
                s@,
            ),
            s@ == "json"@ ==> r == Ok::<OutputFormat, FormatError>(OutputFormat::JSON),
            s@ == "yaml"@ ==> r == Ok::<OutputFormat, FormatError>(OutputFormat::YAML),
    {
        let lower = to_lowercase(s);
        proof {
            lemma_lower_case_words();
        }
        OutputFormat::of_lowercase(lower.as_str())
    }
}

impl std::str::FromStr for OutputFormat {
    type Err = FormatError;

    /// Reads `json` or `yaml`, in any mix of upper and lower case, as
    /// `parse` does.
    fn from_str(s: &str) -> (r: Result<Self, Self::Err>)
        ensures
            r matches Ok(format) ==> format.spec_name() == lowercase(s@),
            r is Ok <==> lowercase(s@) == "json"@ || lowercase(s@) == "yaml"@,
            r matches Err(e) ==> e == FormatError::InvalidFormat,
            is_ascii_chars(s@) ==> (r is Ok <==> ascii_lowercase(s@) == "json"@ || ascii_lowercase(
                s@,
            ) == "yaml"@),
            r matches Ok(format) ==> is_ascii_chars(s@) ==> format.spec_name() == ascii_lowercase(
                s@,
            ),
            s@ == "json"@ ==> r == Ok::<OutputFormat, FormatError>(OutputFormat::JSON),
            s@ == "yaml"@ ==> r == Ok::<OutputFormat, FormatError>(OutputFormat::YAML),
    {
        OutputFormat::parse(s)
    }
}

/// Reads the name of an output format.
pub fn parse_format(s: &str) -> (r: Result<OutputFormat, FormatError>)
    ensures
        r matches Ok(format) ==> format.spec_name() == lowercase(s@),
        r is Ok <==> lowercase(s@) == "json"@ || lowercase(s@) == "yaml"@,
        r matches Err(e) ==> e == FormatError::InvalidFormat,
        is_ascii_chars(s@) ==> (r is Ok <==> ascii_lowercase(s@) == "json"@ || ascii_lowercase(s@)
            == "yaml"@),
        r matches Ok(format) ==> is_ascii_chars(s@) ==> format.spec_name() == ascii_lowercase(s@),
        s@ == "json"@ ==> r == Ok::<OutputFormat, FormatError>(OutputFormat::JSON),
        s@ == "yaml"@ ==> r == Ok::<OutputFormat, FormatError>(OutputFormat::YAML),
{
    OutputFormat::parse(s)
}

/// Options of the CSV conversion command.
#[derive(Debug)]
pub struct CsvArgs {
    /// The CSV file to read.
    pub input: String,
    /// The file to write; named after the format where none is given.
    pub output: Option<String>,
    /// The format to write in.
    pub format: OutputFormat,
    /// The character between two fields.
    pub delimiter: char,
    /// Whether the first record names the fields.
    pub header: bool,
}

impl CsvArgs {
    /// The name of the file that is written: the one given, or `output.`
    /// and the word for the format.
    pub open spec fn spec_output_name(&self) -> Seq<char> {
        match self.output {
            Some(name) => name@,
            None => "output."@ + self.format.spec_name(),
        }
    }

    /// The name of the file that is written.
    pub fn output_name(&self) -> (name: String)
        ensures
            name@ == self.spec_output_name(),
    {
        match &self.output {
            Some(name) => name.clone(),
            None => {
                let mut name = "output.".to_owned();
                name.append(self.format.name());
                name
            },
        }
    }
}

} // verus!

//! Options of the password command.

use vstd::prelude::*;

use crate::process::genpass::{
    ascii_text, class_count, genpass, is_password, length_fits, text_bytes, GenPassError,
};

verus! {

/// Options of the password command.
#[derive(Debug, Clone, Copy, PartialEq, Eq, Structural)]
pub struct GenPassArgs {
    /// The number of characters.
    pub len: u8,
    /// Leave the upper-case letters out.
    pub no_upper: bool,
    /// Leave the lower-case letters out.
    pub no_lower: bool,
    /// Leave the digits out.
    pub no_number: bool,
    /// Leave the symbols out.
    pub no_symbol: bool,
}

/// Calls `zxcvbn::zxcvbn` with no user inputs and takes the score of what
/// it returns. Trusted: a score is one of 0 to 4. Which one is not said: the
/// estimate looks at the current year.
#[verifier::external_body]
fn password_score(password: &str) -> (score: u8)
    ensures
        score <= 4,
{
    u8::from(zxcvbn::zxcvbn(password, &[]).score())
}

impl GenPassArgs {
    /// Whether a password of the wanted length exists: it holds one
    /// character of each class that is left in, and none where every class
    /// is left out.
    pub open spec fn valid(&self) -> bool {
        length_fits(self.len, self.no_upper, self.no_lower, self.no_number, self.no_symbol)
    }

    /// Whether the text `password` meets the options.
    pub open spec fn accepts(&self, password: Seq<char>) -> bool {
        is_password(
            text_bytes(password),
            self.len,
            self.no_upper,
            self.no_lower,
            self.no_number,
            self.no_symbol,
        ) && ascii_text(password)
    }

    /// The default options: eight characters over all four classes.
    pub fn new() -> (args: GenPassArgs)
        ensures
            args == (GenPassArgs {
                len: 8,
                no_upper: false,
                no_lower: false,
                no_number: false,
                no_symbol: false,
            }),
            args.valid(),
    {
        GenPassArgs { len: 8, no_upper: false, no_lower: false, no_number: false, no_symbol: false }
    }

    /// Decides `valid`.
    pub fn is_valid(&self) -> (ok: bool)
        ensures
            ok == self.valid(),
    {
        let mut classes: u8 = 0;
        if !self.no_upper {
            classes += 1;
        }
        if !self.no_lower {
            classes += 1;
        }
        if !self.no_number {
            classes += 1;
        }
        if !self.no_symbol {
            classes += 1;
        }
        assert(classes == class_count(
            self.no_upper,
            self.no_lower,
            self.no_number,
            self.no_symbol,
        ));
        classes <= self.len && (classes != 0 || self.len == 0)
    }

    /// What the command prints: a fresh password and the score of its
    /// strength, from 0 to 4. Options that no password meets give nothing.
    /// Fails only where the operating system hands out no seed for the
    /// generator.
    pub fn run(&self) -> (r: Result<Option<(String, u8)>, GenPassError>)
        ensures
            !self.valid() ==> r == Ok::<Option<(String, u8)>, GenPassError>(None),
            self.valid() ==> r is Err || r matches Ok(Some(_)),
            r matches Ok(Some(printed)) ==> self.accepts(printed.0@) && printed.1 <= 4,
            r matches Err(e) ==> e == GenPassError::RandomSourceFailure,
    {
        if !self.is_valid() {
            return Ok(None);
        }
        match genpass(self.len, self.no_upper, self.no_lower, self.no_number, self.no_symbol) {
            Ok(password) => {
                let score = password_score(password.as_str());
                Ok(Some((password, score)))
            },
            Err(e) => Err(e),
        }
    }
}

} // verus!

//! Random passwords over four classes of characters.

use vstd::prelude::*;
use vstd::utf8::{decode_utf8, valid_utf8};

use crate::utils::{ascii_chars, is_ascii_bytes, lemma_ascii_is_utf8, string_from_utf8};

verus! {

/// The upper-case letters.
pub const UPPER: [u8; 26] = [
    65, 66, 67, 68, 69, 70, 71, 72, 73, 74, 75, 76, 77, 78, 79, 80, 81, 82, 83, 84, 85, 86, 87, 88,
    89, 90,
];

/// The lower-case letters.
pub const LOWER: [u8; 26] = [
    97, 98, 99, 100, 101, 102, 103, 104, 105, 106, 107, 108, 109, 110, 111, 112, 113, 114, 115,
    116, 117, 118, 119, 120, 121, 122,
];

/// The digits.
pub const NUMBER: [u8; 10] = [48, 49, 50, 51, 52, 53, 54, 55, 56, 57];

/// The symbols `~!@#$%^&*()_-+=`.
pub const SYMBOL: [u8; 15] = [126, 33, 64, 35, 36, 37, 94, 38, 42, 40, 41, 95, 45, 43, 61];

/// Why no password could be handed out.
#[derive(Debug, Clone, Copy, PartialEq, Eq, Structural)]
pub enum GenPassError {
    /// The operating system handed out no seed for the generator.
    RandomSourceFailure,
    /// The bytes drawn do not make up text. Bytes of the four classes
    /// always do.
    NotText,
}

pub open spec fn is_upper(b: u8) -> bool {
    65 <= b <= 90
}

pub open spec fn is_lower(b: u8) -> bool {
    97 <= b <= 122
}

pub open spec fn is_number(b: u8) -> bool {
    48 <= b <= 57
}

pub open spec fn is_symbol(b: u8) -> bool {
    b == 126 || b == 33 || b == 64 || b == 35 || b == 36 || b == 37 || b == 94 || b == 38 || b
        == 42 || b == 40 || b == 41 || b == 95 || b == 45 || b == 43 || b == 61
}

/// Whether `b` belongs to one of the classes that are not switched off.
pub open spec fn allowed(
    b: u8,
    no_upper: bool,
    no_lower: bool,
    no_number: bool,
    no_symbol: bool,
) -> bool {
    (!no_upper && is_upper(b)) || (!no_lower && is_lower(b)) || (!no_number && is_number(b)) || (
    !no_symbol && is_symbol(b))
}

/// The number of classes that are not switched off.
pub open spec fn class_count(no_upper: bool, no_lower: bool, no_number: bool, no_symbol: bool) -> nat {
    let upper: nat = if no_upper { 0 } else { 1 };
    let lower: nat = if no_lower { 0 } else { 1 };
    let number: nat = if no_number { 0 } else { 1 };
    let symbol: nat = if no_symbol { 0 } else { 1 };
    upper + lower + number + symbol
}

/// The lengths a password can have under the given switches: one character
/// for each class at least, and none at all where every class is off.
pub open spec fn length_fits(
    len: u8,
    no_upper: bool,
    no_lower: bool,
    no_number: bool,
    no_symbol: bool,
) -> bool {
    let classes = class_count(no_upper, no_lower, no_number, no_symbol);
    classes <= len && (classes == 0 ==> len == 0)
}

/// What holds of every password: its length, that each byte comes from a
/// class that is not switched off, and that each such class occurs.
pub open spec fn is_password(
    bytes: Seq<u8>,
    len: u8,
    no_upper: bool,
    no_lower: bool,
    no_number: bool,
    no_symbol: bool,
) -> bool {
    &&& bytes.len() == len
    &&& forall|i: int|
        0 <= i < bytes.len() ==> allowed(#[trigger] bytes[i], no_upper, no_lower, no_number, no_symbol)
    &&& !no_upper ==> exists|i: int| 0 <= i < bytes.len() && is_upper(#[trigger] bytes[i])
    &&& !no_lower ==> exists|i: int| 0 <= i < bytes.len() && is_lower(#[trigger] bytes[i])
    &&& !no_number ==> exists|i: int| 0 <= i < bytes.len() && is_number(#[trigger] bytes[i])
    &&& !no_symbol ==> exists|i: int| 0 <= i < bytes.len() && is_symbol(#[trigger] bytes[i])
}

/// Makes `rand::Error` known: the error of the random source is carried
/// through and never looked into.
#[verifier::external_type_specification]
#[verifier::external_body]
pub struct ExRandError(rand::Error);

/// Makes `rand::rngs::StdRng` known: the generator is handed from call to
/// call and never looked into.
#[verifier::external_type_specification]
#[verifier::external_body]
pub struct ExStdRng(rand::rngs::StdRng);

/// Calls `SeedableRng::from_rng` of `rand::rngs::StdRng` on
/// `rand::rngs::OsRng`: a generator seeded by the operating system, which
/// asks it for nothing more afterwards. Nothing is said of when the seeding
/// fails.
#[verifier::external_body]
fn seeded_rng() -> Result<rand::rngs::StdRng, rand::Error> {
    <rand::rngs::StdRng as rand::SeedableRng>::from_rng(rand::rngs::OsRng)
}

/// Calls `SliceRandom::choose` of `rand` on the pool. Trusted: it returns
/// one of the pool's elements, and nothing only where the pool is empty.
#[verifier::external_body]
fn choose_byte(pool: &[u8], rng: &mut rand::rngs::StdRng) -> (picked: Option<u8>)
    ensures
        picked is Some <==> pool@.len() > 0,
        picked matches Some(b) ==> pool@.contains(b),
{
    rand::seq::SliceRandom::choose(pool, rng).copied()
}

/// Calls `SliceRandom::shuffle` of `rand` on the bytes. Trusted: it
/// rearranges them: each value occurs as often after the call as before.
#[verifier::external_body]
fn shuffle_bytes(bytes: &mut Vec<u8>, rng: &mut rand::rngs::StdRng)
    ensures
        final(bytes)@.to_multiset() == old(bytes)@.to_multiset(),
{
    rand::seq::SliceRandom::shuffle(bytes.as_mut_slice(), rng);
}

/// What occurs before a rearrangement occurs after it.
proof fn lemma_shuffled_contains(before: Seq<u8>, after: Seq<u8>, b: u8)
    requires
        before.to_multiset() == after.to_multiset(),
        before.contains(b),
    ensures
        after.contains(b),
{
    before.to_multiset_ensures();
    after.to_multiset_ensures();
    assert(before.to_multiset().count(b) > 0);
    assert(after.to_multiset().count(b) > 0);
}

/// Draws the bytes of a password from the generator `rng`: one from each
/// class that is not switched off, the rest from all of those classes
/// together, then all shuffled.
pub fn draw_password(
    rng: &mut rand::rngs::StdRng,
    len: u8,
    no_upper: bool,
    no_lower: bool,
    no_number: bool,
    no_symbol: bool,
) -> (password: Vec<u8>)
    requires
        length_fits(len, no_upper, no_lower, no_number, no_symbol),
    ensures
        is_password(password@, len, no_upper, no_lower, no_number, no_symbol),
{
    let mut chars: Vec<u8> = Vec::new();
    let mut password: Vec<u8> = Vec::new();
    let ghost mut upper_at: int = 0;
    let ghost mut lower_at: int = 0;
    let ghost mut number_at: int = 0;
    let ghost mut symbol_at: int = 0;
    if !no_upper {
        let pool = UPPER;
        assert(forall|j: int| 0 <= j < 26 ==> is_upper(#[trigger] pool@[j]));
        chars.extend_from_slice(pool.as_slice());
        let c = choose_byte(pool.as_slice(), rng).unwrap();
        proof {
            upper_at = password@.len() as int;
        }
        password.push(c);
    }
    if !no_lower {
        let pool = LOWER;
        assert(forall|j: int| 0 <= j < 26 ==> is_lower(#[trigger] pool@[j]));
        chars.extend_from_slice(pool.as_slice());
        let c = choose_byte(pool.as_slice(), rng).unwrap();
        proof {
            lower_at = password@.len() as int;
        }
        password.push(c);
    }
    if !no_number {
        let pool = NUMBER;
        assert(forall|j: int| 0 <= j < 10 ==> is_number(#[trigger] pool@[j]));
        chars.extend_from_slice(pool.as_slice());
        let c = choose_byte(pool.as_slice(), rng).unwrap();
        proof {
            number_at = password@.len() as int;
        }
        password.push(c);
    }
    if !no_symbol {
        let pool = SYMBOL;
        assert(forall|j: int| 0 <= j < 15 ==> is_symbol(#[trigger] pool@[j]));
        chars.extend_from_slice(pool.as_slice());
        let c = choose_byte(pool.as_slice(), rng).unwrap();
        proof {
            symbol_at = password@.len() as int;
        }
        password.push(c);
    }
    assert(password@.len() == class_count(no_upper, no_lower, no_number, no_symbol));
    while password.len() < len as usize
        invariant
            password@.len() <= len,
            password@.len() < len ==> chars@.len() > 0,
            forall|j: int|
                0 <= j < chars@.len() ==> allowed(
                    #[trigger] chars@[j],
                    no_upper,
                    no_lower,
                    no_number,
                    no_symbol,
                ),
            forall|j: int|
                0 <= j < password@.len() ==> allowed(
                    #[trigger] password@[j],
                    no_upper,
                    no_lower,
                    no_number,
                    no_symbol,
                ),
            !no_upper ==> 0 <= upper_at < password@.len() && is_upper(password@[upper_at]),
            !no_lower ==> 0 <= lower_at < password@.len() && is_lower(password@[lower_at]),
            !no_number ==> 0 <= number_at < password@.len() && is_number(password@[number_at]),
            !no_symbol ==> 0 <= symbol_at < password@.len() && is_symbol(password@[symbol_at]),
        decreases len - password@.len(),
    {
        let c = choose_byte(chars.as_slice(), rng).unwrap();
        password.push(c);
    }
    let ghost drawn = password@;
    shuffle_bytes(&mut password, rng);
    proof {
        drawn.to_multiset_ensures();
        password@.to_multiset_ensures();
        assert forall|i: int| 0 <= i < password@.len() implies allowed(
            #[trigger] password@[i],
            no_upper,
            no_lower,
            no_number,
            no_symbol,
        ) by {
            lemma_shuffled_contains(password@, drawn, password@[i]);
        }
        if !no_upper {
            lemma_shuffled_contains(drawn, password@, drawn[upper_at]);
        }
        if !no_lower {
            lemma_shuffled_contains(drawn, password@, drawn[lower_at]);
        }
        if !no_number {
            lemma_shuffled_contains(drawn, password@, drawn[number_at]);
        }
        if !no_symbol {
            lemma_shuffled_contains(drawn, password@, drawn[symbol_at]);
        }
    }
    password
}

/// Draws the bytes of a password from a generator that the operating
/// system seeds. Fails only where the operating system hands out no seed.
pub fn genpass_bytes(len: u8, no_upper: bool, no_lower: bool, no_number: bool, no_symbol: bool) -> (r:
    Result<Vec<u8>, GenPassError>)
    requires
        length_fits(len, no_upper, no_lower, no_number, no_symbol),
    ensures
        r matches Ok(password) ==> is_password(
            password@,
            len,
            no_upper,
            no_lower,
            no_number,
            no_symbol,
        ),
        r matches Err(e) ==> e == GenPassError::RandomSourceFailure,
{
    match seeded_rng() {
        Ok(rng) => {
            let mut rng = rng;
            Ok(draw_password(&mut rng, len, no_upper, no_lower, no_number, no_symbol))
        },
        Err(_) => Err(GenPassError::RandomSourceFailure),
    }
}

/// The bytes that stand for a text of ASCII characters.
pub open spec fn text_bytes(text: Seq<char>) -> Seq<u8> {
    Seq::new(text.len(), |i: int| text[i] as u8)
}

/// Whether every character of the text is the one its byte stands for.
pub open spec fn ascii_text(text: Seq<char>) -> bool {
    text == ascii_chars(text_bytes(text))
}

/// The text of a password's bytes: the bytes must be UTF-8, and bytes below
/// 128 always are and stand for one character each.
pub fn password_text(bytes: Vec<u8>) -> (r: Result<String, GenPassError>)
    ensures
        r is Ok <==> valid_utf8(bytes@),
        r matches Ok(password) ==> password@ == decode_utf8(bytes@),
        is_ascii_bytes(bytes@) ==> r is Ok,
        r matches Ok(password) ==> is_ascii_bytes(bytes@) ==> password@ == ascii_chars(bytes@)
            && text_bytes(password@) == bytes@,
        r matches Err(e) ==> e == GenPassError::NotText,
{
    proof {
        if is_ascii_bytes(bytes@) {
            lemma_ascii_is_utf8(bytes@);
            assert(text_bytes(ascii_chars(bytes@)) =~= bytes@) by {
                assert forall|i: int| 0 <= i < bytes@.len() implies text_bytes(
                    ascii_chars(bytes@),
                )[i] == bytes@[i] by {
                    assert(bytes@[i] < 128);
                }
            }
        }
    }
    match string_from_utf8(bytes) {
        Ok(password) => Ok(password),
        Err(_) => Err(GenPassError::NotText),
    }
}

/// A random password of `len` characters. Fails only where the operating
/// system hands out no seed for the generator.
pub fn genpass(len: u8, no_upper: bool, no_lower: bool, no_number: bool, no_symbol: bool) -> (r:
    Result<String, GenPassError>)
    requires
        length_fits(len, no_upper, no_lower, no_number, no_symbol),
    ensures
        r matches Ok(password) ==> is_password(
            text_bytes(password@),
            len,
            no_upper,
            no_lower,
            no_number,
            no_symbol,
        ) && ascii_text(password@),
        r matches Err(e) ==> e == GenPassError::RandomSourceFailure,
{
    match genpass_bytes(len, no_upper, no_lower, no_number, no_symbol) {
        Ok(bytes) => {
            proof {
                assert(is_ascii_bytes(bytes@)) by {
                    assert forall|i: int| 0 <= i < bytes@.len() implies #[trigger] bytes@[i]
                        < 128 by {
                        assert(allowed(bytes@[i], no_upper, no_lower, no_number, no_symbol));
                    }
                }
            }
            password_text(bytes)
        },
        Err(e) => Err(e),
    }
}

} // verus!

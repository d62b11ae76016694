//! What every lookup service adapter shares: postal-code normalization and
//! the classification of HTTP status codes into the error taxonomy.
use vstd::prelude::*;
use vstd::string::StrSliceExecFns;
use vstd::string::StringExecFns;

pub mod cepla;

pub use cepla::Address;

use crate::error::Error;
use crate::error::Kind;
use crate::error::Source;

verus! {

/// A decimal digit, as postal codes are made of.
pub open spec fn is_cep_digit(c: char) -> bool {
    '0' <= c && c <= '9'
}

/// Every character of the sequence is a decimal digit.
pub open spec fn all_cep_digits(s: Seq<char>) -> bool {
    forall|i: int| 0 <= i < s.len() ==> is_cep_digit(s[i])
}

/// The canonical eight-digit form of a postal code, if the input has one:
/// either eight bare digits, or eight digits with a hyphen after the fifth.
pub open spec fn canonical_cep(s: Seq<char>) -> Option<Seq<char>> {
    if s.len() == 8 && all_cep_digits(s) {
        Some(s)
    } else if s.len() == 9 && s[5] == '-' && all_cep_digits(s.subrange(0, 5)) && all_cep_digits(
        s.subrange(6, 9),
    ) {
        Some(s.subrange(0, 5) + s.subrange(6, 9))
    } else {
        None
    }
}

/// Whether `c` is a decimal digit.
fn is_digit_char(c: char) -> (r: bool)
    ensures
        r == is_cep_digit(c),
{
    let u = c as u32;
    48 <= u && u <= 57
}

/// Whether the characters of `s` in `[from, to)` are all decimal digits.
fn all_digits_range(s: &str, from: usize, to: usize) -> (r: bool)
    requires
        from <= to <= s@.len(),
    ensures
        r == all_cep_digits(s@.subrange(from as int, to as int)),
{
    let mut i: usize = from;
    while i < to
        invariant
            from <= i <= to <= s@.len(),
            forall|j: int| from <= j < i ==> is_cep_digit(s@[j]),
        decreases to - i,
    {
        if !is_digit_char(s.get_char(i)) {
            assert(!is_cep_digit(s@.subrange(from as int, to as int)[i - from]));
            return false;
        }
        i += 1;
    }
    assert forall|k: int| 0 <= k < to - from implies is_cep_digit(
        s@.subrange(from as int, to as int)[k],
    ) by {
        assert(s@.subrange(from as int, to as int)[k] == s@[from + k]);
    }
    true
}

/// Puts a postal code into its canonical eight-digit form: eight bare digits
/// pass through, a hyphen after the fifth digit is dropped, and anything else
/// is rejected.
pub fn normalize_cep(code: &str) -> (r: Option<String>)
    ensures
        r is Some <==> canonical_cep(code@) is Some,
        r matches Some(t) ==> canonical_cep(code@) == Some(t@),
{
    let n = code.unicode_len();
    if n == 8 {
        if all_digits_range(code, 0, 8) {
            proof {
                assert(code@.subrange(0, 8) =~= code@);
            }
            Some(code.to_owned())
        } else {
            None
        }
    } else if n == 9 {
        if code.get_char(5) == '-' && all_digits_range(code, 0, 5) && all_digits_range(
            code,
            6,
            9,
        ) {
            let head = code.substring_char(0, 5);
            let tail = code.substring_char(6, 9);
            let mut out = head.to_owned();
            out.append(tail);
            Some(out)
        } else {
            None
        }
    } else {
        None
    }
}

/// Hyphen tolerance: an eight-digit code and the same code written with a
/// hyphen after its fifth digit have the same canonical form, so both spell
/// the same lookup.
pub proof fn lemma_hyphen_tolerant(bare: Seq<char>, hyphenated: Seq<char>)
    requires
        bare.len() == 8,
        all_cep_digits(bare),
        hyphenated == bare.subrange(0, 5) + seq!['-'] + bare.subrange(5, 8),
    ensures
        canonical_cep(bare) == Some(bare),
        canonical_cep(hyphenated) == Some(bare),
{
    assert(hyphenated.len() == 9);
    assert(hyphenated[5] == '-');
    assert(hyphenated.subrange(0, 5) =~= bare.subrange(0, 5));
    assert(hyphenated.subrange(6, 9) =~= bare.subrange(5, 8));
    assert forall|i: int| 0 <= i < 5 implies is_cep_digit(hyphenated.subrange(0, 5)[i]) by {
        assert(hyphenated.subrange(0, 5)[i] == bare[i]);
    }
    assert forall|i: int| 0 <= i < 3 implies is_cep_digit(hyphenated.subrange(6, 9)[i]) by {
        assert(hyphenated.subrange(6, 9)[i] == bare[5 + i]);
    }
    assert(hyphenated.subrange(0, 5) + hyphenated.subrange(6, 9) =~= bare);
}

/// The error kind, if any, that an HTTP status code is classified into:
/// none for a 2xx success, a client error for 4xx, a server error for 5xx,
/// and the unknown-status kind for everything outside those bands.
pub open spec fn status_kind(code: u32) -> Option<Kind> {
    if 200 <= code <= 299 {
        None
    } else if 400 <= code <= 499 {
        Some(Kind::ClientError { code: code as u16 })
    } else if 500 <= code <= 599 {
        Some(Kind::ServerError { code: code as u16 })
    } else {
        Some(Kind::UnknownServerError { code: (code % 0x10000) as u16 })
    }
}

/// Classifies an HTTP status code on behalf of the service named by `source`:
/// a 2xx status is accepted, anything else becomes a classified error
/// carrying that source.
pub fn classify_status(source: Source, code: u32) -> (r: Option<Error>)
    ensures
        status_kind(code) is None ==> r is None,
        status_kind(code) matches Some(k) ==> r == Some(Error { kind: k, source }),
{
    if 200 <= code && code <= 299 {
        None
    } else if 400 <= code && code <= 499 {
        Some(Error { kind: Kind::ClientError { code: code as u16 }, source })
    } else if 500 <= code && code <= 599 {
        Some(Error { kind: Kind::ServerError { code: code as u16 }, source })
    } else {
        Some(Error { kind: Kind::UnknownServerError { code: (code % 0x10000) as u16 }, source })
    }
}

/// Builds the classified error for a response body that could not be decoded:
/// it carries the decoder's message and the body text, or a placeholder when
/// the body itself is not readable as text.
pub fn body_parsing_error(source: Source, error: String, body: Option<String>) -> (r: Error)
    ensures
        r.source == source,
        r.kind matches Kind::BodyParsingError { error: er, body: bo } && er == error && (
        body matches Some(b) ==> bo == b) && (body is None ==> bo@
            == "Failed to produce string body "@),
{
    match body {
        Some(b) => Error { kind: Kind::BodyParsingError { error, body: b }, source },
        None => Error {
            kind: Kind::BodyParsingError { error, body: "Failed to produce string body ".to_owned() },
            source,
        },
    }
}

} // verus!

//! Error taxonomy: every failure the library reports carries the component
//! that raised it and a classified kind, and can be rendered as a string.
use vstd::prelude::*;
use vstd::string::StringExecFns;

verus! {

/// The component that raised an error: one of the lookup services, or the
/// library's own dispatch/aggregation machinery.
#[derive(Clone, Copy, PartialEq, Eq, Structural, Debug)]
pub enum Source {
    Viacep,
    Cepla,
    Correios,
    LagoinhaLib,
}

/// The classified failure kinds. Every provider failure is sorted into one of
/// these; the composite variant is produced only by the aggregator, when every
/// provider has failed.
#[derive(PartialEq, Eq, Debug)]
pub enum Kind {
    UnexpectedLibraryError,
    MissingBodyError,
    ClientError { code: u16 },
    ServerError { code: u16 },
    UnknownServerError { code: u16 },
    BodyParsingError { error: String, body: String },
    AllServicesRetunedErrors { errors: Vec<String> },
}

/// A failure value: a classified kind together with the component it came from.
#[derive(PartialEq, Eq, Debug)]
pub struct Error {
    pub kind: Kind,
    pub source: Source,
}

/// The character for one decimal digit.
pub open spec fn digit_char(d: nat) -> char {
    if d == 0 {
        '0'
    } else if d == 1 {
        '1'
    } else if d == 2 {
        '2'
    } else if d == 3 {
        '3'
    } else if d == 4 {
        '4'
    } else if d == 5 {
        '5'
    } else if d == 6 {
        '6'
    } else if d == 7 {
        '7'
    } else if d == 8 {
        '8'
    } else {
        '9'
    }
}

/// Decimal rendering of a natural number, most significant digit first.
pub open spec fn dec_seq(n: nat) -> Seq<char>
    decreases n,
{
    if n < 10 {
        seq![digit_char(n)]
    } else {
        dec_seq(n / 10).push(digit_char(n % 10))
    }
}

/// The name under which a source appears in rendered error strings.
pub open spec fn source_desc(s: Source) -> Seq<char> {
    match s {
        Source::Viacep => "viacep"@,
        Source::Cepla => "cepla"@,
        Source::Correios => "correios"@,
        Source::LagoinhaLib => "lagoinha library"@,
    }
}

/// The rendering of a failure kind.
pub open spec fn kind_desc(k: Kind) -> Seq<char> {
    match k {
        Kind::UnexpectedLibraryError => "unexpected library error"@,
        Kind::MissingBodyError => "response body could not be read"@,
        Kind::ClientError { code } => "client error with http status "@ + dec_seq(code as nat),
        Kind::ServerError { code } => "server error with http status "@ + dec_seq(code as nat),
        Kind::UnknownServerError { code } => "unrecognized http status "@ + dec_seq(code as nat),
        Kind::BodyParsingError { error, body } => "could not parse response body: "@ + error@
            + " with body: "@ + body@,
        Kind::AllServicesRetunedErrors { .. } => "all services returned errors"@,
    }
}

/// The full rendering of an error: its source, then its classified kind.
pub open spec fn error_desc(e: Error) -> Seq<char> {
    source_desc(e.source) + ": "@ + kind_desc(e.kind)
}

/// The name under which a source appears in rendered error strings.
pub fn source_name(s: Source) -> (r: &'static str)
    ensures
        r@ == source_desc(s),
{
    match s {
        Source::Viacep => "viacep",
        Source::Cepla => "cepla",
        Source::Correios => "correios",
        Source::LagoinhaLib => "lagoinha library",
    }
}

/// Appends the decimal rendering of `n` to `out`.
fn push_decimal(out: &mut String, n: u16)
    ensures
        final(out)@ == old(out)@ + dec_seq(n as nat),
    decreases n,
{
    if n >= 10 {
        push_decimal(out, n / 10);
    }
    let d = n % 10;
    let ds: &str = match d {
        0 => {
            proof {
                reveal_strlit("0");
            }
            "0"
        },
        1 => {
            proof {
                reveal_strlit("1");
            }
            "1"
        },
        2 => {
            proof {
                reveal_strlit("2");
            }
            "2"
        },
        3 => {
            proof {
                reveal_strlit("3");
            }
            "3"
        },
        4 => {
            proof {
                reveal_strlit("4");
            }
            "4"
        },
        5 => {
            proof {
                reveal_strlit("5");
            }
            "5"
        },
        6 => {
            proof {
                reveal_strlit("6");
            }
            "6"
        },
        7 => {
            proof {
                reveal_strlit("7");
            }
            "7"
        },
        8 => {
            proof {
                reveal_strlit("8");
            }
            "8"
        },
        _ => {
            proof {
                reveal_strlit("9");
            }
            "9"
        },
    };
    proof {
        assert(ds@ =~= seq![digit_char(d as nat)]);
        if n >= 10 {
            assert(dec_seq(n as nat) =~= dec_seq((n / 10) as nat) + seq![digit_char(d as nat)]);
        } else {
            assert(dec_seq(n as nat) =~= seq![digit_char(d as nat)]);
        }
    }
    out.append(ds);
}

/// Renders an error as a human-readable string; this is the representation
/// that the aggregator embeds in its composite failure.
pub fn describe(e: &Error) -> (r: String)
    ensures
        r@ == error_desc(*e),
{
    let mut r = String::new();
    r.append(source_name(e.source));
    r.append(": ");
    match &e.kind {
        Kind::UnexpectedLibraryError => {
            r.append("unexpected library error");
        },
        Kind::MissingBodyError => {
            r.append("response body could not be read");
        },
        Kind::ClientError { code } => {
            r.append("client error with http status ");
            push_decimal(&mut r, *code);
        },
        Kind::ServerError { code } => {
            r.append("server error with http status ");
            push_decimal(&mut r, *code);
        },
        Kind::UnknownServerError { code } => {
            r.append("unrecognized http status ");
            push_decimal(&mut r, *code);
        },
        Kind::BodyParsingError { error, body } => {
            r.append("could not parse response body: ");
            r.append(error.as_str());
            r.append(" with body: ");
            r.append(body.as_str());
        },
        Kind::AllServicesRetunedErrors { .. } => {
            r.append("all services returned errors");
        },
    }
    r
}

} // verus!

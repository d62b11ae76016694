//! Resolves a Brazilian postal code (CEP) to an address by racing several
//! independent lookup services and keeping the first usable answer: any
//! success wins over any number of failures, and when every service fails the
//! caller gets one composite error that embeds each individual failure.
use vstd::prelude::*;

pub mod error;
pub mod services;

use error::Error;
use error::Kind;
use error::Source;
use error::describe;
use error::error_desc;
use services::Address;

verus! {

/// One observation of the result channel: a provider's message, or nothing
/// pending on a poll where a message was expected.
pub open spec fn is_success(m: Option<Result<Address, Error>>) -> bool {
    m matches Some(Ok(_))
}

/// Some slot of the observed sequence holds a successful lookup.
pub open spec fn has_success(s: Seq<Option<Result<Address, Error>>>) -> bool {
    exists|i: int| 0 <= i < s.len() && is_success(s[i])
}

/// Slot `i` holds the first success of the observed sequence.
pub open spec fn first_success_at(s: Seq<Option<Result<Address, Error>>>, i: int) -> bool {
    &&& 0 <= i < s.len()
    &&& is_success(s[i])
    &&& forall|j: int| 0 <= j < i ==> !is_success(s[j])
}

/// The error recorded for a slot whose provider never delivered a message.
pub open spec fn internal_error() -> Error {
    Error { kind: Kind::UnexpectedLibraryError, source: Source::LagoinhaLib }
}

/// The failure description recorded for one observed slot: the provider's own
/// failure, or the internal placeholder for a slot that stayed empty.
pub open spec fn slot_desc(m: Option<Result<Address, Error>>) -> Seq<char> {
    match m {
        Some(Err(e)) => error_desc(e),
        _ => error_desc(internal_error()),
    }
}

/// The failure descriptions of every observed slot, in observation order.
pub open spec fn failure_descs(s: Seq<Option<Result<Address, Error>>>) -> Seq<Seq<char>> {
    Seq::new(s.len(), |i: int| slot_desc(s[i]))
}

/// `r` is the composite all-services-failed error for the observed sequence
/// `s`: raised by the library itself, embedding one failure description per
/// slot, in order.
pub open spec fn is_composite_failure(
    r: Result<Address, Error>,
    s: Seq<Option<Result<Address, Error>>>,
) -> bool {
    &&& r matches Err(e) && e.source == Source::LagoinhaLib && (e.kind matches
        Kind::AllServicesRetunedErrors { errors } && errors.deep_view() == failure_descs(s))
}

/// The aggregation contract over an observed message sequence: any success
/// wins, and the one delivered is the first observed; with no success at all,
/// the result is the composite error over every slot's failure.
pub open spec fn aggregation_post(
    r: Result<Address, Error>,
    s: Seq<Option<Result<Address, Error>>>,
) -> bool {
    &&& has_success(s) ==> (r matches Ok(a) && exists|i: int|
        first_success_at(s, i) && s[i] == Some(Ok::<Address, Error>(a)))
    &&& !has_success(s) ==> is_composite_failure(r, s)
}

/// Decides the outcome of one lookup from the messages observed on the
/// channel, one slot per configured provider: the first success anywhere in
/// the sequence is returned; otherwise every slot's failure (or an internal
/// placeholder for a slot that never produced a message) is embedded in one
/// composite error.
pub fn aggregate_outcomes(outcomes: &Vec<Option<Result<Address, Error>>>) -> (r: Result<
    Address,
    Error,
>)
    requires
        outcomes@.len() > 0,
    ensures
        aggregation_post(r, outcomes@),
{
    let n = outcomes.len();
    let mut descs: Vec<String> = Vec::new();
    let mut i: usize = 0;
    while i < n
        invariant
            n == outcomes@.len(),
            0 <= i <= n,
            forall|j: int| 0 <= j < i ==> !is_success(outcomes@[j]),
            descs@.len() == i,
            forall|j: int| 0 <= j < i ==> descs@[j]@ == slot_desc(outcomes@[j]),
        decreases n - i,
    {
        match &outcomes[i] {
            Some(Ok(a)) => {
                let found = a.clone();
                proof {
                    assert(first_success_at(outcomes@, i as int));
                    assert(outcomes@[i as int] == Some(Ok::<Address, Error>(found)));
                }
                return Ok(found);
            },
            Some(Err(e)) => {
                descs.push(describe(e));
            },
            None => {
                let missing = Error {
                    kind: Kind::UnexpectedLibraryError,
                    source: Source::LagoinhaLib,
                };
                descs.push(describe(&missing));
            },
        }
        i += 1;
    }
    proof {
        assert(!has_success(outcomes@));
        assert(descs.deep_view() =~~= failure_descs(outcomes@));
    }
    Err(
        Error {
            source: Source::LagoinhaLib,
            kind: Kind::AllServicesRetunedErrors { errors: descs },
        },
    )
}

#[verifier::external_type_specification]
#[verifier::external_body]
#[verifier::reject_recursive_types(T)]
pub struct ExReceiver<T>(futures::channel::mpsc::Receiver<T>);

/// Relies on futures' bounded mpsc `Receiver::try_recv`: a queued message if
/// one is pending, and nothing when the channel is empty or closed. What
/// comes back depends on the concurrent senders, so nothing is promised of
/// the outcome; the caller states what holds whichever way it went.
#[verifier::external_body]
fn poll_message(rx: &mut futures::channel::mpsc::Receiver<Result<Address, Error>>) -> Option<
    Result<Address, Error>,
> {
    match rx.try_recv() {
        Ok(message) => Some(message),
        Err(_) => None,
    }
}

/// Drains the result channel of one lookup, polling once per expected
/// provider message: the first success observed is returned at once and the
/// rest are abandoned; failures and empty polls are recorded, and when no
/// poll yields a success the composite error over all of them is returned.
/// Whatever the channel delivered, the result is consistent with the
/// aggregation contract for some observed sequence of that length.
pub fn aggregate(
    rx: &mut futures::channel::mpsc::Receiver<Result<Address, Error>>,
    expected: usize,
) -> (r: Result<Address, Error>)
    requires
        expected > 0,
    ensures
        exists|s: Seq<Option<Result<Address, Error>>>|
            s.len() == expected as int && aggregation_post(r, s),
        r matches Err(e) ==> e.source == Source::LagoinhaLib && (e.kind matches
            Kind::AllServicesRetunedErrors { errors } && errors.deep_view().len()
            == expected as int),
{
    let mut collected: Vec<Option<Result<Address, Error>>> = Vec::new();
    let mut i: usize = 0;
    while i < expected
        invariant
            0 <= i <= expected,
            collected@.len() == i,
            forall|j: int| 0 <= j < i ==> !is_success(collected@[j]),
        decreases expected - i,
    {
        let message = poll_message(rx);
        match message {
            Some(Ok(found)) => {
                proof {
                    let s = collected@.push(Some(Ok::<Address, Error>(found))) + Seq::new(
                        (expected - i - 1) as nat,
                        |k: int| None::<Result<Address, Error>>,
                    );
                    assert(s.len() == expected as int);
                    assert(s[i as int] == Some(Ok::<Address, Error>(found)));
                    assert(first_success_at(s, i as int));
                    assert(aggregation_post(Ok(found), s));
                }
                return Ok(found);
            },
            Some(Err(e)) => {
                collected.push(Some(Err(e)));
            },
            None => {
                collected.push(None);
            },
        }
        i += 1;
    }
    let r = aggregate_outcomes(&collected);
    r
}

/// Success strictly dominates failure: whenever any slot of the observed
/// sequence holds a success, a result that meets the aggregation contract is
/// a success, no matter how many failures came before or after it.
pub proof fn lemma_success_dominates(
    r: Result<Address, Error>,
    s: Seq<Option<Result<Address, Error>>>,
    i: int,
)
    requires
        aggregation_post(r, s),
        0 <= i < s.len(),
        is_success(s[i]),
    ensures
        r is Ok,
{
    assert(has_success(s));
}

/// When every provider failed, the result is the composite error and its
/// embedded descriptions correspond one-to-one, in order, with each slot's
/// failure.
pub proof fn lemma_all_failures_composite(
    r: Result<Address, Error>,
    s: Seq<Option<Result<Address, Error>>>,
)
    requires
        aggregation_post(r, s),
        forall|i: int| 0 <= i < s.len() ==> !is_success(s[i]),
    ensures
        is_composite_failure(r, s),
        r matches Err(e) && (e.kind matches Kind::AllServicesRetunedErrors { errors }
            && errors.deep_view().len() == s.len() && forall|i: int|
            0 <= i < s.len() ==> errors.deep_view()[i] == slot_desc(s[i])),
{
    assert(!has_success(s));
}

/// Aggregation is a function of the observed messages alone: two results that
/// meet the contract for the same sequence deliver the very same address.
pub proof fn lemma_same_outcomes_same_address(
    r1: Result<Address, Error>,
    r2: Result<Address, Error>,
    s: Seq<Option<Result<Address, Error>>>,
)
    requires
        aggregation_post(r1, s),
        aggregation_post(r2, s),
        has_success(s),
    ensures
        r1 is Ok,
        r2 is Ok,
        r1->Ok_0 == r2->Ok_0,
{
    let i1 = choose|i: int| first_success_at(s, i) && s[i] == Some(Ok::<Address, Error>(r1->Ok_0));
    let i2 = choose|i: int| first_success_at(s, i) && s[i] == Some(Ok::<Address, Error>(r2->Ok_0));
    if i1 < i2 {
        assert(!is_success(s[i1]));
    }
    if i2 < i1 {
        assert(!is_success(s[i2]));
    }
    assert(i1 == i2);
}

} // verus!


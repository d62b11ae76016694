use futures::channel::mpsc;
use lagoinha::aggregate;
use lagoinha::aggregate_outcomes;
use lagoinha::error::describe;
use lagoinha::error::Error;
use lagoinha::error::Kind;
use lagoinha::error::Source;
use lagoinha::services::cepla::same_location;
use lagoinha::services::Address;

fn brasilia() -> Address {
    Address {
        cep: "70150903".to_string(),
        state: "DF".to_string(),
        city: "Brasília".to_string(),
        neighborhood: "Zona Cívico-Administrativa".to_string(),
        address: "SPP".to_string(),
        details: "".to_string(),
    }
}

fn not_found(source: Source) -> Error {
    Error {
        kind: Kind::ClientError { code: 404 },
        source,
    }
}

#[test]
fn success_dominates_failures() {
    let outcomes = vec![
        Some(Err(not_found(Source::Viacep))),
        Some(Ok(brasilia())),
        Some(Err(Error {
            kind: Kind::MissingBodyError,
            source: Source::Correios,
        })),
    ];
    let r = aggregate_outcomes(&outcomes).unwrap();
    assert!(same_location(&r, &brasilia()));
    assert_eq!(r, brasilia());
}

#[test]
fn success_dominates_in_any_arrival_order() {
    let orders: Vec<Vec<Option<Result<Address, Error>>>> = vec![
        vec![
            Some(Ok(brasilia())),
            Some(Err(not_found(Source::Viacep))),
            Some(Err(not_found(Source::Correios))),
        ],
        vec![
            Some(Err(not_found(Source::Viacep))),
            Some(Ok(brasilia())),
            Some(Err(not_found(Source::Correios))),
        ],
        vec![
            Some(Err(not_found(Source::Viacep))),
            Some(Err(not_found(Source::Correios))),
            Some(Ok(brasilia())),
        ],
    ];
    for outcomes in orders {
        let r = aggregate_outcomes(&outcomes).unwrap();
        assert_eq!(r, brasilia());
    }
}

#[test]
fn first_observed_success_wins() {
    let mut elsewhere = brasilia();
    elsewhere.city = "Taguatinga".to_string();
    let outcomes = vec![
        Some(Err(not_found(Source::Viacep))),
        Some(Ok(elsewhere.clone())),
        Some(Ok(brasilia())),
    ];
    let r = aggregate_outcomes(&outcomes).unwrap();
    assert_eq!(r, elsewhere);
}

#[test]
fn all_failures_yield_composite_error() {
    let e1 = not_found(Source::Viacep);
    let e2 = Error {
        kind: Kind::ServerError { code: 503 },
        source: Source::Cepla,
    };
    let e3 = Error {
        kind: Kind::BodyParsingError {
            error: "expected value".to_string(),
            body: "<html>".to_string(),
        },
        source: Source::Correios,
    };
    let outcomes = vec![
        Some(Err(not_found(Source::Viacep))),
        Some(Err(Error {
            kind: Kind::ServerError { code: 503 },
            source: Source::Cepla,
        })),
        Some(Err(Error {
            kind: Kind::BodyParsingError {
                error: "expected value".to_string(),
                body: "<html>".to_string(),
            },
            source: Source::Correios,
        })),
    ];
    let err = aggregate_outcomes(&outcomes).unwrap_err();
    assert_eq!(err.source, Source::LagoinhaLib);
    match err.kind {
        Kind::AllServicesRetunedErrors { errors } => {
            assert_eq!(errors, vec![describe(&e1), describe(&e2), describe(&e3)]);
        }
        other => panic!("expected the composite kind, got {:?}", other),
    }
}

#[test]
fn missing_slot_gets_internal_placeholder() {
    let e1 = not_found(Source::Viacep);
    let outcomes = vec![Some(Err(not_found(Source::Viacep))), None, None];
    let err = aggregate_outcomes(&outcomes).unwrap_err();
    assert_eq!(err.source, Source::LagoinhaLib);
    match err.kind {
        Kind::AllServicesRetunedErrors { errors } => {
            assert_eq!(errors.len(), 3);
            assert_eq!(errors[0], describe(&e1));
            assert_eq!(errors[1], "lagoinha library: unexpected library error");
            assert_eq!(errors[2], "lagoinha library: unexpected library error");
        }
        other => panic!("expected the composite kind, got {:?}", other),
    }
}

#[test]
fn equal_outcomes_give_equal_results() {
    let build = || {
        vec![
            Some(Err(not_found(Source::Viacep))),
            Some(Ok(brasilia())),
            Some(Err(not_found(Source::Correios))),
        ]
    };
    let first = aggregate_outcomes(&build()).unwrap();
    let second = aggregate_outcomes(&build()).unwrap();
    assert_eq!(first, second);
    assert!(same_location(&first, &second));
}

#[test]
fn channel_success_is_delivered() {
    let (mut tx, mut rx) = mpsc::channel::<Result<Address, Error>>(8);
    tx.try_send(Ok(brasilia())).unwrap();
    let r = aggregate(&mut rx, 3).unwrap();
    assert_eq!(r.city, "Brasília");
    assert_eq!(r.state, "DF");
    assert_eq!(r.neighborhood, "Zona Cívico-Administrativa");
}

#[test]
fn channel_failures_then_success_yield_the_success() {
    let (mut tx, mut rx) = mpsc::channel::<Result<Address, Error>>(8);
    tx.try_send(Err(not_found(Source::Viacep))).unwrap();
    tx.try_send(Err(not_found(Source::Cepla))).unwrap();
    tx.try_send(Ok(brasilia())).unwrap();
    let r = aggregate(&mut rx, 3).unwrap();
    assert_eq!(r, brasilia());
}

#[test]
fn channel_all_failures_yield_composite() {
    let (mut tx, mut rx) = mpsc::channel::<Result<Address, Error>>(8);
    tx.try_send(Err(not_found(Source::Viacep))).unwrap();
    tx.try_send(Err(not_found(Source::Cepla))).unwrap();
    tx.try_send(Err(not_found(Source::Correios))).unwrap();
    let err = aggregate(&mut rx, 3).unwrap_err();
    assert_eq!(err.source, Source::LagoinhaLib);
    match err.kind {
        Kind::AllServicesRetunedErrors { errors } => {
            assert_eq!(errors.len(), 3);
            assert_eq!(errors[0], describe(&not_found(Source::Viacep)));
        }
        other => panic!("expected the composite kind, got {:?}", other),
    }
}

#[test]
fn channel_empty_polls_become_internal_errors() {
    let (_tx, mut rx) = mpsc::channel::<Result<Address, Error>>(8);
    let err = aggregate(&mut rx, 3).unwrap_err();
    assert_eq!(err.source, Source::LagoinhaLib);
    match err.kind {
        Kind::AllServicesRetunedErrors { errors } => {
            assert_eq!(
                errors,
                vec![
                    "lagoinha library: unexpected library error".to_string(),
                    "lagoinha library: unexpected library error".to_string(),
                    "lagoinha library: unexpected library error".to_string(),
                ]
            );
        }
        other => panic!("expected the composite kind, got {:?}", other),
    }
}

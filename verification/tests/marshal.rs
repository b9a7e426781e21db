use duckex::{
    civil_to_epoch_micros, convert_params, term_to_value, value_to_string, value_to_term,
    ParamKind, Term, TimeUnit, Value,
};

fn date_map(year: i64, month: i64, day: i64) -> Term {
    Term::Mapping(vec![
        (
            "__struct__".to_string(),
            Term::Atom("Elixir.Date".to_string()),
        ),
        ("year".to_string(), Term::Int(year)),
        ("month".to_string(), Term::Int(month)),
        ("day".to_string(), Term::Int(day)),
    ])
}

fn datetime_map(fields: [i64; 6], micro: i64) -> Term {
    Term::Mapping(vec![
        (
            "__struct__".to_string(),
            Term::Atom("Elixir.DateTime".to_string()),
        ),
        ("year".to_string(), Term::Int(fields[0])),
        ("month".to_string(), Term::Int(fields[1])),
        ("day".to_string(), Term::Int(fields[2])),
        ("hour".to_string(), Term::Int(fields[3])),
        ("minute".to_string(), Term::Int(fields[4])),
        ("second".to_string(), Term::Int(fields[5])),
        (
            "microsecond".to_string(),
            Term::Tuple(vec![Term::Int(micro), Term::Int(6)]),
        ),
    ])
}

#[test]
fn epoch_start_is_zero() {
    assert_eq!(civil_to_epoch_micros(1970, 1, 1, 0, 0, 0, 0), 0);
}

#[test]
fn leap_year_february_is_counted() {
    // 2000-03-01T00:00:00Z is 951_868_800 seconds after the epoch; a 28-day
    // February would land one day short.
    assert_eq!(
        civil_to_epoch_micros(2000, 3, 1, 0, 0, 0, 0),
        951_868_800_000_000
    );
    assert_eq!(
        civil_to_epoch_micros(2000, 3, 1, 12, 30, 45, 123_456),
        951_913_845_123_456
    );
}

#[test]
fn scalar_terms_bind_directly() {
    assert_eq!(term_to_value(&Term::Int(42)), Ok(Value::BigInt(42)));
    let bits = (4.25f64).to_bits();
    assert_eq!(term_to_value(&Term::Float(bits)), Ok(Value::Double(bits)));
    assert_eq!(
        term_to_value(&Term::Text("hi".to_string())),
        Ok(Value::Text("hi".to_string()))
    );
    assert_eq!(term_to_value(&Term::Bool(true)), Ok(Value::Boolean(true)));
    assert_eq!(term_to_value(&Term::Nil), Ok(Value::Null));
}

#[test]
fn date_record_becomes_padded_text() {
    assert_eq!(
        term_to_value(&date_map(2024, 1, 5)),
        Ok(Value::Text("2024-01-05".to_string()))
    );
    assert_eq!(
        term_to_value(&date_map(850, 12, 31)),
        Ok(Value::Text("0850-12-31".to_string()))
    );
}

#[test]
fn date_text_is_total_over_the_fields() {
    // the calendar-date path only formats, so even out-of-calendar fields
    // become text, as a host date structure can never carry them anyway
    assert_eq!(
        term_to_value(&date_map(-5, 1, 2)),
        Ok(Value::Text("-005-01-02".to_string()))
    );
}

#[test]
fn repeated_map_keys_resolve_to_the_last_entry() {
    let t = Term::Mapping(vec![
        (
            "__struct__".to_string(),
            Term::Atom("Elixir.Date".to_string()),
        ),
        ("year".to_string(), Term::Int(2023)),
        ("year".to_string(), Term::Int(2024)),
        ("month".to_string(), Term::Int(2)),
        ("day".to_string(), Term::Int(9)),
    ]);
    assert_eq!(term_to_value(&t), Ok(Value::Text("2024-02-09".to_string())));
}

#[test]
fn datetime_record_becomes_epoch_micros() {
    assert_eq!(
        term_to_value(&datetime_map([2000, 3, 1, 0, 0, 0], 0)),
        Ok(Value::Timestamp(TimeUnit::Microsecond, 951_868_800_000_000))
    );
    assert_eq!(
        term_to_value(&datetime_map([1970, 1, 1, 0, 0, 0], 7)),
        Ok(Value::Timestamp(TimeUnit::Microsecond, 7))
    );
}

#[test]
fn malformed_records_are_rejected_as_maps() {
    // missing day
    let t = Term::Mapping(vec![
        (
            "__struct__".to_string(),
            Term::Atom("Elixir.Date".to_string()),
        ),
        ("year".to_string(), Term::Int(2024)),
        ("month".to_string(), Term::Int(1)),
    ]);
    assert_eq!(term_to_value(&t).unwrap_err().kind, ParamKind::Mapping);
    // month out of the calendar's range
    assert_eq!(
        term_to_value(&datetime_map([2024, 13, 1, 0, 0, 0], 0))
            .unwrap_err()
            .kind,
        ParamKind::Mapping
    );
    // years before the epoch are outside the timestamp conversion's domain
    assert_eq!(
        term_to_value(&datetime_map([1969, 12, 31, 23, 59, 59], 0))
            .unwrap_err()
            .kind,
        ParamKind::Mapping
    );
    // unknown record module
    let t = Term::Mapping(vec![(
        "__struct__".to_string(),
        Term::Atom("Elixir.Time".to_string()),
    )]);
    assert_eq!(term_to_value(&t).unwrap_err().kind, ParamKind::Mapping);
    // plain map without a record tag
    let t = Term::Mapping(vec![("a".to_string(), Term::Int(1))]);
    assert_eq!(term_to_value(&t).unwrap_err().kind, ParamKind::Mapping);
}

#[test]
fn rejected_categories_carry_their_messages() {
    let cases = [
        (Term::List(vec![Term::Int(1)]), ParamKind::List, "list (not yet supported)"),
        (Term::Tuple(vec![]), ParamKind::Tuple, "tuple (not supported)"),
        (Term::Atom("foo".to_string()), ParamKind::Atom, "atom (not nil)"),
        (
            Term::Binary(vec![0xff]),
            ParamKind::Binary,
            "binary (failed to decode as string)",
        ),
        (
            Term::BigNumber,
            ParamKind::Number,
            "number (but failed to decode as i64 or f64)",
        ),
        (Term::Other, ParamKind::Unknown, "unknown type"),
    ];
    for (term, kind, detail) in cases {
        let err = term_to_value(&term).unwrap_err();
        assert_eq!(err.kind, kind);
        assert_eq!(
            err.message(),
            format!("Unsupported parameter type: {}", detail)
        );
    }
}

#[test]
fn first_bad_parameter_aborts_the_batch() {
    let params = vec![
        Term::Int(1),
        Term::List(vec![Term::Int(2)]),
        Term::Other,
    ];
    let err = convert_params(&params).unwrap_err();
    assert_eq!(err.kind, ParamKind::List);

    let good = vec![Term::Int(7), Term::Nil];
    assert_eq!(
        convert_params(&good),
        Ok(vec![Value::BigInt(7), Value::Null])
    );
}

#[test]
fn scalar_cells_round_trip_through_the_host() {
    // integer 42 -> dynamic 42 -> BigInt(42)
    let t = value_to_term(&Value::Int(42));
    assert_eq!(t, Term::Int(42));
    assert_eq!(term_to_value(&t), Ok(Value::BigInt(42)));

    let bits = (1.5f64).to_bits();
    let t = value_to_term(&Value::Double(bits));
    assert_eq!(term_to_value(&t), Ok(Value::Double(bits)));

    let t = value_to_term(&Value::Text("x".to_string()));
    assert_eq!(term_to_value(&t), Ok(Value::Text("x".to_string())));

    let t = value_to_term(&Value::Boolean(false));
    assert_eq!(term_to_value(&t), Ok(Value::Boolean(false)));

    let t = value_to_term(&Value::Null);
    assert_eq!(term_to_value(&t), Ok(Value::Null));
}

#[test]
fn integer_widths_normalize_to_host_integers() {
    assert_eq!(value_to_term(&Value::TinyInt(-5)), Term::Int(-5));
    assert_eq!(value_to_term(&Value::SmallInt(300)), Term::Int(300));
    assert_eq!(value_to_term(&Value::UInt(7)), Term::Int(7));
    // the unsigned 64-bit width narrows into the signed range
    assert_eq!(value_to_term(&Value::UBigInt(u64::MAX)), Term::Int(-1));
    assert_eq!(
        value_to_term(&Value::UBigInt(i64::MAX as u64)),
        Term::Int(i64::MAX)
    );
}

#[test]
fn temporal_cells_become_microsecond_integers() {
    assert_eq!(
        value_to_term(&Value::Timestamp(TimeUnit::Second, 5)),
        Term::Int(5_000_000)
    );
    assert_eq!(
        value_to_term(&Value::Timestamp(TimeUnit::Millisecond, 7)),
        Term::Int(7_000)
    );
    assert_eq!(
        value_to_term(&Value::Time64(TimeUnit::Nanosecond, 1500)),
        Term::Int(1)
    );
    assert_eq!(
        value_to_term(&Value::Time64(TimeUnit::Nanosecond, -1500)),
        Term::Int(-1)
    );
    // dates stay raw day offsets
    assert_eq!(value_to_term(&Value::Date32(19000)), Term::Int(19000));
}

#[test]
fn blobs_become_base64_text() {
    let engine = base64::engine::general_purpose::STANDARD;
    let expected = base64::Engine::encode(&engine, [1u8, 2, 3]);
    assert_eq!(expected, "AQID");
    assert_eq!(
        value_to_term(&Value::Blob(vec![1, 2, 3])),
        Term::Text("AQID".to_string())
    );
    assert_eq!(value_to_term(&Value::Blob(vec![])), Term::Text(String::new()));
}

#[test]
fn containers_convert_recursively() {
    let v = Value::List(vec![Value::Int(1), Value::Text("a".to_string())]);
    assert_eq!(
        value_to_term(&v),
        Term::List(vec![Term::Int(1), Term::Text("a".to_string())])
    );

    let v = Value::Struct(vec![
        ("x".to_string(), Value::Int(7)),
        ("y".to_string(), Value::Null),
    ]);
    assert_eq!(
        value_to_term(&v),
        Term::List(vec![
            Term::Tuple(vec![Term::Text("x".to_string()), Term::Int(7)]),
            Term::Tuple(vec![Term::Text("y".to_string()), Term::Nil]),
        ])
    );

    let v = Value::Mapping(vec![
        (Value::Text("k".to_string()), Value::Int(1)),
        (Value::Int(5), Value::Boolean(true)),
    ]);
    assert_eq!(
        value_to_term(&v),
        Term::List(vec![
            Term::Tuple(vec![Term::Text("k".to_string()), Term::Int(1)]),
            Term::Tuple(vec![Term::Text("Int(5)".to_string()), Term::Bool(true)]),
        ])
    );

    let v = Value::Array(vec![Value::List(vec![Value::Int(2)])]);
    assert_eq!(
        value_to_term(&v),
        Term::List(vec![Term::List(vec![Term::Int(2)])])
    );

    // the union discriminant is discarded
    let v = Value::Union(Box::new(Value::Text("inner".to_string())));
    assert_eq!(value_to_term(&v), Term::Text("inner".to_string()));

    let v = Value::Enum("red".to_string());
    assert_eq!(value_to_term(&v), Term::Text("red".to_string()));

    let v = Value::Other("Decimal(1.5)".to_string());
    assert_eq!(value_to_term(&v), Term::Text("Decimal(1.5)".to_string()));
}

#[test]
fn map_keys_reduce_to_text() {
    assert_eq!(
        value_to_string(&Value::Text("k".to_string())),
        "k".to_string()
    );
    assert_eq!(value_to_string(&Value::Blob(vec![1, 2, 3])), "AQID");
    assert_eq!(value_to_string(&Value::Null), "Null");
    assert_eq!(value_to_string(&Value::Boolean(true)), "Boolean(true)");
    assert_eq!(value_to_string(&Value::BigInt(-7)), "BigInt(-7)");
    assert_eq!(value_to_string(&Value::UBigInt(0)), "UBigInt(0)");
    assert_eq!(
        value_to_string(&Value::Timestamp(TimeUnit::Microsecond, 42)),
        "Timestamp(Microsecond, 42)"
    );
    assert_eq!(value_to_string(&Value::Enum("red".to_string())), "Enum(red)");
    assert_eq!(value_to_string(&Value::List(vec![])), "List");
}

use vstd::prelude::*;
use vstd::string::StringExecFns;

use crate::b64::{base64_encode, base64_of};
use crate::calendar::{civil_to_epoch_micros, spec_civil_to_epoch_micros};
use crate::render::{
    date_string, i64_to_string, spec_date_string, spec_decimal_digits, spec_signed_decimal,
    u64_to_string,
};
use crate::term::{
    lemma_terms_model, map_get, spec_map_get, terms_model, term_model, Term, TermModel,
};
use crate::value::{spec_to_micros, TimeUnit, Value};

verus! {

/// The structural category of a host value that could not be bound as a
/// statement parameter.
#[derive(Clone, Copy, PartialEq, Eq, Structural, Debug)]
pub enum ParamKind {
    Number,
    Mapping,
    List,
    Atom,
    Binary,
    Tuple,
    Unknown,
}

/// A rejected bound parameter, carrying the structural category that was
/// detected so the caller can diagnose which shape was refused.
#[derive(Clone, Copy, PartialEq, Eq, Structural, Debug)]
pub struct ParamError {
    pub kind: ParamKind,
}

/// The description of each rejected structural category.
pub open spec fn spec_param_kind_text(k: ParamKind) -> Seq<char> {
    match k {
        ParamKind::Number => "number (but failed to decode as i64 or f64)"@,
        ParamKind::Mapping => "map (unsupported structure)"@,
        ParamKind::List => "list (not yet supported)"@,
        ParamKind::Atom => "atom (not nil)"@,
        ParamKind::Binary => "binary (failed to decode as string)"@,
        ParamKind::Tuple => "tuple (not supported)"@,
        ParamKind::Unknown => "unknown type"@,
    }
}

/// The full error text reported for a rejected parameter.
pub open spec fn spec_param_error_message(k: ParamKind) -> Seq<char> {
    "Unsupported parameter type: "@ + spec_param_kind_text(k)
}

impl ParamError {
    /// The descriptive error text, naming the rejected structural category.
    pub fn message(&self) -> (r: String)
        ensures
            r@ == spec_param_error_message(self.kind),
    {
        let prefix = String::from_str("Unsupported parameter type: ");
        match self.kind {
            ParamKind::Number => prefix.concat("number (but failed to decode as i64 or f64)"),
            ParamKind::Mapping => prefix.concat("map (unsupported structure)"),
            ParamKind::List => prefix.concat("list (not yet supported)"),
            ParamKind::Atom => prefix.concat("atom (not nil)"),
            ParamKind::Binary => prefix.concat("binary (failed to decode as string)"),
            ParamKind::Tuple => prefix.concat("tuple (not supported)"),
            ParamKind::Unknown => prefix.concat("unknown type"),
        }
    }
}

/// The mathematical shape of a bindable engine value, as the host-to-engine
/// direction produces it.
pub enum ParamModel {
    Null,
    Boolean(bool),
    BigInt(i64),
    Double(u64),
    Text(Seq<char>),
    TimestampMicros(i64),
}

/// The model of an engine value of a bindable kind; `None` for the kinds
/// that cannot be bound as parameters.
pub open spec fn param_model(v: Value) -> Option<ParamModel> {
    match v {
        Value::Null => Some(ParamModel::Null),
        Value::Boolean(b) => Some(ParamModel::Boolean(b)),
        Value::BigInt(i) => Some(ParamModel::BigInt(i)),
        Value::Double(bits) => Some(ParamModel::Double(bits)),
        Value::Text(s) => Some(ParamModel::Text(s@)),
        Value::Timestamp(TimeUnit::Microsecond, v) => Some(ParamModel::TimestampMicros(v)),
        _ => None,
    }
}

/// Decode a map entry as a signed 32-bit integer, as a host integer decode
/// would: an integer term within range, nothing else.
pub open spec fn spec_decode_i32(o: Option<TermModel>) -> Option<i32> {
    match o {
        Some(TermModel::Int(i)) => if i32::MIN <= i <= i32::MAX {
            Some(i as i32)
        } else {
            None
        },
        _ => None,
    }
}

/// Decode a map entry as an unsigned 32-bit integer.
pub open spec fn spec_decode_u32(o: Option<TermModel>) -> Option<u32> {
    match o {
        Some(TermModel::Int(i)) => if 0 <= i <= u32::MAX {
            Some(i as u32)
        } else {
            None
        },
        _ => None,
    }
}

/// Decode a map entry as a (value, precision) pair: a two-element tuple of an
/// integer and an unsigned 32-bit integer, keeping the value.
pub open spec fn spec_decode_micro_pair(o: Option<TermModel>) -> Option<i64> {
    match o {
        Some(TermModel::Tuple(items)) => if items.len() == 2 {
            match (items[0], items[1]) {
                (TermModel::Int(v), TermModel::Int(p)) => if 0 <= p <= u32::MAX {
                    Some(v)
                } else {
                    None
                },
                _ => None,
            }
        } else {
            None
        },
        _ => None,
    }
}

/// The civil date fields of a recognized calendar-date record.
pub open spec fn spec_civil_date(entries: Seq<(Seq<char>, TermModel)>) -> Option<(i32, u32, u32)> {
    let y = spec_decode_i32(spec_map_get(entries, "year"@));
    let m = spec_decode_u32(spec_map_get(entries, "month"@));
    let d = spec_decode_u32(spec_map_get(entries, "day"@));
    if y is Some && m is Some && d is Some {
        Some((y.unwrap(), m.unwrap(), d.unwrap()))
    } else {
        None
    }
}

/// The civil fields of a recognized timestamp record: date, time of day, and
/// the microsecond taken from its (value, precision) pair.
pub open spec fn spec_civil_datetime(entries: Seq<(Seq<char>, TermModel)>) -> Option<
    (i32, u32, u32, u32, u32, u32, i64),
> {
    let date = spec_civil_date(entries);
    let h = spec_decode_u32(spec_map_get(entries, "hour"@));
    let mi = spec_decode_u32(spec_map_get(entries, "minute"@));
    let se = spec_decode_u32(spec_map_get(entries, "second"@));
    let us = spec_decode_micro_pair(spec_map_get(entries, "microsecond"@));
    if date is Some && h is Some && mi is Some && se is Some && us is Some {
        let (y, mo, d) = date.unwrap();
        Some((y, mo, d, h.unwrap(), mi.unwrap(), se.unwrap(), us.unwrap()))
    } else {
        None
    }
}

/// The civil field ranges the calendar conversion supports: from the epoch
/// year to 9999, valid month, day, and time-of-day fields, and a sub-second
/// microsecond. Fields outside these ranges are rejected as an unsupported
/// map rather than converted.
pub open spec fn spec_civil_in_range(
    y: int,
    mo: int,
    d: int,
    h: int,
    mi: int,
    se: int,
    us: int,
) -> bool {
    &&& 1970 <= y <= 9999
    &&& 1 <= mo <= 12
    &&& 1 <= d <= 31
    &&& h <= 23
    &&& mi <= 59
    &&& se <= 59
    &&& 0 <= us <= 999_999
}

/// What the host-to-engine direction yields for one host value: the model of
/// the engine value it binds, or the structural category it rejects.
///
/// Dispatch order, first match wins: a map is recognized as a calendar-date
/// record (becoming zero-padded date text), as a civil-timestamp record
/// (becoming epoch microseconds), or rejected; integral numerics widen to
/// signed 64-bit; other numerics become 64-bit floats; then text, booleans
/// and the null sentinel; every remaining shape is rejected with its
/// category.
pub open spec fn spec_term_to_value(t: TermModel) -> Result<ParamModel, ParamKind> {
    match t {
        TermModel::Mapping(entries) => match spec_map_get(entries, "__struct__"@) {
            Some(TermModel::Atom(module)) => if module == "Elixir.Date"@ {
                match spec_civil_date(entries) {
                    Some((y, mo, d)) => Ok(
                        ParamModel::Text(spec_date_string(y as int, mo as int, d as int)),
                    ),
                    None => Err(ParamKind::Mapping),
                }
            } else if module == "Elixir.DateTime"@ {
                match spec_civil_datetime(entries) {
                    Some((y, mo, d, h, mi, se, us)) => if spec_civil_in_range(
                        y as int,
                        mo as int,
                        d as int,
                        h as int,
                        mi as int,
                        se as int,
                        us as int,
                    ) {
                        Ok(
                            ParamModel::TimestampMicros(
                                spec_civil_to_epoch_micros(
                                    y as int,
                                    mo as int,
                                    d as int,
                                    h as int,
                                    mi as int,
                                    se as int,
                                    us as int,
                                ) as i64,
                            ),
                        )
                    } else {
                        Err(ParamKind::Mapping)
                    },
                    None => Err(ParamKind::Mapping),
                }
            } else {
                Err(ParamKind::Mapping)
            },
            _ => Err(ParamKind::Mapping),
        },
        TermModel::Int(i) => Ok(ParamModel::BigInt(i)),
        TermModel::Float(bits) => Ok(ParamModel::Double(bits)),
        TermModel::BigNumber => Err(ParamKind::Number),
        TermModel::Text(s) => Ok(ParamModel::Text(s)),
        TermModel::Bool(b) => Ok(ParamModel::Boolean(b)),
        TermModel::Nil => Ok(ParamModel::Null),
        TermModel::Atom(_) => Err(ParamKind::Atom),
        TermModel::List(_) => Err(ParamKind::List),
        TermModel::Binary(_) => Err(ParamKind::Binary),
        TermModel::Tuple(_) => Err(ParamKind::Tuple),
        TermModel::Other => Err(ParamKind::Unknown),
    }
}

/// The model of an optional borrowed term.
pub open spec fn opt_term_model(o: Option<&Term>) -> Option<TermModel> {
    match o {
        Some(t) => Some(term_model(*t)),
        None => None,
    }
}

/// Decode an optional term as a signed 32-bit integer.
fn decode_i32(o: Option<&Term>) -> (r: Option<i32>)
    ensures
        r == spec_decode_i32(opt_term_model(o)),
{
    match o {
        Some(t) => match t {
            Term::Int(i) => {
                if i32::MIN as i64 <= *i && *i <= i32::MAX as i64 {
                    Some(*i as i32)
                } else {
                    None
                }
            },
            _ => None,
        },
        None => None,
    }
}

/// Decode an optional term as an unsigned 32-bit integer.
fn decode_u32(o: Option<&Term>) -> (r: Option<u32>)
    ensures
        r == spec_decode_u32(opt_term_model(o)),
{
    match o {
        Some(t) => match t {
            Term::Int(i) => {
                if 0i64 <= *i && *i <= u32::MAX as i64 {
                    Some(*i as u32)
                } else {
                    None
                }
            },
            _ => None,
        },
        None => None,
    }
}

/// Decode an optional term as a (value, precision) pair, keeping the value.
fn decode_micro_pair(o: Option<&Term>) -> (r: Option<i64>)
    ensures
        r == spec_decode_micro_pair(opt_term_model(o)),
{
    match o {
        Some(t) => match t {
            Term::Tuple(items) => {
                proof {
                    lemma_terms_model(items@);
                }
                if items.len() == 2 {
                    let v = match &items[0] {
                        Term::Int(v) => Some(*v),
                        _ => None,
                    };
                    let p = match &items[1] {
                        Term::Int(p) => {
                            if 0i64 <= *p && *p <= u32::MAX as i64 {
                                Some(*p)
                            } else {
                                None
                            }
                        },
                        _ => None,
                    };
                    if v.is_some() && p.is_some() {
                        v
                    } else {
                        None
                    }
                } else {
                    None
                }
            },
            _ => None,
        },
        None => None,
    }
}

/// Convert one dynamic host value into the engine value it binds, or reject
/// it with the structural category that was detected.
pub fn term_to_value(t: &Term) -> (r: Result<Value, ParamError>)
    ensures
        match spec_term_to_value(t@) {
            Ok(m) => r matches Ok(v) && param_model(v) == Some(m),
            Err(k) => r matches Err(e) && e.kind == k,
        },
{
    match t {
        Term::Mapping(entries) => {
            let struct_key = String::from_str("__struct__");
            let module = match map_get(entries, &struct_key) {
                Some(m) => match m {
                    Term::Atom(name) => Some(name),
                    _ => None,
                },
                None => None,
            };
            let module = match module {
                Some(name) => name,
                None => {
                    return Err(ParamError { kind: ParamKind::Mapping });
                },
            };
            let date_module = String::from_str("Elixir.Date");
            let datetime_module = String::from_str("Elixir.DateTime");
            if module.eq(&date_module) {
                let year_key = String::from_str("year");
                let month_key = String::from_str("month");
                let day_key = String::from_str("day");
                let y = decode_i32(map_get(entries, &year_key));
                let mo = decode_u32(map_get(entries, &month_key));
                let d = decode_u32(map_get(entries, &day_key));
                if let (Some(y), Some(mo), Some(d)) = (y, mo, d) {
                    Ok(Value::Text(date_string(y, mo, d)))
                } else {
                    Err(ParamError { kind: ParamKind::Mapping })
                }
            } else if module.eq(&datetime_module) {
                let year_key = String::from_str("year");
                let month_key = String::from_str("month");
                let day_key = String::from_str("day");
                let hour_key = String::from_str("hour");
                let minute_key = String::from_str("minute");
                let second_key = String::from_str("second");
                let micro_key = String::from_str("microsecond");
                let y = decode_i32(map_get(entries, &year_key));
                let mo = decode_u32(map_get(entries, &month_key));
                let d = decode_u32(map_get(entries, &day_key));
                let h = decode_u32(map_get(entries, &hour_key));
                let mi = decode_u32(map_get(entries, &minute_key));
                let se = decode_u32(map_get(entries, &second_key));
                let us = decode_micro_pair(map_get(entries, &micro_key));
                if let (Some(y), Some(mo), Some(d), Some(h), Some(mi), Some(se), Some(us)) = (
                    y,
                    mo,
                    d,
                    h,
                    mi,
                    se,
                    us,
                ) {
                    if 1970 <= y && y <= 9999 && 1 <= mo && mo <= 12 && 1 <= d && d <= 31 && h
                        <= 23 && mi <= 59 && se <= 59 && 0 <= us && us <= 999_999 {
                        let micros = civil_to_epoch_micros(y, mo, d, h, mi, se, us);
                        Ok(Value::Timestamp(TimeUnit::Microsecond, micros))
                    } else {
                        Err(ParamError { kind: ParamKind::Mapping })
                    }
                } else {
                    Err(ParamError { kind: ParamKind::Mapping })
                }
            } else {
                Err(ParamError { kind: ParamKind::Mapping })
            }
        },
        Term::Int(i) => Ok(Value::BigInt(*i)),
        Term::Float(bits) => Ok(Value::Double(*bits)),
        Term::BigNumber => Err(ParamError { kind: ParamKind::Number }),
        Term::Text(s) => Ok(Value::Text(s.clone())),
        Term::Bool(b) => Ok(Value::Boolean(*b)),
        Term::Nil => Ok(Value::Null),
        Term::Atom(_) => Err(ParamError { kind: ParamKind::Atom }),
        Term::List(_) => Err(ParamError { kind: ParamKind::List }),
        Term::Binary(_) => Err(ParamError { kind: ParamKind::Binary }),
        Term::Tuple(_) => Err(ParamError { kind: ParamKind::Tuple }),
        Term::Other => Err(ParamError { kind: ParamKind::Unknown }),
    }
}

/// Convert bound parameters left to right, stopping at the first host value
/// that cannot be bound; on failure the reported category is that of the
/// first offending parameter.
pub fn convert_params(params: &Vec<Term>) -> (r: Result<Vec<Value>, ParamError>)
    ensures
        match r {
            Ok(vals) => {
                &&& vals@.len() == params@.len()
                &&& forall|i: int|
                    0 <= i < params@.len() ==> {
                        &&& (#[trigger] spec_term_to_value(params@[i]@)) is Ok
                        &&& param_model(vals@[i]) == Some(spec_term_to_value(params@[i]@)->Ok_0)
                    }
            },
            Err(e) => exists|i: int|
                {
                    &&& 0 <= i < params@.len()
                    &&& (#[trigger] spec_term_to_value(params@[i]@)) is Err
                    &&& e.kind == spec_term_to_value(params@[i]@)->Err_0
                    &&& forall|j: int| 0 <= j < i ==> spec_term_to_value(params@[j]@) is Ok
                },
        },
{
    let mut out: Vec<Value> = Vec::new();
    let mut idx: usize = 0;
    while idx < params.len()
        invariant
            idx <= params@.len(),
            out@.len() == idx,
            forall|i: int|
                0 <= i < idx ==> {
                    &&& (#[trigger] spec_term_to_value(params@[i]@)) is Ok
                    &&& param_model(out@[i]) == Some(spec_term_to_value(params@[i]@)->Ok_0)
                },
        decreases params@.len() - idx,
    {
        match term_to_value(&params[idx]) {
            Ok(v) => {
                out.push(v);
            },
            Err(e) => {
                proof {
                    let wi = idx as int;
                    assert(exists|i: int|
                        {
                            &&& 0 <= i < params@.len()
                            &&& (#[trigger] spec_term_to_value(params@[i]@)) is Err
                            &&& e.kind == spec_term_to_value(params@[i]@)->Err_0
                            &&& forall|j: int|
                                0 <= j < i ==> spec_term_to_value(params@[j]@) is Ok
                        }) by {
                        assert(0 <= wi < params@.len());
                        assert(spec_term_to_value(params@[wi]@) is Err);
                        assert(forall|j: int|
                            0 <= j < wi ==> spec_term_to_value(params@[j]@) is Ok);
                    }
                }
                return Err(e);
            },
        }
        idx = idx + 1;
    }
    Ok(out)
}

/// The name of a temporal unit, as its debug rendering gives it.
pub open spec fn spec_time_unit_text(u: TimeUnit) -> Seq<char> {
    match u {
        TimeUnit::Second => "Second"@,
        TimeUnit::Millisecond => "Millisecond"@,
        TimeUnit::Microsecond => "Microsecond"@,
        TimeUnit::Nanosecond => "Nanosecond"@,
    }
}

/// The text a map key is reduced to before conversion: text passes through,
/// binary data is base64-encoded, and every other kind is rendered as a
/// debug-style fallback string; scalar payloads are written out, container
/// kinds are named.
pub open spec fn spec_value_key_string(v: Value) -> Seq<char> {
    match v {
        Value::Text(s) => s@,
        Value::Blob(b) => base64_of(b@),
        Value::Null => "Null"@,
        Value::Boolean(b) => if b {
            "Boolean(true)"@
        } else {
            "Boolean(false)"@
        },
        Value::TinyInt(i) => "TinyInt("@ + spec_signed_decimal(i as int) + ")"@,
        Value::SmallInt(i) => "SmallInt("@ + spec_signed_decimal(i as int) + ")"@,
        Value::Int(i) => "Int("@ + spec_signed_decimal(i as int) + ")"@,
        Value::BigInt(i) => "BigInt("@ + spec_signed_decimal(i as int) + ")"@,
        Value::UTinyInt(i) => "UTinyInt("@ + spec_decimal_digits(i as int) + ")"@,
        Value::USmallInt(i) => "USmallInt("@ + spec_decimal_digits(i as int) + ")"@,
        Value::UInt(i) => "UInt("@ + spec_decimal_digits(i as int) + ")"@,
        Value::UBigInt(i) => "UBigInt("@ + spec_decimal_digits(i as int) + ")"@,
        Value::Float(_) => "Float"@,
        Value::Double(_) => "Double"@,
        Value::Timestamp(u, n) => "Timestamp("@ + spec_time_unit_text(u) + ", "@
            + spec_signed_decimal(n as int) + ")"@,
        Value::Date32(d) => "Date32("@ + spec_signed_decimal(d as int) + ")"@,
        Value::Time64(u, n) => "Time64("@ + spec_time_unit_text(u) + ", "@ + spec_signed_decimal(
            n as int,
        ) + ")"@,
        Value::List(_) => "List"@,
        Value::Enum(s) => "Enum("@ + s@ + ")"@,
        Value::Struct(_) => "Struct"@,
        Value::Mapping(_) => "Map"@,
        Value::Array(_) => "Array"@,
        Value::Union(_) => "Union"@,
        Value::Other(s) => s@,
    }
}

/// What the engine-to-host direction yields for one engine value. This
/// direction is total: null becomes the null sentinel; booleans and every
/// integer width become host integers, the unsigned 64-bit width truncating
/// into the signed range; floats pass through as 64-bit patterns; temporal
/// values become their microsecond equivalent, except dates, which stay raw
/// day offsets; text passes through; binary data is base64-encoded; lists,
/// arrays, structs and maps become lists, the keyed kinds as (key, value)
/// pairs with keys reduced to text; an enumeration becomes its label; a union
/// loses its discriminant; anything else is its debug-style rendering.
pub open spec fn spec_value_to_term(v: Value) -> TermModel
    decreases v,
{
    match v {
        Value::Null => TermModel::Nil,
        Value::Boolean(b) => TermModel::Bool(b),
        Value::TinyInt(i) => TermModel::Int(i as i64),
        Value::SmallInt(i) => TermModel::Int(i as i64),
        Value::Int(i) => TermModel::Int(i as i64),
        Value::BigInt(i) => TermModel::Int(i),
        Value::UTinyInt(i) => TermModel::Int(i as i64),
        Value::USmallInt(i) => TermModel::Int(i as i64),
        Value::UInt(i) => TermModel::Int(i as i64),
        Value::UBigInt(i) => TermModel::Int(i as i64),
        Value::Float(bits) => TermModel::Float(bits),
        Value::Double(bits) => TermModel::Float(bits),
        Value::Timestamp(u, n) => TermModel::Int(spec_to_micros(u, n)),
        Value::Date32(d) => TermModel::Int(d as i64),
        Value::Text(s) => TermModel::Text(s@),
        Value::Blob(b) => TermModel::Text(base64_of(b@)),
        Value::Time64(u, n) => TermModel::Int(spec_to_micros(u, n)),
        Value::List(items) => TermModel::List(spec_values_to_terms(items@)),
        Value::Enum(s) => TermModel::Text(s@),
        Value::Struct(fields) => TermModel::List(spec_struct_to_terms(fields@)),
        Value::Mapping(pairs) => TermModel::List(spec_mapping_to_terms(pairs@)),
        Value::Array(items) => TermModel::List(spec_values_to_terms(items@)),
        Value::Union(inner) => spec_value_to_term(*inner),
        Value::Other(s) => TermModel::Text(s@),
    }
}

/// The conversions of a sequence of engine values, in order.
pub open spec fn spec_values_to_terms(items: Seq<Value>) -> Seq<TermModel>
    decreases items,
{
    if items.len() == 0 {
        Seq::empty()
    } else {
        spec_values_to_terms(items.drop_last()).push(spec_value_to_term(items.last()))
    }
}

/// The conversions of a struct's fields: (name, converted value) pairs in
/// declared order.
pub open spec fn spec_struct_to_terms(fields: Seq<(String, Value)>) -> Seq<TermModel>
    decreases fields,
{
    if fields.len() == 0 {
        Seq::empty()
    } else {
        spec_struct_to_terms(fields.drop_last()).push(
            TermModel::Tuple(
                seq![
                    TermModel::Text(fields.last().0@),
                    spec_value_to_term(fields.last().1),
                ],
            ),
        )
    }
}

/// The conversions of a map's pairs: keys reduced to text first, values
/// converted recursively.
pub open spec fn spec_mapping_to_terms(pairs: Seq<(Value, Value)>) -> Seq<TermModel>
    decreases pairs,
{
    if pairs.len() == 0 {
        Seq::empty()
    } else {
        spec_mapping_to_terms(pairs.drop_last()).push(
            TermModel::Tuple(
                seq![
                    TermModel::Text(spec_value_key_string(pairs.last().0)),
                    spec_value_to_term(pairs.last().1),
                ],
            ),
        )
    }
}

/// Each position of `spec_values_to_terms` is the conversion of the value at
/// that position.
pub proof fn lemma_spec_values_to_terms(items: Seq<Value>)
    ensures
        spec_values_to_terms(items).len() == items.len(),
        forall|i: int|
            0 <= i < items.len() ==> #[trigger] spec_values_to_terms(items)[i]
                == spec_value_to_term(items[i]),
    decreases items,
{
    if items.len() > 0 {
        lemma_spec_values_to_terms(items.drop_last());
    }
}

/// Each position of `spec_struct_to_terms` pairs the field name with the
/// field's conversion.
pub proof fn lemma_spec_struct_to_terms(fields: Seq<(String, Value)>)
    ensures
        spec_struct_to_terms(fields).len() == fields.len(),
        forall|i: int|
            0 <= i < fields.len() ==> #[trigger] spec_struct_to_terms(fields)[i]
                == TermModel::Tuple(
                seq![TermModel::Text(fields[i].0@), spec_value_to_term(fields[i].1)],
            ),
    decreases fields,
{
    if fields.len() > 0 {
        lemma_spec_struct_to_terms(fields.drop_last());
    }
}

/// Each position of `spec_mapping_to_terms` pairs the reduced key text with
/// the value's conversion.
pub proof fn lemma_spec_mapping_to_terms(pairs: Seq<(Value, Value)>)
    ensures
        spec_mapping_to_terms(pairs).len() == pairs.len(),
        forall|i: int|
            0 <= i < pairs.len() ==> #[trigger] spec_mapping_to_terms(pairs)[i]
                == TermModel::Tuple(
                seq![
                    TermModel::Text(spec_value_key_string(pairs[i].0)),
                    spec_value_to_term(pairs[i].1),
                ],
            ),
    decreases pairs,
{
    if pairs.len() > 0 {
        lemma_spec_mapping_to_terms(pairs.drop_last());
    }
}

/// The name of a temporal unit.
fn time_unit_string(u: &TimeUnit) -> (r: String)
    ensures
        r@ == spec_time_unit_text(*u),
{
    match u {
        TimeUnit::Second => String::from_str("Second"),
        TimeUnit::Millisecond => String::from_str("Millisecond"),
        TimeUnit::Microsecond => String::from_str("Microsecond"),
        TimeUnit::Nanosecond => String::from_str("Nanosecond"),
    }
}

/// Render a scalar's debug-style fallback: the kind's name around the signed
/// payload.
fn named_signed(name: &str, n: i64) -> (r: String)
    ensures
        r@ == name@ + spec_signed_decimal(n as int) + ")"@,
{
    let digits = i64_to_string(n);
    String::from_str(name).concat(digits.as_str()).concat(")")
}

/// Render a scalar's debug-style fallback: the kind's name around the
/// unsigned payload.
fn named_unsigned(name: &str, n: u64) -> (r: String)
    ensures
        r@ == name@ + spec_decimal_digits(n as int) + ")"@,
{
    let digits = u64_to_string(n);
    String::from_str(name).concat(digits.as_str()).concat(")")
}

/// Render a temporal kind's debug-style fallback: the kind's name, the unit,
/// and the magnitude.
fn named_temporal(name: &str, u: &TimeUnit, n: i64) -> (r: String)
    ensures
        r@ == name@ + spec_time_unit_text(*u) + ", "@ + spec_signed_decimal(n as int) + ")"@,
{
    let unit = time_unit_string(u);
    let digits = i64_to_string(n);
    String::from_str(name).concat(unit.as_str()).concat(", ").concat(digits.as_str()).concat(")")
}

/// Reduce a map key to text: text passes through, binary data is
/// base64-encoded, anything else becomes its debug-style fallback string.
pub fn value_to_string(v: &Value) -> (r: String)
    ensures
        r@ == spec_value_key_string(*v),
{
    match v {
        Value::Text(s) => s.clone(),
        Value::Blob(b) => base64_encode(b),
        Value::Null => String::from_str("Null"),
        Value::Boolean(b) => {
            if *b {
                String::from_str("Boolean(true)")
            } else {
                String::from_str("Boolean(false)")
            }
        },
        Value::TinyInt(i) => named_signed("TinyInt(", *i as i64),
        Value::SmallInt(i) => named_signed("SmallInt(", *i as i64),
        Value::Int(i) => named_signed("Int(", *i as i64),
        Value::BigInt(i) => named_signed("BigInt(", *i),
        Value::UTinyInt(i) => named_unsigned("UTinyInt(", *i as u64),
        Value::USmallInt(i) => named_unsigned("USmallInt(", *i as u64),
        Value::UInt(i) => named_unsigned("UInt(", *i as u64),
        Value::UBigInt(i) => named_unsigned("UBigInt(", *i),
        Value::Float(_) => String::from_str("Float"),
        Value::Double(_) => String::from_str("Double"),
        Value::Timestamp(u, n) => named_temporal("Timestamp(", u, *n),
        Value::Date32(d) => named_signed("Date32(", *d as i64),
        Value::Time64(u, n) => named_temporal("Time64(", u, *n),
        Value::List(_) => String::from_str("List"),
        Value::Enum(s) => String::from_str("Enum(").concat(s.as_str()).concat(")"),
        Value::Struct(_) => String::from_str("Struct"),
        Value::Mapping(_) => String::from_str("Map"),
        Value::Array(_) => String::from_str("Array"),
        Value::Union(_) => String::from_str("Union"),
        Value::Other(s) => s.clone(),
    }
}

/// Convert one engine value into its dynamic host representation. This
/// direction is total over the value model: no engine value fails to
/// convert.
pub fn value_to_term(v: &Value) -> (t: Term)
    ensures
        t@ == spec_value_to_term(*v),
    decreases *v,
{
    match v {
        Value::Null => Term::Nil,
        Value::Boolean(b) => Term::Bool(*b),
        Value::TinyInt(i) => Term::Int(*i as i64),
        Value::SmallInt(i) => Term::Int(*i as i64),
        Value::Int(i) => Term::Int(*i as i64),
        Value::BigInt(i) => Term::Int(*i),
        Value::UTinyInt(i) => Term::Int(*i as i64),
        Value::USmallInt(i) => Term::Int(*i as i64),
        Value::UInt(i) => Term::Int(*i as i64),
        Value::UBigInt(i) => Term::Int(#[verifier::truncate] (*i as i64)),
        Value::Float(bits) => Term::Float(*bits),
        Value::Double(bits) => Term::Float(*bits),
        Value::Timestamp(u, n) => Term::Int(u.to_micros(*n)),
        Value::Date32(d) => Term::Int(*d as i64),
        Value::Text(s) => Term::Text(s.clone()),
        Value::Blob(b) => Term::Text(base64_encode(b)),
        Value::Time64(u, n) => Term::Int(u.to_micros(*n)),
        Value::List(items) => Term::List(row_to_terms(items)),
        Value::Enum(s) => Term::Text(s.clone()),
        Value::Struct(fields) => Term::List(struct_to_terms(fields)),
        Value::Mapping(pairs) => Term::List(mapping_to_terms(pairs)),
        Value::Array(items) => Term::List(row_to_terms(items)),
        Value::Union(inner) => value_to_term(&**inner),
        Value::Other(s) => Term::Text(s.clone()),
    }
}

/// Convert a sequence of engine values in order.
pub fn row_to_terms(items: &Vec<Value>) -> (r: Vec<Term>)
    ensures
        terms_model(r@) == spec_values_to_terms(items@),
    decreases *items,
{
    let mut out: Vec<Term> = Vec::new();
    let mut i: usize = 0;
    while i < items.len()
        invariant
            i <= items@.len(),
            out@.len() == i,
            forall|j: int|
                0 <= j < i ==> term_model(#[trigger] out@[j]) == spec_value_to_term(items@[j]),
        decreases items@.len() - i,
    {
        let t = value_to_term(&items[i]);
        out.push(t);
        i = i + 1;
    }
    proof {
        lemma_terms_model(out@);
        lemma_spec_values_to_terms(items@);
        assert(terms_model(out@) =~= spec_values_to_terms(items@));
    }
    out
}

/// Convert a struct's fields into (name, converted value) pairs in declared
/// order.
fn struct_to_terms(fields: &Vec<(String, Value)>) -> (r: Vec<Term>)
    ensures
        terms_model(r@) == spec_struct_to_terms(fields@),
    decreases *fields,
{
    let mut out: Vec<Term> = Vec::new();
    let mut i: usize = 0;
    while i < fields.len()
        invariant
            i <= fields@.len(),
            out@.len() == i,
            forall|j: int|
                0 <= j < i ==> term_model(#[trigger] out@[j]) == TermModel::Tuple(
                    seq![
                        TermModel::Text(fields@[j].0@),
                        spec_value_to_term(fields@[j].1),
                    ],
                ),
        decreases fields@.len() - i,
    {
        let name = fields[i].0.clone();
        let tv = value_to_term(&fields[i].1);
        let mut pair: Vec<Term> = Vec::new();
        pair.push(Term::Text(name));
        pair.push(tv);
        proof {
            lemma_terms_model(pair@);
            assert(terms_model(pair@) =~= seq![
                TermModel::Text(fields@[i as int].0@),
                spec_value_to_term(fields@[i as int].1),
            ]);
        }
        out.push(Term::Tuple(pair));
        i = i + 1;
    }
    proof {
        lemma_terms_model(out@);
        lemma_spec_struct_to_terms(fields@);
        assert(terms_model(out@) =~= spec_struct_to_terms(fields@));
    }
    out
}

/// Convert a map's pairs: each key reduced to text, each value converted.
fn mapping_to_terms(pairs: &Vec<(Value, Value)>) -> (r: Vec<Term>)
    ensures
        terms_model(r@) == spec_mapping_to_terms(pairs@),
    decreases *pairs,
{
    let mut out: Vec<Term> = Vec::new();
    let mut i: usize = 0;
    while i < pairs.len()
        invariant
            i <= pairs@.len(),
            out@.len() == i,
            forall|j: int|
                0 <= j < i ==> term_model(#[trigger] out@[j]) == TermModel::Tuple(
                    seq![
                        TermModel::Text(spec_value_key_string(pairs@[j].0)),
                        spec_value_to_term(pairs@[j].1),
                    ],
                ),
        decreases pairs@.len() - i,
    {
        let key = value_to_string(&pairs[i].0);
        let tv = value_to_term(&pairs[i].1);
        let mut pair: Vec<Term> = Vec::new();
        pair.push(Term::Text(key));
        pair.push(tv);
        proof {
            lemma_terms_model(pair@);
            assert(terms_model(pair@) =~= seq![
                TermModel::Text(spec_value_key_string(pairs@[i as int].0)),
                spec_value_to_term(pairs@[i as int].1),
            ]);
        }
        out.push(Term::Tuple(pair));
        i = i + 1;
    }
    proof {
        lemma_terms_model(out@);
        lemma_spec_mapping_to_terms(pairs@);
        assert(terms_model(out@) =~= spec_mapping_to_terms(pairs@));
    }
    out
}


/// The scalar kinds whose dynamic representation can be fed back as a bound
/// parameter with the engine-observable value preserved.
pub open spec fn spec_scalar_round_trip_kind(v: Value) -> bool {
    match v {
        Value::Null => true,
        Value::Boolean(_) => true,
        Value::TinyInt(_) => true,
        Value::SmallInt(_) => true,
        Value::Int(_) => true,
        Value::BigInt(_) => true,
        Value::UTinyInt(_) => true,
        Value::USmallInt(_) => true,
        Value::UInt(_) => true,
        Value::UBigInt(_) => true,
        Value::Float(_) => true,
        Value::Double(_) => true,
        Value::Text(_) => true,
        _ => false,
    }
}

/// What binding such a scalar's dynamic representation observably yields:
/// integer widths widen to signed 64-bit, the unsigned 64-bit width
/// truncating into the signed range; both float widths arrive as doubles;
/// null, booleans and text return as themselves.
pub open spec fn spec_canonical_param(v: Value) -> ParamModel {
    match v {
        Value::Null => ParamModel::Null,
        Value::Boolean(b) => ParamModel::Boolean(b),
        Value::TinyInt(i) => ParamModel::BigInt(i as i64),
        Value::SmallInt(i) => ParamModel::BigInt(i as i64),
        Value::Int(i) => ParamModel::BigInt(i as i64),
        Value::BigInt(i) => ParamModel::BigInt(i),
        Value::UTinyInt(i) => ParamModel::BigInt(i as i64),
        Value::USmallInt(i) => ParamModel::BigInt(i as i64),
        Value::UInt(i) => ParamModel::BigInt(i as i64),
        Value::UBigInt(i) => ParamModel::BigInt(i as i64),
        Value::Float(bits) => ParamModel::Double(bits),
        Value::Double(bits) => ParamModel::Double(bits),
        Value::Text(s) => ParamModel::Text(s@),
        _ => arbitrary(),
    }
}

/// Round-trip law: for every scalar engine value whose kind can return as a
/// bound parameter, converting it to its dynamic host representation and
/// feeding that representation back through the parameter direction succeeds,
/// and binds exactly the canonical widened form of the original value.
pub proof fn lemma_scalar_round_trip(v: Value)
    requires
        spec_scalar_round_trip_kind(v),
    ensures
        spec_term_to_value(spec_value_to_term(v)) == Ok::<ParamModel, ParamKind>(
            spec_canonical_param(v),
        ),
{
}

} // verus!

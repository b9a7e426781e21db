//! The bridge layer between a managed host runtime's dynamic value model and
//! an embedded analytical database engine's typed value model: a bounded
//! registry that hands out reusable integer handles for validated query
//! text, a recursive bidirectional value-marshalling bridge, and the pure
//! calendar arithmetic the marshaller needs, all with verified contracts.
//! The engine connection itself, and the host runtime's term encoding, live
//! with the caller and hand this library plain values.

use vstd::prelude::*;

mod b64;
mod bridge;
mod cache;
mod calendar;
mod render;
mod session;
mod term;
mod value;

pub use bridge::{
    convert_params, row_to_terms, term_to_value, value_to_string, value_to_term, ParamError,
    ParamKind,
};
pub use cache::Cache;
pub use calendar::{civil_to_epoch_micros, days_in_month, is_leap_year};
pub use render::{date_string, i64_to_string, u64_to_string};
pub use session::{build_result, prepare_result, DuckexResult, Session};
pub use term::{Term, TermModel};
pub use value::{TimeUnit, Value};

verus! {

} // verus!

use vstd::prelude::*;
use vstd::string::StringExecFns;

use crate::bridge::{row_to_terms, spec_values_to_terms};
use crate::cache::Cache;
use crate::term::{terms_model, Term};
use crate::value::Value;

verus! {

/// A column-described result set as it is handed back to the host: column
/// (name, declared type) pairs, converted rows, and the row count.
#[derive(Debug, PartialEq, Eq)]
pub struct DuckexResult {
    pub columns: Vec<Vec<String>>,
    pub rows: Vec<Vec<Term>>,
    pub num_rows: usize,
}

/// Assemble a result set from the engine's column descriptions and rows:
/// every cell is converted to its dynamic host representation, and the row
/// count is the number of rows.
pub fn build_result(columns: Vec<Vec<String>>, rows: Vec<Vec<Value>>) -> (r: DuckexResult)
    ensures
        r.columns == columns,
        r.num_rows == rows@.len(),
        r.rows@.len() == rows@.len(),
        forall|i: int|
            0 <= i < rows@.len() ==> terms_model(#[trigger] r.rows@[i]@) == spec_values_to_terms(
                rows@[i]@,
            ),
{
    let num_rows = rows.len();
    let mut out: Vec<Vec<Term>> = Vec::new();
    let mut i: usize = 0;
    while i < rows.len()
        invariant
            i <= rows@.len(),
            out@.len() == i,
            forall|j: int|
                0 <= j < i ==> terms_model(#[trigger] out@[j]@) == spec_values_to_terms(
                    rows@[j]@,
                ),
        decreases rows@.len() - i,
    {
        let row = row_to_terms(&rows[i]);
        out.push(row);
        i = i + 1;
    }
    DuckexResult { columns, rows: out, num_rows }
}

/// The one-row, one-column result set that reports a freshly prepared
/// statement's handle, shaped like any other result for protocol uniformity.
pub fn prepare_result(handle: u32) -> (r: DuckexResult)
    ensures
        r.num_rows == 1,
        r.columns@.len() == 1,
        r.columns@[0]@.len() == 2,
        r.columns@[0]@[0]@ == "ref"@,
        r.columns@[0]@[1]@ == "UInt32"@,
        r.rows@.len() == 1,
        r.rows@[0]@.len() == 1,
        r.rows@[0]@[0] == Term::Int(handle as i64),
{
    let mut col: Vec<String> = Vec::new();
    col.push(String::from_str("ref"));
    col.push(String::from_str("UInt32"));
    let mut columns: Vec<Vec<String>> = Vec::new();
    columns.push(col);
    let mut row: Vec<Term> = Vec::new();
    row.push(Term::Int(handle as i64));
    let mut rows: Vec<Vec<Term>> = Vec::new();
    rows.push(row);
    DuckexResult { columns, rows, num_rows: 1 }
}

/// The bookkeeping half of a session: the registry of stored query texts,
/// addressed by reusable integer handles. The engine connection itself lives
/// with the caller, which validates query text against the engine before
/// storing it here and re-prepares the stored text on each execution.
pub struct Session {
    queries: Cache<String>,
}

impl View for Session {
    type V = Seq<Option<String>>;

    /// The registry's slot table: `None` marks a free slot.
    closed spec fn view(&self) -> Seq<Option<String>> {
        self.queries@
    }
}

impl Session {
    /// Create a session whose registry has the requested capacity, or 1024
    /// slots when none is given.
    pub fn new(cache_size: Option<usize>) -> (s: Session)
        ensures
            s@.len() == (match cache_size {
                Some(n) => n as int,
                None => 1024int,
            }),
            forall|i: int| 0 <= i < s@.len() ==> s@[i] is None,
    {
        let capacity = match cache_size {
            Some(n) => n,
            None => 1024,
        };
        Session { queries: Cache::with_capacity(capacity) }
    }

    /// Store a query whose text the engine has validated, returning its
    /// handle: the lowest free slot. When every slot is occupied the registry
    /// is left unchanged and the exhaustion is reported; capacity is a hard
    /// ceiling, never grown or evicted.
    pub fn prepare(&mut self, query: String) -> (r: Result<u32, String>)
        requires
            old(self)@.len() <= u32::MAX,
        ensures
            match r {
                Ok(h) => {
                    &&& (h as int) < old(self)@.len()
                    &&& old(self)@[h as int] is None
                    &&& forall|j: int| 0 <= j < h ==> old(self)@[j] is Some
                    &&& final(self)@ == old(self)@.update(h as int, Some(query))
                },
                Err(m) => {
                    &&& final(self)@ == old(self)@
                    &&& forall|j: int| 0 <= j < old(self)@.len() ==> old(self)@[j] is Some
                    &&& m@ == "Exhausted prepared statements cache"@
                },
            },
    {
        match self.queries.store(query) {
            Some(h) => Ok(h as u32),
            None => Err(String::from_str("Exhausted prepared statements cache")),
        }
    }

    /// Resolve a handle to its stored query text; an unknown, never-allocated
    /// or already-released handle reports a stale index.
    pub fn get_query(&self, stmt_id: u32) -> (r: Result<&String, String>)
        ensures
            match r {
                Ok(q) => (stmt_id as int) < self@.len() && self@[stmt_id as int] == Some(*q),
                Err(m) => {
                    &&& m@ == "Invalid cache index"@
                    &&& ((stmt_id as int) >= self@.len() || self@[stmt_id as int] is None)
                },
            },
    {
        match self.queries.get_ref(stmt_id as usize) {
            Some(q) => Ok(q),
            None => Err(String::from_str("Invalid cache index")),
        }
    }

    /// Release a handle's slot. Always succeeds: closing an unknown or
    /// already-released handle is a no-op.
    pub fn close(&mut self, stmt_id: u32) -> (r: String)
        ensures
            r@ == "ok"@,
            (stmt_id as int) < old(self)@.len() ==> final(self)@ == old(self)@.update(
                stmt_id as int,
                None::<String>,
            ),
            (stmt_id as int) >= old(self)@.len() ==> final(self)@ == old(self)@,
    {
        self.queries.remove(stmt_id as usize);
        String::from_str("ok")
    }

    /// Liveness probe: confirms only that the session exists, not that the
    /// underlying connection is healthy.
    pub fn status(&self) -> (r: String)
        ensures
            r@ == "ok"@,
    {
        String::from_str("ok")
    }
}

} // verus!

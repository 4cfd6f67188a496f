//! The statement executor's verified half: resolving a request against the
//! registry, converting the parameter list to the native domain, and
//! shaping the raw rows the backend yields into the boundary result model.
//! The backend call between those two halves is driven by the host.

use vstd::prelude::*;
use vstd::pervasive::VecAdditionalExecFns;

use crate::codec::{boundary_to_native, native_to_boundary};
use crate::error::BridgeError;
use crate::models::{ExecuteResult, NativeValue, QueryResult, Value};
use crate::registry::Registry;

verus! {

/// One row as handed over by the backend: for each column position the
/// reported name (absent where the backend gives none) and the cell's
/// native value (absent where reading the cell failed).
pub struct RawRow {
    pub names: Vec<Option<String>>,
    pub cells: Vec<Option<NativeValue>>,
}

/// The column list a row reports: the names in positional order, skipping
/// positions without a name.
pub open spec fn spec_columns(names: Seq<Option<String>>) -> Seq<String>
    decreases names.len(),
{
    if names.len() == 0 {
        Seq::empty()
    } else {
        let rest = spec_columns(names.drop_last());
        match names.last() {
            Some(s) => rest.push(s),
            None => rest,
        }
    }
}

/// The boundary row a sequence of native cells presents: every present
/// cell converted by the codec, every missing cell a defensive Null in
/// its place — never a failure.
pub open spec fn spec_row(cells: Seq<Option<NativeValue>>) -> Seq<Value> {
    cells.map_values(
        |c: Option<NativeValue>|
            match c {
                Some(n) => native_to_boundary(n),
                None => Value::Null,
            },
    )
}

/// Collects the column names a row reports, in positional order.
fn collect_columns(names: &Vec<Option<String>>) -> (r: Vec<String>)
    ensures
        r@ == spec_columns(names@),
{
    let mut cols: Vec<String> = Vec::new();
    let n = names.len();
    let mut i: usize = 0;
    while i < n
        invariant
            n == names@.len(),
            i <= n,
            cols@ == spec_columns(names@.subrange(0, i as int)),
        decreases n - i,
    {
        match &names[i] {
            Some(s) => cols.push(s.clone()),
            None => {},
        }
        proof {
            assert(names@.subrange(0, (i + 1) as int).drop_last() =~= names@.subrange(0, i as int));
            assert(names@.subrange(0, (i + 1) as int).last() == names@[i as int]);
        }
        i += 1;
    }
    proof {
        assert(names@.subrange(0, n as int) =~= names@);
    }
    cols
}

/// Converts the cells of one raw row into the boundary row it presents.
fn convert_row(cells: Vec<Option<NativeValue>>) -> (r: Vec<Value>)
    ensures
        r@ == spec_row(cells@),
{
    let mut cells = cells;
    let ghost orig = cells@;
    let mut out: Vec<Value> = Vec::new();
    let n = cells.len();
    let mut i: usize = 0;
    while i < n
        invariant
            n == cells@.len(),
            orig.len() == n,
            i <= n,
            forall|k: int| i <= k < n ==> cells@[k] == orig[k],
            out@ == spec_row(orig.subrange(0, i as int)),
        decreases n - i,
    {
        let mut taken: Option<NativeValue> = None;
        cells.set_and_swap(i, &mut taken);
        match taken {
            Some(nv) => out.push(nv.into_boundary()),
            None => out.push(Value::Null),
        }
        proof {
            assert(out@ =~= spec_row(orig.subrange(0, (i + 1) as int)));
        }
        i += 1;
    }
    proof {
        assert(orig.subrange(0, n as int) =~= orig);
    }
    out
}

/// Assembles the boundary result of a projecting statement from the raw
/// rows the backend yielded, in the order it yielded them. Column names
/// are those observed on the first row; when no row was produced the
/// column list is empty — an empty result, not an error, since the schema
/// is only knowable from an actual row.
pub fn build_query_result(rows: Vec<RawRow>) -> (r: QueryResult)
    ensures
        rows@.len() == 0 ==> r.columns@ == Seq::<String>::empty(),
        rows@.len() > 0 ==> r.columns@ == spec_columns(rows@[0].names@),
        r.rows@.len() == rows@.len(),
        forall|i: int| 0 <= i < rows@.len() ==> r.rows@[i]@ == spec_row(rows@[i].cells@),
{
    let mut rows = rows;
    let ghost orig = rows@;
    let mut columns: Vec<String> = Vec::new();
    let mut out_rows: Vec<Vec<Value>> = Vec::new();
    let n = rows.len();
    let mut i: usize = 0;
    while i < n
        invariant
            n == rows@.len(),
            orig.len() == n,
            i <= n,
            forall|k: int| i <= k < n ==> rows@[k] == orig[k],
            out_rows@.len() == i,
            forall|k: int| 0 <= k < i ==> out_rows@[k]@ == spec_row(orig[k].cells@),
            i == 0 ==> columns@ == Seq::<String>::empty(),
            i > 0 ==> columns@ == spec_columns(orig[0].names@),
        decreases n - i,
    {
        let mut taken = RawRow { names: Vec::new(), cells: Vec::new() };
        rows.set_and_swap(i, &mut taken);
        if i == 0 {
            columns = collect_columns(&taken.names);
        }
        out_rows.push(convert_row(taken.cells));
        i += 1;
    }
    QueryResult { columns, rows: out_rows }
}

/// Converts a parameter list to the native domain, in parameter order.
/// The codec is total, so no parameter is ever rejected.
pub fn convert_params(params: Vec<Value>) -> (r: Vec<NativeValue>)
    ensures
        r@.len() == params@.len(),
        forall|i: int| 0 <= i < params@.len() ==> r@[i] == boundary_to_native(params@[i]),
{
    let mut params = params;
    let ghost orig = params@;
    let mut out: Vec<NativeValue> = Vec::new();
    let n = params.len();
    let mut i: usize = 0;
    while i < n
        invariant
            n == params@.len(),
            orig.len() == n,
            i <= n,
            forall|k: int| i <= k < n ==> params@[k] == orig[k],
            out@.len() == i,
            forall|k: int| 0 <= k < i ==> out@[k] == boundary_to_native(orig[k]),
        decreases n - i,
    {
        let mut taken: Value = Value::Null;
        params.set_and_swap(i, &mut taken);
        out.push(taken.into_native());
        i += 1;
    }
    out
}

/// Resolves an optional parameter list as the request surface hands it
/// over: an absent list stands for the empty list.
pub fn prepare_params(params: Option<Vec<Value>>) -> (r: Vec<NativeValue>)
    ensures
        match params {
            Some(ps) => r@.len() == ps@.len() && (forall|i: int|
                0 <= i < ps@.len() ==> r@[i] == boundary_to_native(ps@[i])),
            None => r@.len() == 0,
        },
{
    match params {
        Some(ps) => convert_params(ps),
        None => Vec::new(),
    }
}

/// Prepares a statement request against the registry: resolves the
/// connection registered under the given identifier, then converts the
/// parameter list, exactly as both the mutating and the projecting
/// operation demand. An absent identifier is reported as handle-not-found
/// before anything else is done, and the registry is never changed.
pub fn prepare_statement<'a>(
    registry: &'a Registry,
    connection_id: &String,
    params: Option<Vec<Value>>,
) -> (r: Result<(&'a libsql::Connection, Vec<NativeValue>), BridgeError>)
    ensures
        match r {
            Ok(p) => registry@.dom().contains(connection_id@) && *p.0
                == registry@[connection_id@].conn && (match params {
                Some(ps) => p.1@.len() == ps@.len() && (forall|i: int|
                    0 <= i < ps@.len() ==> p.1@[i] == boundary_to_native(ps@[i])),
                None => p.1@.len() == 0,
            }),
            Err(e) => !registry@.dom().contains(connection_id@) && (e matches
            BridgeError::HandleNotFound(m) && m@ == connection_id@),
        },
{
    let conn = match registry.get(connection_id) {
        Ok(c) => c,
        Err(e) => {
            return Err(e);
        },
    };
    let natives = prepare_params(params);
    Ok((conn, natives))
}

/// Shapes the backend's report of a mutating statement into the boundary
/// result: the affected row count and, when the backend exposes one, the
/// last inserted row identifier.
pub fn build_execute_result(rows_affected: u64, last_insert_rowid: Option<i64>) -> (r:
    ExecuteResult)
    ensures
        r.rows_affected == rows_affected,
        r.last_insert_rowid == last_insert_rowid,
{
    ExecuteResult { rows_affected, last_insert_rowid }
}

} // verus!

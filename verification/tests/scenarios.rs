use libsql_bridge::BridgeError;
use libsql_bridge::NativeValue;
use libsql_bridge::QueryResult;
use libsql_bridge::RawRow;
use libsql_bridge::Registry;
use libsql_bridge::Value;
use libsql_bridge::build_execute_result;
use libsql_bridge::build_query_result;
use libsql_bridge::prepare_statement;

fn runtime() -> tokio::runtime::Runtime {
    tokio::runtime::Builder::new_current_thread().enable_all().build().unwrap()
}

fn open_memory_database(rt: &tokio::runtime::Runtime) -> libsql::Database {
    rt.block_on(libsql::Builder::new_local(":memory:").build()).unwrap()
}

fn native_to_backend(n: NativeValue) -> libsql::Value {
    match n {
        NativeValue::Null => libsql::Value::Null,
        NativeValue::Integer(v) => libsql::Value::Integer(v),
        NativeValue::Real(bits) => libsql::Value::Real(f64::from_bits(bits)),
        NativeValue::Text(s) => libsql::Value::Text(s),
        NativeValue::Blob(b) => libsql::Value::Blob(b),
    }
}

fn backend_to_native(v: libsql::Value) -> NativeValue {
    match v {
        libsql::Value::Null => NativeValue::Null,
        libsql::Value::Integer(n) => NativeValue::Integer(n),
        libsql::Value::Real(f) => NativeValue::Real(f64::to_bits(f)),
        libsql::Value::Text(s) => NativeValue::Text(s),
        libsql::Value::Blob(b) => NativeValue::Blob(b),
    }
}

fn run_execute(
    rt: &tokio::runtime::Runtime,
    registry: &Registry,
    id: &String,
    sql: &str,
    params: Option<Vec<Value>>,
) -> Result<libsql_bridge::ExecuteResult, BridgeError> {
    let (conn, natives) = prepare_statement(registry, id, params)?;
    let conn = conn.clone();
    let backend_params: Vec<libsql::Value> = natives.into_iter().map(native_to_backend).collect();
    let rows_affected = rt
        .block_on(conn.execute(sql, backend_params))
        .map_err(|e| BridgeError::ExecutionFailed(e.to_string()))?;
    let rowid = conn.last_insert_rowid();
    Ok(build_execute_result(rows_affected, Some(rowid)))
}

fn run_query(
    rt: &tokio::runtime::Runtime,
    registry: &Registry,
    id: &String,
    sql: &str,
    params: Option<Vec<Value>>,
) -> Result<QueryResult, BridgeError> {
    let (conn, natives) = prepare_statement(registry, id, params)?;
    let conn = conn.clone();
    let backend_params: Vec<libsql::Value> = natives.into_iter().map(native_to_backend).collect();
    let raw_rows: Vec<RawRow> = rt
        .block_on(async {
            let mut rows = conn.query(sql, backend_params).await?;
            let mut raw: Vec<RawRow> = Vec::new();
            while let Some(row) = rows.next().await? {
                let count = row.column_count();
                let mut names: Vec<Option<String>> = Vec::new();
                let mut cells: Vec<Option<NativeValue>> = Vec::new();
                for i in 0..count {
                    names.push(row.column_name(i).map(|s| s.to_string()));
                    cells.push(row.get_value(i).ok().map(backend_to_native));
                }
                raw.push(RawRow { names, cells });
            }
            Ok::<Vec<RawRow>, libsql::Error>(raw)
        })
        .map_err(|e| BridgeError::ExecutionFailed(e.to_string()))?;
    Ok(build_query_result(raw_rows))
}

#[test]
fn fresh_table_queries_empty() {
    let rt = runtime();
    let mut registry = Registry::new();
    let db = open_memory_database(&rt);
    let id = registry.create(db, false).unwrap();
    run_execute(&rt, &registry, &id, "CREATE TABLE t(id INTEGER PRIMARY KEY, v TEXT)", None)
        .unwrap();
    let result = run_query(&rt, &registry, &id, "SELECT * FROM t", None).unwrap();
    // No row was produced, so the column list is empty and the result is
    // not an error.
    assert_eq!(result.columns, Vec::<String>::new());
    assert_eq!(result.rows, Vec::<Vec<Value>>::new());
}

#[test]
fn insert_then_select_round_trips_the_row() {
    let rt = runtime();
    let mut registry = Registry::new();
    let db = open_memory_database(&rt);
    let id = registry.create(db, false).unwrap();
    run_execute(&rt, &registry, &id, "CREATE TABLE t(id INTEGER PRIMARY KEY, v TEXT)", None)
        .unwrap();
    let inserted = run_execute(
        &rt,
        &registry,
        &id,
        "INSERT INTO t(v) VALUES (?)",
        Some(vec![Value::Text(String::from("x"))]),
    )
    .unwrap();
    assert_eq!(inserted.rows_affected, 1);
    assert_eq!(inserted.last_insert_rowid, Some(1));
    let result = run_query(&rt, &registry, &id, "SELECT * FROM t", None).unwrap();
    assert_eq!(result.columns, vec![String::from("id"), String::from("v")]);
    assert_eq!(result.rows, vec![vec![Value::Integer(1), Value::Text(String::from("x"))]]);
}

#[test]
fn distinct_connections_do_not_interfere() {
    let rt = runtime();
    let mut registry = Registry::new();
    let db1 = open_memory_database(&rt);
    let db2 = open_memory_database(&rt);
    let id1 = registry.create(db1, false).unwrap();
    let id2 = registry.create(db2, false).unwrap();
    run_execute(&rt, &registry, &id1, "CREATE TABLE t(n INTEGER)", None).unwrap();
    run_execute(&rt, &registry, &id2, "CREATE TABLE t(n INTEGER)", None).unwrap();
    // Interleaved writes against the two connections.
    run_execute(&rt, &registry, &id1, "INSERT INTO t(n) VALUES (1)", None).unwrap();
    run_execute(&rt, &registry, &id2, "INSERT INTO t(n) VALUES (10)", None).unwrap();
    run_execute(&rt, &registry, &id1, "INSERT INTO t(n) VALUES (2)", None).unwrap();
    let r1 = run_query(&rt, &registry, &id1, "SELECT n FROM t", None).unwrap();
    let r2 = run_query(&rt, &registry, &id2, "SELECT n FROM t", None).unwrap();
    assert_eq!(r1.rows, vec![vec![Value::Integer(1)], vec![Value::Integer(2)]]);
    assert_eq!(r2.rows, vec![vec![Value::Integer(10)]]);
}

#[test]
fn blob_and_real_parameters_survive_storage() {
    let rt = runtime();
    let mut registry = Registry::new();
    let db = open_memory_database(&rt);
    let id = registry.create(db, false).unwrap();
    run_execute(&rt, &registry, &id, "CREATE TABLE t(b BLOB, r REAL)", None).unwrap();
    let bits = f64::to_bits(2.5);
    run_execute(
        &rt,
        &registry,
        &id,
        "INSERT INTO t(b, r) VALUES (?, ?)",
        Some(vec![Value::Blob(vec![1u8, 0, 255]), Value::Real(bits)]),
    )
    .unwrap();
    let result = run_query(&rt, &registry, &id, "SELECT b, r FROM t", None).unwrap();
    assert_eq!(result.rows, vec![vec![Value::Blob(vec![1u8, 0, 255]), Value::Real(bits)]]);
}

#[test]
fn backend_rejection_is_reported_as_execution_failure() {
    let rt = runtime();
    let mut registry = Registry::new();
    let db = open_memory_database(&rt);
    let id = registry.create(db, false).unwrap();
    let err = run_execute(&rt, &registry, &id, "THIS IS NOT SQL", None).err().unwrap();
    assert!(matches!(err, BridgeError::ExecutionFailed(_)));
}

#[test]
fn execute_on_closed_connection_reports_handle_not_found() {
    let rt = runtime();
    let mut registry = Registry::new();
    let db = open_memory_database(&rt);
    let id = registry.create(db, false).unwrap();
    registry.close(&id);
    let err = run_execute(&rt, &registry, &id, "SELECT 1", None).err().unwrap();
    assert_eq!(err, BridgeError::HandleNotFound(id));
}

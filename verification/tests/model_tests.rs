use sqlbridge::bridge::{complete_execute, prepare_execute, BoundParam, HostParam};
use sqlbridge::connect::{prepare_connect, ConnectRequest};
use sqlbridge::error::BridgeError;
use sqlbridge::marshal::{assemble, ResultField};
use sqlbridge::sqltext::count_placeholders;
use sqlbridge::state::{ConnectionRegistry, EngineCell};
use sqlbridge::value::{coerce, DynamicValue, RawColumn};

fn raw(name: &str, integer: Option<Option<i64>>, float: Option<f64>, text: Option<&str>) -> RawColumn {
    RawColumn {
        name: name.to_string(),
        integer,
        float_bits: float.map(f64::to_bits),
        text: text.map(|s| s.to_string()),
    }
}

#[test]
fn coerce_integer_wins_first() {
    // The integer probe short-circuits the cascade even when later probes
    // would also have succeeded.
    let c = raw("id", Some(Some(7)), Some(7.0), Some("7"));
    assert_eq!(coerce(&c), DynamicValue::Integer(7));
}

#[test]
fn coerce_null_from_nullable_integer_probe() {
    // SQL NULL is captured by the nullable integer probe, whatever the
    // column's declared type would have offered the later probes.
    let c = raw("anything", Some(None), Some(1.5), Some("x"));
    assert_eq!(coerce(&c), DynamicValue::Null);
}

#[test]
fn coerce_float_when_integer_fails() {
    let c = raw("score", None, Some(2.5), Some("2.5"));
    assert_eq!(coerce(&c), DynamicValue::Float(2.5f64.to_bits()));
}

#[test]
fn coerce_text_when_numbers_fail() {
    let c = raw("name", None, None, Some("alice"));
    assert_eq!(coerce(&c), DynamicValue::Text("alice".to_string()));
}

#[test]
fn coerce_falls_back_to_null() {
    // A value no probe can represent (a BLOB, say) becomes an explicit Null.
    let c = raw("blob", None, None, None);
    assert_eq!(coerce(&c), DynamicValue::Null);
}

#[test]
fn assemble_preserves_row_and_column_order() {
    let rows = vec![
        vec![
            raw("id", Some(Some(1)), None, None),
            raw("name", None, None, Some("alice")),
            raw("score", None, Some(9.5), None),
        ],
        vec![
            raw("id", Some(Some(2)), None, None),
            raw("name", None, None, Some("bob")),
            raw("score", None, Some(-1.25), None),
        ],
    ];
    let out = assemble(&rows);
    assert_eq!(out.len(), 2);
    let names: Vec<&str> = out[0].iter().map(|f| f.name.as_str()).collect();
    assert_eq!(names, vec!["id", "name", "score"]);
    assert_eq!(out[0][0].value, DynamicValue::Integer(1));
    assert_eq!(out[0][1].value, DynamicValue::Text("alice".to_string()));
    assert_eq!(out[0][2].value, DynamicValue::Float(9.5f64.to_bits()));
    assert_eq!(out[1][0].value, DynamicValue::Integer(2));
    assert_eq!(out[1][1].value, DynamicValue::Text("bob".to_string()));
    assert_eq!(out[1][2].value, DynamicValue::Float((-1.25f64).to_bits()));
}

#[test]
fn assemble_keeps_duplicate_column_names() {
    let rows = vec![vec![
        raw("v", Some(Some(1)), None, None),
        raw("v", Some(Some(2)), None, None),
    ]];
    let out = assemble(&rows);
    assert_eq!(out[0].len(), 2);
    assert_eq!(out[0][0], ResultField { name: "v".to_string(), value: DynamicValue::Integer(1) });
    assert_eq!(out[0][1], ResultField { name: "v".to_string(), value: DynamicValue::Integer(2) });
}

#[test]
fn placeholders_counted_outside_literals() {
    assert_eq!(count_placeholders(&"INSERT INTO t VALUES (?, ?)".to_string()), 2);
    assert_eq!(count_placeholders(&"SELECT '?' FROM t".to_string()), 0);
    assert_eq!(count_placeholders(&"SELECT 'it''s ?', ? FROM t".to_string()), 1);
    assert_eq!(count_placeholders(&"SELECT 1".to_string()), 0);
}

#[test]
fn registry_initializes_exactly_once() {
    let mut registry = ConnectionRegistry::new();
    assert!(!registry.is_connected());
    assert_eq!(registry.complete_initialize(Ok(1)), Ok(true));
    assert!(registry.is_connected());
    assert_eq!(registry.current(), Ok(1));
    // A second attempt fails cleanly and the original handle stays usable.
    assert_eq!(registry.complete_initialize(Ok(2)), Err(BridgeError::AlreadyInitialized));
    assert_eq!(registry.current(), Ok(1));
}

#[test]
fn registry_failure_leaves_retry_possible() {
    let mut registry = ConnectionRegistry::new();
    assert_eq!(
        registry.complete_initialize(Err("no such file".to_string())),
        Err(BridgeError::ConnectFailed("no such file".to_string()))
    );
    assert!(!registry.is_connected());
    assert_eq!(registry.current(), Err(BridgeError::NotConnected));
    assert_eq!(registry.complete_initialize(Ok(5)), Ok(true));
    assert_eq!(registry.current(), Ok(5));
}

#[test]
fn connect_validates_credential_pairing() {
    let registry = ConnectionRegistry::new();
    let lone_user = ConnectRequest {
        target: "db.sqlite".to_string(),
        username: Some("u".to_string()),
        password: None,
    };
    assert_eq!(prepare_connect(&registry, lone_user), Err(BridgeError::CredentialMismatch));
    let lone_pass = ConnectRequest {
        target: "db.sqlite".to_string(),
        username: None,
        password: Some("p".to_string()),
    };
    assert_eq!(prepare_connect(&registry, lone_pass), Err(BridgeError::CredentialMismatch));
    let pair = ConnectRequest {
        target: "db.sqlite".to_string(),
        username: Some("u".to_string()),
        password: Some("p".to_string()),
    };
    let plan = prepare_connect(&registry, pair).unwrap();
    assert_eq!(plan.url, "db.sqlite");
    let creds = plan.credentials.unwrap();
    assert_eq!(creds.username, "u");
    assert_eq!(creds.password, "p");
}

#[test]
fn connect_renders_memory_target() {
    let registry = ConnectionRegistry::new();
    let request = ConnectRequest { target: "memory".to_string(), username: None, password: None };
    let plan = prepare_connect(&registry, request).unwrap();
    assert_eq!(plan.url, "sqlite::memory:");
    assert!(plan.credentials.is_none());
}

#[test]
fn connect_rejected_once_initialized() {
    let mut registry = ConnectionRegistry::new();
    registry.complete_initialize(Ok(1)).unwrap();
    let request = ConnectRequest { target: "memory".to_string(), username: None, password: None };
    assert_eq!(prepare_connect(&registry, request), Err(BridgeError::AlreadyInitialized));
    assert_eq!(registry.current(), Ok(1));
}

#[test]
fn execute_requires_statement_then_connection() {
    let registry = ConnectionRegistry::new();
    let engine = EngineCell::new();
    assert_eq!(
        prepare_execute(&registry, &engine, None, None),
        Err(BridgeError::MissingStatement)
    );
    // With no successful connect, any statement fails with NotConnected.
    assert_eq!(
        prepare_execute(&registry, &engine, Some("SELECT 1".to_string()), None),
        Err(BridgeError::NotConnected)
    );
    assert_eq!(
        prepare_execute(&registry, &engine, Some("DROP TABLE t".to_string()), None),
        Err(BridgeError::NotConnected)
    );
}

#[test]
fn execute_requires_engine() {
    let mut registry = ConnectionRegistry::new();
    registry.complete_initialize(Ok(1)).unwrap();
    let engine = EngineCell::new();
    assert_eq!(
        prepare_execute(&registry, &engine, Some("SELECT 1".to_string()), None),
        Err(BridgeError::EngineUnavailable)
    );
}

#[test]
fn execute_rejects_invalid_parameter_element() {
    let mut registry = ConnectionRegistry::new();
    registry.complete_initialize(Ok(1)).unwrap();
    let mut engine = EngineCell::new();
    engine.ensure().unwrap();
    let params = vec![
        HostParam::Text("1".to_string()),
        HostParam::Other("[object Object]".to_string()),
        HostParam::Null,
    ];
    assert_eq!(
        prepare_execute(
            &registry,
            &engine,
            Some("INSERT INTO t VALUES (?, ?, ?)".to_string()),
            Some(params)
        ),
        Err(BridgeError::InvalidParameter(1, "[object Object]".to_string()))
    );
    // The registry state was not consumed by the failure.
    assert_eq!(registry.current(), Ok(1));
}

#[test]
fn execute_rejects_missing_parameters() {
    let mut registry = ConnectionRegistry::new();
    registry.complete_initialize(Ok(1)).unwrap();
    let mut engine = EngineCell::new();
    engine.ensure().unwrap();
    let params = vec![HostParam::Text("1".to_string())];
    assert_eq!(
        prepare_execute(
            &registry,
            &engine,
            Some("INSERT INTO t VALUES (?, ?)".to_string()),
            Some(params)
        ),
        Err(BridgeError::InvalidParameter(1, "fewer parameters than placeholders".to_string()))
    );
    assert_eq!(registry.current(), Ok(1));
}

#[test]
fn execute_binds_parameters_in_order() {
    let mut registry = ConnectionRegistry::new();
    registry.complete_initialize(Ok(1)).unwrap();
    let mut engine = EngineCell::new();
    engine.ensure().unwrap();
    let params = vec![
        HostParam::Text("1".to_string()),
        HostParam::Null,
        HostParam::Text("alice".to_string()),
    ];
    let request = prepare_execute(
        &registry,
        &engine,
        Some("INSERT INTO t VALUES (?, ?, ?)".to_string()),
        Some(params),
    )
    .unwrap();
    assert_eq!(request.sql, "INSERT INTO t VALUES (?, ?, ?)");
    assert_eq!(
        request.params,
        vec![
            BoundParam::Text("1".to_string()),
            BoundParam::Null,
            BoundParam::Text("alice".to_string()),
        ]
    );
}

#[test]
fn complete_execute_wraps_database_errors() {
    let r = complete_execute(Err("no such table: t".to_string()));
    assert_eq!(r, Err(BridgeError::QueryFailed("no such table: t".to_string())));
}

#[test]
fn bridge_scenario_on_simulated_outcomes() {
    // connect("memory") -> success(true)
    let mut registry = ConnectionRegistry::new();
    let mut engine = EngineCell::new();
    engine.ensure().unwrap();
    let request = ConnectRequest { target: "memory".to_string(), username: None, password: None };
    let plan = prepare_connect(&registry, request).unwrap();
    assert_eq!(plan.url, "sqlite::memory:");
    assert_eq!(registry.complete_initialize(Ok(1)), Ok(true));

    // execute("CREATE TABLE t(id INTEGER, name TEXT)") -> empty row sequence
    let create = prepare_execute(
        &registry,
        &engine,
        Some("CREATE TABLE t(id INTEGER, name TEXT)".to_string()),
        None,
    )
    .unwrap();
    assert_eq!(create.params, vec![]);
    assert_eq!(complete_execute(Ok(vec![])), Ok(vec![]));

    // execute("INSERT INTO t VALUES (?, ?)", ["1", "alice"]) -> empty rows
    let insert = prepare_execute(
        &registry,
        &engine,
        Some("INSERT INTO t VALUES (?, ?)".to_string()),
        Some(vec![HostParam::Text("1".to_string()), HostParam::Text("alice".to_string())]),
    )
    .unwrap();
    assert_eq!(insert.params.len(), 2);
    assert_eq!(complete_execute(Ok(vec![])), Ok(vec![]));

    // execute("SELECT id, name FROM t") -> [{id: Integer(1), name: Text("alice")}]
    let rows = vec![vec![
        raw("id", Some(Some(1)), None, None),
        raw("name", None, None, Some("alice")),
    ]];
    let out = complete_execute(Ok(rows)).unwrap();
    assert_eq!(out.len(), 1);
    assert_eq!(out[0][0], ResultField { name: "id".to_string(), value: DynamicValue::Integer(1) });
    assert_eq!(
        out[0][1],
        ResultField { name: "name".to_string(), value: DynamicValue::Text("alice".to_string()) }
    );
}

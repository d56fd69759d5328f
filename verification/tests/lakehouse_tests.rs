use lakehouse::batch::{batch_from_rows, Batch, Cell, ColType, Field, PgType};
use lakehouse::cli::{default_eslogs_index, default_eslogs_table};
use lakehouse::dict::StrDict;
use lakehouse::fdw::{
    azdls_validator, s3_validator, AzdlsFdw, S3Fdw, FOREIGN_SERVER_RELATION_ID,
    FOREIGN_TABLE_RELATION_ID,
};
use lakehouse::guc::DebugGucSettings;
use lakehouse::hooks::{
    executor_run, fallback_warning, get_datafusion_batches, query_is_copy, write_batches_to_slots,
    CmdType, ExecutorHookError, HookOutcome, LogicalPlan, PlanKind, QueryType, StatementDesc,
    TupleDest,
};
use lakehouse::location::{parse_url, quote_qualified, url_store_key, u16_to_string};
use lakehouse::options::{
    option_entry_name, require_option, AmazonServerOption, AzdlsServerOption, OptionsError,
    TableOption,
};
use lakehouse::provider::{validate_schema, FileListing, PgAttribute, TableProvider};
use lakehouse::registry::{ContextError, LakehouseObjectStoreRegistry};
use lakehouse::scan::{BaseFdwState, Column, Limit, Row};
use lakehouse::schema::{LakehouseSchemaProvider, RelationDesc};
use lakehouse::session::Session;
use lakehouse::stores::{fdw_handler_from_name, table_format_from, FdwHandler, TableFormat};
use lakehouse::telemetry::PosthogConnection;

fn opts(pairs: &[(&str, &str)]) -> StrDict<String> {
    let mut d: StrDict<String> = StrDict::new();
    for (k, v) in pairs {
        d.insert((*k).to_string(), (*v).to_string());
    }
    d
}

fn sample_schema() -> Vec<Field> {
    vec![
        Field { name: "flag".to_string(), col_type: ColType::Bool },
        Field { name: "small".to_string(), col_type: ColType::Int16 },
        Field { name: "id".to_string(), col_type: ColType::Int64 },
        Field { name: "label".to_string(), col_type: ColType::Utf8 },
        Field { name: "day".to_string(), col_type: ColType::Date32 },
        Field { name: "price".to_string(), col_type: ColType::Decimal(2) },
    ]
}

fn sample_rows() -> Vec<Vec<Cell>> {
    vec![
        vec![
            Cell::Bool(true),
            Cell::I16(7),
            Cell::I64(100),
            Cell::Text("alpha".to_string()),
            Cell::Date(19000),
            Cell::Decimal(1299, 2),
        ],
        vec![
            Cell::Bool(false),
            Cell::I16(-3),
            Cell::I64(200),
            Cell::Text("beta".to_string()),
            Cell::Date(19001),
            Cell::Decimal(-50, 2),
        ],
        vec![
            Cell::Null,
            Cell::Null,
            Cell::I64(300),
            Cell::Text("gamma".to_string()),
            Cell::Null,
            Cell::Decimal(0, 2),
        ],
    ]
}

fn sample_provider() -> TableProvider {
    let schema = sample_schema();
    let batch = batch_from_rows(&schema, &sample_rows());
    TableProvider { schema, batches: vec![batch] }
}

fn identity_columns(schema: &[Field], types: &[PgType]) -> Vec<Column> {
    schema
        .iter()
        .zip(types.iter())
        .enumerate()
        .map(|(i, (f, t))| Column { name: f.name.clone(), num: i + 1, type_oid: *t })
        .collect()
}

fn sample_pg_types() -> Vec<PgType> {
    vec![
        PgType::Bool,
        PgType::Int2,
        PgType::Int8,
        PgType::Text,
        PgType::Date,
        PgType::Numeric(2),
    ]
}

fn drain(state: &mut BaseFdwState) -> Vec<Vec<Cell>> {
    let mut out = Vec::new();
    let mut row = Row::new();
    loop {
        match state.iter_scan(&mut row) {
            Ok(Some(())) => out.push(row.cells.clone()),
            Ok(None) => break,
            Err(_) => panic!("iter_scan failed"),
        }
    }
    out
}

#[test]
fn register_same_url_twice_yields_one_backend() {
    let mut registry = LakehouseObjectStoreRegistry::new();
    let url = parse_url(&"s3://test-bucket/data/file.parquet".to_string()).unwrap();
    let url2 = parse_url(&"s3://test-bucket/data/file.parquet".to_string()).unwrap();
    let server = opts(&[("region", "us-east-1")]);
    let server2 = opts(&[("region", "us-east-1")]);
    let user = opts(&[]);
    let user2 = opts(&[]);
    let r1 = registry.register_object_store(FdwHandler::S3, url, TableFormat::Plain, server, user);
    assert!(r1.is_ok(), "first registration should succeed");
    assert_eq!(registry.store_count(), 1);
    let r2 =
        registry.register_object_store(FdwHandler::S3, url2, TableFormat::Plain, server2, user2);
    assert!(r2.is_ok(), "second registration should be a no-op");
    assert_eq!(registry.store_count(), 1, "one live backend per URL");
    let check = parse_url(&"s3://test-bucket/other.parquet".to_string()).unwrap();
    assert!(registry.contains_url(&check), "same bucket, same backend key");
}

#[test]
fn register_local_file_store() {
    let mut registry = LakehouseObjectStoreRegistry::new();
    let url = parse_url(&"file:///data/table.parquet".to_string()).unwrap();
    let r = registry.register_object_store(
        FdwHandler::LocalFile,
        url,
        TableFormat::Plain,
        opts(&[]),
        opts(&[]),
    );
    assert!(r.is_ok(), "local listing backend should build");
    assert_eq!(registry.store_count(), 1);
}

#[test]
fn url_store_key_separates_authorities() {
    let a = parse_url(&"s3://bucket-a/x.parquet".to_string()).unwrap();
    let b = parse_url(&"s3://bucket-b/x.parquet".to_string()).unwrap();
    assert_ne!(url_store_key(&a), url_store_key(&b));
    assert_eq!(url_store_key(&a), "s3://bucket-a");
    let c = parse_url(&"http://localhost:9000/x".to_string()).unwrap();
    assert_eq!(url_store_key(&c), "http://localhost:9000");
}

#[test]
fn u16_digits_render_exactly() {
    assert_eq!(u16_to_string(0), "0");
    assert_eq!(u16_to_string(9000), "9000");
    assert_eq!(u16_to_string(65535), "65535");
}

#[test]
fn parse_url_rejects_garbage() {
    assert!(parse_url(&"not a url at all".to_string()).is_none());
}

#[test]
fn option_surfaces_report_their_names() {
    assert_eq!(TableOption::Path.as_str(), "path");
    assert!(TableOption::Path.is_required());
    assert!(TableOption::Extension.is_required());
    assert!(!TableOption::Format.is_required());
    assert_eq!(AmazonServerOption::AllowAnonymous.as_str(), "allow_anonymous");
    assert!(!AmazonServerOption::Endpoint.is_required());
    assert!(AzdlsServerOption::Endpoint.is_required());
}

#[test]
fn option_entry_name_splits_at_equals() {
    assert_eq!(option_entry_name(&"path=s3://x/y".to_string()), "path");
    assert_eq!(option_entry_name(&"bare".to_string()), "bare");
    assert_eq!(option_entry_name(&"=value".to_string()), "");
}

#[test]
fn require_option_missing_names_the_key() {
    let table_opts = opts(&[("extension", "parquet")]);
    let r = require_option(&"path".to_string(), &table_opts);
    match r {
        Err(e) => {
            assert_eq!(e.message(), "required option not found: path");
            assert!(matches!(e, OptionsError::RequiredOptionNotFound(_)));
        }
        Ok(_) => panic!("path should be missing"),
    }
}

#[test]
fn s3_validator_rejects_unknown_server_option() {
    let list = vec![Some("banana=1".to_string())];
    let r = s3_validator(&list, Some(FOREIGN_SERVER_RELATION_ID));
    assert!(r.is_err(), "unknown option name must be rejected");
    let ok = s3_validator(
        &vec![Some("endpoint=http://localhost:9000".to_string()), Some("region=eu".to_string())],
        Some(FOREIGN_SERVER_RELATION_ID),
    );
    assert!(ok.is_ok());
}

#[test]
fn azdls_validator_requires_endpoint() {
    let r = azdls_validator(&vec![], Some(FOREIGN_SERVER_RELATION_ID));
    assert!(r.is_err(), "endpoint is required for this backend");
    let ok = azdls_validator(
        &vec![Some("endpoint=https://example.dfs.core.windows.net".to_string())],
        Some(FOREIGN_SERVER_RELATION_ID),
    );
    assert!(ok.is_ok());
}

#[test]
fn table_validator_requires_path_and_extension() {
    let r = s3_validator(
        &vec![Some("path=s3://b/t.parquet".to_string())],
        Some(FOREIGN_TABLE_RELATION_ID),
    );
    assert!(r.is_err(), "extension is required");
    let ok = s3_validator(
        &vec![
            Some("path=s3://b/t.parquet".to_string()),
            Some("extension=parquet".to_string()),
            Some("format=delta".to_string()),
        ],
        Some(FOREIGN_TABLE_RELATION_ID),
    );
    assert!(ok.is_ok());
}

#[test]
fn table_format_and_handler_mappings() {
    assert_eq!(table_format_from(&"delta".to_string()), TableFormat::Delta);
    assert_eq!(table_format_from(&"".to_string()), TableFormat::Plain);
    assert_eq!(table_format_from(&"weird".to_string()), TableFormat::Plain);
    assert_eq!(fdw_handler_from_name(&"s3_fdw".to_string()), FdwHandler::S3);
    assert_eq!(fdw_handler_from_name(&"azdls_fdw".to_string()), FdwHandler::Azdls);
    assert_eq!(fdw_handler_from_name(&"local_file_fdw".to_string()), FdwHandler::LocalFile);
    assert_eq!(fdw_handler_from_name(&"postgres_fdw".to_string()), FdwHandler::Other);
}

#[test]
fn schema_validation_rejects_mismatch_at_any_position() {
    let schema = vec![
        Field { name: "label".to_string(), col_type: ColType::Utf8 },
        Field { name: "id".to_string(), col_type: ColType::Int64 },
    ];
    let good = vec![
        PgAttribute::new("label".to_string(), PgType::Text),
        PgAttribute::new("id".to_string(), PgType::Int8),
    ];
    assert!(validate_schema(&schema, &good).is_ok());
    let narrowed = vec![
        PgAttribute::new("label".to_string(), PgType::Text),
        PgAttribute::new("id".to_string(), PgType::Int4),
    ];
    match validate_schema(&schema, &narrowed) {
        Err(ContextError::SchemaMismatch(pos, col)) => {
            assert_eq!(pos, 1);
            assert_eq!(col, "id");
        }
        _ => panic!("a narrowed declared type must fail resolution"),
    }
}

fn sample_relation(oid: u32, path: &str) -> RelationDesc {
    RelationDesc {
        oid,
        schema_name: "public".to_string(),
        table_name: "PrimitiveTable".to_string(),
        attributes: vec![
            PgAttribute::new("flag".to_string(), PgType::Bool),
            PgAttribute::new("small".to_string(), PgType::Int2),
            PgAttribute::new("id".to_string(), PgType::Int8),
            PgAttribute::new("label".to_string(), PgType::Text),
            PgAttribute::new("day".to_string(), PgType::Date),
            PgAttribute::new("price".to_string(), PgType::Numeric(2)),
        ],
        table_options: opts(&[("path", path), ("extension", "parquet")]),
        server_options: opts(&[("region", "us-east-1")]),
        user_mapping_options: opts(&[]),
        fdw_name: "s3_fdw".to_string(),
        is_foreign_table: true,
    }
}

fn sample_listing(path: &str) -> FileListing {
    let schema = sample_schema();
    let batch = batch_from_rows(&schema, &sample_rows());
    FileListing {
        path: path.to_string(),
        extension: "parquet".to_string(),
        schema,
        batches: vec![batch],
    }
}

#[test]
fn resolving_a_missing_object_names_the_path() {
    let path = "s3://test-bucket/missing_file.parquet";
    let mut session = Session::new(Some("testdb".to_string()), None);
    let rel = sample_relation(41001, path);
    let r = session.resolve_table(&rel, None);
    match r {
        Err(e) => {
            let msg = e.message();
            assert_eq!(msg, format!("Object at location {path} not found"));
        }
        Ok(()) => panic!("resolution must fail when no object exists at the path"),
    }
}

#[test]
fn resolved_tables_are_cached_and_reused() {
    let path = "s3://test-bucket/present.parquet";
    let mut session = Session::new(Some("testdb".to_string()), None);
    let rel = sample_relation(41002, path);
    session.resolve_table(&rel, Some(sample_listing(path))).expect("resolution should succeed");
    // a second resolution needs no listing: the cached provider is reused
    session.resolve_table(&rel, None).expect("cached resolution should succeed");
    let p = session
        .table_provider(&"public".to_string(), 41002)
        .expect("provider should be cached");
    assert_eq!(p.schema.len(), 6);
    assert_eq!(p.batches.len(), 1);
}

#[test]
fn schema_mismatch_fails_resolution() {
    let path = "s3://test-bucket/mismatch.parquet";
    let mut session = Session::new(Some("testdb".to_string()), None);
    let mut rel = sample_relation(41003, path);
    rel.attributes[2] = PgAttribute::new("id".to_string(), PgType::Int4);
    let r = session.resolve_table(&rel, Some(sample_listing(path)));
    match r {
        Err(ContextError::SchemaMismatch(pos, col)) => {
            assert_eq!(pos, 2);
            assert_eq!(col, "id");
        }
        _ => panic!("a mismatched declared type must fail resolution"),
    }
    assert!(session.table_provider(&"public".to_string(), 41003).is_none());
}

#[test]
fn quoted_qualified_names_preserve_case() {
    let q = quote_qualified(&"public".to_string(), &"PrimitiveTable".to_string());
    assert_eq!(q, "\"public\".\"PrimitiveTable\"");
    let lower = quote_qualified(&"public".to_string(), &"primitivetable".to_string());
    assert_ne!(q, lower, "quoting preserves the case of identifiers");
}

#[test]
fn table_exist_is_true_only_for_known_wrappers() {
    let sp = LakehouseSchemaProvider::new("public");
    let rel = sample_relation(41004, "s3://b/t.parquet");
    assert!(sp.table_exist(Some(&rel)));
    let mut other = sample_relation(41005, "s3://b/t.parquet");
    other.fdw_name = "postgres_fdw".to_string();
    assert!(!sp.table_exist(Some(&other)));
    let mut plain = sample_relation(41006, "s3://b/t.parquet");
    plain.is_foreign_table = false;
    assert!(!sp.table_exist(Some(&plain)));
    assert!(!sp.table_exist(None));
}

#[test]
fn scan_round_trips_mixed_primitive_rows() {
    let provider = sample_provider();
    let columns = identity_columns(&provider.schema, &sample_pg_types());
    let mut state = BaseFdwState::new_state();
    state
        .begin_scan(&vec![], &columns, &vec![], &None, &opts(&[]), &provider)
        .expect("begin_scan should succeed");
    let rows = drain(&mut state);
    assert_eq!(rows.len(), 3, "every written row comes back");
    assert_eq!(rows, sample_rows(), "values survive the round trip unchanged");
}

#[test]
fn scan_restarts_fresh_after_end_scan() {
    let provider = sample_provider();
    let columns = identity_columns(&provider.schema, &sample_pg_types());
    let mut state = BaseFdwState::new_state();
    state
        .begin_scan(&vec![], &columns, &vec![], &None, &opts(&[]), &provider)
        .expect("begin_scan should succeed");
    // abandon the scan after one row
    let mut row = Row::new();
    state.iter_scan(&mut row).expect("first row");
    state.end_scan().expect("end_scan is always safe");
    state
        .begin_scan(&vec![], &columns, &vec![], &None, &opts(&[]), &provider)
        .expect("re-begin should succeed");
    let rows = drain(&mut state);
    assert_eq!(rows, sample_rows(), "nothing leaks from the abandoned scan");
}

#[test]
fn scan_projects_and_limits() {
    let provider = sample_provider();
    let columns = vec![
        Column { name: "id".to_string(), num: 3, type_oid: PgType::Int8 },
        Column { name: "label".to_string(), num: 4, type_oid: PgType::Text },
    ];
    let mut state = BaseFdwState::new_state();
    let limit = Some(Limit { count: 2, offset: 0 });
    state
        .begin_scan(&vec![], &columns, &vec![], &limit, &opts(&[]), &provider)
        .expect("begin_scan should succeed");
    let rows = drain(&mut state);
    assert_eq!(
        rows,
        vec![
            vec![Cell::I64(100), Cell::Text("alpha".to_string())],
            vec![Cell::I64(200), Cell::Text("beta".to_string())],
        ]
    );
}

#[test]
fn scan_rejects_out_of_range_projection() {
    let provider = sample_provider();
    let columns = vec![Column { name: "nope".to_string(), num: 9, type_oid: PgType::Int8 }];
    let mut state = BaseFdwState::new_state();
    let r = state.begin_scan(&vec![], &columns, &vec![], &None, &opts(&[]), &provider);
    assert!(r.is_err());
}

#[test]
fn scan_aborts_on_unconvertible_value() {
    let provider = sample_provider();
    let mut columns = identity_columns(&provider.schema, &sample_pg_types());
    columns[2].type_oid = PgType::Int4;  // declared narrower than the data
    let mut state = BaseFdwState::new_state();
    state
        .begin_scan(&vec![], &columns, &vec![], &None, &opts(&[]), &provider)
        .expect("begin_scan checks shape, not values");
    let mut row = Row::new();
    match state.iter_scan(&mut row) {
        Err(e) => assert!(matches!(e, lakehouse::scan::BaseFdwError::DataTypeError(_))),
        Ok(_) => panic!("an unconvertible value must abort the scan"),
    }
}

#[test]
fn s3_fdw_new_requires_path() {
    let mut registry = LakehouseObjectStoreRegistry::new();
    let r = S3Fdw::new(
        &opts(&[("extension", "parquet")]),
        &opts(&[]),
        &opts(&[]),
        &mut registry,
    );
    assert!(r.is_err(), "a missing path is a configuration error");
}

#[test]
fn s3_fdw_new_registers_store() {
    let mut registry = LakehouseObjectStoreRegistry::new();
    let fdw = S3Fdw::new(
        &opts(&[("path", "s3://fdw-bucket/t.parquet"), ("extension", "parquet")]),
        &opts(&[("region", "us-east-1")]),
        &opts(&[]),
        &mut registry,
    )
    .expect("construction should succeed");
    assert_eq!(registry.store_count(), 1);
    assert!(fdw.explain().unwrap().unwrap().is_empty());
}

#[test]
fn azdls_fdw_new_registers_store() {
    let mut registry = LakehouseObjectStoreRegistry::new();
    let r = AzdlsFdw::new(
        &opts(&[("path", "azdls://filesystem/dir"), ("extension", "parquet")]),
        &opts(&[("endpoint", "https://example.dfs.core.windows.net")]),
        &opts(&[("account_name", "acct"), ("account_key", "a2V5")]),
        &mut registry,
    );
    assert!(r.is_ok(), "construction should succeed: {:?}", registry.store_count());
    assert_eq!(registry.store_count(), 1);
}

#[test]
fn copy_statements_are_detected_case_insensitively() {
    assert!(query_is_copy(&"COPY t TO stdout".to_string()));
    assert!(query_is_copy(&"copy t from stdin".to_string()));
    assert!(!query_is_copy(&"SELECT 1".to_string()));
    assert!(!query_is_copy(&"cop".to_string()));
}

fn select_desc(query_type: QueryType) -> StatementDesc {
    StatementDesc {
        has_range_table: true,
        operation: CmdType::Select,
        query_type,
        query_text: "SELECT * FROM trips".to_string(),
    }
}

fn read_plan(oid: u32) -> LogicalPlan {
    LogicalPlan {
        kind: PlanKind::Query,
        schema_name: "public".to_string(),
        table_oid: oid,
        projection: vec![
            Column { name: "id".to_string(), num: 3, type_oid: PgType::Int8 },
            Column { name: "label".to_string(), num: 4, type_oid: PgType::Text },
        ],
        limit: None,
    }
}

fn attrs_for_read_plan() -> Vec<PgAttribute> {
    vec![
        PgAttribute::new("id".to_string(), PgType::Int8),
        PgAttribute::new("label".to_string(), PgType::Text),
    ]
}

#[test]
fn statements_against_native_tables_are_never_intercepted() {
    let session = Session::new(Some("testdb".to_string()), None);
    let mut dest = TupleDest::new(true, true, true);
    let parsed = Ok(read_plan(1));
    let r = executor_run(
        &select_desc(QueryType::Native),
        &parsed,
        &session,
        &attrs_for_read_plan(),
        &mut dest,
    )
    .expect("the hook itself does not fail");
    assert!(matches!(r, HookOutcome::Native));
    assert!(dest.received.is_empty(), "the destination receiver saw nothing");
    assert!(!dest.started);
}

#[test]
fn statements_without_relations_are_never_intercepted() {
    let session = Session::new(Some("testdb".to_string()), None);
    let mut dest = TupleDest::new(true, true, true);
    let mut desc = select_desc(QueryType::DataFusion);
    desc.has_range_table = false;
    let parsed = Ok(read_plan(1));
    let r = executor_run(&desc, &parsed, &session, &attrs_for_read_plan(), &mut dest)
        .expect("the hook itself does not fail");
    assert!(matches!(r, HookOutcome::Native));
}

#[test]
fn write_shaped_plans_are_never_executed_here() {
    let session = Session::new(Some("testdb".to_string()), None);
    let mut dest = TupleDest::new(true, true, true);
    for kind in [PlanKind::Ddl, PlanKind::Dml, PlanKind::Explain, PlanKind::Analyze] {
        let mut plan = read_plan(1);
        plan.kind = kind;
        let parsed = Ok(plan);
        let r = executor_run(
            &select_desc(QueryType::DataFusion),
            &parsed,
            &session,
            &attrs_for_read_plan(),
            &mut dest,
        )
        .expect("the hook itself does not fail");
        assert!(matches!(r, HookOutcome::Native), "a write-shaped plan goes to native execution");
        assert!(dest.received.is_empty());
    }
}

#[test]
fn parse_failures_fall_back_with_a_warning() {
    let session = Session::new(Some("testdb".to_string()), None);
    let mut dest = TupleDest::new(true, true, true);
    let parsed: Result<LogicalPlan, String> = Err("syntax trouble".to_string());
    let r = executor_run(
        &select_desc(QueryType::DataFusion),
        &parsed,
        &session,
        &attrs_for_read_plan(),
        &mut dest,
    )
    .expect("a parse failure is recoverable");
    match r {
        HookOutcome::NativeWithWarning(w) => {
            assert!(w.contains("syntax trouble"));
            assert!(w.contains("https://github.com/paradedb/paradedb/issues"));
        }
        _ => panic!("expected a fallback with a warning"),
    }
    assert!(fallback_warning(&"x".to_string()).contains(": x."));
}

#[test]
fn intercepted_reads_match_direct_execution() {
    let path = "s3://test-bucket/hooked.parquet";
    let mut session = Session::new(Some("testdb".to_string()), None);
    let rel = sample_relation(41010, path);
    session.resolve_table(&rel, Some(sample_listing(path))).expect("resolution should succeed");

    let plan = read_plan(41010);
    let direct = get_datafusion_batches(&session, &plan).expect("direct execution succeeds");
    let mut direct_rows: Vec<Vec<Cell>> = Vec::new();
    for b in &direct {
        for i in 0..b.row_count() {
            direct_rows.push(b.row_at(i));
        }
    }

    let mut dest = TupleDest::new(true, true, true);
    let parsed = Ok(read_plan(41010));
    let r = executor_run(
        &select_desc(QueryType::DataFusion),
        &parsed,
        &session,
        &attrs_for_read_plan(),
        &mut dest,
    )
    .expect("interception succeeds");
    match r {
        HookOutcome::Handled(n) => {
            assert_eq!(n, 3);
            assert_eq!(dest.received, direct_rows, "same rows, same order");
            assert!(dest.started && dest.shut_down);
        }
        _ => panic!("an eligible read must be handled"),
    }
}

#[test]
fn unresolved_tables_fall_back_with_a_warning() {
    let session = Session::new(Some("testdb".to_string()), None);
    let mut dest = TupleDest::new(true, true, true);
    let parsed = Ok(read_plan(49999));
    let r = executor_run(
        &select_desc(QueryType::DataFusion),
        &parsed,
        &session,
        &attrs_for_read_plan(),
        &mut dest,
    )
    .expect("an execution failure is recoverable");
    match r {
        HookOutcome::NativeWithWarning(w) => {
            assert!(w.contains("table not found: public"));
            assert!(w.contains("https://github.com/paradedb/paradedb/issues"));
        }
        _ => panic!("an unresolved table must fall back with a warning"),
    }
    assert!(dest.received.is_empty(), "the receiver sees nothing on the fallback path");
}

#[test]
fn validators_accept_unknown_catalog_levels() {
    let list = vec![Some("banana=1".to_string())];
    assert!(s3_validator(&list, Some(2328)).is_ok(), "wrapper-level options are not checked");
    assert!(s3_validator(&list, Some(999)).is_ok(), "unknown catalog levels are not checked");
    assert!(azdls_validator(&list, Some(999)).is_ok());
    assert!(s3_validator(&list, None).is_ok());
}

#[test]
fn session_identity_failure_is_database_not_found() {
    let mut session = Session::new(None, None);
    match session.session_context() {
        Err(e) => assert!(matches!(e, lakehouse::session::SessionError::DatabaseNotFound(_))),
        Ok(()) => panic!("a nameless session has no identity"),
    }
}

#[test]
fn unparseable_path_is_invalid_url() {
    let mut registry = LakehouseObjectStoreRegistry::new();
    let r = S3Fdw::new(
        &opts(&[("path", "not a url at all"), ("extension", "parquet")]),
        &opts(&[]),
        &opts(&[]),
        &mut registry,
    );
    match r {
        Err(lakehouse::scan::BaseFdwError::Context(ContextError::InvalidUrl(p))) => {
            assert_eq!(p, "not a url at all");
        }
        _ => panic!("an unparseable path must be rejected as an invalid URL"),
    }
    assert_eq!(registry.store_count(), 0, "nothing was registered");
}

#[test]
fn broken_receiver_is_fatal() {
    let mut dest = TupleDest::new(true, false, true);
    let schema = sample_schema();
    let batch = batch_from_rows(&schema, &sample_rows());
    let attrs = vec![PgAttribute::new("flag".to_string(), PgType::Bool)];
    let r = write_batches_to_slots(&mut dest, &attrs, &vec![batch]);
    assert!(matches!(r, Err(ExecutorHookError::ReceiveSlotNotFound)));
    let mut dest2 = TupleDest::new(false, true, true);
    let batch2 = batch_from_rows(&sample_schema(), &sample_rows());
    let r2 = write_batches_to_slots(&mut dest2, &attrs, &vec![batch2]);
    assert!(matches!(r2, Err(ExecutorHookError::RStartupNotFound)));
}

#[test]
fn tuple_conversion_failure_aborts_the_statement() {
    let mut dest = TupleDest::new(true, true, true);
    let schema = sample_schema();
    let batch = batch_from_rows(&schema, &sample_rows());
    let attrs = vec![PgAttribute::new("flag".to_string(), PgType::Int8)];
    let r = write_batches_to_slots(&mut dest, &attrs, &vec![batch]);
    assert!(matches!(r, Err(ExecutorHookError::DataType(_))));
}

#[test]
fn session_requires_a_database_identity() {
    let mut session = Session::new(None, None);
    assert!(session.catalog_name().is_err());
    assert!(session.session_context().is_err());
    let rel = sample_relation(41020, "s3://b/t.parquet");
    assert!(matches!(session.resolve_table(&rel, None), Err(ContextError::Identity(_))));
}

#[test]
fn session_context_is_built_once() {
    let mut session = Session::new(Some("testdb".to_string()), Some("UTC".to_string()));
    session.session_context().expect("context builds for a named database");
    let c = session.context_ref().expect("context is cached");
    assert_eq!(c.catalog_name, "testdb");
    assert_eq!(c.timezone.as_deref(), Some("UTC"));
    assert!(c.information_schema);
    session.catalog().expect("catalog lookup succeeds after initialization");
    session.schema_provider(&"public".to_string()).expect("schema registered on demand");
    let c2 = session.context_ref().unwrap();
    assert!(c2.catalog.schema(&"public".to_string()).is_some());
    assert!(c2.catalog.schema(&"other".to_string()).is_none());
}

#[test]
fn debug_settings_default_to_fdw_paths_on() {
    let s = DebugGucSettings::new();
    assert!(!s.disable_executor);
    assert!(!s.disable_fdw);
    assert!(s.disable_datafusion);
    let d = DebugGucSettings::default();
    assert!(d.disable_datafusion);
}

#[test]
fn posthog_endpoint_appends_capture() {
    let c = PosthogConnection::new("SECRET-REDACTED", "https://app.posthog.com");
    assert_eq!(c.endpoint(), "https://app.posthog.com/capture");
}

#[test]
fn eslogs_defaults_are_stable() {
    assert_eq!(default_eslogs_table(), "benchmark_eslogs");
    assert_eq!(default_eslogs_index(), "benchmark_eslogs_pg_search");
}

#[test]
fn iterating_without_a_plan_is_a_protocol_error() {
    let mut state = BaseFdwState::new_state();
    let mut row = Row::new();
    match state.iter_scan(&mut row) {
        Err(e) => assert!(matches!(e, lakehouse::scan::BaseFdwError::DataFrameNotFound)),
        Ok(_) => panic!("iteration without a plan must be rejected"),
    }
}

#[test]
fn missing_shutdown_callback_is_fatal() {
    let mut dest = TupleDest::new(true, true, false);
    let schema = sample_schema();
    let batch = batch_from_rows(&schema, &sample_rows());
    let attrs = vec![PgAttribute::new("flag".to_string(), PgType::Bool)];
    let r = write_batches_to_slots(&mut dest, &attrs, &vec![batch]);
    assert!(matches!(r, Err(ExecutorHookError::RShutdownNotFound)));
    assert_eq!(dest.received.len(), 3, "rows were sent before the missing shutdown was noticed");
}

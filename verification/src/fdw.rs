//! The storage-backend foreign-data wrappers.
//!
//! Each backend drives the shared scan protocol; they differ only in how
//! they register their storage backend and in which option names their
//! server surface accepts.  The validator checks an option list against the
//! surface for the catalog level being altered.

use vstd::prelude::*;

use crate::location::{parse_url, spec_store_key, spec_url_parts};
use crate::options::{
    check_options_contain, require_option, require_option_or, spec_all_names_valid,
    spec_entry_name, spec_list_contains_name, spec_name_in, validate_options, AmazonServerOption,
    AzdlsServerOption, OptionMap, TableOption,
};
use crate::provider::TableProvider;
use crate::registry::{ContextError, LakehouseObjectStoreRegistry};
use crate::batch::spec_all_rows;
use crate::scan::{
    spec_columns_in_range, spec_row_convertible, spec_scan_rows, BaseFdwError, BaseFdwState,
    Column, Limit, Qual, Row, Sort,
};
use crate::stores::{table_format_from, FdwHandler, TableFormat};

verus! {

/// The host catalog level for foreign-data-wrapper options.
pub const FOREIGN_DATA_WRAPPER_RELATION_ID: u32 = 2328;

/// The host catalog level for foreign-server options.
pub const FOREIGN_SERVER_RELATION_ID: u32 = 1417;

/// The host catalog level for foreign-table options.
pub const FOREIGN_TABLE_RELATION_ID: u32 = 3118;

/// Whether every present entry of an option list bears one of the given
/// names.
pub open spec fn spec_names_only(list: Seq<Option<String>>, names: Seq<Seq<char>>) -> bool {
    forall|i: int|
        0 <= i < list.len() ==> match #[trigger] list[i] {
            Some(entry) => exists|j: int|
                0 <= j < names.len() && names[j] == spec_entry_name(entry@),
            None => true,
        }
}

/// The server-level option names of the S3-compatible backend.
pub open spec fn spec_s3_server_names() -> Seq<Seq<char>> {
    seq!["endpoint"@, "region"@, "allow_anonymous"@]
}

/// The server-level option names of the Azure Data Lake Storage backend.
pub open spec fn spec_azdls_server_names() -> Seq<Seq<char>> {
    seq!["endpoint"@]
}

/// The table-level option names.
pub open spec fn spec_table_names() -> Seq<Seq<char>> {
    seq!["path"@, "extension"@, "format"@]
}

fn s3_server_name_list() -> (r: Vec<String>)
    ensures
        r@.map_values(|s: String| s@) =~= spec_s3_server_names(),
{
    let mut v: Vec<String> = Vec::new();
    let opts = AmazonServerOption::iter();
    let n = opts.len();
    let mut i: usize = 0;
    while i < n
        invariant
            n == opts@.len(),
            opts@ == seq![
                AmazonServerOption::Endpoint,
                AmazonServerOption::Region,
                AmazonServerOption::AllowAnonymous,
            ],
            0 <= i <= n,
            v@.len() == i,
            forall|q: int|
                0 <= q < i ==> (#[trigger] v@[q])@ == (match opts@[q] {
                    AmazonServerOption::Endpoint => "endpoint"@,
                    AmazonServerOption::Region => "region"@,
                    AmazonServerOption::AllowAnonymous => "allow_anonymous"@,
                }),
        decreases n - i,
    {
        v.push(opts[i].as_str().to_owned());
        i = i + 1;
    }
    proof {
        assert(v@.map_values(|s: String| s@) =~= spec_s3_server_names());
    }
    v
}

fn azdls_server_name_list() -> (r: Vec<String>)
    ensures
        r@.map_values(|s: String| s@) =~= spec_azdls_server_names(),
{
    let mut v: Vec<String> = Vec::new();
    let opts = AzdlsServerOption::iter();
    let n = opts.len();
    let mut i: usize = 0;
    while i < n
        invariant
            n == opts@.len(),
            opts@ == seq![AzdlsServerOption::Endpoint],
            0 <= i <= n,
            v@.len() == i,
            forall|q: int| 0 <= q < i ==> (#[trigger] v@[q])@ == "endpoint"@,
        decreases n - i,
    {
        v.push(opts[i].as_str().to_owned());
        i = i + 1;
    }
    proof {
        assert(v@.map_values(|s: String| s@) =~= spec_azdls_server_names());
    }
    v
}

fn table_name_list() -> (r: Vec<String>)
    ensures
        r@.map_values(|s: String| s@) =~= spec_table_names(),
{
    let mut v: Vec<String> = Vec::new();
    let opts = TableOption::iter();
    let n = opts.len();
    let mut i: usize = 0;
    while i < n
        invariant
            n == opts@.len(),
            opts@ == seq![TableOption::Path, TableOption::Extension, TableOption::Format],
            0 <= i <= n,
            v@.len() == i,
            forall|q: int|
                0 <= q < i ==> (#[trigger] v@[q])@ == (match opts@[q] {
                    TableOption::Path => "path"@,
                    TableOption::Extension => "extension"@,
                    TableOption::Format => "format"@,
                }),
        decreases n - i,
    {
        v.push(opts[i].as_str().to_owned());
        i = i + 1;
    }
    proof {
        assert(v@.map_values(|s: String| s@) =~= spec_table_names());
    }
    v
}

proof fn lemma_names_bridge(list: Seq<Option<String>>, valid: Seq<String>, names: Seq<Seq<char>>)
    requires
        valid.map_values(|s: String| s@) =~= names,
    ensures
        spec_all_names_valid(list, valid) <==> spec_names_only(list, names),
{
    assert forall|n: Seq<char>| spec_name_in(valid, n) <==> (exists|j: int|
        0 <= j < names.len() && names[j] == n) by {
        if spec_name_in(valid, n) {
            let j = choose|j: int| 0 <= j < valid.len() && valid[j]@ == n;
            assert(names[j] == n);
        }
        if exists|j: int| 0 <= j < names.len() && names[j] == n {
            let j = choose|j: int| 0 <= j < names.len() && names[j] == n;
            assert(valid[j]@ == n);
        }
    }
}

/// Validate an option list for a catalog level of the S3-compatible
/// wrapper: unrecognised names are rejected at the server and table levels;
/// the table level further requires `path` and `extension`; no server-level
/// option is required.
pub fn s3_validator(opt_list: &Vec<Option<String>>, catalog: Option<u32>) -> (r: Result<
    (),
    BaseFdwError,
>)
    ensures
        catalog == Some(FOREIGN_SERVER_RELATION_ID) ==> (r is Ok <==> spec_names_only(
            opt_list@,
            spec_s3_server_names(),
        )),
        catalog == Some(FOREIGN_TABLE_RELATION_ID) ==> (r is Ok <==> (spec_names_only(
            opt_list@,
            spec_table_names(),
        ) && spec_list_contains_name(opt_list@, "path"@) && spec_list_contains_name(
            opt_list@,
            "extension"@,
        ))),
        catalog is None ==> r is Ok,
        catalog matches Some(oid) && oid != FOREIGN_SERVER_RELATION_ID && oid
            != FOREIGN_TABLE_RELATION_ID ==> r is Ok,
        r matches Err(e) ==> e is Options,
{
    match catalog {
        Some(oid) => {
            if oid == FOREIGN_SERVER_RELATION_ID {
                let valid = s3_server_name_list();
                proof {
                    lemma_names_bridge(opt_list@, valid@, spec_s3_server_names());
                }
                match validate_options(opt_list, &valid) {
                    Ok(()) => Ok(()),
                    Err(e) => Err(BaseFdwError::Options(e)),
                }
            } else if oid == FOREIGN_TABLE_RELATION_ID {
                validate_table_options(opt_list)
            } else {
                Ok(())
            }
        },
        None => Ok(()),
    }
}

/// Validate an option list for a catalog level of the Azure Data Lake
/// Storage wrapper: its server surface accepts only `endpoint`, and requires
/// it.
pub fn azdls_validator(opt_list: &Vec<Option<String>>, catalog: Option<u32>) -> (r: Result<
    (),
    BaseFdwError,
>)
    ensures
        catalog == Some(FOREIGN_SERVER_RELATION_ID) ==> (r is Ok <==> (spec_names_only(
            opt_list@,
            spec_azdls_server_names(),
        ) && spec_list_contains_name(opt_list@, "endpoint"@))),
        catalog == Some(FOREIGN_TABLE_RELATION_ID) ==> (r is Ok <==> (spec_names_only(
            opt_list@,
            spec_table_names(),
        ) && spec_list_contains_name(opt_list@, "path"@) && spec_list_contains_name(
            opt_list@,
            "extension"@,
        ))),
        catalog is None ==> r is Ok,
        catalog matches Some(oid) && oid != FOREIGN_SERVER_RELATION_ID && oid
            != FOREIGN_TABLE_RELATION_ID ==> r is Ok,
        r matches Err(e) ==> e is Options,
{
    match catalog {
        Some(oid) => {
            if oid == FOREIGN_SERVER_RELATION_ID {
                let valid = azdls_server_name_list();
                proof {
                    lemma_names_bridge(opt_list@, valid@, spec_azdls_server_names());
                }
                match validate_options(opt_list, &valid) {
                    Ok(()) => {},
                    Err(e) => {
                        return Err(BaseFdwError::Options(e));
                    },
                }
                match check_options_contain(opt_list, "endpoint") {
                    Ok(()) => Ok(()),
                    Err(e) => Err(BaseFdwError::Options(e)),
                }
            } else if oid == FOREIGN_TABLE_RELATION_ID {
                validate_table_options(opt_list)
            } else {
                Ok(())
            }
        },
        None => Ok(()),
    }
}

/// Validate the table-level option list shared by every wrapper.
fn validate_table_options(opt_list: &Vec<Option<String>>) -> (r: Result<(), BaseFdwError>)
    ensures
        r is Ok <==> (spec_names_only(opt_list@, spec_table_names()) && spec_list_contains_name(
            opt_list@,
            "path"@,
        ) && spec_list_contains_name(opt_list@, "extension"@)),
        r matches Err(e) ==> e is Options,
{
    let valid = table_name_list();
    proof {
        lemma_names_bridge(opt_list@, valid@, spec_table_names());
    }
    match validate_options(opt_list, &valid) {
        Ok(()) => {},
        Err(e) => {
            return Err(BaseFdwError::Options(e));
        },
    }
    match check_options_contain(opt_list, "path") {
        Ok(()) => {},
        Err(e) => {
            return Err(BaseFdwError::Options(e));
        },
    }
    match check_options_contain(opt_list, "extension") {
        Ok(()) => Ok(()),
        Err(e) => Err(BaseFdwError::Options(e)),
    }
}

/// Shared constructor body of the wrappers: read `path` and `format`,
/// register the storage backend for the path's URL, and hand back a fresh
/// scan state.
fn new_fdw_state(
    handler: FdwHandler,
    table_options: &OptionMap,
    server_options: &OptionMap,
    user_mapping_options: &OptionMap,
    registry: &mut LakehouseObjectStoreRegistry,
) -> (r: Result<BaseFdwState, BaseFdwError>)
    requires
        handler != FdwHandler::Other,
        table_options.wf(),
        server_options.wf(),
        user_mapping_options.wf(),
        old(registry).wf(),
    ensures
        final(registry).wf(),
        match r {
            Ok(state) => state.wf() && state.dataframe is None && state.stream is None
                && state.current_batch is None && state.current_batch_index == 0
                && state.target_columns@.len() == 0 && (
            table_options.spec_get("path"@) matches Some(p) && (spec_url_parts(p@) matches Some(
                parts,
            ) && final(registry).spec_contains_key(spec_store_key(parts)))),
            Err(e) => e is Options || e is Context,
        },
        table_options.spec_get("path"@) is None ==> (r matches Err(e) && e is Options),
        table_options.spec_get("path"@) matches Some(p) ==> (spec_url_parts(p@) is None ==> (r
            matches Err(e) && (e matches BaseFdwError::Context(c) && (c matches
        ContextError::InvalidUrl(q) && q@ == p@)))),
        table_options.spec_get("path"@) matches Some(p) && (spec_url_parts(p@) matches Some(parts)
            && old(registry).spec_contains_key(spec_store_key(parts))) ==> r is Ok,
        forall|k2: Seq<char>|
            old(registry).spec_contains_key(k2) ==> final(registry).spec_contains_key(k2),
{
    let path_key = String::from_str("path");
    let format_key = String::from_str("format");
    let path = match require_option(&path_key, table_options) {
        Ok(p) => p,
        Err(e) => {
            return Err(BaseFdwError::Options(e));
        },
    };
    let format = require_option_or(&format_key, table_options, "");
    let url = match parse_url(&path) {
        Some(u) => u,
        None => {
            return Err(BaseFdwError::Context(ContextError::InvalidUrl(path)));
        },
    };
    let table_format = table_format_from(&format);
    match registry.register_object_store(
        handler,
        url,
        table_format,
        crate::schema::clone_options(server_options),
        crate::schema::clone_options(user_mapping_options),
    ) {
        Ok(()) => Ok(BaseFdwState::new_state()),
        Err(e) => Err(BaseFdwError::Context(e)),
    }
}

/// The S3-compatible foreign-data wrapper.
pub struct S3Fdw {
    pub state: BaseFdwState,
}

impl S3Fdw {
    /// Register the S3 storage backend for a URL.
    pub fn register_object_store(
        url: crate::location::UrlParts,
        format: TableFormat,
        server_options: OptionMap,
        user_mapping_options: OptionMap,
        registry: &mut LakehouseObjectStoreRegistry,
    ) -> (r: Result<(), ContextError>)
        requires
            old(registry).wf(),
            server_options.wf(),
            user_mapping_options.wf(),
        ensures
            final(registry).wf(),
            r is Ok ==> final(registry).spec_contains_key(spec_store_key(url.view_parts())),
            r is Err ==> final(registry).stores.entries@ == old(registry).stores.entries@,
            old(registry).spec_contains_key(spec_store_key(url.view_parts())) ==> (r is Ok
                && final(registry).stores.entries@ == old(registry).stores.entries@),
            forall|k2: Seq<char>|
                k2 != spec_store_key(url.view_parts()) ==> (final(registry).spec_contains_key(k2)
                    <==> old(registry).spec_contains_key(k2)),
    {
        registry.register_object_store(
            FdwHandler::S3,
            url,
            format,
            server_options,
            user_mapping_options,
        )
    }

    /// A wrapper instance for one foreign table: reads the table options and
    /// registers the S3 backend of the table's storage URL.
    pub fn new(
        table_options: &OptionMap,
        server_options: &OptionMap,
        user_mapping_options: &OptionMap,
        registry: &mut LakehouseObjectStoreRegistry,
    ) -> (r: Result<S3Fdw, BaseFdwError>)
        requires
            table_options.wf(),
            server_options.wf(),
            user_mapping_options.wf(),
            old(registry).wf(),
        ensures
            final(registry).wf(),
            match r {
                Ok(fdw) => fdw.state.wf() && fdw.state.dataframe is None && fdw.state.stream
                    is None && fdw.state.current_batch is None && fdw.state.current_batch_index
                    == 0 && fdw.state.target_columns@.len() == 0 && (
                table_options.spec_get("path"@) matches Some(p) && (spec_url_parts(p@) matches
                Some(parts) && final(registry).spec_contains_key(spec_store_key(parts)))),
                Err(e) => e is Options || e is Context,
            },
            table_options.spec_get("path"@) is None ==> (r matches Err(e) && e is Options),
            table_options.spec_get("path"@) matches Some(p) ==> (spec_url_parts(p@) is None
                ==> (r matches Err(e) && (e matches BaseFdwError::Context(c) && (c matches
            ContextError::InvalidUrl(q) && q@ == p@)))),
            table_options.spec_get("path"@) matches Some(p) && (spec_url_parts(p@) matches Some(
                parts,
            ) && old(registry).spec_contains_key(spec_store_key(parts))) ==> r is Ok,
            forall|k2: Seq<char>|
                old(registry).spec_contains_key(k2) ==> final(registry).spec_contains_key(k2),
    {
        match new_fdw_state(
            FdwHandler::S3,
            table_options,
            server_options,
            user_mapping_options,
            registry,
        ) {
            Ok(state) => Ok(S3Fdw { state }),
            Err(e) => Err(e),
        }
    }

    /// Validate an option list for a catalog level.
    pub fn validator(opt_list: &Vec<Option<String>>, catalog: Option<u32>) -> (r: Result<
        (),
        BaseFdwError,
    >)
        ensures
            catalog == Some(FOREIGN_SERVER_RELATION_ID) ==> (r is Ok <==> spec_names_only(
                opt_list@,
                spec_s3_server_names(),
            )),
            catalog == Some(FOREIGN_TABLE_RELATION_ID) ==> (r is Ok <==> (spec_names_only(
                opt_list@,
                spec_table_names(),
            ) && spec_list_contains_name(opt_list@, "path"@) && spec_list_contains_name(
                opt_list@,
                "extension"@,
            ))),
            catalog is None ==> r is Ok,
            catalog matches Some(oid) && oid != FOREIGN_SERVER_RELATION_ID && oid
                != FOREIGN_TABLE_RELATION_ID ==> r is Ok,
            r matches Err(e) ==> e is Options,
    {
        s3_validator(opt_list, catalog)
    }

    /// Begin a scan over the resolved provider.
    pub fn begin_scan(
        &mut self,
        quals: &Vec<Qual>,
        columns: &Vec<Column>,
        sorts: &Vec<Sort>,
        limit: &Option<Limit>,
        options: &OptionMap,
        provider: &TableProvider,
    ) -> (r: Result<(), BaseFdwError>)
        requires
            provider.wf(),
            spec_all_rows(provider.batches@).len() <= u64::MAX,
        ensures
            r is Ok ==> final(self).state.wf() && final(self).state.spec_fresh_scan(
                columns@,
                spec_scan_rows(
                    *provider,
                    columns@,
                    match limit {
                        Some(l) => Some(Limit { count: l.count, offset: l.offset }),
                        None => None,
                    },
                ),
            ),
            r matches Err(e) ==> *final(self) == *old(self) && e is ColumnNotFound,
            r is Ok <==> spec_columns_in_range(columns@, provider.schema@.len()),
    {
        self.state.begin_scan(quals, columns, sorts, limit, options, provider)
    }

    /// Serve the next row, in order.
    pub fn iter_scan(&mut self, row: &mut Row) -> (r: Result<Option<()>, BaseFdwError>)
        requires
            old(self).state.wf(),
        ensures
            final(self).state.wf(),
            old(self).state.dataframe is Some ==> match r {
                Ok(Some(_)) => old(self).state.spec_remaining_rows().len() > 0
                    && final(row).cells@ =~= old(self).state.spec_remaining_rows().first()
                    && final(self).state.spec_remaining_rows() =~= old(
                    self,
                ).state.spec_remaining_rows().drop_first(),
                Ok(None) => old(self).state.spec_remaining_rows().len() == 0,
                Err(_) => true,
            },
            old(self).state.dataframe is Some && old(self).state.spec_remaining_rows().len() == 0
                ==> (r matches Ok(o) && o is None),
            old(self).state.dataframe is Some && old(self).state.spec_remaining_rows().len() > 0
                && spec_row_convertible(
                old(self).state.spec_remaining_rows().first(),
                old(self).state.target_columns@,
            ) ==> (r matches Ok(o) && o is Some),
            old(self).state.dataframe is Some && old(self).state.spec_remaining_rows().len() > 0
                && !spec_row_convertible(
                old(self).state.spec_remaining_rows().first(),
                old(self).state.target_columns@,
            ) ==> (r matches Err(e) && e is DataTypeError),
    {
        self.state.iter_scan(row)
    }

    /// End the scan; the state can be begun afresh.
    pub fn end_scan(&mut self) -> (r: Result<(), BaseFdwError>)
        ensures
            r is Ok,
            final(self).state.wf(),
            final(self).state.dataframe is None,
            final(self).state.stream is None,
            final(self).state.current_batch is None,
    {
        self.state.end_scan()
    }

    /// Plan-description pairs; this wrapper reports none.
    pub fn explain(&self) -> (r: Result<Option<Vec<(String, String)>>, BaseFdwError>)
        ensures
            r matches Ok(v) && (v matches Some(pairs) && pairs@.len() == 0),
    {
        self.state.explain()
    }
}

/// The Azure Data Lake Storage foreign-data wrapper.
pub struct AzdlsFdw {
    pub state: BaseFdwState,
}

impl AzdlsFdw {
    /// Register the Azure Data Lake Storage backend for a URL.
    pub fn register_object_store(
        url: crate::location::UrlParts,
        format: TableFormat,
        server_options: OptionMap,
        user_mapping_options: OptionMap,
        registry: &mut LakehouseObjectStoreRegistry,
    ) -> (r: Result<(), ContextError>)
        requires
            old(registry).wf(),
            server_options.wf(),
            user_mapping_options.wf(),
        ensures
            final(registry).wf(),
            r is Ok ==> final(registry).spec_contains_key(spec_store_key(url.view_parts())),
            r is Err ==> final(registry).stores.entries@ == old(registry).stores.entries@,
            old(registry).spec_contains_key(spec_store_key(url.view_parts())) ==> (r is Ok
                && final(registry).stores.entries@ == old(registry).stores.entries@),
            forall|k2: Seq<char>|
                k2 != spec_store_key(url.view_parts()) ==> (final(registry).spec_contains_key(k2)
                    <==> old(registry).spec_contains_key(k2)),
    {
        registry.register_object_store(
            FdwHandler::Azdls,
            url,
            format,
            server_options,
            user_mapping_options,
        )
    }

    /// A wrapper instance for one foreign table: reads the table options and
    /// registers the Azure backend of the table's storage URL.
    pub fn new(
        table_options: &OptionMap,
        server_options: &OptionMap,
        user_mapping_options: &OptionMap,
        registry: &mut LakehouseObjectStoreRegistry,
    ) -> (r: Result<AzdlsFdw, BaseFdwError>)
        requires
            table_options.wf(),
            server_options.wf(),
            user_mapping_options.wf(),
            old(registry).wf(),
        ensures
            final(registry).wf(),
            match r {
                Ok(fdw) => fdw.state.wf() && fdw.state.dataframe is None && fdw.state.stream
                    is None && fdw.state.current_batch is None && fdw.state.current_batch_index
                    == 0 && fdw.state.target_columns@.len() == 0 && (
                table_options.spec_get("path"@) matches Some(p) && (spec_url_parts(p@) matches
                Some(parts) && final(registry).spec_contains_key(spec_store_key(parts)))),
                Err(e) => e is Options || e is Context,
            },
            table_options.spec_get("path"@) is None ==> (r matches Err(e) && e is Options),
            table_options.spec_get("path"@) matches Some(p) ==> (spec_url_parts(p@) is None
                ==> (r matches Err(e) && (e matches BaseFdwError::Context(c) && (c matches
            ContextError::InvalidUrl(q) && q@ == p@)))),
            table_options.spec_get("path"@) matches Some(p) && (spec_url_parts(p@) matches Some(
                parts,
            ) && old(registry).spec_contains_key(spec_store_key(parts))) ==> r is Ok,
            forall|k2: Seq<char>|
                old(registry).spec_contains_key(k2) ==> final(registry).spec_contains_key(k2),
    {
        match new_fdw_state(
            FdwHandler::Azdls,
            table_options,
            server_options,
            user_mapping_options,
            registry,
        ) {
            Ok(state) => Ok(AzdlsFdw { state }),
            Err(e) => Err(e),
        }
    }

    /// Validate an option list for a catalog level.
    pub fn validator(opt_list: &Vec<Option<String>>, catalog: Option<u32>) -> (r: Result<
        (),
        BaseFdwError,
    >)
        ensures
            catalog == Some(FOREIGN_SERVER_RELATION_ID) ==> (r is Ok <==> (spec_names_only(
                opt_list@,
                spec_azdls_server_names(),
            ) && spec_list_contains_name(opt_list@, "endpoint"@))),
            catalog == Some(FOREIGN_TABLE_RELATION_ID) ==> (r is Ok <==> (spec_names_only(
                opt_list@,
                spec_table_names(),
            ) && spec_list_contains_name(opt_list@, "path"@) && spec_list_contains_name(
                opt_list@,
                "extension"@,
            ))),
            catalog is None ==> r is Ok,
            catalog matches Some(oid) && oid != FOREIGN_SERVER_RELATION_ID && oid
                != FOREIGN_TABLE_RELATION_ID ==> r is Ok,
            r matches Err(e) ==> e is Options,
    {
        azdls_validator(opt_list, catalog)
    }

    /// Begin a scan over the resolved provider.
    pub fn begin_scan(
        &mut self,
        quals: &Vec<Qual>,
        columns: &Vec<Column>,
        sorts: &Vec<Sort>,
        limit: &Option<Limit>,
        options: &OptionMap,
        provider: &TableProvider,
    ) -> (r: Result<(), BaseFdwError>)
        requires
            provider.wf(),
            spec_all_rows(provider.batches@).len() <= u64::MAX,
        ensures
            r is Ok ==> final(self).state.wf() && final(self).state.spec_fresh_scan(
                columns@,
                spec_scan_rows(
                    *provider,
                    columns@,
                    match limit {
                        Some(l) => Some(Limit { count: l.count, offset: l.offset }),
                        None => None,
                    },
                ),
            ),
            r matches Err(e) ==> *final(self) == *old(self) && e is ColumnNotFound,
            r is Ok <==> spec_columns_in_range(columns@, provider.schema@.len()),
    {
        self.state.begin_scan(quals, columns, sorts, limit, options, provider)
    }

    /// Serve the next row, in order.
    pub fn iter_scan(&mut self, row: &mut Row) -> (r: Result<Option<()>, BaseFdwError>)
        requires
            old(self).state.wf(),
        ensures
            final(self).state.wf(),
            old(self).state.dataframe is Some ==> match r {
                Ok(Some(_)) => old(self).state.spec_remaining_rows().len() > 0
                    && final(row).cells@ =~= old(self).state.spec_remaining_rows().first()
                    && final(self).state.spec_remaining_rows() =~= old(
                    self,
                ).state.spec_remaining_rows().drop_first(),
                Ok(None) => old(self).state.spec_remaining_rows().len() == 0,
                Err(_) => true,
            },
            old(self).state.dataframe is Some && old(self).state.spec_remaining_rows().len() == 0
                ==> (r matches Ok(o) && o is None),
            old(self).state.dataframe is Some && old(self).state.spec_remaining_rows().len() > 0
                && spec_row_convertible(
                old(self).state.spec_remaining_rows().first(),
                old(self).state.target_columns@,
            ) ==> (r matches Ok(o) && o is Some),
            old(self).state.dataframe is Some && old(self).state.spec_remaining_rows().len() > 0
                && !spec_row_convertible(
                old(self).state.spec_remaining_rows().first(),
                old(self).state.target_columns@,
            ) ==> (r matches Err(e) && e is DataTypeError),
    {
        self.state.iter_scan(row)
    }

    /// End the scan; the state can be begun afresh.
    pub fn end_scan(&mut self) -> (r: Result<(), BaseFdwError>)
        ensures
            r is Ok,
            final(self).state.wf(),
            final(self).state.dataframe is None,
            final(self).state.stream is None,
            final(self).state.current_batch is None,
    {
        self.state.end_scan()
    }

    /// Plan-description pairs; this wrapper reports none.
    pub fn explain(&self) -> (r: Result<Option<Vec<(String, String)>>, BaseFdwError>)
        ensures
            r matches Ok(v) && (v matches Some(pairs) && pairs@.len() == 0),
    {
        self.state.explain()
    }
}

} // verus!

//! The object-store registry: one live storage backend per URL.
//!
//! Backends are keyed by the URL's scheme and authority.  Registration is
//! idempotent and all-or-nothing: a URL that is already registered is left
//! untouched, and a failed registration leaves no partial entry behind.

use vstd::prelude::*;

use crate::dict::StrDict;
use crate::location::{spec_store_key, url_store_key, UrlParts};
use crate::options::OptionsError;
use crate::stores::{
    azdls_config_pairs, build_operator, local_file_config_pairs, opendal_error_message,
    s3_config_pairs, scheme_of_handler, wrap_operator, FdwHandler, ObjectStoreConfig, TableFormat,
};

verus! {

/// Errors of registration, resolution and execution-context handling.
#[derive(Debug)]
pub enum ContextError {
    /// The storage backend could not be constructed; carries its description.
    ObjectStore(String),
    /// The storage path is not a well-formed URL; carries the path.
    InvalidUrl(String),
    /// An option surface rejected the declared options.
    Options(OptionsError),
    /// No object exists at the storage path; carries the path.
    ObjectNotFound(String),
    /// A declared attribute is incompatible with the resolved column at the
    /// same position; carries the position and the column name.
    SchemaMismatch(usize, String),
    /// No table of this name could be resolved; carries the name.
    TableNotFound(String),
    /// The database identity could not be resolved, or cached state that
    /// initialization guarantees was missing: a broken invariant.
    Identity(String),
}

impl ContextError {
    /// Human-readable description.  A missing object names its path, and a
    /// schema mismatch names the offending column.
    pub fn message(&self) -> (r: String)
        ensures
            match self {
                ContextError::ObjectNotFound(p) => r@ == "Object at location "@ + p@
                    + " not found"@,
                ContextError::InvalidUrl(p) => r@ == "invalid storage URL: "@ + p@,
                ContextError::ObjectStore(m) => r@ == "object store error: "@ + m@,
                ContextError::Options(e) => r@ == (match e {
                    OptionsError::RequiredOptionNotFound(k) => "required option not found: "@
                        + k@,
                    OptionsError::OptionNameNotFound(k) => "invalid option name: "@ + k@,
                }),
                ContextError::SchemaMismatch(_, c) => r@
                    == "declared attribute type is incompatible with column "@ + c@,
                ContextError::TableNotFound(t) => r@ == "table not found: "@ + t@,
                ContextError::Identity(m) => r@ == "identity error: "@ + m@,
            },
    {
        match self {
            ContextError::ObjectNotFound(p) => String::from_str("Object at location ").concat(
                p.as_str(),
            ).concat(" not found"),
            ContextError::InvalidUrl(p) => String::from_str("invalid storage URL: ").concat(
                p.as_str(),
            ),
            ContextError::ObjectStore(m) => String::from_str("object store error: ").concat(
                m.as_str(),
            ),
            ContextError::Options(e) => e.message(),
            ContextError::SchemaMismatch(_, c) => String::from_str(
                "declared attribute type is incompatible with column ",
            ).concat(c.as_str()),
            ContextError::TableNotFound(t) => String::from_str("table not found: ").concat(
                t.as_str(),
            ),
            ContextError::Identity(m) => String::from_str("identity error: ").concat(m.as_str()),
        }
    }
}

/// One registered storage backend: the key it was registered under, the
/// backend kind, and the generic storage adapter around the live backend.
pub struct ObjectStoreEntry {
    pub url_key: String,
    pub handler: FdwHandler,
    pub store: object_store_opendal::OpendalStore,
}

/// The registry of live storage backends, keyed by URL scheme and authority.
pub struct LakehouseObjectStoreRegistry {
    pub stores: StrDict<ObjectStoreEntry>,
}

impl LakehouseObjectStoreRegistry {
    pub open spec fn wf(self) -> bool {
        self.stores.wf()
    }

    /// Whether a backend is registered under the key of this URL.
    pub open spec fn spec_contains_key(self, key: Seq<char>) -> bool {
        self.stores.spec_contains(key)
    }

    pub fn new() -> (r: Self)
        ensures
            r.wf(),
            r.stores.spec_len() == 0,
            forall|k: Seq<char>| !r.spec_contains_key(k),
    {
        LakehouseObjectStoreRegistry { stores: StrDict::new() }
    }

    /// How many live backends the registry holds.
    pub fn store_count(&self) -> (r: usize)
        ensures
            r == self.stores.spec_len(),
    {
        self.stores.len()
    }

    /// Whether the URL's backend is already registered.
    pub fn contains_url(&self, url: &UrlParts) -> (r: bool)
        requires
            self.wf(),
        ensures
            r == self.spec_contains_key(spec_store_key(url.view_parts())),
    {
        let key = url_store_key(url);
        self.stores.contains(&key)
    }

    /// Register the storage backend for a URL.  Registering a URL whose key
    /// is already present is a no-op; otherwise the backend is built from the
    /// three option sources and inserted, all-or-nothing.
    pub fn register_object_store(
        &mut self,
        handler: FdwHandler,
        url: UrlParts,
        format: TableFormat,
        server_options: crate::options::OptionMap,
        user_mapping_options: crate::options::OptionMap,
    ) -> (r: Result<(), ContextError>)
        requires
            old(self).wf(),
            handler != FdwHandler::Other,
            server_options.wf(),
            user_mapping_options.wf(),
        ensures
            final(self).wf(),
            old(self).spec_contains_key(spec_store_key(url.view_parts())) ==> (r is Ok
                && final(self).stores.entries@ == old(self).stores.entries@),
            r is Ok ==> final(self).spec_contains_key(spec_store_key(url.view_parts())),
            r is Err ==> final(self).stores.entries@ == old(self).stores.entries@,
            r matches Err(e) ==> e is ObjectStore,
            forall|k2: Seq<char>|
                k2 != spec_store_key(url.view_parts()) ==> (final(self).spec_contains_key(k2)
                    <==> old(self).spec_contains_key(k2)),
            !old(self).spec_contains_key(spec_store_key(url.view_parts())) && r is Ok
                ==> final(self).stores.spec_len() == old(self).stores.spec_len() + 1,
    {
        let key = url_store_key(&url);
        if self.stores.contains(&key) {
            return Ok(());
        }
        let config = ObjectStoreConfig::new(url, format, server_options, user_mapping_options);
        let pairs = match handler {
            FdwHandler::S3 => s3_config_pairs(&config),
            FdwHandler::Azdls => azdls_config_pairs(&config),
            FdwHandler::LocalFile => local_file_config_pairs(),
            FdwHandler::Other => local_file_config_pairs(),
        };
        let scheme = scheme_of_handler(handler);
        match build_operator(scheme, &pairs) {
            Ok(op) => {
                let store = wrap_operator(op);
                let entry = ObjectStoreEntry { url_key: key.clone(), handler, store };
                self.stores.insert(key, entry);
                Ok(())
            },
            Err(e) => Err(ContextError::ObjectStore(opendal_error_message(&e))),
        }
    }

    /// Among the live backends there is at most one for any URL key: two
    /// entries with the same key are the same entry.
    pub proof fn lemma_at_most_one_backend(self, k: Seq<char>)
        requires
            self.wf(),
        ensures
            forall|i: int, j: int|
                0 <= i < self.stores.entries@.len() && 0 <= j < self.stores.entries@.len()
                    && self.stores.entries@[i].0@ == k && self.stores.entries@[j].0@ == k ==> i
                    == j,
    {
    }
}

} // verus!

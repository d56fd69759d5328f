//! The session/catalog manager.
//!
//! One execution context exists per logical database identity, built lazily
//! on first access and cached; its catalog owns the schema providers,
//! created on demand.  The manager is an explicitly owned service value: a
//! process embeds one instance and shares it under its own locking
//! discipline.

use vstd::prelude::*;

use crate::dict::StrDict;
use crate::provider::{FileListing, TableProvider};
use crate::registry::{ContextError, LakehouseObjectStoreRegistry};
use crate::schema::{
    spec_has_table_options, LakehouseSchemaProvider, RelationDesc,
};

verus! {

/// The catalog of one execution context: its schema providers, keyed by
/// schema name.
pub struct LakehouseCatalog {
    pub schemas: StrDict<LakehouseSchemaProvider>,
}

impl LakehouseCatalog {
    pub open spec fn wf(self) -> bool {
        self.schemas.wf() && forall|k: Seq<char>|
            match #[trigger] self.schemas.spec_get(k) {
                Some(sp) => sp.wf() && sp.schema_name@ == k,
                None => true,
            }
    }

    pub fn new() -> (r: Self)
        ensures
            r.wf(),
            r.schemas.spec_len() == 0,
            forall|k: Seq<char>| !r.schemas.spec_contains(k),
    {
        LakehouseCatalog { schemas: StrDict::new() }
    }

    /// The provider of a schema, if one is registered.
    pub fn schema(&self, name: &String) -> (r: Option<&LakehouseSchemaProvider>)
        requires
            self.wf(),
        ensures
            match r {
                Some(sp) => self.schemas.spec_get(name@) == Some(*sp),
                None => self.schemas.spec_get(name@) is None,
            },
    {
        self.schemas.get(name)
    }

    /// Register a new, empty schema provider under a fresh name.
    pub fn register_schema(&mut self, name: &String)
        requires
            old(self).wf(),
            !old(self).schemas.spec_contains(name@),
        ensures
            final(self).wf(),
            final(self).schemas.spec_get(name@) matches Some(sp) && sp.schema_name@ == name@
                && sp.tables.spec_len() == 0,
            forall|k2: Seq<char>|
                k2 != name@ ==> final(self).schemas.spec_get(k2) == old(self).schemas.spec_get(
                    k2,
                ),
            forall|k2: Seq<char>|
                final(self).schemas.spec_contains(k2) <==> (old(self).schemas.spec_contains(k2)
                    || k2 == name@),
    {
        let sp = LakehouseSchemaProvider::new(name.as_str());
        self.schemas.insert(name.clone(), sp);
    }
}

/// One execution context: the catalog of its database identity, the
/// session-scoped timezone, and information-schema visibility.
pub struct ExecutionContext {
    pub catalog_name: String,
    pub catalog: LakehouseCatalog,
    pub timezone: Option<String>,
    pub information_schema: bool,
}

impl ExecutionContext {
    pub open spec fn wf(self) -> bool {
        self.catalog.wf()
    }
}

/// Failures of identity resolution and of catalog bookkeeping.  Most signal
/// a broken invariant rather than user error.
#[derive(Debug)]
pub enum SessionError {
    ContextNotFound,
    CatalogNotFound(String),
    CatalogProviderNotFound(String),
    DatabaseNotFound(String),
    SchemaNotFound(String),
    SchemaProviderNotFound(String),
}

impl SessionError {
    /// Human-readable description.
    pub fn message(&self) -> (r: String)
        ensures
            match self {
                SessionError::ContextNotFound => r@ == "session context not initialized"@,
                SessionError::CatalogNotFound(n) => r@ == "catalog not found: "@ + n@,
                SessionError::CatalogProviderNotFound(n) => r@ == "catalog provider not found: "@
                    + n@,
                SessionError::DatabaseNotFound(n) => r@ == "database not found: "@ + n@,
                SessionError::SchemaNotFound(n) => r@ == "schema not found: "@ + n@,
                SessionError::SchemaProviderNotFound(n) => r@ == "schema provider not found: "@
                    + n@,
            },
    {
        match self {
            SessionError::ContextNotFound => String::from_str("session context not initialized"),
            SessionError::CatalogNotFound(n) => String::from_str("catalog not found: ").concat(
                n.as_str(),
            ),
            SessionError::CatalogProviderNotFound(n) => String::from_str(
                "catalog provider not found: ",
            ).concat(n.as_str()),
            SessionError::DatabaseNotFound(n) => String::from_str("database not found: ").concat(
                n.as_str(),
            ),
            SessionError::SchemaNotFound(n) => String::from_str("schema not found: ").concat(
                n.as_str(),
            ),
            SessionError::SchemaProviderNotFound(n) => String::from_str(
                "schema provider not found: ",
            ).concat(n.as_str()),
        }
    }
}

/// The session manager: the active database identity, the session timezone,
/// the lazily built execution context, and the process-wide object-store
/// registry.
pub struct Session {
    pub database_name: Option<String>,
    pub session_timezone: Option<String>,
    pub context: Option<ExecutionContext>,
    pub registry: LakehouseObjectStoreRegistry,
}

impl Session {
    /// The cached context, when present, belongs to the active database
    /// identity.
    pub open spec fn wf(self) -> bool {
        self.registry.wf() && match self.context {
            Some(c) => c.wf() && (match self.database_name {
                Some(n) => c.catalog_name@ == n@,
                None => false,
            }),
            None => true,
        }
    }

    /// A fresh session for a database identity: nothing cached yet.
    pub fn new(database_name: Option<String>, session_timezone: Option<String>) -> (r: Self)
        ensures
            r.wf(),
            r.database_name == database_name,
            r.session_timezone == session_timezone,
            r.context is None,
            r.registry.stores.spec_len() == 0,
    {
        Session {
            database_name,
            session_timezone,
            context: None,
            registry: LakehouseObjectStoreRegistry::new(),
        }
    }

    /// The catalog name, derived from the active database identity; an
    /// unresolvable identity is fatal for the calling operation.
    pub fn catalog_name(&self) -> (r: Result<String, SessionError>)
        ensures
            match r {
                Ok(n) => self.database_name matches Some(d) && n@ == d@,
                Err(e) => self.database_name is None && (e matches SessionError::DatabaseNotFound(
                    _,
                )),
            },
    {
        match &self.database_name {
            Some(n) => Ok(n.clone()),
            None => Err(SessionError::DatabaseNotFound(String::from_str("current database"))),
        }
    }

    /// The process-wide object-store registry.
    pub fn object_store_registry(&self) -> (r: &LakehouseObjectStoreRegistry)
        ensures
            *r == self.registry,
    {
        &self.registry
    }

    /// Build a fresh execution context for the active database identity:
    /// session timezone applied, information schema visible, an empty
    /// catalog registered under the catalog name.
    pub fn init(&self) -> (r: Result<ExecutionContext, SessionError>)
        ensures
            match r {
                Ok(c) => self.database_name matches Some(n) && c.catalog_name@ == n@ && c.wf()
                    && c.timezone == self.session_timezone && c.information_schema
                    && c.catalog.schemas.spec_len() == 0,
                Err(e) => self.database_name is None && (e matches SessionError::DatabaseNotFound(
                    _,
                )),
            },
    {
        let name = match self.catalog_name() {
            Ok(n) => n,
            Err(e) => {
                return Err(e);
            },
        };
        let timezone = match &self.session_timezone {
            Some(t) => Some(t.clone()),
            None => None,
        };
        Ok(
            ExecutionContext {
                catalog_name: name,
                catalog: LakehouseCatalog::new(),
                timezone,
                information_schema: true,
            },
        )
    }

    /// Ensure the execution context for the active database identity exists:
    /// built on first access, shared thereafter (the double-checked pattern
    /// collapses to get-or-build on an owned value).
    pub fn session_context(&mut self) -> (r: Result<(), SessionError>)
        requires
            old(self).wf(),
        ensures
            final(self).wf(),
            final(self).database_name == old(self).database_name,
            final(self).session_timezone == old(self).session_timezone,
            final(self).registry == old(self).registry,
            r is Ok <==> old(self).database_name is Some,
            r matches Err(e) ==> e is DatabaseNotFound,
            old(self).context matches Some(c) ==> final(self).context == Some(c),
            r is Err ==> final(self).context == old(self).context,
            r is Ok ==> final(self).context is Some,
            old(self).context is None && r is Ok ==> (final(self).context matches Some(c)
                && c.timezone == old(self).session_timezone && c.information_schema
                && c.catalog.schemas.spec_len() == 0),
    {
        match &self.context {
            Some(_) => {
                proof {
                    assert(old(self).context matches Some(c) && self.database_name is Some);
                }
                Ok(())
            },
            None => {
                match self.init() {
                    Ok(c) => {
                        self.context = Some(c);
                        Ok(())
                    },
                    Err(e) => Err(e),
                }
            },
        }
    }

    /// Ensure the context and its catalog exist; the catalog is registered
    /// at context construction, so this is the same lazy initialization.
    pub fn catalog(&mut self) -> (r: Result<(), SessionError>)
        requires
            old(self).wf(),
        ensures
            final(self).wf(),
            final(self).database_name == old(self).database_name,
            final(self).registry == old(self).registry,
            r is Ok <==> old(self).database_name is Some,
            r matches Err(e) ==> e is DatabaseNotFound,
            old(self).context matches Some(c) ==> final(self).context == Some(c),
            r is Ok ==> final(self).context is Some,
            old(self).context is None && r is Ok ==> (final(self).context matches Some(c)
                && c.timezone == old(self).session_timezone && c.information_schema
                && c.catalog.schemas.spec_len() == 0),
    {
        self.session_context()
    }

    /// Borrow the cached execution context.
    pub fn context_ref(&self) -> (r: Option<&ExecutionContext>)
        ensures
            match r {
                Some(c) => self.context == Some(*c),
                None => self.context is None,
            },
    {
        match &self.context {
            Some(c) => Some(c),
            None => None,
        }
    }

    /// Ensure the context exists and that the named schema has a provider,
    /// registering a new, empty one into the catalog when none exists.
    pub fn schema_provider(&mut self, schema_name: &String) -> (r: Result<(), SessionError>)
        requires
            old(self).wf(),
        ensures
            final(self).wf(),
            final(self).database_name == old(self).database_name,
            final(self).registry == old(self).registry,
            r is Ok <==> old(self).database_name is Some,
            r matches Err(e) ==> e is DatabaseNotFound,
            r is Ok ==> (final(self).context matches Some(c) && (c.catalog.schemas.spec_get(
                schema_name@,
            ) matches Some(sp) && sp.schema_name@ == schema_name@)),
            old(self).context is None && r is Ok ==> (final(self).context matches Some(c) && (
            c.catalog.schemas.spec_get(schema_name@) matches Some(sp) && sp.tables.spec_len()
                == 0)),
            old(self).context matches Some(c0) ==> (!c0.catalog.schemas.spec_contains(
                schema_name@,
            ) && r is Ok ==> (final(self).context matches Some(c1) && (
            c1.catalog.schemas.spec_get(schema_name@) matches Some(sp) && sp.tables.spec_len()
                == 0))),
            old(self).context matches Some(c0) ==> (c0.catalog.schemas.spec_get(schema_name@)
                matches Some(sp0) ==> (final(self).context matches Some(c1)
                && c1.catalog.schemas.spec_get(schema_name@) == Some(sp0))),
            old(self).context matches Some(c0) ==> (final(self).context matches Some(c1)
                && forall|k2: Seq<char>|
                    k2 != schema_name@ ==> c1.catalog.schemas.spec_get(k2)
                        == c0.catalog.schemas.spec_get(k2)),
    {
        match self.session_context() {
            Ok(()) => {},
            Err(e) => {
                return Err(e);
            },
        }
        match &mut self.context {
            Some(ctx) => {
                if !ctx.catalog.schemas.contains(schema_name) {
                    ctx.catalog.register_schema(schema_name);
                }
                Ok(())
            },
            None => Err(SessionError::ContextNotFound),
        }
    }

    /// The resolved provider cached for a relation, as a mathematical value.
    pub open spec fn spec_provider_at(self, schema_name: Seq<char>, table_oid: u32) -> Option<
        TableProvider,
    > {
        match self.context {
            Some(c) => match c.catalog.schemas.spec_get(schema_name) {
                Some(sp) => sp.tables.spec_get(table_oid),
                None => None,
            },
            None => None,
        }
    }

    /// Borrow the cached provider of a resolved table.
    pub fn table_provider(&self, schema_name: &String, table_oid: u32) -> (r: Option<
        &TableProvider,
    >)
        requires
            self.wf(),
        ensures
            match r {
                Some(p) => self.spec_provider_at(schema_name@, table_oid) == Some(*p) && p.wf(),
                None => self.spec_provider_at(schema_name@, table_oid) is None,
            },
    {
        match &self.context {
            Some(ctx) => {
                match ctx.catalog.schemas.get(schema_name) {
                    Some(sp) => {
                        proof {
                            assert(ctx.catalog.schemas.spec_get(schema_name@) matches Some(x)
                                && x.wf());
                        }
                        match sp.tables.get(table_oid) {
                            Some(p) => {
                                proof {
                                    sp.tables.lemma_contains_get(table_oid);
                                    let w = choose|w: int|
                                        0 <= w < sp.tables.entries@.len()
                                            && sp.tables.entries@[w].0 == table_oid;
                                }
                                Some(p)
                            },
                            None => None,
                        }
                    },
                    None => None,
                }
            },
            None => None,
        }
    }

    /// Resolve an external relation through this session: initialize the
    /// context on first use, register the schema provider on demand, then
    /// resolve and cache the table provider, registering its storage
    /// backend when the URL is new.  A failure leaves the shared context and
    /// registry usable; only the failing resolution is affected.
    pub fn resolve_table(&mut self, rel: &RelationDesc, listing: Option<FileListing>) -> (r:
        Result<(), ContextError>)
        requires
            old(self).wf(),
            rel.wf(),
            match listing {
                Some(l) => l.wf() && Some(l.path@) == crate::schema::spec_rel_path(*rel),
                None => true,
            },
        ensures
            final(self).wf(),
            final(self).database_name == old(self).database_name,
            old(self).database_name is None ==> (r matches Err(e) && e is Identity),
            r is Ok ==> (final(self).context matches Some(c) && (c.catalog.schemas.spec_get(
                rel.schema_name@,
            ) matches Some(sp) && sp.tables.spec_contains(rel.oid))),
            r matches Err(e) ==> (e is ObjectNotFound ==> (listing is None && (e matches
            ContextError::ObjectNotFound(q) && Some(q@) == crate::schema::spec_rel_path(*rel)))),
            r matches Err(e) && e is SchemaMismatch ==> (listing matches Some(l)
                && !crate::provider::spec_schema_compatible(l.schema@, rel.attributes@)),
            r matches Err(e) && e is InvalidUrl ==> crate::location::spec_url_parts(
                crate::schema::spec_rel_path(*rel)->0,
            ) is None,
            crate::schema::spec_rel_path(*rel) matches Some(p) ==> (
            crate::location::spec_url_parts(p) matches Some(parts) ==> (
            old(self).registry.spec_contains_key(crate::location::spec_store_key(parts))
                ==> final(self).registry.stores.entries@ == old(self).registry.stores.entries@)),
            old(self).database_name is Some && spec_has_table_options(*rel) && old(
                self,
            ).spec_provider_at(rel.schema_name@, rel.oid) is None && (
            crate::location::spec_url_parts(crate::schema::spec_rel_path(*rel)->0) matches Some(
                parts,
            ) && old(self).registry.spec_contains_key(crate::location::spec_store_key(parts)))
                && (listing matches Some(l) && crate::provider::spec_schema_compatible(
                l.schema@,
                rel.attributes@,
            )) ==> r is Ok,
            old(self).database_name is Some && spec_has_table_options(*rel) && old(
                self,
            ).spec_provider_at(rel.schema_name@, rel.oid) is None && (
            crate::location::spec_url_parts(crate::schema::spec_rel_path(*rel)->0) matches Some(
                parts,
            ) && old(self).registry.spec_contains_key(crate::location::spec_store_key(parts)))
                && listing is None ==> (r matches Err(e) && e is ObjectNotFound),
            old(self).context matches Some(c0) ==> (final(self).context matches Some(c1)
                && forall|k2: Seq<char>|
                    k2 != rel.schema_name@ ==> c1.catalog.schemas.spec_get(k2)
                        == c0.catalog.schemas.spec_get(k2)),
            old(self).context matches Some(c0) ==> (c0.catalog.schemas.spec_get(rel.schema_name@)
                matches Some(sp0) ==> (sp0.tables.spec_contains(rel.oid)
                && spec_has_table_options(*rel) ==> (r is Ok && (final(self).context matches Some(
                c1,
            ) && (c1.catalog.schemas.spec_get(rel.schema_name@) matches Some(sp1)
                && sp1.tables.entries@ == sp0.tables.entries@))))),
    {
        match self.session_context() {
            Ok(()) => {},
            Err(e) => {
                return Err(ContextError::Identity(e.message()));
            },
        }
        match &mut self.context {
            Some(ctx) => {
                if !ctx.catalog.schemas.contains(&rel.schema_name) {
                    ctx.catalog.register_schema(&rel.schema_name);
                }
                match ctx.catalog.schemas.remove(&rel.schema_name) {
                    Some(mut sp) => {
                        proof {
                            sp.tables.lemma_contains_get(rel.oid);
                        }
                        let res = sp.table_impl(rel, &mut self.registry, listing);
                        ctx.catalog.schemas.insert(rel.schema_name.clone(), sp);
                        res
                    },
                    None => Err(
                        ContextError::Identity(String::from_str("schema provider missing")),
                    ),
                }
            },
            None => Err(ContextError::Identity(String::from_str("context missing"))),
        }
    }
}

} // verus!

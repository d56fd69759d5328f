//! The schema/table resolver.
//!
//! A schema provider owns a cache from a relation's stable identifier to its
//! table provider.  Resolution reads the relation's declared options,
//! registers the storage backend when the URL is new, constructs a listing
//! provider over the files at the path, validates the provider's schema
//! against the relation's declared attributes, and caches the result; a
//! provider, once resolved, is reused unchanged.

use vstd::prelude::*;

use crate::dict::OidDict;
use crate::location::{parse_url, spec_store_key, spec_url_parts};
use crate::options::{require_option, require_option_or, OptionMap};
use crate::provider::{
    create_listing_provider, validate_schema, FileListing, PgAttribute, TableProvider,
    spec_schema_compatible,
};
use crate::registry::{ContextError, LakehouseObjectStoreRegistry};
use crate::stores::{
    fdw_handler_from_name, spec_fdw_handler, table_format_from, FdwHandler,
};

verus! {

/// The host engine's description of one external relation: its stable
/// identifier, names, declared attributes, declared options at the three
/// levels, and its foreign-data-wrapper association.
pub struct RelationDesc {
    pub oid: u32,
    pub schema_name: String,
    pub table_name: String,
    pub attributes: Vec<PgAttribute>,
    pub table_options: OptionMap,
    pub server_options: OptionMap,
    pub user_mapping_options: OptionMap,
    pub fdw_name: String,
    pub is_foreign_table: bool,
}

impl RelationDesc {
    pub open spec fn wf(self) -> bool {
        self.table_options.wf() && self.server_options.wf() && self.user_mapping_options.wf()
    }
}

/// The declared storage path of a relation, when present.
pub open spec fn spec_rel_path(rel: RelationDesc) -> Option<Seq<char>> {
    match rel.table_options.spec_get("path"@) {
        Some(p) => Some(p@),
        None => None,
    }
}

/// The declared file extension of a relation, when present.
pub open spec fn spec_rel_extension(rel: RelationDesc) -> Option<Seq<char>> {
    match rel.table_options.spec_get("extension"@) {
        Some(e) => Some(e@),
        None => None,
    }
}

/// Whether the relation declares both required table options.
pub open spec fn spec_has_table_options(rel: RelationDesc) -> bool {
    spec_rel_path(rel) is Some && spec_rel_extension(rel) is Some
}

/// One schema's provider: a named schema and its cache of resolved table
/// providers, keyed by relation identifier.
pub struct LakehouseSchemaProvider {
    pub schema_name: String,
    pub tables: OidDict<TableProvider>,
}

impl LakehouseSchemaProvider {
    pub open spec fn wf(self) -> bool {
        self.tables.wf() && forall|o: u32|
            match #[trigger] self.tables.spec_get(o) {
                Some(p) => p.wf(),
                None => true,
            }
    }

    /// A fresh provider for a schema: an empty cache.
    pub fn new(schema_name: &str) -> (r: Self)
        ensures
            r.wf(),
            r.schema_name@ == schema_name@,
            r.tables.spec_len() == 0,
            forall|o: u32| !r.tables.spec_contains(o),
    {
        LakehouseSchemaProvider { schema_name: schema_name.to_owned(), tables: OidDict::new() }
    }

    /// The cached provider of a relation, if resolved.
    pub fn table(&self, table_oid: u32) -> (r: Option<&TableProvider>)
        requires
            self.wf(),
        ensures
            match r {
                Some(p) => self.tables.spec_get(table_oid) == Some(*p),
                None => self.tables.spec_get(table_oid) is None,
            },
    {
        self.tables.get(table_oid)
    }

    /// Whether a relation is a foreign table of one of this library's
    /// storage backends; never an error.
    pub fn table_exist(&self, rel: Option<&RelationDesc>) -> (r: bool)
        ensures
            r == match rel {
                Some(d) => d.is_foreign_table && spec_fdw_handler(d.fdw_name@)
                    != FdwHandler::Other,
                None => false,
            },
    {
        match rel {
            Some(d) => {
                if !d.is_foreign_table {
                    return false;
                }
                let handler = fdw_handler_from_name(&d.fdw_name);
                match handler {
                    FdwHandler::Other => false,
                    _ => true,
                }
            },
            None => false,
        }
    }

    /// Resolve the relation to a table provider and cache it.
    ///
    /// The required options are read first: a missing `path` or `extension`
    /// is a configuration error even for a cached table.  A cached provider
    /// is reused unchanged.  Otherwise the storage backend is registered
    /// when the URL's key is new, the listing provider is built over the
    /// files at the path (the same way for both table formats), and its
    /// schema is validated position by position against the declared
    /// attributes before the provider enters the cache; on any error the
    /// cache is left untouched.
    pub fn table_impl(
        &mut self,
        rel: &RelationDesc,
        registry: &mut LakehouseObjectStoreRegistry,
        listing: Option<FileListing>,
    ) -> (r: Result<(), ContextError>)
        requires
            rel.wf(),
            old(self).wf(),
            old(registry).wf(),
            match listing {
                Some(l) => l.wf() && Some(l.path@) == spec_rel_path(*rel),
                None => true,
            },
        ensures
            final(self).wf(),
            final(registry).wf(),
            final(self).schema_name@ == old(self).schema_name@,
            forall|o: u32|
                o != rel.oid ==> final(self).tables.spec_get(o) == old(self).tables.spec_get(o),
            r is Err ==> final(self).tables.entries@ == old(self).tables.entries@,
            r is Ok ==> final(self).tables.spec_contains(rel.oid),
            !spec_has_table_options(*rel) ==> (r matches Err(e) && e is Options
                && final(registry).stores.entries@ == old(registry).stores.entries@),
            old(self).tables.spec_contains(rel.oid) && spec_has_table_options(*rel) ==> (r is Ok
                && final(self).tables.entries@ == old(self).tables.entries@
                && final(registry).stores.entries@ == old(registry).stores.entries@),
            r is Ok && !old(self).tables.spec_contains(rel.oid) ==> (listing matches Some(l)
                && (final(self).tables.spec_get(rel.oid) matches Some(p) && p.schema@ == l.schema@
                && p.batches@ == l.batches@) && spec_schema_compatible(l.schema@, rel.attributes@)),
            r matches Err(e) ==> (e is ObjectNotFound ==> (listing is None && (e matches
            ContextError::ObjectNotFound(q) && Some(q@) == spec_rel_path(*rel)))),
            r matches Err(e) && e is SchemaMismatch ==> (listing matches Some(l)
                && !spec_schema_compatible(l.schema@, rel.attributes@)),
            r matches Err(e) && e is InvalidUrl ==> spec_url_parts(spec_rel_path(*rel)->0)
                is None,
            spec_has_table_options(*rel) && !old(self).tables.spec_contains(rel.oid)
                && spec_url_parts(spec_rel_path(*rel)->0) is None ==> (r matches Err(e) && (e
                matches ContextError::InvalidUrl(q) && Some(q@) == spec_rel_path(*rel))),
            forall|k2: Seq<char>|
                old(registry).spec_contains_key(k2) ==> final(registry).spec_contains_key(k2),
            spec_rel_path(*rel) matches Some(p) ==> (spec_url_parts(p) matches Some(parts) ==> (
            old(registry).spec_contains_key(spec_store_key(parts))
                ==> final(registry).stores.entries@ == old(registry).stores.entries@)),
            spec_has_table_options(*rel) && !old(self).tables.spec_contains(rel.oid) && (
            spec_url_parts(spec_rel_path(*rel)->0) matches Some(parts)
                && old(registry).spec_contains_key(spec_store_key(parts))) && listing is None
                ==> (r matches Err(e) && e is ObjectNotFound),
            spec_has_table_options(*rel) && !old(self).tables.spec_contains(rel.oid) && (
            spec_url_parts(spec_rel_path(*rel)->0) matches Some(parts)
                && old(registry).spec_contains_key(spec_store_key(parts))) && (
            listing matches Some(l) && spec_schema_compatible(l.schema@, rel.attributes@))
                ==> r is Ok,
    {
        let path_key = String::from_str("path");
        let extension_key = String::from_str("extension");
        let format_key = String::from_str("format");
        let path = match require_option(&path_key, &rel.table_options) {
            Ok(p) => p,
            Err(e) => {
                return Err(ContextError::Options(e));
            },
        };
        let extension = match require_option(&extension_key, &rel.table_options) {
            Ok(e) => e,
            Err(e) => {
                return Err(ContextError::Options(e));
            },
        };
        let format = require_option_or(&format_key, &rel.table_options, "");
        let _ = extension;
        if self.tables.contains(rel.oid) {
            return Ok(());
        }
        let url = match parse_url(&path) {
            Some(u) => u,
            None => {
                return Err(ContextError::InvalidUrl(path));
            },
        };
        if !registry.contains_url(&url) {
            let handler = fdw_handler_from_name(&rel.fdw_name);
            match handler {
                FdwHandler::Other => {
                    return Err(
                        ContextError::ObjectStore(
                            String::from_str("no storage backend for this foreign-data wrapper"),
                        ),
                    );
                },
                _ => {},
            }
            let table_format = table_format_from(&format);
            match registry.register_object_store(
                handler,
                url,
                table_format,
                clone_options(&rel.server_options),
                clone_options(&rel.user_mapping_options),
            ) {
                Ok(()) => {},
                Err(e) => {
                    return Err(e);
                },
            }
        }
        let provider = match create_listing_provider(&path, listing) {
            Ok(p) => p,
            Err(e) => {
                return Err(e);
            },
        };
        match validate_schema(&provider.schema, &rel.attributes) {
            Ok(()) => {},
            Err(e) => {
                return Err(e);
            },
        }
        self.tables.insert(rel.oid, provider);
        Ok(())
    }
}

/// An exact copy of an option set.
pub fn clone_options(options: &OptionMap) -> (r: OptionMap)
    requires
        options.wf(),
    ensures
        r.wf(),
        r.entries@.len() == options.entries@.len(),
        forall|i: int|
            0 <= i < options.entries@.len() ==> (#[trigger] r.entries@[i]).0@
                == options.entries@[i].0@ && r.entries@[i].1@ == options.entries@[i].1@,
        forall|k: Seq<char>|
            crate::stores::opt_view(r.spec_get(k)) == crate::stores::opt_view(
                options.spec_get(k),
            ),
        forall|k: Seq<char>| r.spec_contains(k) <==> options.spec_contains(k),
{
    let n = options.entries.len();
    let mut entries: Vec<(String, String)> = Vec::new();
    let mut i: usize = 0;
    while i < n
        invariant
            n == options.entries@.len(),
            0 <= i <= n,
            entries@.len() == i,
            forall|p: int|
                0 <= p < i ==> (#[trigger] entries@[p]).0@ == options.entries@[p].0@
                    && entries@[p].1@ == options.entries@[p].1@,
        decreases n - i,
    {
        let k = options.entries[i].0.clone();
        let v = options.entries[i].1.clone();
        entries.push((k, v));
        i = i + 1;
    }
    let r = crate::dict::StrDict { entries };
    proof {
        lemma_find_congruent(r.entries@, options.entries@);
        assert forall|k: Seq<char>| r.spec_contains(k) <==> options.spec_contains(k) by {
            if r.spec_contains(k) {
                let w = choose|w: int| 0 <= w < r.entries@.len() && r.entries@[w].0@ == k;
                assert(options.entries@[w].0@ == k);
            }
            if options.spec_contains(k) {
                let w = choose|w: int|
                    0 <= w < options.entries@.len() && options.entries@[w].0@ == k;
                assert(r.entries@[w].0@ == k);
            }
        }
    }
    r
}

proof fn lemma_find_congruent(s1: Seq<(String, String)>, s2: Seq<(String, String)>)
    requires
        s1.len() == s2.len(),
        forall|i: int|
            0 <= i < s1.len() ==> (#[trigger] s1[i]).0@ == s2[i].0@ && s1[i].1@ == s2[i].1@,
    ensures
        forall|k: Seq<char>|
            crate::stores::opt_view(crate::dict::find_str(s1, k)) == crate::stores::opt_view(
                crate::dict::find_str(s2, k),
            ),
    decreases s1.len(),
{
    if s1.len() > 0 {
        assert forall|i: int|
            0 <= i < s1.drop_last().len() implies (#[trigger] s1.drop_last()[i]).0@
            == s2.drop_last()[i].0@ && s1.drop_last()[i].1@ == s2.drop_last()[i].1@ by {
            assert(s1.drop_last()[i] == s1[i]);
            assert(s2.drop_last()[i] == s2[i]);
        }
        lemma_find_congruent(s1.drop_last(), s2.drop_last());
        assert(s1.last() == s1[s1.len() - 1]);
        assert(s2.last() == s2[s2.len() - 1]);
        assert(s1.last().0@ == s2.last().0@);
        assert forall|k: Seq<char>|
            crate::stores::opt_view(crate::dict::find_str(s1, k)) == crate::stores::opt_view(
                crate::dict::find_str(s2, k),
            ) by {
            if s1.last().0@ == k {
                assert(crate::dict::find_str(s1, k) == Some(s1.last().1));
                assert(crate::dict::find_str(s2, k) == Some(s2.last().1));
            } else {
                assert(crate::dict::find_str(s1, k) == crate::dict::find_str(s1.drop_last(), k));
                assert(crate::dict::find_str(s2, k) == crate::dict::find_str(s2.drop_last(), k));
            }
        }
    }
}

} // verus!

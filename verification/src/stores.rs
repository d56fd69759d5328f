//! Storage backends: table formats, backend kinds, and the translation of
//! declared options into a backend configuration.
//!
//! Each backend kind (S3-compatible, Azure Data Lake Storage, local listing)
//! is configured from three disjoint sources: URL components, server-level
//! options, and user-mapping options (credentials).  The result is a set of
//! configuration pairs handed to the object-storage layer.

use vstd::prelude::*;

use crate::dict::StrDict;
use crate::location::{ConfigPairs, UrlParts};
use crate::options::OptionMap;


verus! {

/// The declared table format: plain file listing, or a transactional table
/// format whose listing is driven by committed metadata.
#[derive(Clone, Copy, PartialEq, Eq, Structural, Debug)]
pub enum TableFormat {
    Plain,
    Delta,
}

/// Map the relation's `format` option to a table format: the empty string and
/// unrecognised values select plain listing, `delta` selects the
/// transactional format.
pub fn table_format_from(s: &String) -> (r: TableFormat)
    ensures
        r == spec_table_format(s@),
{
    let delta = String::from_str("delta");
    if *s == delta {
        TableFormat::Delta
    } else {
        TableFormat::Plain
    }
}

/// The mathematical form of the format mapping.
pub open spec fn spec_table_format(s: Seq<char>) -> TableFormat {
    if s == "delta"@ {
        TableFormat::Delta
    } else {
        TableFormat::Plain
    }
}

/// The storage-backend kind behind a foreign-data wrapper, derived from the
/// wrapper's registered name.
#[derive(Clone, Copy, PartialEq, Eq, Structural, Debug)]
pub enum FdwHandler {
    S3,
    LocalFile,
    Azdls,
    Other,
}

/// Map a foreign-data-wrapper name to the backend kind it drives; an unknown
/// name is `Other` (not one of this library's wrappers).
pub fn fdw_handler_from_name(name: &String) -> (r: FdwHandler)
    ensures
        r == spec_fdw_handler(name@),
{
    if *name == String::from_str("s3_fdw") {
        FdwHandler::S3
    } else if *name == String::from_str("local_file_fdw") {
        FdwHandler::LocalFile
    } else if *name == String::from_str("azdls_fdw") {
        FdwHandler::Azdls
    } else {
        FdwHandler::Other
    }
}

/// The mathematical form of the handler mapping.
pub open spec fn spec_fdw_handler(name: Seq<char>) -> FdwHandler {
    if name == "s3_fdw"@ {
        FdwHandler::S3
    } else if name == "local_file_fdw"@ {
        FdwHandler::LocalFile
    } else if name == "azdls_fdw"@ {
        FdwHandler::Azdls
    } else {
        FdwHandler::Other
    }
}

/// Everything needed to configure one storage backend: the parsed storage
/// URL, the table format, and the two option sets.
pub struct ObjectStoreConfig {
    pub url: UrlParts,
    pub format: TableFormat,
    pub server_options: OptionMap,
    pub user_mapping_options: OptionMap,
}

impl ObjectStoreConfig {
    pub open spec fn wf(self) -> bool {
        self.server_options.wf() && self.user_mapping_options.wf()
    }

    pub fn new(
        url: UrlParts,
        format: TableFormat,
        server_options: OptionMap,
        user_mapping_options: OptionMap,
    ) -> (r: Self)
        requires
            server_options.wf(),
            user_mapping_options.wf(),
        ensures
            r.wf(),
            r.url == url,
            r.format == format,
            r.server_options == server_options,
            r.user_mapping_options == user_mapping_options,
    {
        ObjectStoreConfig { url, format, server_options, user_mapping_options }
    }
}

/// The view of an optional string value.
pub open spec fn opt_view(o: Option<String>) -> Option<Seq<char>> {
    match o {
        Some(s) => Some(s@),
        None => None,
    }
}

/// Insert a configuration key that is known to be absent.
fn put_pair(pairs: &mut ConfigPairs, key: &'static str, value: String)
    requires
        old(pairs).wf(),
        !old(pairs).spec_contains(key@),
    ensures
        final(pairs).wf(),
        final(pairs).spec_get(key@) matches Some(v) && v@ == value@,
        forall|k2: Seq<char>| k2 != key@ ==> final(pairs).spec_get(k2) == old(pairs).spec_get(k2),
        forall|k2: Seq<char>|
            final(pairs).spec_contains(k2) <==> (old(pairs).spec_contains(k2) || k2 == key@),
{
    pairs.insert(key.to_owned(), value);
}

/// Copy an option under a new key when the source declares it.
fn copy_option(
    pairs: &mut ConfigPairs,
    source: &OptionMap,
    source_key: &'static str,
    dest_key: &'static str,
)
    requires
        old(pairs).wf(),
        source.wf(),
        !old(pairs).spec_contains(dest_key@),
    ensures
        final(pairs).wf(),
        opt_view(final(pairs).spec_get(dest_key@)) == opt_view(source.spec_get(source_key@)),
        forall|k2: Seq<char>|
            k2 != dest_key@ ==> final(pairs).spec_get(k2) == old(pairs).spec_get(k2),
        forall|k2: Seq<char>|
            final(pairs).spec_contains(k2) <==> (old(pairs).spec_contains(k2) || (k2 == dest_key@
                && source.spec_contains(source_key@))),
{
    let k = source_key.to_owned();
    proof {
        source.lemma_contains_get(source_key@);
        pairs.lemma_contains_get(dest_key@);
    }
    match source.get(&k) {
        Some(v) => {
            let value = v.clone();
            pairs.insert(dest_key.to_owned(), value);
        },
        None => {
            proof {
                source.lemma_contains_get(source_key@);
            }
        },
    }
}

/// The configuration pairs of the S3-compatible backend, built from the three
/// option sources.  Ambient configuration loading and instance-metadata
/// lookup are always disabled: only the declared options configure the
/// backend.  The result holds no keys besides the ones listed here.
pub fn s3_config_pairs(cfg: &ObjectStoreConfig) -> (r: ConfigPairs)
    requires
        cfg.wf(),
    ensures
        r.wf(),
        opt_view(r.spec_get("disable_config_load"@)) == Some("true"@),
        opt_view(r.spec_get("disable_ec2_metadata"@)) == Some("true"@),
        opt_view(r.spec_get("bucket"@)) == (match cfg.url.host {
            Some(h) => Some(h@),
            None => None::<Seq<char>>,
        }),
        opt_view(r.spec_get("region"@)) == opt_view(cfg.server_options.spec_get("region"@)),
        opt_view(r.spec_get("access_key_id"@)) == opt_view(
            cfg.user_mapping_options.spec_get("access_key_id"@),
        ),
        opt_view(r.spec_get("secret_access_key"@)) == opt_view(
            cfg.user_mapping_options.spec_get("secret_access_key"@),
        ),
        opt_view(r.spec_get("session_token"@)) == opt_view(
            cfg.user_mapping_options.spec_get("security_token"@),
        ),
        opt_view(r.spec_get("endpoint"@)) == opt_view(cfg.server_options.spec_get("endpoint"@)),
        opt_view(r.spec_get("allow_anonymous"@)) == (
        if opt_view(cfg.server_options.spec_get("allow_anonymous"@)) == Some("true"@) {
            Some("true"@)
        } else {
            None::<Seq<char>>
        }),
        forall|k2: Seq<char>|
            r.spec_contains(k2) ==> (k2 == "disable_config_load"@ || k2 == "disable_ec2_metadata"@
                || k2 == "bucket"@ || k2 == "region"@ || k2 == "access_key_id"@ || k2
                == "secret_access_key"@ || k2 == "session_token"@ || k2 == "endpoint"@ || k2
                == "allow_anonymous"@),
{
    let mut pairs: ConfigPairs = StrDict::new();
    proof {
        reveal_strlit("disable_config_load");
        reveal_strlit("disable_ec2_metadata");
        reveal_strlit("bucket");
        reveal_strlit("region");
        reveal_strlit("access_key_id");
        reveal_strlit("secret_access_key");
        reveal_strlit("session_token");
        reveal_strlit("security_token");
        reveal_strlit("endpoint");
        reveal_strlit("allow_anonymous");
        assert("disable_config_load"@.len() == 19);
        assert("disable_ec2_metadata"@.len() == 20);
        assert("bucket"@.len() == 6);
        assert("region"@.len() == 6);
        assert("access_key_id"@.len() == 13);
        assert("secret_access_key"@.len() == 17);
        assert("session_token"@.len() == 13);
        assert("endpoint"@.len() == 8);
        assert("allow_anonymous"@.len() == 15);
        assert("bucket"@[0] == 'b');
        assert("region"@[0] == 'r');
        assert("access_key_id"@[0] == 'a');
        assert("session_token"@[0] == 's');
        assert("disable_config_load"@ != "disable_ec2_metadata"@);
        assert("disable_config_load"@ != "bucket"@);
        assert("disable_config_load"@ != "region"@);
        assert("disable_config_load"@ != "access_key_id"@);
        assert("disable_config_load"@ != "secret_access_key"@);
        assert("disable_config_load"@ != "session_token"@);
        assert("disable_config_load"@ != "endpoint"@);
        assert("disable_config_load"@ != "allow_anonymous"@);
        assert("disable_ec2_metadata"@ != "bucket"@);
        assert("disable_ec2_metadata"@ != "region"@);
        assert("disable_ec2_metadata"@ != "access_key_id"@);
        assert("disable_ec2_metadata"@ != "secret_access_key"@);
        assert("disable_ec2_metadata"@ != "session_token"@);
        assert("disable_ec2_metadata"@ != "endpoint"@);
        assert("disable_ec2_metadata"@ != "allow_anonymous"@);
        assert("bucket"@ != "region"@);
        assert("bucket"@ != "access_key_id"@);
        assert("bucket"@ != "secret_access_key"@);
        assert("bucket"@ != "session_token"@);
        assert("bucket"@ != "endpoint"@);
        assert("bucket"@ != "allow_anonymous"@);
        assert("region"@ != "access_key_id"@);
        assert("region"@ != "secret_access_key"@);
        assert("region"@ != "session_token"@);
        assert("region"@ != "endpoint"@);
        assert("region"@ != "allow_anonymous"@);
        assert("access_key_id"@ != "secret_access_key"@);
        assert("access_key_id"@ != "session_token"@);
        assert("access_key_id"@ != "endpoint"@);
        assert("access_key_id"@ != "allow_anonymous"@);
        assert("secret_access_key"@ != "session_token"@);
        assert("secret_access_key"@ != "endpoint"@);
        assert("secret_access_key"@ != "allow_anonymous"@);
        assert("session_token"@ != "endpoint"@);
        assert("session_token"@ != "allow_anonymous"@);
        assert("endpoint"@ != "allow_anonymous"@);
    }
    put_pair(&mut pairs, "disable_config_load", String::from_str("true"));
    put_pair(&mut pairs, "disable_ec2_metadata", String::from_str("true"));
    match &cfg.url.host {
        Some(h) => {
            put_pair(&mut pairs, "bucket", h.clone());
        },
        None => {},
    }
    copy_option(&mut pairs, &cfg.server_options, "region", "region");
    copy_option(&mut pairs, &cfg.user_mapping_options, "access_key_id", "access_key_id");
    copy_option(&mut pairs, &cfg.user_mapping_options, "secret_access_key", "secret_access_key");
    copy_option(&mut pairs, &cfg.user_mapping_options, "security_token", "session_token");
    copy_option(&mut pairs, &cfg.server_options, "endpoint", "endpoint");
    let anon_key = String::from_str("allow_anonymous");
    match cfg.server_options.get(&anon_key) {
        Some(v) => {
            if *v == String::from_str("true") {
                put_pair(&mut pairs, "allow_anonymous", String::from_str("true"));
            }
        },
        None => {},
    }
    pairs
}

/// The configuration pairs of the Azure Data Lake Storage backend.  For the
/// transactional table format the backend is rooted at the table path.  The
/// result holds no keys besides the ones listed here.
pub fn azdls_config_pairs(cfg: &ObjectStoreConfig) -> (r: ConfigPairs)
    requires
        cfg.wf(),
    ensures
        r.wf(),
        opt_view(r.spec_get("root"@)) == (if cfg.format == TableFormat::Delta {
            Some(cfg.url.path@)
        } else {
            None::<Seq<char>>
        }),
        opt_view(r.spec_get("filesystem"@)) == (match cfg.url.host {
            Some(h) => Some(h@),
            None => None::<Seq<char>>,
        }),
        opt_view(r.spec_get("account_key"@)) == opt_view(
            cfg.user_mapping_options.spec_get("account_key"@),
        ),
        opt_view(r.spec_get("account_name"@)) == opt_view(
            cfg.user_mapping_options.spec_get("account_name"@),
        ),
        opt_view(r.spec_get("endpoint"@)) == opt_view(cfg.server_options.spec_get("endpoint"@)),
        forall|k2: Seq<char>|
            r.spec_contains(k2) ==> (k2 == "root"@ || k2 == "filesystem"@ || k2 == "account_key"@
                || k2 == "account_name"@ || k2 == "endpoint"@),
{
    let mut pairs: ConfigPairs = StrDict::new();
    proof {
        reveal_strlit("root");
        reveal_strlit("filesystem");
        reveal_strlit("account_key");
        reveal_strlit("account_name");
        reveal_strlit("endpoint");
        assert("root"@.len() == 4);
        assert("filesystem"@.len() == 10);
        assert("account_key"@.len() == 11);
        assert("account_name"@.len() == 12);
        assert("endpoint"@.len() == 8);
        assert("account_key"@[8] == 'k');
        assert("account_name"@[8] == 'n');
        assert("root"@ != "filesystem"@);
        assert("root"@ != "account_key"@);
        assert("root"@ != "account_name"@);
        assert("root"@ != "endpoint"@);
        assert("filesystem"@ != "account_key"@);
        assert("filesystem"@ != "account_name"@);
        assert("filesystem"@ != "endpoint"@);
        assert("account_key"@ != "account_name"@);
        assert("account_key"@ != "endpoint"@);
        assert("account_name"@ != "endpoint"@);
    }
    match cfg.format {
        TableFormat::Delta => {
            put_pair(&mut pairs, "root", cfg.url.path.clone());
        },
        TableFormat::Plain => {},
    }
    match &cfg.url.host {
        Some(h) => {
            put_pair(&mut pairs, "filesystem", h.clone());
        },
        None => {},
    }
    copy_option(&mut pairs, &cfg.user_mapping_options, "account_key", "account_key");
    copy_option(&mut pairs, &cfg.user_mapping_options, "account_name", "account_name");
    copy_option(&mut pairs, &cfg.server_options, "endpoint", "endpoint");
    pairs
}

/// The configuration pairs of the local listing backend: rooted at the
/// filesystem root, so a table's storage URL addresses files by absolute
/// path.
pub fn local_file_config_pairs() -> (r: ConfigPairs)
    ensures
        r.wf(),
        opt_view(r.spec_get("root"@)) == Some("/"@),
        forall|k2: Seq<char>| r.spec_contains(k2) ==> k2 == "root"@,
{
    let mut pairs: ConfigPairs = StrDict::new();
    put_pair(&mut pairs, "root", String::from_str("/"));
    pairs
}

/// The object-storage scheme that each backend kind registers under.
pub fn scheme_of_handler(kind: FdwHandler) -> (r: &'static str)
    requires
        kind != FdwHandler::Other,
    ensures
        r@ == match kind {
            FdwHandler::S3 => "s3"@,
            FdwHandler::LocalFile => "fs"@,
            FdwHandler::Azdls => "azdls"@,
            FdwHandler::Other => Seq::<char>::empty(),
        },
{
    match kind {
        FdwHandler::S3 => "s3",
        FdwHandler::LocalFile => "fs",
        FdwHandler::Azdls => "azdls",
        FdwHandler::Other => "s3",
    }
}

#[verifier::external_type_specification]
#[verifier::external_body]
pub struct ExOperator(opendal::Operator);

#[verifier::external_type_specification]
#[verifier::external_body]
pub struct ExOpendalError(opendal::Error);

#[verifier::external_type_specification]
#[verifier::external_body]
pub struct ExOpendalStore(object_store_opendal::OpendalStore);

/// Relies on opendal's `Operator::via_iter`: builds a storage-backend handle
/// for the given scheme from configuration pairs.  Construction validates the
/// configuration (a missing mandatory key is an error); its outcome may also
/// depend on the process environment and, for the local-filesystem backend,
/// on the disk, so nothing is assumed of it.
#[verifier::external_body]
pub(crate) fn build_operator(scheme: &'static str, pairs: &ConfigPairs) -> Result<
    opendal::Operator,
    opendal::Error,
> {
    opendal::Operator::via_iter(scheme, pairs.entries.clone())
}

/// Relies on object_store_opendal's `OpendalStore::new`: wraps a backend
/// handle into the generic storage adapter; pure construction.
#[verifier::external_body]
pub(crate) fn wrap_operator(op: opendal::Operator) -> object_store_opendal::OpendalStore {
    object_store_opendal::OpendalStore::new(op)
}

/// Relies on opendal's `Error` Display implementation for a readable
/// description of a backend-construction failure.
#[verifier::external_body]
pub(crate) fn opendal_error_message(e: &opendal::Error) -> String {
    format!("{e}")
}

} // verus!

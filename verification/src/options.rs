//! Option surfaces for external relations and storage backends.
//!
//! An external relation declares its options as key/value pairs at three
//! levels: table options (storage path, file extension, table format), server
//! options (endpoint, region, ...), and user-mapping options (credentials).
//! Validation rejects unrecognised option names and missing required options.

use vstd::prelude::*;

use crate::dict::StrDict;

verus! {

/// Relation-level options: `path` and `extension` are required, `format` is
/// optional and defaults to plain listing.
pub enum TableOption {
    Path,
    Extension,
    Format,
}

impl TableOption {
    pub fn as_str(&self) -> (r: &'static str)
        ensures
            r@ == match self {
                TableOption::Path => "path"@,
                TableOption::Extension => "extension"@,
                TableOption::Format => "format"@,
            },
    {
        match self {
            TableOption::Path => "path",
            TableOption::Extension => "extension",
            TableOption::Format => "format",
        }
    }

    pub fn is_required(&self) -> (r: bool)
        ensures
            r == match self {
                TableOption::Path => true,
                TableOption::Extension => true,
                TableOption::Format => false,
            },
    {
        match self {
            TableOption::Path => true,
            TableOption::Extension => true,
            TableOption::Format => false,
        }
    }

    pub fn iter() -> (r: Vec<TableOption>)
        ensures
            r@ == seq![TableOption::Path, TableOption::Extension, TableOption::Format],
    {
        let mut v: Vec<TableOption> = Vec::new();
        v.push(TableOption::Path);
        v.push(TableOption::Extension);
        v.push(TableOption::Format);
        proof {
            assert(v@ =~= seq![TableOption::Path, TableOption::Extension, TableOption::Format]);
        }
        v
    }
}

/// Server-level options of the S3-compatible backend; none is required.
pub enum AmazonServerOption {
    Endpoint,
    Region,
    AllowAnonymous,
}

impl AmazonServerOption {
    pub fn as_str(&self) -> (r: &'static str)
        ensures
            r@ == match self {
                AmazonServerOption::Endpoint => "endpoint"@,
                AmazonServerOption::Region => "region"@,
                AmazonServerOption::AllowAnonymous => "allow_anonymous"@,
            },
    {
        match self {
            AmazonServerOption::Endpoint => "endpoint",
            AmazonServerOption::Region => "region",
            AmazonServerOption::AllowAnonymous => "allow_anonymous",
        }
    }

    pub fn is_required(&self) -> (r: bool)
        ensures
            !r,
    {
        match self {
            AmazonServerOption::Endpoint => false,
            AmazonServerOption::Region => false,
            AmazonServerOption::AllowAnonymous => false,
        }
    }

    pub fn iter() -> (r: Vec<AmazonServerOption>)
        ensures
            r@ == seq![
                AmazonServerOption::Endpoint,
                AmazonServerOption::Region,
                AmazonServerOption::AllowAnonymous,
            ],
    {
        let mut v: Vec<AmazonServerOption> = Vec::new();
        v.push(AmazonServerOption::Endpoint);
        v.push(AmazonServerOption::Region);
        v.push(AmazonServerOption::AllowAnonymous);
        proof {
            assert(v@ =~= seq![
                AmazonServerOption::Endpoint,
                AmazonServerOption::Region,
                AmazonServerOption::AllowAnonymous,
            ]);
        }
        v
    }
}

/// User-mapping options of the S3-compatible backend (credentials).
pub enum AmazonUserMappingOption {
    AccessKeyId,
    SecretAccessKey,
    SecurityToken,
}

impl AmazonUserMappingOption {
    pub fn as_str(&self) -> (r: &'static str)
        ensures
            r@ == match self {
                AmazonUserMappingOption::AccessKeyId => "access_key_id"@,
                AmazonUserMappingOption::SecretAccessKey => "secret_access_key"@,
                AmazonUserMappingOption::SecurityToken => "security_token"@,
            },
    {
        match self {
            AmazonUserMappingOption::AccessKeyId => "access_key_id",
            AmazonUserMappingOption::SecretAccessKey => "secret_access_key",
            AmazonUserMappingOption::SecurityToken => "security_token",
        }
    }
}

/// Server-level options of the Azure Data Lake Storage backend; the endpoint
/// is required.
pub enum AzdlsServerOption {
    Endpoint,
}

impl AzdlsServerOption {
    pub fn as_str(&self) -> (r: &'static str)
        ensures
            r@ == "endpoint"@,
    {
        match self {
            AzdlsServerOption::Endpoint => "endpoint",
        }
    }

    pub fn is_required(&self) -> (r: bool)
        ensures
            r,
    {
        match self {
            AzdlsServerOption::Endpoint => true,
        }
    }

    pub fn iter() -> (r: Vec<AzdlsServerOption>)
        ensures
            r@ == seq![AzdlsServerOption::Endpoint],
    {
        let mut v: Vec<AzdlsServerOption> = Vec::new();
        v.push(AzdlsServerOption::Endpoint);
        proof {
            assert(v@ =~= seq![AzdlsServerOption::Endpoint]);
        }
        v
    }
}

/// User-mapping options of the Azure Data Lake Storage backend.
pub enum AzdlsUserMappingOption {
    AccountKey,
    AccountName,
}

impl AzdlsUserMappingOption {
    pub fn as_str(&self) -> (r: &'static str)
        ensures
            r@ == match self {
                AzdlsUserMappingOption::AccountKey => "account_key"@,
                AzdlsUserMappingOption::AccountName => "account_name"@,
            },
    {
        match self {
            AzdlsUserMappingOption::AccountKey => "account_key",
            AzdlsUserMappingOption::AccountName => "account_name",
        }
    }
}

/// Configuration errors of the option surfaces: a required option is absent,
/// or an option name is not recognised by the backend.
#[derive(Debug)]
pub enum OptionsError {
    RequiredOptionNotFound(String),
    OptionNameNotFound(String),
}

impl OptionsError {
    /// Human-readable description; the offending option name is included.
    pub fn message(&self) -> (r: String)
        ensures
            match self {
                OptionsError::RequiredOptionNotFound(k) => r@ == "required option not found: "@
                    + k@,
                OptionsError::OptionNameNotFound(k) => r@ == "invalid option name: "@ + k@,
            },
    {
        match self {
            OptionsError::RequiredOptionNotFound(k) => String::from_str(
                "required option not found: ",
            ).concat(k.as_str()),
            OptionsError::OptionNameNotFound(k) => String::from_str(
                "invalid option name: ",
            ).concat(k.as_str()),
        }
    }
}

/// A set of declared options, keyed by option name.
pub type OptionMap = StrDict<String>;

/// Look up a required option; its absence is a configuration error naming the
/// missing key, never a silently applied default.
pub fn require_option(key: &String, options: &OptionMap) -> (r: Result<String, OptionsError>)
    requires
        options.wf(),
    ensures
        match r {
            Ok(v) => options.spec_get(key@) matches Some(w) && v@ == w@,
            Err(e) => options.spec_get(key@) is None && (e matches
                OptionsError::RequiredOptionNotFound(k) && k@ == key@),
        },
{
    match options.get(key) {
        Some(v) => Ok(v.clone()),
        None => Err(OptionsError::RequiredOptionNotFound(key.clone())),
    }
}

/// Look up an optional option, falling back to the given default.
pub fn require_option_or(key: &String, options: &OptionMap, default: &str) -> (r: String)
    requires
        options.wf(),
    ensures
        match options.spec_get(key@) {
            Some(w) => r@ == w@,
            None => r@ == default@,
        },
{
    match options.get(key) {
        Some(v) => v.clone(),
        None => default.to_owned(),
    }
}

/// Position of the first `=` in an option-list entry; the text before it is
/// the option's name.
pub open spec fn spec_eq_pos(s: Seq<char>) -> int
    decreases s.len(),
{
    if s.len() == 0 {
        0
    } else if s[0] == '=' {
        0
    } else {
        1 + spec_eq_pos(s.drop_first())
    }
}

/// The name of an option-list entry: the text before the first `=`.
pub open spec fn spec_entry_name(s: Seq<char>) -> Seq<char> {
    s.take(spec_eq_pos(s))
}

proof fn lemma_eq_pos_at(s: Seq<char>, i: int)
    requires
        0 <= i < s.len(),
        s[i] == '=',
        forall|p: int| 0 <= p < i ==> s[p] != '=',
    ensures
        spec_eq_pos(s) == i,
    decreases s.len(),
{
    if i > 0 {
        lemma_eq_pos_at(s.drop_first(), i - 1);
    }
}

proof fn lemma_eq_pos_none(s: Seq<char>)
    requires
        forall|p: int| 0 <= p < s.len() ==> s[p] != '=',
    ensures
        spec_eq_pos(s) == s.len(),
    decreases s.len(),
{
    if s.len() > 0 {
        lemma_eq_pos_none(s.drop_first());
    }
}

/// Extract the option name from an option-list entry of the form
/// `name=value` (or a bare `name`).
pub fn option_entry_name(entry: &String) -> (r: String)
    ensures
        r@ == spec_entry_name(entry@),
{
    let s = entry.as_str();
    let n = s.unicode_len();
    let mut i: usize = 0;
    while i < n
        invariant
            n == s@.len(),
            s@ == entry@,
            0 <= i <= n,
            forall|p: int| 0 <= p < i ==> s@[p] != '=',
        decreases n - i,
    {
        if s.get_char(i) == '=' {
            proof {
                lemma_eq_pos_at(s@, i as int);
                assert(s@.take(i as int) =~= s@.subrange(0, i as int));
            }
            let name = s.substring_char(0, i);
            return name.to_owned();
        }
        i = i + 1;
    }
    proof {
        lemma_eq_pos_none(s@);
        assert(s@.take(s@.len() as int) =~= s@);
    }
    s.to_owned()
}

/// Whether a name occurs in the list of valid option names.
pub open spec fn spec_name_in(valid: Seq<String>, name: Seq<char>) -> bool {
    exists|i: int| 0 <= i < valid.len() && valid[i]@ == name
}

/// Whether every present entry of an option list bears a recognised name.
pub open spec fn spec_all_names_valid(list: Seq<Option<String>>, valid: Seq<String>) -> bool {
    forall|i: int|
        0 <= i < list.len() ==> match #[trigger] list[i] {
            Some(entry) => spec_name_in(valid, spec_entry_name(entry@)),
            None => true,
        }
}

fn name_in_list(valid: &Vec<String>, name: &String) -> (r: bool)
    ensures
        r == spec_name_in(valid@, name@),
{
    let n = valid.len();
    let mut i: usize = 0;
    while i < n
        invariant
            n == valid@.len(),
            0 <= i <= n,
            forall|p: int| 0 <= p < i ==> valid@[p]@ != name@,
        decreases n - i,
    {
        if valid[i] == *name {
            assert(valid@[i as int]@ == name@);
            return true;
        }
        i = i + 1;
    }
    false
}

/// Validate an option list against the backend's recognised option names:
/// an unrecognised name is rejected, naming the offender.
pub fn validate_options(opt_list: &Vec<Option<String>>, valid_options: &Vec<String>) -> (r:
    Result<(), OptionsError>)
    ensures
        r is Ok <==> spec_all_names_valid(opt_list@, valid_options@),
        r matches Err(e) ==> (e matches OptionsError::OptionNameNotFound(n) && exists|i: int|
            0 <= i < opt_list@.len() && (#[trigger] opt_list@[i] matches Some(entry) && n@
                == spec_entry_name(entry@) && !spec_name_in(valid_options@, n@))),
{
    let n = opt_list.len();
    let mut i: usize = 0;
    while i < n
        invariant
            n == opt_list@.len(),
            0 <= i <= n,
            forall|p: int|
                0 <= p < i ==> match #[trigger] opt_list@[p] {
                    Some(entry) => spec_name_in(valid_options@, spec_entry_name(entry@)),
                    None => true,
                },
        decreases n - i,
    {
        match &opt_list[i] {
            Some(entry) => {
                let name = option_entry_name(entry);
                if !name_in_list(valid_options, &name) {
                    return Err(OptionsError::OptionNameNotFound(name));
                }
            },
            None => {},
        }
        i = i + 1;
    }
    Ok(())
}

/// Whether some present entry of an option list bears the given name.
pub open spec fn spec_list_contains_name(list: Seq<Option<String>>, name: Seq<char>) -> bool {
    exists|i: int|
        0 <= i < list.len() && (#[trigger] list[i] matches Some(entry) && spec_entry_name(entry@)
            == name)
}

/// Check that a required option is present in an option list; its absence is
/// rejected, naming the missing key.
pub fn check_options_contain(opt_list: &Vec<Option<String>>, key: &str) -> (r: Result<
    (),
    OptionsError,
>)
    ensures
        r is Ok <==> spec_list_contains_name(opt_list@, key@),
        r matches Err(e) ==> e matches OptionsError::RequiredOptionNotFound(k) && k@ == key@,
{
    let n = opt_list.len();
    let mut i: usize = 0;
    while i < n
        invariant
            n == opt_list@.len(),
            0 <= i <= n,
            forall|p: int|
                0 <= p < i ==> !(#[trigger] opt_list@[p] matches Some(entry) && spec_entry_name(
                    entry@,
                ) == key@),
        decreases n - i,
    {
        match &opt_list[i] {
            Some(entry) => {
                let name = option_entry_name(entry);
                let k = key.to_owned();
                if name == k {
                    assert(opt_list@[i as int] matches Some(e) && spec_entry_name(e@) == key@);
                    return Ok(());
                }
            },
            None => {},
        }
        i = i + 1;
    }
    Err(OptionsError::RequiredOptionNotFound(key.to_owned()))
}

} // verus!

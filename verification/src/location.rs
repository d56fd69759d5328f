//! Storage locations: parsed URL components.
//!
//! A storage path such as `s3://bucket/dir/file.parquet` is broken into its
//! components once, by the `url` crate, and the rest of the library works on
//! the resulting plain values.  The registry keys a backend by the URL's
//! scheme and authority; configuration building reads the host and path.

use vstd::prelude::*;

use crate::dict::StrDict;

verus! {

/// The components of a parsed absolute URL that this library reads.
pub struct UrlParts {
    /// The scheme, without the trailing `:` (for example `s3`).
    pub scheme: String,
    /// The host component, absent for URLs such as `file:///...`.
    pub host: Option<String>,
    /// The port, when one is written in the URL.
    pub port: Option<u16>,
    /// The path component, beginning with `/` when a host is present.
    pub path: String,
}

impl UrlParts {
    /// The components as mathematical values.
    pub open spec fn view_parts(self) -> (Seq<char>, Option<Seq<char>>, Option<u16>, Seq<char>) {
        (
            self.scheme@,
            match self.host {
                Some(h) => Some(h@),
                None => None,
            },
            self.port,
            self.path@,
        )
    }
}

/// What `url::Url::parse` yields on a given input, componentwise: the parse
/// depends on the input characters alone.  `None` stands for a parse error.
pub uninterp spec fn spec_url_parts(s: Seq<char>) -> Option<(
    Seq<char>,
    Option<Seq<char>>,
    Option<u16>,
    Seq<char>,
)>;

/// Relies on `url::Url::parse` and the component accessors `scheme`,
/// `host_str`, `port` and `path`: parsing is a function of the input string
/// alone, and the accessors return the components of the parsed URL.
#[verifier::external_body]
pub fn parse_url(s: &String) -> (r: Option<UrlParts>)
    ensures
        match r {
            Some(parts) => spec_url_parts(s@) == Some(parts.view_parts()),
            None => spec_url_parts(s@) is None,
        },
{
    match url::Url::parse(s.as_str()) {
        Ok(u) => Some(
            UrlParts {
                scheme: u.scheme().to_owned(),
                host: u.host_str().map(|h| h.to_owned()),
                port: u.port(),
                path: u.path().to_owned(),
            },
        ),
        Err(_) => None,
    }
}

/// The registry key of a URL: `scheme://host:port` (authority without
/// credentials), so that two URLs naming the same store share one backend.
pub fn url_store_key(parts: &UrlParts) -> (r: String)
    ensures
        r@ == spec_store_key(parts.view_parts()),
{
    let mut key = parts.scheme.clone();
    key.append("://");
    match &parts.host {
        Some(h) => {
            key.append(h.as_str());
        },
        None => {},
    }
    match parts.port {
        Some(p) => {
            key.append(":");
            let digits = u16_to_string(p);
            key.append(digits.as_str());
        },
        None => {},
    }
    key
}

/// The mathematical form of the registry key.
pub open spec fn spec_store_key(parts: (Seq<char>, Option<Seq<char>>, Option<u16>, Seq<char>))
    -> Seq<char> {
    parts.0 + "://"@ + (match parts.1 {
        Some(h) => h,
        None => Seq::empty(),
    }) + (match parts.2 {
        Some(p) => ":"@ + spec_u16_digits(p as nat),
        None => Seq::empty(),
    })
}

/// Decimal digit characters of a number, most significant first.
pub open spec fn spec_u16_digits(n: nat) -> Seq<char>
    decreases n,
{
    if n < 10 {
        seq![digit_char(n)]
    } else {
        spec_u16_digits(n / 10).push(digit_char(n % 10))
    }
}

/// The character of one decimal digit.
pub open spec fn digit_char(d: nat) -> char {
    if d == 0 {
        '0'
    } else if d == 1 {
        '1'
    } else if d == 2 {
        '2'
    } else if d == 3 {
        '3'
    } else if d == 4 {
        '4'
    } else if d == 5 {
        '5'
    } else if d == 6 {
        '6'
    } else if d == 7 {
        '7'
    } else if d == 8 {
        '8'
    } else {
        '9'
    }
}

fn digit_str(d: u16) -> (r: &'static str)
    requires
        d < 10,
    ensures
        r@ == seq![digit_char(d as nat)],
{
    if d == 0 {
        proof {
            reveal_strlit("0");
            assert("0"@ =~= seq![digit_char(0)]);
        }
        "0"
    } else if d == 1 {
        proof {
            reveal_strlit("1");
            assert("1"@ =~= seq![digit_char(1)]);
        }
        "1"
    } else if d == 2 {
        proof {
            reveal_strlit("2");
            assert("2"@ =~= seq![digit_char(2)]);
        }
        "2"
    } else if d == 3 {
        proof {
            reveal_strlit("3");
            assert("3"@ =~= seq![digit_char(3)]);
        }
        "3"
    } else if d == 4 {
        proof {
            reveal_strlit("4");
            assert("4"@ =~= seq![digit_char(4)]);
        }
        "4"
    } else if d == 5 {
        proof {
            reveal_strlit("5");
            assert("5"@ =~= seq![digit_char(5)]);
        }
        "5"
    } else if d == 6 {
        proof {
            reveal_strlit("6");
            assert("6"@ =~= seq![digit_char(6)]);
        }
        "6"
    } else if d == 7 {
        proof {
            reveal_strlit("7");
            assert("7"@ =~= seq![digit_char(7)]);
        }
        "7"
    } else if d == 8 {
        proof {
            reveal_strlit("8");
            assert("8"@ =~= seq![digit_char(8)]);
        }
        "8"
    } else {
        proof {
            reveal_strlit("9");
            assert("9"@ =~= seq![digit_char(9)]);
        }
        "9"
    }
}

/// Render a port number as decimal digits.
pub fn u16_to_string(n: u16) -> (r: String)
    ensures
        r@ == spec_u16_digits(n as nat),
    decreases n,
{
    if n < 10 {
        let mut s = String::new();
        s.append(digit_str(n));
        proof {
            assert(s@ =~= seq![digit_char(n as nat)]);
        }
        s
    } else {
        let mut s = u16_to_string(n / 10);
        s.append(digit_str(n % 10));
        proof {
            assert(s@ =~= spec_u16_digits((n / 10) as nat).push(digit_char((n % 10) as nat)));
        }
        s
    }
}

/// The quoted, schema-qualified name of a relation, as the host engine's
/// catalog resolves it: `"schema"."table"`.  Quoting preserves the case of
/// mixed-case identifiers, so a table is found under the same key however the
/// statement spelled the reference.
pub fn quote_qualified(schema_name: &String, table_name: &String) -> (r: String)
    ensures
        r@ == spec_quote_qualified(schema_name@, table_name@),
{
    let mut s = String::from_str("\"");
    s.append(schema_name.as_str());
    s.append("\".\"");
    s.append(table_name.as_str());
    s.append("\"");
    s
}

/// The mathematical form of the quoted, schema-qualified name.
pub open spec fn spec_quote_qualified(schema_name: Seq<char>, table_name: Seq<char>)
    -> Seq<char> {
    "\""@ + schema_name + "\".\""@ + table_name + "\""@
}

/// A set of options keyed by name.
pub type ConfigPairs = StrDict<String>;

} // verus!

//! Loading the tool's configuration from TOML text.
//!
//! The configuration is a flat table with three required keys —
//! `server_address`, `username`, `password` — each of which must carry a
//! string. Parsing the TOML text is toml's work, taken on trust behind
//! [`toml_top_table`]; everything after the parse — looking the keys up,
//! telling a string value from any other, reporting the first bad key — is
//! verified here. Reading the file itself is I/O and stays with the binary,
//! which hands the text in and maps a read failure to
//! [`ConfigError::IoFailure`].

use vstd::prelude::*;
use vstd::string::StringExecFns;
use vstd::string::StrSliceExecFns;

verus! {

/// What the loader reads out of one top-level TOML value: the text when the
/// value is a string, or the bare fact that it is something else (a number,
/// a table, ...), which the loader rejects either way.
pub enum FieldValue {
    Text(String),
    NonText,
}

impl View for FieldValue {
    type V = Option<Seq<char>>;

    open spec fn view(&self) -> Option<Seq<char>> {
        match self {
            FieldValue::Text(s) => Some(s@),
            FieldValue::NonText => None,
        }
    }
}

/// The entries of a parsed table, as characters: key and, for a string
/// value, its text.
pub open spec fn table_view(entries: Seq<(String, FieldValue)>) -> Seq<
    (Seq<char>, Option<Seq<char>>),
> {
    entries.map_values(|e: (String, FieldValue)| (e.0@, e.1@))
}

/// The top-level table that toml's document parser extracts from `text`:
/// `Ok` with the key/value entries in the order toml hands them out (a
/// string value carried as its characters, any other value as `None`);
/// `Err(Some(msg))` when the text is not well-formed TOML, with toml's own
/// description; `Err(None)` when the document parses but its top level is
/// not a table.
pub uninterp spec fn toml_top_table(text: Seq<char>) -> Result<
    Seq<(Seq<char>, Option<Seq<char>>)>,
    Option<Seq<char>>,
>;

/// Relies on toml: `str::parse::<toml::Value>` parses a TOML document and
/// `toml::Value::as_table` exposes its top-level table. Which entries come
/// back, or which parse error, depends on the text alone.
#[verifier::external_body]
fn parse_toml_table(text: &str) -> (r: Result<Vec<(String, FieldValue)>, Option<String>>)
    ensures
        ({
            let d = toml_top_table(text@);
            match r {
                Ok(entries) => d matches Ok(tv) && table_view(entries@) == tv,
                Err(None) => d matches Err(e) && e is None,
                Err(Some(msg)) => d matches Err(e) && e == Some(msg@),
            }
        }),
{
    let value: toml::Value = match text.parse() {
        Ok(v) => v,
        Err(e) => return Err(Some(e.to_string())),
    };
    let table = match value.as_table() { Some(t) => t, None => return Err(None) };
    let mut entries: Vec<(String, FieldValue)> = Vec::new();
    for (k, v) in table.iter() {
        entries.push((k.clone(), match v {
            toml::Value::String(s) => FieldValue::Text(s.clone()),
            _ => FieldValue::NonText,
        }));
    }
    Ok(entries)
}

/// The value of the first entry of `table` whose key is `key`, or `None`
/// when no entry carries that key.
pub open spec fn table_lookup(
    table: Seq<(Seq<char>, Option<Seq<char>>)>,
    key: Seq<char>,
) -> Option<Option<Seq<char>>>
    decreases table.len(),
{
    if table.len() == 0 {
        None
    } else if table[0].0 == key {
        Some(table[0].1)
    } else {
        table_lookup(table.drop_first(), key)
    }
}

/// The string value of `key` in `table`: `None` when the key is absent or
/// its value is not a string — the two cases the loader treats alike.
pub open spec fn text_field(
    table: Seq<(Seq<char>, Option<Seq<char>>)>,
    key: Seq<char>,
) -> Option<Seq<char>> {
    match table_lookup(table, key) {
        Some(Some(s)) => Some(s),
        _ => None,
    }
}

/// The first required key that `table` does not carry as a string, checked
/// in the fixed order `server_address`, `username`, `password`; `None` when
/// all three are present as strings.
pub open spec fn first_bad_key(table: Seq<(Seq<char>, Option<Seq<char>>)>) -> Option<Seq<char>> {
    if text_field(table, "server_address"@) is None {
        Some("server_address"@)
    } else if text_field(table, "username"@) is None {
        Some("username"@)
    } else if text_field(table, "password"@) is None {
        Some("password"@)
    } else {
        None
    }
}

/// The three values the tool needs: where to send the merge and which
/// credentials to present. Loaded once at startup and never mutated.
#[derive(Debug)]
pub struct Config {
    pub server_address: String,
    pub username: String,
    pub password: String,
}

/// Why loading the configuration failed. Every variant is fatal at startup.
#[derive(Debug, PartialEq)]
pub enum ConfigError {
    /// The file could not be read; carries the OS error description. Only
    /// the caller that does the reading constructs this variant.
    IoFailure(String),
    /// The text is not well-formed TOML; carries toml's description.
    ParseFailure(String),
    /// The document parsed, but its top level is not a table.
    InvalidStructure,
    /// The named required key is absent, or its value is not a string.
    MissingOrInvalidField(String),
}

impl ConfigError {
    /// The message the tool prints for this error.
    pub fn describe(&self) -> (r: String)
        ensures
            ({
                match self {
                    ConfigError::IoFailure(m) => r@ == m@,
                    ConfigError::ParseFailure(m) => r@ == m@,
                    ConfigError::InvalidStructure => r@ == "Invalid TOML configuration"@,
                    ConfigError::MissingOrInvalidField(f) => r@ == "Missing or invalid '"@ + f@
                        + "' in config"@,
                }
            }),
    {
        match self {
            ConfigError::IoFailure(m) => m.clone(),
            ConfigError::ParseFailure(m) => m.clone(),
            ConfigError::InvalidStructure => String::from_str("Invalid TOML configuration"),
            ConfigError::MissingOrInvalidField(f) => {
                let mut msg = String::from_str("Missing or invalid '");
                msg.append(f.as_str());
                msg.append("' in config");
                proof {
                    assert(msg@ =~= "Missing or invalid '"@ + f@ + "' in config"@);
                }
                msg
            },
        }
    }
}

/// Character-by-character string comparison, so that key lookup is verified
/// end to end.
fn str_eq(a: &str, b: &str) -> (r: bool)
    ensures
        r == (a@ == b@),
{
    let na = a.unicode_len();
    let nb = b.unicode_len();
    if na != nb {
        return false;
    }
    let mut k: usize = 0;
    while k < na
        invariant
            0 <= k <= na,
            na == a@.len(),
            na == b@.len(),
            forall|m: int| 0 <= m < k ==> a@[m] == b@[m],
        decreases na - k,
    {
        if a.get_char(k) != b.get_char(k) {
            return false;
        }
        k = k + 1;
    }
    proof {
        assert(a@ =~= b@);
    }
    true
}

/// The spec-level shape of what `lookup_value` hands back.
pub open spec fn lookup_view(r: Option<Option<String>>) -> Option<Option<Seq<char>>> {
    match r {
        None => None,
        Some(None) => Some(None),
        Some(Some(s)) => Some(Some(s@)),
    }
}

/// Looks `key` up among the parsed entries: `None` when the key is absent,
/// `Some(None)` when it carries a non-string value, `Some(Some(text))` when
/// it carries a string.
fn lookup_value(entries: &Vec<(String, FieldValue)>, key: &str) -> (r: Option<Option<String>>)
    ensures
        lookup_view(r) == table_lookup(table_view(entries@), key@),
{
    let ghost tv = table_view(entries@);
    let mut idx: usize = 0;
    proof {
        assert(tv.skip(0) =~= tv);
    }
    while idx < entries.len()
        invariant
            0 <= idx <= entries.len(),
            tv == table_view(entries@),
            table_lookup(tv, key@) == table_lookup(tv.skip(idx as int), key@),
        decreases entries.len() - idx,
    {
        if str_eq(entries[idx].0.as_str(), key) {
            proof {
                assert(tv.skip(idx as int)[0] == tv[idx as int]);
            }
            return match &entries[idx].1 {
                FieldValue::Text(s) => Some(Some(s.clone())),
                FieldValue::NonText => Some(None),
            };
        }
        proof {
            assert(tv.skip(idx as int).drop_first() =~= tv.skip(idx as int + 1));
        }
        idx = idx + 1;
    }
    proof {
        assert(tv.skip(entries@.len() as int) =~= Seq::<(Seq<char>, Option<Seq<char>>)>::empty());
    }
    None
}

/// Builds the [`Config`] out of a parsed table: success exactly when all
/// three required keys are present as strings, the fields copied verbatim;
/// otherwise the first bad key, in the fixed checking order, is reported.
pub fn extract_config(entries: &Vec<(String, FieldValue)>) -> (r: Result<Config, ConfigError>)
    ensures
        ({
            let tv = table_view(entries@);
            match r {
                Ok(c) => first_bad_key(tv) is None && Some(c.server_address@) == text_field(
                    tv,
                    "server_address"@,
                ) && Some(c.username@) == text_field(tv, "username"@) && Some(c.password@)
                    == text_field(tv, "password"@),
                Err(e) => e matches ConfigError::MissingOrInvalidField(f) && first_bad_key(tv)
                    == Some(f@),
            }
        }),
{
    let server_address = match lookup_value(entries, "server_address") {
        Some(Some(s)) => s,
        _ => {
            return Err(
                ConfigError::MissingOrInvalidField(String::from_str("server_address")),
            );
        },
    };
    let username = match lookup_value(entries, "username") {
        Some(Some(s)) => s,
        _ => {
            return Err(ConfigError::MissingOrInvalidField(String::from_str("username")));
        },
    };
    let password = match lookup_value(entries, "password") {
        Some(Some(s)) => s,
        _ => {
            return Err(ConfigError::MissingOrInvalidField(String::from_str("password")));
        },
    };
    Ok(Config { server_address, username, password })
}

/// Loads the configuration from the text of a configuration file: parses it
/// as TOML (trusting toml for the parse itself) and extracts the three
/// required string fields. Never returns `IoFailure`; reading the file is
/// the caller's task.
pub fn load_config_from_str(text: &str) -> (r: Result<Config, ConfigError>)
    ensures
        ({
            let d = toml_top_table(text@);
            match r {
                Ok(c) => d matches Ok(tv) && first_bad_key(tv) is None && Some(c.server_address@)
                    == text_field(tv, "server_address"@) && Some(c.username@) == text_field(
                    tv,
                    "username"@,
                ) && Some(c.password@) == text_field(tv, "password"@),
                Err(e) => match e {
                    ConfigError::IoFailure(_) => false,
                    ConfigError::ParseFailure(m) => d matches Err(pe) && pe == Some(m@),
                    ConfigError::InvalidStructure => d matches Err(pe) && pe is None,
                    ConfigError::MissingOrInvalidField(f) => d matches Ok(tv) && first_bad_key(tv)
                        == Some(f@),
                },
            }
        }),
{
    let entries = match parse_toml_table(text) {
        Ok(v) => v,
        Err(Some(m)) => {
            return Err(ConfigError::ParseFailure(m));
        },
        Err(None) => {
            return Err(ConfigError::InvalidStructure);
        },
    };
    extract_config(&entries)
}

/// Law: a table that carries string values for all three required keys has
/// no bad key, so `extract_config` and `load_config_from_str` return a
/// `Config` holding exactly those strings, untransformed.
pub proof fn lemma_config_round_trip(
    tv: Seq<(Seq<char>, Option<Seq<char>>)>,
    sa: Seq<char>,
    un: Seq<char>,
    pw: Seq<char>,
)
    requires
        text_field(tv, "server_address"@) == Some(sa),
        text_field(tv, "username"@) == Some(un),
        text_field(tv, "password"@) == Some(pw),
    ensures
        first_bad_key(tv) is None,
{
}

/// Law: when one required key is not present as a string and the keys
/// checked before it are, loading reports exactly that key.
pub proof fn lemma_missing_field_reported(
    tv: Seq<(Seq<char>, Option<Seq<char>>)>,
    key: Seq<char>,
)
    requires
        key == "server_address"@ || key == "username"@ || key == "password"@,
        text_field(tv, key) is None,
        key == "username"@ ==> text_field(tv, "server_address"@) is Some,
        key == "password"@ ==> text_field(tv, "server_address"@) is Some && text_field(
            tv,
            "username"@,
        ) is Some,
    ensures
        first_bad_key(tv) == Some(key),
{
}

/// Law: a key present with a non-string value is treated exactly like an
/// absent key.
pub proof fn lemma_wrong_type_is_invalid(
    tv: Seq<(Seq<char>, Option<Seq<char>>)>,
    key: Seq<char>,
)
    requires
        table_lookup(tv, key) == Some(None::<Seq<char>>),
    ensures
        text_field(tv, key) is None,
{
}

} // verus!

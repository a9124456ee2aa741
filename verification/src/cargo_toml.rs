//! Looking up settings of a package in the text of its `Cargo.toml`, through
//! the `toml` crate's parser and its dotted-path lookup.

use vstd::prelude::*;
use vstd::string::*;

verus! {

/// The TOML value type of the `toml` crate; opaque here.
#[verifier::external_type_specification]
#[verifier::external_body]
pub struct ExTomlValue(toml::Value);

/// Whether the `toml` crate parses `text` as a TOML document
/// (`<toml::Value as FromStr>::from_str` returns `Ok`).
pub uninterp spec fn toml_parses(text: Seq<char>) -> bool;

/// Whether `toml::Value::lookup` finds a value at the dotted `path` in the
/// document that the `toml` crate parses out of `text`.
pub uninterp spec fn toml_path_found(text: Seq<char>, path: Seq<char>) -> bool;

/// What `toml::Value::as_str` gives for the value at the dotted `path` in
/// the document parsed out of `text`: the string where that value is a TOML
/// string, `None` otherwise.
pub uninterp spec fn toml_string_at(text: Seq<char>, path: Seq<char>) -> Option<Seq<char>>;

/// A TOML document together with the text it was parsed from.
///
/// Only `parse_document` builds one, so `root` is always what the `toml`
/// crate parses out of `text`.
pub struct TomlDocument {
    root: toml::Value,
    text: String,
}

impl View for TomlDocument {
    type V = Seq<char>;

    /// The text the document was parsed from.
    closed spec fn view(&self) -> Seq<char> {
        self.text@
    }
}

/// A value found in a `TomlDocument` at a dotted path.
///
/// Only `lookup_entry` builds one, so `value` is always what
/// `toml::Value::lookup` gives for `path` in `document`.
pub struct TomlEntry<'a> {
    document: &'a TomlDocument,
    path: String,
    value: &'a toml::Value,
}

impl<'a> View for TomlEntry<'a> {
    type V = (Seq<char>, Seq<char>);

    /// The text of the document and the path the value was found at.
    closed spec fn view(&self) -> (Seq<char>, Seq<char>) {
        (self.document.text@, self.path@)
    }
}

/// Parses `text` with the `toml` crate (`<toml::Value as FromStr>::from_str`,
/// which runs `toml::Parser::parse` and wraps the table it returns).
/// Trusted: the result is `Some` exactly when the crate parses the text, as
/// the name `toml_parses` stands for, and keeps the text beside the value.
#[verifier::external_body]
fn parse_document(text: &str) -> (res: Option<TomlDocument>)
    ensures
        res is Some <==> toml_parses(text@),
        res matches Some(doc) ==> doc@ == text@,
{
    match text.parse::<toml::Value>() {
        Ok(root) => Some(TomlDocument { root, text: text.to_string() }),
        Err(_) => None,
    }
}

/// Looks up the dotted `path` in `doc` with `toml::Value::lookup`.
/// Trusted: the result is `Some` exactly when the lookup finds a value, as
/// the name `toml_path_found` stands for, and remembers where it was found.
#[verifier::external_body]
fn lookup_entry<'a>(doc: &'a TomlDocument, path: &str) -> (res: Option<TomlEntry<'a>>)
    ensures
        res is Some <==> toml_path_found(doc@, path@),
        res matches Some(entry) ==> entry@ == (doc@, path@),
{
    match doc.root.lookup(path) {
        Some(value) => Some(TomlEntry { document: doc, path: path.to_string(), value }),
        None => None,
    }
}

/// The view of an optional string slice.
pub open spec fn opt_str_view(s: Option<&str>) -> Option<Seq<char>> {
    match s {
        Some(t) => Some(t@),
        None => None,
    }
}

/// The string held by `entry`, by `toml::Value::as_str`.
/// Trusted: the result is what the name `toml_string_at` stands for.
#[verifier::external_body]
fn entry_as_str<'a>(entry: &'a TomlEntry<'a>) -> (res: Option<&'a str>)
    ensures
        opt_str_view(res) == toml_string_at(entry@.0, entry@.1),
{
    entry.value.as_str()
}

/// Why a setting could not be read out of `Cargo.toml`.
#[derive(Debug, Clone, Copy, PartialEq, Eq, Structural)]
pub enum LookupError {
    /// The text is not a TOML document.
    Unparsable,
    /// The document holds no value at the path.
    Missing,
    /// The value at the path is not a string.
    NotAString,
}

/// What looking up the dotted `path` in the TOML `text` yields.
pub open spec fn lookup_outcome(text: Seq<char>, path: Seq<char>) -> Result<Seq<char>, LookupError> {
    if !toml_parses(text) {
        Err(LookupError::Unparsable)
    } else if !toml_path_found(text, path) {
        Err(LookupError::Missing)
    } else {
        match toml_string_at(text, path) {
            Some(s) => Ok(s),
            None => Err(LookupError::NotAString),
        }
    }
}

/// The view of a lookup result.
pub open spec fn outcome_view(res: Result<String, LookupError>) -> Result<Seq<char>, LookupError> {
    match res {
        Ok(s) => Ok(s@),
        Err(e) => Err(e),
    }
}

/// Parses `text` and reads the string at the dotted path `name`, saying
/// which step failed where one does.
fn lookup_in(text: &str, name: &str) -> (res: Result<String, LookupError>)
    ensures
        outcome_view(res) == lookup_outcome(text@, name@),
{
    let doc = match parse_document(text) {
        Some(doc) => doc,
        None => return Err(LookupError::Unparsable),
    };
    let entry = match lookup_entry(&doc, name) {
        Some(entry) => entry,
        None => return Err(LookupError::Missing),
    };
    match entry_as_str(&entry) {
        Some(s) => Ok(String::from_str(s)),
        None => Err(LookupError::NotAString),
    }
}

/// Looks up the string at the dotted path `name` (such as `package.name`) in
/// the text of a `Cargo.toml`. The text must be TOML and hold a string at
/// that path.
pub fn toml_lookup(text: &str, name: &str) -> (res: String)
    requires
        lookup_outcome(text@, name@) is Ok,
    ensures
        res@ == lookup_outcome(text@, name@)->Ok_0,
{
    match lookup_in(text, name) {
        Ok(s) => s,
        Err(_) => {
            assert(false);
            String::new()
        },
    }
}

/// Looks up the string at the dotted path `name` in the text of a
/// `Cargo.toml`, or says why there is none: the text is not TOML, nothing
/// is at the path, or what is there is not a string.
pub fn try_toml_lookup(text: &str, name: &str) -> (res: Result<String, LookupError>)
    ensures
        outcome_view(res) == lookup_outcome(text@, name@),
{
    match lookup_in(text, name) {
        Ok(_) => Ok(toml_lookup(text, name)),
        Err(e) => Err(e),
    }
}

} // verus!

//! The configuration document of a module: one JSON object with the entries
//! `"name"`, `"cmd"` and `"args"`.
//!
//! JSON itself is read by `serde_json`, behind three trusted functions. Which
//! entries a document must hold, and of which shape, is decided here.

use std::collections::BTreeMap;
use serde_json::value::RawValue;
use vstd::prelude::*;
use crate::error::{ConfigFault, Field};

verus! {

#[verifier::external_type_specification]
#[verifier::external_body]
pub struct ExJsonError(serde_json::Error);

/// What `serde_json` makes of `text` when asked for a JSON object: `None`
/// where it reports an error, else the members of the object, each as its key
/// and the JSON text of its value, ordered by key. Of several members with
/// one key it keeps the last.
pub uninterp spec fn json_object(text: Seq<u8>) -> Option<Seq<(Seq<char>, Seq<char>)>>;

/// What `serde_json` makes of `text` when asked for a JSON string: `None`
/// where it reports an error, else the characters that the string denotes.
pub uninterp spec fn json_string(text: Seq<char>) -> Option<Seq<char>>;

/// What `serde_json` makes of `text` when asked for a JSON array of strings:
/// `None` where it reports an error, else the strings in order.
pub uninterp spec fn json_string_array(text: Seq<char>) -> Option<Seq<Seq<char>>>;

/// Calls `serde_json::from_slice` for a `BTreeMap` from `String` to
/// `Box<RawValue>` and hands out its entries in the map's order, each value as
/// the text that `RawValue::get` gives. Trusted: the result is the one that
/// [`json_object`] names, an error where that is `None`.
#[verifier::external_body]
fn read_object(text: &[u8]) -> (r: Result<Vec<(String, String)>, serde_json::Error>)
    ensures
        match r {
            Ok(members) => json_object(text@) == Some(members.deep_view()),
            Err(_) => json_object(text@) is None,
        },
{
    let object: BTreeMap<String, Box<RawValue>> = serde_json::from_slice(text)?;
    Ok(object.into_iter().map(|(key, value)| (key, value.get().to_string())).collect())
}

/// Calls `serde_json::from_str` for a `String`. Trusted: the result is the one
/// that [`json_string`] names, an error where that is `None`.
#[verifier::external_body]
fn read_string(text: &str) -> (r: Result<String, serde_json::Error>)
    ensures
        match r {
            Ok(string) => json_string(text@) == Some(string@),
            Err(_) => json_string(text@) is None,
        },
{
    serde_json::from_str::<String>(text)
}

/// Calls `serde_json::from_str` for a `Vec<String>`. Trusted: the result is
/// the one that [`json_string_array`] names, an error where that is `None`.
#[verifier::external_body]
fn read_string_array(text: &str) -> (r: Result<Vec<String>, serde_json::Error>)
    ensures
        match r {
            Ok(strings) => json_string_array(text@) == Some(strings.deep_view()),
            Err(_) => json_string_array(text@) is None,
        },
{
    serde_json::from_str::<Vec<String>>(text)
}

/// The value text of the first member at or after position `from` whose key
/// is `key`.
pub open spec fn member_from(
    members: Seq<(Seq<char>, Seq<char>)>,
    key: Seq<char>,
    from: int,
) -> Option<Seq<char>>
    decreases members.len() - from,
{
    if from < 0 || from >= members.len() {
        None
    } else if members[from].0 == key {
        Some(members[from].1)
    } else {
        member_from(members, key, from + 1)
    }
}

/// The value text of the member whose key is `key`.
pub open spec fn member(members: Seq<(Seq<char>, Seq<char>)>, key: Seq<char>) -> Option<
    Seq<char>,
> {
    member_from(members, key, 0)
}

/// The entry `key` of an object, read as a string.
pub open spec fn string_entry(
    members: Seq<(Seq<char>, Seq<char>)>,
    key: Seq<char>,
    field: Field,
) -> Result<Seq<char>, ConfigFault> {
    match member(members, key) {
        None => Err(ConfigFault::Missing(field)),
        Some(text) => match json_string(text) {
            None => Err(ConfigFault::Invalid(field)),
            Some(string) => Ok(string),
        },
    }
}

/// The entry `key` of an object, read as an array of strings.
pub open spec fn array_entry(
    members: Seq<(Seq<char>, Seq<char>)>,
    key: Seq<char>,
    field: Field,
) -> Result<Seq<Seq<char>>, ConfigFault> {
    match member(members, key) {
        None => Err(ConfigFault::Missing(field)),
        Some(text) => match json_string_array(text) {
            None => Err(ConfigFault::Invalid(field)),
            Some(strings) => Ok(strings),
        },
    }
}

/// The three entries of a configuration document.
#[derive(Debug)]
pub struct DockrJson {
    pub name: String,
    pub cmd: String,
    pub args: Vec<String>,
}

/// The mathematical content of a [`DockrJson`].
pub struct DockrJsonView {
    pub name: Seq<char>,
    pub cmd: Seq<char>,
    pub args: Seq<Seq<char>>,
}

impl View for DockrJson {
    type V = DockrJsonView;

    open spec fn view(&self) -> DockrJsonView {
        DockrJsonView { name: self.name@, cmd: self.cmd@, args: self.args.deep_view() }
    }
}

/// What the members of an object say: the three entries, or the first fault
/// found when `"name"`, `"cmd"` and `"args"` are looked at in this order.
/// Members under other keys are ignored.
pub open spec fn entries(members: Seq<(Seq<char>, Seq<char>)>) -> Result<
    DockrJsonView,
    ConfigFault,
> {
    match string_entry(members, "name"@, Field::Name) {
        Err(fault) => Err(fault),
        Ok(name) => match string_entry(members, "cmd"@, Field::Cmd) {
            Err(fault) => Err(fault),
            Ok(cmd) => match array_entry(members, "args"@, Field::Args) {
                Err(fault) => Err(fault),
                Ok(args) => Ok(DockrJsonView { name, cmd, args }),
            },
        },
    }
}

/// What a configuration document says: malformed where it is no JSON object,
/// else what its members say.
pub open spec fn document(text: Seq<u8>) -> Result<DockrJsonView, ConfigFault> {
    match json_object(text) {
        None => Err(ConfigFault::Malformed),
        Some(members) => entries(members),
    }
}

/// Finds the member with the given key and hands out the text of its value.
pub fn find_member<'a>(members: &'a Vec<(String, String)>, key: &str) -> (r: Option<&'a String>)
    ensures
        match r {
            Some(text) => member(members.deep_view(), key@) == Some(text@),
            None => member(members.deep_view(), key@) is None,
        },
{
    let wanted = key.to_owned();
    let mut i: usize = 0;
    while i < members.len()
        invariant
            i <= members.len(),
            wanted@ == key@,
            member(members.deep_view(), key@) == member_from(
                members.deep_view(),
                key@,
                i as int,
            ),
        decreases members.len() - i,
    {
        if members[i].0 == wanted {
            return Some(&members[i].1);
        }
        i += 1;
    }
    None
}

/// Reads one entry that must hold a string.
fn string_field(members: &Vec<(String, String)>, key: &str, field: Field) -> (r: Result<
    String,
    ConfigFault,
>)
    ensures
        match r {
            Ok(string) => string_entry(members.deep_view(), key@, field) == Ok::<
                Seq<char>,
                ConfigFault,
            >(string@),
            Err(fault) => string_entry(members.deep_view(), key@, field) == Err::<
                Seq<char>,
                ConfigFault,
            >(fault),
        },
{
    match find_member(members, key) {
        None => Err(ConfigFault::Missing(field)),
        Some(text) => match read_string(text.as_str()) {
            Ok(string) => Ok(string),
            Err(_) => Err(ConfigFault::Invalid(field)),
        },
    }
}

/// Reads one entry that must hold an array of strings.
fn array_field(members: &Vec<(String, String)>, key: &str, field: Field) -> (r: Result<
    Vec<String>,
    ConfigFault,
>)
    ensures
        match r {
            Ok(strings) => array_entry(members.deep_view(), key@, field) == Ok::<
                Seq<Seq<char>>,
                ConfigFault,
            >(strings.deep_view()),
            Err(fault) => array_entry(members.deep_view(), key@, field) == Err::<
                Seq<Seq<char>>,
                ConfigFault,
            >(fault),
        },
{
    match find_member(members, key) {
        None => Err(ConfigFault::Missing(field)),
        Some(text) => match read_string_array(text.as_str()) {
            Ok(strings) => Ok(strings),
            Err(_) => Err(ConfigFault::Invalid(field)),
        },
    }
}

impl DockrJson {
    /// Reads a configuration document.
    pub fn parse(text: &[u8]) -> (r: Result<DockrJson, ConfigFault>)
        ensures
            match r {
                Ok(json) => document(text@) == Ok::<DockrJsonView, ConfigFault>(json@),
                Err(fault) => document(text@) == Err::<DockrJsonView, ConfigFault>(fault),
            },
    {
        match read_object(text) {
            Ok(members) => DockrJson::from_members(&members),
            Err(_) => Err(ConfigFault::Malformed),
        }
    }

    /// Reads the three entries from the members of an object; each member is
    /// its key and the JSON text of its value.
    pub fn from_members(members: &Vec<(String, String)>) -> (r: Result<DockrJson, ConfigFault>)
        ensures
            match r {
                Ok(json) => entries(members.deep_view()) == Ok::<DockrJsonView, ConfigFault>(
                    json@,
                ),
                Err(fault) => entries(members.deep_view()) == Err::<DockrJsonView, ConfigFault>(
                    fault,
                ),
            },
    {
        let name = match string_field(members, "name", Field::Name) {
            Ok(name) => name,
            Err(fault) => { return Err(fault); },
        };
        let cmd = match string_field(members, "cmd", Field::Cmd) {
            Ok(cmd) => cmd,
            Err(fault) => { return Err(fault); },
        };
        let args = match array_field(members, "args", Field::Args) {
            Ok(args) => args,
            Err(fault) => { return Err(fault); },
        };
        Ok(DockrJson { name, cmd, args })
    }
}

} // verus!

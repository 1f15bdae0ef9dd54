//! Colour profiles: a JSON object that maps key indexes to colours, such as
//! `{"0": "ff0000", "42": "00ff00"}`.

use vstd::prelude::*;
use crate::color::{hex_color, is_hex_color, OwnRGB8};
use crate::error::ColorParseError;
use crate::key_leds::ProfileKey;
use crate::numbers::{parse_unsigned, parse_unsigned_text};

verus! {

/// The error of the JSON parser, carried through as it is.
#[verifier::external_type_specification]
#[verifier::external_body]
pub struct ExJsonError(serde_json::Error);

/// One member of the JSON object of a profile: its name, and its value where
/// the value is a string.
#[derive(Debug, PartialEq, Eq)]
pub struct ProfileEntry {
    pub key: String,
    pub color: Option<String>,
}

/// The mathematical value of a `ProfileEntry`.
pub type EntryView = (Seq<char>, Option<Seq<char>>);

impl View for ProfileEntry {
    type V = EntryView;

    open spec fn view(&self) -> EntryView {
        (
            self.key@,
            match self.color {
                Some(color) => Some(color@),
                None => None,
            },
        )
    }
}

/// Why a text is not a colour profile.
#[derive(Debug)]
pub enum ProfileError {
    /// The text is not JSON.
    InvalidJson(serde_json::Error),
    /// The text is JSON, but not an object.
    NoObject,
    /// The name `key` of a member is no key index.
    InvalidKeyIndex { key: String },
    /// The value for the key at `key_index` is not a string.
    ColorNotText { key_index: usize },
    /// The value `color` for the key at `key_index` is no colour.
    InvalidColor { key_index: usize, color: String, reason: ColorParseError },
}

/// What the JSON parser makes of `text`: `None` where the text is not JSON,
/// `Some(None)` where it is JSON but not an object, and else the members of
/// the object in the order in which the parser hands them out.
pub uninterp spec fn json_object_entries(text: Seq<char>) -> Option<Option<Seq<EntryView>>>;

/// The mathematical values of a list of entries.
pub open spec fn entry_views(entries: Seq<ProfileEntry>) -> Seq<EntryView> {
    entries.map_values(|e: ProfileEntry| e@)
}

/// The key index that the name of a member stands for: a decimal number that
/// fits the machine word.
pub open spec fn entry_index(entry: EntryView) -> Option<int> {
    parse_unsigned(entry.0, 10, usize::MAX as int)
}

/// The key that a member stands for, where its name is a key index and its
/// value a colour.
pub open spec fn entry_key(entry: EntryView) -> Option<ProfileKey> {
    match (entry_index(entry), entry.1) {
        (Some(index), Some(color)) => if is_hex_color(color) {
            Some(ProfileKey { key_index: index as usize, rgb_value: hex_color(color) })
        } else {
            None
        },
        _ => None,
    }
}

/// Whether every member stands for a key.
pub open spec fn all_entries_valid(entries: Seq<EntryView>) -> bool {
    forall|i: int| 0 <= i < entries.len() ==> entry_key(#[trigger] entries[i]) is Some
}

/// The keys of the members, in the order of the members.
pub open spec fn profile_keys(entries: Seq<EntryView>) -> Seq<ProfileKey> {
    entries.map_values(|e: EntryView| entry_key(e)->0)
}

/// Whether `error` is the fault of `entry`: its name is checked first, then
/// its value.
pub open spec fn is_fault_of(entry: EntryView, error: ProfileError) -> bool {
    match (entry_index(entry), entry.1) {
        (None, _) => error matches ProfileError::InvalidKeyIndex { key } && key@ == entry.0,
        (Some(index), None) => error matches ProfileError::ColorNotText { key_index } && key_index
            == index,
        (Some(index), Some(text)) => {
            &&& !is_hex_color(text)
            &&& error matches ProfileError::InvalidColor { key_index, color, reason }
            &&& key_index == index
            &&& color@ == text
            &&& reason == (if text.len() != 6 {
                ColorParseError::InvalidLength { len: text.len() as usize }
            } else {
                ColorParseError::InvalidHexCharacter
            })
        },
    }
}

/// Whether `error` is the fault of the first member that stands for no key.
pub open spec fn is_first_fault(entries: Seq<EntryView>, error: ProfileError) -> bool {
    exists|j: int|
        {
            &&& 0 <= j < entries.len()
            &&& all_entries_valid(entries.take(j))
            &&& #[trigger] is_fault_of(entries[j], error)
        }
}

/// Calls `serde_json::from_str` for a `serde_json::Value` and hands out what
/// the library reads of it: whether it is an object (`Value::as_object`), and
/// then each member in the order of `Map::iter`, with its name and, where
/// the value is a string (`Value::as_str`), that string. The contract gives
/// the result a name and says nothing more of it.
#[verifier::external_body]
fn parse_json_object(text: &str) -> (parsed: Result<Option<Vec<ProfileEntry>>, serde_json::Error>)
    ensures
        parsed is Ok <==> json_object_entries(text@) is Some,
        parsed matches Ok(found) ==> json_object_entries(text@) == Some(
            match found {
                Some(entries) => Some(entry_views(entries@)),
                None => None,
            },
        ),
{
    let value: serde_json::Value = serde_json::from_str(text)?;
    Ok(value.as_object().map(|object| {
        object.iter().map(|(key, value)| ProfileEntry {
            key: key.clone(),
            color: value.as_str().map(String::from),
        }).collect()
    }))
}

/// Reads the key index from the name of a member.
fn parse_key_index(key: &str) -> (index: Option<usize>)
    ensures
        index is Some <==> parse_unsigned(key@, 10, usize::MAX as int) is Some,
        index matches Some(i) ==> i == parse_unsigned(key@, 10, usize::MAX as int)->0,
{
    match parse_unsigned_text(key, 10, usize::MAX as u64) {
        Some(value) => Some(value as usize),
        None => None,
    }
}

/// Turns the members of a profile into keys, in the order of the members.
/// The first member whose name is no key index, or whose value is no colour,
/// ends the work with an error that names it; nothing is returned of the
/// members before it.
pub fn profile_keys_from_entries(entries: &Vec<ProfileEntry>) -> (made: Result<
    Vec<ProfileKey>,
    ProfileError,
>)
    ensures
        made is Ok <==> all_entries_valid(entry_views(entries@)),
        made matches Ok(keys) ==> keys@ == profile_keys(entry_views(entries@)),
        made matches Err(error) ==> is_first_fault(entry_views(entries@), error),
{
    let ghost views = entry_views(entries@);
    let mut keys: Vec<ProfileKey> = Vec::new();
    let mut i: usize = 0;
    while i < entries.len()
        invariant
            i <= entries@.len(),
            views == entry_views(entries@),
            all_entries_valid(views.take(i as int)),
            keys@ == profile_keys(views.take(i as int)),
        decreases entries@.len() - i,
    {
        let entry = &entries[i];
        assert(views[i as int] == entry@);
        let key_index = match parse_key_index(entry.key.as_str()) {
            Some(index) => index,
            None => {
                let error = ProfileError::InvalidKeyIndex { key: entry.key.clone() };
                assert(is_fault_of(views[i as int], error));
                return Err(error);
            },
        };
        let text = match &entry.color {
            Some(text) => text,
            None => {
                let error = ProfileError::ColorNotText { key_index };
                assert(is_fault_of(views[i as int], error));
                return Err(error);
            },
        };
        let rgb_value = match OwnRGB8::parse_hex(text.as_str()) {
            Ok(color) => color,
            Err(reason) => {
                let error = ProfileError::InvalidColor { key_index, color: text.clone(), reason };
                assert(is_fault_of(views[i as int], error));
                return Err(error);
            },
        };
        keys.push(ProfileKey { key_index, rgb_value });
        proof {
            let next = views.take(i as int + 1);
            assert(next.drop_last() =~= views.take(i as int));
            assert(next.last() == entry@);
            assert forall|j: int| 0 <= j < next.len() implies entry_key(#[trigger] next[j]) is Some by {
                if j < i {
                    assert(views.take(i as int)[j] == next[j]);
                }
            }
            assert(keys@ =~= profile_keys(next));
        }
        i = i + 1;
    }
    assert(views.take(i as int) =~= views);
    Ok(keys)
}

/// Whether `made` is what becomes of `parsed`, the parser's reading of a
/// text: an error where the text is not JSON or not an object, and else the
/// keys of the members or the fault of the first member that stands for none.
pub open spec fn is_profile_of(
    parsed: Option<Option<Seq<EntryView>>>,
    made: Result<Vec<ProfileKey>, ProfileError>,
) -> bool {
    match parsed {
        None => made matches Err(ProfileError::InvalidJson(_)),
        Some(None) => made matches Err(ProfileError::NoObject),
        Some(Some(entries)) => {
            &&& made is Ok <==> all_entries_valid(entries)
            &&& made matches Ok(keys) ==> keys@ == profile_keys(entries)
            &&& made matches Err(error) ==> is_first_fault(entries, error)
        },
    }
}

/// Reads a colour profile and returns its keys, in the order in which the
/// JSON parser hands out the members of the object. What the parser makes of
/// the text is named by `json_object_entries`; what becomes of its result is
/// stated by `profile_keys_from_entries`.
pub fn read_color_profile(color_profile: &str) -> (made: Result<Vec<ProfileKey>, ProfileError>)
    ensures
        is_profile_of(json_object_entries(color_profile@), made),
{
    match parse_json_object(color_profile) {
        Err(e) => Err(ProfileError::InvalidJson(e)),
        Ok(None) => Err(ProfileError::NoObject),
        Ok(Some(entries)) => profile_keys_from_entries(&entries),
    }
}

/// What `text` becomes where every match of the regular expression `pattern`
/// is replaced by `replacement`, in which `$1` stands for the first group of
/// the match; `None` where `pattern` is no regular expression. With
/// `multi_line`, `$` in the pattern matches at the end of each line.
pub uninterp spec fn regex_replaced(
    pattern: Seq<char>,
    multi_line: bool,
    text: Seq<char>,
    replacement: Seq<char>,
) -> Option<Seq<char>>;

/// Compiles `pattern` with `regex::RegexBuilder` and calls
/// `Regex::replace_all` on `text`. The contract gives the result a name and
/// says nothing more of it.
#[verifier::external_body]
fn regex_replace_all(pattern: &str, multi_line: bool, text: &str, replacement: &str) -> (replaced:
    Option<String>)
    ensures
        match replaced {
            Some(t) => regex_replaced(pattern@, multi_line, text@, replacement@) == Some(t@),
            None => regex_replaced(pattern@, multi_line, text@, replacement@) is None,
        },
{
    let re = regex::RegexBuilder::new(pattern).multi_line(multi_line).build().ok()?;
    Some(re.replace_all(text, replacement).to_string())
}

/// `text` after one replacement of all matches; `text` itself where the
/// pattern is no regular expression.
pub open spec fn replaced_or_same(
    pattern: Seq<char>,
    multi_line: bool,
    text: Seq<char>,
    replacement: Seq<char>,
) -> Seq<char> {
    match regex_replaced(pattern, multi_line, text, replacement) {
        Some(replaced) => replaced,
        None => text,
    }
}

/// A profile text without what the permissive form allows beyond JSON:
/// first every comment from `//` to the end of its line is taken out, then
/// every comma that only white space parts from a closing brace.
pub open spec fn without_comments(text: Seq<char>) -> Seq<char> {
    replaced_or_same(",(\\s*\\})"@, false, replaced_or_same("//.*?$"@, true, text, ""@), "$1"@)
}

fn replace_or_keep(pattern: &str, multi_line: bool, text: &str, replacement: &str) -> (out: String)
    ensures
        out@ == replaced_or_same(pattern@, multi_line, text@, replacement@),
{
    match regex_replace_all(pattern, multi_line, text, replacement) {
        Some(replaced) => replaced,
        None => text.to_owned(),
    }
}

/// Takes the comments and the trailing commas out of a profile text.
pub fn strip_comments(color_profile: &str) -> (json: String)
    ensures
        json@ == without_comments(color_profile@),
{
    // Allow // comments
    let json = replace_or_keep("//.*?$", true, color_profile, "");
    // Allow trailing comma after last element
    replace_or_keep(",(\\s*\\})", false, json.as_str(), "$1")
}

/// Reads a colour profile in its permissive form: JSON in which comments
/// from `//` to the end of the line and a comma before a closing brace may
/// stand.
pub fn read_commented_color_profile(color_profile: &str) -> (made: Result<
    Vec<ProfileKey>,
    ProfileError,
>)
    ensures
        is_profile_of(json_object_entries(without_comments(color_profile@)), made),
{
    let json = strip_comments(color_profile);
    read_color_profile(json.as_str())
}

} // verus!

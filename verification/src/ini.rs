//! The INI configuration files, read and built with `configparser`.
//!
//! An `Ini` is modelled by its sections: a map from each section's name to
//! its keys and their values (`None` for a key written without a delimiter).

use vstd::prelude::*;
use configparser::ini::Ini;

verus! {

/// `configparser`'s configuration store.
#[verifier::external_type_specification]
#[verifier::external_body]
pub struct ExIni(Ini);

/// The sections that `ini` holds, each with its keys and their values.
pub uninterp spec fn ini_entries(ini: Ini) -> Map<Seq<char>, Map<Seq<char>, Option<Seq<char>>>>;

/// Whether `ini` was made with `configparser`'s default options: section and
/// key names folded to lower case, `;` and `#` comments, `=` and `:`
/// delimiters, inline comments, no multi-line values, no fallback to the
/// default section.
pub uninterp spec fn ini_has_default_options(ini: Ini) -> bool;

/// The sections that `Ini::read` parses from `input` under the default
/// options, or `None` where it reports an error.
pub uninterp spec fn ini_read_outcome(input: Seq<char>) -> Option<
    Map<Seq<char>, Map<Seq<char>, Option<Seq<char>>>>,
>;

/// Whether `s` holds only ASCII characters that are not upper-case letters:
/// `configparser` uses such a section or key name unchanged.
pub open spec fn is_folded_name(s: Seq<char>) -> bool {
    forall|i: int| 0 <= i < s.len() ==> (#[trigger] s[i] as int) < 128 && !('A' <= s[i] && s[i] <= 'Z')
}

/// The value of `key` in `section` among `entries`; `None` where the key is
/// absent or has no value.
pub open spec fn entry_value(
    entries: Map<Seq<char>, Map<Seq<char>, Option<Seq<char>>>>,
    section: Seq<char>,
    key: Seq<char>,
) -> Option<Seq<char>> {
    if entries.contains_key(section) && entries[section].contains_key(key) {
        entries[section][key]
    } else {
        None
    }
}

/// `entries` with `value` stored for `key` in `section`, the section created
/// where it is missing.
pub open spec fn store_set(
    entries: Map<Seq<char>, Map<Seq<char>, Option<Seq<char>>>>,
    section: Seq<char>,
    key: Seq<char>,
    value: Option<Seq<char>>,
) -> Map<Seq<char>, Map<Seq<char>, Option<Seq<char>>>> {
    let keys = if entries.contains_key(section) { entries[section] } else { Map::empty() };
    entries.insert(section, keys.insert(key, value))
}

/// A character that `configparser` writes and reads back unchanged inside a
/// name or value: printable ASCII, and no comment character (`;`, `#`).
pub open spec fn is_plain_char(c: char) -> bool {
    ' ' <= c && c <= '~' && c != ';' && c != '#'
}

/// Text of plain characters without a space at either end: parsing, which
/// trims, reads it back unchanged.
pub open spec fn is_plain_text(s: Seq<char>) -> bool {
    &&& forall|i: int| 0 <= i < s.len() ==> is_plain_char(#[trigger] s[i])
    &&& s.len() > 0 ==> s[0] != ' ' && s[s.len() - 1] != ' '
}

/// A key that reads back unchanged: plain, folded, not empty, without a
/// delimiter (`=`, `:`), and not starting like a section header.
pub open spec fn is_plain_key(k: Seq<char>) -> bool {
    &&& is_plain_text(k)
    &&& is_folded_name(k)
    &&& k.len() > 0
    &&& k[0] != '['
    &&& forall|i: int| 0 <= i < k.len() ==> #[trigger] k[i] != '=' && k[i] != ':'
}

/// Sections that `Ini::writes` renders and `Ini::read` reads back exactly:
/// plain folded section names, plain keys, plain values, and no empty
/// default section (whose keys are written without a header).
pub open spec fn is_plain_store(e: Map<Seq<char>, Map<Seq<char>, Option<Seq<char>>>>) -> bool {
    forall|s: Seq<char>| #[trigger] e.contains_key(s) ==> {
        &&& is_plain_text(s)
        &&& is_folded_name(s)
        &&& (s == "default"@ ==> e[s].dom().len() > 0)
        &&& forall|k: Seq<char>| #[trigger] e[s].contains_key(k) ==> is_plain_key(k) && match e[s][k] {
            Some(v) => is_plain_text(v),
            None => true,
        }
    }
}

/// No entries at all.
pub open spec fn no_entries() -> Map<Seq<char>, Map<Seq<char>, Option<Seq<char>>>> {
    Map::empty()
}

/// The contents of an optional string.
pub open spec fn opt_view(o: Option<String>) -> Option<Seq<char>> {
    match o {
        Some(s) => Some(s@),
        None => None,
    }
}

/// `Ini::new`: an empty store with the default options.
#[verifier::external_body]
pub(crate) fn ini_new() -> (ini: Ini)
    ensures
        ini_has_default_options(ini),
        ini_entries(ini) == no_entries(),
{
    Ini::new()
}

/// `Ini::read`: parses `input` and, where it parses, replaces the entries
/// with what it holds; on an error the entries stay. The options never change.
#[verifier::external_body]
pub(crate) fn ini_read(ini: &mut Ini, input: String) -> (r: Result<(), String>)
    ensures
        ini_has_default_options(*final(ini)) == ini_has_default_options(*old(ini)),
        r is Err ==> ini_entries(*final(ini)) == ini_entries(*old(ini)),
        ini_has_default_options(*old(ini)) ==> (r is Ok <==> ini_read_outcome(input@) is Some),
        ini_has_default_options(*old(ini)) && r is Ok ==> ini_entries(*final(ini))
            == ini_read_outcome(input@).unwrap(),
{
    match ini.read(input) {
        Ok(_) => Ok(()),
        Err(e) => Err(e),
    }
}

/// `Ini::get`: the value of `key` in `section`, for names that the default
/// options leave unchanged. (Other names are folded to lower case first,
/// which this contract does not state.)
#[verifier::external_body]
pub(crate) fn ini_get(ini: &Ini, section: &str, key: &str) -> (r: Option<String>)
    ensures
        ini_has_default_options(*ini) && is_folded_name(section@) && is_folded_name(key@)
            ==> opt_view(r) == entry_value(ini_entries(*ini), section@, key@),
{
    ini.get(section, key)
}

/// `Ini::set`: stores `value` for `key` in `section`, creating the section
/// where it is missing, for names that the default options leave unchanged.
/// (Other names are folded to lower case first, which this contract does not
/// state.) The options never change.
#[verifier::external_body]
pub(crate) fn ini_set(ini: &mut Ini, section: &str, key: &str, value: Option<String>)
    ensures
        ini_has_default_options(*final(ini)) == ini_has_default_options(*old(ini)),
        ini_has_default_options(*old(ini)) && is_folded_name(section@) && is_folded_name(key@)
            ==> ini_entries(*final(ini)) == store_set(ini_entries(*old(ini)), section@, key@, opt_view(value)),
{
    ini.set(section, key, value);
}

/// `Ini::writes`: the store rendered in INI syntax. The order of sections and
/// keys follows the store's hash map and is not stated; what is stated is that
/// reading the text back under the default options gives the same sections,
/// for a store whose names and values read back unchanged.
#[verifier::external_body]
pub(crate) fn ini_writes(ini: &Ini) -> (text: String)
    ensures
        ini_has_default_options(*ini) && is_plain_store(ini_entries(*ini))
            ==> ini_read_outcome(text@) == Some(ini_entries(*ini)),
{
    ini.writes()
}

} // verus!

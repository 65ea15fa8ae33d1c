//! The settings that are read once at startup, as far as the poller looks
//! into them.

use vstd::prelude::*;
use config::Config;

verus! {

#[verifier::external_type_specification]
#[verifier::external_body]
pub struct ExConfig(config::Config);

/// The text that the settings hold under each key that holds one.
pub uninterp spec fn settings_texts(settings: Config) -> Map<Seq<char>, Seq<char>>;

/// A key of lower-case letters only: it names an entry of the settings'
/// top level and nothing deeper.
pub open spec fn plain_key(key: Seq<char>) -> bool {
    &&& key.len() > 0
    &&& forall|i: int| 0 <= i < key.len() ==> 'a' <= #[trigger] key[i] <= 'z'
}

/// The text under one key of the settings, if there is one.
pub open spec fn text_under(settings: Config, key: Seq<char>) -> Option<Seq<char>> {
    if settings_texts(settings).contains_key(key) {
        Some(settings_texts(settings)[key])
    } else {
        None
    }
}

/// What a looked-up value holds, as a mathematical value.
pub open spec fn lookup_view(value: Option<String>) -> Option<Seq<char>> {
    match value {
        Some(text) => Some(text@),
        None => None,
    }
}

/// Looks one key up with config's `Config::get`, asked for a `String`. The
/// call gives the text under the key, a number or a truth value as its text,
/// and fails where the key is missing or holds a table, an array or nothing.
/// What it gives depends on the settings and the key alone, and that is all
/// the contract says: the text is named, not described. Keys are kept to
/// lower-case letters, for which config does no more than look the key up at
/// the top level.
#[verifier::external_body]
pub(crate) fn lookup(settings: &Config, key: &str) -> (value: Option<String>)
    requires
        plain_key(key@),
    ensures
        value is Some <==> settings_texts(*settings).contains_key(key@),
        value is Some ==> value->Some_0@ == settings_texts(*settings)[key@],
{
    settings.get::<String>(key).ok()
}

} // verus!

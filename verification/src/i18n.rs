//! Translation of the native menu texts: dispatch to the table of the locale,
//! and the English fallback.

use vstd::prelude::*;
use crate::lang::{en, fr, sk};
use crate::text::str_eq;

verus! {

/// The text that `menu_t` gives for a key in a locale: the locale's own table
/// (English for `"en"`, French for `"fr"`, Slovak for `"sk"`, English for any
/// locale without a table of its own), then the English table, then `"?"`.
pub open spec fn spec_menu_t(locale: Seq<char>, key: Seq<char>) -> Seq<char> {
    let lookup = if locale == "en"@ {
        en::spec_t(key)
    } else if locale == "fr"@ {
        fr::spec_t(key)
    } else if locale == "sk"@ {
        sk::spec_t(key)
    } else {
        en::spec_t(key)
    };
    match lookup {
        Some(s) => s,
        None => match en::spec_t(key) {
            Some(s) => s,
            None => "?"@,
        },
    }
}

/// Returns the translation of a menu key for a given locale, falling back to
/// English, and to `"?"` for a key that no table knows.
pub fn menu_t(locale: &str, key: &str) -> (res: &'static str)
    ensures
        res@ == spec_menu_t(locale@, key@),
{
    let lookup = if str_eq(locale, "en") {
        en::t(key)
    } else if str_eq(locale, "fr") {
        fr::t(key)
    } else if str_eq(locale, "sk") {
        sk::t(key)
    } else {
        en::t(key)
    };
    match lookup {
        Some(s) => s,
        None => match en::t(key) {
            Some(s) => s,
            None => "?",
        },
    }
}

/// The English, French and Slovak tables translate the same keys.
pub proof fn law_tables_share_their_keys(key: Seq<char>)
    ensures
        en::spec_t(key) is Some <==> fr::spec_t(key) is Some,
        en::spec_t(key) is Some <==> sk::spec_t(key) is Some,
{
}

/// A locale without a table of its own reads the English texts.
pub proof fn law_unknown_locale_reads_english(locale: Seq<char>, key: Seq<char>)
    requires
        locale != "en"@,
        locale != "fr"@,
        locale != "sk"@,
    ensures
        spec_menu_t(locale, key) == spec_menu_t("en"@, key),
{
}

/// A key that the English table knows is translated by the locale's own
/// table (English for a locale without one); a key that it does not know
/// reads `"?"`, whatever the locale.
pub proof fn law_known_keys_are_translated(locale: Seq<char>, key: Seq<char>)
    ensures
        en::spec_t(key) is Some && locale == "fr"@ ==> spec_menu_t(locale, key) == fr::spec_t(
            key,
        )->0,
        en::spec_t(key) is Some && locale == "sk"@ ==> spec_menu_t(locale, key) == sk::spec_t(
            key,
        )->0,
        en::spec_t(key) is Some && locale != "fr"@ && locale != "sk"@ ==> spec_menu_t(locale, key)
            == en::spec_t(key)->0,
        en::spec_t(key) is None ==> spec_menu_t(locale, key) == "?"@,
{
    law_tables_share_their_keys(key);
    reveal_strlit("en");
    reveal_strlit("fr");
    reveal_strlit("sk");
    assert("en"@[0] != "fr"@[0]);
    assert("en"@[0] != "sk"@[0]);
    assert("fr"@[0] != "sk"@[0]);
}

} // verus!

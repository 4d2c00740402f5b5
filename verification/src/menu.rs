//! The identifiers of the native menu items and what a click on one asks for.

use vstd::prelude::*;
use vstd::string::*;
use crate::color::chars_of;
use crate::text::{decimal, digit_char, push_char, push_decimal, starts_with, str_eq};

verus! {

// ---------------------------------------------------------------------------
// Decimal indices
// ---------------------------------------------------------------------------

/// An ASCII decimal digit.
pub open spec fn is_decimal_digit(c: char) -> bool {
    '0' <= c && c <= '9'
}

/// The value of a string of decimal digits.
pub open spec fn decimal_value(s: Seq<char>) -> nat
    decreases s.len(),
{
    if s.len() == 0 {
        0
    } else {
        decimal_value(s.drop_last()) * 10 + (s.last() as int - '0' as int) as nat
    }
}

/// Whether every character of `s` is a decimal digit.
pub open spec fn all_decimal(s: Seq<char>) -> bool {
    forall|i: int| 0 <= i < s.len() ==> is_decimal_digit(#[trigger] s[i])
}

/// `s` without a leading `+` sign.
pub open spec fn unsigned_digits(s: Seq<char>) -> Seq<char> {
    if s.len() > 0 && s[0] == '+' {
        s.drop_first()
    } else {
        s
    }
}

/// What `str::parse::<usize>` reads: an optional `+` sign, then one or more
/// decimal digits whose value fits in a `usize`.
pub open spec fn spec_parse_usize(s: Seq<char>) -> Option<usize> {
    let digits = unsigned_digits(s);
    if digits.len() > 0 && all_decimal(digits) && decimal_value(digits) <= usize::MAX {
        Some(decimal_value(digits) as usize)
    } else {
        None
    }
}

proof fn lemma_decimal_value_prefix(s: Seq<char>, k: int)
    requires
        0 <= k <= s.len(),
        forall|i: int| 0 <= i < s.len() ==> is_decimal_digit(#[trigger] s[i]),
    ensures
        decimal_value(s.subrange(0, k)) <= decimal_value(s),
    decreases s.len(),
{
    if k < s.len() {
        lemma_decimal_value_prefix(s.drop_last(), k);
        assert(s.drop_last().subrange(0, k) =~= s.subrange(0, k));
    } else {
        assert(s.subrange(0, k) =~= s);
    }
}

/// Parses the characters of `v` from `start` on as `str::parse::<usize>` does.
fn parse_usize_from(v: &Vec<char>, start: usize) -> (r: Option<usize>)
    requires
        start <= v.len(),
    ensures
        r == spec_parse_usize(v@.subrange(start as int, v.len() as int)),
{
    let ghost s = v@.subrange(start as int, v.len() as int);
    let n = v.len();
    let mut i = start;
    if i < n && v[i] == '+' {
        i = i + 1;
    }
    let ghost digits = v@.subrange(i as int, n as int);
    assert(digits =~= unsigned_digits(s));
    if i == n {
        return None;
    }
    let first = i;
    let mut acc: usize = 0;
    while i < n
        invariant
            first <= i <= n == v.len(),
            first < n,
            s == v@.subrange(start as int, n as int),
            digits == unsigned_digits(s),
            digits == v@.subrange(first as int, n as int),
            forall|j: int| first <= j < i ==> is_decimal_digit(#[trigger] v@[j]),
            acc == decimal_value(v@.subrange(first as int, i as int)),
        decreases n - i,
    {
        let c = v[i];
        if !('0' <= c && c <= '9') {
            assert(!is_decimal_digit(digits[i - first]));
            assert(spec_parse_usize(s) is None);
            return None;
        }
        let d = (c as u32 - 48) as usize;
        assert(v@.subrange(first as int, i + 1).drop_last() =~= v@.subrange(first as int, i as int));
        if acc > (usize::MAX - d) / 10 {
            proof {
                assert(decimal_value(v@.subrange(first as int, i + 1)) == acc * 10 + d);
                assert(decimal_value(v@.subrange(first as int, i + 1)) > usize::MAX) by (nonlinear_arith)
                    requires
                        decimal_value(v@.subrange(first as int, i + 1)) == acc * 10 + d,
                        acc > (usize::MAX - d) / 10,
                        d <= 9,
                ;
                if all_decimal(digits) {
                    lemma_decimal_value_prefix(digits, i + 1 - first);
                    assert(digits.subrange(0, i + 1 - first) =~= v@.subrange(first as int, i + 1));
                }
                assert(spec_parse_usize(s) is None);
            }
            return None;
        }
        acc = acc * 10 + d;
        i = i + 1;
    }
    assert(v@.subrange(first as int, n as int) == digits);
    Some(acc)
}

proof fn lemma_digit_char_value(d: int)
    requires
        0 <= d < 10,
    ensures
        is_decimal_digit(digit_char(d)),
        digit_char(d) as int - '0' as int == d,
{
}

proof fn lemma_decimal_reads_back(n: nat)
    ensures
        decimal(n).len() > 0,
        forall|i: int| 0 <= i < decimal(n).len() ==> is_decimal_digit(#[trigger] decimal(n)[i]),
        decimal_value(decimal(n)) == n,
    decreases n,
{
    lemma_digit_char_value((n % 10) as int);
    if n < 10 {
        assert(decimal(n).drop_last() =~= Seq::<char>::empty());
        assert(decimal_value(Seq::<char>::empty()) == 0);
    }
    if n >= 10 {
        lemma_decimal_reads_back(n / 10);
        let d = decimal(n);
        assert(d.drop_last() =~= decimal(n / 10));
        assert(d.last() == digit_char((n % 10) as int));
        assert(decimal_value(d) == decimal_value(decimal(n / 10)) * 10 + (n % 10));
        assert forall|i: int| 0 <= i < d.len() implies is_decimal_digit(#[trigger] d[i]) by {
            if i < d.len() - 1 {
                assert(d[i] == decimal(n / 10)[i]);
            }
        }
    }
}

/// Reading the decimal rendering of an index gives the index back.
pub proof fn law_parse_reads_decimal(n: usize)
    ensures
        spec_parse_usize(decimal(n as nat)) == Some(n),
{
    lemma_decimal_reads_back(n as nat);
}

// ---------------------------------------------------------------------------
// Copy templates
// ---------------------------------------------------------------------------

/// `copy_template_N`, the menu identifier of the template at index `N`.
pub open spec fn spec_copy_template_menu_id(index: usize) -> Seq<char> {
    "copy_template_"@ + decimal(index as nat)
}

/// The menu identifier of the copy template at `index`.
pub fn copy_template_menu_id(index: usize) -> (id: String)
    ensures
        id@ == spec_copy_template_menu_id(index),
{
    let mut id = String::new();
    id.append("copy_template_");
    push_decimal(&mut id, index as u64);
    id
}

// ---------------------------------------------------------------------------
// Menu clicks
// ---------------------------------------------------------------------------

/// The appearance modes of the window.
#[derive(PartialEq, Eq, Structural, Debug, Clone, Copy)]
pub enum Appearance {
    Auto,
    Light,
    Dark,
}

/// The style themes of the window.
#[derive(PartialEq, Eq, Structural, Debug, Clone, Copy)]
pub enum StyleTheme {
    Modern,
    Classic,
}

/// What a click on a menu item asks for.
#[derive(PartialEq, Eq, Structural, Debug, Clone, Copy)]
pub enum MenuCommand {
    /// Copy with the template at this index.
    CopyTemplate(usize),
    /// A copy-template item whose index does not read: nothing to do.
    Ignore,
    /// Open (or focus) the settings window.
    OpenSettings,
    /// Switch to this appearance.
    SetAppearance(Appearance),
    /// Switch to this style theme.
    SetStyle(StyleTheme),
    /// Flip the always-on-top state.
    ToggleAlwaysOnTop,
    /// Any other item: possibly a colour profile.
    Other,
}

impl Appearance {
    /// The name of the mode as the front end and the menu use it.
    pub open spec fn spec_name(self) -> Seq<char> {
        match self {
            Appearance::Auto => "auto"@,
            Appearance::Light => "light"@,
            Appearance::Dark => "dark"@,
        }
    }

    /// The name of the mode: `"auto"`, `"light"` or `"dark"`.
    pub fn as_str(&self) -> (s: &'static str)
        ensures
            s@ == self.spec_name(),
    {
        match self {
            Appearance::Auto => "auto",
            Appearance::Light => "light",
            Appearance::Dark => "dark",
        }
    }
}

impl StyleTheme {
    /// The name of the theme as the front end and the menu use it.
    pub open spec fn spec_name(self) -> Seq<char> {
        match self {
            StyleTheme::Modern => "modern"@,
            StyleTheme::Classic => "classic"@,
        }
    }

    /// The name of the theme: `"modern"` or `"classic"`.
    pub fn as_str(&self) -> (s: &'static str)
        ensures
            s@ == self.spec_name(),
    {
        match self {
            StyleTheme::Modern => "modern",
            StyleTheme::Classic => "classic",
        }
    }
}

/// What the click on the menu item `id` asks for.
pub open spec fn spec_menu_command(id: Seq<char>) -> MenuCommand {
    let prefix = "copy_template_"@;
    if prefix.len() <= id.len() && id.subrange(0, prefix.len() as int) == prefix {
        match spec_parse_usize(id.subrange(prefix.len() as int, id.len() as int)) {
            Some(i) => MenuCommand::CopyTemplate(i),
            None => MenuCommand::Ignore,
        }
    } else if id == "settings"@ {
        MenuCommand::OpenSettings
    } else if id == "appearance_auto"@ {
        MenuCommand::SetAppearance(Appearance::Auto)
    } else if id == "appearance_light"@ {
        MenuCommand::SetAppearance(Appearance::Light)
    } else if id == "appearance_dark"@ {
        MenuCommand::SetAppearance(Appearance::Dark)
    } else if id == "style_modern"@ {
        MenuCommand::SetStyle(StyleTheme::Modern)
    } else if id == "style_classic"@ {
        MenuCommand::SetStyle(StyleTheme::Classic)
    } else if id == "always_on_top"@ {
        MenuCommand::ToggleAlwaysOnTop
    } else {
        MenuCommand::Other
    }
}

/// Decides what a click on the menu item `menu_id` asks for.
pub fn menu_command(menu_id: &str) -> (c: MenuCommand)
    ensures
        c == spec_menu_command(menu_id@),
{
    let prefix = "copy_template_";
    if starts_with(menu_id, prefix) {
        let v = chars_of(menu_id);
        let start = prefix.unicode_len();
        match parse_usize_from(&v, start) {
            Some(i) => MenuCommand::CopyTemplate(i),
            None => MenuCommand::Ignore,
        }
    } else if str_eq(menu_id, "settings") {
        MenuCommand::OpenSettings
    } else if str_eq(menu_id, "appearance_auto") {
        MenuCommand::SetAppearance(Appearance::Auto)
    } else if str_eq(menu_id, "appearance_light") {
        MenuCommand::SetAppearance(Appearance::Light)
    } else if str_eq(menu_id, "appearance_dark") {
        MenuCommand::SetAppearance(Appearance::Dark)
    } else if str_eq(menu_id, "style_modern") {
        MenuCommand::SetStyle(StyleTheme::Modern)
    } else if str_eq(menu_id, "style_classic") {
        MenuCommand::SetStyle(StyleTheme::Classic)
    } else if str_eq(menu_id, "always_on_top") {
        MenuCommand::ToggleAlwaysOnTop
    } else {
        MenuCommand::Other
    }
}

/// The appearance items are named after the modes they switch to:
/// `appearance_` and the mode's name; likewise `style_` and the theme's name.
pub proof fn law_mode_items_switch_to_their_mode(a: Appearance, t: StyleTheme)
    ensures
        spec_menu_command("appearance_"@ + a.spec_name()) == MenuCommand::SetAppearance(a),
        spec_menu_command("style_"@ + t.spec_name()) == MenuCommand::SetStyle(t),
{
    reveal_strlit("copy_template_");
    reveal_strlit("settings");
    reveal_strlit("appearance_");
    reveal_strlit("style_");
    reveal_strlit("auto");
    reveal_strlit("light");
    reveal_strlit("dark");
    reveal_strlit("modern");
    reveal_strlit("classic");
    reveal_strlit("appearance_auto");
    reveal_strlit("appearance_light");
    reveal_strlit("appearance_dark");
    reveal_strlit("style_modern");
    reveal_strlit("style_classic");
    let id = "appearance_"@ + a.spec_name();
    assert(id[0] != "copy_template_"@[0]);
    assert(id.subrange(0, "copy_template_"@.len() as int)[0] == id[0]);
    assert(id[0] != "settings"@[0]);
    match a {
        Appearance::Auto => {
            assert(id =~= "appearance_auto"@);
        },
        Appearance::Light => {
            assert(id =~= "appearance_light"@);
            assert(id[11] != "appearance_auto"@[11]);
        },
        Appearance::Dark => {
            assert(id =~= "appearance_dark"@);
            assert(id[11] != "appearance_auto"@[11]);
            assert(id[11] != "appearance_light"@[11]);
        },
    }
    let st = "style_"@ + t.spec_name();
    assert(st.len() < "copy_template_"@.len());
    assert(st.len() != "settings"@.len());
    assert(st[0] != "appearance_auto"@[0]);
    assert(st[0] != "appearance_light"@[0]);
    assert(st[0] != "appearance_dark"@[0]);
    match t {
        StyleTheme::Modern => {
            assert(st =~= "style_modern"@);
        },
        StyleTheme::Classic => {
            assert(st =~= "style_classic"@);
            assert(st[6] != "style_modern"@[6]);
        },
    }
}

/// A click on the item of the copy template at `index` asks to copy with
/// that template.
pub proof fn law_copy_template_item_round_trip(index: usize)
    ensures
        spec_menu_command(spec_copy_template_menu_id(index)) == MenuCommand::CopyTemplate(index),
{
    let id = spec_copy_template_menu_id(index);
    let prefix = "copy_template_"@;
    assert(id.subrange(0, prefix.len() as int) =~= prefix);
    assert(id.subrange(prefix.len() as int, id.len() as int) =~= decimal(index as nat));
    law_parse_reads_decimal(index);
}

// ---------------------------------------------------------------------------
// Colour profiles
// ---------------------------------------------------------------------------

/// What `str::to_lowercase` returns for a string: its characters mapped by
/// the Unicode lowercase mapping.
pub uninterp spec fn spec_lowercase(s: Seq<char>) -> Seq<char>;

/// Trusted: std's `str::to_lowercase`. Its documentation says that it
/// returns the lowercase equivalent of the string as a new `String`, by the
/// Unicode `Lowercase` derived property; the result depends on the characters
/// alone. What that mapping is, is not stated here.
#[verifier::external_body]
fn lowercase(s: &str) -> (res: String)
    ensures
        res@ == spec_lowercase(s@),
{
    s.to_lowercase()
}

/// `s` with each space replaced by an underscore.
pub open spec fn spaces_to_underscores(s: Seq<char>) -> Seq<char> {
    Seq::new(s.len(), |i: int| if s[i] == ' ' { '_' } else { s[i] })
}

/// `icc_profile_` followed by the lowercased profile name, spaces replaced by
/// underscores.
pub open spec fn spec_profile_menu_id(name: Seq<char>) -> Seq<char> {
    "icc_profile_"@ + spaces_to_underscores(spec_lowercase(name))
}

/// Converts a profile name to its menu identifier.
pub fn profile_name_to_menu_id(name: &str) -> (id: String)
    ensures
        id@ == spec_profile_menu_id(name@),
{
    let low = lowercase(name);
    let chars = chars_of(low.as_str());
    let mut id = String::new();
    id.append("icc_profile_");
    let ghost head = id@;
    let mut i: usize = 0;
    while i < chars.len()
        invariant
            i <= chars.len(),
            chars@ == spec_lowercase(name@),
            head == "icc_profile_"@,
            id@ == head + spaces_to_underscores(chars@).subrange(0, i as int),
        decreases chars.len() - i,
    {
        let c = chars[i];
        push_char(&mut id, if c == ' ' { '_' } else { c });
        assert(spaces_to_underscores(chars@).subrange(0, i + 1) =~= spaces_to_underscores(
            chars@,
        ).subrange(0, i as int).push(if c == ' ' { '_' } else { c }));
        i = i + 1;
    }
    assert(spaces_to_underscores(chars@).subrange(0, i as int) =~= spaces_to_underscores(chars@));
    id
}

/// The first of `profiles` whose menu identifier is `menu_id`.
pub open spec fn spec_profile_for_menu_id(menu_id: Seq<char>, profiles: Seq<Seq<char>>) -> Option<
    Seq<char>,
>
    decreases profiles.len(),
{
    if profiles.len() == 0 {
        None
    } else if spec_profile_menu_id(profiles[0]) == menu_id {
        Some(profiles[0])
    } else {
        spec_profile_for_menu_id(menu_id, profiles.drop_first())
    }
}

/// The names of the profiles in a list, in order.
pub open spec fn names_of(profiles: Seq<String>) -> Seq<Seq<char>> {
    profiles.map_values(|p: String| p@)
}

/// The characters of an optional string.
pub open spec fn opt_string_view(o: Option<String>) -> Option<Seq<char>> {
    match o {
        Some(s) => Some(s@),
        None => None,
    }
}

/// Whether a menu identifier has the form of a colour profile's, `icc_profile_`
/// followed by anything: only such an identifier can name a profile (see
/// `menu_id_to_profile_name`), so the profiles need listing only then.
pub fn is_profile_menu_id(menu_id: &str) -> (b: bool)
    ensures
        b == ("icc_profile_"@.len() <= menu_id@.len() && menu_id@.subrange(
            0,
            "icc_profile_"@.len() as int,
        ) == "icc_profile_"@),
        !b ==> forall|profiles: Seq<Seq<char>>|
            #[trigger] spec_profile_for_menu_id(menu_id@, profiles) is None,
{
    let b = starts_with(menu_id, "icc_profile_");
    proof {
        assert forall|profiles: Seq<Seq<char>>| !b implies #[trigger] spec_profile_for_menu_id(
            menu_id@,
            profiles,
        ) is None by {
            lemma_no_profile_without_prefix(menu_id@, profiles);
        }
    }
    b
}

proof fn lemma_no_profile_without_prefix(menu_id: Seq<char>, profiles: Seq<Seq<char>>)
    requires
        !("icc_profile_"@.len() <= menu_id.len() && menu_id.subrange(0, "icc_profile_"@.len() as int)
            == "icc_profile_"@),
    ensures
        spec_profile_for_menu_id(menu_id, profiles) is None,
    decreases profiles.len(),
{
    if profiles.len() > 0 {
        let id = spec_profile_menu_id(profiles[0]);
        assert(id.subrange(0, "icc_profile_"@.len() as int) =~= "icc_profile_"@);
        lemma_no_profile_without_prefix(menu_id, profiles.drop_first());
    }
}

/// Extracts the profile name from a menu identifier: the first of the listed
/// profiles whose identifier it is, `None` if there is none.
pub fn menu_id_to_profile_name(menu_id: &str, profiles: &Vec<String>) -> (res: Option<String>)
    ensures
        opt_string_view(res) == spec_profile_for_menu_id(menu_id@, names_of(profiles@)),
{
    let ghost names = names_of(profiles@);
    if !starts_with(menu_id, "icc_profile_") {
        proof {
            lemma_no_profile_without_prefix(menu_id@, names);
        }
        return None;
    }
    let mut i: usize = 0;
    assert(names.subrange(0, names.len() as int) =~= names);
    while i < profiles.len()
        invariant
            i <= profiles.len(),
            names == names_of(profiles@),
            spec_profile_for_menu_id(menu_id@, names) == spec_profile_for_menu_id(
                menu_id@,
                names.subrange(i as int, names.len() as int),
            ),
        decreases profiles.len() - i,
    {
        let ghost rest = names.subrange(i as int, names.len() as int);
        assert(rest[0] == profiles@[i as int]@);
        let id = profile_name_to_menu_id(profiles[i].as_str());
        if str_eq(id.as_str(), menu_id) {
            return Some(profiles[i].clone());
        }
        assert(rest.drop_first() =~= names.subrange(i + 1, names.len() as int));
        i = i + 1;
    }
    None
}

/// A listed profile is found again from its menu identifier: the result is a
/// listed profile with that same identifier (the first one, where several
/// names lowercase alike).
pub proof fn law_profile_menu_id_round_trip(name: Seq<char>, profiles: Seq<Seq<char>>)
    requires
        profiles.contains(name),
    ensures
        spec_profile_for_menu_id(spec_profile_menu_id(name), profiles) is Some,
        profiles.contains(spec_profile_for_menu_id(spec_profile_menu_id(name), profiles)->0),
        spec_profile_menu_id(spec_profile_for_menu_id(spec_profile_menu_id(name), profiles)->0)
            == spec_profile_menu_id(name),
    decreases profiles.len(),
{
    if profiles[0] != name {
        assert(profiles.drop_first().contains(name)) by {
            let k = choose|k: int| 0 <= k < profiles.len() && profiles[k] == name;
            assert(profiles.drop_first()[k - 1] == name);
        }
        law_profile_menu_id_round_trip(name, profiles.drop_first());
        if spec_profile_menu_id(profiles[0]) != spec_profile_menu_id(name) {
            let found = spec_profile_for_menu_id(spec_profile_menu_id(name), profiles.drop_first())->0;
            let k = choose|k: int| 0 <= k < profiles.drop_first().len() && profiles.drop_first()[k] == found;
            assert(profiles[k + 1] == found);
        }
    }
}

} // verus!

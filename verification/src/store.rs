//! The plain parts of the colour store: copy templates, the colour slots that
//! a key names, and the text forms of a colour.

use vstd::prelude::*;
use vstd::string::*;
use crate::text::{decimal, push_decimal, str_eq};

verus! {

/// Copy template (template text and keyboard shortcut).
#[derive(Clone, Debug)]
pub struct CopyTemplate {
    pub name: String,
    pub template: String,
    pub shortcut: String,
}

impl CopyTemplate {
    /// The label of the template in the copy-templates menu, where it stands
    /// at `index`: its name, or `Template N` (counted from 1) when it has none.
    pub fn menu_label(&self, index: usize) -> (label: String)
        requires
            index < usize::MAX,
        ensures
            label@ == (if self.name@.len() == 0 {
                "Template "@ + decimal((index + 1) as nat)
            } else {
                self.name@
            }),
    {
        if self.name.as_str().is_empty() {
            let mut label = String::new();
            label.append("Template ");
            push_decimal(&mut label, (index + 1) as u64);
            label
        } else {
            self.name.clone()
        }
    }

    /// Whether the template's item gets a keyboard shortcut: only when one is set.
    pub fn has_shortcut(&self) -> (b: bool)
        ensures
            b == (self.shortcut@.len() > 0),
    {
        !self.shortcut.as_str().is_empty()
    }
}

/// The two colours of the store.
#[derive(PartialEq, Eq, Structural, Debug, Clone, Copy)]
pub enum ColorSlot {
    Foreground,
    Background,
}

impl ColorSlot {
    /// The slot that a store key names: `"foreground"` or `"background"`.
    pub open spec fn spec_from_key(key: Seq<char>) -> Option<ColorSlot> {
        if key == "foreground"@ {
            Some(ColorSlot::Foreground)
        } else if key == "background"@ {
            Some(ColorSlot::Background)
        } else {
            None
        }
    }

    /// The slot that a store key names, `None` for an unknown key.
    pub fn from_key(key: &str) -> (slot: Option<ColorSlot>)
        ensures
            slot == Self::spec_from_key(key@),
    {
        if str_eq(key, "foreground") {
            Some(ColorSlot::Foreground)
        } else if str_eq(key, "background") {
            Some(ColorSlot::Background)
        } else {
            None
        }
    }
}

/// `"foreground"` names the foreground and `"background"` the background.
pub proof fn law_slot_keys()
    ensures
        ColorSlot::spec_from_key("foreground"@) == Some(ColorSlot::Foreground),
        ColorSlot::spec_from_key("background"@) == Some(ColorSlot::Background),
{
    reveal_strlit("foreground");
    reveal_strlit("background");
    assert("foreground"@[0] != "background"@[0]);
}

/// The text forms of a colour that the store shows.
#[derive(Clone, Debug)]
pub struct ColorTexts {
    pub rgb_css: String,
    pub hex: String,
    pub hsl: String,
    pub hsv: String,
    pub lab: String,
    pub oklch: String,
}

impl ColorTexts {
    /// Keeps the text that the user entered for the format being edited
    /// (`"hsl"`, `"hsv"`, `"lab"` or `"oklch"`) in place of the one derived
    /// from the colour; any other format changes nothing.
    pub fn keep_entered_text(&mut self, format: &str, entered: String)
        ensures
            final(self).rgb_css == old(self).rgb_css,
            final(self).hex == old(self).hex,
            final(self).hsl == (if format@ == "hsl"@ { entered } else { old(self).hsl }),
            final(self).hsv == (if format@ == "hsv"@ { entered } else { old(self).hsv }),
            final(self).lab == (if format@ == "lab"@ { entered } else { old(self).lab }),
            final(self).oklch == (if format@ == "oklch"@ { entered } else { old(self).oklch }),
    {
        proof {
            reveal_strlit("hsl");
            reveal_strlit("hsv");
            reveal_strlit("lab");
            reveal_strlit("oklch");
            assert("hsl"@[2] != "hsv"@[2]);
            assert("hsl"@[0] != "lab"@[0]);
            assert("hsv"@[0] != "lab"@[0]);
            assert("hsl"@.len() != "oklch"@.len());
            assert("hsv"@.len() != "oklch"@.len());
            assert("lab"@.len() != "oklch"@.len());
        }
        if str_eq(format, "hsl") {
            self.hsl = entered;
        } else if str_eq(format, "hsv") {
            self.hsv = entered;
        } else if str_eq(format, "lab") {
            self.lab = entered;
        } else if str_eq(format, "oklch") {
            self.oklch = entered;
        }
    }
}

} // verus!

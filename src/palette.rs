use vstd::prelude::*;

verus! {

/// The named colours of the game's colour scheme.
#[derive(Clone, Copy, Debug, PartialEq, Eq, Structural)]
pub enum SchemeColor {
    Black,
    DarkGray,
    Gray,
    LightGray,
    Subtext,
    White,
    Red,
    Magenta,
    Purple,
    Blue,
    Cyan,
    Green,
    Yellow,
}

/// The red, green and blue components of each colour.
pub open spec fn spec_rgb(c: SchemeColor) -> (u8, u8, u8) {
    match c {
        SchemeColor::Black => (13, 13, 15),
        SchemeColor::DarkGray => (21, 21, 23),
        SchemeColor::Gray => (39, 39, 43),
        SchemeColor::LightGray => (69, 68, 73),
        SchemeColor::Subtext => (217, 208, 215),
        SchemeColor::White => (236, 229, 234),
        SchemeColor::Red => (240, 105, 105),
        SchemeColor::Magenta => (232, 135, 187),
        SchemeColor::Purple => (162, 146, 232),
        SchemeColor::Blue => (120, 175, 196),
        SchemeColor::Cyan => (127, 230, 174),
        SchemeColor::Green => (145, 214, 92),
        SchemeColor::Yellow => (217, 213, 100),
    }
}

/// The key under which each colour is looked up.
pub open spec fn spec_name(c: SchemeColor) -> Seq<char> {
    match c {
        SchemeColor::Black => "BLACK"@,
        SchemeColor::DarkGray => "DARK_GRAY"@,
        SchemeColor::Gray => "GRAY"@,
        SchemeColor::LightGray => "LIGHT_GRAY"@,
        SchemeColor::Subtext => "SUBTEXT"@,
        SchemeColor::White => "WHITE"@,
        SchemeColor::Red => "RED"@,
        SchemeColor::Magenta => "MAGENTA"@,
        SchemeColor::Purple => "PURPLE"@,
        SchemeColor::Blue => "BLUE"@,
        SchemeColor::Cyan => "CYAN"@,
        SchemeColor::Green => "GREEN"@,
        SchemeColor::Yellow => "YELLOW"@,
    }
}

/// The colour whose key is `s`, if any; keys are matched exactly.
pub open spec fn named(s: Seq<char>) -> Option<SchemeColor> {
    if s == "BLACK"@ {
        Some(SchemeColor::Black)
    } else if s == "DARK_GRAY"@ {
        Some(SchemeColor::DarkGray)
    } else if s == "GRAY"@ {
        Some(SchemeColor::Gray)
    } else if s == "LIGHT_GRAY"@ {
        Some(SchemeColor::LightGray)
    } else if s == "SUBTEXT"@ {
        Some(SchemeColor::Subtext)
    } else if s == "WHITE"@ {
        Some(SchemeColor::White)
    } else if s == "RED"@ {
        Some(SchemeColor::Red)
    } else if s == "MAGENTA"@ {
        Some(SchemeColor::Magenta)
    } else if s == "PURPLE"@ {
        Some(SchemeColor::Purple)
    } else if s == "BLUE"@ {
        Some(SchemeColor::Blue)
    } else if s == "CYAN"@ {
        Some(SchemeColor::Cyan)
    } else if s == "GREEN"@ {
        Some(SchemeColor::Green)
    } else if s == "YELLOW"@ {
        Some(SchemeColor::Yellow)
    } else {
        None
    }
}

/// Whether two strings hold the same characters.
fn same_text(a: &str, b: &str) -> (r: bool)
    ensures
        r == (a@ == b@),
{
    let n = a.unicode_len();
    if n != b.unicode_len() {
        return false;
    }
    let mut i: usize = 0;
    while i < n
        invariant
            n == a@.len(),
            n == b@.len(),
            i <= n,
            forall|j: int| 0 <= j < i ==> a@[j] == b@[j],
        decreases n - i,
    {
        if a.get_char(i) != b.get_char(i) {
            return false;
        }
        i += 1;
    }
    assert(a@ =~= b@);
    true
}

impl SchemeColor {
    /// The colour's red, green and blue components.
    pub fn rgb(self) -> (r: (u8, u8, u8))
        ensures
            r == spec_rgb(self),
    {
        match self {
            SchemeColor::Black => (13, 13, 15),
            SchemeColor::DarkGray => (21, 21, 23),
            SchemeColor::Gray => (39, 39, 43),
            SchemeColor::LightGray => (69, 68, 73),
            SchemeColor::Subtext => (217, 208, 215),
            SchemeColor::White => (236, 229, 234),
            SchemeColor::Red => (240, 105, 105),
            SchemeColor::Magenta => (232, 135, 187),
            SchemeColor::Purple => (162, 146, 232),
            SchemeColor::Blue => (120, 175, 196),
            SchemeColor::Cyan => (127, 230, 174),
            SchemeColor::Green => (145, 214, 92),
            SchemeColor::Yellow => (217, 213, 100),
        }
    }

    /// The key of the colour.
    pub fn name(self) -> (r: &'static str)
        ensures
            r@ == spec_name(self),
    {
        match self {
            SchemeColor::Black => "BLACK",
            SchemeColor::DarkGray => "DARK_GRAY",
            SchemeColor::Gray => "GRAY",
            SchemeColor::LightGray => "LIGHT_GRAY",
            SchemeColor::Subtext => "SUBTEXT",
            SchemeColor::White => "WHITE",
            SchemeColor::Red => "RED",
            SchemeColor::Magenta => "MAGENTA",
            SchemeColor::Purple => "PURPLE",
            SchemeColor::Blue => "BLUE",
            SchemeColor::Cyan => "CYAN",
            SchemeColor::Green => "GREEN",
            SchemeColor::Yellow => "YELLOW",
        }
    }

    /// The colour whose key is `key`, or `None` for any other string.
    pub fn from_name(key: &str) -> (r: Option<SchemeColor>)
        ensures
            r == named(key@),
    {
        if same_text(key, "BLACK") {
            Some(SchemeColor::Black)
        } else if same_text(key, "DARK_GRAY") {
            Some(SchemeColor::DarkGray)
        } else if same_text(key, "GRAY") {
            Some(SchemeColor::Gray)
        } else if same_text(key, "LIGHT_GRAY") {
            Some(SchemeColor::LightGray)
        } else if same_text(key, "SUBTEXT") {
            Some(SchemeColor::Subtext)
        } else if same_text(key, "WHITE") {
            Some(SchemeColor::White)
        } else if same_text(key, "RED") {
            Some(SchemeColor::Red)
        } else if same_text(key, "MAGENTA") {
            Some(SchemeColor::Magenta)
        } else if same_text(key, "PURPLE") {
            Some(SchemeColor::Purple)
        } else if same_text(key, "BLUE") {
            Some(SchemeColor::Blue)
        } else if same_text(key, "CYAN") {
            Some(SchemeColor::Cyan)
        } else if same_text(key, "GREEN") {
            Some(SchemeColor::Green)
        } else if same_text(key, "YELLOW") {
            Some(SchemeColor::Yellow)
        } else {
            None
        }
    }
}

/// Looks a colour up by its key: its components, or `None` where no colour
/// has that key.
pub fn color_by_name(key: &str) -> (r: Option<(u8, u8, u8)>)
    ensures
        r == match named(key@) {
            Some(c) => Some(spec_rgb(c)),
            None => None,
        },
{
    match SchemeColor::from_name(key) {
        Some(c) => Some(c.rgb()),
        None => None,
    }
}

/// Every colour is found again under its own key: the keys are distinct.
pub proof fn lemma_name_round_trip(c: SchemeColor)
    ensures
        named(spec_name(c)) == Some(c),
{
    reveal_strlit("BLACK");
    reveal_strlit("DARK_GRAY");
    reveal_strlit("GRAY");
    reveal_strlit("LIGHT_GRAY");
    reveal_strlit("SUBTEXT");
    reveal_strlit("WHITE");
    reveal_strlit("RED");
    reveal_strlit("MAGENTA");
    reveal_strlit("PURPLE");
    reveal_strlit("BLUE");
    reveal_strlit("CYAN");
    reveal_strlit("GREEN");
    reveal_strlit("YELLOW");
    let n = spec_name(c);
    // no two keys agree in both length and first character
    assert(n == "BLACK"@ || n.len() != "BLACK"@.len() || n[0] != "BLACK"@[0]);
    assert(n == "DARK_GRAY"@ || n.len() != "DARK_GRAY"@.len() || n[0] != "DARK_GRAY"@[0]);
    assert(n == "GRAY"@ || n.len() != "GRAY"@.len() || n[0] != "GRAY"@[0]);
    assert(n == "LIGHT_GRAY"@ || n.len() != "LIGHT_GRAY"@.len() || n[0] != "LIGHT_GRAY"@[0]);
    assert(n == "SUBTEXT"@ || n.len() != "SUBTEXT"@.len() || n[0] != "SUBTEXT"@[0]);
    assert(n == "WHITE"@ || n.len() != "WHITE"@.len() || n[0] != "WHITE"@[0]);
    assert(n == "RED"@ || n.len() != "RED"@.len() || n[0] != "RED"@[0]);
    assert(n == "MAGENTA"@ || n.len() != "MAGENTA"@.len() || n[0] != "MAGENTA"@[0]);
    assert(n == "PURPLE"@ || n.len() != "PURPLE"@.len() || n[0] != "PURPLE"@[0]);
    assert(n == "BLUE"@ || n.len() != "BLUE"@.len() || n[0] != "BLUE"@[0]);
    assert(n == "CYAN"@ || n.len() != "CYAN"@.len() || n[0] != "CYAN"@[0]);
    assert(n == "GREEN"@ || n.len() != "GREEN"@.len() || n[0] != "GREEN"@[0]);
    assert(n == "YELLOW"@ || n.len() != "YELLOW"@.len() || n[0] != "YELLOW"@[0]);
}

/// A key finds a colour only when it is that colour's own key.
pub proof fn lemma_named_key(s: Seq<char>, c: SchemeColor)
    requires
        named(s) == Some(c),
    ensures
        s == spec_name(c),
{
}

} // verus!

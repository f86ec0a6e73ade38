//! Theme presets: a name and a palette of ten colours. Themes compare and
//! order by name alone.

use crate::color::{hex_color_of, hex_to_color, is_hex_color, Color, OPAQUE};
use core::cmp::Ordering;
use vstd::prelude::*;
use vstd::std_specs::cmp::{PartialEqSpec, PartialOrdSpec};

verus! {

/// The background and foreground pair.
#[derive(Clone, Copy, Debug, PartialEq, Eq, Structural)]
pub struct BaseColors {
    pub background: Color,
    pub foreground: Color,
}

/// The muted variant of each accent role.
#[derive(Clone, Copy, Debug, PartialEq, Eq, Structural)]
pub struct NormalColors {
    pub primary: Color,
    pub secondary: Color,
    pub surface: Color,
    pub error: Color,
}

/// The vivid variant of each accent role.
#[derive(Clone, Copy, Debug, PartialEq, Eq, Structural)]
pub struct BrightColors {
    pub primary: Color,
    pub secondary: Color,
    pub surface: Color,
    pub error: Color,
}

/// Every colour role that a theme supplies.
#[derive(Clone, Copy, Debug, PartialEq, Eq, Structural)]
pub struct ColorPalette {
    pub base: BaseColors,
    pub normal: NormalColors,
    pub bright: BrightColors,
}

/// A named palette. Equality and order look at the name only.
#[derive(Clone, Debug)]
pub struct Theme {
    pub name: String,
    pub palette: ColorPalette,
}

/// The opaque colour with the given red, green and blue bytes.
pub open spec fn rgb(r: u8, g: u8, b: u8) -> Color {
    Color { r, g, b, a: OPAQUE }
}

/// Lexicographic order of two character sequences, comparing code points.
/// On strings this is the order of `str`, since UTF-8 keeps code point order.
pub open spec fn lex_cmp(a: Seq<char>, b: Seq<char>) -> Ordering
    decreases a.len(),
{
    if a.len() == 0 {
        if b.len() == 0 {
            Ordering::Equal
        } else {
            Ordering::Less
        }
    } else if b.len() == 0 {
        Ordering::Greater
    } else if a[0] < b[0] {
        Ordering::Less
    } else if a[0] > b[0] {
        Ordering::Greater
    } else {
        lex_cmp(a.drop_first(), b.drop_first())
    }
}

/// Two names are the same exactly when neither orders before the other.
pub proof fn lemma_lex_cmp_equal_iff_same(a: Seq<char>, b: Seq<char>)
    ensures
        (lex_cmp(a, b) == Ordering::Equal) <==> (a == b),
    decreases a.len(),
{
    if a.len() > 0 && b.len() > 0 && a[0] == b[0] {
        lemma_lex_cmp_equal_iff_same(a.drop_first(), b.drop_first());
        if a.drop_first() == b.drop_first() {
            assert(a =~= seq![a[0]] + a.drop_first());
            assert(b =~= seq![b[0]] + b.drop_first());
        }
    } else if a.len() == 0 && b.len() == 0 {
        assert(a =~= b);
    }
}

/// Swapping two names turns `Less` into `Greater` and back.
pub proof fn lemma_lex_cmp_antisymmetric(a: Seq<char>, b: Seq<char>)
    ensures
        (lex_cmp(a, b) == Ordering::Less) <==> (lex_cmp(b, a) == Ordering::Greater),
    decreases a.len(),
{
    if a.len() > 0 && b.len() > 0 && a[0] == b[0] {
        lemma_lex_cmp_antisymmetric(a.drop_first(), b.drop_first());
    }
}

/// The order of themes agrees with their equality: one theme orders neither
/// before nor after another exactly when the two are equal, that is when
/// they have the same name; and `a` orders before `b` exactly when `b`
/// orders after `a`.
pub proof fn lemma_theme_order_agrees_with_eq(a: Theme, b: Theme)
    ensures
        (a.partial_cmp_spec(&b) == Some(Ordering::Equal)) <==> a.eq_spec(&b),
        (a.partial_cmp_spec(&b) == Some(Ordering::Less)) <==> (b.partial_cmp_spec(&a) == Some(
            Ordering::Greater,
        )),
{
    lemma_lex_cmp_equal_iff_same(a.name@, b.name@);
    lemma_lex_cmp_antisymmetric(a.name@, b.name@);
}

/// Compares two strings lexicographically, character by character.
fn compare_names(a: &str, b: &str) -> (r: Ordering)
    ensures
        r == lex_cmp(a@, b@),
{
    let la = a.unicode_len();
    let lb = b.unicode_len();
    let mut i: usize = 0;
    assert(a@.skip(0) =~= a@);
    assert(b@.skip(0) =~= b@);
    while i < la && i < lb
        invariant
            i <= la,
            i <= lb,
            la == a@.len(),
            lb == b@.len(),
            lex_cmp(a@, b@) == lex_cmp(a@.skip(i as int), b@.skip(i as int)),
        decreases la - i,
    {
        let ca = a.get_char(i);
        let cb = b.get_char(i);
        if ca < cb {
            return Ordering::Less;
        }
        if ca > cb {
            return Ordering::Greater;
        }
        assert(a@.skip(i as int).drop_first() =~= a@.skip(i + 1));
        assert(b@.skip(i as int).drop_first() =~= b@.skip(i + 1));
        i += 1;
    }
    if i < lb {
        Ordering::Less
    } else if i < la {
        Ordering::Greater
    } else {
        Ordering::Equal
    }
}

impl PartialEq for Theme {
    /// Themes are equal when their names are, whatever their palettes.
    fn eq(&self, other: &Theme) -> (r: bool)
        ensures
            r == (self.name@ == other.name@),
    {
        self.name == other.name
    }
}

impl vstd::std_specs::cmp::PartialEqSpecImpl for Theme {
    open spec fn obeys_eq_spec() -> bool {
        true
    }

    open spec fn eq_spec(&self, other: &Theme) -> bool {
        self.name@ == other.name@
    }
}

impl Eq for Theme {}

impl PartialOrd for Theme {
    /// Themes order as their names do.
    fn partial_cmp(&self, other: &Theme) -> (r: Option<Ordering>)
        ensures
            r == Some(lex_cmp(self.name@, other.name@)),
    {
        Some(compare_names(self.name.as_str(), other.name.as_str()))
    }
}

impl vstd::std_specs::cmp::PartialOrdSpecImpl for Theme {
    open spec fn obeys_partial_cmp_spec() -> bool {
        true
    }

    open spec fn partial_cmp_spec(&self, other: &Theme) -> Option<Ordering> {
        Some(lex_cmp(self.name@, other.name@))
    }
}

/// The palette of the "Dark" preset.
pub open spec fn dark_palette() -> ColorPalette {
    ColorPalette {
        base: BaseColors { background: rgb(0x11, 0x11, 0x11), foreground: rgb(0x1c, 0x1c, 0x1c) },
        normal: NormalColors {
            primary: rgb(0x3f, 0x2b, 0x56),
            secondary: rgb(0x4a, 0x3c, 0x1c),
            surface: rgb(0x82, 0x82, 0x82),
            error: rgb(0x99, 0x2b, 0x2b),
        },
        bright: BrightColors {
            primary: rgb(0xba, 0x84, 0xfc),
            secondary: rgb(0xff, 0xd0, 0x3c),
            surface: rgb(0xe0, 0xe0, 0xe0),
            error: rgb(0xc1, 0x30, 0x47),
        },
    }
}

/// The palette of the "Light" preset.
pub open spec fn light_palette() -> ColorPalette {
    ColorPalette {
        base: BaseColors { background: rgb(0xff, 0xff, 0xff), foreground: rgb(0xf5, 0xf5, 0xf5) },
        normal: NormalColors {
            primary: rgb(0xdf, 0xdb, 0xff),
            secondary: rgb(0xf9, 0xd6, 0x59),
            surface: rgb(0x82, 0x82, 0x82),
            error: rgb(0x99, 0x2b, 0x2b),
        },
        bright: BrightColors {
            primary: rgb(0x95, 0x80, 0xff),
            secondary: rgb(0xea, 0xa3, 0x26),
            surface: rgb(0x00, 0x00, 0x00),
            error: rgb(0xc1, 0x30, 0x47),
        },
    }
}

/// The palette of the "Dracula" preset.
pub open spec fn dracula_palette() -> ColorPalette {
    ColorPalette {
        base: BaseColors { background: rgb(0x28, 0x2a, 0x36), foreground: rgb(0x35, 0x37, 0x46) },
        normal: NormalColors {
            primary: rgb(0x48, 0x3e, 0x61),
            secondary: rgb(0x38, 0x6e, 0x50),
            surface: rgb(0xa2, 0xa4, 0xa3),
            error: rgb(0xa1, 0x30, 0x34),
        },
        bright: BrightColors {
            primary: rgb(0xbd, 0x94, 0xf9),
            secondary: rgb(0x49, 0xeb, 0x7a),
            surface: rgb(0xf4, 0xf8, 0xf3),
            error: rgb(0xff, 0x7a, 0xc6),
        },
    }
}

/// Parses a colour literal of a preset, which is known to be well formed.
fn preset_color(hex: &str) -> (c: Color)
    requires
        is_hex_color(hex@),
    ensures
        c == hex_color_of(hex@),
{
    hex_to_color(hex).unwrap()
}

impl Theme {
    /// The themes offered for selection, as (name, theme) pairs: "Dark",
    /// then "Light". "Dracula" is not among them.
    pub fn all() -> (r: Vec<(String, Theme)>)
        ensures
            r@.len() == 2,
            r@[0].0@ == "Dark"@,
            r@[0].1.name@ == "Dark"@,
            r@[0].1.palette == dark_palette(),
            r@[1].0@ == "Light"@,
            r@[1].1.name@ == "Light"@,
            r@[1].1.palette == light_palette(),
            forall|i: int| 0 <= i < r@.len() ==> r@[i].1.name@ != "Dracula"@,
    {
        proof {
            reveal_strlit("Dark");
            reveal_strlit("Light");
            reveal_strlit("Dracula");
        }
        vec![("Dark".to_string(), Theme::dark()), ("Light".to_string(), Theme::light())]
    }

    /// The "Dark" preset.
    pub fn dark() -> (t: Theme)
        ensures
            t.name@ == "Dark"@,
            t.palette == dark_palette(),
    {
        proof {
            reveal_strlit("#111111");
            reveal_strlit("#1C1C1C");
            reveal_strlit("#3f2b56");
            reveal_strlit("#4a3c1c");
            reveal_strlit("#828282");
            reveal_strlit("#992B2B");
            reveal_strlit("#BA84FC");
            reveal_strlit("#ffd03c");
            reveal_strlit("#E0E0E0");
            reveal_strlit("#C13047");
        }
        Theme {
            name: "Dark".to_string(),
            palette: ColorPalette {
                base: BaseColors {
                    background: preset_color("#111111"),
                    foreground: preset_color("#1C1C1C"),
                },
                normal: NormalColors {
                    primary: preset_color("#3f2b56"),
                    secondary: preset_color("#4a3c1c"),
                    surface: preset_color("#828282"),
                    error: preset_color("#992B2B"),
                },
                bright: BrightColors {
                    primary: preset_color("#BA84FC"),
                    secondary: preset_color("#ffd03c"),
                    surface: preset_color("#E0E0E0"),
                    error: preset_color("#C13047"),
                },
            },
        }
    }

    /// The "Light" preset.
    pub fn light() -> (t: Theme)
        ensures
            t.name@ == "Light"@,
            t.palette == light_palette(),
    {
        proof {
            reveal_strlit("#ffffff");
            reveal_strlit("#F5F5F5");
            reveal_strlit("#DFDBFF");
            reveal_strlit("#F9D659");
            reveal_strlit("#828282");
            reveal_strlit("#992B2B");
            reveal_strlit("#9580ff");
            reveal_strlit("#EAA326");
            reveal_strlit("#000000");
            reveal_strlit("#C13047");
        }
        Theme {
            name: "Light".to_string(),
            palette: ColorPalette {
                base: BaseColors {
                    background: preset_color("#ffffff"),
                    foreground: preset_color("#F5F5F5"),
                },
                normal: NormalColors {
                    primary: preset_color("#DFDBFF"),
                    secondary: preset_color("#F9D659"),
                    surface: preset_color("#828282"),
                    error: preset_color("#992B2B"),
                },
                bright: BrightColors {
                    primary: preset_color("#9580ff"),
                    secondary: preset_color("#EAA326"),
                    surface: preset_color("#000000"),
                    error: preset_color("#C13047"),
                },
            },
        }
    }

    /// The "Dracula" preset.
    pub fn dracula() -> (t: Theme)
        ensures
            t.name@ == "Dracula"@,
            t.palette == dracula_palette(),
    {
        proof {
            reveal_strlit("#282a36");
            reveal_strlit("#353746");
            reveal_strlit("#483e61");
            reveal_strlit("#386e50");
            reveal_strlit("#a2a4a3");
            reveal_strlit("#A13034");
            reveal_strlit("#bd94f9");
            reveal_strlit("#49eb7a");
            reveal_strlit("#f4f8f3");
            reveal_strlit("#ff7ac6");
        }
        Theme {
            name: "Dracula".to_string(),
            palette: ColorPalette {
                base: BaseColors {
                    background: preset_color("#282a36"),
                    foreground: preset_color("#353746"),
                },
                normal: NormalColors {
                    primary: preset_color("#483e61"),
                    secondary: preset_color("#386e50"),
                    surface: preset_color("#a2a4a3"),
                    error: preset_color("#A13034"),
                },
                bright: BrightColors {
                    primary: preset_color("#bd94f9"),
                    secondary: preset_color("#49eb7a"),
                    surface: preset_color("#f4f8f3"),
                    error: preset_color("#ff7ac6"),
                },
            },
        }
    }

    /// The order of two themes: that of their names. (`Theme` has no `Ord`
    /// impl, so this is the total order that sorted uses can call.)
    pub fn cmp(&self, other: &Theme) -> (r: Ordering)
        ensures
            r == lex_cmp(self.name@, other.name@),
    {
        compare_names(self.name.as_str(), other.name.as_str())
    }
}

} // verus!

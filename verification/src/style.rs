//! Named, cascadable visual attributes with a cached bit-mask.
//!
//! A `Style` is meant to be built once and then treated as immutable. The
//! bit-mask over its attributes is computed lazily and cached; any mutation
//! must call [`Style::reset_bitflags`] before the next [`Style::get_bitflags`].
//! The cascade operator [`Style::add`] folds two styles into a "computed"
//! style: optional fields on the right always override, boolean toggles are
//! OR'd and are never un-set.

use vstd::prelude::*;

use crate::dimens::UnitType;

verus! {

/// An abstract terminal color. Mirrors the palette a terminal driver
/// understands: 16 named colors, 24-bit RGB and the 256-color ANSI index.
#[derive(Copy, Clone, PartialEq, Eq, Structural, Debug)]
pub enum TWColor {
    Black,
    DarkGrey,
    Red,
    DarkRed,
    Green,
    DarkGreen,
    Yellow,
    DarkYellow,
    Blue,
    DarkBlue,
    Magenta,
    DarkMagenta,
    Cyan,
    DarkCyan,
    White,
    Grey,
    Rgb { r: u8, g: u8, b: u8 },
    AnsiValue(u8),
}

/// A bit-mask over the attributes of a [`Style`]; one bit per flag.
pub type StyleFlag = u16;

pub const COLOR_FG_SET: StyleFlag = 0x0001;

pub const COLOR_BG_SET: StyleFlag = 0x0002;

pub const BOLD_SET: StyleFlag = 0x0004;

pub const DIM_SET: StyleFlag = 0x0008;

pub const UNDERLINE_SET: StyleFlag = 0x0010;

pub const MARGIN_SET: StyleFlag = 0x0020;

pub const COMPUTED_SET: StyleFlag = 0x0040;

pub const REVERSE_SET: StyleFlag = 0x0080;

pub const HIDDEN_SET: StyleFlag = 0x0100;

pub const STRIKETHROUGH_SET: StyleFlag = 0x0200;

/// The mathematical value of a [`Style`], with the cache field erased.
pub struct StyleSpec {
    pub id: Seq<char>,
    pub bold: bool,
    pub dim: bool,
    pub underline: bool,
    pub reverse: bool,
    pub hidden: bool,
    pub strikethrough: bool,
    pub computed: bool,
    pub color_fg: Option<TWColor>,
    pub color_bg: Option<TWColor>,
    pub margin: Option<UnitType>,
}

/// The empty style every cascade starts from.
pub open spec fn spec_default_style() -> StyleSpec {
    StyleSpec {
        id: Seq::<char>::empty(),
        bold: false,
        dim: false,
        underline: false,
        reverse: false,
        hidden: false,
        strikethrough: false,
        computed: false,
        color_fg: None,
        color_bg: None,
        margin: None,
    }
}

/// The bit-mask implied by a style's attributes.
pub open spec fn spec_gen_bitflags(s: StyleSpec) -> StyleFlag {
    let m0: StyleFlag = 0;
    let m1 = if s.color_fg is Some {
        m0 | COLOR_FG_SET
    } else {
        m0
    };
    let m2 = if s.color_bg is Some {
        m1 | COLOR_BG_SET
    } else {
        m1
    };
    let m3 = if s.margin is Some {
        m2 | MARGIN_SET
    } else {
        m2
    };
    let m4 = if s.bold {
        m3 | BOLD_SET
    } else {
        m3
    };
    let m5 = if s.dim {
        m4 | DIM_SET
    } else {
        m4
    };
    let m6 = if s.underline {
        m5 | UNDERLINE_SET
    } else {
        m5
    };
    let m7 = if s.reverse {
        m6 | REVERSE_SET
    } else {
        m6
    };
    let m8 = if s.hidden {
        m7 | HIDDEN_SET
    } else {
        m7
    };
    let m9 = if s.strikethrough {
        m8 | STRIKETHROUGH_SET
    } else {
        m8
    };
    if s.computed {
        m9 | COMPUTED_SET
    } else {
        m9
    }
}

/// The cascade of one style over another: optional fields on the right
/// override unconditionally, boolean toggles are OR'd, and the result is
/// marked as a computed style with an empty id.
pub open spec fn spec_cascade(base: StyleSpec, other: StyleSpec) -> StyleSpec {
    StyleSpec {
        id: Seq::<char>::empty(),
        computed: true,
        bold: base.bold || other.bold,
        dim: base.dim || other.dim,
        underline: base.underline || other.underline,
        reverse: base.reverse || other.reverse,
        hidden: base.hidden || other.hidden,
        strikethrough: base.strikethrough || other.strikethrough,
        color_fg: if other.color_fg is Some {
            other.color_fg
        } else {
            base.color_fg
        },
        color_bg: if other.color_bg is Some {
            other.color_bg
        } else {
            base.color_bg
        },
        margin: if other.margin is Some {
            other.margin
        } else {
            base.margin
        },
    }
}

/// Left-to-right fold of a whole list of styles over the empty style.
pub open spec fn spec_cascade_all(styles: Seq<StyleSpec>) -> StyleSpec
    decreases styles.len(),
{
    if styles.len() == 0 {
        spec_default_style()
    } else {
        spec_cascade(spec_cascade_all(styles.drop_last()), styles.last())
    }
}

/// An exact copy of a style, with provable equality: every field is either a
/// plain value or a `String`, whose clone is fully specified. (The derived
/// `Clone` carries no specification, so verified code copies through this.)
pub fn copy_style(s: &Style) -> (r: Style)
    ensures
        r == *s,
{
    Style {
        id: s.id.clone(),
        bold: s.bold,
        dim: s.dim,
        underline: s.underline,
        reverse: s.reverse,
        hidden: s.hidden,
        strikethrough: s.strikethrough,
        computed: s.computed,
        color_fg: s.color_fg,
        color_bg: s.color_bg,
        margin: s.margin,
        cached_bitflags: s.cached_bitflags,
    }
}

/// The cascade override law: an optional field set on the later style always
/// wins, an unset one leaves the earlier value in place, and boolean toggles
/// are OR'd, so a toggle that is set is never un-set by a later style.
pub proof fn lemma_cascade_override(base: StyleSpec, other: StyleSpec)
    ensures
        other.color_fg is Some ==> spec_cascade(base, other).color_fg == other.color_fg,
        other.color_fg is None ==> spec_cascade(base, other).color_fg == base.color_fg,
        other.color_bg is Some ==> spec_cascade(base, other).color_bg == other.color_bg,
        other.color_bg is None ==> spec_cascade(base, other).color_bg == base.color_bg,
        other.margin is Some ==> spec_cascade(base, other).margin == other.margin,
        other.margin is None ==> spec_cascade(base, other).margin == base.margin,
        spec_cascade(base, other).bold == (base.bold || other.bold),
        spec_cascade(base, other).dim == (base.dim || other.dim),
        spec_cascade(base, other).underline == (base.underline || other.underline),
        spec_cascade(base, other).reverse == (base.reverse || other.reverse),
        spec_cascade(base, other).hidden == (base.hidden || other.hidden),
        spec_cascade(base, other).strikethrough == (base.strikethrough || other.strikethrough),
        spec_cascade(base, other).computed,
        spec_cascade(base, other).id == Seq::<char>::empty(),
{
}

/// Across a whole cascade, a boolean toggle set by any style in the list is
/// set on the computed result: a later style can never un-set it.
pub proof fn lemma_cascade_never_unsets(styles: Seq<StyleSpec>, i: int)
    requires
        0 <= i < styles.len(),
    ensures
        styles[i].bold ==> spec_cascade_all(styles).bold,
        styles[i].dim ==> spec_cascade_all(styles).dim,
        styles[i].underline ==> spec_cascade_all(styles).underline,
        styles[i].reverse ==> spec_cascade_all(styles).reverse,
        styles[i].hidden ==> spec_cascade_all(styles).hidden,
        styles[i].strikethrough ==> spec_cascade_all(styles).strikethrough,
    decreases styles.len(),
{
    if i < styles.len() - 1 {
        lemma_cascade_never_unsets(styles.drop_last(), i);
    }
}

/// Across a whole cascade, the last style that sets the foreground color
/// determines it: later styles always override, earlier ones never resurface.
pub proof fn lemma_cascade_last_wins(styles: Seq<StyleSpec>, i: int)
    requires
        0 <= i < styles.len(),
        styles[i].color_fg is Some,
        forall|j: int| i < j < styles.len() ==> styles[j].color_fg is None,
    ensures
        spec_cascade_all(styles).color_fg == styles[i].color_fg,
    decreases styles.len(),
{
    if i < styles.len() - 1 {
        lemma_cascade_last_wins(styles.drop_last(), i);
    }
}

/// One named set of visual attributes. `id` is empty exactly when the style
/// is the computed result of a cascade.
#[derive(Clone, PartialEq, Eq, Debug)]
pub struct Style {
    pub id: String,
    pub bold: bool,
    pub dim: bool,
    pub underline: bool,
    pub reverse: bool,
    pub hidden: bool,
    pub strikethrough: bool,
    pub computed: bool,
    pub color_fg: Option<TWColor>,
    pub color_bg: Option<TWColor>,
    pub margin: Option<UnitType>,
    pub cached_bitflags: Option<StyleFlag>,
}

impl View for Style {
    type V = StyleSpec;

    open spec fn view(&self) -> StyleSpec {
        StyleSpec {
            id: self.id@,
            bold: self.bold,
            dim: self.dim,
            underline: self.underline,
            reverse: self.reverse,
            hidden: self.hidden,
            strikethrough: self.strikethrough,
            computed: self.computed,
            color_fg: self.color_fg,
            color_bg: self.color_bg,
            margin: self.margin,
        }
    }
}

impl Default for Style {
    /// The empty style: no id, no toggles, no colors, no margin, no cache.
    fn default() -> (r: Style)
        ensures
            r@ == spec_default_style(),
            r.cached_bitflags is None,
    {
        Style {
            id: String::new(),
            bold: false,
            dim: false,
            underline: false,
            reverse: false,
            hidden: false,
            strikethrough: false,
            computed: false,
            color_fg: None,
            color_bg: None,
            margin: None,
            cached_bitflags: None,
        }
    }
}

impl Style {
    /// The cache, when present, holds exactly the mask implied by the fields.
    pub open spec fn cache_ok(&self) -> bool {
        match self.cached_bitflags {
            Some(m) => m == spec_gen_bitflags(self@),
            None => true,
        }
    }

    /// Recomputes the bit-mask from the attributes, ignoring the cache.
    pub fn gen_bitflags(&self) -> (r: StyleFlag)
        ensures
            r == spec_gen_bitflags(self@),
    {
        let mut it: StyleFlag = 0;
        if self.color_fg.is_some() {
            it = it | COLOR_FG_SET;
        }
        if self.color_bg.is_some() {
            it = it | COLOR_BG_SET;
        }
        if self.margin.is_some() {
            it = it | MARGIN_SET;
        }
        if self.bold {
            it = it | BOLD_SET;
        }
        if self.dim {
            it = it | DIM_SET;
        }
        if self.underline {
            it = it | UNDERLINE_SET;
        }
        if self.reverse {
            it = it | REVERSE_SET;
        }
        if self.hidden {
            it = it | HIDDEN_SET;
        }
        if self.strikethrough {
            it = it | STRIKETHROUGH_SET;
        }
        if self.computed {
            it = it | COMPUTED_SET;
        }
        it
    }

    /// The bit-mask, lazily computed and cached on first evaluation. A stale
    /// cache (fields mutated without [`Style::reset_bitflags`]) is returned
    /// as-is; the attributes themselves are never changed by this call.
    pub fn get_bitflags(&mut self) -> (r: StyleFlag)
        ensures
            r == (match old(self).cached_bitflags {
                Some(m) => m,
                None => spec_gen_bitflags(old(self)@),
            }),
            final(self)@ == old(self)@,
            final(self).cached_bitflags == Some(r),
            old(self).cache_ok() ==> final(self).cache_ok(),
    {
        match self.cached_bitflags {
            Some(m) => m,
            None => {
                let m = self.gen_bitflags();
                self.cached_bitflags = Some(m);
                m
            },
        }
    }

    /// Drops the cached bit-mask; must be called after mutating any field.
    pub fn reset_bitflags(&mut self)
        ensures
            final(self)@ == old(self)@,
            final(self).cached_bitflags is None,
    {
        self.cached_bitflags = None;
    }

    /// The cascade operator: `other` overrides `self` per [`spec_cascade`],
    /// and the result carries a freshly computed bit-mask cache.
    pub fn add(self, other: &Style) -> (r: Style)
        ensures
            r@ == spec_cascade(self@, other@),
            r.cached_bitflags == Some(spec_gen_bitflags(r@)),
            r.cache_ok(),
    {
        let mut result = Style {
            id: String::new(),
            computed: true,
            bold: self.bold || other.bold,
            dim: self.dim || other.dim,
            underline: self.underline || other.underline,
            reverse: self.reverse || other.reverse,
            hidden: self.hidden || other.hidden,
            strikethrough: self.strikethrough || other.strikethrough,
            color_fg: if other.color_fg.is_some() {
                other.color_fg
            } else {
                self.color_fg
            },
            color_bg: if other.color_bg.is_some() {
                other.color_bg
            } else {
                self.color_bg
            },
            margin: if other.margin.is_some() {
                other.margin
            } else {
                self.margin
            },
            cached_bitflags: None,
        };
        let m = result.gen_bitflags();
        result.cached_bitflags = Some(m);
        result
    }
}

} // verus!

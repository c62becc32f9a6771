//! Resolved paint colors and the cascading style resolution.
//!
//! A shape's effective paint is computed by a strict two-level cascade:
//! attributes of the shape's named object style are the baseline, and the
//! shape's own attributes override them field by field.  Symbolic color
//! references are then resolved through the color table; a reference with no
//! entry degrades that channel to "unresolved", which the dispatcher paints
//! as nothing.

use vstd::prelude::*;

verus! {

/// A concrete CMYK color; channels are scaled integers in `[0, scale]`.
#[derive(Debug, Clone, Copy, PartialEq, Eq, Structural)]
pub struct Cmyk {
    pub c: u32,
    pub m: u32,
    pub y: u32,
    pub k: u32,
}

/// A concrete RGB color; channels are scaled integers in `[0, scale]`.
#[derive(Debug, Clone, Copy, PartialEq, Eq, Structural)]
pub struct Rgb {
    pub r: u32,
    pub g: u32,
    pub b: u32,
}

/// A concrete resolved color value.
#[derive(Debug, Clone, Copy, PartialEq, Eq, Structural)]
pub enum Color {
    Cmyk(Cmyk),
    Rgb(Rgb),
}

/// The color table: symbolic reference to concrete color, first entry wins.
#[derive(Debug)]
pub struct ColorTable {
    pub entries: Vec<(String, Color)>,
}

/// First color listed under `id`, if any.
pub open spec fn color_of(entries: Seq<(String, Color)>, id: Seq<char>) -> Option<Color>
    decreases entries.len(),
{
    if entries.len() == 0 {
        None
    } else if entries[0].0@ == id {
        Some(entries[0].1)
    } else {
        color_of(entries.drop_first(), id)
    }
}

impl ColorTable {
    /// An empty color table.
    pub fn new() -> (r: ColorTable)
        ensures
            r.entries@.len() == 0,
    {
        ColorTable { entries: Vec::new() }
    }

    /// Appends an entry; earlier entries keep precedence.
    pub fn insert(&mut self, id: String, color: Color)
        ensures
            final (self).entries@ == old(self).entries@.push((id, color)),
    {
        self.entries.push((id, color));
    }

    /// Looks a symbolic color reference up: the first entry under `id`, or
    /// `None` when the table has no such entry.
    #[verifier::loop_isolation(false)]
    pub fn lookup_color(&self, id: &String) -> (r: Option<Color>)
        ensures
            r == color_of(self.entries@, id@),
    {
        let ghost all = self.entries@;
        proof {
            assert(all.skip(0) =~= all);
        }
        let mut k: usize = 0;
        while k < self.entries.len()
            invariant
                0 <= k <= self.entries.len(),
                color_of(all, id@) == color_of(all.skip(k as int), id@),
            decreases self.entries.len() - k,
        {
            let pair = &self.entries[k];
            if pair.0 == *id {
                proof {
                    assert(all.skip(k as int)[0] == all[k as int]);
                }
                return Some(pair.1);
            }
            proof {
                assert(all.skip(k as int).drop_first() =~= all.skip(k as int + 1));
            }
            k = k + 1;
        }
        proof {
            assert(all.skip(k as int).len() == 0);
        }
        None
    }
}

/// A named object style: the paint attributes it defines.
#[derive(Debug, Clone)]
pub struct ObjectStyle {
    pub id: String,
    pub fill_color: Option<String>,
    pub stroke_color: Option<String>,
    pub stroke_weight: Option<u32>,
}

/// The style table: named styles, first entry under a name wins.
#[derive(Debug)]
pub struct StyleTable {
    pub entries: Vec<ObjectStyle>,
}

/// First style listed under `id`, if any.
pub open spec fn style_of(entries: Seq<ObjectStyle>, id: Seq<char>) -> Option<ObjectStyle>
    decreases entries.len(),
{
    if entries.len() == 0 {
        None
    } else if entries[0].id@ == id {
        Some(entries[0])
    } else {
        style_of(entries.drop_first(), id)
    }
}

impl StyleTable {
    /// An empty style table.
    pub fn new() -> (r: StyleTable)
        ensures
            r.entries@.len() == 0,
    {
        StyleTable { entries: Vec::new() }
    }

    /// Appends a style; earlier entries keep precedence.
    pub fn insert(&mut self, style: ObjectStyle)
        ensures
            final (self).entries@ == old(self).entries@.push(style),
    {
        self.entries.push(style);
    }

    /// Looks a named style up; `None` means no style is applied, which is
    /// not an error.
    #[verifier::loop_isolation(false)]
    pub fn object_style_from_id(&self, id: &String) -> (r: Option<&ObjectStyle>)
        ensures
            match r {
                Some(st) => style_of(self.entries@, id@) == Some(*st),
                None => style_of(self.entries@, id@) is None,
            },
    {
        let ghost all = self.entries@;
        proof {
            assert(all.skip(0) =~= all);
        }
        let mut k: usize = 0;
        while k < self.entries.len()
            invariant
                0 <= k <= self.entries.len(),
                style_of(all, id@) == style_of(all.skip(k as int), id@),
            decreases self.entries.len() - k,
        {
            let st = &self.entries[k];
            if st.id == *id {
                proof {
                    assert(all.skip(k as int)[0] == all[k as int]);
                }
                return Some(st);
            }
            proof {
                assert(all.skip(k as int).drop_first() =~= all.skip(k as int + 1));
            }
            k = k + 1;
        }
        proof {
            assert(all.skip(k as int).len() == 0);
        }
        None
    }
}

/// One resolved paint channel: no paint requested, a reference that did not
/// resolve (painted as nothing, the shape still renders), or a concrete
/// color.
#[derive(Debug, Clone, Copy, PartialEq, Eq, Structural)]
pub enum PaintChannel {
    NoPaint,
    Unresolved,
    Paint(Color),
}

/// The effective paint of one shape, computed fresh per render.
#[derive(Debug, Clone, Copy, PartialEq, Eq, Structural)]
pub struct ResolvedPaint {
    pub fill: PaintChannel,
    pub stroke: PaintChannel,
    pub stroke_weight: Option<u32>,
}

/// The effective fill reference under the cascade: the shape's own reference
/// when it defines one, else the named style's, else none.
pub open spec fn effective_fill_ref(
    own: Option<String>,
    style_ref: Option<String>,
    styles: StyleTable,
) -> Option<Seq<char>> {
    match own {
        Some(id) => Some(id@),
        None => match style_ref {
            Some(sid) => match style_of(styles.entries@, sid@) {
                Some(st) => match st.fill_color {
                    Some(f) => Some(f@),
                    None => None,
                },
                None => None,
            },
            None => None,
        },
    }
}

/// The effective stroke reference under the cascade.
pub open spec fn effective_stroke_ref(
    own: Option<String>,
    style_ref: Option<String>,
    styles: StyleTable,
) -> Option<Seq<char>> {
    match own {
        Some(id) => Some(id@),
        None => match style_ref {
            Some(sid) => match style_of(styles.entries@, sid@) {
                Some(st) => match st.stroke_color {
                    Some(f) => Some(f@),
                    None => None,
                },
                None => None,
            },
            None => None,
        },
    }
}

/// The effective stroke weight under the cascade.
pub open spec fn effective_stroke_weight(
    own: Option<u32>,
    style_ref: Option<String>,
    styles: StyleTable,
) -> Option<u32> {
    match own {
        Some(w) => Some(w),
        None => match style_ref {
            Some(sid) => match style_of(styles.entries@, sid@) {
                Some(st) => st.stroke_weight,
                None => None,
            },
            None => None,
        },
    }
}

/// What an effective reference resolves to through the color table.
pub open spec fn resolve_channel(colors: ColorTable, r: Option<Seq<char>>) -> PaintChannel {
    match r {
        None => PaintChannel::NoPaint,
        Some(id) => match color_of(colors.entries@, id) {
            Some(c) => PaintChannel::Paint(c),
            None => PaintChannel::Unresolved,
        },
    }
}

/// Computes the effective paint of a shape whose own attributes are
/// `fill_ref`, `stroke_ref` and `stroke_weight` and whose named style is
/// `object_style`: style attributes first, shape attributes override field
/// by field, then color references resolve through `colors`.
pub fn resolve_paint(
    fill_ref: &Option<String>,
    stroke_ref: &Option<String>,
    stroke_weight: &Option<u32>,
    object_style: &Option<String>,
    styles: &StyleTable,
    colors: &ColorTable,
) -> (r: ResolvedPaint)
    ensures
        r.fill == resolve_channel(*colors, effective_fill_ref(*fill_ref, *object_style, *styles)),
        r.stroke == resolve_channel(
            *colors,
            effective_stroke_ref(*stroke_ref, *object_style, *styles),
        ),
        r.stroke_weight == effective_stroke_weight(*stroke_weight, *object_style, *styles),
{
    let mut fill_id: Option<&String> = None;
    let mut stroke_id: Option<&String> = None;
    let mut weight: Option<u32> = None;
    if let Some(sid) = object_style {
        if let Some(st) = styles.object_style_from_id(sid) {
            if let Some(f) = &st.fill_color {
                fill_id = Some(f);
            }
            if let Some(s) = &st.stroke_color {
                stroke_id = Some(s);
            }
            weight = st.stroke_weight;
        }
    }
    if let Some(f) = fill_ref {
        fill_id = Some(f);
    }
    if let Some(s) = stroke_ref {
        stroke_id = Some(s);
    }
    if let Some(w) = stroke_weight {
        weight = Some(*w);
    }
    let fill = match fill_id {
        None => PaintChannel::NoPaint,
        Some(id) => match colors.lookup_color(id) {
            Some(c) => PaintChannel::Paint(c),
            None => PaintChannel::Unresolved,
        },
    };
    let stroke = match stroke_id {
        None => PaintChannel::NoPaint,
        Some(id) => match colors.lookup_color(id) {
            Some(c) => PaintChannel::Paint(c),
            None => PaintChannel::Unresolved,
        },
    };
    ResolvedPaint { fill, stroke, stroke_weight: weight }
}

/// Law: the cascade's precedence.  A fill reference on the shape always wins;
/// with none, a found style's fill reference applies; with neither, no fill
/// is requested.
pub proof fn lemma_style_cascade_precedence(
    own: Option<String>,
    style_ref: Option<String>,
    styles: StyleTable,
)
    ensures
        own matches Some(id) ==> effective_fill_ref(own, style_ref, styles) == Some(id@),
        own is None && (match style_ref {
            Some(sid) => style_of(styles.entries@, sid@) matches Some(st) && st.fill_color matches Some(
            _,
            ),
            None => false,
        }) ==> effective_fill_ref(own, style_ref, styles) == (match style_ref {
            Some(sid) => match style_of(styles.entries@, sid@) {
                Some(st) => match st.fill_color {
                    Some(f) => Some(f@),
                    None => None::<Seq<char>>,
                },
                None => None::<Seq<char>>,
            },
            None => None::<Seq<char>>,
        }),
        own is None && style_ref is None ==> effective_fill_ref(own, style_ref, styles) is None,
{
}

} // verus!

use crate::geometry::Geometry;
use crate::model::{opt_index, MenuItem};
use vstd::prelude::*;

verus! {

/// Why a draw request could not produce a frame: the host handed over
/// metrics no layout can be computed from (a non-positive row height or
/// cell width). Surfaced to the host's error path, never swallowed.
#[derive(Clone, Copy, Debug, PartialEq, Eq, Structural)]
pub enum LayoutError {
    InvalidMetrics,
}

/// One drawable row: a resolved glyph, the label text and the colour
/// choice (the selected row swaps foreground and background), or a
/// separator rule, which renders in the default colours regardless of
/// the selection.
#[derive(Clone, Debug, PartialEq, Eq)]
pub enum RowVisual {
    Entry { glyph: char, label: String, highlighted: bool },
    Separator,
}

/// The lazily computed render cache: absent (`Stale`) after any state
/// change, or the visual representation together with the geometry it
/// was computed from. The two are discarded and recomputed together, so
/// drawing and hit-testing always agree on one snapshot of state.
pub enum RenderCache {
    Stale,
    Fresh { geometry: Geometry, visual: Vec<RowVisual> },
}

/// The codepoint termwiz's nerd-font table maps a glyph name to, if any.
pub uninterp spec fn nerd_glyph_of(name: Seq<char>) -> Option<char>;

/// Relies on termwiz's `nerdfonts::NERD_FONTS` table: a fixed static map
/// from nerd-font glyph names to their codepoints, so the lookup result
/// is a function of the name alone.
#[verifier::external_body]
fn nerd_glyph(name: &str) -> (r: Option<char>)
    ensures
        r == nerd_glyph_of(name@),
{
    termwiz::nerdfonts::NERD_FONTS.get(name).copied()
}

/// The glyph a row renders with: the table's codepoint for its icon
/// name, or a blank placeholder for a missing or unmapped icon.
pub open spec fn spec_glyph(icon: Option<String>) -> char {
    match icon {
        Some(name) => match nerd_glyph_of(name@) {
            Some(c) => c,
            None => ' ',
        },
        None => ' ',
    }
}

/// How one drawable row must relate to the model row it stands for.
pub open spec fn row_visual_ok<A>(r: RowVisual, item: MenuItem<A>, highlighted: bool) -> bool {
    match item {
        MenuItem::Entry { label, icon, action: _ } => {
            &&& r matches RowVisual::Entry { glyph, label: drawn, highlighted: h }
            &&& glyph == spec_glyph(icon)
            &&& drawn@ == label@
            &&& h == highlighted
        },
        MenuItem::Separator => r is Separator,
    }
}

/// The whole visual representation: one drawable row per model row, with
/// exactly the row at the selection index highlighted.
pub open spec fn visual_ok<A>(rows: Seq<RowVisual>, items: Seq<MenuItem<A>>, sel: Option<int>) -> bool {
    &&& rows.len() == items.len()
    &&& forall|i: int|
        0 <= i < items.len() ==> row_visual_ok(#[trigger] rows[i], items[i], sel == Some(i))
}

/// Produce the drawable rows for the given model and selection.
pub fn build_visual<A>(items: &Vec<MenuItem<A>>, selected: Option<usize>) -> (rows: Vec<RowVisual>)
    ensures
        visual_ok(rows@, items@, opt_index(selected)),
{
    let mut rows: Vec<RowVisual> = Vec::new();
    let mut idx: usize = 0;
    while idx < items.len()
        invariant
            idx <= items@.len(),
            rows@.len() == idx,
            forall|i: int|
                0 <= i < idx ==> row_visual_ok(
                    #[trigger] rows@[i],
                    items@[i],
                    opt_index(selected) == Some(i),
                ),
        decreases items@.len() - idx,
    {
        let item = &items[idx];
        let rv: RowVisual = match item {
            MenuItem::Entry { label, icon, action: _ } => {
                let glyph: char = match icon {
                    Some(name) => match nerd_glyph(name.as_str()) {
                        Some(c) => c,
                        None => ' ',
                    },
                    None => ' ',
                };
                let highlighted: bool = match selected {
                    Some(s) => s == idx,
                    None => false,
                };
                RowVisual::Entry { glyph, label: label.clone(), highlighted }
            },
            MenuItem::Separator => RowVisual::Separator,
        };
        assert(row_visual_ok(rv, items@[idx as int], opt_index(selected) == Some(idx as int)));
        rows.push(rv);
        idx = idx + 1;
    }
    rows
}

} // verus!

use crate::events::{
    is_cancel_key, is_down_key, is_enter_key, is_up_key, KeyCode, KeyModifiers, KeyOutcome,
    MouseEventKind, PointerOutcome,
};
use crate::geometry::{
    compute_geometry, layout_ok, FontMetrics, Geometry, Viewport, MAX_PIXEL, MAX_ROWS,
};
use crate::hittest::{row_at, spec_row_at};
use crate::model::{
    first_selectable, is_entry, lemma_next_selectable, lemma_prev_selectable, moved_down, moved_up,
    opt_index, scan_next, scan_prev, selectable, MenuItem,
};
use crate::visual::{build_visual, visual_ok, LayoutError, RenderCache, RowVisual};
use vstd::pervasive::unreached;
use vstd::prelude::*;

verus! {

/// One open context-menu session: the immutable row model, the
/// navigation cursor, the anchor point fixed at open time, the lazily
/// computed render cache, and the open/closed state. The host owns it
/// for the lifetime of the modal and drives it only through the methods
/// below.
pub struct ContextMenu<A> {
    pub items: Vec<MenuItem<A>>,
    /// Currently selected/hovered row; the sentinel `None` means no
    /// selection. When present it always indexes an `Entry` row.
    pub selected: Option<usize>,
    /// Pointer position at menu-open time, never re-anchored.
    pub anchor_x: i64,
    pub anchor_y: i64,
    /// Cached visual representation and geometry, discarded together on
    /// any state change.
    pub cache: RenderCache,
    /// `true` while the modal session is open; closing is terminal.
    pub is_open: bool,
}

impl<A> ContextMenu<A> {
    /// Session invariant: the cursor only rests on selectable rows, the
    /// model is small enough for pixel arithmetic, and a fresh cache
    /// always describes the current model and selection — a stale visual
    /// is never kept beside current state.
    pub open spec fn wf(self) -> bool {
        &&& self.items@.len() <= MAX_ROWS as int
        &&& (self.selected matches Some(i) ==> selectable(self.items@, i as int))
        &&& -(MAX_PIXEL as int) <= self.anchor_x as int <= MAX_PIXEL as int
        &&& -(MAX_PIXEL as int) <= self.anchor_y as int <= MAX_PIXEL as int
        &&& (self.cache matches RenderCache::Fresh { geometry, visual } ==> geometry.wf()
            && visual_ok(visual@, self.items@, opt_index(self.selected)))
    }

    /// The row the last computed geometry places under pixel `(x, y)`;
    /// with no computed geometry, every point is outside.
    pub open spec fn hit_of(self, x: int, y: int) -> Option<int> {
        match self.cache {
            RenderCache::Fresh { geometry, visual: _ } => spec_row_at(
                geometry,
                self.items@.len() as int,
                x,
                y,
            ),
            RenderCache::Stale => None,
        }
    }

    /// Open a session over a pre-built row model, anchored at the
    /// pointer position. The selection starts on the first selectable
    /// row, or on the sentinel when none exists; nothing is cached yet.
    pub fn new(items: Vec<MenuItem<A>>, anchor_x: i64, anchor_y: i64) -> (r: Self)
        requires
            items@.len() <= MAX_ROWS as int,
            -MAX_PIXEL <= anchor_x <= MAX_PIXEL,
            -MAX_PIXEL <= anchor_y <= MAX_PIXEL,
        ensures
            r.wf(),
            r.items == items,
            opt_index(r.selected) == first_selectable(items@),
            r.cache is Stale,
            r.is_open,
            r.anchor_x == anchor_x,
            r.anchor_y == anchor_y,
    {
        let selected = scan_next(&items, 0);
        proof {
            lemma_next_selectable(items@, 0);
        }
        ContextMenu { items, selected, anchor_x, anchor_y, cache: RenderCache::Stale, is_open: true }
    }

    /// Whether `row` indexes a selectable entry; out-of-range indices
    /// (including negative ones) are not selectable.
    pub fn is_selectable(&self, row: i64) -> (r: bool)
        requires
            self.wf(),
        ensures
            r == selectable(self.items@, row as int),
    {
        if row < 0 {
            false
        } else if row >= self.items.len() as i64 {
            false
        } else {
            is_entry(&self.items[row as usize])
        }
    }

    /// Move the selection to the nearest selectable row above, skipping
    /// separators; with none above, the selection is unchanged (no
    /// wraparound past the top). A real change invalidates the cache.
    pub fn move_up(&mut self)
        requires
            old(self).wf(),
        ensures
            final(self).wf(),
            final(self).items == old(self).items,
            final(self).anchor_x == old(self).anchor_x,
            final(self).anchor_y == old(self).anchor_y,
            final(self).is_open == old(self).is_open,
            opt_index(final(self).selected) == moved_up(
                old(self).items@,
                opt_index(old(self).selected),
            ),
            final(self).selected == old(self).selected ==> final(self).cache == old(self).cache,
            final(self).selected != old(self).selected ==> final(self).cache is Stale,
    {
        match self.selected {
            None => {},
            Some(cur) => {
                let prev = if cur == 0 {
                    None
                } else {
                    scan_prev(&self.items, cur - 1)
                };
                proof {
                    lemma_prev_selectable(self.items@, cur - 1);
                }
                match prev {
                    Some(j) => {
                        self.selected = Some(j);
                        self.cache = RenderCache::Stale;
                    },
                    None => {},
                }
            },
        }
    }

    /// Move the selection to the nearest selectable row below, skipping
    /// separators; with none below, the selection is unchanged (no
    /// wraparound past the bottom). A real change invalidates the cache.
    pub fn move_down(&mut self)
        requires
            old(self).wf(),
        ensures
            final(self).wf(),
            final(self).items == old(self).items,
            final(self).anchor_x == old(self).anchor_x,
            final(self).anchor_y == old(self).anchor_y,
            final(self).is_open == old(self).is_open,
            opt_index(final(self).selected) == moved_down(
                old(self).items@,
                opt_index(old(self).selected),
            ),
            final(self).selected == old(self).selected ==> final(self).cache == old(self).cache,
            final(self).selected != old(self).selected ==> final(self).cache is Stale,
    {
        match self.selected {
            None => {},
            Some(cur) => {
                let next = scan_next(&self.items, cur + 1);
                proof {
                    lemma_next_selectable(self.items@, cur + 1);
                }
                match next {
                    Some(j) => {
                        self.selected = Some(j);
                        self.cache = RenderCache::Stale;
                    },
                    None => {},
                }
            },
        }
    }

    /// Select `row` directly (hover): a no-op when `row` is a separator
    /// or out of range, and also when `row` is already selected, so a
    /// repeated hover of the same row never invalidates the cache.
    pub fn set_selection(&mut self, row: i64)
        requires
            old(self).wf(),
        ensures
            final(self).wf(),
            final(self).items == old(self).items,
            final(self).anchor_x == old(self).anchor_x,
            final(self).anchor_y == old(self).anchor_y,
            final(self).is_open == old(self).is_open,
            if selectable(old(self).items@, row as int) && opt_index(old(self).selected) != Some(
                row as int,
            ) {
                opt_index(final(self).selected) == Some(row as int) && final(self).cache is Stale
            } else {
                *final(self) == *old(self)
            },
    {
        if !self.is_selectable(row) {
            return;
        }
        let target: usize = row as usize;
        let same: bool = match self.selected {
            Some(s) => s == target,
            None => false,
        };
        if !same {
            self.selected = Some(target);
            self.cache = RenderCache::Stale;
        }
    }

    /// Activate the current selection: with a selection, the session
    /// closes and the selected row's index is returned for dispatch;
    /// with the sentinel, nothing happens and the session stays open.
    pub fn activate_selected(&mut self) -> (r: Option<usize>)
        requires
            old(self).wf(),
            old(self).is_open,
        ensures
            final(self).wf(),
            final(self).items == old(self).items,
            final(self).selected == old(self).selected,
            final(self).cache == old(self).cache,
            final(self).anchor_x == old(self).anchor_x,
            final(self).anchor_y == old(self).anchor_y,
            match old(self).selected {
                Some(i) => r == Some(i) && !final(self).is_open,
                None => r == None::<usize> && final(self).is_open,
            },
    {
        match self.selected {
            Some(i) => {
                self.is_open = false;
                Some(i)
            },
            None => None,
        }
    }

    /// The opaque action of the entry at `row`, for the host's dispatch
    /// collaborator.
    pub fn action_of(&self, row: usize) -> (r: &A)
        requires
            row < self.items@.len(),
            self.items@[row as int] is Entry,
        ensures
            r == self.items@[row as int]->action,
    {
        match &self.items[row] {
            MenuItem::Entry { action, .. } => action,
            MenuItem::Separator => unreached(),
        }
    }

    /// Which menu row lies at the given pixel coordinates, according to
    /// the last computed geometry; `None` when the point is outside the
    /// menu or no geometry has been computed yet.
    pub fn row_at_coords(&self, x: i64, y: i64) -> (r: Option<usize>)
        requires
            self.wf(),
        ensures
            opt_index(r) == self.hit_of(x as int, y as int),
    {
        match &self.cache {
            RenderCache::Fresh { geometry, visual: _ } => row_at(geometry, self.items.len(), x, y),
            RenderCache::Stale => None,
        }
    }

    /// One full recomputation: the drawable rows for the current model
    /// and selection, and the clamped geometry for the current metrics
    /// and viewport. Fails exactly when the metrics are unusable.
    pub fn compute(
        items: &Vec<MenuItem<A>>,
        selected: Option<usize>,
        anchor_x: i64,
        anchor_y: i64,
        metrics: &FontMetrics,
        viewport: &Viewport,
    ) -> (r: Result<(Vec<RowVisual>, Geometry), LayoutError>)
        requires
            items@.len() <= MAX_ROWS as int,
            -MAX_PIXEL <= anchor_x <= MAX_PIXEL,
            -MAX_PIXEL <= anchor_y <= MAX_PIXEL,
            metrics.bounded(),
            viewport.bounded(),
        ensures
            r is Ok <==> metrics.valid(),
            r matches Ok(p) ==> {
                &&& visual_ok(p.0@, items@, opt_index(selected))
                &&& layout_ok(
                    p.1,
                    items@.len() as int,
                    anchor_x as int,
                    anchor_y as int,
                    *metrics,
                    *viewport,
                )
                &&& p.1.wf()
            },
            r matches Err(e) ==> e == LayoutError::InvalidMetrics,
    {
        if metrics.row_height <= 0 || metrics.cell_width <= 0 {
            return Err(LayoutError::InvalidMetrics);
        }
        let visual = build_visual(items, selected);
        let geometry = compute_geometry(items.len(), anchor_x, anchor_y, metrics, viewport);
        Ok((visual, geometry))
    }

    /// The draw request: with a fresh cache, hand its geometry back with
    /// no recomputation; with a stale cache, recompute once, store the
    /// visual and geometry together, and return the new geometry. With
    /// unusable metrics the frame fails and nothing changes.
    pub fn computed_element(&mut self, metrics: &FontMetrics, viewport: &Viewport) -> (r: Result<
        Geometry,
        LayoutError,
    >)
        requires
            old(self).wf(),
            metrics.bounded(),
            viewport.bounded(),
        ensures
            final(self).wf(),
            final(self).items == old(self).items,
            final(self).selected == old(self).selected,
            final(self).anchor_x == old(self).anchor_x,
            final(self).anchor_y == old(self).anchor_y,
            final(self).is_open == old(self).is_open,
            match old(self).cache {
                RenderCache::Fresh { geometry, visual: _ } => *final(self) == *old(self) && r == Ok::<
                    Geometry,
                    LayoutError,
                >(geometry),
                RenderCache::Stale => if metrics.valid() {
                    &&& r matches Ok(g)
                    &&& layout_ok(
                        g,
                        old(self).items@.len() as int,
                        old(self).anchor_x as int,
                        old(self).anchor_y as int,
                        *metrics,
                        *viewport,
                    )
                    &&& final(self).cache matches RenderCache::Fresh { geometry, visual }
                        && geometry == g && visual_ok(
                        visual@,
                        old(self).items@,
                        opt_index(old(self).selected),
                    )
                } else {
                    r == Err::<Geometry, LayoutError>(LayoutError::InvalidMetrics) && *final(self)
                        == *old(self)
                },
            },
    {
        let recompute: bool = match &self.cache {
            RenderCache::Stale => true,
            RenderCache::Fresh { .. } => false,
        };
        if recompute {
            match Self::compute(
                &self.items,
                self.selected,
                self.anchor_x,
                self.anchor_y,
                metrics,
                viewport,
            ) {
                Ok((visual, geometry)) => {
                    self.cache = RenderCache::Fresh { geometry, visual };
                    Ok(geometry)
                },
                Err(e) => Err(e),
            }
        } else {
            match &self.cache {
                RenderCache::Fresh { geometry, visual: _ } => Ok(*geometry),
                RenderCache::Stale => unreached(),
            }
        }
    }

    /// The host signalled a style or configuration change: discard the
    /// cached visual and geometry unconditionally; the next draw request
    /// recomputes from scratch.
    pub fn reconfigure(&mut self)
        requires
            old(self).wf(),
        ensures
            final(self).wf(),
            final(self).items == old(self).items,
            final(self).selected == old(self).selected,
            final(self).anchor_x == old(self).anchor_x,
            final(self).anchor_y == old(self).anchor_y,
            final(self).is_open == old(self).is_open,
            final(self).cache is Stale,
    {
        self.cache = RenderCache::Stale;
    }

    /// Route a pointer event. `Move` hovers (selects) the row under the
    /// pointer when it is selectable. `Press` on a selectable row
    /// selects and activates it, closing the session; a press that hits
    /// no row cancels the session; a press on a separator does nothing —
    /// separators are never directly activatable. Other kinds are
    /// ignored.
    pub fn mouse_event(&mut self, kind: MouseEventKind, x: i64, y: i64) -> (r: PointerOutcome)
        requires
            old(self).wf(),
            old(self).is_open,
        ensures
            final(self).wf(),
            final(self).items == old(self).items,
            final(self).anchor_x == old(self).anchor_x,
            final(self).anchor_y == old(self).anchor_y,
            ({
                let hit = old(self).hit_of(x as int, y as int);
                match kind {
                    MouseEventKind::Other => *final(self) == *old(self) && r
                        == PointerOutcome::Ignored,
                    MouseEventKind::Move => match hit {
                        Some(i) => if selectable(old(self).items@, i) {
                            &&& r == PointerOutcome::Hover
                            &&& final(self).is_open
                            &&& opt_index(final(self).selected) == Some(i)
                            &&& (opt_index(old(self).selected) == Some(i) ==> *final(self) == *old(self))
                            &&& (opt_index(old(self).selected) != Some(i) ==> final(self).cache is Stale)
                        } else {
                            *final(self) == *old(self) && r == PointerOutcome::Ignored
                        },
                        None => *final(self) == *old(self) && r == PointerOutcome::Ignored,
                    },
                    MouseEventKind::Press => match hit {
                        Some(i) => if selectable(old(self).items@, i) {
                            &&& r == PointerOutcome::Activate(i as usize)
                            &&& !final(self).is_open
                            &&& opt_index(final(self).selected) == Some(i)
                            &&& (opt_index(old(self).selected) == Some(i) ==> final(self).cache
                                == old(self).cache)
                            &&& (opt_index(old(self).selected) != Some(i) ==> final(self).cache is Stale)
                        } else {
                            *final(self) == *old(self) && r == PointerOutcome::Ignored
                        },
                        None => {
                            &&& r == PointerOutcome::CancelSession
                            &&& !final(self).is_open
                            &&& final(self).selected == old(self).selected
                            &&& final(self).cache == old(self).cache
                        },
                    },
                }
            }),
    {
        let row = self.row_at_coords(x, y);
        match kind {
            MouseEventKind::Other => PointerOutcome::Ignored,
            MouseEventKind::Move => match row {
                Some(i) => {
                    proof {
                        assert(i <= MAX_ROWS);
                    }
                    if self.is_selectable(i as i64) {
                        self.set_selection(i as i64);
                        PointerOutcome::Hover
                    } else {
                        PointerOutcome::Ignored
                    }
                },
                None => PointerOutcome::Ignored,
            },
            MouseEventKind::Press => match row {
                Some(i) => {
                    proof {
                        assert(i <= MAX_ROWS);
                    }
                    if self.is_selectable(i as i64) {
                        self.set_selection(i as i64);
                        let _ = self.activate_selected();
                        PointerOutcome::Activate(i)
                    } else {
                        PointerOutcome::Ignored
                    }
                },
                None => {
                    self.is_open = false;
                    PointerOutcome::CancelSession
                },
            },
        }
    }

    /// Route a key event. Escape, `q` and Ctrl-`c` cancel the session;
    /// up and down keys move the selection and ask for a redraw; Enter
    /// activates the selection (closing the session), or is a consumed
    /// no-op with the sentinel selection; everything else is not
    /// consumed and propagates to the host.
    pub fn key_down(&mut self, key: KeyCode, mods: KeyModifiers) -> (r: KeyOutcome)
        requires
            old(self).wf(),
            old(self).is_open,
        ensures
            final(self).wf(),
            final(self).items == old(self).items,
            final(self).anchor_x == old(self).anchor_x,
            final(self).anchor_y == old(self).anchor_y,
            if is_cancel_key(key, mods) {
                &&& r == KeyOutcome::CancelSession
                &&& !final(self).is_open
                &&& final(self).selected == old(self).selected
                &&& final(self).cache == old(self).cache
            } else if is_up_key(key, mods) {
                &&& r == KeyOutcome::Redraw
                &&& final(self).is_open
                &&& opt_index(final(self).selected) == moved_up(
                    old(self).items@,
                    opt_index(old(self).selected),
                )
                &&& (final(self).selected == old(self).selected ==> final(self).cache == old(self).cache)
                &&& (final(self).selected != old(self).selected ==> final(self).cache is Stale)
            } else if is_down_key(key, mods) {
                &&& r == KeyOutcome::Redraw
                &&& final(self).is_open
                &&& opt_index(final(self).selected) == moved_down(
                    old(self).items@,
                    opt_index(old(self).selected),
                )
                &&& (final(self).selected == old(self).selected ==> final(self).cache == old(self).cache)
                &&& (final(self).selected != old(self).selected ==> final(self).cache is Stale)
            } else if is_enter_key(key, mods) {
                match old(self).selected {
                    Some(i) => {
                        &&& r == KeyOutcome::Activate(i)
                        &&& !final(self).is_open
                        &&& final(self).selected == old(self).selected
                        &&& final(self).cache == old(self).cache
                    },
                    None => r == KeyOutcome::Handled && *final(self) == *old(self),
                }
            } else {
                r == KeyOutcome::NotHandled && *final(self) == *old(self)
            },
    {
        match (key, mods) {
            (KeyCode::Escape, KeyModifiers::Plain)
            | (KeyCode::Char('q'), KeyModifiers::Plain)
            | (KeyCode::Char('c'), KeyModifiers::Ctrl) => {
                self.is_open = false;
                KeyOutcome::CancelSession
            },
            (KeyCode::UpArrow, KeyModifiers::Plain)
            | (KeyCode::Char('k'), KeyModifiers::Plain)
            | (KeyCode::Char('p'), KeyModifiers::Ctrl) => {
                self.move_up();
                KeyOutcome::Redraw
            },
            (KeyCode::DownArrow, KeyModifiers::Plain)
            | (KeyCode::Char('j'), KeyModifiers::Plain)
            | (KeyCode::Char('n'), KeyModifiers::Ctrl) => {
                self.move_down();
                KeyOutcome::Redraw
            },
            (KeyCode::Enter, KeyModifiers::Plain) => {
                match self.activate_selected() {
                    Some(i) => KeyOutcome::Activate(i),
                    None => KeyOutcome::Handled,
                }
            },
            _ => KeyOutcome::NotHandled,
        }
    }
}

} // verus!

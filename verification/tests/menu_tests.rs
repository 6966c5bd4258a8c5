use context_menu::{
    ContextMenu, FontMetrics, KeyCode, KeyModifiers, KeyOutcome, LayoutError, MenuItem,
    MouseEventKind, PointerOutcome, RenderCache, RowVisual, Viewport,
};

fn entry(label: &str, icon: Option<&str>, action: u32) -> MenuItem<u32> {
    MenuItem::Entry {
        label: label.to_string(),
        icon: icon.map(|s| s.to_string()),
        action,
    }
}

/// Five entries and one separator: entries at indices {0,1,2,4,5},
/// separator at 3.
fn five_entries_one_separator() -> Vec<MenuItem<u32>> {
    vec![
        entry("Split Pane Right", Some("cod_split_horizontal"), 10),
        entry("Split Pane Down", Some("cod_split_vertical"), 11),
        entry("New Tab", Some("cod_add"), 12),
        MenuItem::Separator,
        entry("Move Tab Left", Some("cod_arrow_left"), 13),
        entry("Move Tab Right", Some("cod_arrow_right"), 14),
    ]
}

fn metrics() -> FontMetrics {
    FontMetrics { row_height: 10, cell_width: 8 }
}

fn viewport() -> Viewport {
    Viewport { width: 1000, height: 1000 }
}

// With row_height 10 and 6 rows anchored at (100, 100) in a 1000x1000
// viewport: width = 25*8 = 200, height = (6*12+15)*10/10 = 87,
// origin = (100, 100), top padding = 7, per-row height = 12.

#[test]
fn initial_selection_is_first_selectable() {
    let menu = ContextMenu::new(five_entries_one_separator(), 100, 100);
    assert_eq!(menu.selected, Some(0));
    assert!(matches!(menu.cache, RenderCache::Stale));
    assert!(menu.is_open);
}

#[test]
fn initial_selection_skips_leading_separator() {
    let items = vec![MenuItem::Separator, entry("New Tab", None, 1)];
    let menu = ContextMenu::new(items, 0, 0);
    assert_eq!(menu.selected, Some(1));
}

#[test]
fn initial_selection_sentinel_when_no_entry() {
    let items: Vec<MenuItem<u32>> = vec![MenuItem::Separator, MenuItem::Separator];
    let menu = ContextMenu::new(items, 0, 0);
    assert_eq!(menu.selected, None);
}

#[test]
fn move_down_three_times_skips_separator() {
    let mut menu = ContextMenu::new(five_entries_one_separator(), 100, 100);
    assert_eq!(menu.selected, Some(0));
    menu.move_down();
    assert_eq!(menu.selected, Some(1));
    menu.move_down();
    assert_eq!(menu.selected, Some(2));
    menu.move_down();
    assert_eq!(menu.selected, Some(4));
}

#[test]
fn move_up_skips_separator() {
    let mut menu = ContextMenu::new(five_entries_one_separator(), 100, 100);
    menu.set_selection(4);
    menu.move_up();
    assert_eq!(menu.selected, Some(2));
}

#[test]
fn moves_never_leave_range_or_land_on_separator() {
    let mut menu = ContextMenu::new(five_entries_one_separator(), 100, 100);
    for _ in 0..10 {
        menu.move_down();
        let i = menu.selected.unwrap();
        assert!(i < 6 && i != 3);
    }
    assert_eq!(menu.selected, Some(5));
    for _ in 0..10 {
        menu.move_up();
        let i = menu.selected.unwrap();
        assert!(i < 6 && i != 3);
    }
    assert_eq!(menu.selected, Some(0));
}

#[test]
fn move_up_at_top_is_idempotent() {
    let mut menu = ContextMenu::new(five_entries_one_separator(), 100, 100);
    let _ = menu.computed_element(&metrics(), &viewport());
    assert!(matches!(menu.cache, RenderCache::Fresh { .. }));
    menu.move_up();
    assert_eq!(menu.selected, Some(0));
    // No change of selection, so the cache was not invalidated either.
    assert!(matches!(menu.cache, RenderCache::Fresh { .. }));
}

#[test]
fn set_selection_on_separator_is_noop() {
    let mut menu = ContextMenu::new(five_entries_one_separator(), 100, 100);
    let _ = menu.computed_element(&metrics(), &viewport());
    menu.set_selection(3);
    assert_eq!(menu.selected, Some(0));
    assert!(matches!(menu.cache, RenderCache::Fresh { .. }));
}

#[test]
fn set_selection_out_of_range_is_noop() {
    let mut menu = ContextMenu::new(five_entries_one_separator(), 100, 100);
    menu.set_selection(-1);
    assert_eq!(menu.selected, Some(0));
    menu.set_selection(6);
    assert_eq!(menu.selected, Some(0));
    menu.set_selection(9999);
    assert_eq!(menu.selected, Some(0));
}

#[test]
fn set_selection_same_row_keeps_cache() {
    let mut menu = ContextMenu::new(five_entries_one_separator(), 100, 100);
    let _ = menu.computed_element(&metrics(), &viewport());
    menu.set_selection(0);
    assert!(matches!(menu.cache, RenderCache::Fresh { .. }));
    menu.set_selection(1);
    assert_eq!(menu.selected, Some(1));
    assert!(matches!(menu.cache, RenderCache::Stale));
}

#[test]
fn draw_recomputes_only_after_mutation() {
    let mut menu = ContextMenu::new(five_entries_one_separator(), 100, 100);
    assert!(matches!(menu.cache, RenderCache::Stale));
    let g1 = menu.computed_element(&metrics(), &viewport()).unwrap();
    assert!(matches!(menu.cache, RenderCache::Fresh { .. }));
    // A second draw without mutation returns the cached geometry as is.
    let g2 = menu.computed_element(&metrics(), &viewport()).unwrap();
    assert_eq!(g1, g2);
    assert!(matches!(menu.cache, RenderCache::Fresh { .. }));
    // A successful mutation invalidates; the next draw recomputes.
    menu.move_down();
    assert!(matches!(menu.cache, RenderCache::Stale));
    let g3 = menu.computed_element(&metrics(), &viewport()).unwrap();
    assert_eq!(g1, g3);
    assert!(matches!(menu.cache, RenderCache::Fresh { .. }));
}

#[test]
fn reconfigure_discards_cache() {
    let mut menu = ContextMenu::new(five_entries_one_separator(), 100, 100);
    let _ = menu.computed_element(&metrics(), &viewport());
    assert!(matches!(menu.cache, RenderCache::Fresh { .. }));
    menu.reconfigure();
    assert!(matches!(menu.cache, RenderCache::Stale));
}

#[test]
fn invalid_metrics_fail_the_draw() {
    let mut menu = ContextMenu::new(five_entries_one_separator(), 100, 100);
    let bad = FontMetrics { row_height: 0, cell_width: 8 };
    assert_eq!(menu.computed_element(&bad, &viewport()), Err(LayoutError::InvalidMetrics));
    assert!(matches!(menu.cache, RenderCache::Stale));
    let bad2 = FontMetrics { row_height: 10, cell_width: 0 };
    assert_eq!(menu.computed_element(&bad2, &viewport()), Err(LayoutError::InvalidMetrics));
}

#[test]
fn geometry_matches_height_formula() {
    let mut menu = ContextMenu::new(five_entries_one_separator(), 100, 100);
    let g = menu.computed_element(&metrics(), &viewport()).unwrap();
    assert_eq!(g.width, 200);
    assert_eq!(g.height, 87);
    assert_eq!(g.row_height, 10);
    assert_eq!(g.origin_x, 100);
    assert_eq!(g.origin_y, 100);
}

#[test]
fn origin_clamps_to_zero_when_content_exceeds_viewport() {
    // Anchor at (0,0), 20x10 viewport, 25x8 menu content: the origin
    // clamps to (0,0), never negative.
    let items = vec![entry("New Tab", None, 1)];
    let mut menu = ContextMenu::new(items, 0, 0);
    let m = FontMetrics { row_height: 1, cell_width: 1 };
    // One row: width = 25, height = (12+15)*1/10 = 2.
    let g = menu.computed_element(&m, &Viewport { width: 20, height: 10 }).unwrap();
    assert_eq!(g.width, 25);
    assert_eq!(g.origin_x, 0);
    assert_eq!(g.origin_y, 0);
}

#[test]
fn origin_clamps_to_far_edge() {
    let mut menu = ContextMenu::new(five_entries_one_separator(), 950, 950);
    let g = menu.computed_element(&metrics(), &viewport()).unwrap();
    assert_eq!(g.origin_x, 1000 - 200);
    assert_eq!(g.origin_y, 1000 - 87);
}

#[test]
fn row_at_coords_outside_and_inside() {
    let mut menu = ContextMenu::new(five_entries_one_separator(), 100, 100);
    // Before any draw there is no geometry: everything is outside.
    assert_eq!(menu.row_at_coords(150, 150), None);
    let _ = menu.computed_element(&metrics(), &viewport());
    // Strictly outside each edge.
    assert_eq!(menu.row_at_coords(99, 150), None);
    assert_eq!(menu.row_at_coords(301, 150), None);
    assert_eq!(menu.row_at_coords(150, 99), None);
    assert_eq!(menu.row_at_coords(150, 188), None);
    // Top padding counts as the first row.
    assert_eq!(menu.row_at_coords(100, 100), Some(0));
    assert_eq!(menu.row_at_coords(100, 106), Some(0));
    // Rows proper: rel_y = y - 100 - 7, row = rel_y / 12.
    assert_eq!(menu.row_at_coords(150, 107), Some(0));
    assert_eq!(menu.row_at_coords(150, 120), Some(1));
    assert_eq!(menu.row_at_coords(150, 144), Some(3));
    assert_eq!(menu.row_at_coords(150, 167), Some(5));
    // Inside the rectangle but past the last row (bottom chrome).
    assert_eq!(menu.row_at_coords(150, 185), None);
}

#[test]
fn hover_moves_selection_to_selectable_rows_only() {
    let mut menu = ContextMenu::new(five_entries_one_separator(), 100, 100);
    let _ = menu.computed_element(&metrics(), &viewport());
    let r = menu.mouse_event(MouseEventKind::Move, 150, 120);
    assert_eq!(r, PointerOutcome::Hover);
    assert_eq!(menu.selected, Some(1));
    // Hovering the separator row changes nothing.
    let r = menu.mouse_event(MouseEventKind::Move, 150, 144);
    assert_eq!(r, PointerOutcome::Ignored);
    assert_eq!(menu.selected, Some(1));
    // Hovering outside changes nothing.
    let r = menu.mouse_event(MouseEventKind::Move, 10, 10);
    assert_eq!(r, PointerOutcome::Ignored);
    assert_eq!(menu.selected, Some(1));
    assert!(menu.is_open);
}

#[test]
fn press_activates_entry_and_closes() {
    let mut menu = ContextMenu::new(five_entries_one_separator(), 100, 100);
    let _ = menu.computed_element(&metrics(), &viewport());
    let r = menu.mouse_event(MouseEventKind::Press, 150, 120);
    assert_eq!(r, PointerOutcome::Activate(1));
    assert!(!menu.is_open);
    assert_eq!(menu.selected, Some(1));
    assert_eq!(*menu.action_of(1), 11);
}

#[test]
fn press_on_separator_dispatches_nothing() {
    let mut menu = ContextMenu::new(five_entries_one_separator(), 100, 100);
    let _ = menu.computed_element(&metrics(), &viewport());
    let r = menu.mouse_event(MouseEventKind::Press, 150, 144);
    assert_eq!(r, PointerOutcome::Ignored);
    assert_eq!(menu.selected, Some(0));
    assert!(menu.is_open);
}

#[test]
fn press_outside_cancels_session() {
    let mut menu = ContextMenu::new(five_entries_one_separator(), 100, 100);
    let _ = menu.computed_element(&metrics(), &viewport());
    let r = menu.mouse_event(MouseEventKind::Press, 10, 10);
    assert_eq!(r, PointerOutcome::CancelSession);
    assert!(!menu.is_open);
    assert_eq!(menu.selected, Some(0));
}

#[test]
fn other_pointer_kinds_are_ignored() {
    let mut menu = ContextMenu::new(five_entries_one_separator(), 100, 100);
    let _ = menu.computed_element(&metrics(), &viewport());
    let r = menu.mouse_event(MouseEventKind::Other, 150, 120);
    assert_eq!(r, PointerOutcome::Ignored);
    assert_eq!(menu.selected, Some(0));
    assert!(menu.is_open);
}

#[test]
fn cancel_keys_close_without_dispatch() {
    for (key, mods) in [
        (KeyCode::Escape, KeyModifiers::Plain),
        (KeyCode::Char('q'), KeyModifiers::Plain),
        (KeyCode::Char('c'), KeyModifiers::Ctrl),
    ] {
        let mut menu = ContextMenu::new(five_entries_one_separator(), 100, 100);
        let r = menu.key_down(key, mods);
        assert_eq!(r, KeyOutcome::CancelSession);
        assert!(!menu.is_open);
    }
}

#[test]
fn navigation_keys_move_and_ask_for_redraw() {
    let mut menu = ContextMenu::new(five_entries_one_separator(), 100, 100);
    assert_eq!(menu.key_down(KeyCode::DownArrow, KeyModifiers::Plain), KeyOutcome::Redraw);
    assert_eq!(menu.selected, Some(1));
    assert_eq!(menu.key_down(KeyCode::Char('n'), KeyModifiers::Ctrl), KeyOutcome::Redraw);
    assert_eq!(menu.selected, Some(2));
    assert_eq!(menu.key_down(KeyCode::Char('j'), KeyModifiers::Plain), KeyOutcome::Redraw);
    assert_eq!(menu.selected, Some(4));
    assert_eq!(menu.key_down(KeyCode::Char('k'), KeyModifiers::Plain), KeyOutcome::Redraw);
    assert_eq!(menu.selected, Some(2));
    assert_eq!(menu.key_down(KeyCode::UpArrow, KeyModifiers::Plain), KeyOutcome::Redraw);
    assert_eq!(menu.selected, Some(1));
    assert_eq!(menu.key_down(KeyCode::Char('p'), KeyModifiers::Ctrl), KeyOutcome::Redraw);
    assert_eq!(menu.selected, Some(0));
}

#[test]
fn enter_activates_selection() {
    let mut menu = ContextMenu::new(five_entries_one_separator(), 100, 100);
    menu.set_selection(2);
    let r = menu.key_down(KeyCode::Enter, KeyModifiers::Plain);
    assert_eq!(r, KeyOutcome::Activate(2));
    assert!(!menu.is_open);
    assert_eq!(*menu.action_of(2), 12);
}

#[test]
fn enter_with_sentinel_selection_is_consumed_noop() {
    let items: Vec<MenuItem<u32>> = vec![MenuItem::Separator];
    let mut menu = ContextMenu::new(items, 0, 0);
    assert_eq!(menu.selected, None);
    let r = menu.key_down(KeyCode::Enter, KeyModifiers::Plain);
    assert_eq!(r, KeyOutcome::Handled);
    assert!(menu.is_open);
    assert_eq!(menu.selected, None);
}

#[test]
fn unrecognized_keys_are_not_consumed() {
    let mut menu = ContextMenu::new(five_entries_one_separator(), 100, 100);
    assert_eq!(menu.key_down(KeyCode::Char('x'), KeyModifiers::Plain), KeyOutcome::NotHandled);
    assert_eq!(menu.key_down(KeyCode::Char('q'), KeyModifiers::Ctrl), KeyOutcome::NotHandled);
    assert_eq!(menu.key_down(KeyCode::Escape, KeyModifiers::Other), KeyOutcome::NotHandled);
    assert_eq!(menu.key_down(KeyCode::Enter, KeyModifiers::Ctrl), KeyOutcome::NotHandled);
    assert!(menu.is_open);
    assert_eq!(menu.selected, Some(0));
}

#[test]
fn is_selectable_checks_range_and_kind() {
    let menu = ContextMenu::new(five_entries_one_separator(), 100, 100);
    assert!(menu.is_selectable(0));
    assert!(menu.is_selectable(5));
    assert!(!menu.is_selectable(3));
    assert!(!menu.is_selectable(-1));
    assert!(!menu.is_selectable(6));
}

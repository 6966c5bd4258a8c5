use vstd::prelude::*;

verus! {

/// A row of the menu: an actionable entry, or an inert separator.
/// The action payload is an opaque command value understood by the
/// host's dispatch collaborator; this crate never inspects it.
pub enum MenuItem<A> {
    Entry { label: String, icon: Option<String>, action: A },
    Separator,
}

/// A row index may carry the navigation cursor only when it lands on an
/// `Entry`; separators are never selectable.
pub open spec fn selectable<A>(items: Seq<MenuItem<A>>, i: int) -> bool {
    0 <= i < items.len() && items[i] is Entry
}

/// The exec selection (`None` is the "no selection" sentinel) as a
/// mathematical index.
pub open spec fn opt_index(s: Option<usize>) -> Option<int> {
    match s {
        Some(i) => Some(i as int),
        None => None,
    }
}

/// Greatest selectable index `j <= from`, if any.
pub open spec fn prev_selectable<A>(items: Seq<MenuItem<A>>, from: int) -> Option<int>
    decreases from + 1,
{
    if from < 0 {
        None
    } else if selectable(items, from) {
        Some(from)
    } else {
        prev_selectable(items, from - 1)
    }
}

/// Least selectable index `j >= from`, if any.
pub open spec fn next_selectable<A>(items: Seq<MenuItem<A>>, from: int) -> Option<int>
    decreases items.len() - from,
{
    if from < 0 || from >= items.len() {
        None
    } else if selectable(items, from) {
        Some(from)
    } else {
        next_selectable(items, from + 1)
    }
}

/// The selection a freshly constructed menu starts with: the first
/// selectable row, or the sentinel when none exists.
pub open spec fn first_selectable<A>(items: Seq<MenuItem<A>>) -> Option<int> {
    next_selectable(items, 0)
}

/// Where `move_up` leaves the selection: the nearest selectable row
/// strictly above, or unchanged when none exists (no wraparound).
pub open spec fn moved_up<A>(items: Seq<MenuItem<A>>, sel: Option<int>) -> Option<int> {
    match sel {
        Some(i) => match prev_selectable(items, i - 1) {
            Some(j) => Some(j),
            None => Some(i),
        },
        None => None,
    }
}

/// Where `move_down` leaves the selection: the nearest selectable row
/// strictly below, or unchanged when none exists (no wraparound).
pub open spec fn moved_down<A>(items: Seq<MenuItem<A>>, sel: Option<int>) -> Option<int> {
    match sel {
        Some(i) => match next_selectable(items, i + 1) {
            Some(j) => Some(j),
            None => Some(i),
        },
        None => None,
    }
}

pub proof fn lemma_prev_selectable<A>(items: Seq<MenuItem<A>>, from: int)
    ensures
        match prev_selectable(items, from) {
            Some(j) => 0 <= j <= from && selectable(items, j) && (forall|k: int|
                j < k <= from ==> !selectable(items, k)),
            None => forall|k: int| 0 <= k <= from ==> !selectable(items, k),
        },
    decreases from + 1,
{
    if from >= 0 && !selectable(items, from) {
        lemma_prev_selectable(items, from - 1);
    }
}

pub proof fn lemma_next_selectable<A>(items: Seq<MenuItem<A>>, from: int)
    requires
        0 <= from,
    ensures
        match next_selectable(items, from) {
            Some(j) => from <= j < items.len() && selectable(items, j) && (forall|k: int|
                from <= k < j ==> !selectable(items, k)),
            None => forall|k: int| from <= k < items.len() ==> !selectable(items, k),
        },
    decreases items.len() - from,
{
    if from < items.len() && !selectable(items, from) {
        lemma_next_selectable(items, from + 1);
    }
}

/// Law: for every model, `move_up` and `move_down` leave the cursor on a
/// selectable row inside `[0, N-1]` whenever it was on one — they never
/// land on a separator and never move outside the row range.
pub proof fn lemma_moves_stay_selectable<A>(items: Seq<MenuItem<A>>, sel: Option<int>)
    requires
        sel matches Some(i) ==> selectable(items, i),
    ensures
        moved_up(items, sel) matches Some(j) ==> selectable(items, j),
        moved_down(items, sel) matches Some(j) ==> selectable(items, j),
{
    match sel {
        Some(i) => {
            lemma_prev_selectable(items, i - 1);
            lemma_next_selectable(items, i + 1);
        },
        None => {},
    }
}

/// Law: `move_up` from the topmost selectable row is idempotent — with no
/// selectable row above, the selection does not change.
pub proof fn lemma_move_up_topmost<A>(items: Seq<MenuItem<A>>, i: int)
    requires
        selectable(items, i),
        forall|k: int| 0 <= k < i ==> !selectable(items, k),
    ensures
        moved_up(items, Some(i)) == Some(i),
{
    lemma_prev_selectable(items, i - 1);
}

/// Whether this row is an actionable entry.
pub fn is_entry<A>(item: &MenuItem<A>) -> (r: bool)
    ensures
        r == (item is Entry),
{
    match item {
        MenuItem::Entry { .. } => true,
        MenuItem::Separator => false,
    }
}

/// Scan downward (decreasing indices) from `from` for a selectable row.
pub(crate) fn scan_prev<A>(items: &Vec<MenuItem<A>>, from: usize) -> (r: Option<usize>)
    requires
        from < items@.len(),
    ensures
        opt_index(r) == prev_selectable(items@, from as int),
{
    let mut i: usize = from;
    loop
        invariant
            i <= from < items@.len(),
            prev_selectable(items@, from as int) == prev_selectable(items@, i as int),
        decreases i,
    {
        if is_entry(&items[i]) {
            return Some(i);
        }
        if i == 0 {
            return None;
        }
        i = i - 1;
    }
}

/// Scan upward (increasing indices) from `from` for a selectable row.
pub(crate) fn scan_next<A>(items: &Vec<MenuItem<A>>, from: usize) -> (r: Option<usize>)
    ensures
        opt_index(r) == next_selectable(items@, from as int),
{
    let mut i: usize = from;
    while i < items.len()
        invariant
            from <= i,
            next_selectable(items@, from as int) == next_selectable(items@, i as int),
        decreases items@.len() - i,
    {
        if is_entry(&items[i]) {
            return Some(i);
        }
        i = i + 1;
    }
    None
}

} // verus!

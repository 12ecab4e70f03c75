//! Selecting points with the select tool: what a click does to the set of
//! selected points, and when a second click on the same point toggles it
//! between smooth and corner.

use vstd::prelude::*;

verus! {

/// The selected points, by their ids; no id occurs twice.
#[derive(Debug, Clone)]
pub struct SelectionState {
    pub selected: Vec<u64>,
}

/// The point a double-click would have to land on again: the one clicked
/// last, if that click did not itself finish a double-click.
#[derive(Debug, Clone, Copy, PartialEq, Eq, Structural)]
pub struct DoubleClickState {
    pub last_clicked_entity: Option<u64>,
}

impl SelectionState {
    /// Whether no id occurs twice.
    pub open spec fn well_formed(&self) -> bool {
        self.selected@.no_duplicates()
    }

    /// The selected ids as a set.
    pub open spec fn selected_set(&self) -> Set<u64> {
        self.selected@.to_set()
    }

    /// Nothing selected.
    pub fn new() -> (r: Self)
        ensures
            r.well_formed(),
            r.selected@ == Seq::<u64>::empty(),
    {
        SelectionState { selected: Vec::new() }
    }

    /// Whether `id` is selected.
    pub fn contains(&self, id: u64) -> (r: bool)
        ensures
            r == self.selected@.contains(id),
    {
        let mut i: usize = 0;
        while i < self.selected.len()
            invariant
                i <= self.selected@.len(),
                forall|k: int| 0 <= k < i ==> self.selected@[k] != id,
            decreases self.selected@.len() - i,
        {
            if self.selected[i] == id {
                return true;
            }
            i = i + 1;
        }
        false
    }

    /// Select nothing.
    pub fn clear(&mut self)
        ensures
            final(self).well_formed(),
            final(self).selected@ == Seq::<u64>::empty(),
    {
        self.selected = Vec::new();
    }

    /// Add `id`, which is not selected yet.
    fn insert(&mut self, id: u64)
        requires
            old(self).well_formed(),
            !old(self).selected@.contains(id),
        ensures
            final(self).well_formed(),
            final(self).selected_set() == old(self).selected_set().insert(id),
    {
        let ghost before = self.selected@;
        self.selected.push(id);
        proof {
            assert(self.selected@ == before.push(id));
            assert(self.selected@.to_set() =~= before.to_set().insert(id)) by {
                assert forall|x: u64| self.selected@.contains(x) <==> (before.contains(x) || x == id) by {
                    if before.contains(x) {
                        let k = choose|k: int| 0 <= k < before.len() && before[k] == x;
                        assert(self.selected@[k] == x);
                    }
                    if x == id {
                        assert(self.selected@[before.len() as int] == id);
                    }
                }
            }
        }
    }

    /// Remove `id`, which is selected.
    fn remove(&mut self, id: u64)
        requires
            old(self).well_formed(),
            old(self).selected@.contains(id),
        ensures
            final(self).well_formed(),
            final(self).selected_set() == old(self).selected_set().remove(id),
    {
        let ghost before = self.selected@;
        let mut i: usize = 0;
        while i < self.selected.len()
            invariant
                self.selected@ == before,
                i <= before.len(),
                forall|k: int| 0 <= k < i ==> before[k] != id,
                before.contains(id),
            ensures
                i <= before.len(),
                i < before.len() ==> before[i as int] == id,
                forall|k: int| 0 <= k < i ==> before[k] != id,
            decreases before.len() - i,
        {
            if self.selected[i] == id {
                break;
            }
            i = i + 1;
        }
        proof {
            if i == before.len() {
                let k = choose|k: int| 0 <= k < before.len() && before[k] == id;
                assert(before[k] != id);
            }
        }
        self.selected.remove(i);
        proof {
            let after = self.selected@;
            assert(after == before.remove(i as int));
            assert(after.no_duplicates()) by {
                assert forall|a: int, b: int| 0 <= a < b < after.len() implies after[a] != after[b] by {
                    let a2 = if a < i { a } else { a + 1 };
                    let b2 = if b < i { b } else { b + 1 };
                    assert(after[a] == before[a2] && after[b] == before[b2]);
                }
            }
            assert(after.to_set() =~= before.to_set().remove(id)) by {
                assert forall|x: u64| after.contains(x) <==> (before.contains(x) && x != id) by {
                    if after.contains(x) {
                        let k = choose|k: int| 0 <= k < after.len() && after[k] == x;
                        let k2 = if k < i { k } else { k + 1 };
                        assert(before[k2] == x);
                        assert(k2 != i);
                    }
                    if before.contains(x) && x != id {
                        let k = choose|k: int| 0 <= k < before.len() && before[k] == x;
                        assert(k != i);
                        let k2 = if k < i { k } else { k - 1 };
                        assert(after[k2] == x);
                    }
                }
            }
        }
    }
}

/// What a click leaves selected: on empty space nothing; a double-click
/// leaves the selection alone; with Ctrl or Super the clicked point's
/// membership flips; otherwise only the clicked point.
pub open spec fn selection_after_click(
    before: Set<u64>,
    clicked: Option<u64>,
    multi_select: bool,
    double_click: bool,
) -> Set<u64> {
    match clicked {
        None => Set::empty(),
        Some(id) => if double_click {
            before
        } else if multi_select {
            if before.contains(id) {
                before.remove(id)
            } else {
                before.insert(id)
            }
        } else {
            Set::empty().insert(id)
        },
    }
}

/// A left click of the select tool on point `clicked` (`None` for empty
/// space). `within_threshold` tells whether it came soon enough after the
/// previous click to be a double-click; a double-click needs the same
/// point too. A double-click leaves the selection alone; on a point that
/// belongs to a glyph outline (`has_point_reference`) it returns the point,
/// whose smooth flag toggles, and forgets the last click, on any other
/// point it does nothing at all. A single click on a point remembers it and
/// changes the selection; a click on empty space clears the selection.
pub fn process_selection_click(
    selection: &mut SelectionState,
    double_click_state: &mut DoubleClickState,
    clicked: Option<u64>,
    multi_select: bool,
    within_threshold: bool,
    has_point_reference: bool,
) -> (toggle_smooth: Option<u64>)
    requires
        old(selection).well_formed(),
    ensures
        final(selection).well_formed(),
        ({
            let double = clicked is Some && within_threshold
                && old(double_click_state).last_clicked_entity == clicked;
            &&& final(selection).selected_set() == selection_after_click(
                old(selection).selected_set(),
                clicked,
                multi_select,
                double,
            )
            &&& toggle_smooth == if double && has_point_reference {
                clicked
            } else {
                None
            }
            &&& final(double_click_state).last_clicked_entity == match clicked {
                None => old(double_click_state).last_clicked_entity,
                Some(id) => if double {
                    if has_point_reference {
                        None
                    } else {
                        old(double_click_state).last_clicked_entity
                    }
                } else {
                    Some(id)
                },
            }
        }),
{
    match clicked {
        None => {
            selection.clear();
            assert(selection.selected@.to_set() =~= Set::<u64>::empty());
            None
        },
        Some(id) => {
            let double = within_threshold && double_click_state.last_clicked_entity == Some(id);
            if double {
                if !has_point_reference {
                    return None;
                }
                double_click_state.last_clicked_entity = None;
                Some(id)
            } else {
                double_click_state.last_clicked_entity = Some(id);
                if multi_select {
                    if selection.contains(id) {
                        selection.remove(id);
                    } else {
                        selection.insert(id);
                    }
                } else {
                    selection.clear();
                    assert(selection.selected@.to_set() =~= Set::<u64>::empty());
                    selection.insert(id);
                }
                None
            }
        },
    }
}

/// Ctrl-clicking the same point twice, not as a double-click, gives back
/// the selection.
pub proof fn toggling_twice_restores(s: Set<u64>, id: u64)
    ensures
        selection_after_click(selection_after_click(s, Some(id), true, false), Some(id), true, false) == s,
{
    if s.contains(id) {
        assert(s.remove(id).insert(id) =~= s);
    } else {
        assert(s.insert(id).remove(id) =~= s);
    }
}

} // verus!

use bezy::editing::selection::{process_selection_click, DoubleClickState, SelectionState};

fn sorted(s: &SelectionState) -> Vec<u64> {
    let mut v = s.selected.clone();
    v.sort();
    v
}

#[test]
fn clicks_select_points() {
    let mut sel = SelectionState::new();
    let mut dc = DoubleClickState { last_clicked_entity: None };
    // A plain click selects the point alone.
    assert_eq!(process_selection_click(&mut sel, &mut dc, Some(3), false, false, true), None);
    assert_eq!(sorted(&sel), vec![3]);
    assert_eq!(dc.last_clicked_entity, Some(3));
    // Ctrl-clicks add and remove.
    process_selection_click(&mut sel, &mut dc, Some(5), true, false, true);
    process_selection_click(&mut sel, &mut dc, Some(7), true, false, true);
    assert_eq!(sorted(&sel), vec![3, 5, 7]);
    process_selection_click(&mut sel, &mut dc, Some(5), true, false, true);
    assert_eq!(sorted(&sel), vec![3, 7]);
    assert!(sel.contains(7) && !sel.contains(5));
    // A plain click replaces the selection.
    process_selection_click(&mut sel, &mut dc, Some(9), false, false, true);
    assert_eq!(sorted(&sel), vec![9]);
    // Empty space clears it and keeps the last click.
    assert_eq!(process_selection_click(&mut sel, &mut dc, None, false, true, true), None);
    assert!(sel.selected.is_empty());
    assert_eq!(dc.last_clicked_entity, Some(9));
}

#[test]
fn double_click_toggles_smoothness() {
    let mut sel = SelectionState::new();
    let mut dc = DoubleClickState { last_clicked_entity: None };
    process_selection_click(&mut sel, &mut dc, Some(4), false, false, true);
    // Soon after, on the same point: a double-click.
    assert_eq!(process_selection_click(&mut sel, &mut dc, Some(4), false, true, true), Some(4));
    assert_eq!(sorted(&sel), vec![4]);
    assert_eq!(dc.last_clicked_entity, None);
    // Soon after, on another point: a single click.
    assert_eq!(process_selection_click(&mut sel, &mut dc, Some(6), false, true, true), None);
    assert_eq!(sorted(&sel), vec![6]);
    // A double-click on a point outside any outline does nothing.
    process_selection_click(&mut sel, &mut dc, Some(8), false, false, false);
    assert_eq!(process_selection_click(&mut sel, &mut dc, Some(8), false, true, false), None);
    assert_eq!(sorted(&sel), vec![8]);
    assert_eq!(dc.last_clicked_entity, Some(8));
    process_selection_click(&mut sel, &mut dc, Some(6), false, false, true);
    // Too late on the same point: a single click.
    assert_eq!(process_selection_click(&mut sel, &mut dc, Some(6), true, false, true), None);
    assert!(sel.selected.is_empty());
}

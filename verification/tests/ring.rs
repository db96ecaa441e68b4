use wm_core::ring::{Direction, Ring};

#[test]
fn an_empty_ring_answers_every_query_blankly() {
    let mut r: Ring<u32> = Ring::new(Vec::new());
    assert_eq!(r.len(), 0);
    assert_eq!(r.focused(), None);
    assert!(!r.would_wrap(Direction::Forward));
    assert!(!r.would_wrap(Direction::Backward));
    assert_eq!(r.cycle_focus(Direction::Forward), None);
    assert_eq!(r.drag_focused(Direction::Forward), None);
    assert_eq!(r.remove_focused(), None);
}

#[test]
fn a_non_empty_ring_always_has_a_focused_element() {
    let mut r: Ring<u32> = Ring::new(vec![5, 6, 7]);
    assert_eq!(r.focused(), Some(5));
    r.cycle_focus(Direction::Backward);
    assert_eq!(r.focused(), Some(7));
    r.remove_focused();
    assert_eq!(r.focused(), Some(6));
}

#[test]
fn cycling_forward_n_times_returns_to_the_start() {
    let mut r: Ring<u32> = Ring::new(vec![1, 2, 3, 4, 5]);
    assert_eq!(r.focused(), Some(1));
    for _ in 0..5 {
        r.cycle_focus(Direction::Forward);
    }
    assert_eq!(r.focused(), Some(1));
}

#[test]
fn a_single_element_wraps_to_itself_but_cannot_be_dragged() {
    let mut r: Ring<u32> = Ring::new(vec![9]);
    assert_eq!(r.cycle_focus(Direction::Forward), Some(9));
    assert_eq!(r.cycle_focus(Direction::Backward), Some(9));
    assert!(!r.would_wrap(Direction::Forward));
    assert!(!r.would_wrap(Direction::Backward));
    assert_eq!(r.drag_focused(Direction::Forward), None);
    assert_eq!(r.as_vec(), vec![9]);
}

#[test]
fn would_wrap_sees_only_the_two_boundaries() {
    let mut r: Ring<u32> = Ring::new(vec![1, 2, 3]);
    assert!(r.would_wrap(Direction::Backward));
    assert!(!r.would_wrap(Direction::Forward));
    r.focus_at(1);
    assert!(!r.would_wrap(Direction::Backward));
    assert!(!r.would_wrap(Direction::Forward));
    r.focus_at(2);
    assert!(!r.would_wrap(Direction::Backward));
    assert!(r.would_wrap(Direction::Forward));
}

#[test]
fn removing_the_focused_last_element_clamps_focus_to_the_new_end() {
    let mut r: Ring<u32> = Ring::new(vec![1, 2, 3]);
    r.focus_at(2);
    assert_eq!(r.remove_focused(), Some(3));
    assert_eq!(r.as_vec(), vec![1, 2]);
    assert_eq!(r.focused(), Some(2));
}

#[test]
fn removal_before_the_focus_keeps_the_same_element_focused() {
    let mut r: Ring<u32> = Ring::new(vec![1, 2, 3]);
    r.focus_at(2);
    assert_eq!(r.remove_at(0), 1);
    assert_eq!(r.as_vec(), vec![2, 3]);
    assert_eq!(r.focused(), Some(3));
}

#[test]
fn a_front_insert_shifts_the_rest_and_takes_the_focus() {
    let mut r: Ring<u32> = Ring::new(vec![1, 2]);
    r.focus_at(1);
    r.insert(0, 7);
    assert_eq!(r.as_vec(), vec![7, 1, 2]);
    assert_eq!(r.focused(), Some(7));
}

#[test]
fn dragging_keeps_focus_on_the_moved_element_across_a_whole_lap() {
    let mut r: Ring<u32> = Ring::new(vec![1, 2, 3, 4]);
    let mut seen = Vec::new();
    for _ in 0..4 {
        seen.push(r.drag_focused(Direction::Forward));
        assert_eq!(r.focused(), Some(1));
        assert_eq!(r.len(), 4);
    }
    assert_eq!(seen, vec![Some(1), Some(1), Some(1), Some(1)]);
    assert_eq!(r.as_vec(), vec![1, 2, 3, 4]);
}

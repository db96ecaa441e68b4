use std::collections::HashMap;

use wm_core::layout::{Change, Client, Layout, LayoutConf, LayoutKind, Region};
use wm_core::workspace::Workspace;

#[test]
fn max_main_steps_in_both_directions_and_stops_at_zero() {
    let mut l = Layout::new("t", LayoutConf::default(), LayoutKind::Rows, 0, 600);
    l.update_max_main(Change::Less);
    assert_eq!(l.max_main, 0);
    l.update_max_main(Change::More);
    assert_eq!(l.max_main, 1);
    l.update_max_main(Change::More);
    assert_eq!(l.max_main, 2);
    l.update_max_main(Change::Less);
    assert_eq!(l.max_main, 1);
}

#[test]
fn main_ratio_saturates_at_both_ends() {
    let mut l = Layout::new("t", LayoutConf::default(), LayoutKind::Rows, 1, 600);
    l.update_main_ratio(Change::More, 100);
    assert_eq!(l.ratio_permille, 700);
    l.update_main_ratio(Change::More, 600);
    assert_eq!(l.ratio_permille, 1000);
    l.update_main_ratio(Change::Less, 300);
    assert_eq!(l.ratio_permille, 700);
    l.update_main_ratio(Change::Less, 800);
    assert_eq!(l.ratio_permille, 0);
}

#[test]
fn a_ratio_above_the_maximum_is_clamped_at_construction() {
    let l = Layout::new("t", LayoutConf::default(), LayoutKind::Rows, 1, 2500);
    assert_eq!(l.ratio_permille, 1000);
}

#[test]
fn workspace_parameter_updates_reach_the_active_layout() {
    let mut ws = Workspace::new(
        "test",
        vec![Layout::new("t", LayoutConf::default(), LayoutKind::Rows, 1, 600)],
    );
    ws.update_max_main(Change::More);
    ws.update_main_ratio(Change::Less, 200);
    // observable only through arrangement; the calls must at least keep the
    // workspace fully usable
    ws.add_client(1);
    assert_eq!(ws.focused_client(), Some(1));
}

#[test]
fn monocle_gives_every_client_the_whole_region() {
    let mut ws = Workspace::new(
        "test",
        vec![Layout::new("m", LayoutConf::default(), LayoutKind::Monocle, 1, 600)],
    );
    ws.add_client(2);
    ws.add_client(1);
    let mut client_map = HashMap::new();
    client_map.insert(1, Client::new(1, "".into(), 1, false));
    client_map.insert(2, Client::new(2, "".into(), 1, false));
    let region = Region::new(5, 7, 800, 600);
    let actions = ws.arrange(&region, &client_map);
    assert_eq!(actions.len(), 2);
    assert_eq!(actions[0].id, 1);
    assert_eq!(actions[1].id, 2);
    for a in &actions {
        assert_eq!(a.region, region);
    }
}

#[test]
fn rows_stacks_equal_height_rows_top_to_bottom() {
    let mut ws = Workspace::new(
        "test",
        vec![Layout::new("t", LayoutConf::default(), LayoutKind::Rows, 1, 600)],
    );
    ws.add_client(3);
    ws.add_client(2);
    ws.add_client(1);
    let mut client_map = HashMap::new();
    client_map.insert(1, Client::new(1, "".into(), 1, false));
    client_map.insert(2, Client::new(2, "".into(), 1, false));
    client_map.insert(3, Client::new(3, "".into(), 1, false));
    let actions = ws.arrange(&Region::new(0, 0, 2000, 1000), &client_map);
    assert_eq!(actions.len(), 3);
    let expected = [(1, 0), (2, 333), (3, 666)];
    for (a, (id, y)) in actions.iter().zip(expected.iter()) {
        assert_eq!(a.id, *id);
        assert_eq!(a.region.x, 0);
        assert_eq!(a.region.y, *y);
        assert_eq!(a.region.w, 2000);
        assert_eq!(a.region.h, 333);
    }
}

#[test]
fn client_metadata_is_kept_as_given() {
    let c = Client::new(42, "editor".into(), 3, true);
    assert_eq!(c.id, 42);
    assert_eq!(c.wm_name, "editor");
    assert_eq!(c.workspace, 3);
    assert!(c.floating);
}

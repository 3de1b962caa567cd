use smash_shell::geometry::Rect;
use smash_shell::reactive::{
    use_focus, use_focus_navigator, use_interaction, use_selection, FocusDirection, FocusNode,
};

#[test]
fn focus_state_helpers_are_consistent() {
    let mut focus = use_focus(false);

    assert!(!focus.get());
    focus.focus();
    assert!(focus.get());
    focus.toggle();
    assert!(!focus.get());
    focus.set(true);
    assert!(focus.get());
    focus.blur();
    assert!(!focus.get());
}

#[test]
fn interaction_state_helpers_are_consistent() {
    let mut interaction = use_interaction(false, false);

    assert!(!interaction.is_selected());
    assert!(!interaction.is_focused());

    interaction.select();
    assert!(interaction.is_selected());
    assert!(!interaction.is_focused());

    interaction.focus();
    assert!(interaction.is_selected());
    assert!(interaction.is_focused());

    interaction.blur();
    assert!(interaction.is_selected());
    assert!(!interaction.is_focused());

    interaction.sync_navigator(false);
    assert!(!interaction.is_selected());
    assert!(!interaction.is_focused());
}

#[test]
fn selection_state_cycles_and_clamps() {
    let mut selection = use_selection(1, 3);

    assert_eq!(selection.get(), 1);
    selection.next();
    assert_eq!(selection.get(), 2);
    selection.next();
    assert_eq!(selection.get(), 0);
    selection.prev();
    assert_eq!(selection.get(), 2);

    selection.set_len(2);
    assert_eq!(selection.get(), 1);
    selection.set(99);
    assert_eq!(selection.get(), 1);
}

#[test]
fn focus_navigator_cycles_visible_controls() {
    let mut navigator = use_focus_navigator(Some(2usize));
    let nodes = [
        FocusNode::new(1usize, Rect::new(0, 0, 10, 3)),
        FocusNode::new(2usize, Rect::new(12, 0, 10, 3)),
        FocusNode::new(3usize, Rect::new(24, 0, 10, 3)),
    ];

    assert_eq!(navigator.next(&nodes), Some(3));
    assert_eq!(navigator.next(&nodes), Some(1));
    assert_eq!(navigator.prev(&nodes), Some(3));

    navigator.set(Some(99));
    assert_eq!(navigator.sync(&nodes), Some(1));
}

#[test]
fn focus_navigator_prefers_nearest_control_in_direction() {
    let mut navigator = use_focus_navigator(Some(1usize));
    let nodes = [
        FocusNode::new(1usize, Rect::new(0, 0, 10, 3)),
        FocusNode::new(2usize, Rect::new(14, 0, 10, 3)),
        FocusNode::new(3usize, Rect::new(0, 6, 10, 3)),
        FocusNode::new(4usize, Rect::new(14, 6, 10, 3)),
    ];

    assert_eq!(navigator.move_direction(&nodes, FocusDirection::Right), Some(2));
    assert_eq!(navigator.move_direction(&nodes, FocusDirection::Down), Some(4));
    assert_eq!(navigator.move_direction(&nodes, FocusDirection::Left), Some(3));
    assert_eq!(navigator.move_direction(&nodes, FocusDirection::Up), Some(1));
}

#[test]
fn focus_navigator_prefers_same_lane_over_closer_off_axis_target() {
    let mut navigator = use_focus_navigator(Some(3usize));
    let nodes = [
        FocusNode::new(1usize, Rect::new(0, 0, 80, 3)),
        FocusNode::new(2usize, Rect::new(20, 8, 12, 3)),
        FocusNode::new(3usize, Rect::new(36, 8, 12, 3)),
    ];

    assert_eq!(navigator.move_direction(&nodes, FocusDirection::Left), Some(2));
}

#[test]
fn focus_navigator_prefers_beam_target_over_closer_diagonal_target() {
    let mut navigator = use_focus_navigator(Some(1usize));
    let nodes = [
        FocusNode::new(1usize, Rect::new(10, 10, 10, 10)),
        FocusNode::new(2usize, Rect::new(25, 0, 100, 30)),
        FocusNode::new(3usize, Rect::new(21, 40, 5, 5)),
    ];

    assert_eq!(navigator.move_direction(&nodes, FocusDirection::Right), Some(2));
}

#[test]
fn focus_navigator_prefers_requested_default_when_current_is_missing() {
    let mut navigator = use_focus_navigator(Some(99usize));
    let nodes = [
        FocusNode::new(1usize, Rect::new(0, 0, 10, 3)),
        FocusNode::new(2usize, Rect::new(12, 0, 10, 3)),
        FocusNode::new(3usize, Rect::new(24, 0, 10, 3)),
    ];

    assert_eq!(navigator.sync_with_preferred(&nodes, 2usize), Some(2usize));
    assert_eq!(navigator.get(), Some(2usize));
}

#[test]
fn focus_navigator_recovers_to_nearest_surviving_control() {
    let mut navigator = use_focus_navigator(Some(2usize));
    let old_nodes = [
        FocusNode::new(1usize, Rect::new(0, 0, 10, 3)),
        FocusNode::new(2usize, Rect::new(40, 8, 10, 3)),
        FocusNode::new(3usize, Rect::new(80, 0, 10, 3)),
    ];
    let new_nodes = [
        FocusNode::new(1usize, Rect::new(0, 0, 10, 3)),
        FocusNode::new(3usize, Rect::new(42, 10, 10, 3)),
    ];

    assert_eq!(navigator.sync(&old_nodes), Some(2usize));
    assert_eq!(navigator.sync_with_preferred(&new_nodes, 1usize), Some(3usize));
    assert_eq!(navigator.get(), Some(3usize));
}

#[test]
fn focus_navigator_prefers_aligned_downward_target() {
    let mut navigator = use_focus_navigator(Some(1usize));
    let nodes = [
        FocusNode::new(1usize, Rect::new(0, 0, 12, 3)),
        FocusNode::new(2usize, Rect::new(0, 6, 12, 3)),
        FocusNode::new(3usize, Rect::new(14, 6, 12, 3)),
    ];

    assert_eq!(navigator.move_direction(&nodes, FocusDirection::Down), Some(2));
    assert_eq!(navigator.move_direction(&nodes, FocusDirection::Up), Some(1));
}

#[test]
fn selection_next_then_prev_returns_to_start() {
    for len in 1..6usize {
        for start in 0..len {
            let mut selection = use_selection(start, len);
            selection.next();
            selection.prev();
            assert_eq!(selection.get(), start);
            selection.prev();
            selection.next();
            assert_eq!(selection.get(), start);
        }
    }
}

#[test]
fn navigator_sync_twice_changes_nothing() {
    let mut navigator = use_focus_navigator(Some(7usize));
    let nodes = [
        FocusNode::new(1usize, Rect::new(0, 0, 10, 3)),
        FocusNode::new(2usize, Rect::new(12, 0, 10, 3)),
    ];
    let first = navigator.sync(&nodes);
    let second = navigator.sync(&nodes);
    assert_eq!(first, Some(1));
    assert_eq!(second, first);
}

#[test]
fn navigator_next_then_prev_returns_to_the_selected_control() {
    let mut navigator = use_focus_navigator(Some(2usize));
    let nodes = [
        FocusNode::new(1usize, Rect::new(0, 0, 10, 3)),
        FocusNode::new(2usize, Rect::new(12, 0, 10, 3)),
        FocusNode::new(3usize, Rect::new(24, 0, 10, 3)),
    ];
    navigator.next(&nodes);
    assert_eq!(navigator.prev(&nodes), Some(2));
}

#[test]
fn spatial_move_without_candidate_keeps_selection() {
    let mut navigator = use_focus_navigator(Some(1usize));
    let nodes = [
        FocusNode::new(1usize, Rect::new(0, 0, 10, 3)),
        FocusNode::new(2usize, Rect::new(20, 0, 10, 3)),
    ];
    assert_eq!(navigator.move_direction(&nodes, FocusDirection::Left), Some(1));
    assert_eq!(navigator.move_direction(&nodes, FocusDirection::Up), Some(1));
    assert_eq!(navigator.move_direction(&nodes, FocusDirection::Right), Some(2));
}

#[test]
fn empty_navigator_selects_nothing() {
    let mut navigator = use_focus_navigator(Some(1usize));
    let nodes: [FocusNode<usize>; 0] = [];
    assert_eq!(navigator.sync(&nodes), None);
    assert_eq!(navigator.get(), None);
}

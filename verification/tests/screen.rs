use nicotine::geometry::{intersect_rect, rect_area, subtract_rect, Rect};
use nicotine::visibility::{
    is_in_range, visibility_ratio, StackedWindow, TargetWindow, VisibleShare,
};

fn rect(left: i32, top: i32, right: i32, bottom: i32) -> Rect {
    Rect { left, top, right, bottom }
}

fn shown(r: Rect) -> TargetWindow {
    TargetWindow { iconic: false, visible: true, rect: Some(r), work_area: None }
}

fn above(r: Rect, pid: u32) -> StackedWindow {
    StackedWindow { visible: true, iconic: false, pid, cloaked: 0, rect: Some(r) }
}

const ME: u32 = 7;

#[test]
fn overlap_of_two_rects() {
    let r = intersect_rect(&rect(0, 0, 10, 10), &rect(4, -3, 20, 6));
    assert_eq!(r, rect(4, 0, 10, 6));
    assert_eq!(rect_area(&r), 36);
}

#[test]
fn rects_apart_share_nothing() {
    let r = intersect_rect(&rect(0, 0, 10, 10), &rect(20, 0, 30, 10));
    assert_eq!(r, rect(20, 0, 10, 10));
    assert_eq!(rect_area(&r), 0);
}

#[test]
fn area_of_inverted_rect_is_zero() {
    assert_eq!(rect_area(&rect(10, 10, 0, 0)), 0);
    assert_eq!(rect_area(&rect(-5, -5, 5, 5)), 100);
}

#[test]
fn hole_in_the_middle_leaves_four_strips() {
    let mut out = vec![rect(1, 1, 2, 2)];
    subtract_rect(&rect(0, 0, 10, 10), &rect(2, 3, 5, 7), &mut out);
    assert_eq!(
        out,
        vec![
            rect(1, 1, 2, 2),
            rect(0, 0, 10, 3),
            rect(0, 7, 10, 10),
            rect(0, 3, 2, 7),
            rect(5, 3, 10, 7),
        ]
    );
}

#[test]
fn hole_in_the_corner_leaves_two_strips() {
    let mut out = Vec::new();
    subtract_rect(&rect(0, 0, 10, 10), &rect(-5, -5, 4, 4), &mut out);
    assert_eq!(out, vec![rect(0, 4, 10, 10), rect(4, 0, 10, 4)]);
}

#[test]
fn hole_elsewhere_leaves_the_rect_whole() {
    let mut out = Vec::new();
    subtract_rect(&rect(0, 0, 10, 10), &rect(10, 0, 20, 10), &mut out);
    assert_eq!(out, vec![rect(0, 0, 10, 10)]);
}

#[test]
fn covered_rect_leaves_nothing() {
    let mut out = Vec::new();
    subtract_rect(&rect(0, 0, 10, 10), &rect(-1, -1, 11, 11), &mut out);
    assert!(out.is_empty());
}

#[test]
fn nothing_is_left_of_an_empty_rect() {
    let mut out = Vec::new();
    subtract_rect(&rect(0, 0, 0, 10), &rect(0, 0, 5, 5), &mut out);
    assert!(out.is_empty());
    subtract_rect(&rect(5, 5, 0, 0), &rect(20, 20, 30, 30), &mut out);
    assert!(out.is_empty());
    subtract_rect(&rect(0, 0, 10, 0), &rect(-5, -5, 20, 20), &mut out);
    assert!(out.is_empty());
}

#[test]
fn areas_of_remainder_and_overlap_add_up() {
    let a = rect(0, 0, 100, 50);
    let b = rect(30, 10, 130, 40);
    let mut out = Vec::new();
    subtract_rect(&a, &b, &mut out);
    let rest: i32 = out.iter().map(rect_area).sum();
    assert_eq!(rest + rect_area(&intersect_rect(&a, &b)), rect_area(&a));
}

#[test]
fn measurable_rects() {
    assert!(rect(0, 0, i32::MAX, 1).is_measurable());
    assert!(!rect(-1, 0, i32::MAX, 1).is_measurable());
    assert!(!rect(0, 0, 65536, 65536).is_measurable());
    assert!(rect(0, 0, 32768, 65535).is_measurable());
    assert!(!rect(i32::MAX, 0, -2, 1).is_measurable());
}

#[test]
fn minimized_or_hidden_window_shows_nothing() {
    let mut target = shown(rect(0, 0, 10, 10));
    target.iconic = true;
    assert_eq!(visibility_ratio(&target, &vec![], ME), VisibleShare { visible: 0, total: 0 });
    target.iconic = false;
    target.visible = false;
    assert_eq!(visibility_ratio(&target, &vec![], ME), VisibleShare { visible: 0, total: 0 });
    target.visible = true;
    target.rect = None;
    assert_eq!(visibility_ratio(&target, &vec![], ME), VisibleShare { visible: 0, total: 0 });
}

#[test]
fn unoccluded_window_is_fully_visible() {
    let target = shown(rect(0, 0, 10, 10));
    let stack = vec![above(rect(10, 0, 20, 10), 1)];
    assert_eq!(visibility_ratio(&target, &stack, ME), VisibleShare { visible: 100, total: 100 });
}

#[test]
fn window_is_clipped_to_the_work_area() {
    let mut target = shown(rect(-5, 0, 10, 10));
    target.work_area = Some(rect(0, 0, 100, 100));
    assert_eq!(visibility_ratio(&target, &vec![], ME), VisibleShare { visible: 100, total: 100 });
    target.work_area = Some(rect(50, 50, 100, 100));
    assert_eq!(visibility_ratio(&target, &vec![], ME), VisibleShare { visible: 0, total: 0 });
}

#[test]
fn overlapping_occluders_count_once() {
    let target = shown(rect(0, 0, 10, 10));
    let stack = vec![above(rect(0, 0, 6, 6), 1), above(rect(4, 4, 10, 10), 2)];
    // 36 + 36 - 4 pixels are hidden.
    assert_eq!(visibility_ratio(&target, &stack, ME), VisibleShare { visible: 32, total: 100 });
    let reversed = vec![stack[1], stack[0]];
    assert_eq!(visibility_ratio(&target, &reversed, ME), VisibleShare { visible: 32, total: 100 });
}

#[test]
fn covered_window_is_invisible() {
    let target = shown(rect(0, 0, 10, 10));
    let stack = vec![above(rect(-1, -1, 5, 11), 1), above(rect(5, -1, 11, 11), 2)];
    assert_eq!(visibility_ratio(&target, &stack, ME), VisibleShare { visible: 0, total: 100 });
}

#[test]
fn non_occluders_hide_nothing() {
    let target = shown(rect(0, 0, 10, 10));
    let cover = above(rect(0, 0, 10, 10), 1);
    let stack = vec![
        above(rect(0, 0, 10, 10), ME),
        StackedWindow { visible: false, ..cover },
        StackedWindow { iconic: true, ..cover },
        StackedWindow { cloaked: 2, ..cover },
        StackedWindow { rect: None, ..cover },
    ];
    assert_eq!(visibility_ratio(&target, &stack, ME), VisibleShare { visible: 100, total: 100 });
}

#[test]
fn one_more_window_shows_less() {
    let target = shown(rect(0, 0, 10, 10));
    let mut stack = vec![above(rect(0, 0, 3, 10), 1)];
    assert_eq!(visibility_ratio(&target, &stack, ME).visible, 70);
    stack.push(above(rect(2, 0, 5, 10), 1));
    assert_eq!(visibility_ratio(&target, &stack, ME).visible, 50);
}

#[test]
fn range_of_the_measurement() {
    let target = shown(rect(-10, 0, -5, 10));
    assert!(is_in_range(&target, &vec![above(rect(0, 0, 10, 10), 1)], ME));
    let far = rect(i32::MAX, 0, i32::MAX, 10);
    assert!(!is_in_range(&target, &vec![above(far, 1)], ME));
    assert!(is_in_range(&target, &vec![above(far, ME)], ME));
    assert!(!is_in_range(&shown(rect(0, 0, 65536, 65536)), &vec![], ME));
}

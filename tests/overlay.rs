use statusline::overlay::layout;
use statusline::overlay::reserved_rows;
use statusline::overlay::Area;
use statusline::overlay::MARGIN_ABOVE_PANE;
use statusline::overlay::MARGIN_ABOVE_PILL;

#[test]
fn layout_includes_margin_above_run_pill() {
    let area = Area { x: 0, y: 0, width: 80, height: 10 };
    let layout = layout(area, false).expect("layout available");
    assert_eq!(
        layout.run_pill_area.y,
        area.y + MARGIN_ABOVE_PILL,
        "run pill should sit one row below the top margin"
    );
    assert_eq!(
        layout.pane_area.y,
        layout.run_pill_area.y + layout.run_pill_area.height + MARGIN_ABOVE_PANE,
        "pane area should start after the pill-to-pane margin"
    );
    assert_eq!(
        layout.status_line_area.y,
        area.y + area.height - 1,
        "status line stays anchored to bottom row"
    );
}

#[test]
fn layout_needs_room_and_no_active_view() {
    assert_eq!(reserved_rows(), 5);
    assert!(layout(Area { x: 0, y: 0, width: 80, height: 7 }, false).is_none());
    assert!(layout(Area { x: 0, y: 0, width: 80, height: 8 }, false).is_some());
    assert!(layout(Area { x: 0, y: 0, width: 80, height: 20 }, true).is_none());
    let l = layout(Area { x: 3, y: 4, width: 40, height: 12 }, false).unwrap();
    assert_eq!(l.pane_area, Area { x: 3, y: 7, width: 40, height: 7 });
    assert_eq!(l.status_line_area, Area { x: 3, y: 15, width: 40, height: 1 });
}

use plant_waterer::fakes::RecordingDisplay;
use plant_waterer::fault::Fault;
use plant_waterer::moisture_detector::MoistureLevelWaterer;
use plant_waterer::oled::{LineGeometry, RowArea};

#[test]
fn geometry_of_a_128_by_64_panel() {
    let g = LineGeometry::new(128, 64, 12).unwrap();
    assert_eq!(g.line_count(), 5);
    assert_eq!(g.get_line_bound(0), 0);
    assert_eq!(g.get_line_bound(3), 36);
    assert_eq!(g.row_area(2), RowArea { x: 0, y: 24, width: 128, height: 12 });
    let g16 = LineGeometry::new(128, 64, 16).unwrap();
    assert_eq!(g16.line_count(), 4);
    assert_eq!(g16.row_area(3), RowArea { x: 0, y: 48, width: 128, height: 16 });
}

#[test]
fn geometry_rejects_bad_line_height() {
    assert_eq!(LineGeometry::new(128, 64, 9), None);
    assert_eq!(LineGeometry::new(128, 64, 17), None);
    assert_eq!(LineGeometry::new(128, 8, 10), None);
}

#[test]
fn recording_display_rows_and_faults() {
    let mut d = RecordingDisplay::failing_after(2, 2);
    assert_eq!(d.show("a", 0), Ok(()));
    assert_eq!(d.show("b", 2), Err(Fault::Display));
    assert_eq!(d.show("c", 1), Ok(()));
    assert_eq!(d.show("d", 0), Err(Fault::Display));
    assert_eq!(d.row(0), Some("a".to_string()));
    assert_eq!(d.row(1), Some("c".to_string()));
    assert_eq!(d.row(2), None);
}

#[test]
fn level_waterer_defaults() {
    let w = MoistureLevelWaterer::new(7u8);
    assert_eq!(w.watering_threshold(), 2000);
    assert_eq!(w.moisture_delay(), 200);
    assert_eq!(*w.reader(), 7);
}

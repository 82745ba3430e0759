use video_gui::viewport::Rect;
use video_gui::viewport::ViewportCell;

#[test]
fn cell_starts_at_the_zero_rectangle() {
    let cell = ViewportCell::new();
    assert_eq!(cell.read(), Rect { x: 0, y: 0, width: 0, height: 0 });
}

#[test]
fn read_sees_the_last_complete_write() {
    let cell = ViewportCell::new();
    let reader = cell.duplicate();
    cell.write(Rect { x: 1, y: 2, width: 3, height: 4 });
    assert_eq!(reader.read(), Rect { x: 1, y: 2, width: 3, height: 4 });
}

#[test]
fn overwrite_replaces_all_four_fields_as_a_unit() {
    let cell = ViewportCell::new();
    let reader = cell.duplicate();
    cell.write(Rect { x: 1, y: 2, width: 3, height: 4 });
    cell.write(Rect { x: 5, y: 6, width: 7, height: 8 });
    let seen = reader.read();
    // never a mix of old and new field values
    assert!(
        seen == Rect { x: 5, y: 6, width: 7, height: 8 }
            || seen == Rect { x: 1, y: 2, width: 3, height: 4 }
    );
    assert_eq!(seen, Rect { x: 5, y: 6, width: 7, height: 8 });
}

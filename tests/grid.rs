use griphin::grid::dump::{Color, ColorGridDump};
use griphin::grid::region::GridRegion;
use griphin::AbstractGridID;

fn color(v: u8) -> Color {
    Color { red: v, green: v, blue: v, alpha: 255 }
}

#[test]
fn grid_ids_keep_their_parts() {
    let id = AbstractGridID::new(70000, 12);
    assert_eq!(id.get_group_id(), 70000);
    assert_eq!(id.get_local_id(), 12);
    assert_ne!(id, AbstractGridID::new(70000, 13));
}

#[test]
fn region_bounds() {
    let r = GridRegion::new(3, 5, 10, 20);
    assert_eq!(r.get_min_x(), 3);
    assert_eq!(r.get_min_y(), 5);
    assert_eq!(r.get_max_x(), 12);
    assert_eq!(r.get_max_y(), 24);
    assert_eq!(r.get_bound_x(), 13);
    assert_eq!(r.get_bound_y(), 25);
    assert_eq!(r.get_width(), 10);
    assert_eq!(r.get_height(), 20);
}

#[test]
fn dump_reads_row_by_row() {
    let data: Vec<Color> = (0..6).map(color).collect();
    let dump = ColorGridDump::new(data, 3, 2);
    assert_eq!(dump.get_width(), 3);
    assert_eq!(dump.get_height(), 2);
    assert_eq!(dump.get(0, 0), color(0));
    assert_eq!(dump.get(2, 0), color(2));
    assert_eq!(dump.get(0, 1), color(3));
    assert_eq!(dump.get(2, 1), color(5));
}

#[test]
fn region_at_the_largest_coordinates() {
    let r = GridRegion::new(u32::MAX - 10, 7, 10, 1);
    assert_eq!(r.get_max_x(), u32::MAX - 1);
    assert_eq!(r.get_bound_x(), u32::MAX);
    assert_eq!(r.get_max_y(), 7);
    assert_eq!(r.get_bound_y(), 8);
}

#[test]
fn grid_ids_at_the_largest_values() {
    let id = AbstractGridID::new(u32::MAX, u16::MAX);
    assert_eq!(id.get_group_id(), u32::MAX);
    assert_eq!(id.get_local_id(), u16::MAX);
}

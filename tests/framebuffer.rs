use griphin::framebuffer::{Framebuffer, FramebufferDump, FramebufferRegion};
use griphin::grid::dump::Color;

struct Screen {
    width: u32,
    height: u32,
}

impl Framebuffer for Screen {
    fn width(&self) -> u32 {
        self.width
    }

    fn height(&self) -> u32 {
        self.height
    }

    fn get_width(&self) -> u32 {
        self.width
    }

    fn get_height(&self) -> u32 {
        self.height
    }

    fn dump_pixels(&self, region: FramebufferRegion) -> FramebufferDump {
        let n = region.get_width() * region.get_height();
        let data = (0..n).map(|i| Color { red: i as u8, green: 0, blue: 0, alpha: 255 }).collect();
        FramebufferDump::new(data, region.get_width(), region.get_height())
    }
}

#[test]
fn entire_region_covers_the_framebuffer() {
    let screen = Screen { width: 4, height: 3 };
    let r = FramebufferRegion::entire(&screen);
    assert_eq!((r.get_min_x(), r.get_min_y()), (0, 0));
    assert_eq!((r.get_width(), r.get_height()), (4, 3));
    assert_eq!((r.get_max_x(), r.get_max_y()), (3, 2));
    assert_eq!((r.get_bound_x(), r.get_bound_y()), (4, 3));
}

#[test]
fn dump_all_pixels_reads_row_by_row() {
    let screen = Screen { width: 4, height: 3 };
    let dump = screen.dump_all_pixels();
    assert_eq!(dump.get(0, 0).red, 0);
    assert_eq!(dump.get(3, 0).red, 3);
    assert_eq!(dump.get(1, 2).red, 9);
}

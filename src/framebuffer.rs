use crate::grid::dump::Color;
use vstd::prelude::*;

verus! {

/// A framebuffer on the device. Backends implement this.
pub trait Framebuffer {
    /// The number of columns of this framebuffer.
    spec fn width(&self) -> u32;

    /// The number of rows of this framebuffer.
    spec fn height(&self) -> u32;

    /// Gets the number of columns of this framebuffer.
    fn get_width(&self) -> (r: u32)
        ensures
            r == self.width(),
    ;

    /// Gets the number of rows of this framebuffer.
    fn get_height(&self) -> (r: u32)
        ensures
            r == self.height(),
    ;

    /// Copies the pixels of `region` of this framebuffer into memory.
    fn dump_pixels(&self, region: FramebufferRegion) -> FramebufferDump;

    /// Copies all pixels of this framebuffer into memory.
    fn dump_all_pixels(&self) -> FramebufferDump {
        self.dump_pixels(FramebufferRegion::new(0, 0, self.get_width(), self.get_height()))
    }
}

/// A rectangle of a framebuffer: its smallest x- and y-coordinates, its
/// width and its height.
#[derive(Clone, Copy, Debug)]
pub struct FramebufferRegion {
    min_x: u32,
    min_y: u32,
    width: u32,
    height: u32,
}

impl FramebufferRegion {
    pub closed spec fn min_x(self) -> u32 {
        self.min_x
    }

    pub closed spec fn min_y(self) -> u32 {
        self.min_y
    }

    pub closed spec fn width(self) -> u32 {
        self.width
    }

    pub closed spec fn height(self) -> u32 {
        self.height
    }

    /// Creates the region with the given corner and size.
    pub fn new(min_x: u32, min_y: u32, width: u32, height: u32) -> (r: Self)
        ensures
            r.min_x() == min_x,
            r.min_y() == min_y,
            r.width() == width,
            r.height() == height,
    {
        Self { min_x, min_y, width, height }
    }

    /// The region that covers all of `framebuffer`: from (0, 0), as wide and
    /// as high as `framebuffer` says it is.
    pub fn entire<F: Framebuffer>(framebuffer: &F) -> (r: Self)
        ensures
            r.min_x() == 0,
            r.min_y() == 0,
            r.width() == framebuffer.width(),
            r.height() == framebuffer.height(),
    {
        Self { min_x: 0, min_y: 0, width: framebuffer.get_width(), height: framebuffer.get_height() }
    }

    /// Gets the smallest x-coordinate in this region.
    pub fn get_min_x(&self) -> (r: u32)
        ensures
            r == self.min_x(),
    {
        self.min_x
    }

    /// Gets the smallest y-coordinate in this region.
    pub fn get_min_y(&self) -> (r: u32)
        ensures
            r == self.min_y(),
    {
        self.min_y
    }

    /// Gets the largest x-coordinate in this region. The region must not be
    /// empty, and that coordinate must fit in a `u32`.
    pub fn get_max_x(&self) -> (r: u32)
        requires
            self.width() >= 1,
            self.min_x() + self.width() - 1 <= u32::MAX,
        ensures
            r == self.min_x() + self.width() - 1,
    {
        self.min_x + (self.width - 1)
    }

    /// Gets the largest y-coordinate in this region. The region must not be
    /// empty, and that coordinate must fit in a `u32`.
    pub fn get_max_y(&self) -> (r: u32)
        requires
            self.height() >= 1,
            self.min_y() + self.height() - 1 <= u32::MAX,
        ensures
            r == self.min_y() + self.height() - 1,
    {
        self.min_y + (self.height - 1)
    }

    /// Gets the first x-coordinate to the right of this region.
    pub fn get_bound_x(&self) -> (r: u32)
        requires
            self.min_x() + self.width() <= u32::MAX,
        ensures
            r == self.min_x() + self.width(),
    {
        self.min_x + self.width
    }

    /// Gets the first y-coordinate below this region.
    pub fn get_bound_y(&self) -> (r: u32)
        requires
            self.min_y() + self.height() <= u32::MAX,
        ensures
            r == self.min_y() + self.height(),
    {
        self.min_y + self.height
    }

    /// Gets the number of columns of this region.
    pub fn get_width(&self) -> (r: u32)
        ensures
            r == self.width(),
    {
        self.width
    }

    /// Gets the number of rows of this region.
    pub fn get_height(&self) -> (r: u32)
        ensures
            r == self.height(),
    {
        self.height
    }
}

/// A copy of the pixels of a framebuffer, kept in memory so that each one
/// can be read, row by row from the top.
pub struct FramebufferDump {
    data: Vec<Color>,
    width: u32,
}

impl FramebufferDump {
    /// The pixels, row by row.
    pub closed spec fn colors(self) -> Seq<Color> {
        self.data@
    }

    pub closed spec fn width(self) -> u32 {
        self.width
    }

    /// Creates a dump of `width` columns and `height` rows from its pixels,
    /// row by row. There must be `width * height` pixels.
    pub fn new(data: Vec<Color>, width: u32, height: u32) -> (r: FramebufferDump)
        requires
            width * height == data@.len(),
        ensures
            r.colors() == data@,
            r.width() == width,
    {
        FramebufferDump { data, width }
    }

    /// Gets the pixel in column `x` of row `y`; (0, 0) is the top left.
    pub fn get(&self, x: u32, y: u32) -> (r: Color)
        requires
            x < self.width(),
            self.width() * (y + 1) <= self.colors().len(),
            self.colors().len() <= u32::MAX,
        ensures
            r == self.colors()[x + y * self.width()],
    {
        proof {
            assert(y * self.width() + x < self.width() * (y + 1)) by (nonlinear_arith)
                requires
                    x < self.width(),
            ;
        }
        self.data[(x + y * self.width) as usize]
    }
}

} // verus!

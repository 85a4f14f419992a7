use vstd::prelude::*;

verus! {

/// A rectangle of a color grid or a depth/stencil grid: its smallest
/// x- and y-coordinates, its width and its height.
#[derive(Clone, Copy, Debug)]
pub struct GridRegion {
    min_x: u32,
    min_y: u32,
    width: u32,
    height: u32,
}

impl GridRegion {
    pub closed spec fn min_x(self) -> u32 {
        self.min_x
    }

    pub closed spec fn min_y(self) -> u32 {
        self.min_y
    }

    pub closed spec fn width(self) -> u32 {
        self.width
    }

    pub closed spec fn height(self) -> u32 {
        self.height
    }

    /// Creates the region with the given corner and size.
    pub fn new(min_x: u32, min_y: u32, width: u32, height: u32) -> (r: Self)
        ensures
            r.min_x() == min_x,
            r.min_y() == min_y,
            r.width() == width,
            r.height() == height,
    {
        Self { min_x, min_y, width, height }
    }

    /// Gets the smallest x-coordinate in this region.
    pub fn get_min_x(&self) -> (r: u32)
        ensures
            r == self.min_x(),
    {
        self.min_x
    }

    /// Gets the smallest y-coordinate in this region.
    pub fn get_min_y(&self) -> (r: u32)
        ensures
            r == self.min_y(),
    {
        self.min_y
    }

    /// Gets the largest x-coordinate in this region. The region must not be
    /// empty, and that coordinate must fit in a `u32`.
    pub fn get_max_x(&self) -> (r: u32)
        requires
            self.width() >= 1,
            self.min_x() + self.width() - 1 <= u32::MAX,
        ensures
            r == self.min_x() + self.width() - 1,
    {
        self.min_x + (self.width - 1)
    }

    /// Gets the largest y-coordinate in this region. The region must not be
    /// empty, and that coordinate must fit in a `u32`.
    pub fn get_max_y(&self) -> (r: u32)
        requires
            self.height() >= 1,
            self.min_y() + self.height() - 1 <= u32::MAX,
        ensures
            r == self.min_y() + self.height() - 1,
    {
        self.min_y + (self.height - 1)
    }

    /// Gets the first x-coordinate to the right of this region.
    pub fn get_bound_x(&self) -> (r: u32)
        requires
            self.min_x() + self.width() <= u32::MAX,
        ensures
            r == self.min_x() + self.width(),
    {
        self.min_x + self.width
    }

    /// Gets the first y-coordinate below this region.
    pub fn get_bound_y(&self) -> (r: u32)
        requires
            self.min_y() + self.height() <= u32::MAX,
        ensures
            r == self.min_y() + self.height(),
    {
        self.min_y + self.height
    }

    /// Gets the number of columns of this region.
    pub fn get_width(&self) -> (r: u32)
        ensures
            r == self.width(),
    {
        self.width
    }

    /// Gets the number of rows of this region.
    pub fn get_height(&self) -> (r: u32)
        ensures
            r == self.height(),
    {
        self.height
    }
}

} // verus!

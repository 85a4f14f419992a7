use vstd::prelude::*;

verus! {

/// A color with red, green, blue and alpha components from 0 to 255.
#[derive(PartialEq, Eq, Structural, Clone, Copy, Debug)]
pub struct Color {
    pub red: u8,
    pub green: u8,
    pub blue: u8,
    pub alpha: u8,
}

/// A copy of the colors of a color grid, taken at some moment and kept in
/// memory so that each color can be read, row by row from the top.
pub struct ColorGridDump {
    data: Vec<Color>,
    width: u32,
}

impl ColorGridDump {
    /// The colors, row by row.
    pub closed spec fn colors(self) -> Seq<Color> {
        self.data@
    }

    pub closed spec fn width(self) -> u32 {
        self.width
    }

    /// Creates a dump of `width` columns and `height` rows from its colors,
    /// row by row. There must be `width * height` colors.
    pub fn new(data: Vec<Color>, width: u32, height: u32) -> (r: Self)
        requires
            width * height == data@.len(),
        ensures
            r.colors() == data@,
            r.width() == width,
    {
        Self { data, width }
    }

    /// Gets the color in column `x` of row `y`; (0, 0) is the top left.
    pub fn get(&self, x: u32, y: u32) -> (r: Color)
        requires
            x < self.width(),
            self.width() * (y + 1) <= self.colors().len(),
            self.colors().len() <= u32::MAX,
        ensures
            r == self.colors()[x + y * self.width()],
    {
        proof {
            assert(y * self.width() + x < self.width() * (y + 1)) by (nonlinear_arith)
                requires
                    x < self.width(),
            ;
        }
        self.data[(x + y * self.width) as usize]
    }

    /// Gets the number of columns of this dump.
    pub fn get_width(&self) -> (r: u32)
        ensures
            r == self.width(),
    {
        self.width
    }

    /// Gets the number of rows of this dump. It must have a column.
    pub fn get_height(&self) -> (r: u32)
        requires
            self.width() > 0,
            self.colors().len() <= u32::MAX,
        ensures
            r == self.colors().len() as int / (self.width() as int),
    {
        self.data.len() as u32 / self.width
    }
}

} // verus!

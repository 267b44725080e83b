//! Panel options: how the panel is mounted, wired and refreshed.

use vstd::prelude::*;

verus! {

/// Order of the color channels in a pixel as the panel expects them.
#[derive(Clone, Copy, Debug, PartialEq, Eq, Structural)]
pub enum ColorOrder {
    Rgb,
    Bgr,
}

/// Clockwise rotation of the image against the panel's native scan.
#[derive(Clone, Copy, Debug, PartialEq, Eq, Structural)]
pub enum Rotation {
    Deg0,
    Deg90,
    Deg180,
    Deg270,
}

/// Rotation of the image, optionally mirrored.
#[derive(Clone, Copy, Debug, PartialEq, Eq, Structural)]
pub struct Orientation {
    pub rotation: Rotation,
    pub mirrored: bool,
}

/// Direction in which the controller refreshes the rows of the panel.
#[derive(Clone, Copy, Debug, PartialEq, Eq, Structural)]
pub enum VerticalRefreshOrder {
    TopToBottom,
    BottomToTop,
}

/// Direction in which the controller refreshes the columns of the panel.
#[derive(Clone, Copy, Debug, PartialEq, Eq, Structural)]
pub enum HorizontalRefreshOrder {
    LeftToRight,
    RightToLeft,
}

/// Refresh direction of the panel, independent of the image orientation.
#[derive(Clone, Copy, Debug, PartialEq, Eq, Structural)]
pub struct RefreshOrder {
    pub vertical: VerticalRefreshOrder,
    pub horizontal: HorizontalRefreshOrder,
}

/// How frame memory is scanned out for a given orientation.
#[derive(Clone, Copy, Debug, PartialEq, Eq, Structural)]
pub struct MemoryMapping {
    pub reverse_rows: bool,
    pub reverse_columns: bool,
    pub swap_rows_and_columns: bool,
}

/// Per-panel configuration handed to the bring-up of a controller.
#[derive(Clone, Copy, Debug, PartialEq, Eq, Structural)]
pub struct ModelOptions {
    pub color_order: ColorOrder,
    pub orientation: Orientation,
    pub invert_colors: bool,
    pub refresh_order: RefreshOrder,
}

impl Rotation {
    /// Whether the rotation turns the image onto its side.
    pub open spec fn is_vertical(self) -> bool {
        self == Rotation::Deg90 || self == Rotation::Deg270
    }
}

impl Orientation {
    /// The scan directions that realise this orientation: the quarter turns
    /// cycle through the row and column reversals, a mirrored image reverses
    /// the columns once more, and a sideways image swaps rows and columns.
    pub open spec fn memory_mapping(self) -> MemoryMapping {
        let rows = self.rotation == Rotation::Deg180 || self.rotation == Rotation::Deg270;
        let columns = self.rotation == Rotation::Deg90 || self.rotation == Rotation::Deg180;
        MemoryMapping {
            reverse_rows: rows,
            reverse_columns: columns != self.mirrored,
            swap_rows_and_columns: self.rotation.is_vertical(),
        }
    }

    /// An upright, unmirrored image.
    pub fn new() -> (o: Self)
        ensures
            o == (Orientation { rotation: Rotation::Deg0, mirrored: false }),
    {
        Orientation { rotation: Rotation::Deg0, mirrored: false }
    }

    /// The same orientation turned to `rotation`.
    pub fn rotate(self, rotation: Rotation) -> (o: Self)
        ensures
            o == (Orientation { rotation, mirrored: self.mirrored }),
    {
        Orientation { rotation, mirrored: self.mirrored }
    }

    /// The same orientation with the mirroring toggled.
    pub fn flip(self) -> (o: Self)
        ensures
            o == (Orientation { rotation: self.rotation, mirrored: !self.mirrored }),
    {
        Orientation { rotation: self.rotation, mirrored: !self.mirrored }
    }

    /// Computes [`Orientation::memory_mapping`].
    pub fn to_memory_mapping(self) -> (m: MemoryMapping)
        ensures
            m == self.memory_mapping(),
    {
        let (rows, columns, swap) = match self.rotation {
            Rotation::Deg0 => (false, false, false),
            Rotation::Deg90 => (false, true, true),
            Rotation::Deg180 => (true, true, false),
            Rotation::Deg270 => (true, false, true),
        };
        MemoryMapping {
            reverse_rows: rows,
            reverse_columns: columns ^ self.mirrored,
            swap_rows_and_columns: swap,
        }
    }
}

impl RefreshOrder {
    /// Top to bottom, left to right.
    pub fn new() -> (r: Self)
        ensures
            r == (RefreshOrder {
                vertical: VerticalRefreshOrder::TopToBottom,
                horizontal: HorizontalRefreshOrder::LeftToRight,
            }),
    {
        RefreshOrder {
            vertical: VerticalRefreshOrder::TopToBottom,
            horizontal: HorizontalRefreshOrder::LeftToRight,
        }
    }
}

impl ModelOptions {
    /// The options of a panel as it comes out of reset: RGB, upright,
    /// unmirrored, colors not inverted, refreshed top to bottom and left to
    /// right.
    pub open spec fn reset() -> ModelOptions {
        ModelOptions {
            color_order: ColorOrder::Rgb,
            orientation: Orientation { rotation: Rotation::Deg0, mirrored: false },
            invert_colors: false,
            refresh_order: RefreshOrder {
                vertical: VerticalRefreshOrder::TopToBottom,
                horizontal: HorizontalRefreshOrder::LeftToRight,
            },
        }
    }

    /// Computes [`ModelOptions::reset`].
    pub fn new() -> (o: Self)
        ensures
            o == ModelOptions::reset(),
    {
        ModelOptions {
            color_order: ColorOrder::Rgb,
            orientation: Orientation::new(),
            invert_colors: false,
            refresh_order: RefreshOrder::new(),
        }
    }

    /// The same options with another color order.
    pub fn with_color_order(self, color_order: ColorOrder) -> (o: Self)
        ensures
            o == (ModelOptions { color_order, ..self }),
    {
        ModelOptions { color_order, ..self }
    }

    /// The same options with another orientation.
    pub fn with_orientation(self, orientation: Orientation) -> (o: Self)
        ensures
            o == (ModelOptions { orientation, ..self }),
    {
        ModelOptions { orientation, ..self }
    }

    /// The same options with color inversion switched on or off.
    pub fn with_invert_colors(self, invert_colors: bool) -> (o: Self)
        ensures
            o == (ModelOptions { invert_colors, ..self }),
    {
        ModelOptions { invert_colors, ..self }
    }

    /// The same options with another refresh order.
    pub fn with_refresh_order(self, refresh_order: RefreshOrder) -> (o: Self)
        ensures
            o == (ModelOptions { refresh_order, ..self }),
    {
        ModelOptions { refresh_order, ..self }
    }
}

impl Default for ModelOptions {
    fn default() -> (o: Self)
        ensures
            o == ModelOptions::reset(),
    {
        ModelOptions::new()
    }
}

} // verus!

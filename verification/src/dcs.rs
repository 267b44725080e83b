//! Display Command Set: opcodes and the register encodings of typed options.

use crate::options::ColorOrder;
use crate::options::HorizontalRefreshOrder;
use crate::options::ModelOptions;
use crate::options::VerticalRefreshOrder;
use vstd::prelude::*;

verus! {

/// Leaves color inversion.
pub const EXIT_INVERT_MODE: u8 = 0x20;

/// Enters color inversion.
pub const ENTER_INVERT_MODE: u8 = 0x21;

/// Leaves sleep mode; the controller then reloads its factory settings.
pub const EXIT_SLEEP_MODE: u8 = 0x11;

/// Starts scanning frame memory out to the panel.
pub const SET_DISPLAY_ON: u8 = 0x29;

/// Writes the memory access control register.
pub const SET_ADDRESS_MODE: u8 = 0x36;

/// Writes the interface pixel format register.
pub const SET_PIXEL_FORMAT: u8 = 0x3A;

/// Row address order (MY), bit 7 of the memory access control register.
pub const ROW_ORDER: u8 = 0x80;

/// Column address order (MX), bit 6.
pub const COLUMN_ORDER: u8 = 0x40;

/// Row/column exchange (MV), bit 5.
pub const ROW_COLUMN_EXCHANGE: u8 = 0x20;

/// Vertical refresh order (ML), bit 4.
pub const VERTICAL_REFRESH: u8 = 0x10;

/// Blue-green-red channel order (BGR), bit 3.
pub const BGR_ORDER: u8 = 0x08;

/// Horizontal refresh order (MH), bit 2.
pub const HORIZONTAL_REFRESH: u8 = 0x04;

/// Color depth of the pixels sent to the controller.
#[derive(Clone, Copy, Debug, PartialEq, Eq, Structural)]
pub enum PixelFormat {
    /// 16 bits per pixel, 5-6-5.
    Rgb565,
    /// 18 bits per pixel, 6-6-6.
    Rgb666,
}

impl PixelFormat {
    /// The three-bit code by which the controller knows the color depth.
    pub open spec fn depth_code(self) -> u8 {
        match self {
            PixelFormat::Rgb565 => 5,
            PixelFormat::Rgb666 => 6,
        }
    }

    /// The value of the pixel format register for this format.
    pub open spec fn encoding(self) -> u8 {
        match self {
            PixelFormat::Rgb565 => 0x55,
            PixelFormat::Rgb666 => 0x66,
        }
    }

    /// Computes [`PixelFormat::encoding`]: the depth code goes into both the
    /// RGB-interface field and the MCU-interface field of the register.
    pub fn as_u8(self) -> (byte: u8)
        ensures
            byte == self.encoding(),
    {
        let code: u8 = match self {
            PixelFormat::Rgb565 => 0b101,
            PixelFormat::Rgb666 => 0b110,
        };
        let byte: u8 = (code << 4) | code;
        assert(((5u8 << 4) | 5u8) == 0x55u8) by (bit_vector);
        assert(((6u8 << 4) | 6u8) == 0x66u8) by (bit_vector);
        byte
    }
}

/// The register is laid out as `[0, DPI[2:0], 0, DBI[2:0]]`, and both fields
/// carry the depth code of the format.
pub proof fn lemma_pixel_format_layout(format: PixelFormat)
    ensures
        format.encoding() & 0x88 == 0,
        (format.encoding() >> 4) & 0x07 == format.depth_code(),
        format.encoding() & 0x07 == format.depth_code(),
{
    assert(0x55u8 & 0x88 == 0 && (0x55u8 >> 4) & 0x07 == 5 && 0x55u8 & 0x07 == 5) by (bit_vector);
    assert(0x66u8 & 0x88 == 0 && (0x66u8 >> 4) & 0x07 == 6 && 0x66u8 & 0x07 == 6) by (bit_vector);
}

/// Distinct formats have distinct register values.
pub proof fn lemma_pixel_format_injective(a: PixelFormat, b: PixelFormat)
    requires
        a.encoding() == b.encoding(),
    ensures
        a == b,
{
}

/// The weight that a flag contributes to a register: its mask when set.
pub open spec fn flag(set: bool, mask: u8) -> int {
    if set {
        mask as int
    } else {
        0
    }
}

/// The value of the memory access control register for `options`: each of
/// the six scan and color flags contributes its own bit, and nothing else
/// does.
pub open spec fn address_mode_bits(options: ModelOptions) -> int {
    let mapping = options.orientation.memory_mapping();
    flag(mapping.reverse_rows, ROW_ORDER)
        + flag(mapping.reverse_columns, COLUMN_ORDER)
        + flag(mapping.swap_rows_and_columns, ROW_COLUMN_EXCHANGE)
        + flag(options.refresh_order.vertical == VerticalRefreshOrder::BottomToTop, VERTICAL_REFRESH)
        + flag(options.color_order == ColorOrder::Bgr, BGR_ORDER)
        + flag(options.refresh_order.horizontal == HorizontalRefreshOrder::RightToLeft, HORIZONTAL_REFRESH)
}

/// Bit by bit, the register is `[MY, MX, MV, ML, BGR, MH, 0, 0]`: every flag
/// of the options sets its own bit and no other, and the two low bits are
/// never set.
pub proof fn lemma_address_mode_layout(options: ModelOptions)
    ensures
        0 <= address_mode_bits(options) <= 0xFC,
        ({
            let bits = address_mode_bits(options) as u8;
            let mapping = options.orientation.memory_mapping();
            &&& (bits & ROW_ORDER != 0) == mapping.reverse_rows
            &&& (bits & COLUMN_ORDER != 0) == mapping.reverse_columns
            &&& (bits & ROW_COLUMN_EXCHANGE != 0) == mapping.swap_rows_and_columns
            &&& (bits & VERTICAL_REFRESH != 0) == (options.refresh_order.vertical
                == VerticalRefreshOrder::BottomToTop)
            &&& (bits & BGR_ORDER != 0) == (options.color_order == ColorOrder::Bgr)
            &&& (bits & HORIZONTAL_REFRESH != 0) == (options.refresh_order.horizontal
                == HorizontalRefreshOrder::RightToLeft)
            &&& bits & 0x03 == 0
        }),
{
    let mapping = options.orientation.memory_mapping();
    let my = flag(mapping.reverse_rows, ROW_ORDER) as u8;
    let mx = flag(mapping.reverse_columns, COLUMN_ORDER) as u8;
    let mv = flag(mapping.swap_rows_and_columns, ROW_COLUMN_EXCHANGE) as u8;
    let ml = flag(
        options.refresh_order.vertical == VerticalRefreshOrder::BottomToTop,
        VERTICAL_REFRESH,
    ) as u8;
    let bgr = flag(options.color_order == ColorOrder::Bgr, BGR_ORDER) as u8;
    let mh = flag(
        options.refresh_order.horizontal == HorizontalRefreshOrder::RightToLeft,
        HORIZONTAL_REFRESH,
    ) as u8;
    let bits = address_mode_bits(options) as u8;
    assert(bits == my + mx + mv + ml + bgr + mh);
    assert({
        &&& (bits & 0x80 != 0) == (my != 0)
        &&& (bits & 0x40 != 0) == (mx != 0)
        &&& (bits & 0x20 != 0) == (mv != 0)
        &&& (bits & 0x10 != 0) == (ml != 0)
        &&& (bits & 0x08 != 0) == (bgr != 0)
        &&& (bits & 0x04 != 0) == (mh != 0)
        &&& bits & 0x03 == 0
    }) by (bit_vector)
        requires
            bits == my + mx + mv + ml + bgr + mh,
            my == 0x80 || my == 0,
            mx == 0x40 || mx == 0,
            mv == 0x20 || mv == 0,
            ml == 0x10 || ml == 0,
            bgr == 0x08 || bgr == 0,
            mh == 0x04 || mh == 0,
    ;
}

/// Color inversion has no bit in the memory access control register: the
/// register is the same whether or not the options ask for inversion.
pub proof fn lemma_address_mode_ignores_inversion(options: ModelOptions, invert_colors: bool)
    ensures
        address_mode_bits(ModelOptions { invert_colors, ..options }) == address_mode_bits(options),
{
}

/// No two flags share a bit: options that give the same register agree on
/// color order, orientation and refresh order.
pub proof fn lemma_address_mode_injective(a: ModelOptions, b: ModelOptions)
    requires
        address_mode_bits(a) == address_mode_bits(b),
    ensures
        a.color_order == b.color_order,
        a.orientation == b.orientation,
        a.refresh_order == b.refresh_order,
{
    lemma_address_mode_layout(a);
    lemma_address_mode_layout(b);
}

/// The memory access control command with its one-byte parameter.
#[derive(Clone, Copy, Debug, PartialEq, Eq, Structural)]
pub struct SetAddressMode(u8);

impl View for SetAddressMode {
    type V = u8;

    /// The parameter byte of the command.
    closed spec fn view(&self) -> u8 {
        self.0
    }
}

impl SetAddressMode {
    /// The command that sets the register as `options` ask.
    pub fn from_options(options: &ModelOptions) -> (mode: Self)
        ensures
            mode@ == address_mode_bits(*options),
    {
        let mapping = options.orientation.to_memory_mapping();
        let my: u8 = if mapping.reverse_rows { ROW_ORDER } else { 0 };
        let mx: u8 = if mapping.reverse_columns { COLUMN_ORDER } else { 0 };
        let mv: u8 = if mapping.swap_rows_and_columns { ROW_COLUMN_EXCHANGE } else { 0 };
        let ml: u8 = match options.refresh_order.vertical {
            VerticalRefreshOrder::TopToBottom => 0,
            VerticalRefreshOrder::BottomToTop => VERTICAL_REFRESH,
        };
        let bgr: u8 = match options.color_order {
            ColorOrder::Rgb => 0,
            ColorOrder::Bgr => BGR_ORDER,
        };
        let mh: u8 = match options.refresh_order.horizontal {
            HorizontalRefreshOrder::LeftToRight => 0,
            HorizontalRefreshOrder::RightToLeft => HORIZONTAL_REFRESH,
        };
        let bits: u8 = my | mx | mv | ml | bgr | mh;
        assert(bits == my + mx + mv + ml + bgr + mh) by (bit_vector)
            requires
                bits == my | mx | mv | ml | bgr | mh,
                my == 0x80 || my == 0,
                mx == 0x40 || mx == 0,
                mv == 0x20 || mv == 0,
                ml == 0x10 || ml == 0,
                bgr == 0x08 || bgr == 0,
                mh == 0x04 || mh == 0,
        ;
        SetAddressMode(bits)
    }

    /// The parameter byte of the command.
    pub fn as_u8(&self) -> (byte: u8)
        ensures
            byte == self@,
    {
        self.0
    }
}

impl From<&ModelOptions> for SetAddressMode {
    fn from(options: &ModelOptions) -> (mode: Self)
        ensures
            mode@ == address_mode_bits(*options),
    {
        SetAddressMode::from_options(options)
    }
}

impl vstd::std_specs::convert::FromSpecImpl<&ModelOptions> for SetAddressMode {
    open spec fn obeys_from_spec() -> bool {
        true
    }

    closed spec fn from_spec(options: &ModelOptions) -> Self {
        SetAddressMode(address_mode_bits(*options) as u8)
    }
}

} // verus!

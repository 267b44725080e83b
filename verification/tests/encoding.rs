use tft_init::dcs::{PixelFormat, SetAddressMode};
use tft_init::options::{
    ColorOrder, HorizontalRefreshOrder, MemoryMapping, ModelOptions, Orientation, RefreshOrder,
    Rotation, VerticalRefreshOrder,
};

const ROTATIONS: [Rotation; 4] = [Rotation::Deg0, Rotation::Deg90, Rotation::Deg180, Rotation::Deg270];
const COLOR_ORDERS: [ColorOrder; 2] = [ColorOrder::Rgb, ColorOrder::Bgr];
const VERTICALS: [VerticalRefreshOrder; 2] =
    [VerticalRefreshOrder::TopToBottom, VerticalRefreshOrder::BottomToTop];
const HORIZONTALS: [HorizontalRefreshOrder; 2] =
    [HorizontalRefreshOrder::LeftToRight, HorizontalRefreshOrder::RightToLeft];

fn all_options() -> Vec<ModelOptions> {
    let mut all = Vec::new();
    for rotation in ROTATIONS {
        for mirrored in [false, true] {
            for color_order in COLOR_ORDERS {
                for vertical in VERTICALS {
                    for horizontal in HORIZONTALS {
                        for invert_colors in [false, true] {
                            all.push(ModelOptions {
                                color_order,
                                orientation: Orientation { rotation, mirrored },
                                invert_colors,
                                refresh_order: RefreshOrder { vertical, horizontal },
                            });
                        }
                    }
                }
            }
        }
    }
    all
}

fn byte(options: &ModelOptions) -> u8 {
    SetAddressMode::from_options(options).as_u8()
}

#[test]
fn default_options_give_a_cleared_address_mode() {
    assert_eq!(byte(&ModelOptions::default()), 0x00);
    assert_eq!(ModelOptions::default(), ModelOptions::new());
    assert_eq!(
        ModelOptions::new(),
        ModelOptions {
            color_order: ColorOrder::Rgb,
            orientation: Orientation { rotation: Rotation::Deg0, mirrored: false },
            invert_colors: false,
            refresh_order: RefreshOrder {
                vertical: VerticalRefreshOrder::TopToBottom,
                horizontal: HorizontalRefreshOrder::LeftToRight,
            },
        }
    );
}

#[test]
fn every_flag_owns_its_bit() {
    let all = all_options();
    assert_eq!(all.len(), 128);
    for options in all {
        let bits = byte(&options);
        let rotation = options.orientation.rotation;
        let rows = rotation == Rotation::Deg180 || rotation == Rotation::Deg270;
        let columns = (rotation == Rotation::Deg90 || rotation == Rotation::Deg180)
            != options.orientation.mirrored;
        let swap = rotation == Rotation::Deg90 || rotation == Rotation::Deg270;
        assert_eq!(bits & 0x80 != 0, rows, "MY for {:?}", options);
        assert_eq!(bits & 0x40 != 0, columns, "MX for {:?}", options);
        assert_eq!(bits & 0x20 != 0, swap, "MV for {:?}", options);
        assert_eq!(
            bits & 0x10 != 0,
            options.refresh_order.vertical == VerticalRefreshOrder::BottomToTop,
            "ML for {:?}",
            options
        );
        assert_eq!(bits & 0x08 != 0, options.color_order == ColorOrder::Bgr, "BGR for {:?}", options);
        assert_eq!(
            bits & 0x04 != 0,
            options.refresh_order.horizontal == HorizontalRefreshOrder::RightToLeft,
            "MH for {:?}",
            options
        );
        assert_eq!(bits & 0x03, 0, "reserved bits for {:?}", options);
    }
}

#[test]
fn single_flags_give_single_bits() {
    let base = ModelOptions::new();
    assert_eq!(byte(&base.with_color_order(ColorOrder::Bgr)), 0x08);
    assert_eq!(
        byte(&base.with_refresh_order(RefreshOrder {
            vertical: VerticalRefreshOrder::BottomToTop,
            horizontal: HorizontalRefreshOrder::LeftToRight,
        })),
        0x10
    );
    assert_eq!(
        byte(&base.with_refresh_order(RefreshOrder {
            vertical: VerticalRefreshOrder::TopToBottom,
            horizontal: HorizontalRefreshOrder::RightToLeft,
        })),
        0x04
    );
    assert_eq!(byte(&base.with_orientation(Orientation::new().flip())), 0x40);
}

#[test]
fn rotations_give_the_documented_bytes() {
    let base = ModelOptions::new();
    let turned = |rotation| byte(&base.with_orientation(Orientation::new().rotate(rotation)));
    assert_eq!(turned(Rotation::Deg0), 0x00);
    assert_eq!(turned(Rotation::Deg90), 0x60);
    assert_eq!(turned(Rotation::Deg180), 0xC0);
    assert_eq!(turned(Rotation::Deg270), 0xA0);
    let mirrored =
        |rotation| byte(&base.with_orientation(Orientation::new().rotate(rotation).flip()));
    assert_eq!(mirrored(Rotation::Deg0), 0x40);
    assert_eq!(mirrored(Rotation::Deg90), 0x20);
    assert_eq!(mirrored(Rotation::Deg180), 0x80);
    assert_eq!(mirrored(Rotation::Deg270), 0xE0);
}

#[test]
fn all_flags_together() {
    let options = ModelOptions {
        color_order: ColorOrder::Bgr,
        orientation: Orientation { rotation: Rotation::Deg270, mirrored: true },
        invert_colors: true,
        refresh_order: RefreshOrder {
            vertical: VerticalRefreshOrder::BottomToTop,
            horizontal: HorizontalRefreshOrder::RightToLeft,
        },
    };
    assert_eq!(byte(&options), 0xFC);
}

#[test]
fn inversion_has_no_bit_in_the_address_mode() {
    for options in all_options() {
        assert_eq!(
            byte(&options.with_invert_colors(true)),
            byte(&options.with_invert_colors(false))
        );
    }
}

#[test]
fn different_flags_give_different_bytes() {
    let all = all_options();
    for a in &all {
        for b in &all {
            if byte(a) == byte(b) {
                assert_eq!(a.color_order, b.color_order);
                assert_eq!(a.orientation, b.orientation);
                assert_eq!(a.refresh_order, b.refresh_order);
            }
        }
    }
}

#[test]
fn equal_options_give_equal_address_modes() {
    for options in all_options() {
        let copy = options;
        assert_eq!(SetAddressMode::from_options(&options), SetAddressMode::from_options(&copy));
        assert_eq!(SetAddressMode::from(&options), SetAddressMode::from_options(&options));
    }
}

#[test]
fn memory_mapping_of_each_orientation() {
    let mapping = |rotation, mirrored| Orientation { rotation, mirrored }.to_memory_mapping();
    let expect = |reverse_rows, reverse_columns, swap_rows_and_columns| MemoryMapping {
        reverse_rows,
        reverse_columns,
        swap_rows_and_columns,
    };
    assert_eq!(mapping(Rotation::Deg0, false), expect(false, false, false));
    assert_eq!(mapping(Rotation::Deg90, false), expect(false, true, true));
    assert_eq!(mapping(Rotation::Deg180, false), expect(true, true, false));
    assert_eq!(mapping(Rotation::Deg270, false), expect(true, false, true));
    assert_eq!(mapping(Rotation::Deg0, true), expect(false, true, false));
    assert_eq!(mapping(Rotation::Deg90, true), expect(false, false, true));
    assert_eq!(mapping(Rotation::Deg180, true), expect(true, false, false));
    assert_eq!(mapping(Rotation::Deg270, true), expect(true, true, true));
}

#[test]
fn builders_change_one_field() {
    let base = ModelOptions::new();
    let orientation = Orientation { rotation: Rotation::Deg90, mirrored: true };
    assert_eq!(base.with_orientation(orientation), ModelOptions { orientation, ..base });
    assert_eq!(base.with_invert_colors(true), ModelOptions { invert_colors: true, ..base });
    assert_eq!(
        base.with_color_order(ColorOrder::Bgr),
        ModelOptions { color_order: ColorOrder::Bgr, ..base }
    );
    assert_eq!(Orientation::new().rotate(Rotation::Deg90).flip(), orientation);
    assert_eq!(
        RefreshOrder::new(),
        RefreshOrder {
            vertical: VerticalRefreshOrder::TopToBottom,
            horizontal: HorizontalRefreshOrder::LeftToRight,
        }
    );
}

#[test]
fn pixel_format_table() {
    assert_eq!(PixelFormat::Rgb565.as_u8(), 0x55);
    assert_eq!(PixelFormat::Rgb666.as_u8(), 0x66);
}

#[test]
fn pixel_format_fills_both_fields() {
    for (format, code) in [(PixelFormat::Rgb565, 0b101u8), (PixelFormat::Rgb666, 0b110u8)] {
        let byte = format.as_u8();
        assert_eq!(byte & 0x88, 0);
        assert_eq!((byte >> 4) & 0x07, code);
        assert_eq!(byte & 0x07, code);
    }
}

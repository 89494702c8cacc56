use ffi_c_bindings::codes::{
    TAFFY_ALIGN_AUTO, TAFFY_ALIGN_BASELINE, TAFFY_ALIGN_SAFE_CENTER, TAFFY_ALIGN_SAFE_END,
    TAFFY_ALIGN_STRETCH, TAFFY_AVAILABLE_DEFINITE, TAFFY_AVAILABLE_MAX_CONTENT, TAFFY_AVAILABLE_MIN_CONTENT,
    TAFFY_BOX_SIZING_BORDER_BOX, TAFFY_CONTENT_ALIGN_AUTO, TAFFY_CONTENT_ALIGN_SPACE_AROUND,
    TAFFY_CONTENT_ALIGN_SPACE_BETWEEN, TAFFY_DIM_AUTO, TAFFY_DIM_FIT_CONTENT_LENGTH,
    TAFFY_DIM_FIT_CONTENT_PERCENT, TAFFY_DIM_LENGTH, TAFFY_DIM_MAX_CONTENT, TAFFY_DIM_MIN_CONTENT,
    TAFFY_DIM_PERCENT, TAFFY_DIM_STRETCH, TAFFY_DIRECTION_LTR, TAFFY_DISPLAY_FLEX, TAFFY_DISPLAY_FLOW_ROOT,
    TAFFY_DISPLAY_GRID, TAFFY_DISPLAY_NONE, TAFFY_ERR_INVALID_ARGUMENT, TAFFY_FLEX_DIRECTION_COLUMN,
    TAFFY_FLEX_WRAP_BALANCE_REVERSE, TAFFY_FLEX_WRAP_WRAP, TAFFY_OVERFLOW_SCROLL, TAFFY_OVERFLOW_VISIBLE,
    TAFFY_POSITION_RELATIVE,
};
use ffi_c_bindings::style::{
    align_content_to_c, align_items_to_c, available_space_to_c, dim_to_dimension, dim_to_length_percentage,
    dim_to_length_percentage_auto, dimension_to_c, display_to_c, is_nan_bits, map_align_content, map_align_items,
    map_available_space, map_box_sizing, map_direction, map_display, map_flex_direction, map_flex_wrap, map_overflow,
    map_position, style_from_c, style_to_c, AlignContent, AlignContentKeyword, AlignItems, AlignItemsKeyword,
    AlignmentSafety, AvailableSpaceValue, CTaffyAvailableSpace, CTaffyDim, CTaffyStyle, ConvertError, Dimension,
    Display, FlexWrap, LengthPercentage, LengthPercentageAuto, NAN_BITS,
};

fn dim(t: u8, v: f32) -> CTaffyDim {
    CTaffyDim { dim_type: t, value: v.to_bits() }
}

fn c_style() -> CTaffyStyle {
    let auto = dim(TAFFY_DIM_AUTO, 0.0);
    let zero = dim(TAFFY_DIM_LENGTH, 0.0);
    CTaffyStyle {
        display: TAFFY_DISPLAY_FLEX,
        box_sizing: TAFFY_BOX_SIZING_BORDER_BOX,
        position_type: TAFFY_POSITION_RELATIVE,
        direction: TAFFY_DIRECTION_LTR,
        flex_direction: TAFFY_FLEX_DIRECTION_COLUMN,
        flex_wrap: TAFFY_FLEX_WRAP_WRAP,
        overflow_x: TAFFY_OVERFLOW_VISIBLE,
        overflow_y: TAFFY_OVERFLOW_SCROLL,
        align_items: TAFFY_ALIGN_SAFE_CENTER,
        align_self: TAFFY_ALIGN_AUTO,
        align_content: TAFFY_CONTENT_ALIGN_SPACE_BETWEEN,
        justify_content: TAFFY_CONTENT_ALIGN_AUTO,
        justify_items: TAFFY_ALIGN_BASELINE,
        justify_self: TAFFY_ALIGN_AUTO,
        flex_line_count: 1,
        scrollbar_width: 0.0f32.to_bits(),
        flex_grow: 1.0f32.to_bits(),
        flex_shrink: 1.0f32.to_bits(),
        aspect_ratio: 1.5f32.to_bits(),
        inset: [auto; 4],
        margin: [dim(TAFFY_DIM_LENGTH, 4.0), auto, dim(TAFFY_DIM_PERCENT, 0.5), auto],
        padding: [zero; 4],
        border: [zero, dim(TAFFY_DIM_LENGTH, 1.0), zero, zero],
        size: [dim(TAFFY_DIM_LENGTH, 100.0), dim(TAFFY_DIM_FIT_CONTENT_PERCENT, 0.25)],
        min_size: [auto; 2],
        max_size: [dim(TAFFY_DIM_PERCENT, 1.0), auto],
        flex_basis: dim(TAFFY_DIM_MAX_CONTENT, 0.0),
        gap: [zero, zero],
    }
}

#[test]
fn enum_codes_decode() {
    assert_eq!(map_display(TAFFY_DISPLAY_NONE), Ok(Display::NoBox));
    assert_eq!(map_display(TAFFY_DISPLAY_GRID), Ok(Display::Grid));
    assert_eq!(map_display(5), Err(ConvertError(TAFFY_ERR_INVALID_ARGUMENT)));
    assert_eq!(map_flex_wrap(TAFFY_FLEX_WRAP_BALANCE_REVERSE), Ok(FlexWrap::BalanceReverse));
    assert_eq!(map_flex_wrap(5), Err(ConvertError(TAFFY_ERR_INVALID_ARGUMENT)));
    assert!(map_position(2).is_err());
    assert!(map_direction(2).is_err());
    assert!(map_flex_direction(4).is_err());
    assert!(map_overflow(4).is_err());
    assert!(map_box_sizing(2).is_err());
    assert_eq!(display_to_c(Display::FlowRoot), TAFFY_DISPLAY_FLOW_ROOT);
}

#[test]
fn alignment_codes() {
    assert_eq!(map_align_items(TAFFY_ALIGN_AUTO), Ok(None));
    assert_eq!(
        map_align_items(TAFFY_ALIGN_SAFE_END),
        Ok(Some(AlignItems { keyword: AlignItemsKeyword::End, safety: AlignmentSafety::Safe }))
    );
    assert_eq!(map_align_items(17), Err(ConvertError(TAFFY_ERR_INVALID_ARGUMENT)));
    assert_eq!(map_align_content(TAFFY_CONTENT_ALIGN_AUTO), Ok(None));
    assert_eq!(map_align_content(15), Err(ConvertError(TAFFY_ERR_INVALID_ARGUMENT)));
    // A `safe` modifier beside a keyword that takes none has no code of its own.
    let safe_stretch = AlignItems { keyword: AlignItemsKeyword::Stretch, safety: AlignmentSafety::Safe };
    assert_eq!(align_items_to_c(Some(safe_stretch)), TAFFY_ALIGN_STRETCH);
    let safe_around = AlignContent { keyword: AlignContentKeyword::SpaceAround, safety: AlignmentSafety::Safe };
    assert_eq!(align_content_to_c(Some(safe_around)), TAFFY_CONTENT_ALIGN_SPACE_AROUND);
    for v in 0..=16u8 {
        assert_eq!(align_items_to_c(map_align_items(v).unwrap()), v);
    }
    for v in 0..=14u8 {
        assert_eq!(align_content_to_c(map_align_content(v).unwrap()), v);
    }
}

#[test]
fn dims_decode_with_fallbacks() {
    assert_eq!(dim_to_dimension(dim(TAFFY_DIM_LENGTH, 3.0)), Dimension::Length(3.0f32.to_bits()));
    assert_eq!(dim_to_dimension(dim(TAFFY_DIM_STRETCH, 9.0)), Dimension::Stretch);
    assert_eq!(dim_to_dimension(dim(200, 9.0)), Dimension::Auto);
    assert_eq!(dim_to_length_percentage_auto(dim(TAFFY_DIM_MIN_CONTENT, 1.0)), LengthPercentageAuto::Auto);
    assert_eq!(dim_to_length_percentage_auto(dim(TAFFY_DIM_PERCENT, 0.5)), LengthPercentageAuto::Percent(0.5f32.to_bits()));
    assert_eq!(dim_to_length_percentage(dim(TAFFY_DIM_AUTO, 1.0)), LengthPercentage::Length(0));
    assert_eq!(dimension_to_c(Dimension::Content), CTaffyDim { dim_type: TAFFY_DIM_AUTO, value: 0 });
    assert_eq!(
        dimension_to_c(Dimension::FitContentPx(2.0f32.to_bits())),
        CTaffyDim { dim_type: TAFFY_DIM_FIT_CONTENT_LENGTH, value: 2.0f32.to_bits() }
    );
}

#[test]
fn available_space_codes() {
    let d = CTaffyAvailableSpace { space_type: TAFFY_AVAILABLE_DEFINITE, value: 8.0f32.to_bits() };
    assert_eq!(map_available_space(d), AvailableSpaceValue::Definite(8.0f32.to_bits()));
    let m = CTaffyAvailableSpace { space_type: TAFFY_AVAILABLE_MAX_CONTENT, value: 8.0f32.to_bits() };
    assert_eq!(map_available_space(m), AvailableSpaceValue::MaxContent);
    let odd = CTaffyAvailableSpace { space_type: 9, value: 8.0f32.to_bits() };
    assert_eq!(map_available_space(odd), AvailableSpaceValue::Definite(8.0f32.to_bits()));
    assert_eq!(
        available_space_to_c(AvailableSpaceValue::MinContent),
        CTaffyAvailableSpace { space_type: TAFFY_AVAILABLE_MIN_CONTENT, value: 0 }
    );
}

#[test]
fn nan_bits() {
    assert!(is_nan_bits(f32::NAN.to_bits()));
    assert!(is_nan_bits(NAN_BITS));
    assert!(f32::from_bits(NAN_BITS).is_nan());
    assert!(!is_nan_bits(f32::INFINITY.to_bits()));
    assert!(!is_nan_bits(1.0f32.to_bits()));
}

#[test]
fn style_decodes_each_field() {
    let s = style_from_c(&c_style()).unwrap();
    assert_eq!(s.display, Display::Flex);
    assert_eq!(s.align_items, Some(AlignItems { keyword: AlignItemsKeyword::Center, safety: AlignmentSafety::Safe }));
    assert_eq!(s.align_self, None);
    assert_eq!(s.aspect_ratio, Some(1.5f32.to_bits()));
    assert_eq!(s.margin.left, LengthPercentageAuto::Length(4.0f32.to_bits()));
    assert_eq!(s.margin.top, LengthPercentageAuto::Percent(0.5f32.to_bits()));
    assert_eq!(s.border.right, LengthPercentage::Length(1.0f32.to_bits()));
    assert_eq!(s.size.height, Dimension::FitContentPercent(0.25f32.to_bits()));
    assert_eq!(s.flex_basis, Dimension::MaxContent);
}

#[test]
fn style_rejects_unknown_discriminators() {
    let mut c = c_style();
    c.overflow_y = 9;
    assert_eq!(style_from_c(&c), Err(ConvertError(TAFFY_ERR_INVALID_ARGUMENT)));
    let mut c = c_style();
    c.justify_self = 40;
    assert_eq!(style_from_c(&c), Err(ConvertError(TAFFY_ERR_INVALID_ARGUMENT)));
}

#[test]
fn style_normalises_line_count_and_nan() {
    let mut c = c_style();
    c.flex_line_count = 0;
    c.aspect_ratio = f32::NAN.to_bits();
    let s = style_from_c(&c).unwrap();
    assert_eq!(s.flex_line_count, 1);
    assert_eq!(s.aspect_ratio, None);
    let back = style_to_c(&s);
    assert!(f32::from_bits(back.aspect_ratio).is_nan());
    assert_eq!(back.flex_line_count, 1);
}

#[test]
fn style_round_trips_through_c() {
    let s = style_from_c(&c_style()).unwrap();
    let c = style_to_c(&s);
    assert_eq!(c, c_style());
    assert_eq!(style_from_c(&c), Ok(s));
}

#[test]
fn decoded_style_is_stable() {
    let mut c = c_style();
    c.flex_line_count = 0;
    c.aspect_ratio = 0x7fff_ffff;
    c.inset[0] = dim(TAFFY_DIM_STRETCH, 3.0);
    c.padding[1] = dim(TAFFY_DIM_MIN_CONTENT, 2.0);
    let s = style_from_c(&c).unwrap();
    let again = style_to_c(&s);
    assert_ne!(again, c);
    assert_eq!(again.aspect_ratio, NAN_BITS);
    assert_eq!(again.inset[0], dim(TAFFY_DIM_AUTO, 0.0));
    assert_eq!(again.padding[1], dim(TAFFY_DIM_LENGTH, 0.0));
    assert_eq!(style_from_c(&again), Ok(s));
}

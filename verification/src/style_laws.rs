//! What the C encoding of styles and available space means, stated against
//! the header's constants and field by field: which constant each value is
//! written as and read from, and which C field each property of a style comes
//! from and goes to.

use vstd::prelude::*;
use crate::codes::{
    TAFFY_ALIGN_AUTO, TAFFY_ALIGN_BASELINE, TAFFY_ALIGN_CENTER, TAFFY_ALIGN_END,
    TAFFY_ALIGN_FLEX_END, TAFFY_ALIGN_FLEX_START, TAFFY_ALIGN_SAFE_CENTER, TAFFY_ALIGN_SAFE_END,
    TAFFY_ALIGN_SAFE_FLEX_END, TAFFY_ALIGN_SAFE_FLEX_START, TAFFY_ALIGN_SAFE_SELF_END,
    TAFFY_ALIGN_SAFE_SELF_START, TAFFY_ALIGN_SAFE_START, TAFFY_ALIGN_SELF_END,
    TAFFY_ALIGN_SELF_START, TAFFY_ALIGN_START, TAFFY_ALIGN_STRETCH, TAFFY_AVAILABLE_DEFINITE,
    TAFFY_AVAILABLE_MAX_CONTENT, TAFFY_AVAILABLE_MIN_CONTENT, TAFFY_BOX_SIZING_BORDER_BOX,
    TAFFY_BOX_SIZING_CONTENT_BOX, TAFFY_CONTENT_ALIGN_AUTO, TAFFY_CONTENT_ALIGN_CENTER,
    TAFFY_CONTENT_ALIGN_END, TAFFY_CONTENT_ALIGN_FLEX_END, TAFFY_CONTENT_ALIGN_FLEX_START,
    TAFFY_CONTENT_ALIGN_SAFE_CENTER, TAFFY_CONTENT_ALIGN_SAFE_END,
    TAFFY_CONTENT_ALIGN_SAFE_FLEX_END, TAFFY_CONTENT_ALIGN_SAFE_FLEX_START,
    TAFFY_CONTENT_ALIGN_SAFE_START, TAFFY_CONTENT_ALIGN_SPACE_AROUND,
    TAFFY_CONTENT_ALIGN_SPACE_BETWEEN, TAFFY_CONTENT_ALIGN_SPACE_EVENLY, TAFFY_CONTENT_ALIGN_START,
    TAFFY_CONTENT_ALIGN_STRETCH, TAFFY_DIM_AUTO, TAFFY_DIM_FIT_CONTENT,
    TAFFY_DIM_FIT_CONTENT_LENGTH, TAFFY_DIM_FIT_CONTENT_PERCENT, TAFFY_DIM_LENGTH,
    TAFFY_DIM_MAX_CONTENT, TAFFY_DIM_MIN_CONTENT, TAFFY_DIM_PERCENT, TAFFY_DIM_STRETCH,
    TAFFY_DIRECTION_LTR, TAFFY_DIRECTION_RTL, TAFFY_DISPLAY_BLOCK, TAFFY_DISPLAY_FLEX,
    TAFFY_DISPLAY_FLOW_ROOT, TAFFY_DISPLAY_GRID, TAFFY_DISPLAY_NONE, TAFFY_ERR_BUFFER_TOO_SMALL,
    TAFFY_ERR_INDEX_OUT_OF_BOUNDS, TAFFY_ERR_INVALID_ARGUMENT, TAFFY_ERR_INVALID_NODE,
    TAFFY_ERR_NO_PARENT, TAFFY_ERR_NULL_POINTER, TAFFY_ERR_UNKNOWN, TAFFY_FLEX_DIRECTION_COLUMN,
    TAFFY_FLEX_DIRECTION_COLUMN_REVERSE, TAFFY_FLEX_DIRECTION_ROW, TAFFY_FLEX_DIRECTION_ROW_REVERSE,
    TAFFY_FLEX_WRAP_BALANCE, TAFFY_FLEX_WRAP_BALANCE_REVERSE, TAFFY_FLEX_WRAP_NO_WRAP,
    TAFFY_FLEX_WRAP_WRAP, TAFFY_FLEX_WRAP_WRAP_REVERSE, TAFFY_OK, TAFFY_OVERFLOW_CLIP,
    TAFFY_OVERFLOW_HIDDEN, TAFFY_OVERFLOW_SCROLL, TAFFY_OVERFLOW_VISIBLE, TAFFY_POSITION_ABSOLUTE,
    TAFFY_POSITION_RELATIVE,
};
use crate::style::{
    AlignContent, AlignContentKeyword, AlignItems, AlignItemsKeyword, AlignmentSafety,
    AvailableSpaceValue, BoxSizing, CTaffyAvailableSpace, CTaffyDim, CTaffyStyle, Dimension,
    Direction, Display, FlexDirection, FlexWrap, LayoutStyle, LengthPercentage,
    LengthPercentageAuto, NAN_BITS, Overflow, Position, ZERO_BITS, spec_align_content_code,
    spec_align_content_from_code, spec_align_items_code, spec_align_items_from_code,
    spec_available_space_to_c, spec_box_sizing_code, spec_box_sizing_from_code,
    spec_dim_to_dimension, spec_dim_to_length_percentage, spec_dim_to_length_percentage_auto,
    spec_dimension_to_c, spec_direction_code, spec_direction_from_code, spec_display_code,
    spec_display_from_code, spec_flex_direction_code, spec_flex_direction_from_code,
    spec_flex_wrap_code, spec_flex_wrap_from_code, spec_is_nan_bits,
    spec_length_percentage_auto_to_c, spec_length_percentage_to_c, spec_map_available_space,
    spec_overflow_code, spec_overflow_from_code, spec_position_code, spec_position_from_code,
    spec_style_codes_valid, spec_style_from_c, spec_style_to_c,
};

verus! {

/// An item alignment with the given keyword and modifier.
pub open spec fn item_alignment(keyword: AlignItemsKeyword, safety: AlignmentSafety) -> Option<AlignItems> {
    Some(AlignItems { keyword, safety })
}

/// A content alignment with the given keyword and modifier.
pub open spec fn content_alignment(keyword: AlignContentKeyword, safety: AlignmentSafety) -> Option<AlignContent> {
    Some(AlignContent { keyword, safety })
}

/// A C dim with the given code and number.
pub open spec fn c_dim(dim_type: u8, value: u32) -> CTaffyDim {
    CTaffyDim { dim_type, value }
}

/// A C available space with the given code and number.
pub open spec fn c_space(space_type: u8, value: u32) -> CTaffyAvailableSpace {
    CTaffyAvailableSpace { space_type, value }
}

/// An available space with the definite code is the definite size it
/// carries; the min- and max-content codes are those keywords whatever the
/// number; any other code is read as a definite size too. Encoding writes a
/// definite size with the definite code and its number, and each keyword with
/// its code and a zero number.
pub proof fn law_available_space_header_codes(code: u8, v: u32)
    ensures
        spec_map_available_space(c_space(TAFFY_AVAILABLE_DEFINITE, v)) == AvailableSpaceValue::Definite(v),
        spec_map_available_space(c_space(TAFFY_AVAILABLE_MIN_CONTENT, v)) == AvailableSpaceValue::MinContent,
        spec_map_available_space(c_space(TAFFY_AVAILABLE_MAX_CONTENT, v)) == AvailableSpaceValue::MaxContent,
        code != TAFFY_AVAILABLE_MIN_CONTENT && code != TAFFY_AVAILABLE_MAX_CONTENT
            ==> spec_map_available_space(c_space(code, v)) == AvailableSpaceValue::Definite(v),
        spec_available_space_to_c(AvailableSpaceValue::Definite(v)) == c_space(TAFFY_AVAILABLE_DEFINITE, v),
        spec_available_space_to_c(AvailableSpaceValue::MinContent) == c_space(TAFFY_AVAILABLE_MIN_CONTENT, ZERO_BITS),
        spec_available_space_to_c(AvailableSpaceValue::MaxContent) == c_space(TAFFY_AVAILABLE_MAX_CONTENT, ZERO_BITS),
{
}

/// Each dim code of the header is read as the size of the same name, with
/// the dim's number where the size has one; an unknown code is `auto`.
/// Encoding writes each size with its code (a keyword with a zero number),
/// and a size without a code (`content`, `calc()`) as `auto`.
pub proof fn law_dimension_header_codes(code: u8, v: u32)
    ensures
        spec_dim_to_dimension(c_dim(TAFFY_DIM_AUTO, v)) == Dimension::Auto,
        spec_dim_to_dimension(c_dim(TAFFY_DIM_LENGTH, v)) == Dimension::Length(v),
        spec_dim_to_dimension(c_dim(TAFFY_DIM_PERCENT, v)) == Dimension::Percent(v),
        spec_dim_to_dimension(c_dim(TAFFY_DIM_MIN_CONTENT, v)) == Dimension::MinContent,
        spec_dim_to_dimension(c_dim(TAFFY_DIM_MAX_CONTENT, v)) == Dimension::MaxContent,
        spec_dim_to_dimension(c_dim(TAFFY_DIM_FIT_CONTENT_LENGTH, v)) == Dimension::FitContentPx(v),
        spec_dim_to_dimension(c_dim(TAFFY_DIM_FIT_CONTENT_PERCENT, v)) == Dimension::FitContentPercent(v),
        spec_dim_to_dimension(c_dim(TAFFY_DIM_FIT_CONTENT, v)) == Dimension::FitContent,
        spec_dim_to_dimension(c_dim(TAFFY_DIM_STRETCH, v)) == Dimension::Stretch,
        code > TAFFY_DIM_FIT_CONTENT ==> spec_dim_to_dimension(c_dim(code, v)) == Dimension::Auto,
        spec_dimension_to_c(Dimension::Auto) == c_dim(TAFFY_DIM_AUTO, ZERO_BITS),
        spec_dimension_to_c(Dimension::Length(v)) == c_dim(TAFFY_DIM_LENGTH, v),
        spec_dimension_to_c(Dimension::Percent(v)) == c_dim(TAFFY_DIM_PERCENT, v),
        spec_dimension_to_c(Dimension::MinContent) == c_dim(TAFFY_DIM_MIN_CONTENT, ZERO_BITS),
        spec_dimension_to_c(Dimension::MaxContent) == c_dim(TAFFY_DIM_MAX_CONTENT, ZERO_BITS),
        spec_dimension_to_c(Dimension::FitContentPx(v)) == c_dim(TAFFY_DIM_FIT_CONTENT_LENGTH, v),
        spec_dimension_to_c(Dimension::FitContentPercent(v)) == c_dim(TAFFY_DIM_FIT_CONTENT_PERCENT, v),
        spec_dimension_to_c(Dimension::FitContent) == c_dim(TAFFY_DIM_FIT_CONTENT, ZERO_BITS),
        spec_dimension_to_c(Dimension::Stretch) == c_dim(TAFFY_DIM_STRETCH, ZERO_BITS),
        spec_dimension_to_c(Dimension::Content) == c_dim(TAFFY_DIM_AUTO, ZERO_BITS),
        spec_dimension_to_c(Dimension::Calc) == c_dim(TAFFY_DIM_AUTO, ZERO_BITS),
{
}

/// For edges and min/max sizes only the length and percent codes are read as
/// such; every other code is `auto`. Encoding writes a length or percentage
/// with its code and `auto` (and `calc()`, which has no code) as `auto`.
pub proof fn law_length_percentage_auto_header_codes(code: u8, v: u32)
    ensures
        spec_dim_to_length_percentage_auto(c_dim(TAFFY_DIM_LENGTH, v)) == LengthPercentageAuto::Length(v),
        spec_dim_to_length_percentage_auto(c_dim(TAFFY_DIM_PERCENT, v)) == LengthPercentageAuto::Percent(v),
        code != TAFFY_DIM_LENGTH && code != TAFFY_DIM_PERCENT
            ==> spec_dim_to_length_percentage_auto(c_dim(code, v)) == LengthPercentageAuto::Auto,
        spec_length_percentage_auto_to_c(LengthPercentageAuto::Length(v)) == c_dim(TAFFY_DIM_LENGTH, v),
        spec_length_percentage_auto_to_c(LengthPercentageAuto::Percent(v)) == c_dim(TAFFY_DIM_PERCENT, v),
        spec_length_percentage_auto_to_c(LengthPercentageAuto::Auto) == c_dim(TAFFY_DIM_AUTO, ZERO_BITS),
        spec_length_percentage_auto_to_c(LengthPercentageAuto::Calc) == c_dim(TAFFY_DIM_AUTO, ZERO_BITS),
{
}

/// For padding, border and gap only the length and percent codes are read as
/// such; every other code is a zero length. Encoding writes a length or
/// percentage with its code, and `calc()`, which has no code, as `auto`.
pub proof fn law_length_percentage_header_codes(code: u8, v: u32)
    ensures
        spec_dim_to_length_percentage(c_dim(TAFFY_DIM_LENGTH, v)) == LengthPercentage::Length(v),
        spec_dim_to_length_percentage(c_dim(TAFFY_DIM_PERCENT, v)) == LengthPercentage::Percent(v),
        code != TAFFY_DIM_LENGTH && code != TAFFY_DIM_PERCENT
            ==> spec_dim_to_length_percentage(c_dim(code, v)) == LengthPercentage::Length(ZERO_BITS),
        spec_length_percentage_to_c(LengthPercentage::Length(v)) == c_dim(TAFFY_DIM_LENGTH, v),
        spec_length_percentage_to_c(LengthPercentage::Percent(v)) == c_dim(TAFFY_DIM_PERCENT, v),
        spec_length_percentage_to_c(LengthPercentage::Calc) == c_dim(TAFFY_DIM_AUTO, ZERO_BITS),
{
}

/// Every `Display` is written as the header's constant of the same name, each of
/// those constants is read as that `Display`, and every other discriminator is
/// refused.
pub proof fn law_display_header_codes(v: u8)
    ensures
        spec_display_code(Display::NoBox) == TAFFY_DISPLAY_NONE,
        spec_display_code(Display::Flex) == TAFFY_DISPLAY_FLEX,
        spec_display_code(Display::Block) == TAFFY_DISPLAY_BLOCK,
        spec_display_code(Display::FlowRoot) == TAFFY_DISPLAY_FLOW_ROOT,
        spec_display_code(Display::Grid) == TAFFY_DISPLAY_GRID,
        spec_display_from_code(TAFFY_DISPLAY_NONE) == Some(Display::NoBox),
        spec_display_from_code(TAFFY_DISPLAY_FLEX) == Some(Display::Flex),
        spec_display_from_code(TAFFY_DISPLAY_BLOCK) == Some(Display::Block),
        spec_display_from_code(TAFFY_DISPLAY_FLOW_ROOT) == Some(Display::FlowRoot),
        spec_display_from_code(TAFFY_DISPLAY_GRID) == Some(Display::Grid),
        v != TAFFY_DISPLAY_NONE && v != TAFFY_DISPLAY_FLEX && v != TAFFY_DISPLAY_BLOCK && v != TAFFY_DISPLAY_FLOW_ROOT && v != TAFFY_DISPLAY_GRID ==> spec_display_from_code(v) is None,
{
}

/// Every `Position` is written as the header's constant of the same name, each of
/// those constants is read as that `Position`, and every other discriminator is
/// refused.
pub proof fn law_position_header_codes(v: u8)
    ensures
        spec_position_code(Position::Relative) == TAFFY_POSITION_RELATIVE,
        spec_position_code(Position::Absolute) == TAFFY_POSITION_ABSOLUTE,
        spec_position_from_code(TAFFY_POSITION_RELATIVE) == Some(Position::Relative),
        spec_position_from_code(TAFFY_POSITION_ABSOLUTE) == Some(Position::Absolute),
        v != TAFFY_POSITION_RELATIVE && v != TAFFY_POSITION_ABSOLUTE ==> spec_position_from_code(v) is None,
{
}

/// Every `Direction` is written as the header's constant of the same name, each of
/// those constants is read as that `Direction`, and every other discriminator is
/// refused.
pub proof fn law_direction_header_codes(v: u8)
    ensures
        spec_direction_code(Direction::Ltr) == TAFFY_DIRECTION_LTR,
        spec_direction_code(Direction::Rtl) == TAFFY_DIRECTION_RTL,
        spec_direction_from_code(TAFFY_DIRECTION_LTR) == Some(Direction::Ltr),
        spec_direction_from_code(TAFFY_DIRECTION_RTL) == Some(Direction::Rtl),
        v != TAFFY_DIRECTION_LTR && v != TAFFY_DIRECTION_RTL ==> spec_direction_from_code(v) is None,
{
}

/// Every `FlexDirection` is written as the header's constant of the same name, each of
/// those constants is read as that `FlexDirection`, and every other discriminator is
/// refused.
pub proof fn law_flex_direction_header_codes(v: u8)
    ensures
        spec_flex_direction_code(FlexDirection::Row) == TAFFY_FLEX_DIRECTION_ROW,
        spec_flex_direction_code(FlexDirection::Column) == TAFFY_FLEX_DIRECTION_COLUMN,
        spec_flex_direction_code(FlexDirection::RowReverse) == TAFFY_FLEX_DIRECTION_ROW_REVERSE,
        spec_flex_direction_code(FlexDirection::ColumnReverse) == TAFFY_FLEX_DIRECTION_COLUMN_REVERSE,
        spec_flex_direction_from_code(TAFFY_FLEX_DIRECTION_ROW) == Some(FlexDirection::Row),
        spec_flex_direction_from_code(TAFFY_FLEX_DIRECTION_COLUMN) == Some(FlexDirection::Column),
        spec_flex_direction_from_code(TAFFY_FLEX_DIRECTION_ROW_REVERSE) == Some(FlexDirection::RowReverse),
        spec_flex_direction_from_code(TAFFY_FLEX_DIRECTION_COLUMN_REVERSE) == Some(FlexDirection::ColumnReverse),
        v != TAFFY_FLEX_DIRECTION_ROW && v != TAFFY_FLEX_DIRECTION_COLUMN && v != TAFFY_FLEX_DIRECTION_ROW_REVERSE && v != TAFFY_FLEX_DIRECTION_COLUMN_REVERSE ==> spec_flex_direction_from_code(v) is None,
{
}

/// Every `FlexWrap` is written as the header's constant of the same name, each of
/// those constants is read as that `FlexWrap`, and every other discriminator is
/// refused.
pub proof fn law_flex_wrap_header_codes(v: u8)
    ensures
        spec_flex_wrap_code(FlexWrap::NoWrap) == TAFFY_FLEX_WRAP_NO_WRAP,
        spec_flex_wrap_code(FlexWrap::Wrap) == TAFFY_FLEX_WRAP_WRAP,
        spec_flex_wrap_code(FlexWrap::WrapReverse) == TAFFY_FLEX_WRAP_WRAP_REVERSE,
        spec_flex_wrap_code(FlexWrap::Balance) == TAFFY_FLEX_WRAP_BALANCE,
        spec_flex_wrap_code(FlexWrap::BalanceReverse) == TAFFY_FLEX_WRAP_BALANCE_REVERSE,
        spec_flex_wrap_from_code(TAFFY_FLEX_WRAP_NO_WRAP) == Some(FlexWrap::NoWrap),
        spec_flex_wrap_from_code(TAFFY_FLEX_WRAP_WRAP) == Some(FlexWrap::Wrap),
        spec_flex_wrap_from_code(TAFFY_FLEX_WRAP_WRAP_REVERSE) == Some(FlexWrap::WrapReverse),
        spec_flex_wrap_from_code(TAFFY_FLEX_WRAP_BALANCE) == Some(FlexWrap::Balance),
        spec_flex_wrap_from_code(TAFFY_FLEX_WRAP_BALANCE_REVERSE) == Some(FlexWrap::BalanceReverse),
        v != TAFFY_FLEX_WRAP_NO_WRAP && v != TAFFY_FLEX_WRAP_WRAP && v != TAFFY_FLEX_WRAP_WRAP_REVERSE && v != TAFFY_FLEX_WRAP_BALANCE && v != TAFFY_FLEX_WRAP_BALANCE_REVERSE ==> spec_flex_wrap_from_code(v) is None,
{
}

/// Every `Overflow` is written as the header's constant of the same name, each of
/// those constants is read as that `Overflow`, and every other discriminator is
/// refused.
pub proof fn law_overflow_header_codes(v: u8)
    ensures
        spec_overflow_code(Overflow::Visible) == TAFFY_OVERFLOW_VISIBLE,
        spec_overflow_code(Overflow::Clip) == TAFFY_OVERFLOW_CLIP,
        spec_overflow_code(Overflow::Hidden) == TAFFY_OVERFLOW_HIDDEN,
        spec_overflow_code(Overflow::Scroll) == TAFFY_OVERFLOW_SCROLL,
        spec_overflow_from_code(TAFFY_OVERFLOW_VISIBLE) == Some(Overflow::Visible),
        spec_overflow_from_code(TAFFY_OVERFLOW_CLIP) == Some(Overflow::Clip),
        spec_overflow_from_code(TAFFY_OVERFLOW_HIDDEN) == Some(Overflow::Hidden),
        spec_overflow_from_code(TAFFY_OVERFLOW_SCROLL) == Some(Overflow::Scroll),
        v != TAFFY_OVERFLOW_VISIBLE && v != TAFFY_OVERFLOW_CLIP && v != TAFFY_OVERFLOW_HIDDEN && v != TAFFY_OVERFLOW_SCROLL ==> spec_overflow_from_code(v) is None,
{
}

/// Every `BoxSizing` is written as the header's constant of the same name, each of
/// those constants is read as that `BoxSizing`, and every other discriminator is
/// refused.
pub proof fn law_box_sizing_header_codes(v: u8)
    ensures
        spec_box_sizing_code(BoxSizing::BorderBox) == TAFFY_BOX_SIZING_BORDER_BOX,
        spec_box_sizing_code(BoxSizing::ContentBox) == TAFFY_BOX_SIZING_CONTENT_BOX,
        spec_box_sizing_from_code(TAFFY_BOX_SIZING_BORDER_BOX) == Some(BoxSizing::BorderBox),
        spec_box_sizing_from_code(TAFFY_BOX_SIZING_CONTENT_BOX) == Some(BoxSizing::ContentBox),
        v != TAFFY_BOX_SIZING_BORDER_BOX && v != TAFFY_BOX_SIZING_CONTENT_BOX ==> spec_box_sizing_from_code(v) is None,
{
}

/// Every `AlignItems` keyword is written as the header's constant of the same name
/// (with the `SAFE_` prefix for the `safe` modifier), `None` as the `AUTO`
/// constant; each constant is read back as what it names, every other
/// discriminator is refused, and a `safe` modifier beside a keyword whose
/// header has no `SAFE_` constant is dropped.
pub proof fn law_align_items_header_codes(v: u8)
    ensures
        spec_align_items_code(None) == TAFFY_ALIGN_AUTO,
        spec_align_items_from_code(TAFFY_ALIGN_AUTO) == Some(None::<AlignItems>),
        spec_align_items_code(item_alignment(AlignItemsKeyword::Start, AlignmentSafety::Unsafe)) == TAFFY_ALIGN_START,
        spec_align_items_code(item_alignment(AlignItemsKeyword::End, AlignmentSafety::Unsafe)) == TAFFY_ALIGN_END,
        spec_align_items_code(item_alignment(AlignItemsKeyword::FlexStart, AlignmentSafety::Unsafe)) == TAFFY_ALIGN_FLEX_START,
        spec_align_items_code(item_alignment(AlignItemsKeyword::FlexEnd, AlignmentSafety::Unsafe)) == TAFFY_ALIGN_FLEX_END,
        spec_align_items_code(item_alignment(AlignItemsKeyword::SelfStart, AlignmentSafety::Unsafe)) == TAFFY_ALIGN_SELF_START,
        spec_align_items_code(item_alignment(AlignItemsKeyword::SelfEnd, AlignmentSafety::Unsafe)) == TAFFY_ALIGN_SELF_END,
        spec_align_items_code(item_alignment(AlignItemsKeyword::Center, AlignmentSafety::Unsafe)) == TAFFY_ALIGN_CENTER,
        spec_align_items_code(item_alignment(AlignItemsKeyword::Baseline, AlignmentSafety::Unsafe)) == TAFFY_ALIGN_BASELINE,
        spec_align_items_code(item_alignment(AlignItemsKeyword::Stretch, AlignmentSafety::Unsafe)) == TAFFY_ALIGN_STRETCH,
        spec_align_items_code(item_alignment(AlignItemsKeyword::Start, AlignmentSafety::Safe)) == TAFFY_ALIGN_SAFE_START,
        spec_align_items_code(item_alignment(AlignItemsKeyword::End, AlignmentSafety::Safe)) == TAFFY_ALIGN_SAFE_END,
        spec_align_items_code(item_alignment(AlignItemsKeyword::FlexStart, AlignmentSafety::Safe)) == TAFFY_ALIGN_SAFE_FLEX_START,
        spec_align_items_code(item_alignment(AlignItemsKeyword::FlexEnd, AlignmentSafety::Safe)) == TAFFY_ALIGN_SAFE_FLEX_END,
        spec_align_items_code(item_alignment(AlignItemsKeyword::SelfStart, AlignmentSafety::Safe)) == TAFFY_ALIGN_SAFE_SELF_START,
        spec_align_items_code(item_alignment(AlignItemsKeyword::SelfEnd, AlignmentSafety::Safe)) == TAFFY_ALIGN_SAFE_SELF_END,
        spec_align_items_code(item_alignment(AlignItemsKeyword::Center, AlignmentSafety::Safe)) == TAFFY_ALIGN_SAFE_CENTER,
        spec_align_items_from_code(TAFFY_ALIGN_START) == Some(item_alignment(AlignItemsKeyword::Start, AlignmentSafety::Unsafe)),
        spec_align_items_from_code(TAFFY_ALIGN_END) == Some(item_alignment(AlignItemsKeyword::End, AlignmentSafety::Unsafe)),
        spec_align_items_from_code(TAFFY_ALIGN_FLEX_START) == Some(item_alignment(AlignItemsKeyword::FlexStart, AlignmentSafety::Unsafe)),
        spec_align_items_from_code(TAFFY_ALIGN_FLEX_END) == Some(item_alignment(AlignItemsKeyword::FlexEnd, AlignmentSafety::Unsafe)),
        spec_align_items_from_code(TAFFY_ALIGN_SELF_START) == Some(item_alignment(AlignItemsKeyword::SelfStart, AlignmentSafety::Unsafe)),
        spec_align_items_from_code(TAFFY_ALIGN_SELF_END) == Some(item_alignment(AlignItemsKeyword::SelfEnd, AlignmentSafety::Unsafe)),
        spec_align_items_from_code(TAFFY_ALIGN_CENTER) == Some(item_alignment(AlignItemsKeyword::Center, AlignmentSafety::Unsafe)),
        spec_align_items_from_code(TAFFY_ALIGN_BASELINE) == Some(item_alignment(AlignItemsKeyword::Baseline, AlignmentSafety::Unsafe)),
        spec_align_items_from_code(TAFFY_ALIGN_STRETCH) == Some(item_alignment(AlignItemsKeyword::Stretch, AlignmentSafety::Unsafe)),
        spec_align_items_from_code(TAFFY_ALIGN_SAFE_START) == Some(item_alignment(AlignItemsKeyword::Start, AlignmentSafety::Safe)),
        spec_align_items_from_code(TAFFY_ALIGN_SAFE_END) == Some(item_alignment(AlignItemsKeyword::End, AlignmentSafety::Safe)),
        spec_align_items_from_code(TAFFY_ALIGN_SAFE_FLEX_START) == Some(item_alignment(AlignItemsKeyword::FlexStart, AlignmentSafety::Safe)),
        spec_align_items_from_code(TAFFY_ALIGN_SAFE_FLEX_END) == Some(item_alignment(AlignItemsKeyword::FlexEnd, AlignmentSafety::Safe)),
        spec_align_items_from_code(TAFFY_ALIGN_SAFE_SELF_START) == Some(item_alignment(AlignItemsKeyword::SelfStart, AlignmentSafety::Safe)),
        spec_align_items_from_code(TAFFY_ALIGN_SAFE_SELF_END) == Some(item_alignment(AlignItemsKeyword::SelfEnd, AlignmentSafety::Safe)),
        spec_align_items_from_code(TAFFY_ALIGN_SAFE_CENTER) == Some(item_alignment(AlignItemsKeyword::Center, AlignmentSafety::Safe)),
        v != TAFFY_ALIGN_AUTO && v != TAFFY_ALIGN_START && v != TAFFY_ALIGN_END && v != TAFFY_ALIGN_FLEX_START && v != TAFFY_ALIGN_FLEX_END && v != TAFFY_ALIGN_SELF_START && v != TAFFY_ALIGN_SELF_END && v != TAFFY_ALIGN_CENTER && v != TAFFY_ALIGN_BASELINE && v != TAFFY_ALIGN_STRETCH && v != TAFFY_ALIGN_SAFE_START && v != TAFFY_ALIGN_SAFE_END && v != TAFFY_ALIGN_SAFE_FLEX_START && v != TAFFY_ALIGN_SAFE_FLEX_END && v != TAFFY_ALIGN_SAFE_SELF_START && v != TAFFY_ALIGN_SAFE_SELF_END && v != TAFFY_ALIGN_SAFE_CENTER ==> spec_align_items_from_code(v) is None,
        spec_align_items_code(item_alignment(AlignItemsKeyword::Baseline, AlignmentSafety::Safe)) == spec_align_items_code(item_alignment(AlignItemsKeyword::Baseline, AlignmentSafety::Unsafe)),
        spec_align_items_code(item_alignment(AlignItemsKeyword::Stretch, AlignmentSafety::Safe)) == spec_align_items_code(item_alignment(AlignItemsKeyword::Stretch, AlignmentSafety::Unsafe)),
{
}

/// Every `AlignContent` keyword is written as the header's constant of the same name
/// (with the `SAFE_` prefix for the `safe` modifier), `None` as the `AUTO`
/// constant; each constant is read back as what it names, every other
/// discriminator is refused, and a `safe` modifier beside a keyword whose
/// header has no `SAFE_` constant is dropped.
pub proof fn law_align_content_header_codes(v: u8)
    ensures
        spec_align_content_code(None) == TAFFY_CONTENT_ALIGN_AUTO,
        spec_align_content_from_code(TAFFY_CONTENT_ALIGN_AUTO) == Some(None::<AlignContent>),
        spec_align_content_code(content_alignment(AlignContentKeyword::Start, AlignmentSafety::Unsafe)) == TAFFY_CONTENT_ALIGN_START,
        spec_align_content_code(content_alignment(AlignContentKeyword::End, AlignmentSafety::Unsafe)) == TAFFY_CONTENT_ALIGN_END,
        spec_align_content_code(content_alignment(AlignContentKeyword::FlexStart, AlignmentSafety::Unsafe)) == TAFFY_CONTENT_ALIGN_FLEX_START,
        spec_align_content_code(content_alignment(AlignContentKeyword::FlexEnd, AlignmentSafety::Unsafe)) == TAFFY_CONTENT_ALIGN_FLEX_END,
        spec_align_content_code(content_alignment(AlignContentKeyword::Center, AlignmentSafety::Unsafe)) == TAFFY_CONTENT_ALIGN_CENTER,
        spec_align_content_code(content_alignment(AlignContentKeyword::Stretch, AlignmentSafety::Unsafe)) == TAFFY_CONTENT_ALIGN_STRETCH,
        spec_align_content_code(content_alignment(AlignContentKeyword::SpaceBetween, AlignmentSafety::Unsafe)) == TAFFY_CONTENT_ALIGN_SPACE_BETWEEN,
        spec_align_content_code(content_alignment(AlignContentKeyword::SpaceEvenly, AlignmentSafety::Unsafe)) == TAFFY_CONTENT_ALIGN_SPACE_EVENLY,
        spec_align_content_code(content_alignment(AlignContentKeyword::SpaceAround, AlignmentSafety::Unsafe)) == TAFFY_CONTENT_ALIGN_SPACE_AROUND,
        spec_align_content_code(content_alignment(AlignContentKeyword::Start, AlignmentSafety::Safe)) == TAFFY_CONTENT_ALIGN_SAFE_START,
        spec_align_content_code(content_alignment(AlignContentKeyword::End, AlignmentSafety::Safe)) == TAFFY_CONTENT_ALIGN_SAFE_END,
        spec_align_content_code(content_alignment(AlignContentKeyword::FlexStart, AlignmentSafety::Safe)) == TAFFY_CONTENT_ALIGN_SAFE_FLEX_START,
        spec_align_content_code(content_alignment(AlignContentKeyword::FlexEnd, AlignmentSafety::Safe)) == TAFFY_CONTENT_ALIGN_SAFE_FLEX_END,
        spec_align_content_code(content_alignment(AlignContentKeyword::Center, AlignmentSafety::Safe)) == TAFFY_CONTENT_ALIGN_SAFE_CENTER,
        spec_align_content_from_code(TAFFY_CONTENT_ALIGN_START) == Some(content_alignment(AlignContentKeyword::Start, AlignmentSafety::Unsafe)),
        spec_align_content_from_code(TAFFY_CONTENT_ALIGN_END) == Some(content_alignment(AlignContentKeyword::End, AlignmentSafety::Unsafe)),
        spec_align_content_from_code(TAFFY_CONTENT_ALIGN_FLEX_START) == Some(content_alignment(AlignContentKeyword::FlexStart, AlignmentSafety::Unsafe)),
        spec_align_content_from_code(TAFFY_CONTENT_ALIGN_FLEX_END) == Some(content_alignment(AlignContentKeyword::FlexEnd, AlignmentSafety::Unsafe)),
        spec_align_content_from_code(TAFFY_CONTENT_ALIGN_CENTER) == Some(content_alignment(AlignContentKeyword::Center, AlignmentSafety::Unsafe)),
        spec_align_content_from_code(TAFFY_CONTENT_ALIGN_STRETCH) == Some(content_alignment(AlignContentKeyword::Stretch, AlignmentSafety::Unsafe)),
        spec_align_content_from_code(TAFFY_CONTENT_ALIGN_SPACE_BETWEEN) == Some(content_alignment(AlignContentKeyword::SpaceBetween, AlignmentSafety::Unsafe)),
        spec_align_content_from_code(TAFFY_CONTENT_ALIGN_SPACE_EVENLY) == Some(content_alignment(AlignContentKeyword::SpaceEvenly, AlignmentSafety::Unsafe)),
        spec_align_content_from_code(TAFFY_CONTENT_ALIGN_SPACE_AROUND) == Some(content_alignment(AlignContentKeyword::SpaceAround, AlignmentSafety::Unsafe)),
        spec_align_content_from_code(TAFFY_CONTENT_ALIGN_SAFE_START) == Some(content_alignment(AlignContentKeyword::Start, AlignmentSafety::Safe)),
        spec_align_content_from_code(TAFFY_CONTENT_ALIGN_SAFE_END) == Some(content_alignment(AlignContentKeyword::End, AlignmentSafety::Safe)),
        spec_align_content_from_code(TAFFY_CONTENT_ALIGN_SAFE_FLEX_START) == Some(content_alignment(AlignContentKeyword::FlexStart, AlignmentSafety::Safe)),
        spec_align_content_from_code(TAFFY_CONTENT_ALIGN_SAFE_FLEX_END) == Some(content_alignment(AlignContentKeyword::FlexEnd, AlignmentSafety::Safe)),
        spec_align_content_from_code(TAFFY_CONTENT_ALIGN_SAFE_CENTER) == Some(content_alignment(AlignContentKeyword::Center, AlignmentSafety::Safe)),
        v != TAFFY_CONTENT_ALIGN_AUTO && v != TAFFY_CONTENT_ALIGN_START && v != TAFFY_CONTENT_ALIGN_END && v != TAFFY_CONTENT_ALIGN_FLEX_START && v != TAFFY_CONTENT_ALIGN_FLEX_END && v != TAFFY_CONTENT_ALIGN_CENTER && v != TAFFY_CONTENT_ALIGN_STRETCH && v != TAFFY_CONTENT_ALIGN_SPACE_BETWEEN && v != TAFFY_CONTENT_ALIGN_SPACE_EVENLY && v != TAFFY_CONTENT_ALIGN_SPACE_AROUND && v != TAFFY_CONTENT_ALIGN_SAFE_START && v != TAFFY_CONTENT_ALIGN_SAFE_END && v != TAFFY_CONTENT_ALIGN_SAFE_FLEX_START && v != TAFFY_CONTENT_ALIGN_SAFE_FLEX_END && v != TAFFY_CONTENT_ALIGN_SAFE_CENTER ==> spec_align_content_from_code(v) is None,
        spec_align_content_code(content_alignment(AlignContentKeyword::SpaceAround, AlignmentSafety::Safe)) == spec_align_content_code(content_alignment(AlignContentKeyword::SpaceAround, AlignmentSafety::Unsafe)),
        spec_align_content_code(content_alignment(AlignContentKeyword::SpaceBetween, AlignmentSafety::Safe)) == spec_align_content_code(content_alignment(AlignContentKeyword::SpaceBetween, AlignmentSafety::Unsafe)),
        spec_align_content_code(content_alignment(AlignContentKeyword::SpaceEvenly, AlignmentSafety::Safe)) == spec_align_content_code(content_alignment(AlignContentKeyword::SpaceEvenly, AlignmentSafety::Unsafe)),
        spec_align_content_code(content_alignment(AlignContentKeyword::Stretch, AlignmentSafety::Safe)) == spec_align_content_code(content_alignment(AlignContentKeyword::Stretch, AlignmentSafety::Unsafe)),
{
}

/// Decoding a C style reads each property from the C field of the same name
/// with that property's own decoder: each axis of overflow from its own
/// field, each edge from its slot of `[left, right, top, bottom]`, each axis of
/// a size from its slot of `[width, height]`. A style decodes exactly when
/// every enumerated field holds a known discriminator; a zero line count reads
/// as one and a NaN aspect ratio as none.
pub proof fn law_style_from_c_fields(c: CTaffyStyle)
    ensures
        spec_style_codes_valid(c) <==> (spec_display_from_code(c.display) is Some && spec_box_sizing_from_code(c.box_sizing) is Some && spec_position_from_code(c.position_type) is Some && spec_direction_from_code(c.direction) is Some && spec_flex_direction_from_code(c.flex_direction) is Some && spec_flex_wrap_from_code(c.flex_wrap) is Some && spec_overflow_from_code(c.overflow_x) is Some && spec_overflow_from_code(c.overflow_y) is Some && spec_align_items_from_code(c.align_items) is Some && spec_align_items_from_code(c.align_self) is Some && spec_align_items_from_code(c.justify_items) is Some && spec_align_items_from_code(c.justify_self) is Some && spec_align_content_from_code(c.align_content) is Some && spec_align_content_from_code(c.justify_content) is Some),
        spec_style_codes_valid(c) ==> spec_style_from_c(c).display == spec_display_from_code(c.display)->Some_0,
        spec_style_codes_valid(c) ==> spec_style_from_c(c).box_sizing == spec_box_sizing_from_code(c.box_sizing)->Some_0,
        spec_style_codes_valid(c) ==> spec_style_from_c(c).position == spec_position_from_code(c.position_type)->Some_0,
        spec_style_codes_valid(c) ==> spec_style_from_c(c).direction == spec_direction_from_code(c.direction)->Some_0,
        spec_style_codes_valid(c) ==> spec_style_from_c(c).flex_direction == spec_flex_direction_from_code(c.flex_direction)->Some_0,
        spec_style_codes_valid(c) ==> spec_style_from_c(c).flex_wrap == spec_flex_wrap_from_code(c.flex_wrap)->Some_0,
        spec_style_codes_valid(c) ==> spec_style_from_c(c).overflow_x == spec_overflow_from_code(c.overflow_x)->Some_0,
        spec_style_codes_valid(c) ==> spec_style_from_c(c).overflow_y == spec_overflow_from_code(c.overflow_y)->Some_0,
        spec_style_codes_valid(c) ==> spec_style_from_c(c).align_items == spec_align_items_from_code(c.align_items)->Some_0,
        spec_style_codes_valid(c) ==> spec_style_from_c(c).align_self == spec_align_items_from_code(c.align_self)->Some_0,
        spec_style_codes_valid(c) ==> spec_style_from_c(c).justify_items == spec_align_items_from_code(c.justify_items)->Some_0,
        spec_style_codes_valid(c) ==> spec_style_from_c(c).justify_self == spec_align_items_from_code(c.justify_self)->Some_0,
        spec_style_codes_valid(c) ==> spec_style_from_c(c).align_content == spec_align_content_from_code(c.align_content)->Some_0,
        spec_style_codes_valid(c) ==> spec_style_from_c(c).justify_content == spec_align_content_from_code(c.justify_content)->Some_0,
        spec_style_from_c(c).scrollbar_width == c.scrollbar_width,
        spec_style_from_c(c).flex_grow == c.flex_grow,
        spec_style_from_c(c).flex_shrink == c.flex_shrink,
        c.flex_line_count >= 1 ==> spec_style_from_c(c).flex_line_count == c.flex_line_count,
        c.flex_line_count == 0 ==> spec_style_from_c(c).flex_line_count == 1,
        spec_is_nan_bits(c.aspect_ratio) ==> spec_style_from_c(c).aspect_ratio is None,
        !spec_is_nan_bits(c.aspect_ratio) ==> spec_style_from_c(c).aspect_ratio == Some(c.aspect_ratio),
        spec_style_from_c(c).inset.left == spec_dim_to_length_percentage_auto(c.inset[0]),
        spec_style_from_c(c).inset.right == spec_dim_to_length_percentage_auto(c.inset[1]),
        spec_style_from_c(c).inset.top == spec_dim_to_length_percentage_auto(c.inset[2]),
        spec_style_from_c(c).inset.bottom == spec_dim_to_length_percentage_auto(c.inset[3]),
        spec_style_from_c(c).margin.left == spec_dim_to_length_percentage_auto(c.margin[0]),
        spec_style_from_c(c).margin.right == spec_dim_to_length_percentage_auto(c.margin[1]),
        spec_style_from_c(c).margin.top == spec_dim_to_length_percentage_auto(c.margin[2]),
        spec_style_from_c(c).margin.bottom == spec_dim_to_length_percentage_auto(c.margin[3]),
        spec_style_from_c(c).padding.left == spec_dim_to_length_percentage(c.padding[0]),
        spec_style_from_c(c).padding.right == spec_dim_to_length_percentage(c.padding[1]),
        spec_style_from_c(c).padding.top == spec_dim_to_length_percentage(c.padding[2]),
        spec_style_from_c(c).padding.bottom == spec_dim_to_length_percentage(c.padding[3]),
        spec_style_from_c(c).border.left == spec_dim_to_length_percentage(c.border[0]),
        spec_style_from_c(c).border.right == spec_dim_to_length_percentage(c.border[1]),
        spec_style_from_c(c).border.top == spec_dim_to_length_percentage(c.border[2]),
        spec_style_from_c(c).border.bottom == spec_dim_to_length_percentage(c.border[3]),
        spec_style_from_c(c).size.width == spec_dim_to_dimension(c.size[0]),
        spec_style_from_c(c).size.height == spec_dim_to_dimension(c.size[1]),
        spec_style_from_c(c).min_size.width == spec_dim_to_length_percentage_auto(c.min_size[0]),
        spec_style_from_c(c).min_size.height == spec_dim_to_length_percentage_auto(c.min_size[1]),
        spec_style_from_c(c).max_size.width == spec_dim_to_length_percentage_auto(c.max_size[0]),
        spec_style_from_c(c).max_size.height == spec_dim_to_length_percentage_auto(c.max_size[1]),
        spec_style_from_c(c).gap.width == spec_dim_to_length_percentage(c.gap[0]),
        spec_style_from_c(c).gap.height == spec_dim_to_length_percentage(c.gap[1]),
        spec_style_from_c(c).flex_basis == spec_dim_to_dimension(c.flex_basis),
{
}

/// Encoding a style writes each property into the C field of the same name
/// with that property's own encoder, edges in the order `[left, right, top,
/// bottom]` and sizes as `[width, height]`; no aspect ratio is written as NaN.
pub proof fn law_style_to_c_fields(s: LayoutStyle)
    ensures
        spec_style_to_c(s).display == spec_display_code(s.display),
        spec_style_to_c(s).box_sizing == spec_box_sizing_code(s.box_sizing),
        spec_style_to_c(s).position_type == spec_position_code(s.position),
        spec_style_to_c(s).direction == spec_direction_code(s.direction),
        spec_style_to_c(s).flex_direction == spec_flex_direction_code(s.flex_direction),
        spec_style_to_c(s).flex_wrap == spec_flex_wrap_code(s.flex_wrap),
        spec_style_to_c(s).overflow_x == spec_overflow_code(s.overflow_x),
        spec_style_to_c(s).overflow_y == spec_overflow_code(s.overflow_y),
        spec_style_to_c(s).align_items == spec_align_items_code(s.align_items),
        spec_style_to_c(s).align_self == spec_align_items_code(s.align_self),
        spec_style_to_c(s).justify_items == spec_align_items_code(s.justify_items),
        spec_style_to_c(s).justify_self == spec_align_items_code(s.justify_self),
        spec_style_to_c(s).align_content == spec_align_content_code(s.align_content),
        spec_style_to_c(s).justify_content == spec_align_content_code(s.justify_content),
        spec_style_to_c(s).scrollbar_width == s.scrollbar_width,
        spec_style_to_c(s).flex_grow == s.flex_grow,
        spec_style_to_c(s).flex_shrink == s.flex_shrink,
        spec_style_to_c(s).flex_line_count == s.flex_line_count,
        s.aspect_ratio is None ==> spec_style_to_c(s).aspect_ratio == NAN_BITS,
        s.aspect_ratio is Some ==> spec_style_to_c(s).aspect_ratio == s.aspect_ratio->Some_0,
        spec_style_to_c(s).inset[0] == spec_length_percentage_auto_to_c(s.inset.left),
        spec_style_to_c(s).inset[1] == spec_length_percentage_auto_to_c(s.inset.right),
        spec_style_to_c(s).inset[2] == spec_length_percentage_auto_to_c(s.inset.top),
        spec_style_to_c(s).inset[3] == spec_length_percentage_auto_to_c(s.inset.bottom),
        spec_style_to_c(s).margin[0] == spec_length_percentage_auto_to_c(s.margin.left),
        spec_style_to_c(s).margin[1] == spec_length_percentage_auto_to_c(s.margin.right),
        spec_style_to_c(s).margin[2] == spec_length_percentage_auto_to_c(s.margin.top),
        spec_style_to_c(s).margin[3] == spec_length_percentage_auto_to_c(s.margin.bottom),
        spec_style_to_c(s).padding[0] == spec_length_percentage_to_c(s.padding.left),
        spec_style_to_c(s).padding[1] == spec_length_percentage_to_c(s.padding.right),
        spec_style_to_c(s).padding[2] == spec_length_percentage_to_c(s.padding.top),
        spec_style_to_c(s).padding[3] == spec_length_percentage_to_c(s.padding.bottom),
        spec_style_to_c(s).border[0] == spec_length_percentage_to_c(s.border.left),
        spec_style_to_c(s).border[1] == spec_length_percentage_to_c(s.border.right),
        spec_style_to_c(s).border[2] == spec_length_percentage_to_c(s.border.top),
        spec_style_to_c(s).border[3] == spec_length_percentage_to_c(s.border.bottom),
        spec_style_to_c(s).size[0] == spec_dimension_to_c(s.size.width),
        spec_style_to_c(s).size[1] == spec_dimension_to_c(s.size.height),
        spec_style_to_c(s).min_size[0] == spec_length_percentage_auto_to_c(s.min_size.width),
        spec_style_to_c(s).min_size[1] == spec_length_percentage_auto_to_c(s.min_size.height),
        spec_style_to_c(s).max_size[0] == spec_length_percentage_auto_to_c(s.max_size.width),
        spec_style_to_c(s).max_size[1] == spec_length_percentage_auto_to_c(s.max_size.height),
        spec_style_to_c(s).gap[0] == spec_length_percentage_to_c(s.gap.width),
        spec_style_to_c(s).gap[1] == spec_length_percentage_to_c(s.gap.height),
        spec_style_to_c(s).flex_basis == spec_dimension_to_c(s.flex_basis),
{
}

/// The status codes and discriminators are the numbers of the C header
/// (`taffy.h`), which C callers compile against.
pub proof fn law_header_values()
    ensures
        TAFFY_OK == 0u32,
        TAFFY_ERR_NULL_POINTER == 1u32,
        TAFFY_ERR_INVALID_NODE == 2u32,
        TAFFY_ERR_INDEX_OUT_OF_BOUNDS == 3u32,
        TAFFY_ERR_BUFFER_TOO_SMALL == 4u32,
        TAFFY_ERR_INVALID_ARGUMENT == 5u32,
        TAFFY_ERR_NO_PARENT == 6u32,
        TAFFY_ERR_UNKNOWN == 99u32,
        TAFFY_DISPLAY_NONE == 0u8,
        TAFFY_DISPLAY_FLEX == 1u8,
        TAFFY_DISPLAY_BLOCK == 2u8,
        TAFFY_DISPLAY_FLOW_ROOT == 3u8,
        TAFFY_DISPLAY_GRID == 4u8,
        TAFFY_POSITION_RELATIVE == 0u8,
        TAFFY_POSITION_ABSOLUTE == 1u8,
        TAFFY_DIRECTION_LTR == 0u8,
        TAFFY_DIRECTION_RTL == 1u8,
        TAFFY_FLEX_DIRECTION_ROW == 0u8,
        TAFFY_FLEX_DIRECTION_COLUMN == 1u8,
        TAFFY_FLEX_DIRECTION_ROW_REVERSE == 2u8,
        TAFFY_FLEX_DIRECTION_COLUMN_REVERSE == 3u8,
        TAFFY_FLEX_WRAP_NO_WRAP == 0u8,
        TAFFY_FLEX_WRAP_WRAP == 1u8,
        TAFFY_FLEX_WRAP_WRAP_REVERSE == 2u8,
        TAFFY_FLEX_WRAP_BALANCE == 3u8,
        TAFFY_FLEX_WRAP_BALANCE_REVERSE == 4u8,
        TAFFY_OVERFLOW_VISIBLE == 0u8,
        TAFFY_OVERFLOW_CLIP == 1u8,
        TAFFY_OVERFLOW_HIDDEN == 2u8,
        TAFFY_OVERFLOW_SCROLL == 3u8,
        TAFFY_BOX_SIZING_BORDER_BOX == 0u8,
        TAFFY_BOX_SIZING_CONTENT_BOX == 1u8,
        TAFFY_DIM_AUTO == 0u8,
        TAFFY_DIM_LENGTH == 1u8,
        TAFFY_DIM_PERCENT == 2u8,
        TAFFY_DIM_MIN_CONTENT == 3u8,
        TAFFY_DIM_MAX_CONTENT == 4u8,
        TAFFY_DIM_FIT_CONTENT_LENGTH == 5u8,
        TAFFY_DIM_FIT_CONTENT_PERCENT == 6u8,
        TAFFY_DIM_STRETCH == 7u8,
        TAFFY_DIM_FIT_CONTENT == 8u8,
        TAFFY_ALIGN_AUTO == 0u8,
        TAFFY_ALIGN_START == 1u8,
        TAFFY_ALIGN_END == 2u8,
        TAFFY_ALIGN_FLEX_START == 3u8,
        TAFFY_ALIGN_FLEX_END == 4u8,
        TAFFY_ALIGN_SELF_START == 5u8,
        TAFFY_ALIGN_SELF_END == 6u8,
        TAFFY_ALIGN_CENTER == 7u8,
        TAFFY_ALIGN_BASELINE == 8u8,
        TAFFY_ALIGN_STRETCH == 9u8,
        TAFFY_ALIGN_SAFE_START == 10u8,
        TAFFY_ALIGN_SAFE_END == 11u8,
        TAFFY_ALIGN_SAFE_FLEX_START == 12u8,
        TAFFY_ALIGN_SAFE_FLEX_END == 13u8,
        TAFFY_ALIGN_SAFE_SELF_START == 14u8,
        TAFFY_ALIGN_SAFE_SELF_END == 15u8,
        TAFFY_ALIGN_SAFE_CENTER == 16u8,
        TAFFY_CONTENT_ALIGN_AUTO == 0u8,
        TAFFY_CONTENT_ALIGN_START == 1u8,
        TAFFY_CONTENT_ALIGN_END == 2u8,
        TAFFY_CONTENT_ALIGN_FLEX_START == 3u8,
        TAFFY_CONTENT_ALIGN_FLEX_END == 4u8,
        TAFFY_CONTENT_ALIGN_CENTER == 5u8,
        TAFFY_CONTENT_ALIGN_STRETCH == 6u8,
        TAFFY_CONTENT_ALIGN_SPACE_BETWEEN == 7u8,
        TAFFY_CONTENT_ALIGN_SPACE_EVENLY == 8u8,
        TAFFY_CONTENT_ALIGN_SPACE_AROUND == 9u8,
        TAFFY_CONTENT_ALIGN_SAFE_START == 10u8,
        TAFFY_CONTENT_ALIGN_SAFE_END == 11u8,
        TAFFY_CONTENT_ALIGN_SAFE_FLEX_START == 12u8,
        TAFFY_CONTENT_ALIGN_SAFE_FLEX_END == 13u8,
        TAFFY_CONTENT_ALIGN_SAFE_CENTER == 14u8,
        TAFFY_AVAILABLE_DEFINITE == 0u8,
        TAFFY_AVAILABLE_MIN_CONTENT == 1u8,
        TAFFY_AVAILABLE_MAX_CONTENT == 2u8,
{
}

} // verus!

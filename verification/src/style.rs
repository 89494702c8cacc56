//! The style record that crosses the C interface, its decoding into the
//! values a taffy style is made of, and its encoding back.
//!
//! Floating-point fields travel as their IEEE 754 bit patterns (`u32`): this
//! module reads and writes them without arithmetic; the C side converts.

use vstd::prelude::*;
use crate::codes::{
    TAFFY_ALIGN_AUTO, TAFFY_ALIGN_BASELINE, TAFFY_ALIGN_CENTER, TAFFY_ALIGN_END, TAFFY_ALIGN_FLEX_END,
    TAFFY_ALIGN_FLEX_START, TAFFY_ALIGN_SAFE_CENTER, TAFFY_ALIGN_SAFE_END, TAFFY_ALIGN_SAFE_FLEX_END,
    TAFFY_ALIGN_SAFE_FLEX_START, TAFFY_ALIGN_SAFE_SELF_END, TAFFY_ALIGN_SAFE_SELF_START,
    TAFFY_ALIGN_SAFE_START, TAFFY_ALIGN_SELF_END, TAFFY_ALIGN_SELF_START, TAFFY_ALIGN_START,
    TAFFY_ALIGN_STRETCH, TAFFY_AVAILABLE_DEFINITE, TAFFY_AVAILABLE_MAX_CONTENT, TAFFY_AVAILABLE_MIN_CONTENT,
    TAFFY_BOX_SIZING_BORDER_BOX, TAFFY_BOX_SIZING_CONTENT_BOX, TAFFY_CONTENT_ALIGN_AUTO,
    TAFFY_CONTENT_ALIGN_CENTER, TAFFY_CONTENT_ALIGN_END, TAFFY_CONTENT_ALIGN_FLEX_END,
    TAFFY_CONTENT_ALIGN_FLEX_START, TAFFY_CONTENT_ALIGN_SAFE_CENTER, TAFFY_CONTENT_ALIGN_SAFE_END,
    TAFFY_CONTENT_ALIGN_SAFE_FLEX_END, TAFFY_CONTENT_ALIGN_SAFE_FLEX_START, TAFFY_CONTENT_ALIGN_SAFE_START,
    TAFFY_CONTENT_ALIGN_SPACE_AROUND, TAFFY_CONTENT_ALIGN_SPACE_BETWEEN, TAFFY_CONTENT_ALIGN_SPACE_EVENLY,
    TAFFY_CONTENT_ALIGN_START, TAFFY_CONTENT_ALIGN_STRETCH, TAFFY_DIM_AUTO, TAFFY_DIM_FIT_CONTENT,
    TAFFY_DIM_FIT_CONTENT_LENGTH, TAFFY_DIM_FIT_CONTENT_PERCENT, TAFFY_DIM_LENGTH, TAFFY_DIM_MAX_CONTENT,
    TAFFY_DIM_MIN_CONTENT, TAFFY_DIM_PERCENT, TAFFY_DIM_STRETCH, TAFFY_DIRECTION_LTR, TAFFY_DIRECTION_RTL,
    TAFFY_DISPLAY_BLOCK, TAFFY_DISPLAY_FLEX, TAFFY_DISPLAY_FLOW_ROOT, TAFFY_DISPLAY_GRID, TAFFY_DISPLAY_NONE,
    TAFFY_ERR_INVALID_ARGUMENT, TAFFY_FLEX_DIRECTION_COLUMN, TAFFY_FLEX_DIRECTION_COLUMN_REVERSE,
    TAFFY_FLEX_DIRECTION_ROW, TAFFY_FLEX_DIRECTION_ROW_REVERSE, TAFFY_FLEX_WRAP_BALANCE,
    TAFFY_FLEX_WRAP_BALANCE_REVERSE, TAFFY_FLEX_WRAP_NO_WRAP, TAFFY_FLEX_WRAP_WRAP,
    TAFFY_FLEX_WRAP_WRAP_REVERSE, TAFFY_OVERFLOW_CLIP, TAFFY_OVERFLOW_HIDDEN, TAFFY_OVERFLOW_SCROLL,
    TAFFY_OVERFLOW_VISIBLE, TAFFY_POSITION_ABSOLUTE, TAFFY_POSITION_RELATIVE,
};

verus! {

/// Error produced while converting an ABI style: the status code to report.
#[derive(Clone, Copy, Debug, PartialEq, Eq)]
pub struct ConvertError(pub u32);

/// The keywords of `align-items` / `align-self` / `justify-items` /
/// `justify-self`.
#[derive(Clone, Copy, Debug, PartialEq, Eq)]
pub enum AlignItemsKeyword {
    Start,
    End,
    FlexStart,
    FlexEnd,
    SelfStart,
    SelfEnd,
    Center,
    Baseline,
    Stretch,
}

/// The keywords of `align-content` / `justify-content`.
#[derive(Clone, Copy, Debug, PartialEq, Eq)]
pub enum AlignContentKeyword {
    Start,
    End,
    FlexStart,
    FlexEnd,
    Center,
    Stretch,
    SpaceBetween,
    SpaceEvenly,
    SpaceAround,
}

/// The overflow-position modifier of an alignment (`safe` / `unsafe`).
#[derive(Clone, Copy, Debug, PartialEq, Eq)]
pub enum AlignmentSafety {
    Unsafe,
    Safe,
}

/// An item alignment: a keyword and its overflow-position modifier.
#[derive(Clone, Copy, Debug, PartialEq, Eq)]
pub struct AlignItems {
    pub keyword: AlignItemsKeyword,
    pub safety: AlignmentSafety,
}

/// A content alignment: a keyword and its overflow-position modifier.
#[derive(Clone, Copy, Debug, PartialEq, Eq)]
pub struct AlignContent {
    pub keyword: AlignContentKeyword,
    pub safety: AlignmentSafety,
}

/// A size (`size`, `flex-basis`). Numbers are `f32` bit patterns. `Content`
/// and `Calc` are values taffy can hold that the C interface has no code for.
#[derive(Clone, Copy, Debug, PartialEq, Eq)]
pub enum Dimension {
    Length(u32),
    Percent(u32),
    Auto,
    MinContent,
    MaxContent,
    FitContentPx(u32),
    FitContentPercent(u32),
    FitContent,
    Stretch,
    Content,
    Calc,
}

/// A length, a percentage or `auto` (`inset`, `margin`, `min-size`,
/// `max-size`). Numbers are `f32` bit patterns.
#[derive(Clone, Copy, Debug, PartialEq, Eq)]
pub enum LengthPercentageAuto {
    Length(u32),
    Percent(u32),
    Auto,
    Calc,
}

/// A length or a percentage (`padding`, `border`, `gap`). Numbers are `f32`
/// bit patterns.
#[derive(Clone, Copy, Debug, PartialEq, Eq)]
pub enum LengthPercentage {
    Length(u32),
    Percent(u32),
    Calc,
}

/// The space a layout may take along one axis. The number is an `f32` bit
/// pattern.
#[derive(Clone, Copy, Debug, PartialEq, Eq)]
pub enum AvailableSpaceValue {
    Definite(u32),
    MinContent,
    MaxContent,
}

/// The bit pattern of the `f32` zero.
pub const ZERO_BITS: u32 = 0;

/// The bit pattern of the quiet NaN that stands for "no aspect ratio".
pub const NAN_BITS: u32 = 0x7fc0_0000;

/// Whether `bits` is the bit pattern of a NaN: all exponent bits set and a
/// fraction that is not zero (IEEE 754 binary32).
pub open spec fn spec_is_nan_bits(bits: u32) -> bool {
    (bits & 0x7f80_0000u32) == 0x7f80_0000u32 && (bits & 0x007f_ffffu32) != 0u32
}

/// Whether `bits` is the bit pattern of a NaN.
pub fn is_nan_bits(bits: u32) -> (nan: bool)
    ensures
        nan == spec_is_nan_bits(bits),
{
    (bits & 0x7f80_0000u32) == 0x7f80_0000u32 && (bits & 0x007f_ffffu32) != 0u32
}

/// The C form of a length value (`taffy_dim_t`): one of the `TAFFY_DIM_*`
/// codes and an `f32` carried as its bit pattern.
#[derive(Clone, Copy, Debug, PartialEq, Eq)]
pub struct CTaffyDim {
    pub dim_type: u8,
    pub value: u32,
}

/// The C form of an available space (`taffy_available_space_t`): one of the
/// `TAFFY_AVAILABLE_*` codes and an `f32` carried as its bit pattern.
#[derive(Clone, Copy, Debug, PartialEq, Eq)]
pub struct CTaffyAvailableSpace {
    pub space_type: u8,
    pub value: u32,
}

/// The `Dimension` a C dim stands for. Every sizing keyword has a code; an
/// unknown code is `auto`.
pub open spec fn spec_dim_to_dimension(d: CTaffyDim) -> Dimension {
    if d.dim_type == TAFFY_DIM_LENGTH {
        Dimension::Length(d.value)
    } else if d.dim_type == TAFFY_DIM_PERCENT {
        Dimension::Percent(d.value)
    } else if d.dim_type == TAFFY_DIM_MIN_CONTENT {
        Dimension::MinContent
    } else if d.dim_type == TAFFY_DIM_MAX_CONTENT {
        Dimension::MaxContent
    } else if d.dim_type == TAFFY_DIM_FIT_CONTENT_LENGTH {
        Dimension::FitContentPx(d.value)
    } else if d.dim_type == TAFFY_DIM_FIT_CONTENT_PERCENT {
        Dimension::FitContentPercent(d.value)
    } else if d.dim_type == TAFFY_DIM_FIT_CONTENT {
        Dimension::FitContent
    } else if d.dim_type == TAFFY_DIM_STRETCH {
        Dimension::Stretch
    } else {
        Dimension::Auto
    }
}

/// ABI dim -> [`Dimension`] (used for `size` / `flex_basis`; all intrinsic
/// sizing keywords are supported, any other code is `auto`).
pub fn dim_to_dimension(d: CTaffyDim) -> (r: Dimension)
    ensures
        r == spec_dim_to_dimension(d),
{
    if d.dim_type == TAFFY_DIM_LENGTH {
        Dimension::Length(d.value)
    } else if d.dim_type == TAFFY_DIM_PERCENT {
        Dimension::Percent(d.value)
    } else if d.dim_type == TAFFY_DIM_MIN_CONTENT {
        Dimension::MinContent
    } else if d.dim_type == TAFFY_DIM_MAX_CONTENT {
        Dimension::MaxContent
    } else if d.dim_type == TAFFY_DIM_FIT_CONTENT_LENGTH {
        Dimension::FitContentPx(d.value)
    } else if d.dim_type == TAFFY_DIM_FIT_CONTENT_PERCENT {
        Dimension::FitContentPercent(d.value)
    } else if d.dim_type == TAFFY_DIM_FIT_CONTENT {
        Dimension::FitContent
    } else if d.dim_type == TAFFY_DIM_STRETCH {
        Dimension::Stretch
    } else {
        Dimension::Auto
    }
}

/// The `LengthPercentageAuto` a C dim stands for: a length, a percentage, or
/// `auto` for any other code (sizing keywords other than `auto` are not legal
/// here).
pub open spec fn spec_dim_to_length_percentage_auto(d: CTaffyDim) -> LengthPercentageAuto {
    if d.dim_type == TAFFY_DIM_LENGTH {
        LengthPercentageAuto::Length(d.value)
    } else if d.dim_type == TAFFY_DIM_PERCENT {
        LengthPercentageAuto::Percent(d.value)
    } else {
        LengthPercentageAuto::Auto
    }
}

/// ABI dim -> [`LengthPercentageAuto`] (used for `inset` / `margin` /
/// `min_size` / `max_size`).
pub fn dim_to_length_percentage_auto(d: CTaffyDim) -> (r: LengthPercentageAuto)
    ensures
        r == spec_dim_to_length_percentage_auto(d),
{
    if d.dim_type == TAFFY_DIM_LENGTH {
        LengthPercentageAuto::Length(d.value)
    } else if d.dim_type == TAFFY_DIM_PERCENT {
        LengthPercentageAuto::Percent(d.value)
    } else {
        LengthPercentageAuto::Auto
    }
}

/// The `LengthPercentage` a C dim stands for: a length, a percentage, or a
/// zero length for any other code (these properties take neither `auto` nor a
/// sizing keyword).
pub open spec fn spec_dim_to_length_percentage(d: CTaffyDim) -> LengthPercentage {
    if d.dim_type == TAFFY_DIM_LENGTH {
        LengthPercentage::Length(d.value)
    } else if d.dim_type == TAFFY_DIM_PERCENT {
        LengthPercentage::Percent(d.value)
    } else {
        LengthPercentage::Length(ZERO_BITS)
    }
}

/// ABI dim -> [`LengthPercentage`] (used for `padding` / `border` / `gap`).
pub fn dim_to_length_percentage(d: CTaffyDim) -> (r: LengthPercentage)
    ensures
        r == spec_dim_to_length_percentage(d),
{
    if d.dim_type == TAFFY_DIM_LENGTH {
        LengthPercentage::Length(d.value)
    } else if d.dim_type == TAFFY_DIM_PERCENT {
        LengthPercentage::Percent(d.value)
    } else {
        LengthPercentage::Length(ZERO_BITS)
    }
}

/// The C dim of a `Dimension`; a value without a code is `auto`, and a
/// keyword carries a zero number.
pub open spec fn spec_dimension_to_c(d: Dimension) -> CTaffyDim {
    match d {
        Dimension::Length(v) => CTaffyDim { dim_type: TAFFY_DIM_LENGTH, value: v },
        Dimension::Percent(v) => CTaffyDim { dim_type: TAFFY_DIM_PERCENT, value: v },
        Dimension::MinContent => CTaffyDim { dim_type: TAFFY_DIM_MIN_CONTENT, value: ZERO_BITS },
        Dimension::MaxContent => CTaffyDim { dim_type: TAFFY_DIM_MAX_CONTENT, value: ZERO_BITS },
        Dimension::FitContentPx(v) => CTaffyDim { dim_type: TAFFY_DIM_FIT_CONTENT_LENGTH, value: v },
        Dimension::FitContentPercent(v) => CTaffyDim { dim_type: TAFFY_DIM_FIT_CONTENT_PERCENT, value: v },
        Dimension::FitContent => CTaffyDim { dim_type: TAFFY_DIM_FIT_CONTENT, value: ZERO_BITS },
        Dimension::Stretch => CTaffyDim { dim_type: TAFFY_DIM_STRETCH, value: ZERO_BITS },
        Dimension::Auto | Dimension::Content | Dimension::Calc => CTaffyDim { dim_type: TAFFY_DIM_AUTO, value: ZERO_BITS },
    }
}

/// The C dim of a `Dimension`.
pub fn dimension_to_c(d: Dimension) -> (c: CTaffyDim)
    ensures
        c == spec_dimension_to_c(d),
{
    match d {
        Dimension::Length(v) => CTaffyDim { dim_type: TAFFY_DIM_LENGTH, value: v },
        Dimension::Percent(v) => CTaffyDim { dim_type: TAFFY_DIM_PERCENT, value: v },
        Dimension::MinContent => CTaffyDim { dim_type: TAFFY_DIM_MIN_CONTENT, value: ZERO_BITS },
        Dimension::MaxContent => CTaffyDim { dim_type: TAFFY_DIM_MAX_CONTENT, value: ZERO_BITS },
        Dimension::FitContentPx(v) => CTaffyDim { dim_type: TAFFY_DIM_FIT_CONTENT_LENGTH, value: v },
        Dimension::FitContentPercent(v) => CTaffyDim { dim_type: TAFFY_DIM_FIT_CONTENT_PERCENT, value: v },
        Dimension::FitContent => CTaffyDim { dim_type: TAFFY_DIM_FIT_CONTENT, value: ZERO_BITS },
        Dimension::Stretch => CTaffyDim { dim_type: TAFFY_DIM_STRETCH, value: ZERO_BITS },
        Dimension::Auto | Dimension::Content | Dimension::Calc => CTaffyDim { dim_type: TAFFY_DIM_AUTO, value: ZERO_BITS },
    }
}

/// The C dim of a `LengthPercentageAuto`; `calc()` has no code and is `auto`.
pub open spec fn spec_length_percentage_auto_to_c(d: LengthPercentageAuto) -> CTaffyDim {
    match d {
        LengthPercentageAuto::Length(v) => CTaffyDim { dim_type: TAFFY_DIM_LENGTH, value: v },
        LengthPercentageAuto::Percent(v) => CTaffyDim { dim_type: TAFFY_DIM_PERCENT, value: v },
        LengthPercentageAuto::Auto | LengthPercentageAuto::Calc => CTaffyDim { dim_type: TAFFY_DIM_AUTO, value: ZERO_BITS },
    }
}

/// The C dim of a `LengthPercentageAuto`.
pub fn length_percentage_auto_to_c(d: LengthPercentageAuto) -> (c: CTaffyDim)
    ensures
        c == spec_length_percentage_auto_to_c(d),
{
    match d {
        LengthPercentageAuto::Length(v) => CTaffyDim { dim_type: TAFFY_DIM_LENGTH, value: v },
        LengthPercentageAuto::Percent(v) => CTaffyDim { dim_type: TAFFY_DIM_PERCENT, value: v },
        LengthPercentageAuto::Auto | LengthPercentageAuto::Calc => CTaffyDim { dim_type: TAFFY_DIM_AUTO, value: ZERO_BITS },
    }
}

/// The C dim of a `LengthPercentage`; `calc()` has no code and is `auto`.
pub open spec fn spec_length_percentage_to_c(d: LengthPercentage) -> CTaffyDim {
    match d {
        LengthPercentage::Length(v) => CTaffyDim { dim_type: TAFFY_DIM_LENGTH, value: v },
        LengthPercentage::Percent(v) => CTaffyDim { dim_type: TAFFY_DIM_PERCENT, value: v },
        LengthPercentage::Calc => CTaffyDim { dim_type: TAFFY_DIM_AUTO, value: ZERO_BITS },
    }
}

/// The C dim of a `LengthPercentage`.
pub fn length_percentage_to_c(d: LengthPercentage) -> (c: CTaffyDim)
    ensures
        c == spec_length_percentage_to_c(d),
{
    match d {
        LengthPercentage::Length(v) => CTaffyDim { dim_type: TAFFY_DIM_LENGTH, value: v },
        LengthPercentage::Percent(v) => CTaffyDim { dim_type: TAFFY_DIM_PERCENT, value: v },
        LengthPercentage::Calc => CTaffyDim { dim_type: TAFFY_DIM_AUTO, value: ZERO_BITS },
    }
}

/// The `AvailableSpaceValue` a C available space stands for: min- or max-content
/// by code, a definite size for any other code.
pub open spec fn spec_map_available_space(s: CTaffyAvailableSpace) -> AvailableSpaceValue {
    if s.space_type == TAFFY_AVAILABLE_MIN_CONTENT {
        AvailableSpaceValue::MinContent
    } else if s.space_type == TAFFY_AVAILABLE_MAX_CONTENT {
        AvailableSpaceValue::MaxContent
    } else {
        AvailableSpaceValue::Definite(s.value)
    }
}

/// Decodes a C available space.
pub fn map_available_space(s: CTaffyAvailableSpace) -> (r: AvailableSpaceValue)
    ensures
        r == spec_map_available_space(s),
{
    if s.space_type == TAFFY_AVAILABLE_MIN_CONTENT {
        AvailableSpaceValue::MinContent
    } else if s.space_type == TAFFY_AVAILABLE_MAX_CONTENT {
        AvailableSpaceValue::MaxContent
    } else {
        AvailableSpaceValue::Definite(s.value)
    }
}

/// The C form of an available space; a keyword carries a zero number.
pub open spec fn spec_available_space_to_c(s: AvailableSpaceValue) -> CTaffyAvailableSpace {
    match s {
        AvailableSpaceValue::Definite(v) => CTaffyAvailableSpace { space_type: TAFFY_AVAILABLE_DEFINITE, value: v },
        AvailableSpaceValue::MinContent => CTaffyAvailableSpace { space_type: TAFFY_AVAILABLE_MIN_CONTENT, value: ZERO_BITS },
        AvailableSpaceValue::MaxContent => CTaffyAvailableSpace { space_type: TAFFY_AVAILABLE_MAX_CONTENT, value: ZERO_BITS },
    }
}

/// Encodes an available space.
pub fn available_space_to_c(s: AvailableSpaceValue) -> (c: CTaffyAvailableSpace)
    ensures
        c == spec_available_space_to_c(s),
{
    match s {
        AvailableSpaceValue::Definite(v) => CTaffyAvailableSpace { space_type: TAFFY_AVAILABLE_DEFINITE, value: v },
        AvailableSpaceValue::MinContent => CTaffyAvailableSpace { space_type: TAFFY_AVAILABLE_MIN_CONTENT, value: ZERO_BITS },
        AvailableSpaceValue::MaxContent => CTaffyAvailableSpace { space_type: TAFFY_AVAILABLE_MAX_CONTENT, value: ZERO_BITS },
    }
}

/// Decoding an encoded available space gives it back.
pub proof fn lemma_available_space_round_trip(s: AvailableSpaceValue)
    ensures
        spec_map_available_space(spec_available_space_to_c(s)) == s,
{
}

/// How a node lays out its children (`display`).
#[derive(Clone, Copy, Debug, PartialEq, Eq)]
pub enum Display {
    /// CSS `display: none`: the node and its subtree take no part in layout.
    NoBox,
    Flex,
    Block,
    FlowRoot,
    Grid,
}

/// The `Display` that a discriminator stands for, if any.
pub open spec fn spec_display_from_code(v: u8) -> Option<Display> {
    if v == TAFFY_DISPLAY_NONE {
        Some(Display::NoBox)
    } else if v == TAFFY_DISPLAY_FLEX {
        Some(Display::Flex)
    } else if v == TAFFY_DISPLAY_BLOCK {
        Some(Display::Block)
    } else if v == TAFFY_DISPLAY_FLOW_ROOT {
        Some(Display::FlowRoot)
    } else if v == TAFFY_DISPLAY_GRID {
        Some(Display::Grid)
    } else {
        None
    }
}

/// The discriminator of a `Display`.
pub open spec fn spec_display_code(x: Display) -> u8 {
    match x {
        Display::NoBox => TAFFY_DISPLAY_NONE,
        Display::Flex => TAFFY_DISPLAY_FLEX,
        Display::Block => TAFFY_DISPLAY_BLOCK,
        Display::FlowRoot => TAFFY_DISPLAY_FLOW_ROOT,
        Display::Grid => TAFFY_DISPLAY_GRID,
    }
}

/// Decodes a `Display` discriminator; an unknown one is `TAFFY_ERR_INVALID_ARGUMENT`.
pub fn map_display(v: u8) -> (res: Result<Display, ConvertError>)
    ensures
        res is Ok <==> spec_display_from_code(v) is Some,
        res is Ok ==> res->Ok_0 == spec_display_from_code(v)->Some_0,
        res is Err ==> res->Err_0 == ConvertError(TAFFY_ERR_INVALID_ARGUMENT),
{
    if v == TAFFY_DISPLAY_NONE {
        Ok(Display::NoBox)
    } else if v == TAFFY_DISPLAY_FLEX {
        Ok(Display::Flex)
    } else if v == TAFFY_DISPLAY_BLOCK {
        Ok(Display::Block)
    } else if v == TAFFY_DISPLAY_FLOW_ROOT {
        Ok(Display::FlowRoot)
    } else if v == TAFFY_DISPLAY_GRID {
        Ok(Display::Grid)
    } else {
        Err(ConvertError(TAFFY_ERR_INVALID_ARGUMENT))
    }
}

/// The discriminator of a `Display`.
pub fn display_to_c(x: Display) -> (v: u8)
    ensures
        v == spec_display_code(x),
{
    match x {
        Display::NoBox => TAFFY_DISPLAY_NONE,
        Display::Flex => TAFFY_DISPLAY_FLEX,
        Display::Block => TAFFY_DISPLAY_BLOCK,
        Display::FlowRoot => TAFFY_DISPLAY_FLOW_ROOT,
        Display::Grid => TAFFY_DISPLAY_GRID,
    }
}

/// Decoding undoes encoding, and a discriminator that decodes is the code of
/// what it decodes to.
pub proof fn lemma_display_codes(x: Display, v: u8)
    ensures
        spec_display_from_code(spec_display_code(x)) == Some(x),
        spec_display_from_code(v) is Some ==> spec_display_code(spec_display_from_code(v)->Some_0) == v,
{
}

/// How a node is positioned (`position`).
#[derive(Clone, Copy, Debug, PartialEq, Eq)]
pub enum Position {
    Relative,
    Absolute,
}

/// The `Position` that a discriminator stands for, if any.
pub open spec fn spec_position_from_code(v: u8) -> Option<Position> {
    if v == TAFFY_POSITION_RELATIVE {
        Some(Position::Relative)
    } else if v == TAFFY_POSITION_ABSOLUTE {
        Some(Position::Absolute)
    } else {
        None
    }
}

/// The discriminator of a `Position`.
pub open spec fn spec_position_code(x: Position) -> u8 {
    match x {
        Position::Relative => TAFFY_POSITION_RELATIVE,
        Position::Absolute => TAFFY_POSITION_ABSOLUTE,
    }
}

/// Decodes a `Position` discriminator; an unknown one is `TAFFY_ERR_INVALID_ARGUMENT`.
pub fn map_position(v: u8) -> (res: Result<Position, ConvertError>)
    ensures
        res is Ok <==> spec_position_from_code(v) is Some,
        res is Ok ==> res->Ok_0 == spec_position_from_code(v)->Some_0,
        res is Err ==> res->Err_0 == ConvertError(TAFFY_ERR_INVALID_ARGUMENT),
{
    if v == TAFFY_POSITION_RELATIVE {
        Ok(Position::Relative)
    } else if v == TAFFY_POSITION_ABSOLUTE {
        Ok(Position::Absolute)
    } else {
        Err(ConvertError(TAFFY_ERR_INVALID_ARGUMENT))
    }
}

/// The discriminator of a `Position`.
pub fn position_to_c(x: Position) -> (v: u8)
    ensures
        v == spec_position_code(x),
{
    match x {
        Position::Relative => TAFFY_POSITION_RELATIVE,
        Position::Absolute => TAFFY_POSITION_ABSOLUTE,
    }
}

/// Decoding undoes encoding, and a discriminator that decodes is the code of
/// what it decodes to.
pub proof fn lemma_position_codes(x: Position, v: u8)
    ensures
        spec_position_from_code(spec_position_code(x)) == Some(x),
        spec_position_from_code(v) is Some ==> spec_position_code(spec_position_from_code(v)->Some_0) == v,
{
}

/// The inline direction (`direction`).
#[derive(Clone, Copy, Debug, PartialEq, Eq)]
pub enum Direction {
    Ltr,
    Rtl,
}

/// The `Direction` that a discriminator stands for, if any.
pub open spec fn spec_direction_from_code(v: u8) -> Option<Direction> {
    if v == TAFFY_DIRECTION_LTR {
        Some(Direction::Ltr)
    } else if v == TAFFY_DIRECTION_RTL {
        Some(Direction::Rtl)
    } else {
        None
    }
}

/// The discriminator of a `Direction`.
pub open spec fn spec_direction_code(x: Direction) -> u8 {
    match x {
        Direction::Ltr => TAFFY_DIRECTION_LTR,
        Direction::Rtl => TAFFY_DIRECTION_RTL,
    }
}

/// Decodes a `Direction` discriminator; an unknown one is `TAFFY_ERR_INVALID_ARGUMENT`.
pub fn map_direction(v: u8) -> (res: Result<Direction, ConvertError>)
    ensures
        res is Ok <==> spec_direction_from_code(v) is Some,
        res is Ok ==> res->Ok_0 == spec_direction_from_code(v)->Some_0,
        res is Err ==> res->Err_0 == ConvertError(TAFFY_ERR_INVALID_ARGUMENT),
{
    if v == TAFFY_DIRECTION_LTR {
        Ok(Direction::Ltr)
    } else if v == TAFFY_DIRECTION_RTL {
        Ok(Direction::Rtl)
    } else {
        Err(ConvertError(TAFFY_ERR_INVALID_ARGUMENT))
    }
}

/// The discriminator of a `Direction`.
pub fn direction_to_c(x: Direction) -> (v: u8)
    ensures
        v == spec_direction_code(x),
{
    match x {
        Direction::Ltr => TAFFY_DIRECTION_LTR,
        Direction::Rtl => TAFFY_DIRECTION_RTL,
    }
}

/// Decoding undoes encoding, and a discriminator that decodes is the code of
/// what it decodes to.
pub proof fn lemma_direction_codes(x: Direction, v: u8)
    ensures
        spec_direction_from_code(spec_direction_code(x)) == Some(x),
        spec_direction_from_code(v) is Some ==> spec_direction_code(spec_direction_from_code(v)->Some_0) == v,
{
}

/// The main axis of a flex container (`flex-direction`).
#[derive(Clone, Copy, Debug, PartialEq, Eq)]
pub enum FlexDirection {
    Row,
    Column,
    RowReverse,
    ColumnReverse,
}

/// The `FlexDirection` that a discriminator stands for, if any.
pub open spec fn spec_flex_direction_from_code(v: u8) -> Option<FlexDirection> {
    if v == TAFFY_FLEX_DIRECTION_ROW {
        Some(FlexDirection::Row)
    } else if v == TAFFY_FLEX_DIRECTION_COLUMN {
        Some(FlexDirection::Column)
    } else if v == TAFFY_FLEX_DIRECTION_ROW_REVERSE {
        Some(FlexDirection::RowReverse)
    } else if v == TAFFY_FLEX_DIRECTION_COLUMN_REVERSE {
        Some(FlexDirection::ColumnReverse)
    } else {
        None
    }
}

/// The discriminator of a `FlexDirection`.
pub open spec fn spec_flex_direction_code(x: FlexDirection) -> u8 {
    match x {
        FlexDirection::Row => TAFFY_FLEX_DIRECTION_ROW,
        FlexDirection::Column => TAFFY_FLEX_DIRECTION_COLUMN,
        FlexDirection::RowReverse => TAFFY_FLEX_DIRECTION_ROW_REVERSE,
        FlexDirection::ColumnReverse => TAFFY_FLEX_DIRECTION_COLUMN_REVERSE,
    }
}

/// Decodes a `FlexDirection` discriminator; an unknown one is `TAFFY_ERR_INVALID_ARGUMENT`.
pub fn map_flex_direction(v: u8) -> (res: Result<FlexDirection, ConvertError>)
    ensures
        res is Ok <==> spec_flex_direction_from_code(v) is Some,
        res is Ok ==> res->Ok_0 == spec_flex_direction_from_code(v)->Some_0,
        res is Err ==> res->Err_0 == ConvertError(TAFFY_ERR_INVALID_ARGUMENT),
{
    if v == TAFFY_FLEX_DIRECTION_ROW {
        Ok(FlexDirection::Row)
    } else if v == TAFFY_FLEX_DIRECTION_COLUMN {
        Ok(FlexDirection::Column)
    } else if v == TAFFY_FLEX_DIRECTION_ROW_REVERSE {
        Ok(FlexDirection::RowReverse)
    } else if v == TAFFY_FLEX_DIRECTION_COLUMN_REVERSE {
        Ok(FlexDirection::ColumnReverse)
    } else {
        Err(ConvertError(TAFFY_ERR_INVALID_ARGUMENT))
    }
}

/// The discriminator of a `FlexDirection`.
pub fn flex_direction_to_c(x: FlexDirection) -> (v: u8)
    ensures
        v == spec_flex_direction_code(x),
{
    match x {
        FlexDirection::Row => TAFFY_FLEX_DIRECTION_ROW,
        FlexDirection::Column => TAFFY_FLEX_DIRECTION_COLUMN,
        FlexDirection::RowReverse => TAFFY_FLEX_DIRECTION_ROW_REVERSE,
        FlexDirection::ColumnReverse => TAFFY_FLEX_DIRECTION_COLUMN_REVERSE,
    }
}

/// Decoding undoes encoding, and a discriminator that decodes is the code of
/// what it decodes to.
pub proof fn lemma_flex_direction_codes(x: FlexDirection, v: u8)
    ensures
        spec_flex_direction_from_code(spec_flex_direction_code(x)) == Some(x),
        spec_flex_direction_from_code(v) is Some ==> spec_flex_direction_code(spec_flex_direction_from_code(v)->Some_0) == v,
{
}

/// Whether flex items wrap (`flex-wrap`).
#[derive(Clone, Copy, Debug, PartialEq, Eq)]
pub enum FlexWrap {
    NoWrap,
    Wrap,
    WrapReverse,
    Balance,
    BalanceReverse,
}

/// The `FlexWrap` that a discriminator stands for, if any.
pub open spec fn spec_flex_wrap_from_code(v: u8) -> Option<FlexWrap> {
    if v == TAFFY_FLEX_WRAP_NO_WRAP {
        Some(FlexWrap::NoWrap)
    } else if v == TAFFY_FLEX_WRAP_WRAP {
        Some(FlexWrap::Wrap)
    } else if v == TAFFY_FLEX_WRAP_WRAP_REVERSE {
        Some(FlexWrap::WrapReverse)
    } else if v == TAFFY_FLEX_WRAP_BALANCE {
        Some(FlexWrap::Balance)
    } else if v == TAFFY_FLEX_WRAP_BALANCE_REVERSE {
        Some(FlexWrap::BalanceReverse)
    } else {
        None
    }
}

/// The discriminator of a `FlexWrap`.
pub open spec fn spec_flex_wrap_code(x: FlexWrap) -> u8 {
    match x {
        FlexWrap::NoWrap => TAFFY_FLEX_WRAP_NO_WRAP,
        FlexWrap::Wrap => TAFFY_FLEX_WRAP_WRAP,
        FlexWrap::WrapReverse => TAFFY_FLEX_WRAP_WRAP_REVERSE,
        FlexWrap::Balance => TAFFY_FLEX_WRAP_BALANCE,
        FlexWrap::BalanceReverse => TAFFY_FLEX_WRAP_BALANCE_REVERSE,
    }
}

/// Decodes a `FlexWrap` discriminator; an unknown one is `TAFFY_ERR_INVALID_ARGUMENT`.
pub fn map_flex_wrap(v: u8) -> (res: Result<FlexWrap, ConvertError>)
    ensures
        res is Ok <==> spec_flex_wrap_from_code(v) is Some,
        res is Ok ==> res->Ok_0 == spec_flex_wrap_from_code(v)->Some_0,
        res is Err ==> res->Err_0 == ConvertError(TAFFY_ERR_INVALID_ARGUMENT),
{
    if v == TAFFY_FLEX_WRAP_NO_WRAP {
        Ok(FlexWrap::NoWrap)
    } else if v == TAFFY_FLEX_WRAP_WRAP {
        Ok(FlexWrap::Wrap)
    } else if v == TAFFY_FLEX_WRAP_WRAP_REVERSE {
        Ok(FlexWrap::WrapReverse)
    } else if v == TAFFY_FLEX_WRAP_BALANCE {
        Ok(FlexWrap::Balance)
    } else if v == TAFFY_FLEX_WRAP_BALANCE_REVERSE {
        Ok(FlexWrap::BalanceReverse)
    } else {
        Err(ConvertError(TAFFY_ERR_INVALID_ARGUMENT))
    }
}

/// The discriminator of a `FlexWrap`.
pub fn flex_wrap_to_c(x: FlexWrap) -> (v: u8)
    ensures
        v == spec_flex_wrap_code(x),
{
    match x {
        FlexWrap::NoWrap => TAFFY_FLEX_WRAP_NO_WRAP,
        FlexWrap::Wrap => TAFFY_FLEX_WRAP_WRAP,
        FlexWrap::WrapReverse => TAFFY_FLEX_WRAP_WRAP_REVERSE,
        FlexWrap::Balance => TAFFY_FLEX_WRAP_BALANCE,
        FlexWrap::BalanceReverse => TAFFY_FLEX_WRAP_BALANCE_REVERSE,
    }
}

/// Decoding undoes encoding, and a discriminator that decodes is the code of
/// what it decodes to.
pub proof fn lemma_flex_wrap_codes(x: FlexWrap, v: u8)
    ensures
        spec_flex_wrap_from_code(spec_flex_wrap_code(x)) == Some(x),
        spec_flex_wrap_from_code(v) is Some ==> spec_flex_wrap_code(spec_flex_wrap_from_code(v)->Some_0) == v,
{
}

/// What happens to content that overflows a node (`overflow`).
#[derive(Clone, Copy, Debug, PartialEq, Eq)]
pub enum Overflow {
    Visible,
    Clip,
    Hidden,
    Scroll,
}

/// The `Overflow` that a discriminator stands for, if any.
pub open spec fn spec_overflow_from_code(v: u8) -> Option<Overflow> {
    if v == TAFFY_OVERFLOW_VISIBLE {
        Some(Overflow::Visible)
    } else if v == TAFFY_OVERFLOW_CLIP {
        Some(Overflow::Clip)
    } else if v == TAFFY_OVERFLOW_HIDDEN {
        Some(Overflow::Hidden)
    } else if v == TAFFY_OVERFLOW_SCROLL {
        Some(Overflow::Scroll)
    } else {
        None
    }
}

/// The discriminator of a `Overflow`.
pub open spec fn spec_overflow_code(x: Overflow) -> u8 {
    match x {
        Overflow::Visible => TAFFY_OVERFLOW_VISIBLE,
        Overflow::Clip => TAFFY_OVERFLOW_CLIP,
        Overflow::Hidden => TAFFY_OVERFLOW_HIDDEN,
        Overflow::Scroll => TAFFY_OVERFLOW_SCROLL,
    }
}

/// Decodes a `Overflow` discriminator; an unknown one is `TAFFY_ERR_INVALID_ARGUMENT`.
pub fn map_overflow(v: u8) -> (res: Result<Overflow, ConvertError>)
    ensures
        res is Ok <==> spec_overflow_from_code(v) is Some,
        res is Ok ==> res->Ok_0 == spec_overflow_from_code(v)->Some_0,
        res is Err ==> res->Err_0 == ConvertError(TAFFY_ERR_INVALID_ARGUMENT),
{
    if v == TAFFY_OVERFLOW_VISIBLE {
        Ok(Overflow::Visible)
    } else if v == TAFFY_OVERFLOW_CLIP {
        Ok(Overflow::Clip)
    } else if v == TAFFY_OVERFLOW_HIDDEN {
        Ok(Overflow::Hidden)
    } else if v == TAFFY_OVERFLOW_SCROLL {
        Ok(Overflow::Scroll)
    } else {
        Err(ConvertError(TAFFY_ERR_INVALID_ARGUMENT))
    }
}

/// The discriminator of a `Overflow`.
pub fn overflow_to_c(x: Overflow) -> (v: u8)
    ensures
        v == spec_overflow_code(x),
{
    match x {
        Overflow::Visible => TAFFY_OVERFLOW_VISIBLE,
        Overflow::Clip => TAFFY_OVERFLOW_CLIP,
        Overflow::Hidden => TAFFY_OVERFLOW_HIDDEN,
        Overflow::Scroll => TAFFY_OVERFLOW_SCROLL,
    }
}

/// Decoding undoes encoding, and a discriminator that decodes is the code of
/// what it decodes to.
pub proof fn lemma_overflow_codes(x: Overflow, v: u8)
    ensures
        spec_overflow_from_code(spec_overflow_code(x)) == Some(x),
        spec_overflow_from_code(v) is Some ==> spec_overflow_code(spec_overflow_from_code(v)->Some_0) == v,
{
}

/// Which box `size` applies to (`box-sizing`).
#[derive(Clone, Copy, Debug, PartialEq, Eq)]
pub enum BoxSizing {
    BorderBox,
    ContentBox,
}

/// The `BoxSizing` that a discriminator stands for, if any.
pub open spec fn spec_box_sizing_from_code(v: u8) -> Option<BoxSizing> {
    if v == TAFFY_BOX_SIZING_BORDER_BOX {
        Some(BoxSizing::BorderBox)
    } else if v == TAFFY_BOX_SIZING_CONTENT_BOX {
        Some(BoxSizing::ContentBox)
    } else {
        None
    }
}

/// The discriminator of a `BoxSizing`.
pub open spec fn spec_box_sizing_code(x: BoxSizing) -> u8 {
    match x {
        BoxSizing::BorderBox => TAFFY_BOX_SIZING_BORDER_BOX,
        BoxSizing::ContentBox => TAFFY_BOX_SIZING_CONTENT_BOX,
    }
}

/// Decodes a `BoxSizing` discriminator; an unknown one is `TAFFY_ERR_INVALID_ARGUMENT`.
pub fn map_box_sizing(v: u8) -> (res: Result<BoxSizing, ConvertError>)
    ensures
        res is Ok <==> spec_box_sizing_from_code(v) is Some,
        res is Ok ==> res->Ok_0 == spec_box_sizing_from_code(v)->Some_0,
        res is Err ==> res->Err_0 == ConvertError(TAFFY_ERR_INVALID_ARGUMENT),
{
    if v == TAFFY_BOX_SIZING_BORDER_BOX {
        Ok(BoxSizing::BorderBox)
    } else if v == TAFFY_BOX_SIZING_CONTENT_BOX {
        Ok(BoxSizing::ContentBox)
    } else {
        Err(ConvertError(TAFFY_ERR_INVALID_ARGUMENT))
    }
}

/// The discriminator of a `BoxSizing`.
pub fn box_sizing_to_c(x: BoxSizing) -> (v: u8)
    ensures
        v == spec_box_sizing_code(x),
{
    match x {
        BoxSizing::BorderBox => TAFFY_BOX_SIZING_BORDER_BOX,
        BoxSizing::ContentBox => TAFFY_BOX_SIZING_CONTENT_BOX,
    }
}

/// Decoding undoes encoding, and a discriminator that decodes is the code of
/// what it decodes to.
pub proof fn lemma_box_sizing_codes(x: BoxSizing, v: u8)
    ensures
        spec_box_sizing_from_code(spec_box_sizing_code(x)) == Some(x),
        spec_box_sizing_from_code(v) is Some ==> spec_box_sizing_code(spec_box_sizing_from_code(v)->Some_0) == v,
{
}

/// The `AlignItems` that a discriminator stands for: `Some(None)` for `TAFFY_ALIGN_AUTO`
/// (not set), `None` for an unknown discriminator.
pub open spec fn spec_align_items_from_code(v: u8) -> Option<Option<AlignItems>> {
    if v == TAFFY_ALIGN_AUTO {
        Some(None)
    } else if v == TAFFY_ALIGN_START {
        Some(Some(AlignItems { keyword: AlignItemsKeyword::Start, safety: AlignmentSafety::Unsafe }))
    } else if v == TAFFY_ALIGN_END {
        Some(Some(AlignItems { keyword: AlignItemsKeyword::End, safety: AlignmentSafety::Unsafe }))
    } else if v == TAFFY_ALIGN_FLEX_START {
        Some(Some(AlignItems { keyword: AlignItemsKeyword::FlexStart, safety: AlignmentSafety::Unsafe }))
    } else if v == TAFFY_ALIGN_FLEX_END {
        Some(Some(AlignItems { keyword: AlignItemsKeyword::FlexEnd, safety: AlignmentSafety::Unsafe }))
    } else if v == TAFFY_ALIGN_SELF_START {
        Some(Some(AlignItems { keyword: AlignItemsKeyword::SelfStart, safety: AlignmentSafety::Unsafe }))
    } else if v == TAFFY_ALIGN_SELF_END {
        Some(Some(AlignItems { keyword: AlignItemsKeyword::SelfEnd, safety: AlignmentSafety::Unsafe }))
    } else if v == TAFFY_ALIGN_CENTER {
        Some(Some(AlignItems { keyword: AlignItemsKeyword::Center, safety: AlignmentSafety::Unsafe }))
    } else if v == TAFFY_ALIGN_BASELINE {
        Some(Some(AlignItems { keyword: AlignItemsKeyword::Baseline, safety: AlignmentSafety::Unsafe }))
    } else if v == TAFFY_ALIGN_STRETCH {
        Some(Some(AlignItems { keyword: AlignItemsKeyword::Stretch, safety: AlignmentSafety::Unsafe }))
    } else if v == TAFFY_ALIGN_SAFE_START {
        Some(Some(AlignItems { keyword: AlignItemsKeyword::Start, safety: AlignmentSafety::Safe }))
    } else if v == TAFFY_ALIGN_SAFE_END {
        Some(Some(AlignItems { keyword: AlignItemsKeyword::End, safety: AlignmentSafety::Safe }))
    } else if v == TAFFY_ALIGN_SAFE_FLEX_START {
        Some(Some(AlignItems { keyword: AlignItemsKeyword::FlexStart, safety: AlignmentSafety::Safe }))
    } else if v == TAFFY_ALIGN_SAFE_FLEX_END {
        Some(Some(AlignItems { keyword: AlignItemsKeyword::FlexEnd, safety: AlignmentSafety::Safe }))
    } else if v == TAFFY_ALIGN_SAFE_SELF_START {
        Some(Some(AlignItems { keyword: AlignItemsKeyword::SelfStart, safety: AlignmentSafety::Safe }))
    } else if v == TAFFY_ALIGN_SAFE_SELF_END {
        Some(Some(AlignItems { keyword: AlignItemsKeyword::SelfEnd, safety: AlignmentSafety::Safe }))
    } else if v == TAFFY_ALIGN_SAFE_CENTER {
        Some(Some(AlignItems { keyword: AlignItemsKeyword::Center, safety: AlignmentSafety::Safe }))
    } else {
        None
    }
}

/// The discriminator of an optional `AlignItems`. The `safe` modifier has a code
/// only beside a position keyword; elsewhere it is dropped.
pub open spec fn spec_align_items_code(a: Option<AlignItems>) -> u8 {
    match a {
        None => TAFFY_ALIGN_AUTO,
        Some(a) => match (a.keyword, a.safety) {
            (AlignItemsKeyword::Start, AlignmentSafety::Safe) => TAFFY_ALIGN_SAFE_START,
            (AlignItemsKeyword::End, AlignmentSafety::Safe) => TAFFY_ALIGN_SAFE_END,
            (AlignItemsKeyword::FlexStart, AlignmentSafety::Safe) => TAFFY_ALIGN_SAFE_FLEX_START,
            (AlignItemsKeyword::FlexEnd, AlignmentSafety::Safe) => TAFFY_ALIGN_SAFE_FLEX_END,
            (AlignItemsKeyword::SelfStart, AlignmentSafety::Safe) => TAFFY_ALIGN_SAFE_SELF_START,
            (AlignItemsKeyword::SelfEnd, AlignmentSafety::Safe) => TAFFY_ALIGN_SAFE_SELF_END,
            (AlignItemsKeyword::Center, AlignmentSafety::Safe) => TAFFY_ALIGN_SAFE_CENTER,
            (AlignItemsKeyword::Start, _) => TAFFY_ALIGN_START,
            (AlignItemsKeyword::End, _) => TAFFY_ALIGN_END,
            (AlignItemsKeyword::FlexStart, _) => TAFFY_ALIGN_FLEX_START,
            (AlignItemsKeyword::FlexEnd, _) => TAFFY_ALIGN_FLEX_END,
            (AlignItemsKeyword::SelfStart, _) => TAFFY_ALIGN_SELF_START,
            (AlignItemsKeyword::SelfEnd, _) => TAFFY_ALIGN_SELF_END,
            (AlignItemsKeyword::Center, _) => TAFFY_ALIGN_CENTER,
            (AlignItemsKeyword::Baseline, _) => TAFFY_ALIGN_BASELINE,
            (AlignItemsKeyword::Stretch, _) => TAFFY_ALIGN_STRETCH,
        },
    }
}

/// An optional `AlignItems` that its code stands for exactly: no `safe` modifier
/// beside a keyword that takes none.
pub open spec fn align_items_has_code(a: Option<AlignItems>) -> bool {
    match a {
        None => true,
        Some(a) => a.safety == AlignmentSafety::Unsafe || a.keyword == AlignItemsKeyword::Start || a.keyword == AlignItemsKeyword::End || a.keyword == AlignItemsKeyword::FlexStart || a.keyword == AlignItemsKeyword::FlexEnd || a.keyword == AlignItemsKeyword::SelfStart || a.keyword == AlignItemsKeyword::SelfEnd || a.keyword == AlignItemsKeyword::Center,
    }
}

/// Decodes a `AlignItems` discriminator (`TAFFY_ALIGN_AUTO` is `None`); an unknown one is
/// `TAFFY_ERR_INVALID_ARGUMENT`.
pub fn map_align_items(v: u8) -> (res: Result<Option<AlignItems>, ConvertError>)
    ensures
        res is Ok <==> spec_align_items_from_code(v) is Some,
        res is Ok ==> res->Ok_0 == spec_align_items_from_code(v)->Some_0,
        res is Err ==> res->Err_0 == ConvertError(TAFFY_ERR_INVALID_ARGUMENT),
{
    if v == TAFFY_ALIGN_AUTO {
        Ok(None)
    } else if v == TAFFY_ALIGN_START {
        Ok(Some(AlignItems { keyword: AlignItemsKeyword::Start, safety: AlignmentSafety::Unsafe }))
    } else if v == TAFFY_ALIGN_END {
        Ok(Some(AlignItems { keyword: AlignItemsKeyword::End, safety: AlignmentSafety::Unsafe }))
    } else if v == TAFFY_ALIGN_FLEX_START {
        Ok(Some(AlignItems { keyword: AlignItemsKeyword::FlexStart, safety: AlignmentSafety::Unsafe }))
    } else if v == TAFFY_ALIGN_FLEX_END {
        Ok(Some(AlignItems { keyword: AlignItemsKeyword::FlexEnd, safety: AlignmentSafety::Unsafe }))
    } else if v == TAFFY_ALIGN_SELF_START {
        Ok(Some(AlignItems { keyword: AlignItemsKeyword::SelfStart, safety: AlignmentSafety::Unsafe }))
    } else if v == TAFFY_ALIGN_SELF_END {
        Ok(Some(AlignItems { keyword: AlignItemsKeyword::SelfEnd, safety: AlignmentSafety::Unsafe }))
    } else if v == TAFFY_ALIGN_CENTER {
        Ok(Some(AlignItems { keyword: AlignItemsKeyword::Center, safety: AlignmentSafety::Unsafe }))
    } else if v == TAFFY_ALIGN_BASELINE {
        Ok(Some(AlignItems { keyword: AlignItemsKeyword::Baseline, safety: AlignmentSafety::Unsafe }))
    } else if v == TAFFY_ALIGN_STRETCH {
        Ok(Some(AlignItems { keyword: AlignItemsKeyword::Stretch, safety: AlignmentSafety::Unsafe }))
    } else if v == TAFFY_ALIGN_SAFE_START {
        Ok(Some(AlignItems { keyword: AlignItemsKeyword::Start, safety: AlignmentSafety::Safe }))
    } else if v == TAFFY_ALIGN_SAFE_END {
        Ok(Some(AlignItems { keyword: AlignItemsKeyword::End, safety: AlignmentSafety::Safe }))
    } else if v == TAFFY_ALIGN_SAFE_FLEX_START {
        Ok(Some(AlignItems { keyword: AlignItemsKeyword::FlexStart, safety: AlignmentSafety::Safe }))
    } else if v == TAFFY_ALIGN_SAFE_FLEX_END {
        Ok(Some(AlignItems { keyword: AlignItemsKeyword::FlexEnd, safety: AlignmentSafety::Safe }))
    } else if v == TAFFY_ALIGN_SAFE_SELF_START {
        Ok(Some(AlignItems { keyword: AlignItemsKeyword::SelfStart, safety: AlignmentSafety::Safe }))
    } else if v == TAFFY_ALIGN_SAFE_SELF_END {
        Ok(Some(AlignItems { keyword: AlignItemsKeyword::SelfEnd, safety: AlignmentSafety::Safe }))
    } else if v == TAFFY_ALIGN_SAFE_CENTER {
        Ok(Some(AlignItems { keyword: AlignItemsKeyword::Center, safety: AlignmentSafety::Safe }))
    } else {
        Err(ConvertError(TAFFY_ERR_INVALID_ARGUMENT))
    }
}

/// The discriminator of an optional `AlignItems`.
pub fn align_items_to_c(a: Option<AlignItems>) -> (v: u8)
    ensures
        v == spec_align_items_code(a),
{
    match a {
        None => TAFFY_ALIGN_AUTO,
        Some(a) => match (a.keyword, a.safety) {
            (AlignItemsKeyword::Start, AlignmentSafety::Safe) => TAFFY_ALIGN_SAFE_START,
            (AlignItemsKeyword::End, AlignmentSafety::Safe) => TAFFY_ALIGN_SAFE_END,
            (AlignItemsKeyword::FlexStart, AlignmentSafety::Safe) => TAFFY_ALIGN_SAFE_FLEX_START,
            (AlignItemsKeyword::FlexEnd, AlignmentSafety::Safe) => TAFFY_ALIGN_SAFE_FLEX_END,
            (AlignItemsKeyword::SelfStart, AlignmentSafety::Safe) => TAFFY_ALIGN_SAFE_SELF_START,
            (AlignItemsKeyword::SelfEnd, AlignmentSafety::Safe) => TAFFY_ALIGN_SAFE_SELF_END,
            (AlignItemsKeyword::Center, AlignmentSafety::Safe) => TAFFY_ALIGN_SAFE_CENTER,
            (AlignItemsKeyword::Start, _) => TAFFY_ALIGN_START,
            (AlignItemsKeyword::End, _) => TAFFY_ALIGN_END,
            (AlignItemsKeyword::FlexStart, _) => TAFFY_ALIGN_FLEX_START,
            (AlignItemsKeyword::FlexEnd, _) => TAFFY_ALIGN_FLEX_END,
            (AlignItemsKeyword::SelfStart, _) => TAFFY_ALIGN_SELF_START,
            (AlignItemsKeyword::SelfEnd, _) => TAFFY_ALIGN_SELF_END,
            (AlignItemsKeyword::Center, _) => TAFFY_ALIGN_CENTER,
            (AlignItemsKeyword::Baseline, _) => TAFFY_ALIGN_BASELINE,
            (AlignItemsKeyword::Stretch, _) => TAFFY_ALIGN_STRETCH,
        },
    }
}

/// Decoding undoes encoding on the values that have a code, and a
/// discriminator that decodes is the code of what it decodes to.
pub proof fn lemma_align_items_codes(a: Option<AlignItems>, v: u8)
    ensures
        align_items_has_code(a) ==> spec_align_items_from_code(spec_align_items_code(a)) == Some(a),
        spec_align_items_from_code(v) is Some ==> align_items_has_code(spec_align_items_from_code(v)->Some_0)
            && spec_align_items_code(spec_align_items_from_code(v)->Some_0) == v,
{
}

/// The `AlignContent` that a discriminator stands for: `Some(None)` for `TAFFY_CONTENT_ALIGN_AUTO`
/// (not set), `None` for an unknown discriminator.
pub open spec fn spec_align_content_from_code(v: u8) -> Option<Option<AlignContent>> {
    if v == TAFFY_CONTENT_ALIGN_AUTO {
        Some(None)
    } else if v == TAFFY_CONTENT_ALIGN_START {
        Some(Some(AlignContent { keyword: AlignContentKeyword::Start, safety: AlignmentSafety::Unsafe }))
    } else if v == TAFFY_CONTENT_ALIGN_END {
        Some(Some(AlignContent { keyword: AlignContentKeyword::End, safety: AlignmentSafety::Unsafe }))
    } else if v == TAFFY_CONTENT_ALIGN_FLEX_START {
        Some(Some(AlignContent { keyword: AlignContentKeyword::FlexStart, safety: AlignmentSafety::Unsafe }))
    } else if v == TAFFY_CONTENT_ALIGN_FLEX_END {
        Some(Some(AlignContent { keyword: AlignContentKeyword::FlexEnd, safety: AlignmentSafety::Unsafe }))
    } else if v == TAFFY_CONTENT_ALIGN_CENTER {
        Some(Some(AlignContent { keyword: AlignContentKeyword::Center, safety: AlignmentSafety::Unsafe }))
    } else if v == TAFFY_CONTENT_ALIGN_STRETCH {
        Some(Some(AlignContent { keyword: AlignContentKeyword::Stretch, safety: AlignmentSafety::Unsafe }))
    } else if v == TAFFY_CONTENT_ALIGN_SPACE_BETWEEN {
        Some(Some(AlignContent { keyword: AlignContentKeyword::SpaceBetween, safety: AlignmentSafety::Unsafe }))
    } else if v == TAFFY_CONTENT_ALIGN_SPACE_EVENLY {
        Some(Some(AlignContent { keyword: AlignContentKeyword::SpaceEvenly, safety: AlignmentSafety::Unsafe }))
    } else if v == TAFFY_CONTENT_ALIGN_SPACE_AROUND {
        Some(Some(AlignContent { keyword: AlignContentKeyword::SpaceAround, safety: AlignmentSafety::Unsafe }))
    } else if v == TAFFY_CONTENT_ALIGN_SAFE_START {
        Some(Some(AlignContent { keyword: AlignContentKeyword::Start, safety: AlignmentSafety::Safe }))
    } else if v == TAFFY_CONTENT_ALIGN_SAFE_END {
        Some(Some(AlignContent { keyword: AlignContentKeyword::End, safety: AlignmentSafety::Safe }))
    } else if v == TAFFY_CONTENT_ALIGN_SAFE_FLEX_START {
        Some(Some(AlignContent { keyword: AlignContentKeyword::FlexStart, safety: AlignmentSafety::Safe }))
    } else if v == TAFFY_CONTENT_ALIGN_SAFE_FLEX_END {
        Some(Some(AlignContent { keyword: AlignContentKeyword::FlexEnd, safety: AlignmentSafety::Safe }))
    } else if v == TAFFY_CONTENT_ALIGN_SAFE_CENTER {
        Some(Some(AlignContent { keyword: AlignContentKeyword::Center, safety: AlignmentSafety::Safe }))
    } else {
        None
    }
}

/// The discriminator of an optional `AlignContent`. The `safe` modifier has a code
/// only beside a position keyword; elsewhere it is dropped.
pub open spec fn spec_align_content_code(a: Option<AlignContent>) -> u8 {
    match a {
        None => TAFFY_CONTENT_ALIGN_AUTO,
        Some(a) => match (a.keyword, a.safety) {
            (AlignContentKeyword::Start, AlignmentSafety::Safe) => TAFFY_CONTENT_ALIGN_SAFE_START,
            (AlignContentKeyword::End, AlignmentSafety::Safe) => TAFFY_CONTENT_ALIGN_SAFE_END,
            (AlignContentKeyword::FlexStart, AlignmentSafety::Safe) => TAFFY_CONTENT_ALIGN_SAFE_FLEX_START,
            (AlignContentKeyword::FlexEnd, AlignmentSafety::Safe) => TAFFY_CONTENT_ALIGN_SAFE_FLEX_END,
            (AlignContentKeyword::Center, AlignmentSafety::Safe) => TAFFY_CONTENT_ALIGN_SAFE_CENTER,
            (AlignContentKeyword::Start, _) => TAFFY_CONTENT_ALIGN_START,
            (AlignContentKeyword::End, _) => TAFFY_CONTENT_ALIGN_END,
            (AlignContentKeyword::FlexStart, _) => TAFFY_CONTENT_ALIGN_FLEX_START,
            (AlignContentKeyword::FlexEnd, _) => TAFFY_CONTENT_ALIGN_FLEX_END,
            (AlignContentKeyword::Center, _) => TAFFY_CONTENT_ALIGN_CENTER,
            (AlignContentKeyword::Stretch, _) => TAFFY_CONTENT_ALIGN_STRETCH,
            (AlignContentKeyword::SpaceBetween, _) => TAFFY_CONTENT_ALIGN_SPACE_BETWEEN,
            (AlignContentKeyword::SpaceEvenly, _) => TAFFY_CONTENT_ALIGN_SPACE_EVENLY,
            (AlignContentKeyword::SpaceAround, _) => TAFFY_CONTENT_ALIGN_SPACE_AROUND,
        },
    }
}

/// An optional `AlignContent` that its code stands for exactly: no `safe` modifier
/// beside a keyword that takes none.
pub open spec fn align_content_has_code(a: Option<AlignContent>) -> bool {
    match a {
        None => true,
        Some(a) => a.safety == AlignmentSafety::Unsafe || a.keyword == AlignContentKeyword::Start || a.keyword == AlignContentKeyword::End || a.keyword == AlignContentKeyword::FlexStart || a.keyword == AlignContentKeyword::FlexEnd || a.keyword == AlignContentKeyword::Center,
    }
}

/// Decodes a `AlignContent` discriminator (`TAFFY_CONTENT_ALIGN_AUTO` is `None`); an unknown one is
/// `TAFFY_ERR_INVALID_ARGUMENT`.
pub fn map_align_content(v: u8) -> (res: Result<Option<AlignContent>, ConvertError>)
    ensures
        res is Ok <==> spec_align_content_from_code(v) is Some,
        res is Ok ==> res->Ok_0 == spec_align_content_from_code(v)->Some_0,
        res is Err ==> res->Err_0 == ConvertError(TAFFY_ERR_INVALID_ARGUMENT),
{
    if v == TAFFY_CONTENT_ALIGN_AUTO {
        Ok(None)
    } else if v == TAFFY_CONTENT_ALIGN_START {
        Ok(Some(AlignContent { keyword: AlignContentKeyword::Start, safety: AlignmentSafety::Unsafe }))
    } else if v == TAFFY_CONTENT_ALIGN_END {
        Ok(Some(AlignContent { keyword: AlignContentKeyword::End, safety: AlignmentSafety::Unsafe }))
    } else if v == TAFFY_CONTENT_ALIGN_FLEX_START {
        Ok(Some(AlignContent { keyword: AlignContentKeyword::FlexStart, safety: AlignmentSafety::Unsafe }))
    } else if v == TAFFY_CONTENT_ALIGN_FLEX_END {
        Ok(Some(AlignContent { keyword: AlignContentKeyword::FlexEnd, safety: AlignmentSafety::Unsafe }))
    } else if v == TAFFY_CONTENT_ALIGN_CENTER {
        Ok(Some(AlignContent { keyword: AlignContentKeyword::Center, safety: AlignmentSafety::Unsafe }))
    } else if v == TAFFY_CONTENT_ALIGN_STRETCH {
        Ok(Some(AlignContent { keyword: AlignContentKeyword::Stretch, safety: AlignmentSafety::Unsafe }))
    } else if v == TAFFY_CONTENT_ALIGN_SPACE_BETWEEN {
        Ok(Some(AlignContent { keyword: AlignContentKeyword::SpaceBetween, safety: AlignmentSafety::Unsafe }))
    } else if v == TAFFY_CONTENT_ALIGN_SPACE_EVENLY {
        Ok(Some(AlignContent { keyword: AlignContentKeyword::SpaceEvenly, safety: AlignmentSafety::Unsafe }))
    } else if v == TAFFY_CONTENT_ALIGN_SPACE_AROUND {
        Ok(Some(AlignContent { keyword: AlignContentKeyword::SpaceAround, safety: AlignmentSafety::Unsafe }))
    } else if v == TAFFY_CONTENT_ALIGN_SAFE_START {
        Ok(Some(AlignContent { keyword: AlignContentKeyword::Start, safety: AlignmentSafety::Safe }))
    } else if v == TAFFY_CONTENT_ALIGN_SAFE_END {
        Ok(Some(AlignContent { keyword: AlignContentKeyword::End, safety: AlignmentSafety::Safe }))
    } else if v == TAFFY_CONTENT_ALIGN_SAFE_FLEX_START {
        Ok(Some(AlignContent { keyword: AlignContentKeyword::FlexStart, safety: AlignmentSafety::Safe }))
    } else if v == TAFFY_CONTENT_ALIGN_SAFE_FLEX_END {
        Ok(Some(AlignContent { keyword: AlignContentKeyword::FlexEnd, safety: AlignmentSafety::Safe }))
    } else if v == TAFFY_CONTENT_ALIGN_SAFE_CENTER {
        Ok(Some(AlignContent { keyword: AlignContentKeyword::Center, safety: AlignmentSafety::Safe }))
    } else {
        Err(ConvertError(TAFFY_ERR_INVALID_ARGUMENT))
    }
}

/// The discriminator of an optional `AlignContent`.
pub fn align_content_to_c(a: Option<AlignContent>) -> (v: u8)
    ensures
        v == spec_align_content_code(a),
{
    match a {
        None => TAFFY_CONTENT_ALIGN_AUTO,
        Some(a) => match (a.keyword, a.safety) {
            (AlignContentKeyword::Start, AlignmentSafety::Safe) => TAFFY_CONTENT_ALIGN_SAFE_START,
            (AlignContentKeyword::End, AlignmentSafety::Safe) => TAFFY_CONTENT_ALIGN_SAFE_END,
            (AlignContentKeyword::FlexStart, AlignmentSafety::Safe) => TAFFY_CONTENT_ALIGN_SAFE_FLEX_START,
            (AlignContentKeyword::FlexEnd, AlignmentSafety::Safe) => TAFFY_CONTENT_ALIGN_SAFE_FLEX_END,
            (AlignContentKeyword::Center, AlignmentSafety::Safe) => TAFFY_CONTENT_ALIGN_SAFE_CENTER,
            (AlignContentKeyword::Start, _) => TAFFY_CONTENT_ALIGN_START,
            (AlignContentKeyword::End, _) => TAFFY_CONTENT_ALIGN_END,
            (AlignContentKeyword::FlexStart, _) => TAFFY_CONTENT_ALIGN_FLEX_START,
            (AlignContentKeyword::FlexEnd, _) => TAFFY_CONTENT_ALIGN_FLEX_END,
            (AlignContentKeyword::Center, _) => TAFFY_CONTENT_ALIGN_CENTER,
            (AlignContentKeyword::Stretch, _) => TAFFY_CONTENT_ALIGN_STRETCH,
            (AlignContentKeyword::SpaceBetween, _) => TAFFY_CONTENT_ALIGN_SPACE_BETWEEN,
            (AlignContentKeyword::SpaceEvenly, _) => TAFFY_CONTENT_ALIGN_SPACE_EVENLY,
            (AlignContentKeyword::SpaceAround, _) => TAFFY_CONTENT_ALIGN_SPACE_AROUND,
        },
    }
}

/// Decoding undoes encoding on the values that have a code, and a
/// discriminator that decodes is the code of what it decodes to.
pub proof fn lemma_align_content_codes(a: Option<AlignContent>, v: u8)
    ensures
        align_content_has_code(a) ==> spec_align_content_from_code(spec_align_content_code(a)) == Some(a),
        spec_align_content_from_code(v) is Some ==> align_content_has_code(spec_align_content_from_code(v)->Some_0)
            && spec_align_content_code(spec_align_content_from_code(v)->Some_0) == v,
{
}

/// Four edge values, in the order left, right, top, bottom.
#[derive(Clone, Copy, Debug, PartialEq, Eq)]
pub struct Rect<T> {
    pub left: T,
    pub right: T,
    pub top: T,
    pub bottom: T,
}

/// A width and a height.
#[derive(Clone, Copy, Debug, PartialEq, Eq)]
pub struct Size<T> {
    pub width: T,
    pub height: T,
}

/// The C form of a style (`taffy_style_t`), field for field, with every `f32`
/// carried as its bit pattern. Edge arrays are `[left, right, top, bottom]`,
/// size arrays `[width, height]`.
#[derive(Clone, Copy, Debug, PartialEq, Eq)]
pub struct CTaffyStyle {
    pub display: u8,
    pub box_sizing: u8,
    pub position_type: u8,
    pub direction: u8,
    pub flex_direction: u8,
    pub flex_wrap: u8,
    pub overflow_x: u8,
    pub overflow_y: u8,
    pub align_items: u8,
    pub align_self: u8,
    pub align_content: u8,
    pub justify_content: u8,
    pub justify_items: u8,
    pub justify_self: u8,
    pub flex_line_count: u16,
    pub scrollbar_width: u32,
    pub flex_grow: u32,
    pub flex_shrink: u32,
    pub aspect_ratio: u32,
    pub inset: [CTaffyDim; 4],
    pub margin: [CTaffyDim; 4],
    pub padding: [CTaffyDim; 4],
    pub border: [CTaffyDim; 4],
    pub size: [CTaffyDim; 2],
    pub min_size: [CTaffyDim; 2],
    pub max_size: [CTaffyDim; 2],
    pub flex_basis: CTaffyDim,
    pub gap: [CTaffyDim; 2],
}

/// The properties of a taffy style that the C interface carries. Every other
/// property of a node's style keeps taffy's default.
#[derive(Clone, Copy, Debug, PartialEq, Eq)]
pub struct LayoutStyle {
    pub display: Display,
    pub box_sizing: BoxSizing,
    pub position: Position,
    pub direction: Direction,
    pub flex_direction: FlexDirection,
    pub flex_wrap: FlexWrap,
    pub overflow_x: Overflow,
    pub overflow_y: Overflow,
    /// `f32` bit pattern.
    pub scrollbar_width: u32,
    pub align_items: Option<AlignItems>,
    pub align_self: Option<AlignItems>,
    pub justify_items: Option<AlignItems>,
    pub justify_self: Option<AlignItems>,
    pub align_content: Option<AlignContent>,
    pub justify_content: Option<AlignContent>,
    pub flex_line_count: u16,
    /// `f32` bit pattern.
    pub flex_grow: u32,
    /// `f32` bit pattern.
    pub flex_shrink: u32,
    /// `f32` bit pattern; `None` for no preferred ratio.
    pub aspect_ratio: Option<u32>,
    pub inset: Rect<LengthPercentageAuto>,
    pub margin: Rect<LengthPercentageAuto>,
    pub padding: Rect<LengthPercentage>,
    pub border: Rect<LengthPercentage>,
    pub size: Size<Dimension>,
    pub min_size: Size<LengthPercentageAuto>,
    pub max_size: Size<LengthPercentageAuto>,
    pub flex_basis: Dimension,
    pub gap: Size<LengthPercentage>,
}

/// The edges a C edge array `[left, right, top, bottom]` stands for.
pub open spec fn spec_lpa_rect_from_c(a: [CTaffyDim; 4]) -> Rect<LengthPercentageAuto> {
    Rect {
        left: spec_dim_to_length_percentage_auto(a[0]),
        right: spec_dim_to_length_percentage_auto(a[1]),
        top: spec_dim_to_length_percentage_auto(a[2]),
        bottom: spec_dim_to_length_percentage_auto(a[3]),
    }
}

/// The edges a C edge array `[left, right, top, bottom]` stands for.
pub open spec fn spec_lp_rect_from_c(a: [CTaffyDim; 4]) -> Rect<LengthPercentage> {
    Rect {
        left: spec_dim_to_length_percentage(a[0]),
        right: spec_dim_to_length_percentage(a[1]),
        top: spec_dim_to_length_percentage(a[2]),
        bottom: spec_dim_to_length_percentage(a[3]),
    }
}

/// The C edge array of some edges.
pub open spec fn spec_lpa_rect_to_c(r: Rect<LengthPercentageAuto>) -> [CTaffyDim; 4] {
    [
        spec_length_percentage_auto_to_c(r.left),
        spec_length_percentage_auto_to_c(r.right),
        spec_length_percentage_auto_to_c(r.top),
        spec_length_percentage_auto_to_c(r.bottom),
    ]
}

/// The C edge array of some edges.
pub open spec fn spec_lp_rect_to_c(r: Rect<LengthPercentage>) -> [CTaffyDim; 4] {
    [
        spec_length_percentage_to_c(r.left),
        spec_length_percentage_to_c(r.right),
        spec_length_percentage_to_c(r.top),
        spec_length_percentage_to_c(r.bottom),
    ]
}

/// The C array `[width, height]` of a size.
pub open spec fn spec_dimension_size_to_c(z: Size<Dimension>) -> [CTaffyDim; 2] {
    [spec_dimension_to_c(z.width), spec_dimension_to_c(z.height)]
}

/// The C array `[width, height]` of a size.
pub open spec fn spec_lpa_size_to_c(z: Size<LengthPercentageAuto>) -> [CTaffyDim; 2] {
    [spec_length_percentage_auto_to_c(z.width), spec_length_percentage_auto_to_c(z.height)]
}

/// The C array `[width, height]` of a size.
pub open spec fn spec_lp_size_to_c(z: Size<LengthPercentage>) -> [CTaffyDim; 2] {
    [spec_length_percentage_to_c(z.width), spec_length_percentage_to_c(z.height)]
}

/// The size a C array `[width, height]` stands for.
pub open spec fn spec_dimension_size_from_c(a: [CTaffyDim; 2]) -> Size<Dimension> {
    Size { width: spec_dim_to_dimension(a[0]), height: spec_dim_to_dimension(a[1]) }
}

/// The size a C array `[width, height]` stands for.
pub open spec fn spec_lpa_size_from_c(a: [CTaffyDim; 2]) -> Size<LengthPercentageAuto> {
    Size { width: spec_dim_to_length_percentage_auto(a[0]), height: spec_dim_to_length_percentage_auto(a[1]) }
}

/// The size a C array `[width, height]` stands for.
pub open spec fn spec_lp_size_from_c(a: [CTaffyDim; 2]) -> Size<LengthPercentage> {
    Size { width: spec_dim_to_length_percentage(a[0]), height: spec_dim_to_length_percentage(a[1]) }
}

/// Every edge has a code.
pub open spec fn lpa_rect_has_code(r: Rect<LengthPercentageAuto>) -> bool {
    &&& length_percentage_auto_has_code(r.left) && length_percentage_auto_has_code(r.right)
    &&& length_percentage_auto_has_code(r.top) && length_percentage_auto_has_code(r.bottom)
}

/// Every edge has a code.
pub open spec fn lp_rect_has_code(r: Rect<LengthPercentage>) -> bool {
    &&& length_percentage_has_code(r.left) && length_percentage_has_code(r.right)
    &&& length_percentage_has_code(r.top) && length_percentage_has_code(r.bottom)
}

/// Edges and sizes with codes survive the trip through their C arrays.
pub proof fn lemma_rects_round_trip(
    a: Rect<LengthPercentageAuto>,
    p: Rect<LengthPercentage>,
    d: Size<Dimension>,
    za: Size<LengthPercentageAuto>,
    zp: Size<LengthPercentage>,
)
    ensures
        lpa_rect_has_code(a) ==> spec_lpa_rect_from_c(spec_lpa_rect_to_c(a)) == a,
        lp_rect_has_code(p) ==> spec_lp_rect_from_c(spec_lp_rect_to_c(p)) == p,
        dimension_has_code(d.width) && dimension_has_code(d.height)
            ==> spec_dimension_size_from_c(spec_dimension_size_to_c(d)) == d,
        length_percentage_auto_has_code(za.width) && length_percentage_auto_has_code(za.height)
            ==> spec_lpa_size_from_c(spec_lpa_size_to_c(za)) == za,
        length_percentage_has_code(zp.width) && length_percentage_has_code(zp.height)
            ==> spec_lp_size_from_c(spec_lp_size_to_c(zp)) == zp,
{
    lemma_dims_round_trip(d.width, a.left, p.left);
    lemma_dims_round_trip(d.height, a.right, p.right);
    lemma_dims_round_trip(d.width, a.top, p.top);
    lemma_dims_round_trip(d.width, a.bottom, p.bottom);
    lemma_dims_round_trip(d.width, za.width, zp.width);
    lemma_dims_round_trip(d.width, za.height, zp.height);
    let ca = spec_lpa_rect_to_c(a);
    assert(ca[0] == spec_length_percentage_auto_to_c(a.left));
    assert(ca[1] == spec_length_percentage_auto_to_c(a.right));
    assert(ca[2] == spec_length_percentage_auto_to_c(a.top));
    assert(ca[3] == spec_length_percentage_auto_to_c(a.bottom));
    let cp = spec_lp_rect_to_c(p);
    assert(cp[0] == spec_length_percentage_to_c(p.left));
    assert(cp[1] == spec_length_percentage_to_c(p.right));
    assert(cp[2] == spec_length_percentage_to_c(p.top));
    assert(cp[3] == spec_length_percentage_to_c(p.bottom));
    let cd = spec_dimension_size_to_c(d);
    assert(cd[0] == spec_dimension_to_c(d.width));
    assert(cd[1] == spec_dimension_to_c(d.height));
    let cza = spec_lpa_size_to_c(za);
    assert(cza[0] == spec_length_percentage_auto_to_c(za.width));
    assert(cza[1] == spec_length_percentage_auto_to_c(za.height));
    let czp = spec_lp_size_to_c(zp);
    assert(czp[0] == spec_length_percentage_to_c(zp.width));
    assert(czp[1] == spec_length_percentage_to_c(zp.height));
}

/// Every enumerated field of a C style holds a known discriminator.
pub open spec fn spec_style_codes_valid(c: CTaffyStyle) -> bool {
    &&& spec_display_from_code(c.display) is Some
    &&& spec_box_sizing_from_code(c.box_sizing) is Some
    &&& spec_position_from_code(c.position_type) is Some
    &&& spec_direction_from_code(c.direction) is Some
    &&& spec_flex_direction_from_code(c.flex_direction) is Some
    &&& spec_flex_wrap_from_code(c.flex_wrap) is Some
    &&& spec_overflow_from_code(c.overflow_x) is Some
    &&& spec_overflow_from_code(c.overflow_y) is Some
    &&& spec_align_items_from_code(c.align_items) is Some
    &&& spec_align_items_from_code(c.align_self) is Some
    &&& spec_align_items_from_code(c.justify_items) is Some
    &&& spec_align_items_from_code(c.justify_self) is Some
    &&& spec_align_content_from_code(c.align_content) is Some
    &&& spec_align_content_from_code(c.justify_content) is Some
}

/// The style a C style with valid discriminators stands for: each field
/// decoded, at least one flex line, and a NaN aspect ratio read as none.
pub open spec fn spec_style_from_c(c: CTaffyStyle) -> LayoutStyle {
    LayoutStyle {
        display: spec_display_from_code(c.display)->Some_0,
        box_sizing: spec_box_sizing_from_code(c.box_sizing)->Some_0,
        position: spec_position_from_code(c.position_type)->Some_0,
        direction: spec_direction_from_code(c.direction)->Some_0,
        flex_direction: spec_flex_direction_from_code(c.flex_direction)->Some_0,
        flex_wrap: spec_flex_wrap_from_code(c.flex_wrap)->Some_0,
        overflow_x: spec_overflow_from_code(c.overflow_x)->Some_0,
        overflow_y: spec_overflow_from_code(c.overflow_y)->Some_0,
        scrollbar_width: c.scrollbar_width,
        align_items: spec_align_items_from_code(c.align_items)->Some_0,
        align_self: spec_align_items_from_code(c.align_self)->Some_0,
        justify_items: spec_align_items_from_code(c.justify_items)->Some_0,
        justify_self: spec_align_items_from_code(c.justify_self)->Some_0,
        align_content: spec_align_content_from_code(c.align_content)->Some_0,
        justify_content: spec_align_content_from_code(c.justify_content)->Some_0,
        flex_line_count: if c.flex_line_count < 1 { 1 } else { c.flex_line_count },
        flex_grow: c.flex_grow,
        flex_shrink: c.flex_shrink,
        aspect_ratio: if spec_is_nan_bits(c.aspect_ratio) { None } else { Some(c.aspect_ratio) },
        inset: spec_lpa_rect_from_c(c.inset),
        margin: spec_lpa_rect_from_c(c.margin),
        padding: spec_lp_rect_from_c(c.padding),
        border: spec_lp_rect_from_c(c.border),
        size: spec_dimension_size_from_c(c.size),
        min_size: spec_lpa_size_from_c(c.min_size),
        max_size: spec_lpa_size_from_c(c.max_size),
        flex_basis: spec_dim_to_dimension(c.flex_basis),
        gap: spec_lp_size_from_c(c.gap),
    }
}

/// Converts an ABI style into the style it stands for. A field with an
/// unknown discriminator is `TAFFY_ERR_INVALID_ARGUMENT`.
pub fn style_from_c(c: &CTaffyStyle) -> (res: Result<LayoutStyle, ConvertError>)
    ensures
        res is Ok <==> spec_style_codes_valid(*c),
        res is Ok ==> res->Ok_0 == spec_style_from_c(*c),
        res is Err ==> res->Err_0 == ConvertError(TAFFY_ERR_INVALID_ARGUMENT),
{
    let display = match map_display(c.display) {
        Ok(v) => v,
        Err(e) => return Err(e),
    };
    let box_sizing = match map_box_sizing(c.box_sizing) {
        Ok(v) => v,
        Err(e) => return Err(e),
    };
    let position = match map_position(c.position_type) {
        Ok(v) => v,
        Err(e) => return Err(e),
    };
    let direction = match map_direction(c.direction) {
        Ok(v) => v,
        Err(e) => return Err(e),
    };
    let flex_direction = match map_flex_direction(c.flex_direction) {
        Ok(v) => v,
        Err(e) => return Err(e),
    };
    let flex_wrap = match map_flex_wrap(c.flex_wrap) {
        Ok(v) => v,
        Err(e) => return Err(e),
    };
    let overflow_x = match map_overflow(c.overflow_x) {
        Ok(v) => v,
        Err(e) => return Err(e),
    };
    let overflow_y = match map_overflow(c.overflow_y) {
        Ok(v) => v,
        Err(e) => return Err(e),
    };
    let align_items = match map_align_items(c.align_items) {
        Ok(v) => v,
        Err(e) => return Err(e),
    };
    let align_self = match map_align_items(c.align_self) {
        Ok(v) => v,
        Err(e) => return Err(e),
    };
    let justify_items = match map_align_items(c.justify_items) {
        Ok(v) => v,
        Err(e) => return Err(e),
    };
    let justify_self = match map_align_items(c.justify_self) {
        Ok(v) => v,
        Err(e) => return Err(e),
    };
    let align_content = match map_align_content(c.align_content) {
        Ok(v) => v,
        Err(e) => return Err(e),
    };
    let justify_content = match map_align_content(c.justify_content) {
        Ok(v) => v,
        Err(e) => return Err(e),
    };
    let flex_line_count: u16 = if c.flex_line_count < 1 { 1 } else { c.flex_line_count };
    let aspect_ratio = if is_nan_bits(c.aspect_ratio) { None } else { Some(c.aspect_ratio) };
    Ok(LayoutStyle {
        display,
        box_sizing,
        position,
        direction,
        flex_direction,
        flex_wrap,
        overflow_x,
        overflow_y,
        scrollbar_width: c.scrollbar_width,
        align_items,
        align_self,
        justify_items,
        justify_self,
        align_content,
        justify_content,
        flex_line_count,
        flex_grow: c.flex_grow,
        flex_shrink: c.flex_shrink,
        aspect_ratio,
        inset: Rect {
            left: dim_to_length_percentage_auto(c.inset[0]),
            right: dim_to_length_percentage_auto(c.inset[1]),
            top: dim_to_length_percentage_auto(c.inset[2]),
            bottom: dim_to_length_percentage_auto(c.inset[3]),
        },
        margin: Rect {
            left: dim_to_length_percentage_auto(c.margin[0]),
            right: dim_to_length_percentage_auto(c.margin[1]),
            top: dim_to_length_percentage_auto(c.margin[2]),
            bottom: dim_to_length_percentage_auto(c.margin[3]),
        },
        padding: Rect {
            left: dim_to_length_percentage(c.padding[0]),
            right: dim_to_length_percentage(c.padding[1]),
            top: dim_to_length_percentage(c.padding[2]),
            bottom: dim_to_length_percentage(c.padding[3]),
        },
        border: Rect {
            left: dim_to_length_percentage(c.border[0]),
            right: dim_to_length_percentage(c.border[1]),
            top: dim_to_length_percentage(c.border[2]),
            bottom: dim_to_length_percentage(c.border[3]),
        },
        size: Size { width: dim_to_dimension(c.size[0]), height: dim_to_dimension(c.size[1]) },
        min_size: Size {
            width: dim_to_length_percentage_auto(c.min_size[0]),
            height: dim_to_length_percentage_auto(c.min_size[1]),
        },
        max_size: Size {
            width: dim_to_length_percentage_auto(c.max_size[0]),
            height: dim_to_length_percentage_auto(c.max_size[1]),
        },
        flex_basis: dim_to_dimension(c.flex_basis),
        gap: Size { width: dim_to_length_percentage(c.gap[0]), height: dim_to_length_percentage(c.gap[1]) },
    })
}

/// The C form of a style: each field encoded, and no aspect ratio as NaN.
pub open spec fn spec_style_to_c(s: LayoutStyle) -> CTaffyStyle {
    CTaffyStyle {
        display: spec_display_code(s.display),
        box_sizing: spec_box_sizing_code(s.box_sizing),
        position_type: spec_position_code(s.position),
        direction: spec_direction_code(s.direction),
        flex_direction: spec_flex_direction_code(s.flex_direction),
        flex_wrap: spec_flex_wrap_code(s.flex_wrap),
        overflow_x: spec_overflow_code(s.overflow_x),
        overflow_y: spec_overflow_code(s.overflow_y),
        align_items: spec_align_items_code(s.align_items),
        align_self: spec_align_items_code(s.align_self),
        align_content: spec_align_content_code(s.align_content),
        justify_content: spec_align_content_code(s.justify_content),
        justify_items: spec_align_items_code(s.justify_items),
        justify_self: spec_align_items_code(s.justify_self),
        flex_line_count: s.flex_line_count,
        scrollbar_width: s.scrollbar_width,
        flex_grow: s.flex_grow,
        flex_shrink: s.flex_shrink,
        aspect_ratio: match s.aspect_ratio {
            Some(v) => v,
            None => NAN_BITS,
        },
        inset: spec_lpa_rect_to_c(s.inset),
        margin: spec_lpa_rect_to_c(s.margin),
        padding: spec_lp_rect_to_c(s.padding),
        border: spec_lp_rect_to_c(s.border),
        size: spec_dimension_size_to_c(s.size),
        min_size: spec_lpa_size_to_c(s.min_size),
        max_size: spec_lpa_size_to_c(s.max_size),
        flex_basis: spec_dimension_to_c(s.flex_basis),
        gap: spec_lp_size_to_c(s.gap),
    }
}

/// Converts a style to its ABI representation.
pub fn style_to_c(s: &LayoutStyle) -> (c: CTaffyStyle)
    ensures
        c == spec_style_to_c(*s),
{
    CTaffyStyle {
        display: display_to_c(s.display),
        box_sizing: box_sizing_to_c(s.box_sizing),
        position_type: position_to_c(s.position),
        direction: direction_to_c(s.direction),
        flex_direction: flex_direction_to_c(s.flex_direction),
        flex_wrap: flex_wrap_to_c(s.flex_wrap),
        overflow_x: overflow_to_c(s.overflow_x),
        overflow_y: overflow_to_c(s.overflow_y),
        align_items: align_items_to_c(s.align_items),
        align_self: align_items_to_c(s.align_self),
        align_content: align_content_to_c(s.align_content),
        justify_content: align_content_to_c(s.justify_content),
        justify_items: align_items_to_c(s.justify_items),
        justify_self: align_items_to_c(s.justify_self),
        flex_line_count: s.flex_line_count,
        scrollbar_width: s.scrollbar_width,
        flex_grow: s.flex_grow,
        flex_shrink: s.flex_shrink,
        aspect_ratio: match s.aspect_ratio {
            Some(v) => v,
            None => NAN_BITS,
        },
        inset: [
            length_percentage_auto_to_c(s.inset.left),
            length_percentage_auto_to_c(s.inset.right),
            length_percentage_auto_to_c(s.inset.top),
            length_percentage_auto_to_c(s.inset.bottom),
        ],
        margin: [
            length_percentage_auto_to_c(s.margin.left),
            length_percentage_auto_to_c(s.margin.right),
            length_percentage_auto_to_c(s.margin.top),
            length_percentage_auto_to_c(s.margin.bottom),
        ],
        padding: [
            length_percentage_to_c(s.padding.left),
            length_percentage_to_c(s.padding.right),
            length_percentage_to_c(s.padding.top),
            length_percentage_to_c(s.padding.bottom),
        ],
        border: [
            length_percentage_to_c(s.border.left),
            length_percentage_to_c(s.border.right),
            length_percentage_to_c(s.border.top),
            length_percentage_to_c(s.border.bottom),
        ],
        size: [dimension_to_c(s.size.width), dimension_to_c(s.size.height)],
        min_size: [length_percentage_auto_to_c(s.min_size.width), length_percentage_auto_to_c(s.min_size.height)],
        max_size: [length_percentage_auto_to_c(s.max_size.width), length_percentage_auto_to_c(s.max_size.height)],
        flex_basis: dimension_to_c(s.flex_basis),
        gap: [length_percentage_to_c(s.gap.width), length_percentage_to_c(s.gap.height)],
    }
}


/// A size that its C form stands for exactly (taffy's `content` and `calc()`
/// have no code).
pub open spec fn dimension_has_code(d: Dimension) -> bool {
    !(d is Content) && !(d is Calc)
}

/// A length, percentage or `auto` that its C form stands for exactly.
pub open spec fn length_percentage_auto_has_code(d: LengthPercentageAuto) -> bool {
    !(d is Calc)
}

/// A length or percentage that its C form stands for exactly.
pub open spec fn length_percentage_has_code(d: LengthPercentage) -> bool {
    !(d is Calc)
}

/// A style that its C form stands for exactly: every length and alignment has
/// a code, there is at least one flex line, and an aspect ratio, if any, is
/// not a NaN.
pub open spec fn style_has_code(s: LayoutStyle) -> bool {
    &&& align_items_has_code(s.align_items)
    &&& align_items_has_code(s.align_self)
    &&& align_items_has_code(s.justify_items)
    &&& align_items_has_code(s.justify_self)
    &&& align_content_has_code(s.align_content)
    &&& align_content_has_code(s.justify_content)
    &&& s.flex_line_count >= 1
    &&& (s.aspect_ratio matches Some(v) ==> !spec_is_nan_bits(v))
    &&& lpa_rect_has_code(s.inset)
    &&& lpa_rect_has_code(s.margin)
    &&& lp_rect_has_code(s.padding)
    &&& lp_rect_has_code(s.border)
    &&& dimension_has_code(s.size.width) && dimension_has_code(s.size.height)
    &&& length_percentage_auto_has_code(s.min_size.width) && length_percentage_auto_has_code(s.min_size.height)
    &&& length_percentage_auto_has_code(s.max_size.width) && length_percentage_auto_has_code(s.max_size.height)
    &&& dimension_has_code(s.flex_basis)
    &&& length_percentage_has_code(s.gap.width) && length_percentage_has_code(s.gap.height)
}

/// Decoding undoes encoding for every length value that has a code.
pub proof fn lemma_dims_round_trip(d: Dimension, a: LengthPercentageAuto, p: LengthPercentage)
    ensures
        dimension_has_code(d) ==> spec_dim_to_dimension(spec_dimension_to_c(d)) == d,
        length_percentage_auto_has_code(a) ==> spec_dim_to_length_percentage_auto(spec_length_percentage_auto_to_c(a)) == a,
        length_percentage_has_code(p) ==> spec_dim_to_length_percentage(spec_length_percentage_to_c(p)) == p,
{
}

/// The NaN that encodes "no aspect ratio" reads back as a NaN.
pub proof fn lemma_nan_bits_is_nan()
    ensures
        spec_is_nan_bits(NAN_BITS),
{
    assert((0x7fc0_0000u32 & 0x7f80_0000u32) == 0x7f80_0000u32 && (0x7fc0_0000u32 & 0x007f_ffffu32) != 0u32) by (bit_vector);
}

/// A style that has a code survives the trip through its C form: encoding it
/// gives valid discriminators, and decoding gives the style back.
pub proof fn lemma_style_round_trip(s: LayoutStyle)
    requires
        style_has_code(s),
    ensures
        spec_style_codes_valid(spec_style_to_c(s)),
        spec_style_from_c(spec_style_to_c(s)) == s,
{
    lemma_nan_bits_is_nan();
    lemma_display_codes(s.display, 0);
    lemma_box_sizing_codes(s.box_sizing, 0);
    lemma_position_codes(s.position, 0);
    lemma_direction_codes(s.direction, 0);
    lemma_flex_direction_codes(s.flex_direction, 0);
    lemma_flex_wrap_codes(s.flex_wrap, 0);
    lemma_overflow_codes(s.overflow_x, 0);
    lemma_overflow_codes(s.overflow_y, 0);
    lemma_align_items_codes(s.align_items, 0);
    lemma_align_items_codes(s.align_self, 0);
    lemma_align_items_codes(s.justify_items, 0);
    lemma_align_items_codes(s.justify_self, 0);
    lemma_align_content_codes(s.align_content, 0);
    lemma_align_content_codes(s.justify_content, 0);
    lemma_rects_round_trip(s.inset, s.padding, s.size, s.min_size, s.gap);
    lemma_rects_round_trip(s.margin, s.border, s.size, s.max_size, s.gap);
    lemma_dims_round_trip(s.flex_basis, s.inset.left, s.gap.width);
}

/// Every style decoded from a C style has a code, so that its C form decodes
/// to it again.
pub proof fn lemma_decoded_style_has_code(c: CTaffyStyle)
    requires
        spec_style_codes_valid(c),
    ensures
        style_has_code(spec_style_from_c(c)),
{
    lemma_align_items_codes(None, c.align_items);
    lemma_align_items_codes(None, c.align_self);
    lemma_align_items_codes(None, c.justify_items);
    lemma_align_items_codes(None, c.justify_self);
    lemma_align_content_codes(None, c.align_content);
    lemma_align_content_codes(None, c.justify_content);
}

} // verus!

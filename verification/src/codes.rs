//! Status codes returned by every operation, and the numeric
//! discriminators that encode enumerated style values.

use vstd::prelude::*;

verus! {

pub const TAFFY_OK: u32 = 0;
pub const TAFFY_ERR_NULL_POINTER: u32 = 1;
pub const TAFFY_ERR_INVALID_NODE: u32 = 2;
pub const TAFFY_ERR_INDEX_OUT_OF_BOUNDS: u32 = 3;
pub const TAFFY_ERR_BUFFER_TOO_SMALL: u32 = 4;
pub const TAFFY_ERR_INVALID_ARGUMENT: u32 = 5;
pub const TAFFY_ERR_NO_PARENT: u32 = 6;
pub const TAFFY_ERR_UNKNOWN: u32 = 99;
// taffy_display_t
pub const TAFFY_DISPLAY_NONE: u8 = 0;
pub const TAFFY_DISPLAY_FLEX: u8 = 1;
pub const TAFFY_DISPLAY_BLOCK: u8 = 2;
pub const TAFFY_DISPLAY_FLOW_ROOT: u8 = 3;
pub const TAFFY_DISPLAY_GRID: u8 = 4;
// taffy_position_type_t
pub const TAFFY_POSITION_RELATIVE: u8 = 0;
pub const TAFFY_POSITION_ABSOLUTE: u8 = 1;
// taffy_direction_t
pub const TAFFY_DIRECTION_LTR: u8 = 0;
pub const TAFFY_DIRECTION_RTL: u8 = 1;
// taffy_flex_direction_t
pub const TAFFY_FLEX_DIRECTION_ROW: u8 = 0;
pub const TAFFY_FLEX_DIRECTION_COLUMN: u8 = 1;
pub const TAFFY_FLEX_DIRECTION_ROW_REVERSE: u8 = 2;
pub const TAFFY_FLEX_DIRECTION_COLUMN_REVERSE: u8 = 3;
// taffy_flex_wrap_t
pub const TAFFY_FLEX_WRAP_NO_WRAP: u8 = 0;
pub const TAFFY_FLEX_WRAP_WRAP: u8 = 1;
pub const TAFFY_FLEX_WRAP_WRAP_REVERSE: u8 = 2;
pub const TAFFY_FLEX_WRAP_BALANCE: u8 = 3;
pub const TAFFY_FLEX_WRAP_BALANCE_REVERSE: u8 = 4;
// taffy_overflow_t
pub const TAFFY_OVERFLOW_VISIBLE: u8 = 0;
pub const TAFFY_OVERFLOW_CLIP: u8 = 1;
pub const TAFFY_OVERFLOW_HIDDEN: u8 = 2;
pub const TAFFY_OVERFLOW_SCROLL: u8 = 3;
// taffy_box_sizing_t
pub const TAFFY_BOX_SIZING_BORDER_BOX: u8 = 0;
pub const TAFFY_BOX_SIZING_CONTENT_BOX: u8 = 1;
// taffy_dim_type_t
pub const TAFFY_DIM_AUTO: u8 = 0;
pub const TAFFY_DIM_LENGTH: u8 = 1;
pub const TAFFY_DIM_PERCENT: u8 = 2;
pub const TAFFY_DIM_MIN_CONTENT: u8 = 3;
pub const TAFFY_DIM_MAX_CONTENT: u8 = 4;
pub const TAFFY_DIM_FIT_CONTENT_LENGTH: u8 = 5;
pub const TAFFY_DIM_FIT_CONTENT_PERCENT: u8 = 6;
pub const TAFFY_DIM_STRETCH: u8 = 7;
pub const TAFFY_DIM_FIT_CONTENT: u8 = 8;
// taffy_align_items_t
pub const TAFFY_ALIGN_AUTO: u8 = 0;
pub const TAFFY_ALIGN_START: u8 = 1;
pub const TAFFY_ALIGN_END: u8 = 2;
pub const TAFFY_ALIGN_FLEX_START: u8 = 3;
pub const TAFFY_ALIGN_FLEX_END: u8 = 4;
pub const TAFFY_ALIGN_SELF_START: u8 = 5;
pub const TAFFY_ALIGN_SELF_END: u8 = 6;
pub const TAFFY_ALIGN_CENTER: u8 = 7;
pub const TAFFY_ALIGN_BASELINE: u8 = 8;
pub const TAFFY_ALIGN_STRETCH: u8 = 9;
pub const TAFFY_ALIGN_SAFE_START: u8 = 10;
pub const TAFFY_ALIGN_SAFE_END: u8 = 11;
pub const TAFFY_ALIGN_SAFE_FLEX_START: u8 = 12;
pub const TAFFY_ALIGN_SAFE_FLEX_END: u8 = 13;
pub const TAFFY_ALIGN_SAFE_SELF_START: u8 = 14;
pub const TAFFY_ALIGN_SAFE_SELF_END: u8 = 15;
pub const TAFFY_ALIGN_SAFE_CENTER: u8 = 16;
// taffy_align_content_t
pub const TAFFY_CONTENT_ALIGN_AUTO: u8 = 0;
pub const TAFFY_CONTENT_ALIGN_START: u8 = 1;
pub const TAFFY_CONTENT_ALIGN_END: u8 = 2;
pub const TAFFY_CONTENT_ALIGN_FLEX_START: u8 = 3;
pub const TAFFY_CONTENT_ALIGN_FLEX_END: u8 = 4;
pub const TAFFY_CONTENT_ALIGN_CENTER: u8 = 5;
pub const TAFFY_CONTENT_ALIGN_STRETCH: u8 = 6;
pub const TAFFY_CONTENT_ALIGN_SPACE_BETWEEN: u8 = 7;
pub const TAFFY_CONTENT_ALIGN_SPACE_EVENLY: u8 = 8;
pub const TAFFY_CONTENT_ALIGN_SPACE_AROUND: u8 = 9;
pub const TAFFY_CONTENT_ALIGN_SAFE_START: u8 = 10;
pub const TAFFY_CONTENT_ALIGN_SAFE_END: u8 = 11;
pub const TAFFY_CONTENT_ALIGN_SAFE_FLEX_START: u8 = 12;
pub const TAFFY_CONTENT_ALIGN_SAFE_FLEX_END: u8 = 13;
pub const TAFFY_CONTENT_ALIGN_SAFE_CENTER: u8 = 14;
// taffy_available_space_type_t
pub const TAFFY_AVAILABLE_DEFINITE: u8 = 0;
pub const TAFFY_AVAILABLE_MIN_CONTENT: u8 = 1;
pub const TAFFY_AVAILABLE_MAX_CONTENT: u8 = 2;

} // verus!

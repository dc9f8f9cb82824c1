//! The pieces under the session: the host's memory layout, and the request
//! and reply of a property read.

pub mod get_window_property;
pub mod layout;

pub use self::get_window_property::{
    buffer_len, get_window_property, item_size, spec_item_size, GetWindowPropertyResponse,
    PropertyRequest, MAX_PROPERTY_WORDS,
};
pub use self::layout::{
    big_endian, byte_range, lemma_byte_range_fits_u64, lemma_little_endian_is_big_endian_reversed,
    lemma_value_below_byte_range, lemma_value_of_one_byte, lemma_value_of_two_bytes,
    little_endian, ByteOrder, Layout, WordSize,
};

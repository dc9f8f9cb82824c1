//! The request that reads a property of a window, and the reply to it.

use crate::atom::Atom;
use crate::util::layout::Layout;
use crate::window::Window;
use crate::NotSupported;
use vstd::prelude::*;

verus! {

/// The most 32-bit words of a property that one read asks for. What lies
/// beyond them is not fetched: a longer property comes back cut short, and
/// is taken as it comes.
pub const MAX_PROPERTY_WORDS: i64 = 4096;

/// The arguments of one property read, as `XGetWindowProperty` takes them.
#[derive(Copy, Clone, Debug, PartialEq, Eq, Structural)]
pub struct PropertyRequest {
    /// The window whose property is read.
    pub window: Window,
    /// The property to read.
    pub property: Atom,
    /// Where the read starts, in 32-bit words.
    pub long_offset: i64,
    /// How much is read at most, in 32-bit words.
    pub long_length: i64,
    /// Whether the server deletes the property after the read.
    pub delete: bool,
    /// The type that the property is expected to have.
    pub req_type: u64,
}

impl PropertyRequest {
    /// The read of `property` on `window` from its start, bounded by
    /// [`MAX_PROPERTY_WORDS`], that leaves the property in place.
    pub fn new(window: Window, property: Atom, expected_type: u64) -> (request: Self)
        ensures
            request == (PropertyRequest {
                window,
                property,
                long_offset: 0,
                long_length: MAX_PROPERTY_WORDS,
                delete: false,
                req_type: expected_type,
            }),
    {
        PropertyRequest {
            window,
            property,
            long_offset: 0,
            long_length: MAX_PROPERTY_WORDS,
            delete: false,
            req_type: expected_type,
        }
    }
}

/// What a successful property read gave back.
///
/// The buffer is a copy of the one that Xlib allocated: whoever made the
/// copy has freed Xlib's buffer already, so nothing here points into
/// foreign memory.
#[derive(Debug)]
pub struct GetWindowPropertyResponse {
    /// The type that the property has.
    pub actual_type_return: u64,
    /// The format of the property: 8, 16 or 32 bits to an item, or 0 where
    /// the window has no such property.
    pub actual_format_return: i32,
    /// The number of items in the buffer.
    pub nitems_return: u64,
    /// The number of bytes of the property that the read left behind.
    /// Nothing here acts on it.
    pub bytes_after_return: u64,
    /// The bytes of the buffer, as they lay in the host's memory.
    pub proper_return: Vec<u8>,
    /// The memory layout of the host that filled the buffer.
    pub layout: Layout,
}

/// The number of bytes that one item of a property of the given format
/// takes in the buffer, where the format is one of 8, 16 and 32. An item of
/// format 32 fills a whole machine word, also where that word has 64 bits.
pub open spec fn spec_item_size(format: i32, layout: Layout) -> Option<usize> {
    if format == 8 {
        Some(1usize)
    } else if format == 16 {
        Some(2usize)
    } else if format == 32 {
        Some(layout.word_size.spec_bytes())
    } else {
        None
    }
}

/// The number of bytes that one item of a property of the given format
/// takes in the buffer; `None` for a format other than 8, 16 and 32.
#[verifier::when_used_as_spec(spec_item_size)]
pub fn item_size(format: i32, layout: Layout) -> (size: Option<usize>)
    ensures
        size == spec_item_size(format, layout),
{
    if format == 8 {
        Some(1)
    } else if format == 16 {
        Some(2)
    } else if format == 32 {
        Some(layout.word_size.bytes())
    } else {
        None
    }
}

/// The number of bytes that a buffer of `nitems` items of the given format
/// holds: what is to be copied out of the server's buffer. `None` where the
/// format is not one of 8, 16 and 32, or the number does not fit a `usize`.
pub fn buffer_len(format: i32, nitems: u64, layout: Layout) -> (len: Option<usize>)
    ensures
        match spec_item_size(format, layout) {
            Some(size) => if nitems * size <= usize::MAX {
                len == Some((nitems * size) as usize)
            } else {
                len is None
            },
            None => len is None,
        },
{
    match item_size(format, layout) {
        Some(size) => {
            if nitems > (usize::MAX / size) as u64 {
                assert(nitems * size > usize::MAX) by (nonlinear_arith)
                    requires
                        nitems > usize::MAX / size,
                        0 < size <= 8,
                ;
                None
            } else {
                assert(nitems * size <= usize::MAX) by (nonlinear_arith)
                    requires
                        nitems <= usize::MAX / size,
                        0 < size <= 8,
                ;
                Some(nitems as usize * size)
            }
        },
        None => None,
    }
}

/// Tells a property read that succeeded from one that failed: `status` is
/// what `XGetWindowProperty` returned, and only 0 stands for success. A
/// successful read hands its reply on unchanged, whatever type it declares.
pub fn get_window_property(status: i32, response: GetWindowPropertyResponse) -> (result: Result<
    GetWindowPropertyResponse,
    NotSupported,
>)
    ensures
        status == 0 ==> result == Ok::<GetWindowPropertyResponse, NotSupported>(response),
        status != 0 ==> result is Err,
{
    if status == 0 {
        Ok(response)
    } else {
        Err(NotSupported)
    }
}

} // verus!

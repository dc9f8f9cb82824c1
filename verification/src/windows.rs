//! The list of windows that a property holds, and how it is read out of the
//! reply's buffer.

use crate::util::get_window_property::{item_size, spec_item_size, GetWindowPropertyResponse};
use crate::util::layout::{lemma_value_of_one_byte, lemma_value_of_two_bytes, ByteOrder};
use crate::window::Window;
use crate::NotSupported;
use std::slice::Iter;
use vstd::prelude::*;
use vstd::slice::slice_subrange;
use vstd::std_specs::slice::{axiom_spec_slice_iter, into_iter_elts};

verus! {

/// A list of windows, in the order in which the property named them.
#[derive(Debug)]
pub struct Windows(pub(crate) Vec<Window>);

impl View for Windows {
    type V = Seq<Window>;

    closed spec fn view(&self) -> Seq<Window> {
        self.0@
    }
}

/// The window that item `index` of a buffer names, where each item takes
/// `size` bytes: the number that the item's bytes hold in the byte order of
/// the host, widened to the width of a window.
pub open spec fn window_at(response: GetWindowPropertyResponse, size: usize, index: int) -> Window {
    Window(
        response.layout.byte_order.value(
            response.proper_return@.subrange(index * size, index * size + size),
        ) as u64,
    )
}

/// The windows that a reply holds for one who expects a property of type
/// `expected_type`.
///
/// There are none to be had where the reply declares another type, where
/// its format is not one of 8, 16 and 32, or where its buffer is too short
/// for the items it announces. Otherwise there are exactly
/// `nitems_return` of them, read from the start of the buffer, and what
/// lies behind them in the buffer is not looked at.
pub open spec fn decoded(response: GetWindowPropertyResponse, expected_type: u64) -> Option<
    Seq<Window>,
> {
    if response.actual_type_return != expected_type {
        None
    } else {
        match spec_item_size(response.actual_format_return, response.layout) {
            None => None,
            Some(size) => if response.nitems_return * size > response.proper_return@.len() {
                None
            } else {
                Some(
                    Seq::new(
                        response.nitems_return as nat,
                        |index: int| window_at(response, size, index),
                    ),
                )
            },
        }
    }
}

impl Windows {
    /// Reads the windows out of a reply, for one who expects a property of
    /// type `expected_type`. The reply is used up: the list that comes back
    /// holds its own copies and nothing of the buffer.
    pub fn decode(response: GetWindowPropertyResponse, expected_type: u64) -> (result: Result<
        Windows,
        NotSupported,
    >)
        ensures
            match result {
                Ok(windows) => decoded(response, expected_type) == Some(windows@),
                Err(_) => decoded(response, expected_type) is None,
            },
    {
        if response.actual_type_return != expected_type {
            return Err(NotSupported);
        }
        let size: usize = match item_size(response.actual_format_return, response.layout) {
            Some(size) => size,
            None => {
                return Err(NotSupported);
            },
        };
        let data: &[u8] = response.proper_return.as_slice();
        let capacity: usize = data.len() / size;
        if response.nitems_return > capacity as u64 {
            assert(response.nitems_return * size > data@.len()) by (nonlinear_arith)
                requires
                    response.nitems_return > capacity,
                    capacity == data@.len() as int / size as int,
                    0 < size,
            ;
            return Err(NotSupported);
        }
        let count: usize = response.nitems_return as usize;
        assert(count * size <= data@.len()) by (nonlinear_arith)
            requires
                count <= capacity,
                capacity == data@.len() as int / size as int,
                0 < size,
        ;
        let mut list: Vec<Window> = Vec::new();
        let mut index: usize = 0;
        while index < count
            invariant
                index <= count,
                0 < size <= 8,
                count * size <= data@.len() <= usize::MAX,
                data@ == response.proper_return@,
                list@.len() == index,
                forall|k: int| 0 <= k < index ==> list@[k] == window_at(response, size, k),
            decreases count - index,
        {
            assert(0 <= index * size && index * size + size <= count * size) by (nonlinear_arith)
                requires
                    0 <= index < count,
                    0 < size,
            ;
            let start: usize = index * size;
            let item: &[u8] = slice_subrange(data, start, start + size);
            let number: u64 = response.layout.byte_order.read(item).unwrap();
            list.push(Window(number));
            index = index + 1;
        }
        Ok(Windows(list))
    }

    /// Walks the windows in their order.
    pub fn iter(&self) -> (windows: Iter<'_, Window>)
        ensures
            into_iter_elts(windows) == self@,
    {
        broadcast use axiom_spec_slice_iter;

        self.0.iter()
    }

    /// Gives the list up as a vector.
    pub fn inner(self) -> (windows: Vec<Window>)
        ensures
            windows@ == self@,
    {
        self.0
    }

    /// The list as a vector.
    pub fn as_vec(&self) -> (windows: &Vec<Window>)
        ensures
            windows@ == self@,
    {
        &self.0
    }

    /// The list as a vector that can be changed: what the vector holds in
    /// the end is what the list holds then.
    pub fn as_vec_mut(&mut self) -> (windows: &mut Vec<Window>)
        ensures
            windows@ == old(self)@,
            final(self)@ == final(windows)@,
    {
        &mut self.0
    }
}

/// A reply of the expected type and of format 8, 16 or 32, whose buffer
/// holds the items it announces, has as many windows as items, in the
/// order of the buffer, and each window is the number that its item holds.
pub proof fn lemma_decoded_holds_every_item(
    response: GetWindowPropertyResponse,
    expected_type: u64,
    size: usize,
)
    requires
        response.actual_type_return == expected_type,
        spec_item_size(response.actual_format_return, response.layout) == Some(size),
        response.nitems_return * size <= response.proper_return@.len(),
    ensures
        decoded(response, expected_type) matches Some(windows) && {
            &&& windows.len() == response.nitems_return
            &&& forall|index: int|
                0 <= index < windows.len() ==> windows[index] == window_at(response, size, index)
        },
{
}

/// In a reply of format 8 each byte of the buffer is one window.
pub proof fn lemma_decoded_format_8(response: GetWindowPropertyResponse, expected_type: u64)
    requires
        response.actual_type_return == expected_type,
        response.actual_format_return == 8,
        response.nitems_return <= response.proper_return@.len(),
    ensures
        decoded(response, expected_type) matches Some(windows) && {
            &&& windows.len() == response.nitems_return
            &&& forall|index: int|
                0 <= index < windows.len() ==> windows[index] == Window(
                    response.proper_return@[index] as u64,
                )
        },
{
    let windows = decoded(response, expected_type).unwrap();
    assert forall|index: int| 0 <= index < windows.len() implies windows[index] == Window(
        response.proper_return@[index] as u64,
    ) by {
        let byte = response.proper_return@[index];
        assert(response.proper_return@.subrange(index * 1, index * 1 + 1) =~= seq![byte]);
        lemma_value_of_one_byte(byte);
    }
}

/// In a reply of format 16 each pair of bytes of the buffer is one window,
/// with the more significant byte where the byte order of the host puts
/// it.
pub proof fn lemma_decoded_format_16(response: GetWindowPropertyResponse, expected_type: u64)
    requires
        response.actual_type_return == expected_type,
        response.actual_format_return == 16,
        response.nitems_return * 2 <= response.proper_return@.len(),
    ensures
        decoded(response, expected_type) matches Some(windows) && {
            &&& windows.len() == response.nitems_return
            &&& forall|index: int|
                0 <= index < windows.len() ==> windows[index] == Window(
                    match response.layout.byte_order {
                        ByteOrder::LittleEndian => response.proper_return@[2 * index] + 256
                            * response.proper_return@[2 * index + 1],
                        ByteOrder::BigEndian => 256 * response.proper_return@[2 * index]
                            + response.proper_return@[2 * index + 1],
                    } as u64,
                )
        },
{
    let windows = decoded(response, expected_type).unwrap();
    assert forall|index: int| 0 <= index < windows.len() implies windows[index] == Window(
        match response.layout.byte_order {
            ByteOrder::LittleEndian => response.proper_return@[2 * index] + 256
                * response.proper_return@[2 * index + 1],
            ByteOrder::BigEndian => 256 * response.proper_return@[2 * index]
                + response.proper_return@[2 * index + 1],
        } as u64,
    ) by {
        let first = response.proper_return@[2 * index];
        let second = response.proper_return@[2 * index + 1];
        assert(response.proper_return@.subrange(index * 2, index * 2 + 2) =~= seq![first, second]);
        lemma_value_of_two_bytes(first, second);
    }
}

/// A reply that declares another type than the expected one has no
/// windows, whatever else it holds.
pub proof fn lemma_decoded_needs_expected_type(
    response: GetWindowPropertyResponse,
    expected_type: u64,
)
    requires
        response.actual_type_return != expected_type,
    ensures
        decoded(response, expected_type) is None,
{
}

/// A reply whose format is not one of 8, 16 and 32 has no windows,
/// whatever else it holds.
pub proof fn lemma_decoded_needs_known_format(
    response: GetWindowPropertyResponse,
    expected_type: u64,
)
    requires
        response.actual_format_return != 8,
        response.actual_format_return != 16,
        response.actual_format_return != 32,
    ensures
        decoded(response, expected_type) is None,
{
}

} // verus!

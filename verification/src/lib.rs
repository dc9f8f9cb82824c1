//! Finds the windows that a window manager shows on an X11 display, and the
//! one that has the focus, through the properties `_NET_CLIENT_LIST` and
//! `_NET_ACTIVE_WINDOW` of the Extended Window Manager Hints.
//!
//! The library decides and decodes, and leaves the talking to its caller. A
//! [`Session`] takes a query forward one [`Step`] at a time: a step names
//! the request to make of the server, the caller makes it and comes back
//! with the reply as an [`Event`], until a step gives the answer. What the
//! server allocates the caller copies and frees at once, so that a reply
//! reaches the library as plain bytes, together with the [`util::Layout`]
//! of the host they were copied from.
//!
//! Every function here is verified against its contract: the windows that
//! come out of a reply are those that [`decoded`] names, and the requests
//! that a session asks for are those of [`next_step`].

use vstd::prelude::*;

mod atom;
mod session;
pub mod util;
mod window;
mod windows;

pub use self::atom::{
    cache_after, is_first_nul, lemma_bad_name_not_cached, lemma_other_names_untouched,
    lemma_resolve_again, nul_free, resolved_atom, Atom, AtomCache, AtomName, EncodingError,
    Resolution,
};
pub use self::session::{
    fetched, known_after, lemma_active_window_is_first, lemma_asked_once, lemma_known_is_kept,
    lemma_query_names, lemma_read_ends_query, lemma_reply_is_taken_down, next_step, pending,
    window_type, Action, Event, Known, Pending, Query, Session, Step, StepView,
};
pub use self::window::{
    first_window, is_text_of, lemma_text_is_unique, lemma_text_of_nul_free, Window, WindowTitle,
};
pub use self::windows::{
    decoded, lemma_decoded_format_16, lemma_decoded_format_8, lemma_decoded_holds_every_item,
    lemma_decoded_needs_expected_type, lemma_decoded_needs_known_format, window_at, Windows,
};

verus! {

/// The error of a null pointer where Xlib was to give something: a
/// display that could not be opened, or a window without a title.
#[derive(Copy, Clone, Debug)]
pub struct Null;

/// The error of a query that could not be answered from the property it
/// reads: the server has no atom for the property's name, the read failed,
/// the property is not of type `WINDOW`, its format is not one of 8, 16
/// and 32, its buffer is shorter than the items it announces, or, where
/// one window is asked for, it holds none.
///
/// This is what a window manager that does not follow the Extended Window
/// Manager Hints comes to. Nothing is tried again, and no other property is
/// read in place of the one that is missing.
#[derive(Copy, Clone, Debug)]
pub struct NotSupported;

/// The name of the property that lists the windows under the window
/// manager's care.
pub const NET_CLIENT_LIST: &'static str = "_NET_CLIENT_LIST";

/// The name of the property that holds the window with the focus.
pub const NET_ACTIVE_WINDOW: &'static str = "_NET_ACTIVE_WINDOW";

} // verus!

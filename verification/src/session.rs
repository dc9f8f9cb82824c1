//! The session: what is known of one connection, and the steps by which a
//! query finds out the rest.
//!
//! Nothing here talks to the server. A query is advanced one step at a
//! time: each step either names the one request that is to be made of the
//! server next, or gives the answer. Whoever owns the connection makes the
//! request and hands the server's reply to the next step.

use crate::atom::{nul_free, Atom, AtomCache, AtomName, Resolution};
use crate::util::get_window_property::{
    get_window_property, GetWindowPropertyResponse, PropertyRequest, MAX_PROPERTY_WORDS,
};
use crate::window::{first_window, Window};
use crate::windows::{decoded, Windows};
use crate::{NotSupported, NET_ACTIVE_WINDOW, NET_CLIENT_LIST};
use vstd::prelude::*;
use vstd::string::StringSliceAdditionalSpecFns;

verus! {

/// The type atom `WINDOW`, which the properties read here are expected to
/// declare. The X protocol fixes it at 33.
pub open spec fn window_type() -> u64 {
    33
}

/// The type atom `WINDOW` as Xlib defines it: the constant
/// `x11::xlib::XA_WINDOW`, which is 33.
#[verifier::external_body]
fn xa_window() -> (atom: u64)
    ensures
        atom == window_type(),
{
    x11::xlib::XA_WINDOW
}

/// A property of the root window that a query reads.
#[derive(Copy, Clone, Debug, PartialEq, Eq, Structural)]
pub enum Query {
    /// `_NET_CLIENT_LIST`: the windows that the window manager manages.
    ClientList,
    /// `_NET_ACTIVE_WINDOW`: the window that has the focus.
    ActiveWindow,
}

impl Query {
    /// The name of the property, byte by byte.
    pub open spec fn spec_name(self) -> Seq<u8> {
        match self {
            Query::ClientList => NET_CLIENT_LIST.spec_bytes(),
            Query::ActiveWindow => NET_ACTIVE_WINDOW.spec_bytes(),
        }
    }

    /// The name of the property.
    pub fn name(self) -> (name: AtomName)
        ensures
            name@ == self.spec_name(),
            nul_free(name@),
    {
        broadcast use vstd::string::is_ascii_spec_bytes;

        proof {
            reveal_strlit("_NET_CLIENT_LIST");
            reveal_strlit("_NET_ACTIVE_WINDOW");
        }
        let text: &'static str = match self {
            Query::ClientList => NET_CLIENT_LIST,
            Query::ActiveWindow => NET_ACTIVE_WINDOW,
        };
        assert(vstd::string::is_ascii(text));
        AtomName::new(text.as_bytes()).unwrap()
    }
}

/// The two properties have different names, and both names can be handed
/// to the server: neither holds a zero byte.
pub proof fn lemma_query_names()
    ensures
        Query::ClientList.spec_name() != Query::ActiveWindow.spec_name(),
        Query::ClientList.spec_name().len() == 16,
        Query::ActiveWindow.spec_name().len() == 18,
        nul_free(Query::ClientList.spec_name()),
        nul_free(Query::ActiveWindow.spec_name()),
{
    broadcast use vstd::string::is_ascii_spec_bytes;

    reveal_strlit("_NET_CLIENT_LIST");
    reveal_strlit("_NET_ACTIVE_WINDOW");
    assert(vstd::string::is_ascii(NET_CLIENT_LIST));
    assert(vstd::string::is_ascii(NET_ACTIVE_WINDOW));
}

/// A request that is to be made of the server.
#[derive(Debug)]
pub enum Action {
    /// Ask for the default root window of the display.
    DefaultRootWindow,
    /// Ask for the atom of this name, to be made if the server has none.
    InternAtom(AtomName),
    /// Read this property.
    GetWindowProperty(PropertyRequest),
}

/// What the server replied to a request.
#[derive(Debug)]
pub enum Event {
    /// The default root window.
    RootWindow(Window),
    /// The atom of the name asked for.
    Atom(Atom),
    /// The outcome of a property read.
    Property {
        /// What the call returned: 0 for success.
        status: i32,
        /// The reply, as far as the call filled it in.
        response: GetWindowPropertyResponse,
    },
}

/// Where a query stands after a step.
#[derive(Debug)]
pub enum Step<T> {
    /// This request is to be made, and its reply handed to the next step.
    Perform(Action),
    /// The query has ended, with this answer.
    Done(Result<T, NotSupported>),
}

/// A step as a plain value: the request with the name as its bytes, or the
/// answer, of which there is none where the query is not supported.
pub enum StepView<T> {
    /// The default root window is to be asked for.
    DefaultRootWindow,
    /// The atom of this name is to be asked for.
    InternAtom(Seq<u8>),
    /// This property is to be read.
    GetWindowProperty(PropertyRequest),
    /// The query has ended.
    Done(Option<T>),
}

impl View for Step<Windows> {
    type V = StepView<Seq<Window>>;

    open spec fn view(&self) -> StepView<Seq<Window>> {
        match *self {
            Step::Perform(Action::DefaultRootWindow) => StepView::DefaultRootWindow,
            Step::Perform(Action::InternAtom(name)) => StepView::InternAtom(name@),
            Step::Perform(Action::GetWindowProperty(request)) => StepView::GetWindowProperty(
                request,
            ),
            Step::Done(Ok(windows)) => StepView::Done(Some(windows@)),
            Step::Done(Err(_)) => StepView::Done(None),
        }
    }
}

impl View for Step<Window> {
    type V = StepView<Window>;

    open spec fn view(&self) -> StepView<Window> {
        match *self {
            Step::Perform(Action::DefaultRootWindow) => StepView::DefaultRootWindow,
            Step::Perform(Action::InternAtom(name)) => StepView::InternAtom(name@),
            Step::Perform(Action::GetWindowProperty(request)) => StepView::GetWindowProperty(
                request,
            ),
            Step::Done(Ok(window)) => StepView::Done(Some(window)),
            Step::Done(Err(_)) => StepView::Done(None),
        }
    }
}

/// What a session knows: the root window, once the server has named it,
/// and the atoms resolved so far.
pub struct Known {
    /// The root window.
    pub root_window: Option<Window>,
    /// The atoms, by name.
    pub atoms: Map<Seq<u8>, Atom>,
}

/// What a query for the property `name` still lacks.
pub enum Pending {
    /// The root window is not known.
    RootWindow,
    /// The atom of the name is not known.
    Atom,
    /// The server has no atom for the name, so the property cannot be read.
    Unsupported,
    /// All is known, and this read is to be made.
    Property(PropertyRequest),
}

/// What a query for the property `name` lacks first: the root window, then
/// the atom. With both known the property is read on the root window, from
/// its start and bounded by [`MAX_PROPERTY_WORDS`], as a property of type
/// `WINDOW`; unless the atom is `None`.
pub open spec fn pending(known: Known, name: Seq<u8>) -> Pending {
    match known.root_window {
        None => Pending::RootWindow,
        Some(window) => if !known.atoms.contains_key(name) {
            Pending::Atom
        } else if known.atoms[name].is_none() {
            Pending::Unsupported
        } else {
            Pending::Property(
                PropertyRequest {
                    window,
                    property: known.atoms[name],
                    long_offset: 0,
                    long_length: MAX_PROPERTY_WORDS,
                    delete: false,
                    req_type: window_type(),
                },
            )
        },
    }
}

/// What is known after a step of a query for `name`. A reply is taken down
/// where it is the one that the query lacked; any other changes nothing.
pub open spec fn known_after(known: Known, name: Seq<u8>, event: Option<Event>) -> Known {
    match (pending(known, name), event) {
        (Pending::RootWindow, Some(Event::RootWindow(window))) => Known {
            root_window: Some(window),
            atoms: known.atoms,
        },
        (Pending::Atom, Some(Event::Atom(atom))) => Known {
            root_window: known.root_window,
            atoms: known.atoms.insert(name, atom),
        },
        _ => known,
    }
}

/// The windows that a property read gave: none where the call failed, that
/// is returned another status than 0, and else those that the reply holds
/// for one who expects the type `WINDOW`.
pub open spec fn fetched(status: i32, response: GetWindowPropertyResponse) -> Option<Seq<Window>> {
    if status == 0 {
        decoded(response, window_type())
    } else {
        None
    }
}

/// The step that a query for `name` takes on `event`.
///
/// Where the read was pending and the event is its outcome, the query ends
/// with the windows fetched. In every other case the event is taken down,
/// if it is the reply that was lacking, and the step is the request for
/// what is lacking then; the query ends unsupported where the server has
/// no atom for the name.
pub open spec fn next_step(known: Known, name: Seq<u8>, event: Option<Event>) -> StepView<
    Seq<Window>,
> {
    match (pending(known, name), event) {
        (Pending::Property(_), Some(Event::Property { status, response })) => StepView::Done(
            fetched(status, response),
        ),
        _ => match pending(known_after(known, name, event), name) {
            Pending::RootWindow => StepView::DefaultRootWindow,
            Pending::Atom => StepView::InternAtom(name),
            Pending::Unsupported => StepView::Done(None),
            Pending::Property(request) => StepView::GetWindowProperty(request),
        },
    }
}

/// A connection with what has been found out about it so far. Both the
/// root window and each atom are asked for once, when first needed, and
/// kept from then on.
pub struct Session<D> {
    /// The display that has been opened.
    pub display: D,
    /// The root window of the display, once known.
    pub root_window: Option<Window>,
    /// The atoms resolved so far.
    pub atoms: AtomCache,
}

impl<D> Session<D> {
    /// What the session knows.
    pub open spec fn known(self) -> Known {
        Known { root_window: self.root_window, atoms: self.atoms@ }
    }

    /// A session on an open display, of which nothing is known yet.
    pub fn from_display(display: D) -> (session: Self)
        ensures
            session.display == display,
            session.known() == (Known { root_window: None, atoms: Map::empty() }),
    {
        Session { display, root_window: None, atoms: AtomCache::new() }
    }

    /// The atom of `_NET_CLIENT_LIST`, if it has been resolved.
    pub fn client_list_atom(&self) -> (atom: Option<Atom>)
        ensures
            atom == if self.atoms@.contains_key(Query::ClientList.spec_name()) {
                Some(self.atoms@[Query::ClientList.spec_name()])
            } else {
                None::<Atom>
            },
    {
        self.atoms.get(Query::ClientList.name().as_bytes())
    }

    /// The atom of `_NET_ACTIVE_WINDOW`, if it has been resolved.
    pub fn active_window_atom(&self) -> (atom: Option<Atom>)
        ensures
            atom == if self.atoms@.contains_key(Query::ActiveWindow.spec_name()) {
                Some(self.atoms@[Query::ActiveWindow.spec_name()])
            } else {
                None::<Atom>
            },
    {
        self.atoms.get(Query::ActiveWindow.name().as_bytes())
    }

    /// Takes one step of `query`: `event` is the server's reply to the
    /// request of the step before, and `None` at the start.
    pub fn advance(&mut self, query: Query, event: Option<Event>) -> (step: Step<Windows>)
        ensures
            final(self).display == old(self).display,
            final(self).known() == known_after(old(self).known(), query.spec_name(), event),
            step@ == next_step(old(self).known(), query.spec_name(), event),
    {
        let name: AtomName = query.name();
        let mut event: Option<Event> = event;
        let root: Window = match self.root_window {
            Some(window) => window,
            None => match event {
                Some(Event::RootWindow(window)) => {
                    self.root_window = Some(window);
                    event = None;
                    window
                },
                _ => {
                    return Step::Perform(Action::DefaultRootWindow);
                },
            },
        };
        let reply: Option<Atom> = match event {
            Some(Event::Atom(atom)) => Some(atom),
            _ => None,
        };
        let atom: Atom = match self.atoms.resolve_name(name, reply) {
            Resolution::Resolved(atom) => atom,
            Resolution::Intern(unknown) => {
                return Step::Perform(Action::InternAtom(unknown));
            },
        };
        if atom.is_none() {
            return Step::Done(Err(NotSupported));
        }
        match event {
            Some(Event::Property { status, response }) => {
                match get_window_property(status, response) {
                    Ok(response) => Step::Done(Windows::decode(response, xa_window())),
                    Err(error) => Step::Done(Err(error)),
                }
            },
            _ => Step::Perform(
                Action::GetWindowProperty(PropertyRequest::new(root, atom, xa_window())),
            ),
        }
    }

    /// Takes one step of the query for all windows, which reads
    /// `_NET_CLIENT_LIST` on the root window.
    pub fn get_windows(&mut self, event: Option<Event>) -> (step: Step<Windows>)
        ensures
            final(self).display == old(self).display,
            final(self).known() == known_after(
                old(self).known(),
                Query::ClientList.spec_name(),
                event,
            ),
            step@ == next_step(old(self).known(), Query::ClientList.spec_name(), event),
    {
        self.advance(Query::ClientList, event)
    }

    /// Takes one step of the query for the window that has the focus: see
    /// [`Window::active_window`].
    pub fn active_window(&mut self, event: Option<Event>) -> (step: Step<Window>)
        ensures
            final(self).display == old(self).display,
            final(self).known() == known_after(
                old(self).known(),
                Query::ActiveWindow.spec_name(),
                event,
            ),
            step@ == first_window(
                next_step(old(self).known(), Query::ActiveWindow.spec_name(), event),
            ),
    {
        Window::active_window(self, event)
    }
}

/// What a session knows, it keeps: a step never forgets the root window
/// nor an atom, and never changes one that it knew.
pub proof fn lemma_known_is_kept(known: Known, name: Seq<u8>, event: Option<Event>)
    ensures
        known.root_window is Some ==> known_after(known, name, event).root_window
            == known.root_window,
        known.atoms.submap_of(known_after(known, name, event).atoms),
{
}

/// Nothing is asked for twice: what a query no longer lacks, no later
/// step of it lacks again, whatever events come. Once the root window is
/// known it is not asked for; once the atom is known too, what is pending
/// stays as it is.
pub proof fn lemma_asked_once(known: Known, name: Seq<u8>, event: Option<Event>)
    ensures
        !(pending(known, name) is RootWindow) ==> !(pending(known_after(known, name, event), name)
            is RootWindow),
        !(pending(known, name) is RootWindow) && !(pending(known, name) is Atom) ==> pending(
            known_after(known, name, event),
            name,
        ) == pending(known, name),
{
}

/// A reply that a query lacked is taken down: after the root window's
/// reply the root window is known, and after the atom's reply the atom is,
/// so that neither is pending then.
pub proof fn lemma_reply_is_taken_down(known: Known, name: Seq<u8>, window: Window, atom: Atom)
    ensures
        pending(known, name) is RootWindow ==> known_after(
            known,
            name,
            Some(Event::RootWindow(window)),
        ).root_window == Some(window),
        pending(known, name) is Atom ==> {
            let after = known_after(known, name, Some(Event::Atom(atom)));
            &&& after.atoms.contains_key(name)
            &&& after.atoms[name] == atom
            &&& !(pending(after, name) is RootWindow)
            &&& !(pending(after, name) is Atom)
        },
{
}

/// A query whose read was pending ends on the outcome of the read, and
/// the session knows what it knew: with the windows of the reply where the
/// call succeeded, unsupported where it failed.
pub proof fn lemma_read_ends_query(
    known: Known,
    name: Seq<u8>,
    status: i32,
    response: GetWindowPropertyResponse,
)
    requires
        pending(known, name) is Property,
    ensures
        next_step(known, name, Some(Event::Property { status, response })) == StepView::Done(
            fetched(status, response),
        ),
        known_after(known, name, Some(Event::Property { status, response })) == known,
        status != 0 ==> fetched(status, response) is None,
{
}

/// The window that has the focus is the first window that the property
/// holds. A read that gives no window, or fails, leaves the query
/// unsupported.
pub proof fn lemma_active_window_is_first(
    known: Known,
    name: Seq<u8>,
    status: i32,
    response: GetWindowPropertyResponse,
)
    requires
        pending(known, name) is Property,
    ensures
        first_window(next_step(known, name, Some(Event::Property { status, response })))
            == StepView::Done(
            match fetched(status, response) {
                Some(windows) if windows.len() > 0 => Some(windows[0]),
                _ => None,
            },
        ),
{
}

} // verus!

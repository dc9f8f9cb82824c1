//! Atoms: the numbers by which an X server names properties and types, the
//! names they are asked for by, and the memory of what the server answered.

use vstd::prelude::*;

verus! {

/// The number that the server has given to a name.
///
/// Two atoms are equal when their numbers are.
#[derive(Copy, Clone, Debug, PartialEq, Eq, Structural)]
pub struct Atom(pub u64);

impl Atom {
    /// Whether this is the atom `None`, the number 0, which the server gives
    /// where it has no atom for a name.
    pub open spec fn spec_is_none(self) -> bool {
        self.0 == 0
    }

    /// Whether this is the atom `None`, the number 0, which the server gives
    /// where it has no atom for a name.
    #[verifier::when_used_as_spec(spec_is_none)]
    pub fn is_none(self) -> (none: bool)
        ensures
            none == self.spec_is_none(),
    {
        self.0 == 0
    }
}

/// The error of a name that holds a zero byte and so cannot be handed to
/// the server as a C string.
#[derive(Copy, Clone, Debug, PartialEq, Eq, Structural)]
pub struct EncodingError {
    /// Where the first zero byte stands in the name.
    pub nul_position: usize,
}

/// Whether the first zero byte of `text` stands at `position`.
pub open spec fn is_first_nul(text: Seq<u8>, position: int) -> bool {
    &&& 0 <= position < text.len()
    &&& text[position] == 0
    &&& forall|k: int| 0 <= k < position ==> text[k] != 0
}

/// Whether `text` holds no zero byte.
pub open spec fn nul_free(text: Seq<u8>) -> bool {
    forall|k: int| 0 <= k < text.len() ==> text[k] != 0
}

/// A name that can be handed to the server: a byte string without a zero
/// byte in it. Names are compared byte by byte, so upper and lower case
/// differ.
#[derive(Debug)]
pub struct AtomName {
    bytes: Vec<u8>,
}

impl View for AtomName {
    type V = Seq<u8>;

    closed spec fn view(&self) -> Seq<u8> {
        self.bytes@
    }
}

impl AtomName {
    #[verifier::type_invariant]
    spec fn holds_no_nul(self) -> bool {
        nul_free(self.bytes@)
    }

    /// Takes `text` as a name, unless it holds a zero byte.
    pub fn new(text: &[u8]) -> (result: Result<AtomName, EncodingError>)
        ensures
            match result {
                Ok(name) => name@ == text@ && nul_free(text@),
                Err(error) => is_first_nul(text@, error.nul_position as int),
            },
    {
        let mut bytes: Vec<u8> = Vec::new();
        let mut index: usize = 0;
        while index < text.len()
            invariant
                index <= text@.len(),
                bytes@ == text@.take(index as int),
                nul_free(bytes@),
            decreases text@.len() - index,
        {
            let byte: u8 = text[index];
            if byte == 0 {
                assert forall|k: int| 0 <= k < index implies text@[k] != 0 by {
                    assert(bytes@[k] == text@[k]);
                }
                return Err(EncodingError { nul_position: index });
            }
            bytes.push(byte);
            index = index + 1;
        }
        assert(text@.take(index as int) =~= text@);
        Ok(AtomName { bytes })
    }

    /// The bytes of the name. None of them is zero.
    pub fn as_bytes(&self) -> (bytes: &[u8])
        ensures
            bytes@ == self@,
            nul_free(bytes@),
    {
        proof {
            use_type_invariant(self);
        }
        self.bytes.as_slice()
    }

    /// Gives the name up as its bytes. None of them is zero.
    pub fn into_bytes(self) -> (bytes: Vec<u8>)
        ensures
            bytes@ == self@,
            nul_free(bytes@),
    {
        proof {
            use_type_invariant(&self);
        }
        self.bytes
    }
}

/// What resolving a name comes to.
#[derive(Debug)]
pub enum Resolution {
    /// The name has this atom.
    Resolved(Atom),
    /// The name is not known yet: the server is to be asked for it, and
    /// the name resolved again with the answer at hand.
    Intern(AtomName),
}

/// The atom that resolving `text` gives, where `cache` holds what is known
/// and `reply` is the server's answer, if there is one at hand. A name with
/// a zero byte has no atom; a known name has the atom that the cache holds
/// for it, whatever the reply; an unknown name has the atom of the reply.
pub open spec fn resolved_atom(cache: Map<Seq<u8>, Atom>, text: Seq<u8>, reply: Option<Atom>) -> Option<
    Atom,
> {
    if !nul_free(text) {
        None
    } else if cache.contains_key(text) {
        Some(cache[text])
    } else {
        reply
    }
}

/// What is known after resolving `text`: the reply is taken down for a
/// name that can be handed to the server and was not known before, and
/// nothing changes otherwise.
pub open spec fn cache_after(cache: Map<Seq<u8>, Atom>, text: Seq<u8>, reply: Option<Atom>) -> Map<
    Seq<u8>,
    Atom,
> {
    match reply {
        Some(atom) if nul_free(text) && !cache.contains_key(text) => cache.insert(text, atom),
        _ => cache,
    }
}

struct Entry {
    name: AtomName,
    atom: Atom,
}

/// What `entries` hold for each name: the atom of the first entry of that
/// name.
spec fn contents(entries: Seq<Entry>) -> Map<Seq<u8>, Atom>
    decreases entries.len(),
{
    if entries.len() == 0 {
        Map::empty()
    } else {
        let earlier = contents(entries.drop_last());
        let entry = entries.last();
        if earlier.contains_key(entry.name@) {
            earlier
        } else {
            earlier.insert(entry.name@, entry.atom)
        }
    }
}

/// What the first entries hold stays as it is when more entries follow.
proof fn lemma_contents_grow(entries: Seq<Entry>, count: int)
    requires
        0 <= count <= entries.len(),
    ensures
        contents(entries.take(count)).submap_of(contents(entries)),
    decreases entries.len(),
{
    if count == entries.len() {
        assert(entries.take(count) =~= entries);
    } else {
        lemma_contents_grow(entries.drop_last(), count);
        assert(entries.drop_last().take(count) =~= entries.take(count));
    }
}

/// Whether two byte strings are the same.
fn same_bytes(left: &[u8], right: &[u8]) -> (same: bool)
    ensures
        same == (left@ == right@),
{
    if left.len() != right.len() {
        return false;
    }
    let mut index: usize = 0;
    while index < left.len()
        invariant
            left@.len() == right@.len(),
            index <= left@.len(),
            left@.take(index as int) == right@.take(index as int),
        decreases left@.len() - index,
    {
        if left[index] != right[index] {
            return false;
        }
        index = index + 1;
    }
    assert(left@ =~= left@.take(index as int));
    assert(right@ =~= right@.take(index as int));
    true
}

/// The atoms that one connection has resolved, by name. An atom, once
/// taken down for a name, stays: the server is not asked twice.
pub struct AtomCache {
    entries: Vec<Entry>,
}

impl View for AtomCache {
    type V = Map<Seq<u8>, Atom>;

    closed spec fn view(&self) -> Map<Seq<u8>, Atom> {
        contents(self.entries@)
    }
}

impl AtomCache {
    /// A cache that knows no name.
    pub fn new() -> (cache: AtomCache)
        ensures
            cache@ == Map::<Seq<u8>, Atom>::empty(),
    {
        AtomCache { entries: Vec::new() }
    }

    /// The atom that the cache holds for `name`, if it holds one.
    pub fn get(&self, name: &[u8]) -> (atom: Option<Atom>)
        ensures
            atom == if self@.contains_key(name@) {
                Some(self@[name@])
            } else {
                None::<Atom>
            },
    {
        let mut index: usize = 0;
        while index < self.entries.len()
            invariant
                index <= self.entries@.len(),
                !contents(self.entries@.take(index as int)).contains_key(name@),
            decreases self.entries@.len() - index,
        {
            let entry: &Entry = &self.entries[index];
            proof {
                let longer = self.entries@.take(index + 1);
                assert(longer.drop_last() =~= self.entries@.take(index as int));
            }
            if same_bytes(entry.name.as_bytes(), name) {
                proof {
                    let longer = self.entries@.take(index + 1);
                    lemma_contents_grow(self.entries@, index + 1);
                    assert(contents(longer).contains_key(name@));
                }
                return Some(entry.atom);
            }
            index = index + 1;
        }
        assert(self.entries@.take(index as int) =~= self.entries@);
        None
    }

    /// Resolves a name to its atom, with the server's answer at hand where
    /// there is one.
    ///
    /// A name that the cache knows has the atom held there, and a reply is
    /// not looked at. A name that it does not know has the atom of the
    /// reply, which the cache then holds; without a reply the outcome is
    /// the name, ready to be sent to the server.
    pub fn resolve_name(&mut self, name: AtomName, reply: Option<Atom>) -> (resolution: Resolution)
        ensures
            nul_free(name@),
            final(self)@ == cache_after(old(self)@, name@, reply),
            match resolution {
                Resolution::Resolved(atom) => resolved_atom(old(self)@, name@, reply) == Some(atom),
                Resolution::Intern(unknown) => {
                    &&& unknown@ == name@
                    &&& resolved_atom(old(self)@, name@, reply) is None
                },
            },
    {
        proof {
            use_type_invariant(&name);
        }
        match self.get(name.as_bytes()) {
            Some(atom) => Resolution::Resolved(atom),
            None => match reply {
                Some(atom) => {
                    proof {
                        let longer = self.entries@.push(Entry { name, atom });
                        assert(longer.drop_last() =~= self.entries@);
                    }
                    self.entries.push(Entry { name, atom });
                    Resolution::Resolved(atom)
                },
                None => Resolution::Intern(name),
            },
        }
    }

    /// Resolves `text` to its atom, with the server's answer at hand where
    /// there is one.
    ///
    /// A text with a zero byte is an error and leaves the cache as it was.
    /// Any other text is a name, and is resolved as
    /// [`resolve_name`](AtomCache::resolve_name) says.
    pub fn resolve(&mut self, text: &[u8], reply: Option<Atom>) -> (result: Result<
        Resolution,
        EncodingError,
    >)
        ensures
            final(self)@ == cache_after(old(self)@, text@, reply),
            match result {
                Ok(Resolution::Resolved(atom)) => resolved_atom(old(self)@, text@, reply) == Some(
                    atom,
                ),
                Ok(Resolution::Intern(name)) => {
                    &&& nul_free(text@)
                    &&& name@ == text@
                    &&& resolved_atom(old(self)@, text@, reply) is None
                },
                Err(error) => is_first_nul(text@, error.nul_position as int),
            },
    {
        match AtomName::new(text) {
            Ok(name) => Ok(self.resolve_name(name, reply)),
            Err(error) => Err(error),
        }
    }
}

/// A name resolves to one atom: once the server's answer for a name has
/// been taken down, resolving the name again gives the same atom, whatever
/// reply is at hand then, and leaves the cache as it is.
pub proof fn lemma_resolve_again(
    cache: Map<Seq<u8>, Atom>,
    text: Seq<u8>,
    first: Atom,
    later: Option<Atom>,
)
    requires
        nul_free(text),
    ensures
        resolved_atom(cache_after(cache, text, Some(first)), text, later) == resolved_atom(
            cache,
            text,
            Some(first),
        ),
        cache_after(cache_after(cache, text, Some(first)), text, later) == cache_after(
            cache,
            text,
            Some(first),
        ),
{
}

/// A name with a zero byte resolves to nothing and leaves the cache as it
/// was, whatever reply is at hand.
pub proof fn lemma_bad_name_not_cached(cache: Map<Seq<u8>, Atom>, text: Seq<u8>, reply: Option<Atom>)
    requires
        !nul_free(text),
    ensures
        resolved_atom(cache, text, reply) is None,
        cache_after(cache, text, reply) == cache,
{
}

/// Names are told apart exactly: resolving one name changes nothing for a
/// name that differs from it in any byte.
pub proof fn lemma_other_names_untouched(
    cache: Map<Seq<u8>, Atom>,
    text: Seq<u8>,
    reply: Option<Atom>,
    other: Seq<u8>,
    later: Option<Atom>,
)
    requires
        other != text,
    ensures
        resolved_atom(cache_after(cache, text, reply), other, later) == resolved_atom(
            cache,
            other,
            later,
        ),
{
}

} // verus!

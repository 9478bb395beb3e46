//! Stream headers, the backend registry, and the error taxonomy.

use vstd::prelude::*;

verus! {

/// The byte sequence held by each buffer of a list, buffer by buffer.
pub open spec fn units_view(v: Seq<Vec<u8>>) -> Seq<Seq<u8>> {
    Seq::new(v.len(), |i: int| v[i]@)
}

/// The parameter-set units captured once per stream before decoding starts:
/// the sequence parameter sets and the picture parameter sets, each in the
/// order the stream delivered them.
pub struct VideoHeaders {
    pub sps: Vec<Vec<u8>>,
    pub pps: Vec<Vec<u8>>,
}

impl VideoHeaders {
    /// The sequence parameter sets, unit by unit.
    pub open spec fn sps_view(self) -> Seq<Seq<u8>> {
        units_view(self.sps@)
    }

    /// The picture parameter sets, unit by unit.
    pub open spec fn pps_view(self) -> Seq<Seq<u8>> {
        units_view(self.pps@)
    }
}

/// Reframing input was invalid: no configuration record can be built from it.
#[derive(Clone, Copy, PartialEq, Eq, Structural, Debug)]
pub enum HeaderError {
    MalformedHeaders,
}

/// What the registry can refuse: registering under an identifier that is
/// already taken, or selecting an identifier that was never registered.
#[derive(Clone, Copy, PartialEq, Eq, Structural, Debug)]
pub enum RegistryError {
    DuplicateCodec,
    UnsupportedCodec,
}

/// Session initialization failed; carries the native status code of the call
/// that failed, for diagnostics.
#[derive(Clone, Copy, PartialEq, Eq, Structural, Debug)]
pub struct InitError {
    pub status: i64,
}

/// The sub-kinds of a decode error, one per documented failure of the native
/// decode call.
#[derive(Clone, Copy, PartialEq, Eq, Structural, Debug)]
pub enum DecodeErrorKind {
    BitstreamError,
    ReferenceLost,
    DependentLayerLost,
    MissingParameterSets,
    OutOfMemory,
    InvalidArgument,
    BufferTooSmall,
}

/// A decode failure: the taxonomy kind together with the native status code
/// it was derived from. No native status is discarded.
#[derive(Clone, Copy, PartialEq, Eq, Structural, Debug)]
pub struct DecodeError {
    pub kind: DecodeErrorKind,
    pub status: u32,
}

/// One registry entry: a backend constructor under its four-byte codec
/// identifier.
pub struct RegisteredVideoDecoder<T> {
    pub id: [u8; 4],
    pub constructor: T,
}

/// First-match lookup over a sequence of registry entries.
pub open spec fn lookup_in<T>(es: Seq<RegisteredVideoDecoder<T>>, id: Seq<u8>) -> Option<T>
    decreases es.len(),
{
    if es.len() == 0 {
        None
    } else if es.first().id@ == id {
        Some(es.first().constructor)
    } else {
        lookup_in(es.drop_first(), id)
    }
}

/// Immutable table from a four-byte codec identifier to a backend
/// constructor. It is populated once at startup and only read afterwards;
/// `register` refuses a duplicate identifier rather than overwrite.
pub struct Registry<T> {
    entries: Vec<RegisteredVideoDecoder<T>>,
}

impl<T> Registry<T> {
    /// The constructor registered under `id`, if any.
    pub closed spec fn spec_lookup(self, id: Seq<u8>) -> Option<T> {
        lookup_in(self.entries@, id)
    }

    /// Whether some entry is registered under `id`.
    pub closed spec fn spec_contains(self, id: Seq<u8>) -> bool {
        exists|i: int| 0 <= i < self.entries@.len() && (#[trigger] self.entries@[i]).id@ == id
    }

    /// How many backends are registered.
    pub closed spec fn spec_len(self) -> nat {
        self.entries@.len()
    }

    /// An empty registry: nothing is found under any identifier.
    pub fn new() -> (r: Registry<T>)
        ensures
            r.spec_len() == 0,
            forall|id: Seq<u8>| r.spec_lookup(id) is None,
            forall|id: Seq<u8>| !r.spec_contains(id),
    {
        Registry { entries: Vec::new() }
    }

    /// Adds a backend constructor under `id`. Fails with `DuplicateCodec`,
    /// leaving every existing entry intact, when `id` is already registered;
    /// no entry is ever overwritten silently.
    pub fn register(&mut self, id: [u8; 4], constructor: T) -> (r: Result<(), RegistryError>)
        ensures
            match r {
                Ok(()) => {
                    &&& !old(self).spec_contains(id@)
                    &&& final(self).spec_lookup(id@) == Some(constructor)
                    &&& final(self).spec_contains(id@)
                    &&& forall|other: Seq<u8>|
                        other != id@ ==> final(self).spec_lookup(other) == old(self).spec_lookup(
                            other,
                        )
                    &&& forall|other: Seq<u8>|
                        other != id@ ==> final(self).spec_contains(other) == old(
                            self,
                        ).spec_contains(other)
                    &&& final(self).spec_len() == old(self).spec_len() + 1
                },
                Err(e) => {
                    &&& e == RegistryError::DuplicateCodec
                    &&& old(self).spec_contains(id@)
                    &&& *final(self) == *old(self)
                },
            },
    {
        if self.contains(&id) {
            return Err(RegistryError::DuplicateCodec);
        }
        let ghost old_entries = self.entries@;
        let entry = RegisteredVideoDecoder { id, constructor };
        self.entries.push(entry);
        proof {
            assert(self.entries@.drop_last() =~= old_entries);
            lemma_lookup_push(old_entries, self.entries@.last(), id@);
            assert forall|other: Seq<u8>| other != id@ implies self.spec_lookup(other)
                == lookup_in(old_entries, other) by {
                lemma_lookup_push(old_entries, self.entries@.last(), other);
            }
            assert forall|other: Seq<u8>|
                other != id@ && lookup_in(old_entries, other) is None implies !self.spec_contains(
                other,
            ) by {
                lemma_contains_lookup(old_entries, other);
            }
            lemma_contains_lookup(old_entries, id@);
            assert forall|other: Seq<u8>| other != id@ && self.spec_lookup(other) is Some implies (
            exists|i: int|
                0 <= i < old_entries.len() && (#[trigger] old_entries[i]).id@ == other) by {
                lemma_contains_lookup(self.entries@, other);
                let j = choose|i: int|
                    0 <= i < self.entries@.len() && (#[trigger] self.entries@[i]).id@ == other;
                assert(old_entries[j] == self.entries@[j]);
            }
        }
        Ok(())
    }

    /// Whether some backend is registered under `id`, byte-exact.
    pub fn contains(&self, id: &[u8; 4]) -> (r: bool)
        ensures
            r == self.spec_contains(id@),
    {
        let mut i: usize = 0;
        while i < self.entries.len()
            invariant
                i <= self.entries@.len(),
                forall|j: int| 0 <= j < i ==> (#[trigger] self.entries@[j]).id@ != id@,
            decreases self.entries@.len() - i,
        {
            if id_eq(&self.entries[i].id, id) {
                return true;
            }
            i = i + 1;
        }
        false
    }

    /// The constructor registered under `id`, byte-exact, and `None` (never
    /// a default or a near match) for an identifier that was never
    /// registered.
    pub fn lookup(&self, id: &[u8; 4]) -> (r: Option<&T>)
        ensures
            match r {
                Some(c) => self.spec_lookup(id@) == Some(*c),
                None => self.spec_lookup(id@) is None && !self.spec_contains(id@),
            },
    {
        let mut i: usize = 0;
        while i < self.entries.len()
            invariant
                i <= self.entries@.len(),
                forall|j: int| 0 <= j < i ==> (#[trigger] self.entries@[j]).id@ != id@,
            decreases self.entries@.len() - i,
        {
            if id_eq(&self.entries[i].id, id) {
                proof {
                    lemma_lookup_prefix_miss(self.entries@, id@, i as int);
                    assert(self.entries@.skip(i as int).first() == self.entries@[i as int]);
                }
                return Some(&self.entries[i].constructor);
            }
            i = i + 1;
        }
        proof {
            lemma_lookup_prefix_miss(self.entries@, id@, self.entries@.len() as int);
            lemma_contains_lookup(self.entries@, id@);
        }
        None
    }

    /// The constructor registered under `id`, or `UnsupportedCodec` when
    /// none is: a lookup miss is an error of its own kind, never a
    /// fallback constructor.
    pub fn select(&self, id: &[u8; 4]) -> (r: Result<&T, RegistryError>)
        ensures
            match r {
                Ok(c) => self.spec_lookup(id@) == Some(*c),
                Err(e) => e == RegistryError::UnsupportedCodec && !self.spec_contains(id@),
            },
    {
        match self.lookup(id) {
            Some(c) => Ok(c),
            None => Err(RegistryError::UnsupportedCodec),
        }
    }
}

/// Byte-exact comparison of two four-byte codec identifiers.
pub fn id_eq(a: &[u8; 4], b: &[u8; 4]) -> (r: bool)
    ensures
        r == (a@ == b@),
{
    let r = a[0] == b[0] && a[1] == b[1] && a[2] == b[2] && a[3] == b[3];
    proof {
        if r {
            assert(a@ =~= b@);
        }
    }
    r
}

/// An identifier is registered exactly when first-match lookup finds an
/// entry for it.
pub proof fn lemma_contains_lookup<T>(es: Seq<RegisteredVideoDecoder<T>>, id: Seq<u8>)
    ensures
        (lookup_in(es, id) is Some) == (exists|i: int|
            0 <= i < es.len() && (#[trigger] es[i]).id@ == id),
    decreases es.len(),
{
    if es.len() > 0 {
        lemma_contains_lookup(es.drop_first(), id);
        if es.first().id@ == id {
            assert(es[0].id@ == id);
        } else {
            if lookup_in(es.drop_first(), id) is Some {
                let j = choose|i: int|
                    0 <= i < es.drop_first().len() && (#[trigger] es.drop_first()[i]).id@ == id;
                assert(es[j + 1].id@ == id);
            }
            if exists|i: int| 0 <= i < es.len() && (#[trigger] es[i]).id@ == id {
                let j = choose|i: int| 0 <= i < es.len() && (#[trigger] es[i]).id@ == id;
                assert(es.drop_first()[j - 1].id@ == id);
            }
        }
    }
}

/// Appending an entry changes first-match lookup only for identifiers that
/// were absent, and only for the appended identifier.
pub proof fn lemma_lookup_push<T>(
    es: Seq<RegisteredVideoDecoder<T>>,
    e: RegisteredVideoDecoder<T>,
    id: Seq<u8>,
)
    ensures
        lookup_in(es.push(e), id) == if lookup_in(es, id) is Some {
            lookup_in(es, id)
        } else if e.id@ == id {
            Some(e.constructor)
        } else {
            None
        },
    decreases es.len(),
{
    if es.len() == 0 {
        assert(es.push(e).first() == e);
        assert(es.push(e).drop_first() =~= Seq::<RegisteredVideoDecoder<T>>::empty());
        assert(lookup_in(Seq::<RegisteredVideoDecoder<T>>::empty(), id) is None);
        assert(lookup_in(es, id) is None);
    } else {
        assert(es.push(e).first() == es.first());
        assert(es.push(e).drop_first() =~= es.drop_first().push(e));
        lemma_lookup_push(es.drop_first(), e, id);
    }
}

/// First-match lookup skips over a prefix with no matching identifier.
pub proof fn lemma_lookup_prefix_miss<T>(es: Seq<RegisteredVideoDecoder<T>>, id: Seq<u8>, i: int)
    requires
        0 <= i <= es.len(),
        forall|j: int| 0 <= j < i ==> (#[trigger] es[j]).id@ != id,
    ensures
        lookup_in(es, id) == lookup_in(es.skip(i), id),
    decreases i,
{
    if i > 0 {
        assert(es[0].id@ != id);
        assert(es.drop_first().skip(i - 1) =~= es.skip(i));
        lemma_lookup_prefix_miss(es.drop_first(), id, i - 1);
    } else {
        assert(es.skip(0) =~= es);
    }
}

} // verus!

use vstd::prelude::*;

verus! {

/// A byte allowed in an HTTP token: a letter, a digit or one of
/// ``!#$%&'*+-.^_`|~``.
pub open spec fn is_token_byte(c: u8) -> bool {
    ||| 0x61 <= c <= 0x7a
    ||| 0x41 <= c <= 0x5a
    ||| 0x30 <= c <= 0x39
    ||| c == 0x21 || c == 0x23 || c == 0x24 || c == 0x25 || c == 0x26 || c == 0x27
    ||| c == 0x2a || c == 0x2b || c == 0x2d || c == 0x2e || c == 0x5e || c == 0x5f
    ||| c == 0x60 || c == 0x7c || c == 0x7e
}

/// A non-empty sequence of token bytes.
pub open spec fn is_token(b: Seq<u8>) -> bool {
    &&& b.len() > 0
    &&& forall|i: int| 0 <= i < b.len() ==> is_token_byte(#[trigger] b[i])
}

/// The ASCII lower-case form of a byte; other bytes stay as they are.
pub open spec fn ascii_lower(c: u8) -> u8 {
    if 0x41 <= c <= 0x5a {
        (c + 0x20) as u8
    } else {
        c
    }
}

/// The ASCII lower-case form of a byte sequence.
pub open spec fn lower_bytes(b: Seq<u8>) -> Seq<u8> {
    b.map_values(|c: u8| ascii_lower(c))
}

/// A byte that may not occur in a header value: NUL, CR or LF.
pub open spec fn is_forbidden_value_byte(c: u8) -> bool {
    c == 0x00 || c == 0x0a || c == 0x0d
}

/// A sequence of bytes without NUL, CR or LF.
pub open spec fn is_header_value(b: Seq<u8>) -> bool {
    forall|i: int| 0 <= i < b.len() ==> !is_forbidden_value_byte(#[trigger] b[i])
}

/// The name of a header, kept in lower case so that names compare without
/// regard to case.
#[derive(Debug, Clone)]
pub struct HeaderName {
    bytes: Vec<u8>,
}

impl View for HeaderName {
    type V = Seq<u8>;

    closed spec fn view(&self) -> Seq<u8> {
        self.bytes@
    }
}

impl HeaderName {
    /// A well-formed name: a token, in lower case.
    pub closed spec fn well_formed(&self) -> bool {
        is_token(self@) && self@ == lower_bytes(self@)
    }

    /// Builds a name from its bytes, in any case. Gives `None` unless the
    /// bytes form a non-empty token.
    pub fn from_bytes(b: &[u8]) -> (r: Option<HeaderName>)
        ensures
            r is Some <==> is_token(b@),
            r matches Some(n) ==> n@ == lower_bytes(b@) && n.well_formed(),
    {
        let mut bytes: Vec<u8> = Vec::with_capacity(b.len());
        let mut i: usize = 0;
        while i < b.len()
            invariant
                i <= b@.len(),
                bytes@ == lower_bytes(b@.take(i as int)),
                forall|j: int| 0 <= j < i ==> is_token_byte(#[trigger] b@[j]),
            decreases b@.len() - i,
        {
            let c = b[i];
            let is_lower = 0x61 <= c && c <= 0x7a;
            let is_upper = 0x41 <= c && c <= 0x5a;
            let is_digit = 0x30 <= c && c <= 0x39;
            let is_mark = c == 0x21 || c == 0x23 || c == 0x24 || c == 0x25 || c == 0x26
                || c == 0x27 || c == 0x2a || c == 0x2b || c == 0x2d || c == 0x2e || c == 0x5e
                || c == 0x5f || c == 0x60 || c == 0x7c || c == 0x7e;
            if !(is_lower || is_upper || is_digit || is_mark) {
                return None;
            }
            let l: u8 = if is_upper { c + 0x20 } else { c };
            bytes.push(l);
            assert(b@.take(i + 1) == b@.take(i as int).push(c));
            i = i + 1;
        }
        if b.len() == 0 {
            return None;
        }
        assert(b@.take(b@.len() as int) == b@);
        let n = HeaderName { bytes };
        assert(lower_bytes(n@) =~= n@);
        assert(is_token(n@));
        Some(n)
    }

    /// The lower-case bytes of the name.
    pub fn as_bytes(&self) -> (r: &[u8])
        ensures
            r@ == self@,
    {
        self.bytes.as_slice()
    }
}

/// The value of a header: bytes without NUL, CR or LF.
#[derive(Debug, Clone)]
pub struct HeaderValue {
    bytes: Vec<u8>,
}

impl View for HeaderValue {
    type V = Seq<u8>;

    closed spec fn view(&self) -> Seq<u8> {
        self.bytes@
    }
}

impl HeaderValue {
    /// Builds a value from its bytes. Gives `None` if one of them is NUL, CR
    /// or LF.
    pub fn from_bytes(b: &[u8]) -> (r: Option<HeaderValue>)
        ensures
            r is Some <==> is_header_value(b@),
            r matches Some(v) ==> v@ == b@,
    {
        let mut bytes: Vec<u8> = Vec::with_capacity(b.len());
        let mut i: usize = 0;
        while i < b.len()
            invariant
                i <= b@.len(),
                bytes@ == b@.take(i as int),
                forall|j: int| 0 <= j < i ==> !is_forbidden_value_byte(#[trigger] b@[j]),
            decreases b@.len() - i,
        {
            let c = b[i];
            if c == 0x00 || c == 0x0a || c == 0x0d {
                assert(is_forbidden_value_byte(b@[i as int]));
                return None;
            }
            bytes.push(c);
            assert(b@.take(i + 1) == b@.take(i as int).push(c));
            i = i + 1;
        }
        assert(b@.take(b@.len() as int) == b@);
        Some(HeaderValue { bytes })
    }

    /// The bytes of the value.
    pub fn as_bytes(&self) -> (r: &[u8])
        ensures
            r@ == self@,
    {
        self.bytes.as_slice()
    }
}

/// The values recorded under `name`, in the order of their entries.
pub open spec fn values_of(entries: Seq<(Seq<u8>, Seq<u8>)>, name: Seq<u8>) -> Seq<Seq<u8>>
    decreases entries.len(),
{
    if entries.len() == 0 {
        Seq::empty()
    } else {
        let rest = values_of(entries.drop_last(), name);
        if entries.last().0 == name {
            rest.push(entries.last().1)
        } else {
            rest
        }
    }
}

/// The entries whose name is not `name`, in their order.
pub open spec fn without_name(entries: Seq<(Seq<u8>, Seq<u8>)>, name: Seq<u8>) -> Seq<
    (Seq<u8>, Seq<u8>),
>
    decreases entries.len(),
{
    if entries.len() == 0 {
        Seq::empty()
    } else {
        let rest = without_name(entries.drop_last(), name);
        if entries.last().0 == name {
            rest
        } else {
            rest.push(entries.last())
        }
    }
}

/// Appending an entry adds its value at the end of the values under its
/// name, leaves the values under every other name as they were, and keeps
/// every earlier entry in its place.
pub proof fn lemma_append_observed(
    entries: Seq<(Seq<u8>, Seq<u8>)>,
    name: Seq<u8>,
    value: Seq<u8>,
    other: Seq<u8>,
)
    ensures
        values_of(entries.push((name, value)), name) == values_of(entries, name).push(value),
        other != name ==> values_of(entries.push((name, value)), other) == values_of(
            entries,
            other,
        ),
        forall|i: int|
            0 <= i < entries.len() ==> #[trigger] entries.push((name, value))[i] == entries[i],
{
    assert(entries.push((name, value)).drop_last() == entries);
}

/// Bytewise equality of two slices.
fn same_bytes(a: &[u8], b: &[u8]) -> (r: bool)
    ensures
        r == (a@ == b@),
{
    if a.len() != b.len() {
        return false;
    }
    let mut i: usize = 0;
    while i < a.len()
        invariant
            a@.len() == b@.len(),
            i <= a@.len(),
            forall|j: int| 0 <= j < i ==> a@[j] == b@[j],
        decreases a@.len() - i,
    {
        if a[i] != b[i] {
            return false;
        }
        i = i + 1;
    }
    assert(a@ =~= b@);
    true
}

/// An ordered collection of header entries. Several entries may share a
/// name; their values keep the order in which they were appended.
#[derive(Debug, Clone)]
pub struct Headers {
    entries: Vec<(HeaderName, HeaderValue)>,
}

impl View for Headers {
    type V = Seq<(Seq<u8>, Seq<u8>)>;

    /// The entries as (name, value) byte sequences, in insertion order.
    closed spec fn view(&self) -> Seq<(Seq<u8>, Seq<u8>)> {
        self.entries@.map_values(|e: (HeaderName, HeaderValue)| (e.0@, e.1@))
    }
}

impl Headers {
    /// An empty collection.
    pub fn new() -> (r: Headers)
        ensures
            r@ == Seq::<(Seq<u8>, Seq<u8>)>::empty(),
    {
        let r = Headers { entries: Vec::new() };
        assert(r@ =~= Seq::<(Seq<u8>, Seq<u8>)>::empty());
        r
    }

    /// The number of entries.
    pub fn len(&self) -> (r: usize)
        ensures
            r == self@.len(),
    {
        self.entries.len()
    }

    /// Whether there is no entry.
    pub fn is_empty(&self) -> (r: bool)
        ensures
            r == (self@.len() == 0),
    {
        self.entries.len() == 0
    }

    /// Adds an entry after all the others.
    pub fn append(&mut self, name: HeaderName, value: HeaderValue)
        ensures
            final(self)@ == old(self)@.push((name@, value@)),
    {
        let ghost before = self@;
        self.entries.push((name, value));
        assert(self@ =~= before.push((name@, value@)));
    }

    /// The values of the entries named `name`, in insertion order.
    pub fn get_all(&self, name: &HeaderName) -> (r: Vec<&HeaderValue>)
        ensures
            r@.map_values(|v: &HeaderValue| v@) == values_of(self@, name@),
    {
        let mut r: Vec<&HeaderValue> = Vec::new();
        let mut i: usize = 0;
        while i < self.entries.len()
            invariant
                i <= self@.len(),
                r@.map_values(|v: &HeaderValue| v@) == values_of(self@.take(i as int), name@),
            decreases self@.len() - i,
        {
            let entry = &self.entries[i];
            assert(self@.take(i + 1).drop_last() == self@.take(i as int));
            if same_bytes(entry.0.as_bytes(), name.as_bytes()) {
                let ghost prev = r@;
                r.push(&entry.1);
                assert(r@.map_values(|v: &HeaderValue| v@) =~= prev.map_values(
                    |v: &HeaderValue| v@,
                ).push(entry.1@));
            }
            i = i + 1;
        }
        assert(self@.take(self@.len() as int) == self@);
        r
    }

    /// The value of the first entry named `name`, if there is one.
    pub fn get(&self, name: &HeaderName) -> (r: Option<&HeaderValue>)
        ensures
            r is None <==> values_of(self@, name@).len() == 0,
            r matches Some(v) ==> v@ == values_of(self@, name@)[0],
    {
        let all = self.get_all(name);
        if all.len() == 0 {
            None
        } else {
            assert(all@.map_values(|v: &HeaderValue| v@)[0] == all@[0]@);
            Some(all[0])
        }
    }

    /// Removes every entry named `name`; the others keep their order.
    pub fn remove(&mut self, name: &HeaderName)
        ensures
            final(self)@ == without_name(old(self)@, name@),
    {
        let ghost start = self@;
        let ghost mut k: int = 0;
        let mut i: usize = 0;
        while i < self.entries.len()
            invariant
                0 <= k <= start.len(),
                i == without_name(start.take(k), name@).len(),
                self@ == without_name(start.take(k), name@) + start.skip(k),
            decreases self@.len() - i,
        {
            proof {
                assert(start.take(k + 1).drop_last() == start.take(k));
                assert(self@[i as int] == start[k]);
                assert(start.skip(k) == seq![start[k]] + start.skip(k + 1));
            }
            if same_bytes(self.entries[i].0.as_bytes(), name.as_bytes()) {
                let ghost prev = self@;
                self.entries.remove(i);
                proof {
                    assert(self@ =~= prev.remove(i as int));
                    assert(self@ =~= without_name(start.take(k + 1), name@) + start.skip(k + 1));
                }
            } else {
                proof {
                    assert(self@ =~= without_name(start.take(k + 1), name@) + start.skip(k + 1));
                }
                i = i + 1;
            }
            proof {
                k = k + 1;
            }
        }
        proof {
            if k < start.len() {
                assert(self@.len() > i);
            }
            assert(start.take(start.len() as int) == start);
            assert(self@ =~= without_name(start, name@));
        }
    }

    /// Replaces every entry named `name` by one entry with `value`, placed
    /// after all the others.
    pub fn set(&mut self, name: HeaderName, value: HeaderValue)
        ensures
            final(self)@ == without_name(old(self)@, name@).push((name@, value@)),
    {
        self.remove(&name);
        self.append(name, value);
    }

    /// Whether some entry is named `name`.
    pub fn contains(&self, name: &HeaderName) -> (r: bool)
        ensures
            r == (values_of(self@, name@).len() > 0),
    {
        self.get(name).is_some()
    }
}

} // verus!

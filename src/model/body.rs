use vstd::prelude::*;
use vstd::slice::slice_to_vec;
use vstd::string::StringSliceAdditionalSpecFns;
use vstd::utf8::encode_utf8;

verus! {

/// The payload of a request: bytes the body owns, or bytes it borrows from
/// a buffer that outlives it.
#[derive(Debug)]
pub enum Body<'a> {
    Owned(Vec<u8>),
    Borrowed(&'a [u8]),
}

impl<'a> View for Body<'a> {
    type V = Seq<u8>;

    /// The bytes of the payload, whoever holds them.
    open spec fn view(&self) -> Seq<u8> {
        match self {
            Body::Owned(v) => v@,
            Body::Borrowed(s) => s@,
        }
    }
}

impl<'a> Body<'a> {
    /// The payload bytes, without copying them.
    pub fn as_bytes(&self) -> (r: &[u8])
        ensures
            r@ == self@,
    {
        match self {
            Body::Owned(v) => v.as_slice(),
            Body::Borrowed(s) => s,
        }
    }

    /// A fresh copy of the payload bytes.
    pub fn to_vec(&self) -> (r: Vec<u8>)
        ensures
            r@ == self@,
    {
        slice_to_vec(self.as_bytes())
    }

    /// The number of payload bytes.
    pub fn len(&self) -> (r: usize)
        ensures
            r == self@.len(),
    {
        self.as_bytes().len()
    }

    /// Whether the payload holds no bytes.
    pub fn is_empty(&self) -> (r: bool)
        ensures
            r == (self@.len() == 0),
    {
        self.len() == 0
    }

    /// Whether the payload bytes are borrowed from the caller's buffer.
    pub fn is_borrowed(&self) -> (r: bool)
        ensures
            r == (self is Borrowed),
    {
        matches!(self, Body::Borrowed(_))
    }
}

/// Relies on `String::into_bytes`: the UTF-8 encoding of the string, moved
/// into a vector without copying.
#[verifier::external_body]
fn string_into_bytes(s: String) -> (r: Vec<u8>)
    ensures
        r@ == encode_utf8(s@),
{
    s.into_bytes()
}

impl<'a> From<Vec<u8>> for Body<'a> {
    /// Takes ownership of the buffer; nothing is copied.
    fn from(v: Vec<u8>) -> (r: Body<'a>)
        ensures
            r == Body::<'a>::Owned(v),
    {
        Body::Owned(v)
    }
}

impl<'a> vstd::std_specs::convert::FromSpecImpl<Vec<u8>> for Body<'a> {
    open spec fn obeys_from_spec() -> bool {
        true
    }

    open spec fn from_spec(v: Vec<u8>) -> Body<'a> {
        Body::Owned(v)
    }
}

impl<'a> From<&'a [u8]> for Body<'a> {
    /// Borrows the caller's buffer; nothing is copied.
    fn from(s: &'a [u8]) -> (r: Body<'a>)
        ensures
            r == Body::<'a>::Borrowed(s),
    {
        Body::Borrowed(s)
    }
}

impl<'a> vstd::std_specs::convert::FromSpecImpl<&'a [u8]> for Body<'a> {
    open spec fn obeys_from_spec() -> bool {
        true
    }

    open spec fn from_spec(s: &'a [u8]) -> Body<'a> {
        Body::Borrowed(s)
    }
}

impl<'a> Body<'a> {
    /// Borrows the UTF-8 bytes of the text; nothing is copied.
    pub fn from_text(s: &'a str) -> (r: Body<'a>)
        ensures
            r is Borrowed,
            r@ == s.spec_bytes(),
    {
        Body::Borrowed(s.as_bytes())
    }

    /// Takes ownership of the UTF-8 bytes of the text; nothing is copied.
    pub fn from_string(s: String) -> (r: Body<'a>)
        ensures
            r is Owned,
            r@ == encode_utf8(s@),
    {
        Body::Owned(string_into_bytes(s))
    }
}

} // verus!

//! The header model: pseudo-headers with their canonical names, and ordinary
//! fields whose value may be marked sensitive.
//!
//! Names and values are plain byte strings (lowercase ASCII names, as HTTP/2
//! requires of the caller).  A header is read through its [`HeaderView`]:
//! name bytes, value bytes, and the sensitivity flag.

use vstd::prelude::*;
use vstd::string::StrSliceExecFns;

use crate::wire::MAX_STRING_LEN;

verus! {

/// The bytes of an ASCII character sequence.
pub open spec fn ascii_bytes(s: Seq<char>) -> Seq<u8> {
    Seq::new(s.len(), |i: int| s[i] as u8)
}

/// A semantic HTTP header handed to the encoder.
pub enum Header {
    /// The `:method` pseudo-header; carries the method name.
    Method(Vec<u8>),
    /// The `:scheme` pseudo-header.
    Scheme(Vec<u8>),
    /// The `:path` pseudo-header.
    Path(Vec<u8>),
    /// The `:status` pseudo-header; carries the status code digits.
    Status(Vec<u8>),
    /// The `:authority` pseudo-header.
    Authority(Vec<u8>),
    /// An ordinary header.  A sensitive value is never inserted into the
    /// dynamic table and is emitted in the never-indexed literal form.
    Field { name: Vec<u8>, value: Vec<u8>, sensitive: bool },
}

/// What the encoder reads of a header.
pub struct HeaderView {
    pub name: Seq<u8>,
    pub value: Seq<u8>,
    pub sensitive: bool,
}

impl View for Header {
    type V = HeaderView;

    open spec fn view(&self) -> HeaderView {
        match self {
            Header::Method(m) => HeaderView {
                name: ascii_bytes(":method"@),
                value: m@,
                sensitive: false,
            },
            Header::Scheme(s) => HeaderView {
                name: ascii_bytes(":scheme"@),
                value: s@,
                sensitive: false,
            },
            Header::Path(p) => HeaderView {
                name: ascii_bytes(":path"@),
                value: p@,
                sensitive: false,
            },
            Header::Status(c) => HeaderView {
                name: ascii_bytes(":status"@),
                value: c@,
                sensitive: false,
            },
            Header::Authority(a) => HeaderView {
                name: ascii_bytes(":authority"@),
                value: a@,
                sensitive: false,
            },
            Header::Field { name, value, sensitive } => HeaderView {
                name: name@,
                value: value@,
                sensitive: *sensitive,
            },
        }
    }
}

/// Bounds under which a header can be serialized: both strings short enough
/// for the prefix-integer codec (a machine limit, far beyond any real
/// header).
pub open spec fn header_ok(h: HeaderView) -> bool {
    h.name.len() <= MAX_STRING_LEN && h.value.len() <= MAX_STRING_LEN
}

impl Header {
    /// The sensitivity flag: set only on fields whose value is sensitive.
    pub fn is_sensitive(&self) -> (r: bool)
        ensures
            r == self@.sensitive,
    {
        match self {
            Header::Field { sensitive, .. } => *sensitive,
            _ => false,
        }
    }

    /// The header's name, as bytes.
    pub fn name_bytes(&self) -> (r: Vec<u8>)
        ensures
            r@ == self@.name,
    {
        proof {
            reveal_strlit(":method");
            reveal_strlit(":scheme");
            reveal_strlit(":path");
            reveal_strlit(":status");
            reveal_strlit(":authority");
        }
        match self {
            Header::Method(_) => lit_bytes(":method"),
            Header::Scheme(_) => lit_bytes(":scheme"),
            Header::Path(_) => lit_bytes(":path"),
            Header::Status(_) => lit_bytes(":status"),
            Header::Authority(_) => lit_bytes(":authority"),
            Header::Field { name, .. } => {
                let r = name.clone();
                assert(r@ =~= name@);
                r
            },
        }
    }

    /// The header's value, as bytes.
    pub fn value_bytes(&self) -> (r: Vec<u8>)
        ensures
            r@ == self@.value,
    {
        let v = match self {
            Header::Method(m) => m,
            Header::Scheme(s) => s,
            Header::Path(p) => p,
            Header::Status(c) => c,
            Header::Authority(a) => a,
            Header::Field { value, .. } => value,
        };
        let r = v.clone();
        assert(r@ =~= v@);
        r
    }
}

/// The bytes of an ASCII string literal, as a vector.
pub fn lit_bytes(s: &str) -> (r: Vec<u8>)
    ensures
        s.is_ascii() ==> r@ == ascii_bytes(s@),
{
    proof {
        broadcast use vstd::string::is_ascii_spec_bytes;

    }
    let r = s.as_bytes_vec();
    assert(s.is_ascii() ==> r@ =~= ascii_bytes(s@));
    r
}

/// Byte-string equality.
pub fn bytes_eq(a: &Vec<u8>, b: &Vec<u8>) -> (r: bool)
    ensures
        r == (a@ == b@),
{
    if a.len() != b.len() {
        return false;
    }
    let mut i: usize = 0;
    while i < a.len()
        invariant
            i <= a@.len(),
            a@.len() == b@.len(),
            forall|j: int| 0 <= j < i ==> a@[j] == b@[j],
        decreases a@.len() - i,
    {
        if a[i] != b[i] {
            return false;
        }
        i = i + 1;
    }
    assert(a@ =~= b@);
    true
}

/// True if the byte string `n` spells the ASCII literal `lit`.
pub fn name_is(n: &Vec<u8>, lit: &str) -> (r: bool)
    requires
        lit.is_ascii(),
    ensures
        r == (n@ == ascii_bytes(lit@)),
{
    let lv = lit_bytes(lit);
    bytes_eq(n, &lv)
}

} // verus!

//! Null-terminated byte strings, as the native tracing engine takes them.
use vstd::prelude::*;
use vstd::string::{is_ascii, StringSliceAdditionalSpecFns};
use vstd::utf8::is_ascii_chars;

verus! {

/// Whether `b` holds a zero byte anywhere.
pub open spec fn has_nul(b: Seq<u8>) -> bool {
    exists|i: int| 0 <= i < b.len() && b[i] == 0
}

/// Whether `p` is the index of the first zero byte of `b`.
pub open spec fn is_first_nul(b: Seq<u8>, p: int) -> bool {
    &&& 0 <= p < b.len()
    &&& b[p] == 0
    &&& forall|j: int| 0 <= j < p ==> b[j] != 0
}

/// The bytes of an ASCII character sequence, one byte per character.
pub open spec fn ascii_bytes(s: Seq<char>) -> Seq<u8> {
    Seq::new(s.len(), |i: int| s[i] as u8)
}

/// A byte string without interior zero bytes, stored with one trailing zero
/// byte. Its view is the content, without the terminator.
#[derive(Debug)]
pub struct CStrBuf {
    bytes: Vec<u8>,
}

/// A string could not become a `CStrBuf` because it holds a zero byte.
#[derive(Clone, Copy, Debug, PartialEq, Eq, Structural)]
pub struct NulError {
    /// The byte index of the first zero byte.
    pub position: usize,
}

impl View for CStrBuf {
    type V = Seq<u8>;

    closed spec fn view(&self) -> Seq<u8> {
        self.bytes@.drop_last()
    }
}

impl CStrBuf {
    #[verifier::type_invariant]
    spec fn well_formed(self) -> bool {
        &&& self.bytes@.len() > 0
        &&& self.bytes@.last() == 0
        &&& !has_nul(self.bytes@.drop_last())
    }

    /// The bytes handed across the boundary: the content and one zero byte.
    pub fn as_bytes_with_nul(&self) -> (r: &[u8])
        ensures
            r@ == self@.push(0),
            !has_nul(self@),
    {
        proof {
            use_type_invariant(self);
            assert(self.bytes@ =~= self.bytes@.drop_last().push(0));
        }
        self.bytes.as_slice()
    }

    /// The content, without the terminator.
    pub fn to_bytes(&self) -> (r: Vec<u8>)
        ensures
            r@ == self@,
    {
        proof {
            use_type_invariant(self);
        }
        let n: usize = self.bytes.len() - 1;
        let mut out: Vec<u8> = Vec::with_capacity(n);
        let mut i: usize = 0;
        while i < n
            invariant
                n == self.bytes@.len() - 1,
                0 <= i <= n,
                out@ == self.bytes@.subrange(0, i as int),
            decreases n - i,
        {
            out.push(self.bytes[i]);
            i += 1;
        }
        proof {
            assert(out@ =~= self@);
        }
        out
    }
}

/// Encodes `s` as a null-terminated byte string: its UTF-8 bytes, unchanged,
/// and one zero byte. Fails, at the first zero byte, where `s` holds one.
pub fn c_string(s: &str) -> (r: Result<CStrBuf, NulError>)
    ensures
        r is Ok <==> !has_nul(s.spec_bytes()),
        r matches Ok(c) ==> c@ == s.spec_bytes(),
        r matches Err(e) ==> is_first_nul(s.spec_bytes(), e.position as int),
{
    let b: &[u8] = s.as_bytes();
    let mut out: Vec<u8> = Vec::new();
    let mut i: usize = 0;
    while i < b.len()
        invariant
            b@ == s.spec_bytes(),
            0 <= i <= b@.len(),
            out@ == b@.subrange(0, i as int),
            forall|j: int| 0 <= j < i ==> b@[j] != 0,
        decreases b@.len() - i,
    {
        if b[i] == 0 {
            return Err(NulError { position: i });
        }
        out.push(b[i]);
        i += 1;
    }
    out.push(0);
    proof {
        assert(out@.drop_last() =~= b@);
    }
    Ok(CStrBuf { bytes: out })
}

/// Encodes an ASCII string without zero characters, one byte per character.
pub(crate) fn ascii_c_string(s: &str) -> (r: CStrBuf)
    requires
        is_ascii(s),
        forall|i: int| 0 <= i < s@.len() ==> s@[i] != '\0',
    ensures
        r@ == ascii_bytes(s@),
{
    broadcast use vstd::string::is_ascii_spec_bytes;

    assert(s.spec_bytes() =~= ascii_bytes(s@));
    match c_string(s) {
        Ok(c) => c,
        Err(e) => {
            proof {
                let p = e.position as int;
                assert(s.spec_bytes()[p] == s@[p] as u8);
                assert(is_ascii_chars(s@));
                assert('\0' <= s@[p] <= '\u{7f}');
            }
            CStrBuf { bytes: vec![0u8] }
        },
    }
}

} // verus!

//! Text crossing the host boundary: NUL-free input and UTF-8 output.
use vstd::prelude::*;
use vstd::slice::slice_subrange;
use vstd::utf8::{decode_utf8, valid_utf8};

verus! {

/// Whether `s` can be handed to the host as a NUL-terminated string.
pub open spec fn spec_nul_free(s: Seq<char>) -> bool {
    !s.contains('\0')
}

/// Whether `s` holds no NUL character, so that it fits a NUL-terminated buffer.
pub fn is_nul_free(s: &str) -> (r: bool)
    ensures
        r == spec_nul_free(s@),
{
    let n = s.unicode_len();
    let mut i: usize = 0;
    while i < n
        invariant
            n == s@.len(),
            0 <= i <= n,
            forall|j: int| 0 <= j < i ==> s@[j] != '\0',
        decreases n - i,
    {
        if s.get_char(i) == '\0' {
            assert(s@[i as int] == '\0');
            return false;
        }
        i = i + 1;
    }
    assert(!s@.contains('\0')) by {
        if s@.contains('\0') {
            let k = choose|k: int| 0 <= k < s@.len() && s@[k] == '\0';
            assert(s@[k] != '\0');
        }
    }
    true
}

/// Relies on `std::str::from_utf8`: it accepts exactly the valid UTF-8
/// byte sequences and yields the characters they encode.
#[verifier::external_body]
fn utf8_to_str(bytes: &[u8]) -> (r: Option<&str>)
    ensures
        r is Some <==> valid_utf8(bytes@),
        r matches Some(s) ==> s@ == decode_utf8(bytes@),
{
    std::str::from_utf8(bytes).ok()
}

/// Decodes `bytes` as UTF-8 text; `None` when they are not valid UTF-8.
pub fn decode_text(bytes: &[u8]) -> (r: Option<String>)
    ensures
        r is Some <==> valid_utf8(bytes@),
        r matches Some(s) ==> s@ == decode_utf8(bytes@),
{
    match utf8_to_str(bytes) {
        Some(s) => Some(s.to_string()),
        None => None,
    }
}

/// The text a NUL-terminated payload carries: the bytes before its one
/// terminating NUL, decoded as UTF-8. `None` when the payload does not end in
/// a NUL, holds another NUL, or is not UTF-8.
pub open spec fn spec_payload_text(b: Seq<u8>) -> Option<Seq<char>> {
    if b.len() > 0 && b.last() == 0u8 && !b.drop_last().contains(0u8) && valid_utf8(b.drop_last()) {
        Some(decode_utf8(b.drop_last()))
    } else {
        None
    }
}

/// A payload the host delivered, kept as the host's bytes and decoded only
/// when a plugin asks for it.
pub struct ReceivedData<'a> {
    data: &'a [u8],
}

impl<'a> ReceivedData<'a> {
    pub closed spec fn bytes(&self) -> Seq<u8> {
        self.data@
    }

    /// Wraps the payload bytes, terminating NUL included.
    pub fn new(data: &'a [u8]) -> (r: ReceivedData<'a>)
        ensures
            r.bytes() == data@,
    {
        ReceivedData { data }
    }

    /// The raw payload, terminating NUL included.
    pub fn raw(&self) -> (r: &'a [u8])
        ensures
            r@ == self.bytes(),
    {
        self.data
    }

    /// Decodes the payload as NUL-terminated UTF-8 text.
    pub fn decode(&self) -> (r: Option<String>)
        ensures
            r matches Some(s) ==> spec_payload_text(self.bytes()) == Some(s@),
            r is None ==> spec_payload_text(self.bytes()) is None,
    {
        let n = self.data.len();
        if n == 0 || self.data[n - 1] != 0 {
            return None;
        }
        let mut i: usize = 0;
        while i < n - 1
            invariant
                n == self.data@.len(),
                n > 0,
                0 <= i <= n - 1,
                forall|j: int| 0 <= j < i ==> self.data@[j] != 0u8,
            decreases n - 1 - i,
        {
            if self.data[i] == 0 {
                assert(self.data@.drop_last()[i as int] == 0u8);
                return None;
            }
            i = i + 1;
        }
        let body = slice_subrange(self.data, 0, n - 1);
        assert(body@ =~= self.data@.drop_last());
        assert(!self.data@.drop_last().contains(0u8)) by {
            if self.data@.drop_last().contains(0u8) {
                let k = choose|k: int| 0 <= k < self.data@.drop_last().len() && self.data@.drop_last()[k] == 0u8;
                assert(self.data@[k] == 0u8);
            }
        }
        decode_text(body)
    }
}

} // verus!

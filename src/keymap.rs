//! Framing of the serialized keymap handed to the virtual keyboard: the text
//! with a terminating NUL, and its length as the protocol carries it.
use vstd::prelude::*;

verus! {

/// Why a keymap text cannot be handed over.
#[derive(Clone, Copy, Debug, PartialEq, Eq, Structural)]
pub enum KeymapError {
    /// The text holds a NUL byte, which would cut it short.
    InteriorNul,
    /// The text with its terminator is longer than a `u32` can count.
    TooLarge,
}

pub open spec fn has_nul(s: Seq<u8>) -> bool {
    exists|i: int| 0 <= i < s.len() && s[i] == 0
}

/// The keymap text followed by one NUL byte, with the number of bytes of the
/// whole.
pub fn keymap_payload(text: &Vec<u8>) -> (r: Result<(Vec<u8>, u32), KeymapError>)
    ensures
        match r {
            Ok((bytes, size)) => !has_nul(text@) && bytes@ == text@.push(0) && size as int
                == text@.len() + 1,
            Err(KeymapError::InteriorNul) => has_nul(text@),
            Err(KeymapError::TooLarge) => !has_nul(text@) && text@.len() + 1 > u32::MAX,
        },
{
    let n = text.len();
    let mut out: Vec<u8> = Vec::with_capacity(n);
    let mut i: usize = 0;
    while i < n
        invariant
            n == text@.len(),
            i <= n,
            out@ == text@.subrange(0, i as int),
            forall|j: int| 0 <= j < i ==> text@[j] != 0,
        decreases n - i,
    {
        if text[i] == 0 {
            return Err(KeymapError::InteriorNul);
        }
        out.push(text[i]);
        i = i + 1;
    }
    assert(out@ =~= text@);
    if n >= u32::MAX as usize {
        return Err(KeymapError::TooLarge);
    }
    out.push(0);
    Ok((out, (n + 1) as u32))
}

} // verus!

//! Raw 64-byte frames and the byte-level helpers shared by every codec.
use vstd::prelude::*;

verus! {

/// Length of every HID report exchanged over the interrupt endpoints.
pub const FRAME_LEN: usize = 64;

/// `s` followed by zero bytes up to a full frame.
pub open spec fn zero_pad(s: Seq<u8>) -> Seq<u8> {
    s + Seq::new((64 - s.len()) as nat, |i: int| 0u8)
}

/// Copies `data` to the start of a frame and zero-fills the rest.
pub fn pad_frame(data: &[u8]) -> (f: [u8; 64])
    requires
        data@.len() <= 64,
    ensures
        f@ == zero_pad(data@),
{
    let mut f = [0u8; 64];
    let n = data.len();
    for i in 0..n
        invariant
            n == data@.len(),
            n <= 64,
            forall|j: int| 0 <= j < i ==> f@[j] == data@[j],
            forall|j: int| i <= j < 64 ==> f@[j] == 0u8,
    {
        f[i] = data[i];
    }
    assert(f@ =~= zero_pad(data@));
    f
}

} // verus!

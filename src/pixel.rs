use vstd::prelude::*;

verus! {

/// Number of bytes a pixel takes in an uploaded frame.
pub const BYTES_PER_PIXEL: usize = 3;

/// One pixel of the background, sent as red, green, blue.
#[derive(Clone, Copy, Debug, PartialEq, Eq, Structural)]
pub struct Pixel {
    pub r: u8,
    pub g: u8,
    pub b: u8,
}

impl Pixel {
    pub fn new(r: u8, g: u8, b: u8) -> (p: Pixel)
        ensures
            p == (Pixel { r, g, b }),
    {
        Pixel { r, g, b }
    }
}

impl Default for Pixel {
    /// Black.
    fn default() -> (p: Pixel)
        ensures
            p == (Pixel { r: 0, g: 0, b: 0 }),
    {
        Pixel { r: 0, g: 0, b: 0 }
    }
}

/// The byte at position `k` of the wire form of `frame`: each pixel gives
/// its red, green and blue channel in that order.
pub open spec fn frame_byte(frame: Seq<Pixel>, k: int) -> u8 {
    let p = frame[k / 3];
    if k % 3 == 0 {
        p.r
    } else if k % 3 == 1 {
        p.g
    } else {
        p.b
    }
}

/// The wire form of `frame`, one byte at a time.
pub open spec fn is_frame_bytes(frame: Seq<Pixel>, bytes: Seq<u8>) -> bool {
    &&& bytes.len() == 3 * frame.len()
    &&& forall|k: int| 0 <= k < bytes.len() ==> #[trigger] bytes[k] == frame_byte(frame, k)
}

/// Serialises a frame for upload, three bytes per pixel in a fixed channel
/// order.
pub fn encode_pixels(frame: &Vec<Pixel>) -> (bytes: Vec<u8>)
    requires
        3 * frame@.len() <= usize::MAX,
    ensures
        is_frame_bytes(frame@, bytes@),
{
    let mut bytes: Vec<u8> = Vec::new();
    let mut i: usize = 0;
    while i < frame.len()
        invariant
            i <= frame.len(),
            is_frame_bytes(frame@.take(i as int), bytes@),
        decreases frame.len() - i,
    {
        let p = frame[i];
        bytes.push(p.r);
        bytes.push(p.g);
        bytes.push(p.b);
        proof {
            let prev = frame@.take(i as int);
            let next = frame@.take(i + 1);
            assert forall|k: int| 0 <= k < bytes@.len() implies #[trigger] bytes@[k] == frame_byte(next, k) by {
                if k < 3 * i {
                    assert(bytes@[k] == frame_byte(prev, k));
                    assert(k / 3 < i) by (nonlinear_arith) requires 0 <= k < 3 * i;
                    assert(next[k / 3] == prev[k / 3]);
                } else {
                    assert(k / 3 == i && k % 3 == k - 3 * i) by (nonlinear_arith) requires 3 * i <= k < 3 * i + 3;
                }
            }
        }
        i = i + 1;
    }
    assert(frame@.take(frame.len() as int) =~= frame@);
    bytes
}

} // verus!

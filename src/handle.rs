use vstd::prelude::*;
use crate::pixel::{Pixel, encode_pixels, is_frame_bytes};

verus! {

/// A request to upload a whole frame into a pixmap, in Z-pixmap format at
/// offset zero.
#[derive(Clone, Debug, PartialEq, Eq)]
pub struct PutImage {
    pub drawable: u32,
    pub gc: u32,
    pub width: u16,
    pub height: u16,
    pub depth: u8,
    pub data: Vec<u8>,
}

/// The installed background: its pixmap, the graphics context paired with it,
/// the screen geometry, and the frame that `put_image` uploads.
#[derive(Debug)]
pub struct BackgroundHandle {
    context: u32,
    background_pixmap: u32,
    root: u32,
    width: u16,
    height: u16,
    depth: u8,
    buffer: Vec<Pixel>,
}

/// Index in the frame of the pixel at column `x` and row `y`.
pub open spec fn pixel_index(width: u16, x: u16, y: u16) -> int {
    y * width + x
}

impl BackgroundHandle {
    /// The frame holds exactly one pixel per point of the screen.
    pub closed spec fn wf(&self) -> bool {
        self.buffer@.len() == self.width * self.height
    }

    pub closed spec fn frame(&self) -> Seq<Pixel> {
        self.buffer@
    }

    pub closed spec fn spec_width(&self) -> u16 {
        self.width
    }

    pub closed spec fn spec_height(&self) -> u16 {
        self.height
    }

    pub closed spec fn spec_depth(&self) -> u8 {
        self.depth
    }

    pub closed spec fn spec_pixmap(&self) -> u32 {
        self.background_pixmap
    }

    pub closed spec fn spec_context(&self) -> u32 {
        self.context
    }

    pub closed spec fn spec_root(&self) -> u32 {
        self.root
    }

    /// A handle for a pixmap of the given geometry, its frame all black.
    pub fn new(context: u32, background_pixmap: u32, root: u32, width: u16, height: u16, depth: u8) -> (h: Self)
        ensures
            h.wf(),
            h.spec_context() == context,
            h.spec_pixmap() == background_pixmap,
            h.spec_root() == root,
            h.spec_width() == width,
            h.spec_height() == height,
            h.spec_depth() == depth,
            forall|i: int| 0 <= i < h.frame().len() ==> #[trigger] h.frame()[i] == (Pixel { r: 0, g: 0, b: 0 }),
    {
        proof {
            assert(width * height <= 65535 * 65535) by (nonlinear_arith)
                requires width <= 65535, height <= 65535;
        }
        let n: usize = width as usize * height as usize;
        let mut buffer: Vec<Pixel> = Vec::new();
        while buffer.len() < n
            invariant
                buffer@.len() <= n,
                forall|i: int| 0 <= i < buffer@.len() ==> #[trigger] buffer@[i] == (Pixel { r: 0, g: 0, b: 0 }),
            decreases n - buffer@.len(),
        {
            buffer.push(Pixel::default());
        }
        BackgroundHandle { context, background_pixmap, root, width, height, depth, buffer }
    }

    pub fn width(&self) -> (r: u16)
        ensures
            r == self.spec_width(),
    {
        self.width
    }

    pub fn height(&self) -> (r: u16)
        ensures
            r == self.spec_height(),
    {
        self.height
    }

    pub fn depth(&self) -> (r: u8)
        ensures
            r == self.spec_depth(),
    {
        self.depth
    }

    pub fn pixmap(&self) -> (r: u32)
        ensures
            r == self.spec_pixmap(),
    {
        self.background_pixmap
    }

    pub fn context(&self) -> (r: u32)
        ensures
            r == self.spec_context(),
    {
        self.context
    }

    pub fn root(&self) -> (r: u32)
        ensures
            r == self.spec_root(),
    {
        self.root
    }

    /// The pixel at column `x` and row `y`.
    pub fn pixel(&self, x: u16, y: u16) -> (p: Pixel)
        requires
            self.wf(),
            x < self.spec_width(),
            y < self.spec_height(),
        ensures
            p == self.frame()[pixel_index(self.spec_width(), x, y)],
    {
        proof {
            lemma_index_in_frame(self.width, self.height, x, y);
        }
        self.buffer[y as usize * self.width as usize + x as usize]
    }

    /// Paints the pixel at column `x` and row `y`; the rest of the frame is
    /// kept.
    pub fn set_pixel(&mut self, x: u16, y: u16, p: Pixel)
        requires
            old(self).wf(),
            x < old(self).spec_width(),
            y < old(self).spec_height(),
        ensures
            final(self).wf(),
            final(self).frame() == old(self).frame().update(pixel_index(old(self).spec_width(), x, y), p),
            final(self).spec_width() == old(self).spec_width(),
            final(self).spec_height() == old(self).spec_height(),
            final(self).spec_depth() == old(self).spec_depth(),
            final(self).spec_pixmap() == old(self).spec_pixmap(),
            final(self).spec_context() == old(self).spec_context(),
            final(self).spec_root() == old(self).spec_root(),
    {
        proof {
            lemma_index_in_frame(self.width, self.height, x, y);
        }
        let i: usize = y as usize * self.width as usize + x as usize;
        self.buffer.set(i, p);
    }

    /// The request that uploads the whole frame into the background pixmap.
    pub fn put_image(&self) -> (r: PutImage)
        requires
            self.wf(),
            3 * self.spec_width() * self.spec_height() <= usize::MAX,
        ensures
            r.drawable == self.spec_pixmap(),
            r.gc == self.spec_context(),
            r.width == self.spec_width(),
            r.height == self.spec_height(),
            r.depth == self.spec_depth(),
            is_frame_bytes(self.frame(), r.data@),
            r.data@.len() == self.spec_width() * self.spec_height() * 3,
    {
        proof {
            assert(3 * self.buffer@.len() == 3 * self.width * self.height) by (nonlinear_arith)
                requires self.buffer@.len() == self.width * self.height;
        }
        let data = encode_pixels(&self.buffer);
        proof {
            lemma_frame_size(*self, data@);
        }
        PutImage {
            drawable: self.background_pixmap,
            gc: self.context,
            width: self.width,
            height: self.height,
            depth: self.depth,
            data,
        }
    }
}

proof fn lemma_index_in_frame(width: u16, height: u16, x: u16, y: u16)
    requires
        x < width,
        y < height,
    ensures
        0 <= pixel_index(width, x, y) < width * height,
        y * width + x <= u32::MAX,
{
    assert(y * width + x < width * height) by (nonlinear_arith)
        requires x < width, y < height, 0 <= y;
    assert(width * height <= 65535 * 65535) by (nonlinear_arith)
        requires width <= 65535, height <= 65535;
}

/// Whatever the screen's geometry, a well-formed handle holds one pixel per
/// point, and the bytes of its frame are width × height × bytes-per-pixel
/// long.
pub proof fn lemma_frame_size(h: BackgroundHandle, data: Seq<u8>)
    requires
        h.wf(),
        is_frame_bytes(h.frame(), data),
    ensures
        h.frame().len() == h.spec_width() * h.spec_height(),
        data.len() == h.spec_width() * h.spec_height() * 3,
{
    assert(data.len() == h.spec_width() * h.spec_height() * 3) by (nonlinear_arith)
        requires data.len() == 3 * h.frame().len(), h.frame().len() == h.spec_width() * h.spec_height();
}

} // verus!

//! Pixel buffers in the packed 32-bit XRGB format: their size limits and
//! the content drawn into them.
use vstd::prelude::*;

verus! {

/// The largest buffer in bytes: shared-memory pools are sized by a signed
/// 32-bit integer.
pub const MAX_BUFFER_BYTES: u64 = 0x7fff_ffff;

/// Why a buffer of the requested size cannot be had.
#[derive(Debug, Clone, Copy, PartialEq, Eq, Structural)]
pub enum BufferError {
    /// The width or the height is not positive.
    EmptySize,
    /// The buffer would exceed the largest shared-memory pool.
    TooLarge,
}

/// The number of bytes of a `w` by `h` buffer.
pub open spec fn byte_len(w: int, h: int) -> int {
    w * h * 4
}

/// What asking for a `w` by `h` buffer gives: its length in bytes, or why
/// there is none.
pub open spec fn buffer_len_spec(w: int, h: int) -> Result<usize, BufferError> {
    if w <= 0 || h <= 0 {
        Err(BufferError::EmptySize)
    } else if byte_len(w, h) > MAX_BUFFER_BYTES {
        Err(BufferError::TooLarge)
    } else {
        Ok(byte_len(w, h) as usize)
    }
}

/// The length in bytes of a `width` by `height` buffer, four bytes a pixel,
/// or why no such buffer can be had.
pub fn buffer_len(width: i32, height: i32) -> (r: Result<usize, BufferError>)
    ensures
        r == buffer_len_spec(width as int, height as int),
{
    if width <= 0 || height <= 0 {
        return Err(BufferError::EmptySize);
    }
    let w = width as u64;
    let h = height as u64;
    assert(w * h < 0x4000_0000_0000_0000) by (nonlinear_arith)
        requires
            w < 0x8000_0000,
            h < 0x8000_0000,
    ;
    let n = w * h * 4;
    if n > MAX_BUFFER_BYTES {
        Err(BufferError::TooLarge)
    } else {
        Ok(n as usize)
    }
}

/// The four bytes of pixel `k` within `data`.
pub open spec fn pixel_of(data: Seq<u8>, k: int) -> Seq<u8> {
    data.subrange(4 * k, 4 * k + 4)
}

/// Pixel `k` of the window's gradient of size `w` by `h`, as blue, green,
/// red and unused bytes: red grows from left to right, green from the first
/// row to the last, and blue is red's complement.
pub open spec fn gradient_pixel(w: int, h: int, k: int) -> Seq<u8> {
    let r = (k % w) * 255 / w;
    let g = k * 255 / (w * h);
    seq![(255 - r) as u8, g as u8, r as u8, 0u8]
}

/// Whether `r` is what asking for a `w` by `h` buffer filled with `byte`
/// gives: the error of `buffer_len_spec` when it has one, else a buffer of
/// that size, `w * h * 4` bytes long, every byte `byte`.
pub open spec fn fill_result(r: Result<PixelBuffer, BufferError>, w: int, h: int, byte: u8) -> bool {
    match buffer_len_spec(w, h) {
        Err(e) => r == Err::<PixelBuffer, BufferError>(e),
        Ok(_) => r matches Ok(b) && {
            &&& b.wf()
            &&& b.width == w
            &&& b.height == h
            &&& forall|i: int| 0 <= i < b.data@.len() ==> #[trigger] b.data@[i] == byte
        },
    }
}

/// Whether `r` is what asking for the window's background of size `w` by
/// `h` gives: the error of `buffer_len_spec` when it has one, else a buffer
/// of that size, `w * h * 4` bytes long, whose pixel `k` is
/// `gradient_pixel(w, h, k)`.
pub open spec fn gradient_result(r: Result<PixelBuffer, BufferError>, w: int, h: int) -> bool {
    match buffer_len_spec(w, h) {
        Err(e) => r == Err::<PixelBuffer, BufferError>(e),
        Ok(_) => r matches Ok(b) && {
            &&& b.wf()
            &&& b.width == w
            &&& b.height == h
            &&& forall|k: int| 0 <= k < w * h ==> #[trigger] pixel_of(b.data@, k) == gradient_pixel(w, h, k)
        },
    }
}

/// A `width` by `height` block of pixels, row after row, four bytes a pixel.
pub struct PixelBuffer {
    pub width: i32,
    pub height: i32,
    pub data: Vec<u8>,
}

impl PixelBuffer {
    /// Whether the data holds exactly the pixels of the buffer's size.
    pub open spec fn wf(&self) -> bool {
        buffer_len_spec(self.width as int, self.height as int) is Ok
            && self.data@.len() == byte_len(self.width as int, self.height as int)
    }

    /// A `width` by `height` buffer whose every byte is `byte`, or why no
    /// such buffer can be had.
    pub fn filled(width: i32, height: i32, byte: u8) -> (r: Result<PixelBuffer, BufferError>)
        ensures
            fill_result(r, width as int, height as int, byte),
    {
        let n = match buffer_len(width, height) {
            Ok(n) => n,
            Err(e) => return Err(e),
        };
        let mut data: Vec<u8> = Vec::new();
        let mut i: usize = 0;
        while i < n
            invariant
                i <= n,
                data@.len() == i,
                forall|j: int| 0 <= j < i ==> #[trigger] data@[j] == byte,
            decreases n - i,
        {
            data.push(byte);
            i = i + 1;
        }
        Ok(PixelBuffer { width, height, data })
    }

    /// The window's background for a `width` by `height` window: pixel `k`,
    /// counted row after row, is `gradient_pixel(width, height, k)`; or why
    /// no such buffer can be had.
    pub fn gradient(width: i32, height: i32) -> (r: Result<PixelBuffer, BufferError>)
        ensures
            gradient_result(r, width as int, height as int),
    {
        match buffer_len(width, height) {
            Ok(_) => {},
            Err(e) => return Err(e),
        }
        let w = width as u64;
        let h = height as u64;
        assert(w * h <= MAX_BUFFER_BYTES / 4) by (nonlinear_arith)
            requires
                w * h * 4 <= MAX_BUFFER_BYTES,
        ;
        let n = w * h;
        assert(0 < n) by (nonlinear_arith)
            requires
                0 < w,
                0 < h,
                n == w * h,
        ;
        let mut data: Vec<u8> = Vec::new();
        let mut k: u64 = 0;
        while k < n
            invariant
                0 < w,
                0 < h,
                n == w * h,
                n <= MAX_BUFFER_BYTES / 4,
                w == width,
                h == height,
                k <= n,
                data@.len() == 4 * k,
                forall|j: int| 0 <= j < k ==> #[trigger] pixel_of(data@, j) == gradient_pixel(w as int, h as int, j),
            decreases n - k,
        {
            let col = k % w;
            let red = col * 255 / w;
            let green = k * 255 / n;
            assert(red < 255) by (nonlinear_arith)
                requires
                    col < w,
                    red == (col * 255) as int / (w as int),
                    0 < w,
            ;
            assert(green < 255) by (nonlinear_arith)
                requires
                    k < n,
                    green == (k * 255) as int / (n as int),
                    0 < n,
            ;
            let ghost old_data = data@;
            data.push((255 - red) as u8);
            data.push(green as u8);
            data.push(red as u8);
            data.push(0u8);
            proof {
                assert(pixel_of(data@, k as int) =~= gradient_pixel(w as int, h as int, k as int));
                assert forall|j: int| 0 <= j < k + 1 implies #[trigger] pixel_of(data@, j) == gradient_pixel(
                    w as int,
                    h as int,
                    j,
                ) by {
                    if j < k {
                        assert(pixel_of(data@, j) =~= pixel_of(old_data, j));
                    }
                }
            }
            k = k + 1;
        }
        Ok(PixelBuffer { width, height, data })
    }
}

/// A full frame for the window's main content, row after row, four bytes a
/// pixel; its height follows from the length of `buf`.
pub struct Pixels {
    pub buf: Vec<u8>,
    pub width: usize,
}

impl Pixels {
    /// The number of whole rows in the frame: the length over four times
    /// the width.
    pub fn height(&self) -> (r: usize)
        requires
            self.width > 0,
        ensures
            r == self.buf@.len() as int / (4 * self.width as int),
    {
        let n = self.buf.len();
        proof {
            vstd::arithmetic::div_mod::lemma_div_denominator(n as int, 4, self.width as int);
        }
        n / 4 / self.width
    }
}

} // verus!

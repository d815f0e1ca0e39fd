//! Partition of the pixel buffer into the contiguous byte ranges that the
//! render tasks own, and the mapping from a task's texels to image pixels.
//!
//! A buffer of `total` bytes split into `chunk_count` chunks gives each chunk
//! `total / chunk_count` bytes; the remainder at the tail (fewer than
//! `chunk_count` bytes) belongs to no chunk and is left as allocated.
use vstd::prelude::*;

verus! {

/// Number of bytes in the buffer of a `width` by `height` image, three channels per pixel.
pub open spec fn buffer_len_spec(width: int, height: int) -> int {
    width * height * 3
}

/// Length in bytes of every chunk of a `total`-byte buffer cut into `chunk_count` chunks.
pub open spec fn chunk_len_spec(total: int, chunk_count: int) -> int {
    total / chunk_count
}

/// First byte of chunk `i`.
pub open spec fn chunk_start_spec(total: int, chunk_count: int, i: int) -> int {
    i * chunk_len_spec(total, chunk_count)
}

/// Chunk `i` of a `width` by `height` image's buffer cut into `chunk_count` chunks.
pub open spec fn planned_chunk(width: int, height: int, chunk_count: int, i: int) -> Chunk {
    let total = buffer_len_spec(width, height);
    Chunk {
        start: chunk_start_spec(total, chunk_count, i) as usize,
        len: chunk_len_spec(total, chunk_count) as usize,
    }
}

/// A contiguous byte range of the pixel buffer, rendered by one task.
#[derive(Clone, Copy, Debug, PartialEq, Eq, Structural)]
pub struct Chunk {
    pub start: usize,
    pub len: usize,
}

impl Chunk {
    /// Byte `b` of the buffer lies in the chunk.
    pub open spec fn holds_byte(self, b: int) -> bool {
        self.start <= b < self.start + self.len
    }

    /// Pixel `p` of the image is one of the chunk's texels: these are the pixels
    /// from `start / 3` on, one for each whole three bytes of the chunk.
    pub open spec fn writes_pixel(self, p: int) -> bool {
        self.start / 3 <= p < self.start / 3 + self.len / 3
    }

    /// Global index of the pixel that the chunk's first texel stands for.
    pub fn first_pixel(&self) -> (r: usize)
        ensures
            r == self.start / 3,
    {
        self.start / 3
    }

    /// Number of texels (whole pixels) that the chunk renders.
    pub fn pixel_count(&self) -> (r: usize)
        ensures
            r == self.len / 3,
    {
        self.len / 3
    }

    /// Image coordinates `(row, column)` of the chunk's texel `index` in an image
    /// `width` pixels wide: the texel stands for pixel `start / 3 + index`.
    pub fn pixel_position(&self, index: usize, width: usize) -> (r: (usize, usize))
        requires
            width > 0,
            index < self.len / 3,
        ensures
            r.0 == (self.start / 3 + index) / (width as int),
            r.1 == (self.start / 3 + index) % (width as int),
    {
        let offset = self.start / 3 + index;
        (offset / width, offset % width)
    }
}

/// Size in bytes of the buffer of a `width` by `height` image, or `None` where
/// it does not fit in `usize`.
pub fn buffer_len(width: usize, height: usize) -> (r: Option<usize>)
    ensures
        r matches Some(n) ==> n == buffer_len_spec(width as int, height as int),
        r is None <==> buffer_len_spec(width as int, height as int) > usize::MAX,
{
    match width.checked_mul(height) {
        Some(pixels) => {
            let r = pixels.checked_mul(3);
            proof {
                assert(buffer_len_spec(width as int, height as int) == pixels * 3);
            }
            r
        },
        None => {
            proof {
                assert(width * height * 3 >= width * height) by (nonlinear_arith)
                    requires
                        width * height >= 0,
                ;
            }
            None
        },
    }
}

/// The chunks of a `width` by `height` image's buffer cut into `chunk_count`
/// equal parts, in buffer order: chunk `i` starts at byte `i * len`, where
/// `len` is the buffer size divided by `chunk_count`, rounded down.
pub fn plan_chunks(width: usize, height: usize, chunk_count: usize) -> (r: Vec<Chunk>)
    requires
        chunk_count > 0,
        buffer_len_spec(width as int, height as int) <= usize::MAX,
    ensures
        r@.len() == chunk_count,
        forall|i: int|
            0 <= i < chunk_count ==> #[trigger] r@[i] == planned_chunk(
                width as int,
                height as int,
                chunk_count as int,
                i,
            ),
{
    let ghost total = buffer_len_spec(width as int, height as int);
    proof {
        assert(width * height <= total) by (nonlinear_arith)
            requires
                total == width * height * 3,
                width * height >= 0,
        ;
    }
    let total_len: usize = width * height * 3;
    let len: usize = total_len / chunk_count;
    let mut chunks: Vec<Chunk> = Vec::new();
    let mut i: usize = 0;
    while i < chunk_count
        invariant
            i <= chunk_count,
            chunk_count > 0,
            total == total_len,
            len == chunk_len_spec(total, chunk_count as int),
            chunks@.len() == i,
            forall|k: int|
                0 <= k < i ==> {
                    &&& #[trigger] chunks@[k].start == chunk_start_spec(total, chunk_count as int, k)
                    &&& chunks@[k].len == len
                },
        decreases chunk_count - i,
    {
        assert(i * len <= total_len) by (nonlinear_arith)
            requires
                i < chunk_count,
                len == total_len / chunk_count,
                chunk_count > 0,
        {
            vstd::arithmetic::div_mod::lemma_fundamental_div_mod(total_len as int, chunk_count as int);
            vstd::arithmetic::mul::lemma_mul_inequality(i as int, chunk_count as int, len as int);
        }
        chunks.push(Chunk { start: i * len, len });
        i = i + 1;
    }
    assert forall|i: int| 0 <= i < chunk_count implies #[trigger] chunks@[i] == planned_chunk(
        width as int,
        height as int,
        chunk_count as int,
        i,
    ) by {
        let c = planned_chunk(width as int, height as int, chunk_count as int, i);
        assert(c.start == chunks@[i].start);
    }
    chunks
}

/// Number `x` lies in block `i` of consecutive blocks of `q` numbers exactly
/// when `i` is `x / q`.
proof fn lemma_block_index(q: int, i: int, x: int)
    requires
        q > 0,
    ensures
        (q * i <= x < q * i + q) <==> i == x / q,
{
    vstd::arithmetic::div_mod::lemma_fundamental_div_mod(x, q);
    let d = x / q;
    let r = x % q;
    if q * i <= x < q * i + q {
        assert(i == d) by (nonlinear_arith)
            requires
                q > 0,
                x == q * d + r,
                0 <= r < q,
                q * i <= x,
                x < q * i + q,
        ;
    }
}

/// Number of the chunk that writes pixel `p`, where the chunk count divides the
/// number of pixels.
pub open spec fn pixel_owner(width: int, height: int, chunk_count: int, p: int) -> int {
    p / ((width * height) / chunk_count)
}

/// Number of the chunk that holds byte `b` of the buffer, where the chunk count
/// divides the buffer size.
pub open spec fn byte_owner(width: int, height: int, chunk_count: int, b: int) -> int {
    b / chunk_len_spec(buffer_len_spec(width, height), chunk_count)
}

/// When `chunk_count` divides the number of pixels, the planned chunks share the
/// buffer exactly. Every pixel of the image is written by exactly one chunk,
/// its owner, and no chunk writes a pixel outside the image. Every byte of the
/// buffer lies in exactly one chunk, and no chunk reaches past the buffer.
/// Every chunk starts on a pixel boundary, so the bytes of its texels are the
/// bytes of the pixels they stand for.
pub proof fn lemma_chunks_partition(width: usize, height: usize, chunk_count: usize)
    requires
        chunk_count > 0,
        (width * height) % (chunk_count as int) == 0,
        buffer_len_spec(width as int, height as int) <= usize::MAX,
    ensures
        forall|p: int|
            0 <= p < width * height ==> 0 <= #[trigger] pixel_owner(
                width as int,
                height as int,
                chunk_count as int,
                p,
            ) < chunk_count,
        forall|p: int, i: int|
            0 <= p < width * height && 0 <= i < chunk_count ==> (#[trigger] planned_chunk(
                width as int,
                height as int,
                chunk_count as int,
                i,
            ).writes_pixel(p) <==> i == pixel_owner(
                width as int,
                height as int,
                chunk_count as int,
                p,
            )),
        forall|p: int, i: int|
            0 <= i < chunk_count && (#[trigger] planned_chunk(
                width as int,
                height as int,
                chunk_count as int,
                i,
            ).writes_pixel(p)) ==> 0 <= p < width * height,
        forall|b: int|
            0 <= b < buffer_len_spec(width as int, height as int) ==> 0 <= #[trigger] byte_owner(
                width as int,
                height as int,
                chunk_count as int,
                b,
            ) < chunk_count,
        forall|b: int, i: int|
            0 <= b < buffer_len_spec(width as int, height as int) && 0 <= i < chunk_count ==> (
            #[trigger] planned_chunk(width as int, height as int, chunk_count as int, i).holds_byte(
                b,
            ) <==> i == byte_owner(width as int, height as int, chunk_count as int, b)),
        forall|b: int, i: int|
            0 <= i < chunk_count && (#[trigger] planned_chunk(
                width as int,
                height as int,
                chunk_count as int,
                i,
            ).holds_byte(b)) ==> 0 <= b < buffer_len_spec(width as int, height as int),
        forall|i: int|
            0 <= i < chunk_count ==> #[trigger] planned_chunk(
                width as int,
                height as int,
                chunk_count as int,
                i,
            ).start % 3 == 0,
{
    let pixels = width * height;
    let c = chunk_count as int;
    let total = buffer_len_spec(width as int, height as int);
    let q = pixels / c;
    vstd::arithmetic::div_mod::lemma_fundamental_div_mod(pixels, c);
    assert(pixels == c * q);
    assert(total == 3 * pixels);
    assert(total == c * (3 * q)) by (nonlinear_arith)
        requires
            total == 3 * pixels,
            pixels == c * q,
    ;
    vstd::arithmetic::div_mod::lemma_div_multiples_vanish(3 * q, c);
    assert(total / c == 3 * q);
    assert(q >= 0) by (nonlinear_arith)
        requires
            pixels >= 0,
            c > 0,
            pixels == c * q,
    ;
    assert forall|i: int| 0 <= i < chunk_count implies {
        let k = #[trigger] planned_chunk(width as int, height as int, c, i);
        &&& k.start == 3 * (q * i)
        &&& k.len == 3 * q
    } by {
        assert(i * (3 * q) == 3 * (q * i)) by (nonlinear_arith);
        assert(q * i <= q * c) by (nonlinear_arith)
            requires
                q >= 0,
                0 <= i < c,
        ;
    }
    assert forall|p: int, i: int|
        0 <= p < pixels && 0 <= i < chunk_count implies (#[trigger] planned_chunk(
            width as int,
            height as int,
            c,
            i,
        ).writes_pixel(p) <==> i == p / q) by {
        assert(q > 0) by (nonlinear_arith)
            requires
                pixels == c * q,
                0 <= p < pixels,
                q >= 0,
        ;
        lemma_block_index(q, i, p);
    }
    assert forall|p: int| 0 <= p < pixels implies 0 <= #[trigger] (p / q) < chunk_count by {
        assert(q > 0) by (nonlinear_arith)
            requires
                pixels == c * q,
                0 <= p < pixels,
                q >= 0,
        ;
        lemma_block_index(q, p / q, p);
        assert(p / q < c) by (nonlinear_arith)
            requires
                q > 0,
                q * (p / q) <= p,
                p < pixels,
                pixels == c * q,
        ;
    }
    assert forall|p: int, i: int|
        0 <= i < chunk_count && (#[trigger] planned_chunk(
            width as int,
            height as int,
            c,
            i,
        ).writes_pixel(p)) implies 0 <= p < pixels by {
        assert(q * i + q <= pixels) by (nonlinear_arith)
            requires
                0 <= i < c,
                q >= 0,
                pixels == c * q,
        ;
        assert(q * i >= 0) by (nonlinear_arith)
            requires
                0 <= i,
                q >= 0,
        ;
    }
    assert forall|b: int, i: int|
        0 <= b < total && 0 <= i < chunk_count implies (#[trigger] planned_chunk(
            width as int,
            height as int,
            c,
            i,
        ).holds_byte(b) <==> i == b / (total / c)) by {
        assert(q > 0) by (nonlinear_arith)
            requires
                total == c * (3 * q),
                0 <= b < total,
                q >= 0,
        ;
        assert(3 * (q * i) == (3 * q) * i) by (nonlinear_arith);
        lemma_block_index(3 * q, i, b);
    }
    assert forall|b: int| 0 <= b < total implies 0 <= #[trigger] (b / (total / c)) < chunk_count by {
        assert(q > 0) by (nonlinear_arith)
            requires
                total == c * (3 * q),
                0 <= b < total,
                q >= 0,
        ;
        lemma_block_index(3 * q, b / (3 * q), b);
        assert(b / (3 * q) < c) by (nonlinear_arith)
            requires
                q > 0,
                (3 * q) * (b / (3 * q)) <= b,
                b < total,
                total == c * (3 * q),
        ;
    }
    assert forall|b: int, i: int|
        0 <= i < chunk_count && (#[trigger] planned_chunk(
            width as int,
            height as int,
            c,
            i,
        ).holds_byte(b)) implies 0 <= b < total by {
        assert(3 * (q * i) + 3 * q <= total) by (nonlinear_arith)
            requires
                0 <= i < c,
                q >= 0,
                total == c * (3 * q),
        ;
        assert(q * i >= 0) by (nonlinear_arith)
            requires
                0 <= i,
                q >= 0,
        ;
    }
}

/// Writes the colours of consecutive texels into a chunk's bytes, three
/// channels (red, green, blue) per texel from the chunk's first byte on; bytes
/// past the last whole texel keep their value.
pub fn store_pixels(bytes: &mut [u8], colors: &Vec<(u8, u8, u8)>)
    requires
        colors@.len() == old(bytes)@.len() / 3,
    ensures
        final(bytes)@.len() == old(bytes)@.len(),
        forall|k: int|
            0 <= k < colors@.len() ==> {
                &&& final(bytes)@[3 * k] == (#[trigger] colors@[k]).0
                &&& final(bytes)@[3 * k + 1] == colors@[k].1
                &&& final(bytes)@[3 * k + 2] == colors@[k].2
            },
        forall|b: int|
            3 * colors@.len() <= b < old(bytes)@.len() ==> #[trigger] final(bytes)@[b] == old(bytes)@[b],
{
    let ghost original = bytes@;
    let byte_count = bytes.len();
    let n = colors.len();
    let mut k: usize = 0;
    while k < n
        invariant
            n == colors@.len(),
            n == original.len() / 3,
            byte_count == original.len(),
            k <= n,
            bytes@.len() == original.len(),
            forall|j: int|
                0 <= j < k ==> {
                    &&& bytes@[3 * j] == (#[trigger] colors@[j]).0
                    &&& bytes@[3 * j + 1] == colors@[j].1
                    &&& bytes@[3 * j + 2] == colors@[j].2
                },
            forall|b: int| 3 * k <= b < original.len() ==> #[trigger] bytes@[b] == original[b],
        decreases n - k,
    {
        let color = colors[k];
        let at: usize = 3 * k;
        bytes[at] = color.0;
        bytes[at + 1] = color.1;
        bytes[at + 2] = color.2;
        k = k + 1;
    }
}

} // verus!

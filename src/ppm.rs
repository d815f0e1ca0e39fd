//! Plain-text PPM ("P3") layout of a finished pixel buffer.
//!
//! Buffer row 0 is the bottom scanline of the image, so the rows are emitted
//! from the last one down to row 0; within a row the pixels go left to right,
//! one line of three decimal channel values each.
use vstd::prelude::*;

verus! {

/// ASCII code of `'0'`.
pub const DIGIT_ZERO: u8 = 48;

/// ASCII code of a space.
pub const SPACE: u8 = 32;

/// ASCII code of a line feed.
pub const NEWLINE: u8 = 10;

/// Decimal digits of `n`, most significant first, without leading zeros.
pub open spec fn decimal(n: nat) -> Seq<u8>
    decreases n,
{
    if n < 10 {
        seq![(DIGIT_ZERO + n) as u8]
    } else {
        decimal(n / 10) + seq![(DIGIT_ZERO + n % 10) as u8]
    }
}

/// The header: `P3`, then `width height`, then the maximum channel value 255,
/// each on a line of its own.
pub open spec fn ppm_header(width: nat, height: nat) -> Seq<u8> {
    seq![80u8, 51u8, NEWLINE] + decimal(width) + seq![SPACE] + decimal(height) + seq![NEWLINE]
        + decimal(255) + seq![NEWLINE]
}

/// The line of pixel `p` of the buffer: its three channels in decimal,
/// separated by spaces.
pub open spec fn pixel_line(buffer: Seq<u8>, p: int) -> Seq<u8> {
    decimal(buffer[3 * p] as nat) + seq![SPACE] + decimal(buffer[3 * p + 1] as nat) + seq![SPACE]
        + decimal(buffer[3 * p + 2] as nat) + seq![NEWLINE]
}

/// The lines of the first `count` pixels of buffer row `row`.
pub open spec fn row_lines(buffer: Seq<u8>, width: nat, row: nat, count: nat) -> Seq<u8>
    decreases count,
{
    if count == 0 {
        Seq::empty()
    } else {
        row_lines(buffer, width, row, (count - 1) as nat) + pixel_line(
            buffer,
            row * width + count - 1,
        )
    }
}

/// The lines of the first `count` rows emitted for an image `height` rows
/// high: the `j`-th row emitted is buffer row `height - 1 - j`.
pub open spec fn body_lines(buffer: Seq<u8>, width: nat, height: nat, count: nat) -> Seq<u8>
    decreases count,
{
    if count == 0 {
        Seq::empty()
    } else {
        body_lines(buffer, width, height, (count - 1) as nat) + row_lines(
            buffer,
            width,
            (height - count) as nat,
            width,
        )
    }
}

/// The whole text of a `width` by `height` image.
pub open spec fn ppm_spec(buffer: Seq<u8>, width: nat, height: nat) -> Seq<u8> {
    ppm_header(width, height) + body_lines(buffer, width, height, height)
}

/// Appends the decimal digits of `n`.
fn push_decimal(out: &mut Vec<u8>, n: usize)
    ensures
        final(out)@ == old(out)@ + decimal(n as nat),
    decreases n,
{
    let ghost before = out@;
    if n >= 10 {
        push_decimal(out, n / 10);
    }
    let digit: u8 = (n % 10) as u8;
    out.push(DIGIT_ZERO + digit);
    proof {
        if n >= 10 {
            assert(out@ =~= before + (decimal((n / 10) as nat) + seq![(DIGIT_ZERO + n % 10) as u8]));
        } else {
            assert(out@ =~= before + decimal(n as nat));
        }
    }
}

/// Appends the line of one pixel, given its three channels.
fn push_pixel_line(out: &mut Vec<u8>, red: u8, green: u8, blue: u8)
    ensures
        final(out)@ == old(out)@ + decimal(red as nat) + seq![SPACE] + decimal(green as nat) + seq![
            SPACE,
        ] + decimal(blue as nat) + seq![NEWLINE],
{
    push_decimal(out, red as usize);
    out.push(SPACE);
    push_decimal(out, green as usize);
    out.push(SPACE);
    push_decimal(out, blue as usize);
    out.push(NEWLINE);
}

/// The PPM text of a `width` by `height` image whose pixels are the first
/// `3 * width * height` bytes of `buffer`, rows bottom-up as the buffer holds them.
pub fn ppm_bytes(buffer: &[u8], width: usize, height: usize) -> (r: Vec<u8>)
    requires
        buffer@.len() >= width * height * 3,
    ensures
        r@ == ppm_spec(buffer@, width as nat, height as nat),
{
    let ghost buf = buffer@;
    let mut out: Vec<u8> = Vec::new();
    out.push(80u8);
    out.push(51u8);
    out.push(NEWLINE);
    push_decimal(&mut out, width);
    out.push(SPACE);
    push_decimal(&mut out, height);
    out.push(NEWLINE);
    push_decimal(&mut out, 255);
    out.push(NEWLINE);
    let ghost header = out@;
    assert(header =~= ppm_header(width as nat, height as nat));
    let len = buffer.len();
    let mut emitted: usize = 0;
    while emitted < height
        invariant
            buf == buffer@,
            len == buf.len(),
            len >= width * height * 3,
            emitted <= height,
            out@ == header + body_lines(buf, width as nat, height as nat, emitted as nat),
        decreases height - emitted,
    {
        let row: usize = height - 1 - emitted;
        let ghost before_row = out@;
        let mut col: usize = 0;
        while col < width
            invariant
                buf == buffer@,
                len == buf.len(),
                len >= width * height * 3,
                row < height,
                col <= width,
                out@ == before_row + row_lines(buf, width as nat, row as nat, col as nat),
            decreases width - col,
        {
            assert((row * width + col) * 3 + 2 < width * height * 3) by (nonlinear_arith)
                requires
                    row < height,
                    col < width,
            ;
            let p: usize = (row * width + col) * 3;
            let ghost before_pixel = out@;
            push_pixel_line(&mut out, buffer[p], buffer[p + 1], buffer[p + 2]);
            proof {
                assert(p == 3 * (row * width + col));
                assert(out@ =~= before_pixel + pixel_line(buf, row * width + col));
            }
            col = col + 1;
        }
        emitted = emitted + 1;
        proof {
            assert(out@ =~= header + body_lines(buf, width as nat, height as nat, emitted as nat));
        }
    }
    out
}

} // verus!

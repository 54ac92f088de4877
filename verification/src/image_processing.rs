//! Pixel buffers: conversions between packed bytes and pixel tuples, and a
//! vertical flip of an image's rows.
use vstd::prelude::*;
use vstd::arithmetic::div_mod::lemma_fundamental_div_mod;
use vstd::arithmetic::div_mod::lemma_fundamental_div_mod_converse;

verus! {

/// One pixel, red, green and blue.
#[derive(Debug)]
pub struct Rgb {
    pub val: (u8, u8, u8),
}

impl Clone for Rgb {
    fn clone(&self) -> (res: Self)
        ensures
            res == *self,
    {
        Rgb { val: self.val }
    }
}

/// The pixels of a rectangle read from the frame, row by row.
#[derive(Debug)]
pub struct FramePixelRead {
    pub width: usize,
    pub height: usize,
    pub data: Vec<Rgb>,
}

/// Channel `c` (0 red, 1 green, otherwise blue) of a pixel.
pub open spec fn rgb_channel(p: Rgb, c: int) -> u8 {
    if c == 0 {
        p.val.0
    } else if c == 1 {
        p.val.1
    } else {
        p.val.2
    }
}

/// The pixels written out as bytes, three per pixel.
pub open spec fn rgb_bytes(px: Seq<Rgb>) -> Seq<u8> {
    Seq::new(3 * px.len(), |k: int| rgb_channel(px[k / 3], k % 3))
}

/// Bytes read three at a time as pixels.
pub open spec fn rgb_pixels(b: Seq<u8>) -> Seq<Rgb> {
    Seq::new(b.len() / 3, |i: int| Rgb { val: (b[3 * i], b[3 * i + 1], b[3 * i + 2]) })
}

/// Channel `c` (0 red, 1 green, 2 blue, otherwise alpha) of a four-channel pixel.
pub open spec fn rgba_channel(p: (u8, u8, u8, u8), c: int) -> u8 {
    if c == 0 {
        p.0
    } else if c == 1 {
        p.1
    } else if c == 2 {
        p.2
    } else {
        p.3
    }
}

/// Four-channel pixels written out as bytes, four per pixel.
pub open spec fn rgba_bytes(px: Seq<(u8, u8, u8, u8)>) -> Seq<u8> {
    Seq::new(4 * px.len(), |k: int| rgba_channel(px[k / 4], k % 4))
}

/// Pixels given an opaque alpha channel.
pub open spec fn opaque_rgba(px: Seq<Rgb>) -> Seq<(u8, u8, u8, u8)> {
    Seq::new(px.len(), |i: int| (px[i].val.0, px[i].val.1, px[i].val.2, 255u8))
}

/// The byte layouts: pixel `i` takes bytes `3 i` to `3 i + 2` (red, green, blue), a
/// four-channel pixel takes bytes `4 i` to `4 i + 3` (red, green, blue, alpha), and an
/// opaque pixel keeps its colour with alpha 255.
pub proof fn lemma_byte_layouts(px: Seq<Rgb>, q: Seq<(u8, u8, u8, u8)>)
    ensures
        rgb_bytes(px).len() == 3 * px.len(),
        forall|i: int|
            0 <= i < px.len() ==> {
                &&& rgb_bytes(px)[3 * i] == (#[trigger] px[i]).val.0
                &&& rgb_bytes(px)[3 * i + 1] == px[i].val.1
                &&& rgb_bytes(px)[3 * i + 2] == px[i].val.2
            },
        rgba_bytes(q).len() == 4 * q.len(),
        forall|i: int|
            0 <= i < q.len() ==> {
                &&& rgba_bytes(q)[4 * i] == (#[trigger] q[i]).0
                &&& rgba_bytes(q)[4 * i + 1] == q[i].1
                &&& rgba_bytes(q)[4 * i + 2] == q[i].2
                &&& rgba_bytes(q)[4 * i + 3] == q[i].3
            },
        opaque_rgba(px).len() == px.len(),
        forall|i: int|
            0 <= i < px.len() ==> #[trigger] opaque_rgba(px)[i] == (
                px[i].val.0,
                px[i].val.1,
                px[i].val.2,
                255u8,
            ),
{
    assert forall|i: int| 0 <= i < px.len() implies {
        &&& rgb_bytes(px)[3 * i] == (#[trigger] px[i]).val.0
        &&& rgb_bytes(px)[3 * i + 1] == px[i].val.1
        &&& rgb_bytes(px)[3 * i + 2] == px[i].val.2
    } by {
        assert((3 * i) / 3 == i && (3 * i) % 3 == 0);
        assert((3 * i + 1) / 3 == i && (3 * i + 1) % 3 == 1);
        assert((3 * i + 2) / 3 == i && (3 * i + 2) % 3 == 2);
    }
    assert forall|i: int| 0 <= i < q.len() implies {
        &&& rgba_bytes(q)[4 * i] == (#[trigger] q[i]).0
        &&& rgba_bytes(q)[4 * i + 1] == q[i].1
        &&& rgba_bytes(q)[4 * i + 2] == q[i].2
        &&& rgba_bytes(q)[4 * i + 3] == q[i].3
    } by {
        assert((4 * i) / 4 == i && (4 * i) % 4 == 0);
        assert((4 * i + 1) / 4 == i && (4 * i + 1) % 4 == 1);
        assert((4 * i + 2) / 4 == i && (4 * i + 2) % 4 == 2);
        assert((4 * i + 3) / 4 == i && (4 * i + 3) % 4 == 3);
    }
}

/// Groups a byte buffer into pixels of three bytes.
pub fn u8_to_u8u8u8(buf: &[u8]) -> (ret: Vec<Rgb>)
    requires
        buf@.len() % 3 == 0,
    ensures
        ret@ == rgb_pixels(buf@),
{
    let n = buf.len();
    let mut ret: Vec<Rgb> = Vec::with_capacity(n / 3);
    let mut i: usize = 0;
    while i < n
        invariant
            n == buf@.len(),
            n % 3 == 0,
            i % 3 == 0,
            i <= n,
            ret@.len() == i / 3,
            forall|j: int|
                0 <= j < i / 3 ==> #[trigger] ret@[j] == (Rgb {
                    val: (buf@[3 * j], buf@[3 * j + 1], buf@[3 * j + 2]),
                }),
        decreases n - i,
    {
        let val = Rgb { val: (buf[i], buf[i + 1], buf[i + 2]) };
        ret.push(val);
        i = i + 3;
    }
    assert(ret@ =~= rgb_pixels(buf@));
    ret
}

/// Writes out pixels as bytes, three per pixel.
pub fn u8u8u8_to_u8(buf: &[Rgb]) -> (ret: Vec<u8>)
    ensures
        ret@ == rgb_bytes(buf@),
{
    let mut ret: Vec<u8> = Vec::new();
    let mut i: usize = 0;
    while i < buf.len()
        invariant
            i <= buf@.len(),
            ret@.len() == 3 * i,
            forall|k: int| 0 <= k < 3 * i ==> #[trigger] ret@[k] == rgb_channel(buf@[k / 3], k % 3),
        decreases buf@.len() - i,
    {
        ret.push(buf[i].val.0);
        ret.push(buf[i].val.1);
        ret.push(buf[i].val.2);
        i = i + 1;
    }
    assert(ret@ =~= rgb_bytes(buf@));
    ret
}

/// Writes out four-channel pixels as bytes, four per pixel.
pub fn u8u8u8u8_to_u8(buf: &[(u8, u8, u8, u8)]) -> (ret: Vec<u8>)
    ensures
        ret@ == rgba_bytes(buf@),
{
    let mut ret: Vec<u8> = Vec::new();
    let mut i: usize = 0;
    while i < buf.len()
        invariant
            i <= buf@.len(),
            ret@.len() == 4 * i,
            forall|k: int|
                0 <= k < 4 * i ==> #[trigger] ret@[k] == rgba_channel(buf@[k / 4], k % 4),
        decreases buf@.len() - i,
    {
        ret.push(buf[i].0);
        ret.push(buf[i].1);
        ret.push(buf[i].2);
        ret.push(buf[i].3);
        i = i + 1;
    }
    assert(ret@ =~= rgba_bytes(buf@));
    ret
}

/// Adds an opaque alpha channel to every pixel.
pub fn u8u8u8_to_u8u8u8u8(buf: &[Rgb]) -> (ret: Vec<(u8, u8, u8, u8)>)
    ensures
        ret@ == opaque_rgba(buf@),
{
    let mut ret: Vec<(u8, u8, u8, u8)> = Vec::new();
    let mut i: usize = 0;
    while i < buf.len()
        invariant
            i <= buf@.len(),
            ret@.len() == i,
            forall|j: int|
                0 <= j < i ==> #[trigger] ret@[j] == (
                    buf@[j].val.0,
                    buf@[j].val.1,
                    buf@[j].val.2,
                    255u8,
                ),
        decreases buf@.len() - i,
    {
        ret.push((buf[i].val.0, buf[i].val.1, buf[i].val.2, 255));
        i = i + 1;
    }
    assert(ret@ =~= opaque_rgba(buf@));
    ret
}

/// Grouping the bytes of pixels gives back the pixels.
pub proof fn lemma_pixels_of_bytes(px: Seq<Rgb>)
    ensures
        rgb_pixels(rgb_bytes(px)) == px,
{
    let b = rgb_bytes(px);
    assert(b.len() / 3 == px.len());
    assert forall|i: int| 0 <= i < px.len() implies #[trigger] rgb_pixels(b)[i] == px[i] by {
        assert((3 * i) / 3 == i && (3 * i) % 3 == 0);
        assert((3 * i + 1) / 3 == i && (3 * i + 1) % 3 == 1);
        assert((3 * i + 2) / 3 == i && (3 * i + 2) % 3 == 2);
    }
    assert(rgb_pixels(b) =~= px);
}

/// Writing out pixels read from a buffer of whole pixels gives back the buffer.
pub proof fn lemma_bytes_of_pixels(b: Seq<u8>)
    requires
        b.len() % 3 == 0,
    ensures
        rgb_bytes(rgb_pixels(b)) == b,
{
    let px = rgb_pixels(b);
    assert(3 * px.len() == b.len());
    assert forall|k: int| 0 <= k < b.len() implies #[trigger] rgb_bytes(px)[k] == b[k] by {
        let i = k / 3;
        assert(k == 3 * i + k % 3);
    }
    assert(rgb_bytes(px) =~= b);
}

/// Where byte `k` of an image with `h` rows of `row` bytes comes from once the rows are
/// put in reverse order.
pub open spec fn flip_source(k: int, row: int, h: int) -> int {
    (h - 1 - k / row) * row + k % row
}

/// The bytes of an image of `h` rows of `row` bytes, rows in reverse order; bytes past
/// the last row stay where they are.
pub open spec fn flip_rows(b: Seq<u8>, row: nat, h: nat) -> Seq<u8> {
    Seq::new(
        b.len(),
        |k: int|
            if 0 < row && k < h * row {
                b[flip_source(k, row as int, h as int)]
            } else {
                b[k]
            },
    )
}

/// The pixels of an image whose rows of `row` bytes have been put in reverse order.
pub open spec fn flip_pixels(px: Seq<Rgb>, row: nat, h: nat) -> Seq<Rgb> {
    rgb_pixels(flip_rows(rgb_bytes(px), row, h))
}

/// Row `k / row` is one of those already moved while swapping row `a` with row `h - 1 - a`
/// (up to column `c` in those two rows).
spec fn flip_done(k: int, row: int, h: int, a: int, c: int) -> bool {
    let r = k / row;
    ||| r < a
    ||| h - 1 - a < r < h
    ||| (r == a || r == h - 1 - a) && k % row < c
}

proof fn lemma_row_col(k: int, row: int, h: int)
    requires
        row > 0,
        0 <= k < h * row,
    ensures
        0 <= k / row < h,
        0 <= k % row < row,
        k == (k / row) * row + k % row,
        0 <= flip_source(k, row, h) < h * row,
        flip_source(k, row, h) / row == h - 1 - k / row,
        flip_source(k, row, h) % row == k % row,
{
    lemma_fundamental_div_mod(k, row);
    let r = k / row;
    let c = k % row;
    assert(k == row * r + c);
    assert(r * row == row * r) by (nonlinear_arith);
    assert(0 <= r < h) by (nonlinear_arith)
        requires
            k == r * row + c,
            0 <= c < row,
            0 <= k < h * row,
            row > 0,
    ;
    let s = (h - 1 - r) * row + c;
    assert(0 <= s < h * row) by (nonlinear_arith)
        requires
            s == (h - 1 - r) * row + c,
            0 <= r < h,
            0 <= c < row,
    ;
    lemma_fundamental_div_mod_converse(s, row, h - 1 - r, c);
}

/// Reverses the order of the image's rows of `width * bytes_per_pixel` bytes.
pub fn flip_v(image: FramePixelRead, bytes_per_pixel: usize) -> (res: FramePixelRead)
    requires
        image.width * bytes_per_pixel <= usize::MAX,
        image.height >= 2 ==> image.height * (image.width * bytes_per_pixel) <= 3
            * image.data@.len(),
    ensures
        res.width == image.width,
        res.height == image.height,
        res.data@ == flip_pixels(
            image.data@,
            (image.width * bytes_per_pixel) as nat,
            image.height as nat,
        ),
        res.data@.len() == image.data@.len(),
        forall|k: int|
            0 <= k < rgb_bytes(image.data@).len() && 0 < image.width * bytes_per_pixel && k
                < image.height * (image.width * bytes_per_pixel) ==> #[trigger] rgb_bytes(
                res.data@,
            )[k] == rgb_bytes(image.data@)[(image.height - 1 - k / (image.width
                * bytes_per_pixel) as int) * (image.width * bytes_per_pixel) + k % (image.width
                * bytes_per_pixel) as int],
        forall|k: int|
            0 <= k < rgb_bytes(image.data@).len() && !(0 < image.width * bytes_per_pixel && k
                < image.height * (image.width * bytes_per_pixel)) ==> #[trigger] rgb_bytes(
                res.data@,
            )[k] == rgb_bytes(image.data@)[k],
{
    let w = image.width;
    let h = image.height;
    let mut bytes = u8u8u8_to_u8(&image.data);
    let ghost orig = bytes@;
    let len = bytes.len();
    let rowsize = w * bytes_per_pixel;
    let ghost row = rowsize as int;
    let half = h / 2;
    let mut a: usize = 0;
    while a < half
        invariant
            half == h / 2,
            a <= half,
            row == rowsize as int,
            len == bytes@.len(),
            len == orig.len(),
            h >= 2 ==> h * row <= len,
            forall|k: int|
                0 <= k < len ==> #[trigger] bytes@[k] == (if 0 < row && k < h * row && flip_done(
                    k,
                    row,
                    h as int,
                    a as int,
                    0,
                ) {
                    orig[flip_source(k, row, h as int)]
                } else {
                    orig[k]
                }),
        decreases half - a,
    {
        let b = h - a - 1;
        assert(h * row <= len);
        assert(b * row + row <= h * row) by (nonlinear_arith)
            requires
                b + 1 <= h,
                row >= 0,
        ;
        assert(a * row <= b * row) by (nonlinear_arith)
            requires
                a <= b,
                row >= 0,
        ;
        let a_start = a * rowsize;
        let b_start = b * rowsize;
        let mut c: usize = 0;
        while c < rowsize
            invariant
                half == h / 2,
                a < half,
                b == h - a - 1,
                a < b,
                row == rowsize as int,
                a_start == a * row,
                b_start == b * row,
                b * row + row <= h * row,
                a * row <= b * row,
                c <= rowsize,
                len == bytes@.len(),
                len == orig.len(),
                h * row <= len,
                forall|k: int|
                    0 <= k < len ==> #[trigger] bytes@[k] == (if 0 < row && k < h * row
                        && flip_done(k, row, h as int, a as int, c as int) {
                        orig[flip_source(k, row, h as int)]
                    } else {
                        orig[k]
                    }),
            decreases rowsize - c,
        {
            assert(a_start + c < h * row);
            assert(b_start + c < h * row);
            let p = a_start + c;
            let q = b_start + c;
            let ghost prev = bytes@;
            proof {
                lemma_fundamental_div_mod_converse(p as int, row, a as int, c as int);
                lemma_fundamental_div_mod_converse(q as int, row, b as int, c as int);
                lemma_row_col(p as int, row, h as int);
                lemma_row_col(q as int, row, h as int);
            }
            let x = bytes[p];
            let y = bytes[q];
            bytes.set(p, y);
            bytes.set(q, x);
            c = c + 1;
            proof {
                assert forall|k: int| 0 <= k < len implies #[trigger] bytes@[k] == (if 0 < row
                    && k < h * row && flip_done(k, row, h as int, a as int, c as int) {
                    orig[flip_source(k, row, h as int)]
                } else {
                    orig[k]
                }) by {
                    if k != p && k != q {
                        assert(bytes@[k] == prev[k]);
                        if 0 < row && k < h * row {
                            lemma_row_col(k, row, h as int);
                            if (k / row == a || k / row == b) && k % row == c - 1 {
                                if k / row == a {
                                    assert(k == a * row + (c - 1));
                                } else {
                                    assert(k == b * row + (c - 1));
                                }
                            }
                        }
                    }
                }
            }
        }
        a = a + 1;
        proof {
            assert forall|k: int| 0 <= k < len implies #[trigger] bytes@[k] == (if 0 < row && k
                < h * row && flip_done(k, row, h as int, a as int, 0) {
                orig[flip_source(k, row, h as int)]
            } else {
                orig[k]
            }) by {
                if 0 < row && k < h * row {
                    lemma_row_col(k, row, h as int);
                }
            }
        }
    }
    proof {
        assert forall|k: int| 0 <= k < len implies #[trigger] bytes@[k] == flip_rows(
            orig,
            row as nat,
            h as nat,
        )[k] by {
            if 0 < row && k < h * row {
                lemma_row_col(k, row, h as int);
                let r = k / row;
                if !flip_done(k, row, h as int, half as int, 0) {
                    assert(r == h - 1 - r);
                    assert(flip_source(k, row, h as int) == k);
                }
            }
        }
        assert(bytes@ =~= flip_rows(orig, row as nat, h as nat));
        assert(len % 3 == 0);
        lemma_bytes_of_pixels(bytes@);
        lemma_flip_rows_reverses(orig, row as nat, h as nat);
    }
    FramePixelRead { width: image.width, height: image.height, data: u8_to_u8u8u8(&bytes) }
}

/// Byte `k` of the first `h` rows of `row` bytes comes, once the rows are reversed, from
/// the same column of row `h - 1 - k / row`: every row changes place with its mirror
/// row, not only the first and the last. The bytes past those rows stay where they are.
pub proof fn lemma_flip_rows_reverses(b: Seq<u8>, row: nat, h: nat)
    ensures
        flip_rows(b, row, h).len() == b.len(),
        forall|k: int|
            0 <= k < b.len() && 0 < row && k < h * row ==> #[trigger] flip_rows(b, row, h)[k]
                == b[(h - 1 - k / (row as int)) * row + k % (row as int)],
        forall|k: int|
            0 <= k < b.len() && !(0 < row && k < h * row) ==> #[trigger] flip_rows(b, row, h)[k]
                == b[k],
{
}

/// Reversing the rows twice gives back the original bytes.
pub proof fn lemma_flip_rows_involution(b: Seq<u8>, row: nat, h: nat)
    requires
        h >= 2 ==> h * row <= b.len(),
    ensures
        flip_rows(flip_rows(b, row, h), row, h) == b,
{
    let f = flip_rows(b, row, h);
    assert forall|k: int| 0 <= k < b.len() implies #[trigger] flip_rows(f, row, h)[k] == b[k] by {
        if 0 < row && k < h * row {
            lemma_row_col(k, row as int, h as int);
            let s = flip_source(k, row as int, h as int);
            lemma_row_col(s, row as int, h as int);
            if h < 2 {
                assert(h == 1);
                assert(k / (row as int) == 0);
                assert(s == k);
            } else {
                assert(s < b.len());
            }
            assert(flip_source(s, row as int, h as int) == k);
        }
    }
    assert(flip_rows(f, row, h) =~= b);
}

/// Flipping an image vertically twice gives back its pixels.
pub proof fn lemma_flip_v_involution(px: Seq<Rgb>, row: nat, h: nat)
    requires
        h >= 2 ==> h * row <= 3 * px.len(),
    ensures
        flip_pixels(flip_pixels(px, row, h), row, h) == px,
{
    let b = rgb_bytes(px);
    let f = flip_rows(b, row, h);
    assert(f.len() == b.len());
    assert(b.len() == 3 * px.len());
    lemma_bytes_of_pixels(f);
    lemma_flip_rows_involution(b, row, h);
    lemma_pixels_of_bytes(px);
}

} // verus!

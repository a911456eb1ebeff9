//! Texel grids: how client pixel data decodes into driver-side storage, how
//! storage encodes back into bytes, and sub-region writes into a grid.

use vstd::arithmetic::div_mod::{
    lemma_breakdown, lemma_fundamental_div_mod, lemma_fundamental_div_mod_converse_div,
    lemma_fundamental_div_mod_converse_mod,
};
use vstd::prelude::*;

use crate::image_format::ClientFormat;

verus! {

/// One stored pixel: four eight-bit components.
#[derive(Copy, Clone, Debug, PartialEq, Eq, Structural)]
pub struct Texel {
    pub r: u8,
    pub g: u8,
    pub b: u8,
    pub a: u8,
}

/// The texel every freshly allocated grid cell holds: opaque black.
pub open spec fn spec_default_texel() -> Texel {
    Texel { r: 0, g: 0, b: 0, a: 255 }
}

/// A rectangle of texels: rows, each a vector of equal width.
pub type Grid = Vec<Vec<Texel>>;

/// The rows of a grid as a sequence of sequences.
pub open spec fn grid_view(g: Grid) -> Seq<Seq<Texel>> {
    g@.map_values(|row: Vec<Texel>| row@)
}

/// Whether a grid view has `h` rows of `w` texels each.
pub open spec fn grid_wf(g: Seq<Seq<Texel>>, w: nat, h: nat) -> bool {
    g.len() == h && forall|j: int| 0 <= j < h ==> (#[trigger] g[j]).len() == w
}

/// The texel decoded from client bytes at offset `base`: missing components
/// read as zero and a missing alpha as fully opaque.
pub open spec fn spec_texel_at(fmt: ClientFormat, data: Seq<u8>, base: int) -> Texel {
    match fmt {
        ClientFormat::U8 => Texel { r: data[base], g: 0, b: 0, a: 255 },
        ClientFormat::U8U8 => Texel { r: data[base], g: data[base + 1], b: 0, a: 255 },
        ClientFormat::U8U8U8 => Texel {
            r: data[base],
            g: data[base + 1],
            b: data[base + 2],
            a: 255,
        },
        ClientFormat::U8U8U8U8 => Texel {
            r: data[base],
            g: data[base + 1],
            b: data[base + 2],
            a: data[base + 3],
        },
        _ => spec_default_texel(),
    }
}

/// The grid of `h` rows by `w` texels decoded from client bytes starting at
/// `off`, rows stored top to bottom with no padding between them.
pub open spec fn spec_decode(
    fmt: ClientFormat,
    data: Seq<u8>,
    off: int,
    w: nat,
    h: nat,
) -> Seq<Seq<Texel>> {
    Seq::new(
        h,
        |j: int|
            Seq::new(
                w,
                |i: int|
                    spec_texel_at(
                        fmt,
                        data,
                        off + (fmt.spec_bytes_per_pixel() as int) * (j * (w as int) + i),
                    ),
            ),
    )
}

/// One component of a texel, in storage order.
pub open spec fn spec_texel_byte(t: Texel, c: int) -> u8 {
    if c == 0 {
        t.r
    } else if c == 1 {
        t.g
    } else if c == 2 {
        t.b
    } else {
        t.a
    }
}

/// Rows of texels laid out as bytes: four components per texel, texels left
/// to right, rows top to bottom.
pub open spec fn spec_encode(rows: Seq<Seq<Texel>>, w: nat) -> Seq<u8> {
    Seq::new(
        rows.len() * w * 4,
        |k: int| spec_texel_byte(rows[k / (4 * w as int)][(k % (4 * w as int)) / 4], k % 4),
    )
}

/// A freshly allocated grid: every texel is the default texel.
pub fn zero_grid(w: u32, h: u32) -> (g: Grid)
    ensures
        grid_wf(grid_view(g), w as nat, h as nat),
        forall|j: int, i: int|
            0 <= j < h && 0 <= i < w ==> grid_view(g)[j][i] == spec_default_texel(),
{
    let mut rows: Grid = Vec::new();
    let mut j: u32 = 0;
    while j < h
        invariant
            j <= h,
            rows@.len() == j,
            forall|jj: int| 0 <= jj < j ==> (#[trigger] grid_view(rows)[jj]).len() == w,
            forall|jj: int, ii: int|
                0 <= jj < j && 0 <= ii < w ==> grid_view(rows)[jj][ii] == spec_default_texel(),
        decreases h - j,
    {
        let mut row: Vec<Texel> = Vec::new();
        let mut i: u32 = 0;
        while i < w
            invariant
                i <= w,
                row@.len() == i,
                forall|ii: int| 0 <= ii < i ==> row@[ii] == spec_default_texel(),
            decreases w - i,
        {
            row.push(Texel { r: 0, g: 0, b: 0, a: 255 });
            i = i + 1;
        }
        let ghost prev = rows;
        rows.push(row);
        proof {
            assert(grid_view(rows) =~= grid_view(prev).push(row@));
        }
        j = j + 1;
    }
    rows
}

/// Decodes an `h` by `w` slice of client bytes starting at `off` into a grid.
pub fn decode_grid(fmt: ClientFormat, data: &Vec<u8>, off: usize, w: u32, h: u32) -> (g: Grid)
    requires
        !fmt.spec_is_compressed(),
        off + fmt.spec_bytes_per_pixel() * (w as nat) * (h as nat) <= data@.len(),
    ensures
        grid_view(g) == spec_decode(fmt, data@, off as int, w as nat, h as nat),
{
    let bpp: usize = match fmt {
        ClientFormat::U8 => 1,
        ClientFormat::U8U8 => 2,
        ClientFormat::U8U8U8 => 3,
        ClientFormat::U8U8U8U8 => 4,
        _ => 0,
    };
    let ghost bppi = fmt.spec_bytes_per_pixel() as int;
    let ghost wi = w as int;
    let data_len: usize = data.len();
    let mut rows: Grid = Vec::new();
    let mut pos: usize = off;
    let mut j: u32 = 0;
    while j < h
        invariant
            !fmt.spec_is_compressed(),
            bpp == fmt.spec_bytes_per_pixel(),
            bppi == fmt.spec_bytes_per_pixel() as int,
            wi == w as int,
            data_len == data@.len(),
            off + fmt.spec_bytes_per_pixel() * (w as nat) * (h as nat) <= data@.len(),
            j <= h,
            pos == off + bppi * (j * wi),
            rows@.len() == j,
            forall|jj: int| 0 <= jj < j ==> (#[trigger] grid_view(rows)[jj]).len() == w,
            forall|jj: int, ii: int|
                0 <= jj < j && 0 <= ii < w ==> grid_view(rows)[jj][ii] == spec_texel_at(
                    fmt,
                    data@,
                    off + bppi * (jj * wi + ii),
                ),
        decreases h - j,
    {
        let mut row: Vec<Texel> = Vec::new();
        let mut i: u32 = 0;
        proof {
            lemma_row_bytes_in_bounds(bppi, wi, h as int, j as int, off as int, data@.len() as int);
        }
        while i < w
            invariant
                !fmt.spec_is_compressed(),
                bpp == fmt.spec_bytes_per_pixel(),
                bppi == fmt.spec_bytes_per_pixel() as int,
                wi == w as int,
                data_len == data@.len(),
                i <= w,
                j < h,
                pos == off + bppi * (j * wi + i),
                off + bppi * (j * wi) + bppi * wi <= data@.len(),
                row@.len() == i,
                forall|ii: int|
                    0 <= ii < i ==> row@[ii] == spec_texel_at(
                        fmt,
                        data@,
                        off + bppi * (j * wi + ii),
                    ),
        decreases w - i,
        {
            proof {
                assert(bppi * (j * wi + i) + bppi <= bppi * (j * wi) + bppi * wi) by (nonlinear_arith)
                    requires
                        0 <= i < wi,
                        0 <= j,
                        bppi >= 1,
                ;
                assert(bppi * (j * wi) <= bppi * (j * wi + i)) by (nonlinear_arith)
                    requires
                        0 <= i,
                        0 <= j,
                        bppi >= 1,
                ;
            }
            let t: Texel = match fmt {
                ClientFormat::U8 => Texel { r: data[pos], g: 0, b: 0, a: 255 },
                ClientFormat::U8U8 => Texel { r: data[pos], g: data[pos + 1], b: 0, a: 255 },
                ClientFormat::U8U8U8 => Texel {
                    r: data[pos],
                    g: data[pos + 1],
                    b: data[pos + 2],
                    a: 255,
                },
                ClientFormat::U8U8U8U8 => Texel {
                    r: data[pos],
                    g: data[pos + 1],
                    b: data[pos + 2],
                    a: data[pos + 3],
                },
                _ => Texel { r: 0, g: 0, b: 0, a: 255 },
            };
            row.push(t);
            pos = pos + bpp;
            proof {
                assert(bppi * (j * wi + i) + bppi == bppi * (j * wi + i + 1)) by (nonlinear_arith);
            }
            i = i + 1;
        }
        let ghost prev = rows;
        rows.push(row);
        proof {
            assert(bppi * (j * wi + wi) == bppi * ((j + 1) * wi)) by (nonlinear_arith);
            assert(grid_view(rows) =~= grid_view(prev).push(row@));
        }
        j = j + 1;
    }
    proof {
        let target = spec_decode(fmt, data@, off as int, w as nat, h as nat);
        assert forall|j0: int| 0 <= j0 < h implies grid_view(rows)[j0] =~= target[j0] by {
        }
        assert(grid_view(rows) =~= target);
    }
    rows
}

/// The byte span of one decoded row stays inside the data buffer.
proof fn lemma_row_bytes_in_bounds(bppi: int, wi: int, h: int, j: int, off: int, len: int)
    requires
        bppi >= 0,
        wi >= 0,
        0 <= j < h,
        off + bppi * wi * h <= len,
    ensures
        off + bppi * (j * wi) + bppi * wi <= len,
{
    assert(bppi * (j * wi) + bppi * wi <= bppi * wi * h) by (nonlinear_arith)
        requires
            bppi >= 0,
            wi >= 0,
            0 <= j < h,
    ;
}

/// Writes texel `v` at row `j`, column `i` of a grid.
pub fn set_texel(g: &mut Grid, j: usize, i: usize, v: Texel)
    requires
        j < old(g)@.len(),
        i < old(g)@[j as int]@.len(),
    ensures
        grid_view(*final(g)) == grid_view(*old(g)).update(
            j as int,
            grid_view(*old(g))[j as int].update(i as int, v),
        ),
{
    let row: &mut Vec<Texel> = &mut g[j];
    row[i] = v;
    proof {
        assert(grid_view(*g) =~~= grid_view(*old(g)).update(
            j as int,
            grid_view(*old(g))[j as int].update(i as int, v),
        ));
    }
}

/// The grid view after writing one sub-rectangle: inside the rectangle the
/// source texels, outside it the old contents.
pub open spec fn spec_blit(
    dst: Seq<Seq<Texel>>,
    x: nat,
    y: nat,
    src: Seq<Seq<Texel>>,
    sw: nat,
    sh: nat,
) -> Seq<Seq<Texel>> {
    Seq::new(
        dst.len(),
        |j: int|
            Seq::new(
                dst[j].len(),
                |i: int|
                    if y <= j < y + sh && x <= i < x + sw {
                        src[j - y][i - x]
                    } else {
                        dst[j][i]
                    },
            ),
    )
}

/// Copies an `sh` by `sw` source grid into a destination grid with its
/// upper-left corner at column `x`, row `y`.
pub fn blit(dst: &mut Grid, x: u32, y: u32, src: &Grid, sw: u32, sh: u32, dw: u32, dh: u32)
    requires
        grid_wf(grid_view(*old(dst)), dw as nat, dh as nat),
        grid_wf(grid_view(*src), sw as nat, sh as nat),
        x + sw <= dw,
        y + sh <= dh,
    ensures
        grid_view(*final(dst)) == spec_blit(
            grid_view(*old(dst)),
            x as nat,
            y as nat,
            grid_view(*src),
            sw as nat,
            sh as nat,
        ),
{
    let mut j: u32 = 0;
    while j < sh
        invariant
            grid_wf(grid_view(*dst), dw as nat, dh as nat),
            grid_wf(grid_view(*src), sw as nat, sh as nat),
            x + sw <= dw,
            y + sh <= dh,
            j <= sh,
            forall|jj: int, ii: int|
                0 <= jj < dh && 0 <= ii < dw && !(y <= jj < y + j && x <= ii < x + sw)
                    ==> grid_view(*dst)[jj][ii] == grid_view(*old(dst))[jj][ii],
            forall|jj: int, ii: int|
                y <= jj < y + j && x <= ii < x + sw ==> grid_view(*dst)[jj][ii] == grid_view(
                    *src,
                )[jj - y][ii - x],
        decreases sh - j,
    {
        let mut i: u32 = 0;
        while i < sw
            invariant
                grid_wf(grid_view(*dst), dw as nat, dh as nat),
                grid_wf(grid_view(*src), sw as nat, sh as nat),
                x + sw <= dw,
                y + sh <= dh,
                j < sh,
                i <= sw,
                forall|jj: int, ii: int|
                    0 <= jj < dh && 0 <= ii < dw && !(y <= jj < y + j && x <= ii < x + sw) && !(jj
                        == y + j && x <= ii < x + i) ==> grid_view(*dst)[jj][ii] == grid_view(
                        *old(dst),
                    )[jj][ii],
                forall|jj: int, ii: int|
                    y <= jj < y + j && x <= ii < x + sw ==> grid_view(*dst)[jj][ii] == grid_view(
                        *src,
                    )[jj - y][ii - x],
                forall|jj: int, ii: int|
                    jj == y + j && x <= ii < x + i ==> (#[trigger] grid_view(*dst)[jj][ii])
                        == grid_view(*src)[jj - y][ii - x],
            decreases sw - i,
        {
            proof {
                assert(grid_view(*src)[j as int].len() == sw);
                assert(src@[j as int]@.len() == sw);
                assert(grid_view(*dst)[(y + j) as int].len() == dw);
                assert(dst@[(y + j) as int]@.len() == dw);
            }
            let v: Texel = src[j as usize][i as usize];
            set_texel(dst, (y + j) as usize, (x + i) as usize, v);
            i = i + 1;
        }
        j = j + 1;
    }
    proof {
        let target = spec_blit(
            grid_view(*old(dst)),
            x as nat,
            y as nat,
            grid_view(*src),
            sw as nat,
            sh as nat,
        );
        assert forall|j0: int| 0 <= j0 < dh implies grid_view(*dst)[j0] =~= target[j0] by {
        }
        assert(grid_view(*dst) =~= target);
    }
}

/// Encodes rows `row0 .. row0 + nrows` of a grid as bytes, four per texel.
pub fn encode_rows(g: &Grid, w: u32, row0: usize, nrows: usize) -> (r: Vec<u8>)
    requires
        row0 + nrows <= g@.len(),
        forall|j: int| 0 <= j < g@.len() ==> (#[trigger] grid_view(*g)[j]).len() == w,
    ensures
        r@ == spec_encode(
            grid_view(*g).subrange(row0 as int, (row0 + nrows) as int),
            w as nat,
        ),
{
    let ghost rows = grid_view(*g).subrange(row0 as int, (row0 + nrows) as int);
    let ghost wi = w as int;
    let glen: usize = g.len();
    let mut out: Vec<u8> = Vec::new();
    let mut j: usize = 0;
    while j < nrows
        invariant
            glen == g@.len(),
            row0 + nrows <= g@.len(),
            forall|jj: int| 0 <= jj < g@.len() ==> (#[trigger] grid_view(*g)[jj]).len() == w,
            rows == grid_view(*g).subrange(row0 as int, (row0 + nrows) as int),
            wi == w as int,
            j <= nrows,
            out@.len() == j * (4 * wi),
            forall|k: int|
                0 <= k < out@.len() ==> out@[k] == spec_texel_byte(
                    rows[k / (4 * wi)][(k % (4 * wi)) / 4],
                    k % 4,
                ),
        decreases nrows - j,
    {
        let row: &Vec<Texel> = &g[row0 + j];
        let mut i: usize = 0;
        while i < w as usize
            invariant
                glen == g@.len(),
                row0 + nrows <= g@.len(),
                forall|jj: int| 0 <= jj < g@.len() ==> (#[trigger] grid_view(*g)[jj]).len() == w,
                rows == grid_view(*g).subrange(row0 as int, (row0 + nrows) as int),
                wi == w as int,
                j < nrows,
                i <= w,
                row@ == rows[j as int],
                out@.len() == j * (4 * wi) + 4 * i,
                forall|k: int|
                    0 <= k < out@.len() ==> out@[k] == spec_texel_byte(
                        rows[k / (4 * wi)][(k % (4 * wi)) / 4],
                        k % 4,
                    ),
            decreases w - i,
        {
            let t: Texel = row[i];
            proof {
                lemma_encode_indices(j as int, i as int, wi, out@.len() as int);
            }
            out.push(t.r);
            out.push(t.g);
            out.push(t.b);
            out.push(t.a);
            i = i + 1;
        }
        proof {
            assert(j * (4 * wi) + 4 * wi == (j + 1) * (4 * wi)) by (nonlinear_arith);
        }
        j = j + 1;
    }
    proof {
        assert(out@.len() == nrows * wi * 4) by (nonlinear_arith)
            requires
                out@.len() == nrows * (4 * wi),
        ;
        assert(rows.len() == nrows);
        assert(out@ =~= spec_encode(rows, w as nat));
    }
    out
}

/// The four byte positions of the texel at row `j`, column `i` decompose as
/// quotient and remainder by the row stride and by four.
proof fn lemma_encode_indices(j: int, i: int, wi: int, base: int)
    requires
        0 <= j,
        0 <= i < wi,
        base == j * (4 * wi) + 4 * i,
    ensures
        (base + 0) / (4 * wi) == j && ((base + 0) % (4 * wi)) / 4 == i && (base + 0) % 4 == 0,
        (base + 1) / (4 * wi) == j && ((base + 1) % (4 * wi)) / 4 == i && (base + 1) % 4 == 1,
        (base + 2) / (4 * wi) == j && ((base + 2) % (4 * wi)) / 4 == i && (base + 2) % 4 == 2,
        (base + 3) / (4 * wi) == j && ((base + 3) % (4 * wi)) / 4 == i && (base + 3) % 4 == 3,
{
    lemma_encode_index(j, i, wi, base, 0);
    lemma_encode_index(j, i, wi, base, 1);
    lemma_encode_index(j, i, wi, base, 2);
    lemma_encode_index(j, i, wi, base, 3);
}

/// One byte position of the texel at row `j`, column `i`, component `c`.
proof fn lemma_encode_index(j: int, i: int, wi: int, base: int, c: int)
    requires
        0 <= j,
        0 <= i < wi,
        0 <= c < 4,
        base == j * (4 * wi) + 4 * i,
    ensures
        (base + c) / (4 * wi) == j,
        ((base + c) % (4 * wi)) / 4 == i,
        (base + c) % 4 == c,
{
    let rem = 4 * i + c;
    assert(0 <= rem < 4 * wi) by (nonlinear_arith)
        requires
            0 <= i < wi,
            0 <= c < 4,
            rem == 4 * i + c,
    ;
    assert(base + c == j * (4 * wi) + rem);
    lemma_fundamental_div_mod_converse_div(base + c, 4 * wi, j, rem);
    lemma_fundamental_div_mod_converse_mod(base + c, 4 * wi, j, rem);
    lemma_fundamental_div_mod_converse_div(rem, 4, i, c);
    lemma_fundamental_div_mod_converse_mod(rem, 4, i, c);
    assert((base + c) % 4 == c) by {
        let q = j * wi + i;
        assert(base + c == q * 4 + c) by (nonlinear_arith)
            requires
                base == j * (4 * wi) + 4 * i,
                q == j * wi + i,
        ;
        lemma_fundamental_div_mod_converse_mod(base + c, 4, q, c);
    }
}

/// Encoding the decode of four-byte-per-pixel client data gives the data
/// back unchanged: the byte-exact round trip for the four-component format.
pub proof fn lemma_rgba8_roundtrip(data: Seq<u8>, w: nat, h: nat)
    requires
        data.len() == 4 * w * h,
    ensures
        spec_encode(spec_decode(ClientFormat::U8U8U8U8, data, 0, w, h), w) == data,
{
    let dec = spec_decode(ClientFormat::U8U8U8U8, data, 0, w, h);
    let enc = spec_encode(dec, w);
    assert(enc.len() == h * w * 4);
    assert(h * w * 4 == 4 * w * h) by (nonlinear_arith);
    assert forall|k: int| 0 <= k < enc.len() implies enc[k] == data[k] by {
        let wi = w as int;
        if wi == 0 {
            assert(enc.len() == 0) by (nonlinear_arith)
                requires
                    enc.len() == h * w * 4,
                    w == 0,
            ;
        } else {
            let j = k / (4 * wi);
            let rem = k % (4 * wi);
            let i = rem / 4;
            let c = k % 4;
            assert(0 < 4 * wi) by (nonlinear_arith)
                requires
                    wi > 0,
            ;
            lemma_fundamental_div_mod(k, 4 * wi);
            assert(0 <= rem < 4 * wi);
            lemma_fundamental_div_mod(rem, 4);
            assert(rem % 4 == c) by {
                let q = k / 4;
                lemma_breakdown(k, 4, wi);
                assert(k % (4 * wi) == 4 * ((k / 4) % wi) + k % 4);
                lemma_fundamental_div_mod_converse_mod(rem, 4, (k / 4) % wi, k % 4);
            }
            assert(0 <= j) by (nonlinear_arith)
                requires
                    j == k / (4 * wi),
                    0 <= k,
                    0 < 4 * wi,
            ;
            assert(j < h) by (nonlinear_arith)
                requires
                    k < h * wi * 4,
                    k == (4 * wi) * j + rem,
                    0 <= rem < 4 * wi,
                    wi > 0,
                    0 <= j,
            ;
            assert(0 <= i < wi) by (nonlinear_arith)
                requires
                    i == rem / 4,
                    0 <= rem < 4 * wi,
                    rem == 4 * i + rem % 4,
                    0 <= rem % 4 < 4,
            ;
            assert(enc[k] == spec_texel_byte(dec[j][i], c));
            assert(dec[j][i] == spec_texel_at(ClientFormat::U8U8U8U8, data, 4 * (j * wi + i)));
            assert(4 * (j * wi + i) + c == k) by (nonlinear_arith)
                requires
                    k == (4 * wi) * j + rem,
                    rem == 4 * i + c,
            ;
            assert(0 <= c < 4);
        }
    }
    assert(enc =~= data);
}

} // verus!

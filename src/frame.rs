//! Decoded-frame pixel data: packing strided planes into one buffer.

use vstd::prelude::*;

verus! {

/// One plane of a decoded frame: its bytes (`None` when the frame has no
/// such plane) and the distance in bytes between the starts of two rows.
pub struct Plane<'a> {
    pub data: Option<&'a [u8]>,
    pub linesize: usize,
}

/// The first `rows` rows of a plane, `row_len` bytes each, one after another.
pub open spec fn plane_rows(p: Seq<u8>, linesize: int, rows: int, row_len: int) -> Seq<u8>
    decreases rows,
{
    if rows <= 0 {
        seq![]
    } else {
        plane_rows(p, linesize, rows - 1, row_len) + p.subrange(
            (rows - 1) * linesize,
            (rows - 1) * linesize + row_len,
        )
    }
}

/// Whether a plane holds `rows` rows of `row_len` bytes at stride `linesize`.
pub open spec fn plane_fits(p: Seq<u8>, linesize: int, rows: int, row_len: int) -> bool {
    rows == 0 || (rows - 1) * linesize + row_len <= p.len()
}

proof fn lemma_row_bound(row: int, rows: int, linesize: int, row_len: int, len: int)
    requires
        0 <= row < rows,
        linesize >= 0,
        row_len >= 0,
        (rows - 1) * linesize + row_len <= len,
    ensures
        row * linesize + row_len <= len,
        row * linesize <= len,
{
    assert(row * linesize <= (rows - 1) * linesize) by (nonlinear_arith)
        requires
            row <= rows - 1,
            linesize >= 0,
    ;
}

fn copy_plane(out: &mut Vec<u8>, p: &[u8], linesize: usize, rows: usize, row_len: usize)
    requires
        plane_fits(p@, linesize as int, rows as int, row_len as int),
    ensures
        final(out)@ == old(out)@ + plane_rows(p@, linesize as int, rows as int, row_len as int),
{
    let ghost start = out@;
    let plen = p.len();
    let mut row: usize = 0;
    while row < rows
        invariant
            plen == p@.len(),
            row <= rows,
            plane_fits(p@, linesize as int, rows as int, row_len as int),
            out@ == start + plane_rows(p@, linesize as int, row as int, row_len as int),
        decreases rows - row,
    {
        proof {
            lemma_row_bound(row as int, rows as int, linesize as int, row_len as int, p@.len() as int);
        }
        let base = row * linesize;
        let ghost before = out@;
        let mut k: usize = 0;
        while k < row_len
            invariant
                plen == p@.len(),
                k <= row_len,
                base + row_len <= p@.len(),
                out@ == before + p@.subrange(base as int, base + k),
            decreases row_len - k,
        {
            out.push(p[base + k]);
            assert(p@.subrange(base as int, base + k + 1) == p@.subrange(base as int, base + k)
                + seq![p@[base + k]]);
            k = k + 1;
        }
        assert(plane_rows(p@, linesize as int, row + 1, row_len as int) == plane_rows(
            p@,
            linesize as int,
            row as int,
            row_len as int,
        ) + p@.subrange(base as int, base + row_len));
        row = row + 1;
    }
}

/// The bytes a plane contributes: its rows when present (and, for chroma
/// planes, when it has a positive stride), nothing otherwise.
pub open spec fn plane_part(pl: Option<Seq<u8>>, linesize: int, rows: int, row_len: int, chroma: bool) -> Seq<u8> {
    match pl {
        Some(p) => if chroma && linesize == 0 {
            seq![]
        } else {
            plane_rows(p, linesize, rows, row_len)
        },
        None => seq![],
    }
}

/// Whether a plane, when it is used, holds the rows taken from it.
pub open spec fn plane_part_fits(pl: Option<Seq<u8>>, linesize: int, rows: int, row_len: int, chroma: bool) -> bool {
    match pl {
        Some(p) => (chroma && linesize == 0) || plane_fits(p, linesize, rows, row_len),
        None => true,
    }
}

/// The view of a plane's bytes.
pub open spec fn plane_view(pl: &Plane) -> Option<Seq<u8>> {
    match pl.data {
        Some(d) => Some(d@),
        None => None,
    }
}

fn append_plane(out: &mut Vec<u8>, pl: &Plane, rows: usize, row_len: usize, chroma: bool) -> (ok: bool)
    ensures
        ok == plane_part_fits(plane_view(pl), pl.linesize as int, rows as int, row_len as int, chroma),
        ok ==> final(out)@ == old(out)@ + plane_part(
            plane_view(pl),
            pl.linesize as int,
            rows as int,
            row_len as int,
            chroma,
        ),
{
    match pl.data {
        None => {
            assert(old(out)@ + Seq::<u8>::empty() == old(out)@);
            true
        },
        Some(p) => {
            if chroma && pl.linesize == 0 {
                assert(old(out)@ + Seq::<u8>::empty() == old(out)@);
                return true;
            }
            if rows > 0 {
                let last = rows - 1;
                if pl.linesize > 0 && last > (p.len() / pl.linesize) {
                    proof {
                        assert((last as int) * (pl.linesize as int) > p@.len()) by (nonlinear_arith)
                            requires
                                last > (p@.len() as int) / (pl.linesize as int),
                                pl.linesize > 0,
                        ;
                    }
                    return false;
                }
                proof {
                    assert((last as int) * (pl.linesize as int) <= p@.len()) by (nonlinear_arith)
                        requires
                            pl.linesize == 0 || last <= (p@.len() as int) / (pl.linesize as int),
                            pl.linesize >= 0,
                    ;
                }
                let off = last * pl.linesize;
                if row_len > p.len() - off {
                    return false;
                }
            }
            copy_plane(out, p, pl.linesize, rows, row_len);
            true
        },
    }
}

/// The packed YUV 4:2:0 bytes of a `width` x `height` frame: the luma rows,
/// then the rows of each chroma plane at half width and half height.
pub open spec fn yuv420p_spec(width: int, height: int, y: Option<Seq<u8>>, y_ls: int, u: Option<Seq<u8>>, u_ls: int, v: Option<Seq<u8>>, v_ls: int) -> Seq<u8> {
    plane_part(y, y_ls, height, width, false) + plane_part(u, u_ls, height / 2, width / 2, true)
        + plane_part(v, v_ls, height / 2, width / 2, true)
}

/// Packs a YUV 4:2:0 frame's planes into one buffer, dropping row padding.
/// `None` when the frame is empty or a plane is too short for its rows.
pub fn extract_frame_data(width: u32, height: u32, y: &Plane, u: &Plane, v: &Plane) -> (r: Option<Vec<u8>>)
    ensures
        (width == 0 || height == 0) ==> r.is_none(),
        width > 0 && height > 0 ==> {
            let fits = plane_part_fits(plane_view(y), y.linesize as int, height as int, width as int, false)
                && plane_part_fits(plane_view(u), u.linesize as int, height as int / 2, width as int / 2, true)
                && plane_part_fits(plane_view(v), v.linesize as int, height as int / 2, width as int / 2, true);
            &&& fits == r.is_some()
            &&& fits ==> r.unwrap()@ == yuv420p_spec(
                width as int,
                height as int,
                plane_view(y),
                y.linesize as int,
                plane_view(u),
                u.linesize as int,
                plane_view(v),
                v.linesize as int,
            )
        },
{
    if width == 0 || height == 0 {
        return None;
    }
    let w = width as usize;
    let h = height as usize;
    let mut data: Vec<u8> = Vec::new();
    if !append_plane(&mut data, y, h, w, false) {
        return None;
    }
    if !append_plane(&mut data, u, h / 2, w / 2, true) {
        return None;
    }
    if !append_plane(&mut data, v, h / 2, w / 2, true) {
        return None;
    }
    Some(data)
}

} // verus!

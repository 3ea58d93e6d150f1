//! The run-length encoding shared by URF pages and compressed CUPS pages.
//!
//! A page is a sequence of line groups.  Each group starts with a repeat
//! byte `L`: the line that follows is emitted `L + 1` times.  The line
//! itself is a sequence of blocks, each starting with a code byte `c`:
//!
//! * `c <= 0x7F`: one pixel follows, emitted `c + 1` times;
//! * `c == 0x80`: the rest of the line is set to the fill byte;
//! * `c >= 0x81`: `257 - c` literal pixels follow.
//!
//! A block that would overrun its line is malformed.  Line repeats past the
//! end of the page are dropped; the page's pixel count is what the header
//! declared.  A stream that ends inside a page aborts the document.

use vstd::prelude::*;
use crate::raster::RasterError;

verus! {

/// `count` copies of `s`, concatenated.
pub open spec fn repeat_seq(s: Seq<u8>, count: nat) -> Seq<u8>
    decreases count,
{
    if count == 0 {
        Seq::empty()
    } else {
        s + repeat_seq(s, (count - 1) as nat)
    }
}

/// Appending one more copy extends the repetition at its end.
pub proof fn lemma_repeat_snoc(s: Seq<u8>, count: nat)
    ensures
        repeat_seq(s, count + 1) == repeat_seq(s, count) + s,
    decreases count,
{
    if count == 0 {
        assert(repeat_seq(s, 0) == Seq::<u8>::empty());
        assert(repeat_seq(s, 1) == s + repeat_seq(s, 0));
        assert(s + Seq::<u8>::empty() =~= Seq::<u8>::empty() + s);
    } else {
        lemma_repeat_snoc(s, (count - 1) as nat);
        assert(s + (repeat_seq(s, (count - 1) as nat) + s) =~= (s + repeat_seq(
            s,
            (count - 1) as nat,
        )) + s);
    }
}

/// A repetition's length is the number of copies times the length of one.
pub proof fn lemma_repeat_len(s: Seq<u8>, count: nat)
    ensures
        repeat_seq(s, count).len() == count * s.len(),
    decreases count,
{
    if count == 0 {
    } else {
        lemma_repeat_len(s, (count - 1) as nat);
        assert(repeat_seq(s, count) == s + repeat_seq(s, (count - 1) as nat));
        assert(repeat_seq(s, count).len() == s.len() + repeat_seq(s, (count - 1) as nat).len());
        assert(count * s.len() == ((count - 1) as nat) * s.len() + s.len()) by (nonlinear_arith)
            requires count >= 1;
    }
}

/// Decode blocks until the line under construction reaches `bpl` bytes.
/// Returns the completed line and the position after its last block.
pub open spec fn rle_line(
    b: Seq<u8>,
    pos: int,
    line: Seq<u8>,
    bpl: nat,
    chunk: nat,
    fill: u8,
) -> Result<(Seq<u8>, int), RasterError>
    recommends
        0 < chunk,
    decreases b.len() - pos,
{
    if line.len() >= bpl {
        Ok((line, pos))
    } else if pos < 0 || pos >= b.len() {
        Err(RasterError::Truncated)
    } else {
        let code = b[pos];
        if code < 0x80 {
            let count = (code + 1) as nat;
            if line.len() + count * chunk > bpl {
                Err(RasterError::InvalidRasterData)
            } else if pos + 1 + chunk > b.len() {
                Err(RasterError::Truncated)
            } else {
                rle_line(
                    b,
                    pos + 1 + chunk,
                    line + repeat_seq(b.subrange(pos + 1, pos + 1 + chunk), count),
                    bpl,
                    chunk,
                    fill,
                )
            }
        } else if code == 0x80 {
            Ok((line + Seq::new((bpl - line.len()) as nat, |j: int| fill), pos + 1))
        } else {
            let count = (257 - code) as nat;
            let nbytes = count * chunk;
            if line.len() + nbytes > bpl {
                Err(RasterError::InvalidRasterData)
            } else if pos + 1 + nbytes > b.len() {
                Err(RasterError::Truncated)
            } else {
                rle_line(b, pos + 1 + nbytes, line + b.subrange(pos + 1, pos + 1 + nbytes), bpl, chunk, fill)
            }
        }
    }
}

/// A completed line ends no earlier than it began and within the stream,
/// and is exactly `bpl` bytes.
pub proof fn lemma_rle_line_bounds(
    b: Seq<u8>,
    pos: int,
    line: Seq<u8>,
    bpl: nat,
    chunk: nat,
    fill: u8,
)
    requires
        0 <= pos <= b.len(),
        0 < chunk,
        line.len() <= bpl,
    ensures
        rle_line(b, pos, line, bpl, chunk, fill) matches Ok(le) ==> pos <= le.1 <= b.len()
            && le.0.len() == bpl,
    decreases b.len() - pos,
{
    if line.len() >= bpl {
    } else if pos >= b.len() {
    } else {
        let code = b[pos];
        if code < 0x80 {
            let count = (code + 1) as nat;
            if line.len() + count * chunk > bpl {
            } else if pos + 1 + chunk > b.len() {
            } else {
                lemma_repeat_len(b.subrange(pos + 1, pos + 1 + chunk), count);
                assert(count * chunk >= 1 * chunk) by (nonlinear_arith)
                    requires count >= 1 && chunk >= 1;
                lemma_rle_line_bounds(
                    b,
                    pos + 1 + chunk,
                    line + repeat_seq(b.subrange(pos + 1, pos + 1 + chunk), count),
                    bpl,
                    chunk,
                    fill,
                );
            }
        } else if code == 0x80 {
        } else {
            let count = (257 - code) as nat;
            let nbytes = count * chunk;
            if line.len() + nbytes > bpl {
            } else if pos + 1 + nbytes > b.len() {
            } else {
                lemma_rle_line_bounds(
                    b,
                    pos + 1 + nbytes,
                    line + b.subrange(pos + 1, pos + 1 + nbytes),
                    bpl,
                    chunk,
                    fill,
                );
            }
        }
    }
}

/// Decode line groups until `lines_left` lines have been emitted.  Returns
/// the accumulated page content and the position after the page.
pub open spec fn rle_page(
    b: Seq<u8>,
    pos: int,
    lines_left: nat,
    bpl: nat,
    chunk: nat,
    fill: u8,
    acc: Seq<u8>,
) -> Result<(Seq<u8>, int), RasterError>
    recommends
        0 < chunk,
        0 < bpl,
    decreases lines_left,
{
    if lines_left == 0 {
        Ok((acc, pos))
    } else if pos < 0 || pos >= b.len() {
        Err(RasterError::Truncated)
    } else {
        let repeat = (b[pos] + 1) as nat;
        match rle_line(b, pos + 1, Seq::empty(), bpl, chunk, fill) {
            Err(e) => Err(e),
            Ok(le) => {
                let emit = if repeat <= lines_left {
                    repeat
                } else {
                    lines_left
                };
                rle_page(
                    b,
                    le.1,
                    (lines_left - emit) as nat,
                    bpl,
                    chunk,
                    fill,
                    acc + repeat_seq(le.0, emit),
                )
            },
        }
    }
}

/// A completed page ends no earlier than it began and within the stream,
/// and its content grows by exactly one line's worth of bytes per line.
pub proof fn lemma_rle_page_bounds(
    b: Seq<u8>,
    pos: int,
    lines_left: nat,
    bpl: nat,
    chunk: nat,
    fill: u8,
    acc: Seq<u8>,
)
    requires
        0 <= pos <= b.len(),
        0 < chunk,
        0 < bpl,
    ensures
        rle_page(b, pos, lines_left, bpl, chunk, fill, acc) matches Ok(pe) ==> pos <= pe.1
            <= b.len() && pe.0.len() == acc.len() + lines_left * bpl,
    decreases lines_left,
{
    if lines_left == 0 {
        assert(lines_left * bpl == 0) by (nonlinear_arith)
            requires lines_left == 0;
    } else if pos >= b.len() {
    } else {
        let repeat = (b[pos] + 1) as nat;
        match rle_line(b, pos + 1, Seq::empty(), bpl, chunk, fill) {
            Err(e) => {},
            Ok(le) => {
                lemma_rle_line_bounds(b, pos + 1, Seq::empty(), bpl, chunk, fill);
                let emit = if repeat <= lines_left {
                    repeat
                } else {
                    lines_left
                };
                lemma_repeat_len(le.0, emit);
                lemma_rle_page_bounds(
                    b,
                    le.1,
                    (lines_left - emit) as nat,
                    bpl,
                    chunk,
                    fill,
                    acc + repeat_seq(le.0, emit),
                );
                assert(acc.len() + emit * bpl + (lines_left - emit) * bpl == acc.len() + lines_left
                    * bpl) by (nonlinear_arith);
            },
        }
    }
}

/// Append `b[from..to]` to `out`.
fn push_slice(out: &mut Vec<u8>, b: &[u8], from: usize, to: usize)
    requires
        from <= to <= b@.len(),
    ensures
        final(out)@ == old(out)@ + b@.subrange(from as int, to as int),
{
    let mut j = from;
    proof {
        assert(out@ =~= out@ + b@.subrange(from as int, from as int));
    }
    while j < to
        invariant
            from <= j <= to <= b@.len(),
            out@ == old(out)@ + b@.subrange(from as int, j as int),
        decreases to - j,
    {
        let x = b[j];
        out.push(x);
        j = j + 1;
        proof {
            assert((old(out)@ + b@.subrange(from as int, j - 1)).push(b@[j - 1]) =~= old(out)@
                + b@.subrange(from as int, j as int));
        }
    }
}

/// Append `count` copies of the pixel `b[from..from + chunk]` to `out`.
fn push_repeat_pixel(out: &mut Vec<u8>, b: &[u8], from: usize, chunk: usize, count: usize)
    requires
        from + chunk <= b@.len(),
    ensures
        final(out)@ == old(out)@ + repeat_seq(
            b@.subrange(from as int, from as int + chunk),
            count as nat,
        ),
{
    let ghost pixel = b@.subrange(from as int, from as int + chunk);
    let blen = b.len();
    let mut c: usize = 0;
    proof {
        assert(out@ =~= out@ + repeat_seq(pixel, 0));
    }
    while c < count
        invariant
            c <= count,
            from + chunk <= b@.len(),
            b@.len() == blen,
            pixel == b@.subrange(from as int, from as int + chunk),
            out@ == old(out)@ + repeat_seq(pixel, c as nat),
        decreases count - c,
    {
        push_slice(out, b, from, from + chunk);
        c = c + 1;
        proof {
            lemma_repeat_snoc(pixel, (c - 1) as nat);
            assert((old(out)@ + repeat_seq(pixel, (c - 1) as nat)) + pixel =~= old(out)@
                + (repeat_seq(pixel, (c - 1) as nat) + pixel));
        }
    }
}

/// Append `count` fill bytes to `out`.
fn push_fill(out: &mut Vec<u8>, fill: u8, count: usize)
    ensures
        final(out)@ == old(out)@ + Seq::new(count as nat, (|j: int| fill)),
{
    let mut c: usize = 0;
    proof {
        assert(out@ =~= out@ + Seq::new(0, (|j: int| fill)));
    }
    while c < count
        invariant
            c <= count,
            out@ == old(out)@ + Seq::new(c as nat, (|j: int| fill)),
        decreases count - c,
    {
        out.push(fill);
        c = c + 1;
        proof {
            assert((old(out)@ + Seq::new((c - 1) as nat, (|j: int| fill))).push(fill) =~= old(out)@
                + Seq::new(c as nat, (|j: int| fill)));
        }
    }
}

/// Decode one line of `bpl` bytes starting at `start`.
pub fn decode_rle_line(b: &[u8], start: usize, bpl: usize, chunk: usize, fill: u8) -> (r: Result<
    (Vec<u8>, usize),
    RasterError,
>)
    requires
        0 < chunk <= 0x4000_0000,
        start <= b@.len(),
    ensures
        r matches Ok(le) ==> rle_line(b@, start as int, Seq::empty(), bpl as nat, chunk as nat, fill)
            == Ok::<(Seq<u8>, int), RasterError>((le.0@, le.1 as int)) && le.0@.len() == bpl && start
            <= le.1 <= b@.len(),
        r matches Err(e) ==> rle_line(b@, start as int, Seq::empty(), bpl as nat, chunk as nat, fill)
            == Err::<(Seq<u8>, int), RasterError>(e),
{
    let mut line: Vec<u8> = Vec::new();
    let mut pos = start;
    proof {
        assert(line@ =~= Seq::<u8>::empty());
    }
    loop
        invariant
            0 < chunk <= 0x4000_0000,
            start <= pos <= b@.len(),
            line@.len() <= bpl,
            rle_line(b@, start as int, Seq::empty(), bpl as nat, chunk as nat, fill) == rle_line(
                b@,
                pos as int,
                line@,
                bpl as nat,
                chunk as nat,
                fill,
            ),
        decreases bpl - line@.len(), b@.len() - pos,
    {
        if line.len() >= bpl {
            return Ok((line, pos));
        }
        if pos >= b.len() {
            return Err(RasterError::Truncated);
        }
        let code = b[pos];
        if code < 0x80 {
            let count = code as usize + 1;
            proof {
                assert((count as int) * (chunk as int) <= 129 * 0x4000_0000) by (nonlinear_arith)
                    requires count <= 129 && 0 < chunk <= 0x4000_0000;
            }
            let needed: u64 = (count as u64) * (chunk as u64);
            if needed > (bpl as u64) || (line.len() as u64) > (bpl as u64) - needed {
                proof {
                    assert(line@.len() + (count as nat) * (chunk as nat) > bpl);
                }
                return Err(RasterError::InvalidRasterData);
            }
            if chunk > b.len() - pos - 1 {
                return Err(RasterError::Truncated);
            }
            push_repeat_pixel(&mut line, b, pos + 1, chunk, count);
            proof {
                lemma_repeat_len(b@.subrange(pos + 1, pos as int + 1 + chunk), count as nat);
            }
            pos = pos + 1 + chunk;
        } else if code == 0x80 {
            let fill_count = bpl - line.len();
            push_fill(&mut line, fill, fill_count);
            return Ok((line, pos + 1));
        } else {
            let count = 257 - code as usize;
            proof {
                assert((count as int) * (chunk as int) <= 129 * 0x4000_0000) by (nonlinear_arith)
                    requires count <= 129 && 0 < chunk <= 0x4000_0000;
            }
            let needed: u64 = (count as u64) * (chunk as u64);
            if needed > (bpl as u64) || (line.len() as u64) > (bpl as u64) - needed {
                proof {
                    assert(line@.len() + (count as nat) * (chunk as nat) > bpl);
                }
                return Err(RasterError::InvalidRasterData);
            }
            let nbytes = needed as usize;
            if nbytes > b.len() - pos - 1 {
                return Err(RasterError::Truncated);
            }
            push_slice(&mut line, b, pos + 1, pos + 1 + nbytes);
            pos = pos + 1 + nbytes;
        }
    }
}

/// Decode a page of `lines` lines of `bpl` bytes each, starting at `start`.
pub fn decode_rle_page(
    b: &[u8],
    start: usize,
    lines: usize,
    bpl: usize,
    chunk: usize,
    fill: u8,
) -> (r: Result<(Vec<u8>, usize), RasterError>)
    requires
        0 < chunk <= 0x4000_0000,
        0 < bpl,
        start <= b@.len(),
    ensures
        r matches Ok(pe) ==> rle_page(
            b@,
            start as int,
            lines as nat,
            bpl as nat,
            chunk as nat,
            fill,
            Seq::empty(),
        ) == Ok::<(Seq<u8>, int), RasterError>((pe.0@, pe.1 as int)) && pe.0@.len() == lines * bpl
            && start <= pe.1 <= b@.len(),
        r matches Err(e) ==> rle_page(
            b@,
            start as int,
            lines as nat,
            bpl as nat,
            chunk as nat,
            fill,
            Seq::empty(),
        ) == Err::<(Seq<u8>, int), RasterError>(e),
{
    let mut out: Vec<u8> = Vec::new();
    let mut pos = start;
    let mut lines_rem = lines;
    proof {
        assert(out@ =~= Seq::<u8>::empty());
    }
    while lines_rem > 0
        invariant
            0 < chunk <= 0x4000_0000,
            0 < bpl,
            start <= pos <= b@.len(),
            lines_rem <= lines,
            out@.len() == (lines - lines_rem) * bpl,
            rle_page(b@, start as int, lines as nat, bpl as nat, chunk as nat, fill, Seq::empty())
                == rle_page(b@, pos as int, lines_rem as nat, bpl as nat, chunk as nat, fill, out@),
        decreases lines_rem,
    {
        if pos >= b.len() {
            return Err(RasterError::Truncated);
        }
        let repeat = b[pos] as usize + 1;
        match decode_rle_line(b, pos + 1, bpl, chunk, fill) {
            Err(e) => {
                return Err(e);
            },
            Ok((line, p2)) => {
                let emit = if repeat <= lines_rem {
                    repeat
                } else {
                    lines_rem
                };
                let ghost out_before = out@;
                let mut c: usize = 0;
                proof {
                    assert(out@ =~= out_before + repeat_seq(line@, 0));
                }
                while c < emit
                    invariant
                        c <= emit,
                        line@.len() == bpl,
                        out@ == out_before + repeat_seq(line@, c as nat),
                    decreases emit - c,
                {
                    push_slice(&mut out, line.as_slice(), 0, line.len());
                    c = c + 1;
                    proof {
                        assert(line@.subrange(0, line@.len() as int) =~= line@);
                        lemma_repeat_snoc(line@, (c - 1) as nat);
                        assert((out_before + repeat_seq(line@, (c - 1) as nat)) + line@
                            =~= out_before + (repeat_seq(line@, (c - 1) as nat) + line@));
                    }
                }
                proof {
                    lemma_repeat_len(line@, emit as nat);
                    assert((lines - lines_rem) * bpl + emit * bpl + (lines - (lines_rem - emit))
                        * bpl * 0 == (lines - lines_rem) * bpl + emit * bpl);
                    assert((lines - lines_rem) * bpl + emit * bpl == (lines - (lines_rem - emit))
                        * bpl) by (nonlinear_arith);
                }
                pos = p2;
                lines_rem = lines_rem - emit;
            },
        }
    }
    Ok((out, pos))
}

} // verus!

//! Splitting a raw request buffer into its header-section lines, and header
//! lookup.
//!
//! A buffer is read as lines separated by a line feed, each with one
//! trailing carriage return removed, up to but not including the first empty
//! line (the header/body boundary). Headers split on the first colon-space
//! separator; lines without one are skipped.

use vstd::prelude::*;
use vstd::slice::{slice_subrange, slice_to_vec};

use crate::encoding::{bytes_eq, find_from, find_sep, first_at, first_sep, lemma_first_at};

verus! {

/// A line with one trailing carriage return removed, if it has one.
pub open spec fn strip_cr(line: Seq<u8>) -> Seq<u8> {
    if line.len() > 0 && line.last() == 13 {
        line.drop_last()
    } else {
        line
    }
}

/// The lines of `b`: split at each line feed, each terminated piece with
/// one trailing carriage return removed; an unterminated final piece keeps
/// its bytes as they are. A terminating line feed yields one final empty
/// line here; the header section below never reaches past the first empty
/// line, so this agrees with how `str::lines` reads the buffer.
pub open spec fn spec_lines(b: Seq<u8>) -> Seq<Seq<u8>>
    decreases b.len(),
    via spec_lines_decreases
{
    if first_at(b, 10, 0) >= b.len() {
        seq![b]
    } else {
        seq![strip_cr(b.take(first_at(b, 10, 0)))] + spec_lines(b.skip(first_at(b, 10, 0) + 1))
    }
}

#[via_fn]
proof fn spec_lines_decreases(b: Seq<u8>) {
    lemma_first_at(b, 10, 0);
}

/// The prefix of `ls` up to but not including its first empty line.
pub open spec fn header_section(ls: Seq<Seq<u8>>) -> Seq<Seq<u8>>
    decreases ls.len(),
{
    if ls.len() == 0 || ls[0].len() == 0 {
        Seq::empty()
    } else {
        seq![ls[0]] + header_section(ls.skip(1))
    }
}

/// The header-section lines of a raw request buffer: its lines up to the
/// first empty one.
pub open spec fn request_lines(b: Seq<u8>) -> Seq<Seq<u8>> {
    header_section(spec_lines(b))
}

/// `first_at` looked at through a prefix cut: searching from `j` in `b` is
/// searching from `j - i` in `b` with its first `i` bytes dropped.
pub proof fn lemma_first_at_offset(b: Seq<u8>, x: u8, i: int, j: int)
    requires
        0 <= i <= j <= b.len(),
    ensures
        first_at(b, x, j) == i + first_at(b.skip(i), x, j - i),
    decreases b.len() - j,
{
    if j == b.len() {
    } else if b[j] == x {
        assert(b.skip(i)[j - i] == x);
    } else {
        assert(b.skip(i)[j - i] == b[j]);
        lemma_first_at_offset(b, x, i, j + 1);
    }
}

/// The value of the first header whose name precedes the first colon-space
/// separator, searching `hs` in order; lines without a separator are
/// skipped.
pub open spec fn header_lookup(hs: Seq<Seq<u8>>, name: Seq<u8>) -> Option<Seq<u8>>
    decreases hs.len(),
{
    if hs.len() == 0 {
        None
    } else if first_sep(hs[0], 0) < hs[0].len() && hs[0].take(first_sep(hs[0], 0)) == name {
        Some(hs[0].skip(first_sep(hs[0], 0) + 2))
    } else {
        header_lookup(hs.skip(1), name)
    }
}

/// Splits a raw request buffer into its header-section lines.
pub fn split_header_lines(buf: &[u8]) -> (lines: Vec<Vec<u8>>)
    ensures
        lines@.map_values(|l: Vec<u8>| l@) == request_lines(buf@),
{
    let mut lines: Vec<Vec<u8>> = Vec::new();
    let mut pos: usize = 0;
    proof {
        assert(buf@.skip(0) =~= buf@);
        assert(lines@.map_values(|l: Vec<u8>| l@) =~= Seq::<Seq<u8>>::empty());
        assert(Seq::<Seq<u8>>::empty() + header_section(spec_lines(buf@)) =~= header_section(
            spec_lines(buf@),
        ));
    }
    loop
        invariant
            pos <= buf@.len(),
            request_lines(buf@) == lines@.map_values(|l: Vec<u8>| l@) + header_section(
                spec_lines(buf@.skip(pos as int)),
            ),
        ensures
            request_lines(buf@) == lines@.map_values(|l: Vec<u8>| l@),
        decreases buf@.len() - pos,
    {
        let ghost oldpos = pos as int;
        let ghost rem = buf@.skip(pos as int);
        let e = find_from(buf, pos, 10);
        proof {
            lemma_first_at(buf@, 10, pos as int);
            lemma_first_at_offset(buf@, 10, pos as int, pos as int);
            assert(first_at(rem, 10, 0) == e - pos);
        }
        let end = if e < buf.len() && e > pos && buf[e - 1] == 13 {
            e - 1
        } else {
            e
        };
        let line = slice_to_vec(slice_subrange(buf, pos, end));
        proof {
            assert(rem.take(e - pos) =~= buf@.subrange(pos as int, e as int));
            if e >= buf@.len() {
                assert(rem.take(e - pos) =~= rem);
                assert(line@ =~= rem);
                assert(spec_lines(rem) == seq![rem]);
            } else {
                assert(line@ =~= strip_cr(rem.take(e - pos)));
            }
        }
        if line.len() == 0 {
            proof {
                assert(header_section(spec_lines(rem)) =~= Seq::<Seq<u8>>::empty());
            }
            break;
        }
        let ghost old_lines = lines@;
        lines.push(line);
        proof {
            assert(lines@.map_values(|l: Vec<u8>| l@) =~= old_lines.map_values(|l: Vec<u8>| l@)
                + seq![line@]);
        }
        if e >= buf.len() {
            pos = buf.len();
            proof {
                let ls = spec_lines(rem);
                assert(ls == seq![rem]);
                assert(ls[0] == line@);
                assert(ls.skip(1) =~= Seq::<Seq<u8>>::empty());
                assert(header_section(ls) == seq![ls[0]] + header_section(ls.skip(1)));
                assert(header_section(ls) =~= seq![line@]);
                assert(buf@.skip(pos as int) =~= Seq::<u8>::empty());
                let emp = Seq::<u8>::empty();
                assert(spec_lines(emp) == seq![strip_cr(emp)]);
                assert(header_section(spec_lines(emp)) =~= Seq::<Seq<u8>>::empty());
                assert(lines@.map_values(|l: Vec<u8>| l@) + header_section(
                    spec_lines(buf@.skip(pos as int)),
                ) =~= old_lines.map_values(|l: Vec<u8>| l@) + header_section(ls));
            }
        } else {
            pos = e + 1;
            proof {
                let ls = spec_lines(rem);
                assert(rem.skip(e - oldpos + 1) =~= buf@.skip(pos as int));
                assert(ls == seq![strip_cr(rem.take(e - oldpos))] + spec_lines(
                    buf@.skip(pos as int),
                ));
                assert(ls[0] == line@);
                assert(ls.skip(1) =~= spec_lines(buf@.skip(pos as int)));
                assert(header_section(ls) == seq![ls[0]] + header_section(ls.skip(1)));
                assert(lines@.map_values(|l: Vec<u8>| l@) + header_section(
                    spec_lines(buf@.skip(pos as int)),
                ) =~= old_lines.map_values(|l: Vec<u8>| l@) + header_section(ls));
            }
        }
    }
    lines
}

/// Looks up a header by name among all lines after the first (the request
/// line), returning a copy of its value.
pub fn find_header(lines: &Vec<Vec<u8>>, name: &[u8]) -> (r: Option<Vec<u8>>)
    requires
        lines@.len() >= 1,
    ensures
        match header_lookup(lines@.map_values(|l: Vec<u8>| l@).skip(1), name@) {
            Option::None => r is None,
            Option::Some(v) => r matches Some(rv) && rv@ == v,
        },
{
    let ghost all = lines@.map_values(|l: Vec<u8>| l@);
    let mut j: usize = 1;
    while j < lines.len()
        invariant
            all == lines@.map_values(|l: Vec<u8>| l@),
            1 <= j <= lines@.len(),
            header_lookup(all.skip(1), name@) == header_lookup(all.skip(j as int), name@),
        decreases lines@.len() - j,
    {
        let l = &lines[j];
        let sep = find_sep(l.as_slice());
        proof {
            assert(all.skip(j as int)[0] == l@);
            assert(all.skip(j as int).skip(1) =~= all.skip(j as int + 1));
        }
        if sep < l.len() {
            let hname = slice_subrange(l.as_slice(), 0, sep);
            proof {
                assert(hname@ =~= l@.take(first_sep(l@, 0)));
            }
            if bytes_eq(hname, name) {
                proof {
                    crate::encoding::lemma_first_sep(l@, 0);
                }
                let value = slice_to_vec(slice_subrange(l.as_slice(), sep + 2, l.len()));
                proof {
                    assert(value@ =~= l@.skip(first_sep(l@, 0) + 2));
                }
                return Some(value);
            }
        }
        j += 1;
    }
    proof {
        assert(all.skip(lines@.len() as int) =~= Seq::<Seq<u8>>::empty());
    }
    None
}

} // verus!

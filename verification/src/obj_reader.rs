//! Parsing mesh vertices out of a plain-text model description.
//!
//! The text is split into lines; a line whose first two bytes are the
//! vertex marker `v` and a space must then split on single spaces into
//! exactly four tokens, the last three being signed decimal numbers,
//! or the whole load fails with `FormatError`. Parsed vertices carry
//! `w = 1`, in file order. Empty tokens and malformed numbers are fatal,
//! not skipped; any other line is ignored.

use vstd::prelude::*;
use crate::fx::{Fx, fx_clamp, fx_neg, FX_ONE};
use crate::mat::{Vec4, Vec4V};
use crate::mesh_data::MeshData;

verus! {

/// The largest integer part a coordinate keeps; at this size the scaled
/// value already saturates the raw range.
pub const DIGITS_CAP: i64 = 0x8000_0000_0000;

/// A load fails with `FormatError` when a vertex-marked line does not
/// hold exactly three well-formed numeric coordinates after the marker;
/// `IOError` stands for an unreadable source, raised by callers that do
/// the reading.
#[derive(Clone, Copy, Debug, PartialEq, Eq, Structural)]
pub enum ObjError {
    FormatError,
    IOError,
}

/// Split a byte sequence at every occurrence of `sep`; adjacent
/// separators yield empty pieces, and there is always at least one piece.
pub open spec fn split_at(s: Seq<u8>, sep: u8) -> Seq<Seq<u8>>
    decreases s.len(),
{
    if s.len() == 0 {
        seq![Seq::<u8>::empty()]
    } else if s.last() == sep {
        split_at(s.drop_last(), sep).push(Seq::<u8>::empty())
    } else {
        let t = split_at(s.drop_last(), sep);
        t.update(t.len() - 1, t.last().push(s.last()))
    }
}

/// A line with its trailing carriage return, if any, removed.
pub open spec fn strip_cr(l: Seq<u8>) -> Seq<u8> {
    if l.len() > 0 && l.last() == 13 {
        l.drop_last()
    } else {
        l
    }
}

/// Whether the byte is an ASCII decimal digit.
pub open spec fn is_digit(b: u8) -> bool {
    48 <= b <= 57
}

/// Whether every byte of the sequence is a decimal digit.
pub open spec fn all_digits(s: Seq<u8>) -> bool {
    forall|i: int| 0 <= i < s.len() ==> is_digit(s[i])
}

/// One step of reading a digit string left to right, capped so that the
/// accumulated integer part never grows past saturation.
pub open spec fn digit_step(acc: int, d: u8) -> int {
    let a2 = acc * 10 + (d - 48);
    if a2 > DIGITS_CAP as int {
        DIGITS_CAP as int
    } else {
        a2
    }
}

/// The capped value of a digit string.
pub open spec fn digits_val(s: Seq<u8>) -> int
    decreases s.len(),
{
    if s.len() == 0 {
        0
    } else {
        digit_step(digits_val(s.drop_last()), s.last())
    }
}

/// Ten to the `k`.
pub open spec fn pow10(k: nat) -> int
    decreases k,
{
    if k == 0 {
        1
    } else {
        10 * pow10((k - 1) as nat)
    }
}

/// The position of the last `.` in the token, if any.
pub open spec fn last_dot(s: Seq<u8>) -> Option<int>
    decreases s.len(),
{
    if s.len() == 0 {
        None
    } else if s.last() == 46 {
        Some(s.len() - 1)
    } else {
        last_dot(s.drop_last())
    }
}

/// The raw value of an unsigned decimal token: digits, optionally with
/// one point and a fractional part, at least one digit in all. The
/// fractional part contributes its first six digits, scaled and rounded
/// down; the whole value saturates at the raw bounds.
pub open spec fn parse_unsigned(tok: Seq<u8>) -> Option<int> {
    match last_dot(tok) {
        None => if tok.len() > 0 && all_digits(tok) {
            Some(fx_clamp(digits_val(tok) * (FX_ONE as int)))
        } else {
            None
        },
        Some(p) => {
            let ip = tok.subrange(0, p);
            let fp = tok.subrange(p + 1, tok.len() as int);
            if (ip.len() + fp.len() > 0) && all_digits(ip) && all_digits(fp) {
                let k = if fp.len() > 6 { 6 as nat } else { fp.len() };
                let fr = digits_val(fp.take(k as int)) * (FX_ONE as int) / pow10(k);
                Some(fx_clamp(digits_val(ip) * (FX_ONE as int) + fr))
            } else {
                None
            }
        },
    }
}

/// The raw value of a signed decimal token: an optional leading minus
/// sign, then an unsigned decimal token.
pub open spec fn parse_coord(tok: Seq<u8>) -> Option<int> {
    if tok.len() > 0 && tok[0] == 45 {
        match parse_unsigned(tok.subrange(1, tok.len() as int)) {
            Some(v) => Some(fx_neg(v)),
            None => None,
        }
    } else {
        parse_unsigned(tok)
    }
}

/// Whether the line carries the vertex marker: a `v` and a space.
pub open spec fn is_vertex_marked(l: Seq<u8>) -> bool {
    l.len() >= 2 && l[0] == 118 && l[1] == 32
}

/// The vertex a marked line holds: the line must split on single spaces
/// into exactly four tokens whose last three are numeric; `w` is 1.
pub open spec fn parse_vertex(l: Seq<u8>) -> Option<Vec4V> {
    let toks = split_at(l, 32);
    if toks.len() != 4 {
        None
    } else {
        match (parse_coord(toks[1]), parse_coord(toks[2]), parse_coord(toks[3])) {
            (Some(x), Some(y), Some(z)) => Some(Vec4V { x, y, z, w: FX_ONE as int }),
            _ => None,
        }
    }
}

/// The vertices of a list of lines, in order; one bad vertex-marked line
/// spoils the whole load.
pub open spec fn parse_lines(ls: Seq<Seq<u8>>) -> Option<Seq<Vec4V>>
    decreases ls.len(),
{
    if ls.len() == 0 {
        Some(Seq::<Vec4V>::empty())
    } else {
        match parse_lines(ls.drop_last()) {
            None => None,
            Some(vs) => {
                let l = strip_cr(ls.last());
                if is_vertex_marked(l) {
                    match parse_vertex(l) {
                        Some(v) => Some(vs.push(v)),
                        None => None,
                    }
                } else {
                    Some(vs)
                }
            },
        }
    }
}

/// The vertices held by a whole model text: its lines, split at newlines,
/// parsed in order.
pub open spec fn obj_verts(data: Seq<u8>) -> Option<Seq<Vec4V>> {
    parse_lines(split_at(data, 10))
}

/// A load that parses at all still parses after dropping trailing lines.
pub proof fn lemma_parse_lines_prefix(ls: Seq<Seq<u8>>, k: int)
    requires
        0 <= k <= ls.len(),
        parse_lines(ls) is Some,
    ensures
        parse_lines(ls.take(k)) is Some,
    decreases ls.len(),
{
    if k < ls.len() {
        assert(ls.take(k) =~= ls.drop_last().take(k));
        lemma_parse_lines_prefix(ls.drop_last(), k);
    } else {
        assert(ls.take(k) =~= ls);
    }
}

/// Split the first `n` bytes of `data` at every `sep`.
fn split_prefix(data: &Vec<u8>, n: usize, sep: u8) -> (out: Vec<Vec<u8>>)
    requires
        n <= data@.len(),
    ensures
        out@.map_values(|v: Vec<u8>| v@) == split_at(data@.take(n as int), sep),
{
    let ghost s = data@.take(n as int);
    let mut out: Vec<Vec<u8>> = Vec::new();
    let mut cur: Vec<u8> = Vec::new();
    let mut i: usize = 0;
    while i < n
        invariant
            i <= n,
            n <= data@.len(),
            s == data@.take(n as int),
            out@.map_values(|v: Vec<u8>| v@).push(cur@) =~~= split_at(s.take(i as int), sep),
        decreases n - i,
    {
        let ghost out_old = out@;
        let ghost cur_old = cur@;
        let b = data[i];
        proof {
            assert(s.take(i as int + 1).drop_last() =~= s.take(i as int));
            assert(s.take(i as int + 1).last() == b);
        }
        if b == sep {
            out.push(cur);
            cur = Vec::new();
            proof {
                assert(out@.map_values(|v: Vec<u8>| v@).push(cur@) =~~= split_at(
                    s.take(i as int),
                    sep,
                ).push(Seq::<u8>::empty()));
            }
        } else {
            cur.push(b);
            proof {
                let t = split_at(s.take(i as int), sep);
                assert(out_old.map_values(|v: Vec<u8>| v@).push(cur_old) == t);
                assert(t.len() == out_old.len() + 1);
                assert(t.last() == cur_old);
                assert(out@.map_values(|v: Vec<u8>| v@).push(cur@) =~~= t.update(
                    t.len() - 1,
                    t.last().push(b),
                ));
            }
        }
        i += 1;
    }
    proof {
        assert(s.take(n as int) =~= s);
    }
    out.push(cur);
    proof {
        assert(out@.map_values(|v: Vec<u8>| v@) =~~= split_at(s, sep));
    }
    out
}

/// Scan the bytes of `tok` in `[a, b)`: all must be digits, and the
/// result is their capped value.
fn digits_scan(tok: &Vec<u8>, a: usize, b: usize) -> (r: Option<i64>)
    requires
        a <= b <= tok@.len(),
    ensures
        match r {
            Some(v) => all_digits(tok@.subrange(a as int, b as int)) && v as int == digits_val(
                tok@.subrange(a as int, b as int),
            ) && 0 <= v <= DIGITS_CAP,
            None => !all_digits(tok@.subrange(a as int, b as int)),
        },
{
    let ghost whole = tok@.subrange(a as int, b as int);
    let mut acc: i64 = 0;
    let mut i: usize = a;
    while i < b
        invariant
            a <= i <= b <= tok@.len(),
            whole == tok@.subrange(a as int, b as int),
            all_digits(tok@.subrange(a as int, i as int)),
            acc as int == digits_val(tok@.subrange(a as int, i as int)),
            0 <= acc <= DIGITS_CAP,
        decreases b - i,
    {
        let d = tok[i];
        proof {
            assert(tok@.subrange(a as int, i as int + 1).drop_last() =~= tok@.subrange(
                a as int,
                i as int,
            ));
            assert(tok@.subrange(a as int, i as int + 1).last() == d);
        }
        if d < 48 || d > 57 {
            proof {
                assert(whole[i - a] == d);
            }
            return None;
        }
        let a2: i64 = acc * 10 + ((d - 48) as i64);
        acc = if a2 > DIGITS_CAP {
            DIGITS_CAP
        } else {
            a2
        };
        i += 1;
    }
    proof {
        assert(tok@.subrange(a as int, b as int) =~= whole);
    }
    Some(acc)
}

/// Ten to the `k`, for the at most six fractional digits kept.
fn pow10_small(k: usize) -> (r: u64)
    requires
        k <= 6,
    ensures
        r as int == pow10(k as nat),
        1 <= r <= 1000000,
{
    proof {
        assert(pow10(0) == 1);
        assert(pow10(1) == 10);
        assert(pow10(2) == 100);
        assert(pow10(3) == 1000);
        assert(pow10(4) == 10000);
        assert(pow10(5) == 100000);
        assert(pow10(6) == 1000000);
    }
    if k == 0 {
        1
    } else if k == 1 {
        10
    } else if k == 2 {
        100
    } else if k == 3 {
        1000
    } else if k == 4 {
        10000
    } else if k == 5 {
        100000
    } else {
        1000000
    }
}

/// Parse the unsigned decimal token occupying `tok` from `start` on.
fn parse_unsigned_fx(tok: &Vec<u8>, start: usize) -> (r: Option<i64>)
    requires
        start <= tok@.len(),
    ensures
        match r {
            Some(v) => parse_unsigned(tok@.subrange(start as int, tok@.len() as int)) == Some(
                v as int,
            ) && v >= 0,
            None => parse_unsigned(tok@.subrange(start as int, tok@.len() as int)) is None,
        },
{
    let ghost sub = tok@.subrange(start as int, tok@.len() as int);
    let n = tok.len();
    let dot = find_last_dot_from(tok, start);
    match dot {
        None => {
            if n == start {
                return None;
            }
            match digits_scan(tok, start, n) {
                None => None,
                Some(v) => {
                    proof {
                        assert(0
                            <= (v as int) * (FX_ONE as int)
                            <= 0x8000_0000_0000_0000_0000) by (nonlinear_arith)
                            requires
                                0 <= v <= DIGITS_CAP,
                                FX_ONE == 65536,
                                DIGITS_CAP == 0x8000_0000_0000,
                        ;
                    }
                    let wide: i128 = (v as i128) * (FX_ONE as i128);
                    Some(crate::fx::clamp_i128(wide))
                },
            }
        },
        Some(p) => {
            let flen = n - (p + 1);
            let k: usize = if flen > 6 { 6 } else { flen };
            proof {
                let fp = sub.subrange((p - start) as int + 1, sub.len() as int);
                assert(fp =~= tok@.subrange(p as int + 1, n as int));
                assert(fp.take(k as int) =~= tok@.subrange(p as int + 1, (p + 1 + k) as int));
                assert(sub.subrange(0, (p - start) as int) =~= tok@.subrange(start as int,
                    p as int));
            }
            if (p - start) + (n - (p + 1)) == 0 {
                return None;
            }
            let ipv = match digits_scan(tok, start, p) {
                None => { return None; },
                Some(v) => v,
            };
            match digits_scan(tok, p + 1, n) {
                None => { return None; },
                Some(_v) => {},
            };
            let kv = match digits_scan(tok, p + 1, p + 1 + k) {
                None => {
                    proof {
                        let fpa = tok@.subrange(p as int + 1, n as int);
                        let kpa = tok@.subrange(p as int + 1, (p + 1 + k) as int);
                        assert forall|l: int| 0 <= l < kpa.len() implies is_digit(kpa[l]) by {
                            assert(kpa[l] == fpa[l]);
                        }
                        assert(false);
                    }
                    return None;
                },
                Some(v) => v,
            };
            let p10 = pow10_small(k);
            let fr: u64 = ((kv as u64) * (FX_ONE as u64)) / p10;
            proof {
                assert(0
                    <= (ipv as int) * (FX_ONE as int)
                    <= 0x8000_0000_0000_0000_0000) by (nonlinear_arith)
                    requires
                        0 <= ipv <= DIGITS_CAP,
                        FX_ONE == 65536,
                        DIGITS_CAP == 0x8000_0000_0000,
                ;
            }
            let wide: i128 = (ipv as i128) * (FX_ONE as i128) + (fr as i128);
            Some(crate::fx::clamp_i128(wide))
        },
    }
}

/// Find the last `.` at or past `start`, as an absolute position.
fn find_last_dot_from(tok: &Vec<u8>, start: usize) -> (r: Option<usize>)
    requires
        start <= tok@.len(),
    ensures
        match r {
            Some(p) => start <= p < tok@.len() && last_dot(
                tok@.subrange(start as int, tok@.len() as int),
            ) == Some(p as int - start as int),
            None => last_dot(tok@.subrange(start as int, tok@.len() as int)) is None,
        },
{
    let ghost sub = tok@.subrange(start as int, tok@.len() as int);
    let n = tok.len();
    let mut found: Option<usize> = None;
    let mut i: usize = start;
    while i < n
        invariant
            start <= i <= n == tok@.len(),
            sub == tok@.subrange(start as int, tok@.len() as int),
            match found {
                Some(p) => start <= p < i && last_dot(tok@.subrange(start as int, i as int))
                    == Some(p as int - start as int),
                None => last_dot(tok@.subrange(start as int, i as int)) is None,
            },
        decreases n - i,
    {
        let c = tok[i];
        proof {
            assert(tok@.subrange(start as int, i as int + 1).drop_last() =~= tok@.subrange(
                start as int,
                i as int,
            ));
            assert(tok@.subrange(start as int, i as int + 1).last() == c);
        }
        if c == 46 {
            found = Some(i);
        }
        i += 1;
    }
    found
}

/// Parse a signed decimal token into a raw scalar value.
fn parse_coord_fx(tok: &Vec<u8>) -> (r: Option<i64>)
    ensures
        match r {
            Some(v) => parse_coord(tok@) == Some(v as int),
            None => parse_coord(tok@) is None,
        },
{
    if tok.len() > 0 && tok[0] == 45 {
        proof {
            assert(tok@.subrange(1, tok@.len() as int) =~= tok@.subrange(1, tok@.len() as int));
        }
        match parse_unsigned_fx(tok, 1) {
            Some(v) => Some(-v),
            None => None,
        }
    } else {
        proof {
            assert(tok@.subrange(0, tok@.len() as int) =~= tok@);
        }
        parse_unsigned_fx(tok, 0)
    }
}

/// Parse a whole model text into mesh data. Returns the vertices of
/// every vertex-marked line, in file order, or `FormatError` exactly
/// when some vertex-marked line is malformed.
pub fn parse_obj(data: &Vec<u8>) -> (r: Result<MeshData, ObjError>)
    ensures
        match r {
            Ok(m) => obj_verts(data@) == Some(m@),
            Err(e) => obj_verts(data@) is None && e == ObjError::FormatError,
        },
{
    let ghost linesv = split_at(data@, 10);
    let n = data.len();
    proof {
        assert(data@.take(n as int) =~= data@);
    }
    let lines = split_prefix(data, n, 10);
    proof {
        assert(lines@.map_values(|v: Vec<u8>| v@) == linesv);
    }
    let mut verts: Vec<Vec4> = Vec::new();
    let mut i: usize = 0;
    while i < lines.len()
        invariant
            i <= lines@.len(),
            lines@.map_values(|v: Vec<u8>| v@) == linesv,
            linesv == split_at(data@, 10),
            parse_lines(linesv.take(i as int)) == Some(
                verts@.map_values(|v: Vec4| v@),
            ),
        decreases lines@.len() - i,
    {
        let ghost partial = verts@.map_values(|v: Vec4| v@);
        let line = &lines[i];
        proof {
            assert(linesv[i as int] == line@);
            assert(linesv.take(i as int + 1).drop_last() =~= linesv.take(i as int));
            assert(linesv.take(i as int + 1).last() == line@);
        }
        let llen = if line.len() > 0 && line[line.len() - 1] == 13 {
            line.len() - 1
        } else {
            line.len()
        };
        let ghost sl = strip_cr(line@);
        proof {
            assert(sl =~= line@.take(llen as int));
        }
        if llen >= 2 && line[0] == 118 && line[1] == 32 {
            let toks = split_prefix(line, llen, 32);
            let ghost toksv = split_at(sl, 32);
            proof {
                assert(line@.take(llen as int) == sl);
                assert(toks@.map_values(|v: Vec<u8>| v@) == toksv);
            }
            if toks.len() != 4 {
                proof {
                    if parse_lines(linesv) is Some {
                        lemma_parse_lines_prefix(linesv, i as int + 1);
                    }
                }
                return Err(ObjError::FormatError);
            }
            proof {
                assert(toksv[1] == toks@[1]@);
                assert(toksv[2] == toks@[2]@);
                assert(toksv[3] == toks@[3]@);
            }
            let x = parse_coord_fx(&toks[1]);
            let y = parse_coord_fx(&toks[2]);
            let z = parse_coord_fx(&toks[3]);
            match (x, y, z) {
                (Some(xv), Some(yv), Some(zv)) => {
                    verts.push(
                        Vec4 {
                            x: Fx::from_raw(xv),
                            y: Fx::from_raw(yv),
                            z: Fx::from_raw(zv),
                            w: Fx::one(),
                        },
                    );
                    proof {
                        assert(verts@.map_values(|v: Vec4| v@) =~= partial.push(
                            Vec4V { x: xv as int, y: yv as int, z: zv as int, w: FX_ONE as int },
                        ));
                    }
                },
                _ => {
                    proof {
                        if parse_lines(linesv) is Some {
                            lemma_parse_lines_prefix(linesv, i as int + 1);
                        }
                    }
                    return Err(ObjError::FormatError);
                },
            }
        }
        i += 1;
    }
    proof {
        assert(linesv.take(lines@.len() as int) =~= linesv);
    }
    Ok(MeshData { verts })
}

} // verus!

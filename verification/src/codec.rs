//! The JSON codec for the wire vocabulary's composite values.
//!
//! The grammar is the compact form the driver speaks: objects with their
//! fields in declared order and no insignificant whitespace inside a value.
//! Encoders emit exactly that form; decoding an encoded value is proved to
//! give the value back.  Malformed text, out-of-range numbers, and values
//! that break their own invariants (a rectangle whose corners cross, a
//! screen too large for the coordinate range, an image whose byte count is
//! not three per pixel) all fail to parse.

use vstd::prelude::*;

use crate::geom::BoundingRectangle;
use crate::geom::COORD_BOUND;
use crate::geom::Point;
use crate::json::is_digit;
use crate::json::spec_enc_int;
use crate::json::spec_enc_milli;
use crate::json::spec_enc_nat;
use crate::json::spec_enc_string;
use crate::json::spec_parse_int;
use crate::json::spec_parse_lit;
use crate::json::spec_parse_milli;
use crate::json::spec_parse_nat;
use crate::json::spec_parse_string;
use crate::json::lemma_parse_lit_rt;
use crate::json::lemma_parse_int_rt;
use crate::json::lemma_parse_milli_rt;
use crate::json::lemma_parse_nat_rt;
use crate::json::lemma_parse_string_rt;
use crate::json::parse_int;
use crate::json::parse_lit;
use crate::json::parse_milli;
use crate::json::parse_nat;
use crate::json::parse_string;
use crate::json::enc_int;
use crate::json::enc_milli;
use crate::json::enc_nat;
use crate::json::enc_string;
use crate::screen::ScaleFactor;
use crate::screen::Screen;
use crate::screen::ScreenV;
use crate::strutil::chars_to_string;
use crate::keys::Key;
use crate::keys::key_name_str;
use crate::keys::key_of_name;
use crate::keys::lemma_key_name_round_trip;
use crate::keys::spec_key_name;
use crate::keys::spec_key_of_name;
use crate::json::is_ws;
use crate::json::spec_skip_ws;
use crate::json::skip_ws;
use crate::names::InputTag;
use crate::names::InputUnit;
use crate::names::OutputTag;
use crate::names::OutputUnit;
use crate::names::KeyTag;
use crate::names::input_tag_of_chars;
use crate::names::input_unit_of_chars;
use crate::names::output_tag_of_chars;
use crate::names::output_unit_of_chars;
use crate::names::lemma_input_tag_name_rt;
use crate::names::lemma_input_unit_name_rt;
use crate::names::lemma_output_tag_name_rt;
use crate::names::lemma_output_unit_name_rt;
use crate::names::spec_input_tag_of_name;
use crate::names::spec_input_unit_of_name;
use crate::names::spec_output_tag_of_name;
use crate::names::spec_output_unit_of_name;
use crate::wire::InputMessage;
use crate::wire::InputMessageV;
use crate::wire::OutputMessage;
use crate::wire::OutputMessageV;
use crate::names::TokenTag;
use crate::names::lemma_token_tag_name_rt;
use crate::names::spec_token_tag_of_name;
use crate::names::token_tag_of_chars;
use crate::wire::TokenV;
use crate::wire::Token;
use crate::names::axis_name_str;
use crate::names::axis_of_chars;
use crate::names::button_name_str;
use crate::names::button_of_chars;
use crate::names::coordinate_name_str;
use crate::names::coordinate_of_chars;
use crate::names::direction_name_str;
use crate::names::direction_of_chars;
use crate::names::key_tag_of_chars;
use crate::names::lemma_axis_name_rt;
use crate::names::lemma_button_name_rt;
use crate::names::lemma_coordinate_name_rt;
use crate::names::lemma_direction_name_rt;
use crate::names::lemma_key_tag_name_rt;
use crate::names::spec_axis_name;
use crate::names::spec_axis_of_name;
use crate::names::spec_button_name;
use crate::names::spec_button_of_name;
use crate::names::spec_coordinate_name;
use crate::names::spec_coordinate_of_name;
use crate::names::spec_direction_name;
use crate::names::spec_direction_of_name;
use crate::names::spec_key_tag_of_name;
use crate::wire::Axis;
use crate::wire::Button;
use crate::wire::Coordinate;
use crate::wire::Direction;
use crate::strutil::chars_eq_lit;
use crate::wire::FindImageFilter;
use crate::wire::FindImageQuality;
use crate::wire::ImageBuffer;
use crate::wire::ImageBufferV;

verus! {

// --- points -------------------------------------------------------------

/// A point spells as a two-element array.
#[verifier::opaque]
pub open spec fn spec_enc_point(p: Point) -> Seq<char> {
    "["@ + spec_enc_int(p.x as int) + ","@ + spec_enc_int(p.y as int) + "]"@
}

/// `Some((point, rest))` when `s` starts with a two-element array of whole
/// numbers; fractions are read and dropped.
#[verifier::opaque]
pub open spec fn spec_parse_point(s: Seq<char>) -> Option<(Point, Seq<char>)> {
    match spec_parse_lit(s, "["@) {
        Some(s1) => match spec_parse_int(s1) {
            Some((x, s2)) => match spec_parse_lit(s2, ","@) {
                Some(s3) => match spec_parse_int(s3) {
                    Some((y, s4)) => match spec_parse_lit(s4, "]"@) {
                        Some(s5) => Some((Point { x, y }, s5)),
                        None => None,
                    },
                    None => None,
                },
                None => None,
            },
            None => None,
        },
        None => None,
    }
}

/// An encoded point parses back to itself.
pub proof fn lemma_parse_point_rt(p: Point, rest: Seq<char>)
    ensures
        spec_parse_point(spec_enc_point(p) + rest) == Some((p, rest)),
{
    reveal(crate::codec::spec_enc_point);
    reveal(crate::codec::spec_parse_point);
    reveal_strlit("[");
    reveal_strlit(",");
    reveal_strlit("]");
    let ex = spec_enc_int(p.x as int);
    let ey = spec_enc_int(p.y as int);
    let t4 = "]"@ + rest;
    let t3 = ey + t4;
    let t2 = ","@ + t3;
    let t1 = ex + t2;
    assert(spec_enc_point(p) + rest =~= "["@ + t1);
    lemma_parse_lit_rt("["@, t1);
    lemma_parse_int_rt(p.x, t2);
    lemma_parse_lit_rt(","@, t3);
    lemma_parse_int_rt(p.y, t4);
    lemma_parse_lit_rt("]"@, rest);
}

/// Reads a point at `i`.
pub fn parse_point(s: &[char], i: usize) -> (r: Option<(Point, usize)>)
    requires
        i <= s@.len(),
    ensures
        match r {
            Some((p, j)) => i <= j <= s@.len() && spec_parse_point(s@.skip(i as int)) == Some(
                (p, s@.skip(j as int)),
            ),
            None => spec_parse_point(s@.skip(i as int)) is None,
        },
{
    proof {
        reveal(crate::codec::spec_parse_point);
    }
    let i1 = match parse_lit(s, i, "[") {
        Some(j) => j,
        None => {
            return None;
        },
    };
    let (x, i2) = match parse_int(s, i1) {
        Some(v) => v,
        None => {
            return None;
        },
    };
    let i3 = match parse_lit(s, i2, ",") {
        Some(j) => j,
        None => {
            return None;
        },
    };
    let (y, i4) = match parse_int(s, i3) {
        Some(v) => v,
        None => {
            return None;
        },
    };
    let i5 = match parse_lit(s, i4, "]") {
        Some(j) => j,
        None => {
            return None;
        },
    };
    Some((Point { x, y }, i5))
}

/// Appends the spelling of a point.
pub fn enc_point(out: &mut Vec<char>, p: &Point)
    ensures
        final(out)@ == old(out)@ + spec_enc_point(*p),
{
    proof {
        reveal(crate::codec::spec_enc_point);
    }
    out.push('[');
    let ghost m1 = out@;
    proof {
        reveal_strlit("[");
        assert(m1 =~= old(out)@ + "["@);
    }
    enc_int(out, p.x);
    out.push(',');
    let ghost m2 = out@;
    proof {
        reveal_strlit(",");
        assert(m2 =~= old(out)@ + "["@ + spec_enc_int(p.x as int) + ","@);
    }
    enc_int(out, p.y);
    out.push(']');
    proof {
        reveal_strlit("]");
        assert(out@ =~= old(out)@ + spec_enc_point(*p));
    }
}

// --- rectangles ---------------------------------------------------------

/// A rectangle spells as an object holding its two corners.
#[verifier::opaque]
pub open spec fn spec_enc_rect(r: BoundingRectangle) -> Seq<char> {
    "{\"min\":"@ + spec_enc_point(r.min) + ",\"max\":"@ + spec_enc_point(r.max) + "}"@
}

/// `Some((rect, rest))` when `s` starts with a rectangle object whose
/// corners are ordered and inside the coordinate range.
#[verifier::opaque]
pub open spec fn spec_parse_rect(s: Seq<char>) -> Option<(BoundingRectangle, Seq<char>)> {
    match spec_parse_lit(s, "{\"min\":"@) {
        Some(s1) => match spec_parse_point(s1) {
            Some((mn, s2)) => match spec_parse_lit(s2, ",\"max\":"@) {
                Some(s3) => match spec_parse_point(s3) {
                    Some((mx, s4)) => match spec_parse_lit(s4, "}"@) {
                        Some(s5) => {
                            let r = BoundingRectangle { min: mn, max: mx };
                            if r.wf() {
                                Some((r, s5))
                            } else {
                                None
                            }
                        },
                        None => None,
                    },
                    None => None,
                },
                None => None,
            },
            None => None,
        },
        None => None,
    }
}

/// An encoded well-formed rectangle parses back to itself.
pub proof fn lemma_parse_rect_rt(r: BoundingRectangle, rest: Seq<char>)
    requires
        r.wf(),
    ensures
        spec_parse_rect(spec_enc_rect(r) + rest) == Some((r, rest)),
{
    reveal(crate::codec::spec_enc_rect);
    reveal(crate::codec::spec_parse_rect);
    let emn = spec_enc_point(r.min);
    let emx = spec_enc_point(r.max);
    let t4 = "}"@ + rest;
    let t3 = emx + t4;
    let t2 = ",\"max\":"@ + t3;
    let t1 = emn + t2;
    assert(spec_enc_rect(r) + rest =~= "{\"min\":"@ + t1);
    lemma_parse_lit_rt("{\"min\":"@, t1);
    lemma_parse_point_rt(r.min, t2);
    lemma_parse_lit_rt(",\"max\":"@, t3);
    lemma_parse_point_rt(r.max, t4);
    lemma_parse_lit_rt("}"@, rest);
}

/// Reads a rectangle at `i`.
pub fn parse_rect(s: &[char], i: usize) -> (r: Option<(BoundingRectangle, usize)>)
    requires
        i <= s@.len(),
    ensures
        match r {
            Some((v, j)) => i <= j <= s@.len() && spec_parse_rect(s@.skip(i as int)) == Some(
                (v, s@.skip(j as int)),
            ) && v.wf(),
            None => spec_parse_rect(s@.skip(i as int)) is None,
        },
{
    proof {
        reveal(crate::codec::spec_parse_rect);
    }
    let i1 = match parse_lit(s, i, "{\"min\":") {
        Some(j) => j,
        None => {
            return None;
        },
    };
    let (mn, i2) = match parse_point(s, i1) {
        Some(v) => v,
        None => {
            return None;
        },
    };
    let i3 = match parse_lit(s, i2, ",\"max\":") {
        Some(j) => j,
        None => {
            return None;
        },
    };
    let (mx, i4) = match parse_point(s, i3) {
        Some(v) => v,
        None => {
            return None;
        },
    };
    let i5 = match parse_lit(s, i4, "}") {
        Some(j) => j,
        None => {
            return None;
        },
    };
    let v = BoundingRectangle { min: mn, max: mx };
    if 0 <= v.min.x && v.min.x <= v.max.x && v.max.x <= COORD_BOUND && 0 <= v.min.y && v.min.y
        <= v.max.y && v.max.y <= COORD_BOUND {
        Some((v, i5))
    } else {
        None
    }
}

/// Appends the spelling of a rectangle.
pub fn enc_rect(out: &mut Vec<char>, r: &BoundingRectangle)
    ensures
        final(out)@ == old(out)@ + spec_enc_rect(*r),
{
    proof {
        reveal(crate::codec::spec_enc_rect);
    }
    push_lit(out, "{\"min\":");
    enc_point(out, &r.min);
    push_lit(out, ",\"max\":");
    enc_point(out, &r.max);
    push_lit(out, "}");
    proof {
        assert(out@ =~= old(out)@ + spec_enc_rect(*r));
    }
}

/// Appends the characters of `lit`.
pub fn push_lit(out: &mut Vec<char>, lit: &str)
    ensures
        final(out)@ == old(out)@ + lit@,
{
    let n = vstd::string::StrSliceExecFns::unicode_len(lit);
    let mut k: usize = 0;
    while k < n
        invariant
            0 <= k <= n,
            n == lit@.len(),
            out@ == old(out)@ + lit@.take(k as int),
        decreases n - k,
    {
        out.push(vstd::string::StrSliceExecFns::get_char(lit, k));
        proof {
            assert(out@ =~= old(out)@ + lit@.take(k + 1));
        }
        k = k + 1;
    }
    proof {
        assert(lit@.take(n as int) =~= lit@);
    }
}

// --- screens ------------------------------------------------------------

/// A screen spells as an object: name, origin, size, then the scale factor
/// as a decimal (`1.5` for three-halves).
#[verifier::opaque]
pub open spec fn spec_enc_screen(v: ScreenV) -> Seq<char> {
    "{\"name\":"@ + spec_enc_string(v.name) + ",\"x\":"@ + spec_enc_nat(v.x as int) + ",\"y\":"@
        + spec_enc_nat(v.y as int) + ",\"width\":"@ + spec_enc_nat(v.width as int)
        + ",\"height\":"@ + spec_enc_nat(v.height as int) + ",\"scale_factor\":"@ + spec_enc_milli(
        v.scale_factor.millis as int,
    ) + "}"@
}

/// `Some((screen, rest))` when `s` starts with a screen object that is
/// well-formed: origin and size inside the coordinate range, scale factor
/// positive.
#[verifier::opaque]
pub open spec fn spec_parse_screen(s: Seq<char>) -> Option<(ScreenV, Seq<char>)> {
    match spec_parse_lit(s, "{\"name\":"@) {
        Some(s1) => match spec_parse_string(s1) {
            Some((name, s2)) => match spec_parse_lit(s2, ",\"x\":"@) {
                Some(s3) => match spec_parse_nat(s3) {
                    Some((x, s4)) => match spec_parse_lit(s4, ",\"y\":"@) {
                        Some(s5) => match spec_parse_nat(s5) {
                            Some((y, s6)) => match spec_parse_lit(s6, ",\"width\":"@) {
                                Some(s7) => match spec_parse_nat(s7) {
                                    Some((w, s8)) => match spec_parse_lit(s8, ",\"height\":"@) {
                                        Some(s9) => match spec_parse_nat(s9) {
                                            Some((h, s10)) => match spec_parse_lit(
                                                s10,
                                                ",\"scale_factor\":"@,
                                            ) {
                                                Some(s11) => match spec_parse_milli(s11) {
                                                    Some((m, s12)) => match spec_parse_lit(
                                                        s12,
                                                        "}"@,
                                                    ) {
                                                        Some(s13) => {
                                                            if m >= 1 && m <= 0xffff_ffff && x + w
                                                                <= COORD_BOUND && y + h
                                                                <= COORD_BOUND {
                                                                let v = ScreenV {
                                                                    name,
                                                                    x,
                                                                    y,
                                                                    width: w,
                                                                    height: h,
                                                                    scale_factor: ScaleFactor {
                                                                        millis: m as u32,
                                                                    },
                                                                };
                                                                Some((v, s13))
                                                            } else {
                                                                None
                                                            }
                                                        },
                                                        None => None,
                                                    },
                                                    None => None,
                                                },
                                                None => None,
                                            },
                                            None => None,
                                        },
                                        None => None,
                                    },
                                    None => None,
                                },
                                None => None,
                            },
                            None => None,
                        },
                        None => None,
                    },
                    None => None,
                },
                None => None,
            },
            None => None,
        },
        None => None,
    }
}

/// An encoded well-formed screen parses back to itself.
#[verifier::rlimit(50)]
pub proof fn lemma_parse_screen_rt(v: ScreenV, rest: Seq<char>)
    requires
        v.wf(),
    ensures
        spec_parse_screen(spec_enc_screen(v) + rest) == Some((v, rest)),
{
    reveal(crate::codec::spec_enc_screen);
    reveal(crate::codec::spec_parse_screen);
    reveal_strlit(",\"x\":");
    reveal_strlit(",\"y\":");
    reveal_strlit(",\"width\":");
    reveal_strlit(",\"height\":");
    reveal_strlit(",\"scale_factor\":");
    reveal_strlit("}");
    let t13 = "}"@ + rest;
    let t12 = spec_enc_milli(v.scale_factor.millis as int) + t13;
    let t11 = ",\"scale_factor\":"@ + t12;
    let t10 = spec_enc_nat(v.height as int) + t11;
    let t9 = ",\"height\":"@ + t10;
    let t8 = spec_enc_nat(v.width as int) + t9;
    let t7 = ",\"width\":"@ + t8;
    let t6 = spec_enc_nat(v.y as int) + t7;
    let t5 = ",\"y\":"@ + t6;
    let t4 = spec_enc_nat(v.x as int) + t5;
    let t3 = ",\"x\":"@ + t4;
    let t2 = spec_enc_string(v.name) + t3;
    assert(spec_enc_screen(v) + rest =~= "{\"name\":"@ + t2);
    lemma_parse_lit_rt("{\"name\":"@, t2);
    lemma_parse_string_rt(v.name, t3);
    lemma_parse_lit_rt(",\"x\":"@, t4);
    lemma_parse_nat_rt(v.x, t5);
    lemma_parse_lit_rt(",\"y\":"@, t6);
    lemma_parse_nat_rt(v.y, t7);
    lemma_parse_lit_rt(",\"width\":"@, t8);
    lemma_parse_nat_rt(v.width, t9);
    lemma_parse_lit_rt(",\"height\":"@, t10);
    lemma_parse_nat_rt(v.height, t11);
    lemma_parse_lit_rt(",\"scale_factor\":"@, t12);
    lemma_parse_milli_rt(v.scale_factor.millis as u64, t13);
    lemma_parse_lit_rt("}"@, rest);
}

/// Reads a screen at `i`.
pub fn parse_screen(s: &[char], i: usize) -> (r: Option<(Screen, usize)>)
    requires
        i <= s@.len(),
    ensures
        match r {
            Some((v, j)) => i <= j <= s@.len() && spec_parse_screen(s@.skip(i as int)) == Some(
                (v@, s@.skip(j as int)),
            ) && v@.wf(),
            None => spec_parse_screen(s@.skip(i as int)) is None,
        },
{
    proof {
        reveal(crate::codec::spec_parse_screen);
    }
    let i1 = match parse_lit(s, i, "{\"name\":") {
        Some(j) => j,
        None => {
            return None;
        },
    };
    let (name, i2) = match parse_string(s, i1) {
        Some(v) => v,
        None => {
            return None;
        },
    };
    let i3 = match parse_lit(s, i2, ",\"x\":") {
        Some(j) => j,
        None => {
            return None;
        },
    };
    let (x, i4) = match parse_nat(s, i3) {
        Some(v) => v,
        None => {
            return None;
        },
    };
    let i5 = match parse_lit(s, i4, ",\"y\":") {
        Some(j) => j,
        None => {
            return None;
        },
    };
    let (y, i6) = match parse_nat(s, i5) {
        Some(v) => v,
        None => {
            return None;
        },
    };
    let i7 = match parse_lit(s, i6, ",\"width\":") {
        Some(j) => j,
        None => {
            return None;
        },
    };
    let (w, i8) = match parse_nat(s, i7) {
        Some(v) => v,
        None => {
            return None;
        },
    };
    let i9 = match parse_lit(s, i8, ",\"height\":") {
        Some(j) => j,
        None => {
            return None;
        },
    };
    let (h, i10) = match parse_nat(s, i9) {
        Some(v) => v,
        None => {
            return None;
        },
    };
    let i11 = match parse_lit(s, i10, ",\"scale_factor\":") {
        Some(j) => j,
        None => {
            return None;
        },
    };
    let (m, i12) = match parse_milli(s, i11) {
        Some(v) => v,
        None => {
            return None;
        },
    };
    let i13 = match parse_lit(s, i12, "}") {
        Some(j) => j,
        None => {
            return None;
        },
    };
    if m >= 1 && m <= 0xffff_ffff && x <= 0x8000_0000 && w <= 0x8000_0000 && x + w
        <= 0x8000_0000 && y <= 0x8000_0000 && h <= 0x8000_0000 && y + h <= 0x8000_0000 {
        let v = Screen {
            name: chars_to_string(&name),
            x,
            y,
            width: w,
            height: h,
            scale_factor: ScaleFactor { millis: m as u32 },
        };
        Some((v, i13))
    } else {
        proof {
            assert(COORD_BOUND == 0x8000_0000);
        }
        None
    }
}

/// Appends the spelling of a screen.
pub fn enc_screen(out: &mut Vec<char>, v: &Screen)
    requires
        v@.scale_factor.millis < 10_000_000_000_000_000,
    ensures
        final(out)@ == old(out)@ + spec_enc_screen(v@),
{
    proof {
        reveal(crate::codec::spec_enc_screen);
    }
    push_lit(out, "{\"name\":");
    enc_string(out, v.name.as_str());
    push_lit(out, ",\"x\":");
    enc_nat(out, v.x);
    push_lit(out, ",\"y\":");
    enc_nat(out, v.y);
    push_lit(out, ",\"width\":");
    enc_nat(out, v.width);
    push_lit(out, ",\"height\":");
    enc_nat(out, v.height);
    push_lit(out, ",\"scale_factor\":");
    enc_milli(out, v.scale_factor.millis as u64);
    push_lit(out, "}");
    proof {
        assert(out@ =~= old(out)@ + spec_enc_screen(v@));
    }
}

/// A list of rectangles spells as an array.
pub open spec fn spec_enc_rects(vs: Seq<BoundingRectangle>) -> Seq<char> {
    if vs.len() == 0 {
        "[]"@
    } else {
        "["@ + spec_enc_rect_items(vs)
    }
}

/// The elements of a non-empty array, comma-separated, with the closing
/// bracket.
pub open spec fn spec_enc_rect_items(vs: Seq<BoundingRectangle>) -> Seq<char>
    decreases vs.len(),
{
    if vs.len() == 0 {
        Seq::empty()
    } else if vs.len() == 1 {
        spec_enc_rect(vs[0]) + "]"@
    } else {
        spec_enc_rect(vs[0]) + ","@ + spec_enc_rect_items(vs.skip(1))
    }
}

/// The elements of a non-empty array at the front of `s`, up to and past
/// the closing bracket.
pub open spec fn spec_parse_rect_items(s: Seq<char>) -> Option<(Seq<BoundingRectangle>, Seq<char>)>
    decreases s.len(),
{
    match spec_parse_rect(s) {
        Some((v0, s1)) => if s1.len() < s.len() {
            if s1.len() > 0 && s1[0] == ',' {
                match spec_parse_rect_items(s1.skip(1)) {
                    Some((tail, s2)) => Some((seq![v0] + tail, s2)),
                    None => None,
                }
            } else if s1.len() > 0 && s1[0] == ']' {
                Some((seq![v0], s1.skip(1)))
            } else {
                None
            }
        } else {
            None
        },
        None => None,
    }
}

/// `Some((list, rest))` when `s` starts with an array of rectangles.
pub open spec fn spec_parse_rects(s: Seq<char>) -> Option<(Seq<BoundingRectangle>, Seq<char>)> {
    match spec_parse_lit(s, "["@) {
        Some(s1) => if s1.len() > 0 && s1[0] == ']' {
            Some((Seq::empty(), s1.skip(1)))
        } else {
            spec_parse_rect_items(s1)
        },
        None => None,
    }
}

/// Encoded non-empty rectangles elements parse back to themselves.
#[verifier::rlimit(100)]
proof fn lemma_parse_rect_items_rt(vs: Seq<BoundingRectangle>, rest: Seq<char>)
    requires
        vs.len() >= 1,
        forall|k: int| 0 <= k < vs.len() ==> (#[trigger] vs[k]).wf(),
    ensures
        spec_parse_rect_items(spec_enc_rect_items(vs) + rest) == Some((vs, rest)),
    decreases vs.len(),
{
    reveal_strlit(",");
    reveal_strlit("]");
    reveal_strlit("{\"min\":");
    let e0 = spec_enc_rect(vs[0]);
    assert(e0.len() > 0) by {
        reveal(crate::codec::spec_enc_rect);
        assert(e0.len() >= "{\"min\":"@.len());
    }
    if vs.len() == 1 {
        let s = spec_enc_rect_items(vs) + rest;
        assert(s =~= e0 + ("]"@ + rest));
        lemma_parse_rect_rt(vs[0], "]"@ + rest);
        assert(("]"@ + rest).skip(1) =~= rest);
        assert(seq![vs[0]] =~= vs);
    } else {
        let s = spec_enc_rect_items(vs) + rest;
        let te = spec_enc_rect_items(vs.skip(1));
        assert(s =~= e0 + (","@ + (te + rest)));
        lemma_parse_rect_rt(vs[0], ","@ + (te + rest));
        assert(forall|q: int| 0 <= q < vs.skip(1).len() ==> (#[trigger] vs.skip(1)[q]).wf());

        lemma_parse_rect_items_rt(vs.skip(1), rest);
        assert((","@ + (te + rest)).skip(1) =~= te + rest);
        assert(seq![vs[0]] + vs.skip(1) =~= vs);
    }
}

/// An encoded list of rectangles parses back to itself.
pub proof fn lemma_parse_rects_rt(vs: Seq<BoundingRectangle>, rest: Seq<char>)
    requires
        forall|k: int| 0 <= k < vs.len() ==> (#[trigger] vs[k]).wf(),
    ensures
        spec_parse_rects(spec_enc_rects(vs) + rest) == Some((vs, rest)),
{
    reveal_strlit("[");
    reveal_strlit("[]");
    reveal_strlit("]");
    reveal_strlit("{\"min\":");
    if vs.len() == 0 {
        let s = spec_enc_rects(vs) + rest;
        assert(s =~= "[]"@ + rest);
        assert(s.len() >= 1 && s.take(1) =~= "["@);
        assert(s.skip(1) =~= "]"@ + rest);
        assert(("]"@ + rest).skip(1) =~= rest);
    } else {
        let s = spec_enc_rects(vs) + rest;
        let items = spec_enc_rect_items(vs) + rest;
        assert(s =~= "["@ + items);
        lemma_parse_lit_rt("["@, items);
        let e0 = spec_enc_rect(vs[0]);
        assert(e0.len() > 0 && e0[0] == '{') by {
            reveal(crate::codec::spec_enc_rect);
            assert(e0.len() >= "{\"min\":"@.len());
            assert(e0[0] == "{\"min\":"@[0]);
            reveal_strlit("{\"min\":");
        }
        assert(items[0] != ']') by {
            assert(items[0] == e0[0]);
        }
        lemma_parse_rect_items_rt(vs, rest);
    }
}

/// Reads an array of rectangles at `i`.
#[verifier::rlimit(100)]
pub fn parse_rects(s: &[char], i: usize) -> (r: Option<(Vec<BoundingRectangle>, usize)>)
    requires
        i <= s@.len(),
    ensures
        match r {
            Some((vs, j)) => i <= j <= s@.len() && spec_parse_rects(s@.skip(i as int)) == Some(
                (vs@, s@.skip(j as int)),
            ) && (forall|k: int| 0 <= k < vs@.len() ==> (#[trigger] vs@[k]).wf()),
            None => spec_parse_rects(s@.skip(i as int)) is None,
        },
{
    let i1 = match parse_lit(s, i, "[") {
        Some(j) => j,
        None => {
            return None;
        },
    };
    let n = s.len();
    if i1 < n && s[i1] == ']' {
        proof {
            assert(s@.skip(i1 as int)[0] == ']');
            assert(s@.skip(i1 as int).skip(1) =~= s@.skip(i1 + 1));
            assert(Seq::<BoundingRectangle>::empty() =~= Seq::<BoundingRectangle>::empty());
        }
        return Some((Vec::new(), i1 + 1));
    }
    let mut out: Vec<BoundingRectangle> = Vec::new();
    let mut k = i1;
    loop
        invariant
            i <= i1 <= k <= n,
            n == s@.len(),
            match spec_parse_rect_items(s@.skip(k as int)) {
                Some((tail, r)) => spec_parse_rect_items(s@.skip(i1 as int)) == Some(
                    (out@ + tail, r),
                ),
                None => spec_parse_rect_items(s@.skip(i1 as int)) is None,
            },
            spec_parse_rects(s@.skip(i as int)) == spec_parse_rect_items(s@.skip(i1 as int)),
            forall|q: int| 0 <= q < out@.len() ==> (#[trigger] out@[q]).wf(),
        decreases n - k,
    {
        match parse_rect(s, k) {
            None => {
                return None;
            },
            Some((v, j)) => {
                if j <= k {
                    proof {
                        assert(s@.skip(j as int).len() >= s@.skip(k as int).len());
                    }
                    return None;
                }
                if j < n && s[j] == ',' {
                    proof {
                        assert(s@.skip(j as int).len() < s@.skip(k as int).len());
                        assert(s@.skip(j as int)[0] == ',');
                        assert(s@.skip(j as int).skip(1) =~= s@.skip(j + 1));
                        match spec_parse_rect_items(s@.skip(j + 1)) {
                            Some((tail, r)) => {
                                assert(out@ + (seq![v] + tail) =~= (out@ + seq![v])
                                    + tail);
                                assert(out@.push(v) =~= out@ + seq![v]);
                            },
                            None => {},
                        }
                    }
                    out.push(v);
                    k = j + 1;
                } else if j < n && s[j] == ']' {
                    proof {
                        assert(s@.skip(j as int).len() < s@.skip(k as int).len());
                        assert(s@.skip(j as int)[0] == ']');
                        assert(s@.skip(j as int)[0] != ',');
                        assert(s@.skip(j as int).skip(1) =~= s@.skip(j + 1));
                        assert(out@.push(v) =~= out@ + seq![v]);
                    }
                    out.push(v);
                    return Some((out, j + 1));
                } else {
                    return None;
                }
            },
        }
    }
}

/// Appends the spelling of a list of rectangles.
pub fn enc_rects(out: &mut Vec<char>, vs: &Vec<BoundingRectangle>)
    requires
    ensures
        final(out)@ == old(out)@ + spec_enc_rects(vs@),
{
    let n = vs.len();
    if n == 0 {
        push_lit(out, "[]");
        return;
    }
    out.push('[');
    proof {
        reveal_strlit("[");
        assert(out@ =~= old(out)@ + "["@);
    }
    proof {
        assert(vs@.skip(0) =~= vs@);
    }
    let mut k: usize = 0;
    while k < n
        invariant
            0 <= k <= n,
            n == vs@.len(),
            n >= 1,
            out@ + spec_enc_rect_items(vs@.skip(k as int)) == old(out)@ + "["@
                + spec_enc_rect_items(vs@),
        decreases n - k,
    {
        let ghost pre = out@;
        enc_rect(out, &vs[k]);
        let ghost mid = out@;
        if k == n - 1 {
            out.push(']');
            proof {
                reveal_strlit("]");
                assert(vs@.skip(k as int).len() == 1);
                assert(vs@.skip(k as int)[0] == vs@[k as int]);
                assert(mid == pre + spec_enc_rect(vs@[k as int]));
                assert(out@ =~= mid + seq![']']);
                assert("]"@ =~= seq![']']);
                assert(out@ =~= pre + (spec_enc_rect(vs@[k as int]) + "]"@));
                assert(spec_enc_rect_items(vs@.skip(k as int)) == spec_enc_rect(vs@[k as int])
                    + "]"@);
                assert(vs@.skip(k + 1) =~= Seq::<BoundingRectangle>::empty());
                assert(out@ + spec_enc_rect_items(vs@.skip(k + 1)) =~= out@);
            }
        } else {
            out.push(',');
            proof {
                reveal_strlit(",");
                assert(vs@.skip(k as int)[0] == vs@[k as int]);
                assert(vs@.skip(k as int).skip(1) =~= vs@.skip(k + 1));
                assert(mid == pre + spec_enc_rect(vs@[k as int]));
                assert(out@ =~= mid + seq![',']);
                assert(","@ =~= seq![',']);
                assert(out@ =~= pre + (spec_enc_rect(vs@[k as int]) + ","@));
                assert(spec_enc_rect_items(vs@.skip(k as int)) == spec_enc_rect(vs@[k as int])
                    + ","@ + spec_enc_rect_items(vs@.skip(k + 1)));
                assert(pre + (spec_enc_rect(vs@[k as int]) + ","@) + spec_enc_rect_items(
                    vs@.skip(k + 1),
                ) =~= pre + (spec_enc_rect(vs@[k as int]) + ","@ + spec_enc_rect_items(
                    vs@.skip(k + 1),
                )));
            }
        }
        k = k + 1;
    }
    proof {
        assert(vs@.skip(n as int) =~= Seq::<BoundingRectangle>::empty());
        assert(spec_enc_rect_items(vs@.skip(n as int)) == Seq::<char>::empty());
        assert(out@ + Seq::<char>::empty() =~= out@);
        assert(spec_enc_rects(vs@) =~= "["@ + spec_enc_rect_items(vs@));
    }
}

/// A list of screens spells as an array.
pub open spec fn spec_enc_screens(vs: Seq<ScreenV>) -> Seq<char> {
    if vs.len() == 0 {
        "[]"@
    } else {
        "["@ + spec_enc_screen_items(vs)
    }
}

/// The elements of a non-empty array, comma-separated, with the closing
/// bracket.
pub open spec fn spec_enc_screen_items(vs: Seq<ScreenV>) -> Seq<char>
    decreases vs.len(),
{
    if vs.len() == 0 {
        Seq::empty()
    } else if vs.len() == 1 {
        spec_enc_screen(vs[0]) + "]"@
    } else {
        spec_enc_screen(vs[0]) + ","@ + spec_enc_screen_items(vs.skip(1))
    }
}

/// The elements of a non-empty array at the front of `s`, up to and past
/// the closing bracket.
pub open spec fn spec_parse_screen_items(s: Seq<char>) -> Option<(Seq<ScreenV>, Seq<char>)>
    decreases s.len(),
{
    match spec_parse_screen(s) {
        Some((v0, s1)) => if s1.len() < s.len() {
            if s1.len() > 0 && s1[0] == ',' {
                match spec_parse_screen_items(s1.skip(1)) {
                    Some((tail, s2)) => Some((seq![v0] + tail, s2)),
                    None => None,
                }
            } else if s1.len() > 0 && s1[0] == ']' {
                Some((seq![v0], s1.skip(1)))
            } else {
                None
            }
        } else {
            None
        },
        None => None,
    }
}

/// `Some((list, rest))` when `s` starts with an array of screens.
pub open spec fn spec_parse_screens(s: Seq<char>) -> Option<(Seq<ScreenV>, Seq<char>)> {
    match spec_parse_lit(s, "["@) {
        Some(s1) => if s1.len() > 0 && s1[0] == ']' {
            Some((Seq::empty(), s1.skip(1)))
        } else {
            spec_parse_screen_items(s1)
        },
        None => None,
    }
}

/// Encoded non-empty screens elements parse back to themselves.
#[verifier::rlimit(100)]
proof fn lemma_parse_screen_items_rt(vs: Seq<ScreenV>, rest: Seq<char>)
    requires
        vs.len() >= 1,
        forall|k: int| 0 <= k < vs.len() ==> (#[trigger] vs[k]).wf(),
    ensures
        spec_parse_screen_items(spec_enc_screen_items(vs) + rest) == Some((vs, rest)),
    decreases vs.len(),
{
    reveal_strlit(",");
    reveal_strlit("]");
    reveal_strlit("{\"name\":");
    let e0 = spec_enc_screen(vs[0]);
    assert(e0.len() > 0) by {
        reveal(crate::codec::spec_enc_screen);
        assert(e0.len() >= "{\"name\":"@.len());
    }
    if vs.len() == 1 {
        let s = spec_enc_screen_items(vs) + rest;
        assert(s =~= e0 + ("]"@ + rest));
        lemma_parse_screen_rt(vs[0], "]"@ + rest);
        assert(("]"@ + rest).skip(1) =~= rest);
        assert(seq![vs[0]] =~= vs);
    } else {
        let s = spec_enc_screen_items(vs) + rest;
        let te = spec_enc_screen_items(vs.skip(1));
        assert(s =~= e0 + (","@ + (te + rest)));
        lemma_parse_screen_rt(vs[0], ","@ + (te + rest));
        assert(forall|q: int| 0 <= q < vs.skip(1).len() ==> (#[trigger] vs.skip(1)[q]).wf());

        lemma_parse_screen_items_rt(vs.skip(1), rest);
        assert((","@ + (te + rest)).skip(1) =~= te + rest);
        assert(seq![vs[0]] + vs.skip(1) =~= vs);
    }
}

/// An encoded list of screens parses back to itself.
pub proof fn lemma_parse_screens_rt(vs: Seq<ScreenV>, rest: Seq<char>)
    requires
        forall|k: int| 0 <= k < vs.len() ==> (#[trigger] vs[k]).wf(),
    ensures
        spec_parse_screens(spec_enc_screens(vs) + rest) == Some((vs, rest)),
{
    reveal_strlit("[");
    reveal_strlit("[]");
    reveal_strlit("]");
    reveal_strlit("{\"name\":");
    if vs.len() == 0 {
        let s = spec_enc_screens(vs) + rest;
        assert(s =~= "[]"@ + rest);
        assert(s.len() >= 1 && s.take(1) =~= "["@);
        assert(s.skip(1) =~= "]"@ + rest);
        assert(("]"@ + rest).skip(1) =~= rest);
    } else {
        let s = spec_enc_screens(vs) + rest;
        let items = spec_enc_screen_items(vs) + rest;
        assert(s =~= "["@ + items);
        lemma_parse_lit_rt("["@, items);
        let e0 = spec_enc_screen(vs[0]);
        assert(e0.len() > 0 && e0[0] == '{') by {
            reveal(crate::codec::spec_enc_screen);
            assert(e0.len() >= "{\"name\":"@.len());
            assert(e0[0] == "{\"name\":"@[0]);
            reveal_strlit("{\"name\":");
        }
        assert(items[0] != ']') by {
            assert(items[0] == e0[0]);
        }
        lemma_parse_screen_items_rt(vs, rest);
    }
}

/// Reads an array of screens at `i`.
#[verifier::rlimit(100)]
pub fn parse_screens(s: &[char], i: usize) -> (r: Option<(Vec<Screen>, usize)>)
    requires
        i <= s@.len(),
    ensures
        match r {
            Some((vs, j)) => i <= j <= s@.len() && spec_parse_screens(s@.skip(i as int)) == Some(
                (Seq::new(vs@.len(), |q: int| vs@[q]@), s@.skip(j as int)),
            ) && (forall|k: int| 0 <= k < vs@.len() ==> (#[trigger] vs@[k])@.wf()),
            None => spec_parse_screens(s@.skip(i as int)) is None,
        },
{
    let i1 = match parse_lit(s, i, "[") {
        Some(j) => j,
        None => {
            return None;
        },
    };
    let n = s.len();
    if i1 < n && s[i1] == ']' {
        let empty_vec: Vec<Screen> = Vec::new();
        proof {
            assert(s@.skip(i1 as int)[0] == ']');
            assert(s@.skip(i1 as int).skip(1) =~= s@.skip(i1 + 1));
            assert(Seq::new(empty_vec@.len(), |q: int| empty_vec@[q]@) =~= Seq::<
                ScreenV,
            >::empty());
        }
        return Some((empty_vec, i1 + 1));
    }
    let mut out: Vec<Screen> = Vec::new();
    let mut k = i1;
    loop
        invariant
            i <= i1 <= k <= n,
            n == s@.len(),
            match spec_parse_screen_items(s@.skip(k as int)) {
                Some((tail, r)) => spec_parse_screen_items(s@.skip(i1 as int)) == Some(
                    (Seq::new(out@.len(), |q: int| out@[q]@) + tail, r),
                ),
                None => spec_parse_screen_items(s@.skip(i1 as int)) is None,
            },
            spec_parse_screens(s@.skip(i as int)) == spec_parse_screen_items(s@.skip(i1 as int)),
            forall|q: int| 0 <= q < out@.len() ==> (#[trigger] out@[q])@.wf(),
        decreases n - k,
    {
        match parse_screen(s, k) {
            None => {
                return None;
            },
            Some((v, j)) => {
                if j <= k {
                    proof {
                        assert(s@.skip(j as int).len() >= s@.skip(k as int).len());
                    }
                    return None;
                }
                if j < n && s[j] == ',' {
                    proof {
                        assert(s@.skip(j as int).len() < s@.skip(k as int).len());
                        assert(s@.skip(j as int)[0] == ',');
                        assert(s@.skip(j as int).skip(1) =~= s@.skip(j + 1));
                        match spec_parse_screen_items(s@.skip(j + 1)) {
                            Some((tail, r)) => {
                                assert(Seq::new(out@.len(), |q: int| out@[q]@) + (seq![v@] + tail) =~= (Seq::new(out@.len(), |q: int| out@[q]@) + seq![v@])
                                    + tail);
                                assert(Seq::new(out@.push(v).len(), |q: int| out@.push(v)[q]@) =~= Seq::new(out@.len(), |q: int| out@[q]@) + seq![v@]);
                            },
                            None => {},
                        }
                    }
                    out.push(v);
                    k = j + 1;
                } else if j < n && s[j] == ']' {
                    proof {
                        assert(s@.skip(j as int).len() < s@.skip(k as int).len());
                        assert(s@.skip(j as int)[0] == ']');
                        assert(s@.skip(j as int)[0] != ',');
                        assert(s@.skip(j as int).skip(1) =~= s@.skip(j + 1));
                        assert(Seq::new(out@.push(v).len(), |q: int| out@.push(v)[q]@) =~= Seq::new(out@.len(), |q: int| out@[q]@) + seq![v@]);
                    }
                    out.push(v);
                    return Some((out, j + 1));
                } else {
                    return None;
                }
            },
        }
    }
}

/// Appends the spelling of a list of screens.
pub fn enc_screens(out: &mut Vec<char>, vs: &Vec<Screen>)
    ensures
        final(out)@ == old(out)@ + spec_enc_screens(Seq::new(vs@.len(), |q: int| vs@[q]@)),
{
    let ghost vv = Seq::new(vs@.len(), |q: int| vs@[q]@);
    let n = vs.len();
    if n == 0 {
        push_lit(out, "[]");
        return;
    }
    out.push('[');
    proof {
        reveal_strlit("[");
        assert(out@ =~= old(out)@ + "["@);
        assert(vv.skip(0) =~= vv);
    }
    let mut k: usize = 0;
    while k < n
        invariant
            0 <= k <= n,
            n == vs@.len(),
            n >= 1,
            vv == Seq::new(vs@.len(), |q: int| vs@[q]@),
            out@ + spec_enc_screen_items(vv.skip(k as int)) == old(out)@ + "["@
                + spec_enc_screen_items(vv),
        decreases n - k,
    {
        let ghost pre = out@;
        enc_screen(out, &vs[k]);
        let ghost mid = out@;
        if k == n - 1 {
            out.push(']');
            proof {
                reveal_strlit("]");
                assert(vv.skip(k as int).len() == 1);
                assert(vv.skip(k as int)[0] == vs@[k as int]@);
                assert(mid == pre + spec_enc_screen(vs@[k as int]@));
                assert(out@ =~= mid + seq![']']);
                assert("]"@ =~= seq![']']);
                assert(out@ =~= pre + (spec_enc_screen(vs@[k as int]@) + "]"@));
                assert(spec_enc_screen_items(vv.skip(k as int)) == spec_enc_screen(vs@[k as int]@)
                    + "]"@);
                assert(vv.skip(k + 1) =~= Seq::<ScreenV>::empty());
                assert(out@ + spec_enc_screen_items(vv.skip(k + 1)) =~= out@);
            }
        } else {
            out.push(',');
            proof {
                reveal_strlit(",");
                assert(vv.skip(k as int)[0] == vs@[k as int]@);
                assert(vv.skip(k as int).skip(1) =~= vv.skip(k + 1));
                assert(mid == pre + spec_enc_screen(vs@[k as int]@));
                assert(out@ =~= mid + seq![',']);
                assert(","@ =~= seq![',']);
                assert(out@ =~= pre + (spec_enc_screen(vs@[k as int]@) + ","@));
                assert(spec_enc_screen_items(vv.skip(k as int)) == spec_enc_screen(vs@[k as int]@)
                    + ","@ + spec_enc_screen_items(vv.skip(k + 1)));
                assert(pre + (spec_enc_screen(vs@[k as int]@) + ","@) + spec_enc_screen_items(
                    vv.skip(k + 1),
                ) =~= pre + (spec_enc_screen(vs@[k as int]@) + ","@ + spec_enc_screen_items(
                    vv.skip(k + 1),
                )));
            }
        }
        k = k + 1;
    }
    proof {
        assert(vv.skip(n as int) =~= Seq::<ScreenV>::empty());
        assert(spec_enc_screen_items(vv.skip(n as int)) == Seq::<char>::empty());
        assert(out@ + Seq::<char>::empty() =~= out@);
        assert(spec_enc_screens(vv) =~= "["@ + spec_enc_screen_items(vv));
    }
}

// --- bytes and images ---------------------------------------------------

/// `Some((byte, rest))` when `s` starts with a number up to 255.
#[verifier::opaque]
pub open spec fn spec_parse_byte(s: Seq<char>) -> Option<(u8, Seq<char>)> {
    match spec_parse_nat(s) {
        Some((n, rest)) => if n <= 255 {
            Some((n as u8, rest))
        } else {
            None
        },
        None => None,
    }
}

/// A byte spells as its decimal digits.
#[verifier::opaque]
pub open spec fn spec_enc_byte(b: u8) -> Seq<char> {
    spec_enc_nat(b as int)
}

/// An encoded byte followed by anything that does not extend it parses
/// back to itself.
proof fn lemma_parse_byte_rt(b: u8, rest: Seq<char>)
    requires
        rest.len() == 0 || !is_digit(rest[0]),
    ensures
        spec_parse_byte(spec_enc_byte(b) + rest) == Some((b, rest)),
{
    reveal(crate::codec::spec_parse_byte);
    reveal(crate::codec::spec_enc_byte);
    lemma_parse_nat_rt(b as u64, rest);
}

/// Reads a byte at `i`.
fn parse_byte(s: &[char], i: usize) -> (r: Option<(u8, usize)>)
    requires
        i <= s@.len(),
    ensures
        match r {
            Some((b, j)) => i <= j <= s@.len() && spec_parse_byte(s@.skip(i as int)) == Some(
                (b, s@.skip(j as int)),
            ),
            None => spec_parse_byte(s@.skip(i as int)) is None,
        },
{
    proof {
        reveal(crate::codec::spec_parse_byte);
    }
    match parse_nat(s, i) {
        Some((n, j)) => {
            if n <= 255 {
                Some((n as u8, j))
            } else {
                None
            }
        },
        None => None,
    }
}

/// Appends the spelling of a byte.
fn enc_byte(out: &mut Vec<char>, b: u8)
    ensures
        final(out)@ == old(out)@ + spec_enc_byte(b),
{
    proof {
        reveal(crate::codec::spec_enc_byte);
    }
    enc_nat(out, b as u64);
}

/// A list of bytes spells as an array.
pub open spec fn spec_enc_bytes(vs: Seq<u8>) -> Seq<char> {
    if vs.len() == 0 {
        "[]"@
    } else {
        "["@ + spec_enc_byte_items(vs)
    }
}

/// The elements of a non-empty byte array, with the closing bracket.
pub open spec fn spec_enc_byte_items(vs: Seq<u8>) -> Seq<char>
    decreases vs.len(),
{
    if vs.len() == 0 {
        Seq::empty()
    } else if vs.len() == 1 {
        spec_enc_byte(vs[0]) + "]"@
    } else {
        spec_enc_byte(vs[0]) + ","@ + spec_enc_byte_items(vs.skip(1))
    }
}

/// The elements of a non-empty byte array at the front of `s`.
pub open spec fn spec_parse_byte_items(s: Seq<char>) -> Option<(Seq<u8>, Seq<char>)>
    decreases s.len(),
{
    match spec_parse_byte(s) {
        Some((v0, s1)) => if s1.len() < s.len() {
            if s1.len() > 0 && s1[0] == ',' {
                match spec_parse_byte_items(s1.skip(1)) {
                    Some((tail, s2)) => Some((seq![v0] + tail, s2)),
                    None => None,
                }
            } else if s1.len() > 0 && s1[0] == ']' {
                Some((seq![v0], s1.skip(1)))
            } else {
                None
            }
        } else {
            None
        },
        None => None,
    }
}

/// `Some((bytes, rest))` when `s` starts with an array of bytes.
pub open spec fn spec_parse_bytes(s: Seq<char>) -> Option<(Seq<u8>, Seq<char>)> {
    match spec_parse_lit(s, "["@) {
        Some(s1) => if s1.len() > 0 && s1[0] == ']' {
            Some((Seq::empty(), s1.skip(1)))
        } else {
            spec_parse_byte_items(s1)
        },
        None => None,
    }
}

/// Encoded non-empty byte elements parse back to themselves.
#[verifier::rlimit(100)]
proof fn lemma_parse_byte_items_rt(vs: Seq<u8>, rest: Seq<char>)
    requires
        vs.len() >= 1,
    ensures
        spec_parse_byte_items(spec_enc_byte_items(vs) + rest) == Some((vs, rest)),
    decreases vs.len(),
{
    reveal_strlit(",");
    reveal_strlit("]");
    let e0 = spec_enc_byte(vs[0]);
    assert(e0.len() > 0) by {
        reveal(crate::codec::spec_enc_byte);
        crate::json::lemma_pow10_values();
        crate::json::lemma_enc_nat(vs[0] as int, 19);
    }
    if vs.len() == 1 {
        let s = spec_enc_byte_items(vs) + rest;
        assert(s =~= e0 + ("]"@ + rest));
        lemma_parse_byte_rt(vs[0], "]"@ + rest);
        assert(("]"@ + rest).skip(1) =~= rest);
        assert(seq![vs[0]] =~= vs);
    } else {
        let s = spec_enc_byte_items(vs) + rest;
        let te = spec_enc_byte_items(vs.skip(1));
        assert(s =~= e0 + (","@ + (te + rest)));
        lemma_parse_byte_rt(vs[0], ","@ + (te + rest));
        lemma_parse_byte_items_rt(vs.skip(1), rest);
        assert((","@ + (te + rest)).skip(1) =~= te + rest);
        assert(seq![vs[0]] + vs.skip(1) =~= vs);
    }
}

/// An encoded list of bytes parses back to itself.
pub proof fn lemma_parse_bytes_rt(vs: Seq<u8>, rest: Seq<char>)
    ensures
        spec_parse_bytes(spec_enc_bytes(vs) + rest) == Some((vs, rest)),
{
    reveal_strlit("[");
    reveal_strlit("[]");
    reveal_strlit("]");
    if vs.len() == 0 {
        let s = spec_enc_bytes(vs) + rest;
        assert(s =~= "[]"@ + rest);
        assert(s.len() >= 1 && s.take(1) =~= "["@);
        assert(s.skip(1) =~= "]"@ + rest);
        assert(("]"@ + rest).skip(1) =~= rest);
    } else {
        let s = spec_enc_bytes(vs) + rest;
        let items = spec_enc_byte_items(vs) + rest;
        assert(s =~= "["@ + items);
        lemma_parse_lit_rt("["@, items);
        let e0 = spec_enc_byte(vs[0]);
        assert(e0.len() > 0 && is_digit(e0[0])) by {
            reveal(crate::codec::spec_enc_byte);
            crate::json::lemma_pow10_values();
            crate::json::lemma_enc_nat(vs[0] as int, 19);
        }
        assert(items[0] != ']') by {
            assert(items[0] == e0[0]);
            assert((']' as u32) == 93);
        }
        lemma_parse_byte_items_rt(vs, rest);
    }
}

/// Reads an array of bytes at `i`.
#[verifier::rlimit(100)]
pub fn parse_bytes(s: &[char], i: usize) -> (r: Option<(Vec<u8>, usize)>)
    requires
        i <= s@.len(),
    ensures
        match r {
            Some((vs, j)) => i <= j <= s@.len() && spec_parse_bytes(s@.skip(i as int)) == Some(
                (vs@, s@.skip(j as int)),
            ),
            None => spec_parse_bytes(s@.skip(i as int)) is None,
        },
{
    let i1 = match parse_lit(s, i, "[") {
        Some(j) => j,
        None => {
            return None;
        },
    };
    let n = s.len();
    if i1 < n && s[i1] == ']' {
        proof {
            assert(s@.skip(i1 as int)[0] == ']');
            assert(s@.skip(i1 as int).skip(1) =~= s@.skip(i1 + 1));
        }
        return Some((Vec::new(), i1 + 1));
    }
    let mut out: Vec<u8> = Vec::new();
    let mut k = i1;
    loop
        invariant
            i <= i1 <= k <= n,
            n == s@.len(),
            match spec_parse_byte_items(s@.skip(k as int)) {
                Some((tail, r)) => spec_parse_byte_items(s@.skip(i1 as int)) == Some(
                    (out@ + tail, r),
                ),
                None => spec_parse_byte_items(s@.skip(i1 as int)) is None,
            },
            spec_parse_bytes(s@.skip(i as int)) == spec_parse_byte_items(s@.skip(i1 as int)),
        decreases n - k,
    {
        match parse_byte(s, k) {
            None => {
                return None;
            },
            Some((v, j)) => {
                if j <= k {
                    proof {
                        assert(s@.skip(j as int).len() >= s@.skip(k as int).len());
                    }
                    return None;
                }
                if j < n && s[j] == ',' {
                    proof {
                        assert(s@.skip(j as int).len() < s@.skip(k as int).len());
                        assert(s@.skip(j as int)[0] == ',');
                        assert(s@.skip(j as int).skip(1) =~= s@.skip(j + 1));
                        match spec_parse_byte_items(s@.skip(j + 1)) {
                            Some((tail, r)) => {
                                assert(out@ + (seq![v] + tail) =~= (out@ + seq![v]) + tail);
                                assert(out@.push(v) =~= out@ + seq![v]);
                            },
                            None => {},
                        }
                    }
                    out.push(v);
                    k = j + 1;
                } else if j < n && s[j] == ']' {
                    proof {
                        assert(s@.skip(j as int).len() < s@.skip(k as int).len());
                        assert(s@.skip(j as int)[0] == ']');
                        assert(s@.skip(j as int)[0] != ',');
                        assert(s@.skip(j as int).skip(1) =~= s@.skip(j + 1));
                        assert(out@.push(v) =~= out@ + seq![v]);
                    }
                    out.push(v);
                    return Some((out, j + 1));
                } else {
                    return None;
                }
            },
        }
    }
}

/// Appends the spelling of a list of bytes.
pub fn enc_bytes(out: &mut Vec<char>, vs: &Vec<u8>)
    ensures
        final(out)@ == old(out)@ + spec_enc_bytes(vs@),
{
    let n = vs.len();
    if n == 0 {
        push_lit(out, "[]");
        return;
    }
    out.push('[');
    proof {
        reveal_strlit("[");
        assert(out@ =~= old(out)@ + "["@);
        assert(vs@.skip(0) =~= vs@);
    }
    let mut k: usize = 0;
    while k < n
        invariant
            0 <= k <= n,
            n == vs@.len(),
            n >= 1,
            out@ + spec_enc_byte_items(vs@.skip(k as int)) == old(out)@ + "["@
                + spec_enc_byte_items(vs@),
        decreases n - k,
    {
        let ghost pre = out@;
        enc_byte(out, vs[k]);
        let ghost mid = out@;
        if k == n - 1 {
            out.push(']');
            proof {
                reveal_strlit("]");
                assert(vs@.skip(k as int).len() == 1);
                assert(vs@.skip(k as int)[0] == vs@[k as int]);
                assert(mid == pre + spec_enc_byte(vs@[k as int]));
                assert(out@ =~= mid + seq![']']);
                assert("]"@ =~= seq![']']);
                assert(out@ =~= pre + (spec_enc_byte(vs@[k as int]) + "]"@));
                assert(spec_enc_byte_items(vs@.skip(k as int)) == spec_enc_byte(vs@[k as int])
                    + "]"@);
                assert(vs@.skip(k + 1) =~= Seq::<u8>::empty());
                assert(out@ + spec_enc_byte_items(vs@.skip(k + 1)) =~= out@);
            }
        } else {
            out.push(',');
            proof {
                reveal_strlit(",");
                assert(vs@.skip(k as int)[0] == vs@[k as int]);
                assert(vs@.skip(k as int).skip(1) =~= vs@.skip(k + 1));
                assert(mid == pre + spec_enc_byte(vs@[k as int]));
                assert(out@ =~= mid + seq![',']);
                assert(","@ =~= seq![',']);
                assert(out@ =~= pre + (spec_enc_byte(vs@[k as int]) + ","@));
                assert(spec_enc_byte_items(vs@.skip(k as int)) == spec_enc_byte(vs@[k as int])
                    + ","@ + spec_enc_byte_items(vs@.skip(k + 1)));
                assert(pre + (spec_enc_byte(vs@[k as int]) + ","@) + spec_enc_byte_items(
                    vs@.skip(k + 1),
                ) =~= pre + (spec_enc_byte(vs@[k as int]) + ","@ + spec_enc_byte_items(
                    vs@.skip(k + 1),
                )));
            }
        }
        k = k + 1;
    }
    proof {
        assert(vs@.skip(n as int) =~= Seq::<u8>::empty());
        assert(spec_enc_byte_items(vs@.skip(n as int)) == Seq::<char>::empty());
        assert(out@ + Seq::<char>::empty() =~= out@);
        assert(spec_enc_bytes(vs@) =~= "["@ + spec_enc_byte_items(vs@));
    }
}

// --- image buffers ------------------------------------------------------

/// An image spells as an object: size, then the raw bytes as an array.
#[verifier::opaque]
pub open spec fn spec_enc_image(v: ImageBufferV) -> Seq<char> {
    "{\"width\":"@ + spec_enc_nat(v.width as int) + ",\"height\":"@ + spec_enc_nat(v.height as int)
        + ",\"buffer\":"@ + spec_enc_bytes(v.buffer) + "}"@
}

/// `Some((image, rest))` when `s` starts with an image object holding
/// exactly three bytes per pixel.
#[verifier::opaque]
pub open spec fn spec_parse_image(s: Seq<char>) -> Option<(ImageBufferV, Seq<char>)> {
    match spec_parse_lit(s, "{\"width\":"@) {
        Some(s1) => match spec_parse_nat(s1) {
            Some((w, s2)) => match spec_parse_lit(s2, ",\"height\":"@) {
                Some(s3) => match spec_parse_nat(s3) {
                    Some((h, s4)) => match spec_parse_lit(s4, ",\"buffer\":"@) {
                        Some(s5) => match spec_parse_bytes(s5) {
                            Some((buf, s6)) => match spec_parse_lit(s6, "}"@) {
                                Some(s7) => {
                                    if w <= 0xffff_ffff && h <= 0xffff_ffff && buf.len() == w * h
                                        * 3 {
                                        let v = ImageBufferV {
                                            width: w as u32,
                                            height: h as u32,
                                            buffer: buf,
                                        };
                                        Some((v, s7))
                                    } else {
                                        None
                                    }
                                },
                                None => None,
                            },
                            None => None,
                        },
                        None => None,
                    },
                    None => None,
                },
                None => None,
            },
            None => None,
        },
        None => None,
    }
}

/// An encoded well-formed image parses back to itself.
#[verifier::rlimit(100)]
pub proof fn lemma_parse_image_rt(v: ImageBufferV, rest: Seq<char>)
    requires
        v.wf(),
    ensures
        spec_parse_image(spec_enc_image(v) + rest) == Some((v, rest)),
{
    reveal(crate::codec::spec_enc_image);
    reveal(crate::codec::spec_parse_image);
    reveal_strlit(",\"height\":");
    reveal_strlit(",\"buffer\":");
    reveal_strlit("}");
    let t7 = "}"@ + rest;
    let t6 = spec_enc_bytes(v.buffer) + t7;
    let t5 = ",\"buffer\":"@ + t6;
    let t4 = spec_enc_nat(v.height as int) + t5;
    let t3 = ",\"height\":"@ + t4;
    let t2 = spec_enc_nat(v.width as int) + t3;
    assert(spec_enc_image(v) + rest =~= "{\"width\":"@ + t2);
    lemma_parse_lit_rt("{\"width\":"@, t2);
    lemma_parse_nat_rt(v.width as u64, t3);
    lemma_parse_lit_rt(",\"height\":"@, t4);
    lemma_parse_nat_rt(v.height as u64, t5);
    lemma_parse_lit_rt(",\"buffer\":"@, t6);
    lemma_parse_bytes_rt(v.buffer, t7);
    lemma_parse_lit_rt("}"@, rest);
}

/// Reads an image at `i`.
pub fn parse_image(s: &[char], i: usize) -> (r: Option<(ImageBuffer, usize)>)
    requires
        i <= s@.len(),
    ensures
        match r {
            Some((v, j)) => i <= j <= s@.len() && spec_parse_image(s@.skip(i as int)) == Some(
                (v@, s@.skip(j as int)),
            ) && v@.wf(),
            None => spec_parse_image(s@.skip(i as int)) is None,
        },
{
    proof {
        reveal(crate::codec::spec_parse_image);
    }
    let i1 = match parse_lit(s, i, "{\"width\":") {
        Some(j) => j,
        None => {
            return None;
        },
    };
    let (w, i2) = match parse_nat(s, i1) {
        Some(v) => v,
        None => {
            return None;
        },
    };
    let i3 = match parse_lit(s, i2, ",\"height\":") {
        Some(j) => j,
        None => {
            return None;
        },
    };
    let (h, i4) = match parse_nat(s, i3) {
        Some(v) => v,
        None => {
            return None;
        },
    };
    let i5 = match parse_lit(s, i4, ",\"buffer\":") {
        Some(j) => j,
        None => {
            return None;
        },
    };
    let (buf, i6) = match parse_bytes(s, i5) {
        Some(v) => v,
        None => {
            return None;
        },
    };
    let i7 = match parse_lit(s, i6, "}") {
        Some(j) => j,
        None => {
            return None;
        },
    };
    if w <= 0xffff_ffff && h <= 0xffff_ffff {
        match ImageBuffer::new(w as u32, h as u32, buf) {
            Some(v) => Some((v, i7)),
            None => None,
        }
    } else {
        None
    }
}

/// Appends the spelling of an image.
pub fn enc_image(out: &mut Vec<char>, v: &ImageBuffer)
    ensures
        final(out)@ == old(out)@ + spec_enc_image(v@),
{
    proof {
        reveal(crate::codec::spec_enc_image);
    }
    push_lit(out, "{\"width\":");
    enc_nat(out, v.width as u64);
    push_lit(out, ",\"height\":");
    enc_nat(out, v.height as u64);
    push_lit(out, ",\"buffer\":");
    enc_bytes(out, &v.buffer);
    push_lit(out, "}");
    proof {
        assert(out@ =~= old(out)@ + spec_enc_image(v@));
    }
}

// --- direction values -------------------------------------------------------

/// A `Direction` spells as its canonical name, quoted.
#[verifier::opaque]
pub open spec fn spec_enc_direction(v: Direction) -> Seq<char> {
    spec_enc_string(spec_direction_name(v))
}

/// `Some((value, rest))` when `s` starts with a quoted `Direction` name or
/// alias.
#[verifier::opaque]
pub open spec fn spec_parse_direction(s: Seq<char>) -> Option<(Direction, Seq<char>)> {
    match spec_parse_string(s) {
        Some((t, rest)) => match spec_direction_of_name(t) {
            Some(v) => Some((v, rest)),
            None => None,
        },
        None => None,
    }
}

/// An encoded `Direction` parses back to itself.
pub proof fn lemma_parse_direction_rt(v: Direction, rest: Seq<char>)
    ensures
        spec_parse_direction(spec_enc_direction(v) + rest) == Some((v, rest)),
{
    reveal(crate::codec::spec_enc_direction);
    reveal(crate::codec::spec_parse_direction);
    lemma_parse_string_rt(spec_direction_name(v), rest);
    lemma_direction_name_rt(v);
}

/// Reads a `Direction` at `i`.
pub fn parse_direction(s: &[char], i: usize) -> (r: Option<(Direction, usize)>)
    requires
        i <= s@.len(),
    ensures
        match r {
            Some((v, j)) => i <= j <= s@.len() && spec_parse_direction(s@.skip(i as int)) == Some(
                (v, s@.skip(j as int)),
            ),
            None => spec_parse_direction(s@.skip(i as int)) is None,
        },
{
    proof {
        reveal(crate::codec::spec_parse_direction);
    }
    match parse_string(s, i) {
        Some((t, j)) => match direction_of_chars(t.as_slice()) {
            Some(v) => Some((v, j)),
            None => None,
        },
        None => None,
    }
}

/// Appends the spelling of a `Direction`.
pub fn enc_direction(out: &mut Vec<char>, v: &Direction)
    ensures
        final(out)@ == old(out)@ + spec_enc_direction(*v),
{
    proof {
        reveal(crate::codec::spec_enc_direction);
    }
    enc_string(out, direction_name_str(v));
}

// --- button values -------------------------------------------------------

/// A `Button` spells as its canonical name, quoted.
#[verifier::opaque]
pub open spec fn spec_enc_button(v: Button) -> Seq<char> {
    spec_enc_string(spec_button_name(v))
}

/// `Some((value, rest))` when `s` starts with a quoted `Button` name or
/// alias.
#[verifier::opaque]
pub open spec fn spec_parse_button(s: Seq<char>) -> Option<(Button, Seq<char>)> {
    match spec_parse_string(s) {
        Some((t, rest)) => match spec_button_of_name(t) {
            Some(v) => Some((v, rest)),
            None => None,
        },
        None => None,
    }
}

/// An encoded `Button` parses back to itself.
pub proof fn lemma_parse_button_rt(v: Button, rest: Seq<char>)
    ensures
        spec_parse_button(spec_enc_button(v) + rest) == Some((v, rest)),
{
    reveal(crate::codec::spec_enc_button);
    reveal(crate::codec::spec_parse_button);
    lemma_parse_string_rt(spec_button_name(v), rest);
    lemma_button_name_rt(v);
}

/// Reads a `Button` at `i`.
pub fn parse_button(s: &[char], i: usize) -> (r: Option<(Button, usize)>)
    requires
        i <= s@.len(),
    ensures
        match r {
            Some((v, j)) => i <= j <= s@.len() && spec_parse_button(s@.skip(i as int)) == Some(
                (v, s@.skip(j as int)),
            ),
            None => spec_parse_button(s@.skip(i as int)) is None,
        },
{
    proof {
        reveal(crate::codec::spec_parse_button);
    }
    match parse_string(s, i) {
        Some((t, j)) => match button_of_chars(t.as_slice()) {
            Some(v) => Some((v, j)),
            None => None,
        },
        None => None,
    }
}

/// Appends the spelling of a `Button`.
pub fn enc_button(out: &mut Vec<char>, v: &Button)
    ensures
        final(out)@ == old(out)@ + spec_enc_button(*v),
{
    proof {
        reveal(crate::codec::spec_enc_button);
    }
    enc_string(out, button_name_str(v));
}

// --- coordinate values -------------------------------------------------------

/// A `Coordinate` spells as its canonical name, quoted.
#[verifier::opaque]
pub open spec fn spec_enc_coordinate(v: Coordinate) -> Seq<char> {
    spec_enc_string(spec_coordinate_name(v))
}

/// `Some((value, rest))` when `s` starts with a quoted `Coordinate` name or
/// alias.
#[verifier::opaque]
pub open spec fn spec_parse_coordinate(s: Seq<char>) -> Option<(Coordinate, Seq<char>)> {
    match spec_parse_string(s) {
        Some((t, rest)) => match spec_coordinate_of_name(t) {
            Some(v) => Some((v, rest)),
            None => None,
        },
        None => None,
    }
}

/// An encoded `Coordinate` parses back to itself.
pub proof fn lemma_parse_coordinate_rt(v: Coordinate, rest: Seq<char>)
    ensures
        spec_parse_coordinate(spec_enc_coordinate(v) + rest) == Some((v, rest)),
{
    reveal(crate::codec::spec_enc_coordinate);
    reveal(crate::codec::spec_parse_coordinate);
    lemma_parse_string_rt(spec_coordinate_name(v), rest);
    lemma_coordinate_name_rt(v);
}

/// Reads a `Coordinate` at `i`.
pub fn parse_coordinate(s: &[char], i: usize) -> (r: Option<(Coordinate, usize)>)
    requires
        i <= s@.len(),
    ensures
        match r {
            Some((v, j)) => i <= j <= s@.len() && spec_parse_coordinate(s@.skip(i as int)) == Some(
                (v, s@.skip(j as int)),
            ),
            None => spec_parse_coordinate(s@.skip(i as int)) is None,
        },
{
    proof {
        reveal(crate::codec::spec_parse_coordinate);
    }
    match parse_string(s, i) {
        Some((t, j)) => match coordinate_of_chars(t.as_slice()) {
            Some(v) => Some((v, j)),
            None => None,
        },
        None => None,
    }
}

/// Appends the spelling of a `Coordinate`.
pub fn enc_coordinate(out: &mut Vec<char>, v: &Coordinate)
    ensures
        final(out)@ == old(out)@ + spec_enc_coordinate(*v),
{
    proof {
        reveal(crate::codec::spec_enc_coordinate);
    }
    enc_string(out, coordinate_name_str(v));
}

// --- axis values -------------------------------------------------------

/// A `Axis` spells as its canonical name, quoted.
#[verifier::opaque]
pub open spec fn spec_enc_axis(v: Axis) -> Seq<char> {
    spec_enc_string(spec_axis_name(v))
}

/// `Some((value, rest))` when `s` starts with a quoted `Axis` name or
/// alias.
#[verifier::opaque]
pub open spec fn spec_parse_axis(s: Seq<char>) -> Option<(Axis, Seq<char>)> {
    match spec_parse_string(s) {
        Some((t, rest)) => match spec_axis_of_name(t) {
            Some(v) => Some((v, rest)),
            None => None,
        },
        None => None,
    }
}

/// An encoded `Axis` parses back to itself.
pub proof fn lemma_parse_axis_rt(v: Axis, rest: Seq<char>)
    ensures
        spec_parse_axis(spec_enc_axis(v) + rest) == Some((v, rest)),
{
    reveal(crate::codec::spec_enc_axis);
    reveal(crate::codec::spec_parse_axis);
    lemma_parse_string_rt(spec_axis_name(v), rest);
    lemma_axis_name_rt(v);
}

/// Reads a `Axis` at `i`.
pub fn parse_axis(s: &[char], i: usize) -> (r: Option<(Axis, usize)>)
    requires
        i <= s@.len(),
    ensures
        match r {
            Some((v, j)) => i <= j <= s@.len() && spec_parse_axis(s@.skip(i as int)) == Some(
                (v, s@.skip(j as int)),
            ),
            None => spec_parse_axis(s@.skip(i as int)) is None,
        },
{
    proof {
        reveal(crate::codec::spec_parse_axis);
    }
    match parse_string(s, i) {
        Some((t, j)) => match axis_of_chars(t.as_slice()) {
            Some(v) => Some((v, j)),
            None => None,
        },
        None => None,
    }
}

/// Appends the spelling of a `Axis`.
pub fn enc_axis(out: &mut Vec<char>, v: &Axis)
    ensures
        final(out)@ == old(out)@ + spec_enc_axis(*v),
{
    proof {
        reveal(crate::codec::spec_enc_axis);
    }
    enc_string(out, axis_name_str(v));
}

// --- keys ---------------------------------------------------------------

/// A key spells as its quoted name, or as an escape-hatch object:
/// `Unicode` carries a one-character string, `Other` a platform code.
#[verifier::opaque]
pub open spec fn spec_enc_key(k: Key) -> Seq<char> {
    match k {
        Key::Unicode(c) => "{"@ + spec_enc_string("Unicode"@) + ":"@ + spec_enc_string(seq![c])
            + "}"@,
        Key::Other(n) => "{"@ + spec_enc_string("Other"@) + ":"@ + spec_enc_nat(n as int) + "}"@,
        _ => spec_enc_string(spec_key_name(k)),
    }
}

/// `Some((key, rest))` when `s` starts with a key: a quoted name or alias,
/// or an escape-hatch object.
#[verifier::opaque]
pub open spec fn spec_parse_key(s: Seq<char>) -> Option<(Key, Seq<char>)> {
    if s.len() > 0 && s[0] == '"' {
        match spec_parse_string(s) {
            Some((t, rest)) => match spec_key_of_name(t) {
                Some(k) => Some((k, rest)),
                None => None,
            },
            None => None,
        }
    } else {
        match spec_parse_lit(s, "{"@) {
            Some(s1) => match spec_parse_string(s1) {
                Some((nm, s2)) => match spec_key_tag_of_name(nm) {
                    Some(KeyTag::Unicode) => match spec_parse_lit(s2, ":"@) {
                        Some(s3) => match spec_parse_string(s3) {
                            Some((t, s4)) => if t.len() == 1 {
                                match spec_parse_lit(s4, "}"@) {
                                    Some(s5) => Some((Key::Unicode(t[0]), s5)),
                                    None => None,
                                }
                            } else {
                                None
                            },
                            None => None,
                        },
                        None => None,
                    },
                    Some(KeyTag::Other) => match spec_parse_lit(s2, ":"@) {
                        Some(s3) => match spec_parse_nat(s3) {
                            Some((n, s4)) => if n <= 0xffff_ffff {
                                match spec_parse_lit(s4, "}"@) {
                                    Some(s5) => Some((Key::Other(n as u32), s5)),
                                    None => None,
                                }
                            } else {
                                None
                            },
                            None => None,
                        },
                        None => None,
                    },
                    None => None,
                },
                None => None,
            },
            None => None,
        }
    }
}

/// An encoded key parses back to itself.
#[verifier::rlimit(100)]
pub proof fn lemma_parse_key_rt(k: Key, rest: Seq<char>)
    ensures
        spec_parse_key(spec_enc_key(k) + rest) == Some((k, rest)),
{
    reveal(crate::codec::spec_enc_key);
    reveal(crate::codec::spec_parse_key);
    reveal_strlit("{");
    reveal_strlit(":");
    reveal_strlit("}");
    match k {
        Key::Unicode(c) => {
            let t5 = "}"@ + rest;
            let t4 = spec_enc_string(seq![c]) + t5;
            let t3 = ":"@ + t4;
            let t2 = spec_enc_string("Unicode"@) + t3;
            let s = spec_enc_key(k) + rest;
            assert(s =~= "{"@ + t2);
            assert(s[0] == '{');
            lemma_parse_lit_rt("{"@, t2);
            lemma_parse_string_rt("Unicode"@, t3);
            lemma_key_tag_name_rt(KeyTag::Unicode);
            lemma_parse_lit_rt(":"@, t4);
            lemma_parse_string_rt(seq![c], t5);
            lemma_parse_lit_rt("}"@, rest);
        },
        Key::Other(n) => {
            let t5 = "}"@ + rest;
            let t4 = spec_enc_nat(n as int) + t5;
            let t3 = ":"@ + t4;
            let t2 = spec_enc_string("Other"@) + t3;
            let s = spec_enc_key(k) + rest;
            assert(s =~= "{"@ + t2);
            assert(s[0] == '{');
            lemma_parse_lit_rt("{"@, t2);
            lemma_parse_string_rt("Other"@, t3);
            lemma_key_tag_name_rt(KeyTag::Other);
            lemma_parse_lit_rt(":"@, t4);
            lemma_parse_nat_rt(n as u64, t5);
            lemma_parse_lit_rt("}"@, rest);
        },
        _ => {
            let s = spec_enc_key(k) + rest;
            assert(spec_enc_string(spec_key_name(k))[0] == '"');
            assert(s[0] == '"');
            lemma_parse_string_rt(spec_key_name(k), rest);
            lemma_key_name_round_trip(k);
        },
    }
}

/// Reads a key at `i`.
pub fn parse_key(s: &[char], i: usize) -> (r: Option<(Key, usize)>)
    requires
        i <= s@.len(),
    ensures
        match r {
            Some((k, j)) => i <= j <= s@.len() && spec_parse_key(s@.skip(i as int)) == Some(
                (k, s@.skip(j as int)),
            ),
            None => spec_parse_key(s@.skip(i as int)) is None,
        },
{
    proof {
        reveal(crate::codec::spec_parse_key);
    }
    if i < s.len() && s[i] == '"' {
        proof {
            assert(s@.skip(i as int)[0] == '"');
        }
        match parse_string(s, i) {
            Some((t, j)) => match key_of_name(t.as_slice()) {
                Some(k) => Some((k, j)),
                None => None,
            },
            None => None,
        }
    } else {
        proof {
            if i < s@.len() {
                assert(s@.skip(i as int)[0] == s@[i as int]);
            }
        }
        let i1 = match parse_lit(s, i, "{") {
            Some(j) => j,
            None => {
                return None;
            },
        };
        let (nm, i2) = match parse_string(s, i1) {
            Some(v) => v,
            None => {
                return None;
            },
        };
        match key_tag_of_chars(nm.as_slice()) {
            Some(KeyTag::Unicode) => {
                let i3 = match parse_lit(s, i2, ":") {
                    Some(j) => j,
                    None => {
                        return None;
                    },
                };
                let (t, i4) = match parse_string(s, i3) {
                    Some(v) => v,
                    None => {
                        return None;
                    },
                };
                if t.len() != 1 {
                    return None;
                }
                let i5 = match parse_lit(s, i4, "}") {
                    Some(j) => j,
                    None => {
                        return None;
                    },
                };
                Some((Key::Unicode(t[0]), i5))
            },
            Some(KeyTag::Other) => {
                let i3 = match parse_lit(s, i2, ":") {
                    Some(j) => j,
                    None => {
                        return None;
                    },
                };
                let (n, i4) = match parse_nat(s, i3) {
                    Some(v) => v,
                    None => {
                        return None;
                    },
                };
                if n > 0xffff_ffff {
                    return None;
                }
                let i5 = match parse_lit(s, i4, "}") {
                    Some(j) => j,
                    None => {
                        return None;
                    },
                };
                Some((Key::Other(n as u32), i5))
            },
            None => None,
        }
    }
}

/// Appends the spelling of a key.
pub fn enc_key(out: &mut Vec<char>, k: &Key)
    ensures
        final(out)@ == old(out)@ + spec_enc_key(*k),
{
    proof {
        reveal(crate::codec::spec_enc_key);
    }
    match k {
        Key::Unicode(c) => {
            out.push('{');
            proof {
                reveal_strlit("{");
                assert(out@ =~= old(out)@ + "{"@);
            }
            enc_string(out, "Unicode");
            out.push(':');
            proof {
                reveal_strlit(":");
                assert(out@ =~= old(out)@ + "{"@ + spec_enc_string("Unicode"@) + ":"@);
            }
            let mut one: Vec<char> = Vec::new();
            one.push(*c);
            let ghost pre = out@;
            enc_chars_string(out, &one);
            out.push('}');
            proof {
                reveal_strlit("}");
                assert(one@ =~= seq![*c]);
                assert(out@ =~= old(out)@ + spec_enc_key(*k));
            }
        },
        Key::Other(n) => {
            out.push('{');
            proof {
                reveal_strlit("{");
                assert(out@ =~= old(out)@ + "{"@);
            }
            enc_string(out, "Other");
            out.push(':');
            proof {
                reveal_strlit(":");
                assert(out@ =~= old(out)@ + "{"@ + spec_enc_string("Other"@) + ":"@);
            }
            enc_nat(out, *n as u64);
            out.push('}');
            proof {
                reveal_strlit("}");
                assert(out@ =~= old(out)@ + spec_enc_key(*k));
            }
        },
        _ => {
            enc_string(out, key_name_str(k));
        },
    }
}

/// Appends the canonical quoted spelling of the characters in `t`.
pub fn enc_chars_string(out: &mut Vec<char>, t: &Vec<char>)
    ensures
        final(out)@ == old(out)@ + spec_enc_string(t@),
{
    out.push('"');
    proof {
        assert(out@ =~= old(out)@ + seq!['"']);
    }
    let n = t.len();
    let mut k: usize = 0;
    while k < n
        invariant
            0 <= k <= n,
            n == t@.len(),
            out@ == old(out)@ + seq!['"'] + crate::json::spec_enc_str_body(t@.take(k as int)),
        decreases n - k,
    {
        let c = t[k];
        let ghost pre = out@;
        if c == '"' {
            out.push('\\');
            out.push('"');
        } else if c == '\\' {
            out.push('\\');
            out.push('\\');
        } else if (c as u32) < 32 {
            out.push('\\');
            out.push('u');
            out.push('0');
            out.push('0');
            let h1 = ((c as u32) / 16) as u8;
            let h2 = ((c as u32) % 16) as u8;
            out.push(
                if h1 < 10 {
                    (48 + h1) as char
                } else {
                    (87 + h1) as char
                },
            );
            out.push(
                if h2 < 10 {
                    (48 + h2) as char
                } else {
                    (87 + h2) as char
                },
            );
        } else {
            out.push(c);
        }
        proof {
            assert(out@ =~= pre + crate::json::spec_enc_char(t@[k as int]));
            crate::json::lemma_enc_str_body_snoc(t@, k as int);
            assert(out@ =~= old(out)@ + seq!['"'] + crate::json::spec_enc_str_body(
                t@.take(k + 1),
            ));
        }
        k = k + 1;
    }
    let ghost pre = out@;
    out.push('"');
    proof {
        assert(out@ =~= pre + seq!['"']);
        assert(t@.take(n as int) =~= t@);
        assert(seq!['"'] =~= "\""@) by {
            reveal_strlit("\"");
        }
        assert(out@ =~= old(out)@ + spec_enc_string(t@));
    }
}

// --- search tuning values -----------------------------------------------

/// A quality spells as a name, or as an object carrying the specific
/// level.
#[verifier::opaque]
pub open spec fn spec_enc_quality(v: FindImageQuality) -> Seq<char> {
    match v {
        FindImageQuality::Standard => spec_enc_string("Standard"@),
        FindImageQuality::Highest => spec_enc_string("Highest"@),
        FindImageQuality::Specific(l) => "{"@ + spec_enc_string("Specific"@) + ":"@ + spec_enc_nat(
            l as int,
        ) + "}"@,
    }
}

/// `Some((quality, rest))` when `s` starts with a quality.
#[verifier::opaque]
pub open spec fn spec_parse_quality(s: Seq<char>) -> Option<(FindImageQuality, Seq<char>)> {
    if s.len() > 0 && s[0] == '"' {
        match spec_parse_string(s) {
            Some((t, rest)) => if t == "Standard"@ {
                Some((FindImageQuality::Standard, rest))
            } else if t == "Highest"@ {
                Some((FindImageQuality::Highest, rest))
            } else {
                None
            },
            None => None,
        }
    } else {
        match spec_parse_lit(s, "{"@) {
            Some(s1) => match spec_parse_string(s1) {
                Some((nm, s2)) => if nm == "Specific"@ {
                    match spec_parse_lit(s2, ":"@) {
                        Some(s3) => match spec_parse_nat(s3) {
                            Some((n, s4)) => if n <= 255 {
                                match spec_parse_lit(s4, "}"@) {
                                    Some(s5) => Some((FindImageQuality::Specific(n as u8), s5)),
                                    None => None,
                                }
                            } else {
                                None
                            },
                            None => None,
                        },
                        None => None,
                    }
                } else {
                    None
                },
                None => None,
            },
            None => None,
        }
    }
}

/// An encoded quality parses back to itself.
pub proof fn lemma_parse_quality_rt(v: FindImageQuality, rest: Seq<char>)
    ensures
        spec_parse_quality(spec_enc_quality(v) + rest) == Some((v, rest)),
{
    reveal(crate::codec::spec_enc_quality);
    reveal(crate::codec::spec_parse_quality);
    reveal_strlit("Standard");
    reveal_strlit("Highest");
    reveal_strlit("Specific");
    reveal_strlit("{");
    reveal_strlit(":");
    reveal_strlit("}");
    match v {
        FindImageQuality::Standard => {
            let s = spec_enc_quality(v) + rest;
            assert(s[0] == '"');
            lemma_parse_string_rt("Standard"@, rest);
        },
        FindImageQuality::Highest => {
            let s = spec_enc_quality(v) + rest;
            assert(s[0] == '"');
            lemma_parse_string_rt("Highest"@, rest);
            assert("Highest"@ != "Standard"@) by {
                assert("Highest"@[0] == 'H' && "Standard"@[0] == 'S');
            }
        },
        FindImageQuality::Specific(l) => {
            let t5 = "}"@ + rest;
            let t4 = spec_enc_nat(l as int) + t5;
            let t3 = ":"@ + t4;
            let t2 = spec_enc_string("Specific"@) + t3;
            let s = spec_enc_quality(v) + rest;
            assert(s =~= "{"@ + t2);
            assert(s[0] == '{');
            lemma_parse_lit_rt("{"@, t2);
            lemma_parse_string_rt("Specific"@, t3);
            lemma_parse_lit_rt(":"@, t4);
            lemma_parse_nat_rt(l as u64, t5);
            lemma_parse_lit_rt("}"@, rest);
        },
    }
}

/// Reads a quality at `i`.
pub fn parse_quality(s: &[char], i: usize) -> (r: Option<(FindImageQuality, usize)>)
    requires
        i <= s@.len(),
    ensures
        match r {
            Some((v, j)) => i <= j <= s@.len() && spec_parse_quality(s@.skip(i as int)) == Some(
                (v, s@.skip(j as int)),
            ),
            None => spec_parse_quality(s@.skip(i as int)) is None,
        },
{
    proof {
        reveal(crate::codec::spec_parse_quality);
    }
    if i < s.len() && s[i] == '"' {
        proof {
            assert(s@.skip(i as int)[0] == '"');
        }
        match parse_string(s, i) {
            Some((t, j)) => {
                if chars_eq_lit(t.as_slice(), "Standard") {
                    Some((FindImageQuality::Standard, j))
                } else if chars_eq_lit(t.as_slice(), "Highest") {
                    Some((FindImageQuality::Highest, j))
                } else {
                    None
                }
            },
            None => None,
        }
    } else {
        proof {
            if i < s@.len() {
                assert(s@.skip(i as int)[0] == s@[i as int]);
            }
        }
        let i1 = match parse_lit(s, i, "{") {
            Some(j) => j,
            None => {
                return None;
            },
        };
        let (nm, i2) = match parse_string(s, i1) {
            Some(v) => v,
            None => {
                return None;
            },
        };
        if !chars_eq_lit(nm.as_slice(), "Specific") {
            return None;
        }
        let i3 = match parse_lit(s, i2, ":") {
            Some(j) => j,
            None => {
                return None;
            },
        };
        let (n, i4) = match parse_nat(s, i3) {
            Some(v) => v,
            None => {
                return None;
            },
        };
        if n > 255 {
            return None;
        }
        let i5 = match parse_lit(s, i4, "}") {
            Some(j) => j,
            None => {
                return None;
            },
        };
        Some((FindImageQuality::Specific(n as u8), i5))
    }
}

/// Appends the spelling of a quality.
pub fn enc_quality(out: &mut Vec<char>, v: &FindImageQuality)
    ensures
        final(out)@ == old(out)@ + spec_enc_quality(*v),
{
    proof {
        reveal(crate::codec::spec_enc_quality);
    }
    match v {
        FindImageQuality::Standard => {
            enc_string(out, "Standard");
        },
        FindImageQuality::Highest => {
            enc_string(out, "Highest");
        },
        FindImageQuality::Specific(l) => {
            out.push('{');
            proof {
                reveal_strlit("{");
                assert(out@ =~= old(out)@ + "{"@);
            }
            enc_string(out, "Specific");
            out.push(':');
            proof {
                reveal_strlit(":");
                assert(out@ =~= old(out)@ + "{"@ + spec_enc_string("Specific"@) + ":"@);
            }
            enc_nat(out, *l as u64);
            out.push('}');
            proof {
                reveal_strlit("}");
                assert(out@ =~= old(out)@ + spec_enc_quality(*v));
            }
        },
    }
}

/// A filter spells as a name, or as an object carrying the level and the
/// least similarity, the latter in thousandths.
#[verifier::opaque]
pub open spec fn spec_enc_filter(v: FindImageFilter) -> Seq<char> {
    match v {
        FindImageFilter::Standard => spec_enc_string("Standard"@),
        FindImageFilter::Highest => spec_enc_string("Highest"@),
        FindImageFilter::Specific { level, minimum_similarity } => "{"@ + spec_enc_string(
            "Specific"@,
        ) + ":{\"level\":"@ + spec_enc_nat(level as int) + ",\"minimum_similarity\":"@
            + spec_enc_milli(minimum_similarity as int) + "}}"@,
    }
}

/// `Some((filter, rest))` when `s` starts with a filter whose similarity
/// is at most one.
#[verifier::opaque]
pub open spec fn spec_parse_filter(s: Seq<char>) -> Option<(FindImageFilter, Seq<char>)> {
    if s.len() > 0 && s[0] == '"' {
        match spec_parse_string(s) {
            Some((t, rest)) => if t == "Standard"@ {
                Some((FindImageFilter::Standard, rest))
            } else if t == "Highest"@ {
                Some((FindImageFilter::Highest, rest))
            } else {
                None
            },
            None => None,
        }
    } else {
        match spec_parse_lit(s, "{"@) {
            Some(s1) => match spec_parse_string(s1) {
                Some((nm, s2)) => if nm == "Specific"@ {
                    match spec_parse_lit(s2, ":{\"level\":"@) {
                        Some(s3) => match spec_parse_nat(s3) {
                            Some((n, s4)) => if n <= 255 {
                                match spec_parse_lit(s4, ",\"minimum_similarity\":"@) {
                                    Some(s5) => match spec_parse_milli(s5) {
                                        Some((m, s6)) => if m <= 1000 {
                                            match spec_parse_lit(s6, "}}"@) {
                                                Some(s7) => Some(
                                                    (
                                                        FindImageFilter::Specific {
                                                            level: n as u8,
                                                            minimum_similarity: m as u16,
                                                        },
                                                        s7,
                                                    ),
                                                ),
                                                None => None,
                                            }
                                        } else {
                                            None
                                        },
                                        None => None,
                                    },
                                    None => None,
                                }
                            } else {
                                None
                            },
                            None => None,
                        },
                        None => None,
                    }
                } else {
                    None
                },
                None => None,
            },
            None => None,
        }
    }
}

/// An encoded well-formed filter parses back to itself.
#[verifier::rlimit(100)]
pub proof fn lemma_parse_filter_rt(v: FindImageFilter, rest: Seq<char>)
    requires
        v.wf(),
    ensures
        spec_parse_filter(spec_enc_filter(v) + rest) == Some((v, rest)),
{
    reveal(crate::codec::spec_enc_filter);
    reveal(crate::codec::spec_parse_filter);
    reveal_strlit("Standard");
    reveal_strlit("Highest");
    reveal_strlit("Specific");
    reveal_strlit("{");
    reveal_strlit(":{\"level\":");
    reveal_strlit(",\"minimum_similarity\":");
    reveal_strlit("}}");
    match v {
        FindImageFilter::Standard => {
            let s = spec_enc_filter(v) + rest;
            assert(s[0] == '"');
            lemma_parse_string_rt("Standard"@, rest);
        },
        FindImageFilter::Highest => {
            let s = spec_enc_filter(v) + rest;
            assert(s[0] == '"');
            lemma_parse_string_rt("Highest"@, rest);
            assert("Highest"@ != "Standard"@) by {
                assert("Highest"@[0] == 'H' && "Standard"@[0] == 'S');
            }
        },
        FindImageFilter::Specific { level, minimum_similarity } => {
            let t7 = "}}"@ + rest;
            let t6 = spec_enc_milli(minimum_similarity as int) + t7;
            let t5 = ",\"minimum_similarity\":"@ + t6;
            let t4 = spec_enc_nat(level as int) + t5;
            let t3 = ":{\"level\":"@ + t4;
            let t2 = spec_enc_string("Specific"@) + t3;
            let s = spec_enc_filter(v) + rest;
            assert(s =~= "{"@ + t2);
            assert(s[0] == '{');
            lemma_parse_lit_rt("{"@, t2);
            lemma_parse_string_rt("Specific"@, t3);
            lemma_parse_lit_rt(":{\"level\":"@, t4);
            lemma_parse_nat_rt(level as u64, t5);
            lemma_parse_lit_rt(",\"minimum_similarity\":"@, t6);
            lemma_parse_milli_rt(minimum_similarity as u64, t7);
            lemma_parse_lit_rt("}}"@, rest);
        },
    }
}

/// Reads a filter at `i`.
pub fn parse_filter(s: &[char], i: usize) -> (r: Option<(FindImageFilter, usize)>)
    requires
        i <= s@.len(),
    ensures
        match r {
            Some((v, j)) => i <= j <= s@.len() && spec_parse_filter(s@.skip(i as int)) == Some(
                (v, s@.skip(j as int)),
            ) && v.wf(),
            None => spec_parse_filter(s@.skip(i as int)) is None,
        },
{
    proof {
        reveal(crate::codec::spec_parse_filter);
    }
    if i < s.len() && s[i] == '"' {
        proof {
            assert(s@.skip(i as int)[0] == '"');
        }
        match parse_string(s, i) {
            Some((t, j)) => {
                if chars_eq_lit(t.as_slice(), "Standard") {
                    Some((FindImageFilter::Standard, j))
                } else if chars_eq_lit(t.as_slice(), "Highest") {
                    Some((FindImageFilter::Highest, j))
                } else {
                    None
                }
            },
            None => None,
        }
    } else {
        proof {
            if i < s@.len() {
                assert(s@.skip(i as int)[0] == s@[i as int]);
            }
        }
        let i1 = match parse_lit(s, i, "{") {
            Some(j) => j,
            None => {
                return None;
            },
        };
        let (nm, i2) = match parse_string(s, i1) {
            Some(v) => v,
            None => {
                return None;
            },
        };
        if !chars_eq_lit(nm.as_slice(), "Specific") {
            return None;
        }
        let i3 = match parse_lit(s, i2, ":{\"level\":") {
            Some(j) => j,
            None => {
                return None;
            },
        };
        let (n, i4) = match parse_nat(s, i3) {
            Some(v) => v,
            None => {
                return None;
            },
        };
        if n > 255 {
            return None;
        }
        let i5 = match parse_lit(s, i4, ",\"minimum_similarity\":") {
            Some(j) => j,
            None => {
                return None;
            },
        };
        let (m, i6) = match parse_milli(s, i5) {
            Some(v) => v,
            None => {
                return None;
            },
        };
        if m > 1000 {
            return None;
        }
        let i7 = match parse_lit(s, i6, "}}") {
            Some(j) => j,
            None => {
                return None;
            },
        };
        Some((FindImageFilter::Specific { level: n as u8, minimum_similarity: m as u16 }, i7))
    }
}

/// Appends the spelling of a filter.
pub fn enc_filter(out: &mut Vec<char>, v: &FindImageFilter)
    ensures
        final(out)@ == old(out)@ + spec_enc_filter(*v),
{
    proof {
        reveal(crate::codec::spec_enc_filter);
    }
    match v {
        FindImageFilter::Standard => {
            enc_string(out, "Standard");
        },
        FindImageFilter::Highest => {
            enc_string(out, "Highest");
        },
        FindImageFilter::Specific { level, minimum_similarity } => {
            out.push('{');
            proof {
                reveal_strlit("{");
                assert(out@ =~= old(out)@ + "{"@);
            }
            enc_string(out, "Specific");
            push_lit(out, ":{\"level\":");
            enc_nat(out, *level as u64);
            push_lit(out, ",\"minimum_similarity\":");
            enc_milli(out, *minimum_similarity as u64);
            push_lit(out, "}}");
            proof {
                assert(out@ =~= old(out)@ + spec_enc_filter(*v));
            }
        },
    }
}

// --- tokens -------------------------------------------------------------

/// An optional `,direction` before the `]}` that closes a token; absent
/// means `Click`.
#[verifier::opaque]
pub open spec fn spec_parse_opt_direction_close(s: Seq<char>) -> Option<(Direction, Seq<char>)> {
    if s.len() > 0 && s[0] == ',' {
        match spec_parse_direction(s.skip(1)) {
            Some((d, s2)) => match spec_parse_lit(s2, "]}"@) {
                Some(s3) => Some((d, s3)),
                None => None,
            },
            None => None,
        }
    } else {
        match spec_parse_lit(s, "]}"@) {
            Some(s1) => Some((Direction::Click, s1)),
            None => None,
        }
    }
}

/// An optional `,coordinate` before the closing `]}`; absent means `Abs`.
#[verifier::opaque]
pub open spec fn spec_parse_opt_coordinate_close(s: Seq<char>) -> Option<(Coordinate, Seq<char>)> {
    if s.len() > 0 && s[0] == ',' {
        match spec_parse_coordinate(s.skip(1)) {
            Some((d, s2)) => match spec_parse_lit(s2, "]}"@) {
                Some(s3) => Some((d, s3)),
                None => None,
            },
            None => None,
        }
    } else {
        match spec_parse_lit(s, "]}"@) {
            Some(s1) => Some((Coordinate::Abs, s1)),
            None => None,
        }
    }
}

/// An optional `,axis` before the closing `]}`; absent means `Vertical`.
#[verifier::opaque]
pub open spec fn spec_parse_opt_axis_close(s: Seq<char>) -> Option<(Axis, Seq<char>)> {
    if s.len() > 0 && s[0] == ',' {
        match spec_parse_axis(s.skip(1)) {
            Some((d, s2)) => match spec_parse_lit(s2, "]}"@) {
                Some(s3) => Some((d, s3)),
                None => None,
            },
            None => None,
        }
    } else {
        match spec_parse_lit(s, "]}"@) {
            Some(s1) => Some((Axis::Vertical, s1)),
            None => None,
        }
    }
}

/// A `,direction]}` written canonically parses back to its direction.
proof fn lemma_parse_opt_direction_close_rt(d: Direction, rest: Seq<char>)
    ensures
        spec_parse_opt_direction_close(","@ + spec_enc_direction(d) + ("]}"@ + rest)) == Some(
            (d, rest),
        ),
{
    reveal(crate::codec::spec_parse_opt_direction_close);
    reveal_strlit(",");
    let s = ","@ + spec_enc_direction(d) + ("]}"@ + rest);
    assert(s[0] == ',');
    assert(s.skip(1) =~= spec_enc_direction(d) + ("]}"@ + rest));
    lemma_parse_direction_rt(d, "]}"@ + rest);
    lemma_parse_lit_rt("]}"@, rest);
}

/// A `,coordinate]}` written canonically parses back to its coordinate.
proof fn lemma_parse_opt_coordinate_close_rt(d: Coordinate, rest: Seq<char>)
    ensures
        spec_parse_opt_coordinate_close(","@ + spec_enc_coordinate(d) + ("]}"@ + rest)) == Some(
            (d, rest),
        ),
{
    reveal(crate::codec::spec_parse_opt_coordinate_close);
    reveal_strlit(",");
    let s = ","@ + spec_enc_coordinate(d) + ("]}"@ + rest);
    assert(s[0] == ',');
    assert(s.skip(1) =~= spec_enc_coordinate(d) + ("]}"@ + rest));
    lemma_parse_coordinate_rt(d, "]}"@ + rest);
    lemma_parse_lit_rt("]}"@, rest);
}

/// A `,axis]}` written canonically parses back to its axis.
proof fn lemma_parse_opt_axis_close_rt(d: Axis, rest: Seq<char>)
    ensures
        spec_parse_opt_axis_close(","@ + spec_enc_axis(d) + ("]}"@ + rest)) == Some((d, rest)),
{
    reveal(crate::codec::spec_parse_opt_axis_close);
    reveal_strlit(",");
    let s = ","@ + spec_enc_axis(d) + ("]}"@ + rest);
    assert(s[0] == ',');
    assert(s.skip(1) =~= spec_enc_axis(d) + ("]}"@ + rest));
    lemma_parse_axis_rt(d, "]}"@ + rest);
    lemma_parse_lit_rt("]}"@, rest);
}

/// A token spells as an object whose key names its kind.  Encoders write
/// every tuple element; decoders allow a trailing direction, coordinate or
/// axis to be absent, as the wire grammar documents.
#[verifier::opaque]
pub open spec fn spec_enc_token(t: TokenV) -> Seq<char> {
    match t {
        TokenV::Text(x) => "{"@ + spec_enc_string("Text"@) + ":"@ + spec_enc_string(x) + "}"@,
        TokenV::Key(k, d) => "{"@ + spec_enc_string("Key"@) + ":["@ + spec_enc_key(k) + (","@
            + spec_enc_direction(d) + ("]}"@ + Seq::<char>::empty())),
        TokenV::Raw(c, d) => "{"@ + spec_enc_string("Raw"@) + ":["@ + spec_enc_nat(c as int) + (","@
            + spec_enc_direction(d) + ("]}"@ + Seq::<char>::empty())),
        TokenV::Button(b, d) => "{"@ + spec_enc_string("Button"@) + ":["@ + spec_enc_button(b) + (
        ","@ + spec_enc_direction(d) + ("]}"@ + Seq::<char>::empty())),
        TokenV::MoveMouse(x, y, c) => "{"@ + spec_enc_string("MoveMouse"@) + ":["@ + spec_enc_int(
            x as int,
        ) + ","@ + spec_enc_int(y as int) + (","@ + spec_enc_coordinate(c) + ("]}"@
            + Seq::<char>::empty())),
        TokenV::Scroll(n, a) => "{"@ + spec_enc_string("Scroll"@) + ":["@ + spec_enc_int(n as int)
            + (","@ + spec_enc_axis(a) + ("]}"@ + Seq::<char>::empty())),
        TokenV::Location(x, y) => "{"@ + spec_enc_string("Location"@) + ":["@ + spec_enc_int(
            x as int,
        ) + ","@ + spec_enc_int(y as int) + "]}"@,
        TokenV::MainDisplay(x, y) => "{"@ + spec_enc_string("MainDisplay"@) + ":["@ + spec_enc_int(
            x as int,
        ) + ","@ + spec_enc_int(y as int) + "]}"@,
    }
}

/// `Some((token, rest))` when `s` starts with a token object.
#[verifier::opaque]
pub open spec fn spec_parse_token(s: Seq<char>) -> Option<(TokenV, Seq<char>)> {
    match spec_parse_lit(s, "{"@) {
        Some(s1) => match spec_parse_string(s1) {
            Some((nm, s2)) => match spec_token_tag_of_name(nm) {
                Some(TokenTag::Text) => match spec_parse_lit(s2, ":"@) {
                    Some(s3) => match spec_parse_string(s3) {
                        Some((x, s4)) => match spec_parse_lit(s4, "}"@) {
                            Some(s5) => Some((TokenV::Text(x), s5)),
                            None => None,
                        },
                        None => None,
                    },
                    None => None,
                },
                Some(TokenTag::Key) => match spec_parse_lit(s2, ":["@) {
                    Some(s3) => match spec_parse_key(s3) {
                        Some((k, s4)) => match spec_parse_opt_direction_close(s4) {
                            Some((d, s5)) => Some((TokenV::Key(k, d), s5)),
                            None => None,
                        },
                        None => None,
                    },
                    None => None,
                },
                Some(TokenTag::Raw) => match spec_parse_lit(s2, ":["@) {
                    Some(s3) => match spec_parse_nat(s3) {
                        Some((c, s4)) => if c <= 0xffff {
                            match spec_parse_opt_direction_close(s4) {
                                Some((d, s5)) => Some((TokenV::Raw(c as u16, d), s5)),
                                None => None,
                            }
                        } else {
                            None
                        },
                        None => None,
                    },
                    None => None,
                },
                Some(TokenTag::Button) => match spec_parse_lit(s2, ":["@) {
                    Some(s3) => match spec_parse_button(s3) {
                        Some((b, s4)) => match spec_parse_opt_direction_close(s4) {
                            Some((d, s5)) => Some((TokenV::Button(b, d), s5)),
                            None => None,
                        },
                        None => None,
                    },
                    None => None,
                },
                Some(TokenTag::MoveMouse) => match spec_parse_lit(s2, ":["@) {
                    Some(s3) => match spec_parse_int(s3) {
                        Some((x, s4)) => match spec_parse_lit(s4, ","@) {
                            Some(s5) => match spec_parse_int(s5) {
                                Some((y, s6)) => if -0x8000_0000 <= x <= 0x7fff_ffff
                                    && -0x8000_0000 <= y <= 0x7fff_ffff {
                                    match spec_parse_opt_coordinate_close(s6) {
                                        Some((c, s7)) => Some(
                                            (TokenV::MoveMouse(x as i32, y as i32, c), s7),
                                        ),
                                        None => None,
                                    }
                                } else {
                                    None
                                },
                                None => None,
                            },
                            None => None,
                        },
                        None => None,
                    },
                    None => None,
                },
                Some(TokenTag::Scroll) => match spec_parse_lit(s2, ":["@) {
                    Some(s3) => match spec_parse_int(s3) {
                        Some((n, s4)) => if -0x8000_0000 <= n <= 0x7fff_ffff {
                            match spec_parse_opt_axis_close(s4) {
                                Some((a, s5)) => Some((TokenV::Scroll(n as i32, a), s5)),
                                None => None,
                            }
                        } else {
                            None
                        },
                        None => None,
                    },
                    None => None,
                },
                Some(TokenTag::Location) => match spec_parse_lit(s2, ":["@) {
                    Some(s3) => match spec_parse_int(s3) {
                        Some((x, s4)) => match spec_parse_lit(s4, ","@) {
                            Some(s5) => match spec_parse_int(s5) {
                                Some((y, s6)) => if -0x8000_0000 <= x <= 0x7fff_ffff
                                    && -0x8000_0000 <= y <= 0x7fff_ffff {
                                    match spec_parse_lit(s6, "]}"@) {
                                        Some(s7) => Some((TokenV::Location(x as i32, y as i32), s7)),
                                        None => None,
                                    }
                                } else {
                                    None
                                },
                                None => None,
                            },
                            None => None,
                        },
                        None => None,
                    },
                    None => None,
                },
                Some(TokenTag::MainDisplay) => match spec_parse_lit(s2, ":["@) {
                    Some(s3) => match spec_parse_int(s3) {
                        Some((x, s4)) => match spec_parse_lit(s4, ","@) {
                            Some(s5) => match spec_parse_int(s5) {
                                Some((y, s6)) => if -0x8000_0000 <= x <= 0x7fff_ffff
                                    && -0x8000_0000 <= y <= 0x7fff_ffff {
                                    match spec_parse_lit(s6, "]}"@) {
                                        Some(s7) => Some(
                                            (TokenV::MainDisplay(x as i32, y as i32), s7),
                                        ),
                                        None => None,
                                    }
                                } else {
                                    None
                                },
                                None => None,
                            },
                            None => None,
                        },
                        None => None,
                    },
                    None => None,
                },
                None => None,
            },
            None => None,
        },
        None => None,
    }
}

/// One kind of token, encoded then parsed back.
#[verifier::rlimit(100)]
proof fn lemma_parse_token_text_rt(x: Seq<char>, rest: Seq<char>)
    ensures
        spec_parse_token(spec_enc_token(TokenV::Text(x)) + rest) == Some(
            (TokenV::Text(x), rest),
        ),
{
    reveal(crate::codec::spec_enc_token);
    reveal(crate::codec::spec_parse_token);
    reveal(crate::codec::spec_parse_opt_direction_close);
    reveal(crate::codec::spec_parse_opt_coordinate_close);
    reveal(crate::codec::spec_parse_opt_axis_close);
    reveal_strlit("{");
    reveal_strlit(":");
    reveal_strlit(":[");
    reveal_strlit(",");
    reveal_strlit("]}");
    reveal_strlit("}");
    let t = TokenV::Text(x);
    let s = spec_enc_token(t) + rest;
    let t5 = "}"@ + rest;
    let t4 = spec_enc_string(x) + t5;
    let t3 = ":"@ + t4;
    let t2 = spec_enc_string("Text"@) + t3;
    assert(s =~= "{"@ + t2);
    lemma_parse_lit_rt("{"@, t2);
    lemma_parse_string_rt("Text"@, t3);
    lemma_token_tag_name_rt(TokenTag::Text);
    lemma_parse_lit_rt(":"@, t4);
    lemma_parse_string_rt(x, t5);
    lemma_parse_lit_rt("}"@, rest);
}

/// One kind of token, encoded then parsed back.
#[verifier::rlimit(100)]
proof fn lemma_parse_token_key_rt(k: Key, d: Direction, rest: Seq<char>)
    ensures
        spec_parse_token(spec_enc_token(TokenV::Key(k, d)) + rest) == Some(
            (TokenV::Key(k, d), rest),
        ),
{
    reveal(crate::codec::spec_enc_token);
    reveal(crate::codec::spec_parse_token);
    reveal(crate::codec::spec_parse_opt_direction_close);
    reveal(crate::codec::spec_parse_opt_coordinate_close);
    reveal(crate::codec::spec_parse_opt_axis_close);
    reveal_strlit("{");
    reveal_strlit(":");
    reveal_strlit(":[");
    reveal_strlit(",");
    reveal_strlit("]}");
    reveal_strlit("}");
    let t = TokenV::Key(k, d);
    let s = spec_enc_token(t) + rest;
    let t5 = ","@ + spec_enc_direction(d) + ("]}"@ + rest);
    let t4 = spec_enc_key(k) + t5;
    let t3 = ":["@ + t4;
    let t2 = spec_enc_string("Key"@) + t3;
    assert(s =~= "{"@ + t2);
    lemma_parse_lit_rt("{"@, t2);
    lemma_parse_string_rt("Key"@, t3);
    lemma_token_tag_name_rt(TokenTag::Key);
    lemma_parse_lit_rt(":["@, t4);
    lemma_parse_key_rt(k, t5);
    assert(","@ + spec_enc_direction(d) + ("]}"@ + Seq::<char>::empty()) + rest =~= t5);
    lemma_parse_opt_direction_close_rt(d, rest);
}

/// One kind of token, encoded then parsed back.
#[verifier::rlimit(100)]
proof fn lemma_parse_token_raw_rt(c: u16, d: Direction, rest: Seq<char>)
    ensures
        spec_parse_token(spec_enc_token(TokenV::Raw(c, d)) + rest) == Some(
            (TokenV::Raw(c, d), rest),
        ),
{
    reveal(crate::codec::spec_enc_token);
    reveal(crate::codec::spec_parse_token);
    reveal(crate::codec::spec_parse_opt_direction_close);
    reveal(crate::codec::spec_parse_opt_coordinate_close);
    reveal(crate::codec::spec_parse_opt_axis_close);
    reveal_strlit("{");
    reveal_strlit(":");
    reveal_strlit(":[");
    reveal_strlit(",");
    reveal_strlit("]}");
    reveal_strlit("}");
    let t = TokenV::Raw(c, d);
    let s = spec_enc_token(t) + rest;
    let t5 = ","@ + spec_enc_direction(d) + ("]}"@ + rest);
    let t4 = spec_enc_nat(c as int) + t5;
    let t3 = ":["@ + t4;
    let t2 = spec_enc_string("Raw"@) + t3;
    assert(s =~= "{"@ + t2);
    lemma_parse_lit_rt("{"@, t2);
    lemma_parse_string_rt("Raw"@, t3);
    lemma_token_tag_name_rt(TokenTag::Raw);
    lemma_parse_lit_rt(":["@, t4);
    lemma_parse_nat_rt(c as u64, t5);
    assert(","@ + spec_enc_direction(d) + ("]}"@ + Seq::<char>::empty()) + rest =~= t5);
    lemma_parse_opt_direction_close_rt(d, rest);
}

/// One kind of token, encoded then parsed back.
#[verifier::rlimit(100)]
proof fn lemma_parse_token_button_rt(b: Button, d: Direction, rest: Seq<char>)
    ensures
        spec_parse_token(spec_enc_token(TokenV::Button(b, d)) + rest) == Some(
            (TokenV::Button(b, d), rest),
        ),
{
    reveal(crate::codec::spec_enc_token);
    reveal(crate::codec::spec_parse_token);
    reveal(crate::codec::spec_parse_opt_direction_close);
    reveal(crate::codec::spec_parse_opt_coordinate_close);
    reveal(crate::codec::spec_parse_opt_axis_close);
    reveal_strlit("{");
    reveal_strlit(":");
    reveal_strlit(":[");
    reveal_strlit(",");
    reveal_strlit("]}");
    reveal_strlit("}");
    let t = TokenV::Button(b, d);
    let s = spec_enc_token(t) + rest;
    let t5 = ","@ + spec_enc_direction(d) + ("]}"@ + rest);
    let t4 = spec_enc_button(b) + t5;
    let t3 = ":["@ + t4;
    let t2 = spec_enc_string("Button"@) + t3;
    assert(s =~= "{"@ + t2);
    lemma_parse_lit_rt("{"@, t2);
    lemma_parse_string_rt("Button"@, t3);
    lemma_token_tag_name_rt(TokenTag::Button);
    lemma_parse_lit_rt(":["@, t4);
    lemma_parse_button_rt(b, t5);
    assert(","@ + spec_enc_direction(d) + ("]}"@ + Seq::<char>::empty()) + rest =~= t5);
    lemma_parse_opt_direction_close_rt(d, rest);
}

/// One kind of token, encoded then parsed back.
#[verifier::rlimit(100)]
proof fn lemma_parse_token_movemouse_rt(x: i32, y: i32, c: Coordinate, rest: Seq<char>)
    ensures
        spec_parse_token(spec_enc_token(TokenV::MoveMouse(x, y, c)) + rest) == Some(
            (TokenV::MoveMouse(x, y, c), rest),
        ),
{
    reveal(crate::codec::spec_enc_token);
    reveal(crate::codec::spec_parse_token);
    reveal(crate::codec::spec_parse_opt_direction_close);
    reveal(crate::codec::spec_parse_opt_coordinate_close);
    reveal(crate::codec::spec_parse_opt_axis_close);
    reveal_strlit("{");
    reveal_strlit(":");
    reveal_strlit(":[");
    reveal_strlit(",");
    reveal_strlit("]}");
    reveal_strlit("}");
    let t = TokenV::MoveMouse(x, y, c);
    let s = spec_enc_token(t) + rest;
    let t7 = ","@ + spec_enc_coordinate(c) + ("]}"@ + rest);
    let t6 = spec_enc_int(y as int) + t7;
    let t5 = ","@ + t6;
    let t4 = spec_enc_int(x as int) + t5;
    let t3 = ":["@ + t4;
    let t2 = spec_enc_string("MoveMouse"@) + t3;
    assert(s =~= "{"@ + t2);
    lemma_parse_lit_rt("{"@, t2);
    lemma_parse_string_rt("MoveMouse"@, t3);
    lemma_token_tag_name_rt(TokenTag::MoveMouse);
    lemma_parse_lit_rt(":["@, t4);
    lemma_parse_int_rt(x as i64, t5);
    lemma_parse_lit_rt(","@, t6);
    lemma_parse_int_rt(y as i64, t7);
    assert(","@ + spec_enc_coordinate(c) + ("]}"@ + Seq::<char>::empty()) + rest =~= t7);
    lemma_parse_opt_coordinate_close_rt(c, rest);
}

/// One kind of token, encoded then parsed back.
#[verifier::rlimit(100)]
proof fn lemma_parse_token_scroll_rt(n: i32, a: Axis, rest: Seq<char>)
    ensures
        spec_parse_token(spec_enc_token(TokenV::Scroll(n, a)) + rest) == Some(
            (TokenV::Scroll(n, a), rest),
        ),
{
    reveal(crate::codec::spec_enc_token);
    reveal(crate::codec::spec_parse_token);
    reveal(crate::codec::spec_parse_opt_direction_close);
    reveal(crate::codec::spec_parse_opt_coordinate_close);
    reveal(crate::codec::spec_parse_opt_axis_close);
    reveal_strlit("{");
    reveal_strlit(":");
    reveal_strlit(":[");
    reveal_strlit(",");
    reveal_strlit("]}");
    reveal_strlit("}");
    let t = TokenV::Scroll(n, a);
    let s = spec_enc_token(t) + rest;
    let t5 = ","@ + spec_enc_axis(a) + ("]}"@ + rest);
    let t4 = spec_enc_int(n as int) + t5;
    let t3 = ":["@ + t4;
    let t2 = spec_enc_string("Scroll"@) + t3;
    assert(s =~= "{"@ + t2);
    lemma_parse_lit_rt("{"@, t2);
    lemma_parse_string_rt("Scroll"@, t3);
    lemma_token_tag_name_rt(TokenTag::Scroll);
    lemma_parse_lit_rt(":["@, t4);
    lemma_parse_int_rt(n as i64, t5);
    assert(","@ + spec_enc_axis(a) + ("]}"@ + Seq::<char>::empty()) + rest =~= t5);
    lemma_parse_opt_axis_close_rt(a, rest);
}

/// One kind of token, encoded then parsed back.
#[verifier::rlimit(100)]
proof fn lemma_parse_token_location_rt(x: i32, y: i32, rest: Seq<char>)
    ensures
        spec_parse_token(spec_enc_token(TokenV::Location(x, y)) + rest) == Some(
            (TokenV::Location(x, y), rest),
        ),
{
    reveal(crate::codec::spec_enc_token);
    reveal(crate::codec::spec_parse_token);
    reveal(crate::codec::spec_parse_opt_direction_close);
    reveal(crate::codec::spec_parse_opt_coordinate_close);
    reveal(crate::codec::spec_parse_opt_axis_close);
    reveal_strlit("{");
    reveal_strlit(":");
    reveal_strlit(":[");
    reveal_strlit(",");
    reveal_strlit("]}");
    reveal_strlit("}");
    let t = TokenV::Location(x, y);
    let s = spec_enc_token(t) + rest;
    let t7 = "]}"@ + rest;
    let t6 = spec_enc_int(y as int) + t7;
    let t5 = ","@ + t6;
    let t4 = spec_enc_int(x as int) + t5;
    let t3 = ":["@ + t4;
    let t2 = spec_enc_string("Location"@) + t3;
    assert(s =~= "{"@ + t2);
    lemma_parse_lit_rt("{"@, t2);
    lemma_parse_string_rt("Location"@, t3);
    lemma_token_tag_name_rt(TokenTag::Location);
    lemma_parse_lit_rt(":["@, t4);
    lemma_parse_int_rt(x as i64, t5);
    lemma_parse_lit_rt(","@, t6);
    lemma_parse_int_rt(y as i64, t7);
    lemma_parse_lit_rt("]}"@, rest);
}

/// One kind of token, encoded then parsed back.
#[verifier::rlimit(100)]
proof fn lemma_parse_token_maindisplay_rt(x: i32, y: i32, rest: Seq<char>)
    ensures
        spec_parse_token(spec_enc_token(TokenV::MainDisplay(x, y)) + rest) == Some(
            (TokenV::MainDisplay(x, y), rest),
        ),
{
    reveal(crate::codec::spec_enc_token);
    reveal(crate::codec::spec_parse_token);
    reveal(crate::codec::spec_parse_opt_direction_close);
    reveal(crate::codec::spec_parse_opt_coordinate_close);
    reveal(crate::codec::spec_parse_opt_axis_close);
    reveal_strlit("{");
    reveal_strlit(":");
    reveal_strlit(":[");
    reveal_strlit(",");
    reveal_strlit("]}");
    reveal_strlit("}");
    let t = TokenV::MainDisplay(x, y);
    let s = spec_enc_token(t) + rest;
    let t7 = "]}"@ + rest;
    let t6 = spec_enc_int(y as int) + t7;
    let t5 = ","@ + t6;
    let t4 = spec_enc_int(x as int) + t5;
    let t3 = ":["@ + t4;
    let t2 = spec_enc_string("MainDisplay"@) + t3;
    assert(s =~= "{"@ + t2);
    lemma_parse_lit_rt("{"@, t2);
    lemma_parse_string_rt("MainDisplay"@, t3);
    lemma_token_tag_name_rt(TokenTag::MainDisplay);
    lemma_parse_lit_rt(":["@, t4);
    lemma_parse_int_rt(x as i64, t5);
    lemma_parse_lit_rt(","@, t6);
    lemma_parse_int_rt(y as i64, t7);
    lemma_parse_lit_rt("]}"@, rest);
}

/// An encoded token parses back to itself.
pub proof fn lemma_parse_token_rt(t: TokenV, rest: Seq<char>)
    ensures
        spec_parse_token(spec_enc_token(t) + rest) == Some((t, rest)),
{
    match t {
        TokenV::Text(x) => lemma_parse_token_text_rt(x, rest),
        TokenV::Key(k, d) => lemma_parse_token_key_rt(k, d, rest),
        TokenV::Raw(c, d) => lemma_parse_token_raw_rt(c, d, rest),
        TokenV::Button(b, d) => lemma_parse_token_button_rt(b, d, rest),
        TokenV::MoveMouse(x, y, c) => lemma_parse_token_movemouse_rt(x, y, c, rest),
        TokenV::Scroll(n, a) => lemma_parse_token_scroll_rt(n, a, rest),
        TokenV::Location(x, y) => lemma_parse_token_location_rt(x, y, rest),
        TokenV::MainDisplay(x, y) => lemma_parse_token_maindisplay_rt(x, y, rest),
    }
}

// --- exec tokens --------------------------------------------------------

/// Reads a token at `i`.
#[verifier::rlimit(100)]
pub fn parse_token(s: &[char], i: usize) -> (r: Option<(Token, usize)>)
    requires
        i <= s@.len(),
    ensures
        match r {
            Some((t, j)) => i <= j <= s@.len() && spec_parse_token(s@.skip(i as int)) == Some(
                (t@, s@.skip(j as int)),
            ),
            None => spec_parse_token(s@.skip(i as int)) is None,
        },
{
    proof {
        reveal(crate::codec::spec_parse_token);
    }
    let i1 = match parse_lit(s, i, "{") {
        Some(j) => j,
        None => {
            return None;
        },
    };
    let (nm, i2) = match parse_string(s, i1) {
        Some(v) => v,
        None => {
            return None;
        },
    };
    let tag = match token_tag_of_chars(nm.as_slice()) {
        Some(t) => t,
        None => {
            return None;
        },
    };
    match tag {
        TokenTag::Text => {
            let i3 = match parse_lit(s, i2, ":") {
                Some(j) => j,
                None => {
                    return None;
                },
            };
            let (x, i4) = match parse_string(s, i3) {
                Some(v) => v,
                None => {
                    return None;
                },
            };
            let i5 = match parse_lit(s, i4, "}") {
                Some(j) => j,
                None => {
                    return None;
                },
            };
            Some((Token::Text(chars_to_string(&x)), i5))
        },
        TokenTag::Key => {
            let i3 = match parse_lit(s, i2, ":[") {
                Some(j) => j,
                None => {
                    return None;
                },
            };
            let (k, i4) = match parse_key(s, i3) {
                Some(v) => v,
                None => {
                    return None;
                },
            };
            let (d, i5) = match parse_opt_direction_close(s, i4) {
                Some(v) => v,
                None => {
                    return None;
                },
            };
            Some((Token::Key(k, d), i5))
        },
        TokenTag::Raw => {
            let i3 = match parse_lit(s, i2, ":[") {
                Some(j) => j,
                None => {
                    return None;
                },
            };
            let (c, i4) = match parse_nat(s, i3) {
                Some(v) => v,
                None => {
                    return None;
                },
            };
            if c > 0xffff {
                return None;
            }
            let (d, i5) = match parse_opt_direction_close(s, i4) {
                Some(v) => v,
                None => {
                    return None;
                },
            };
            Some((Token::Raw(c as u16, d), i5))
        },
        TokenTag::Button => {
            let i3 = match parse_lit(s, i2, ":[") {
                Some(j) => j,
                None => {
                    return None;
                },
            };
            let (b, i4) = match parse_button(s, i3) {
                Some(v) => v,
                None => {
                    return None;
                },
            };
            let (d, i5) = match parse_opt_direction_close(s, i4) {
                Some(v) => v,
                None => {
                    return None;
                },
            };
            Some((Token::Button(b, d), i5))
        },
        TokenTag::MoveMouse => {
            let i3 = match parse_lit(s, i2, ":[") {
                Some(j) => j,
                None => {
                    return None;
                },
            };
            let (x, i4) = match parse_int(s, i3) {
                Some(v) => v,
                None => {
                    return None;
                },
            };
            let i5 = match parse_lit(s, i4, ",") {
                Some(j) => j,
                None => {
                    return None;
                },
            };
            let (y, i6) = match parse_int(s, i5) {
                Some(v) => v,
                None => {
                    return None;
                },
            };
            if !(-0x8000_0000 <= x && x <= 0x7fff_ffff && -0x8000_0000 <= y && y
                <= 0x7fff_ffff) {
                return None;
            }
            let (c, i7) = match parse_opt_coordinate_close(s, i6) {
                Some(v) => v,
                None => {
                    return None;
                },
            };
            Some((Token::MoveMouse(x as i32, y as i32, c), i7))
        },
        TokenTag::Scroll => {
            let i3 = match parse_lit(s, i2, ":[") {
                Some(j) => j,
                None => {
                    return None;
                },
            };
            let (n, i4) = match parse_int(s, i3) {
                Some(v) => v,
                None => {
                    return None;
                },
            };
            if !(-0x8000_0000 <= n && n <= 0x7fff_ffff) {
                return None;
            }
            let (a, i5) = match parse_opt_axis_close(s, i4) {
                Some(v) => v,
                None => {
                    return None;
                },
            };
            Some((Token::Scroll(n as i32, a), i5))
        },
        TokenTag::Location => {
            let i3 = match parse_lit(s, i2, ":[") {
                Some(j) => j,
                None => {
                    return None;
                },
            };
            let (x, i4) = match parse_int(s, i3) {
                Some(v) => v,
                None => {
                    return None;
                },
            };
            let i5 = match parse_lit(s, i4, ",") {
                Some(j) => j,
                None => {
                    return None;
                },
            };
            let (y, i6) = match parse_int(s, i5) {
                Some(v) => v,
                None => {
                    return None;
                },
            };
            if !(-0x8000_0000 <= x && x <= 0x7fff_ffff && -0x8000_0000 <= y && y
                <= 0x7fff_ffff) {
                return None;
            }
            let i7 = match parse_lit(s, i6, "]}") {
                Some(j) => j,
                None => {
                    return None;
                },
            };
            Some((Token::Location(x as i32, y as i32), i7))
        },
        TokenTag::MainDisplay => {
            let i3 = match parse_lit(s, i2, ":[") {
                Some(j) => j,
                None => {
                    return None;
                },
            };
            let (x, i4) = match parse_int(s, i3) {
                Some(v) => v,
                None => {
                    return None;
                },
            };
            let i5 = match parse_lit(s, i4, ",") {
                Some(j) => j,
                None => {
                    return None;
                },
            };
            let (y, i6) = match parse_int(s, i5) {
                Some(v) => v,
                None => {
                    return None;
                },
            };
            if !(-0x8000_0000 <= x && x <= 0x7fff_ffff && -0x8000_0000 <= y && y
                <= 0x7fff_ffff) {
                return None;
            }
            let i7 = match parse_lit(s, i6, "]}") {
                Some(j) => j,
                None => {
                    return None;
                },
            };
            Some((Token::MainDisplay(x as i32, y as i32), i7))
        },
    }
}

/// Reads the optional `,direction` and the closing `]}` at `i`.
fn parse_opt_direction_close(s: &[char], i: usize) -> (r: Option<(Direction, usize)>)
    requires
        i <= s@.len(),
    ensures
        match r {
            Some((d, j)) => i <= j <= s@.len() && spec_parse_opt_direction_close(
                s@.skip(i as int),
            ) == Some((d, s@.skip(j as int))),
            None => spec_parse_opt_direction_close(s@.skip(i as int)) is None,
        },
{
    proof {
        reveal(crate::codec::spec_parse_opt_direction_close);
    }
    if i < s.len() && s[i] == ',' {
        proof {
            assert(s@.skip(i as int)[0] == ',');
            assert(s@.skip(i as int).skip(1) =~= s@.skip(i + 1));
        }
        let (d, j) = match parse_direction(s, i + 1) {
            Some(v) => v,
            None => {
                return None;
            },
        };
        match parse_lit(s, j, "]}") {
            Some(j2) => Some((d, j2)),
            None => None,
        }
    } else {
        proof {
            if i < s@.len() {
                assert(s@.skip(i as int)[0] == s@[i as int]);
            }
        }
        match parse_lit(s, i, "]}") {
            Some(j) => Some((Direction::Click, j)),
            None => None,
        }
    }
}

/// Reads the optional `,coordinate` and the closing `]}` at `i`.
fn parse_opt_coordinate_close(s: &[char], i: usize) -> (r: Option<(Coordinate, usize)>)
    requires
        i <= s@.len(),
    ensures
        match r {
            Some((d, j)) => i <= j <= s@.len() && spec_parse_opt_coordinate_close(
                s@.skip(i as int),
            ) == Some((d, s@.skip(j as int))),
            None => spec_parse_opt_coordinate_close(s@.skip(i as int)) is None,
        },
{
    proof {
        reveal(crate::codec::spec_parse_opt_coordinate_close);
    }
    if i < s.len() && s[i] == ',' {
        proof {
            assert(s@.skip(i as int)[0] == ',');
            assert(s@.skip(i as int).skip(1) =~= s@.skip(i + 1));
        }
        let (d, j) = match parse_coordinate(s, i + 1) {
            Some(v) => v,
            None => {
                return None;
            },
        };
        match parse_lit(s, j, "]}") {
            Some(j2) => Some((d, j2)),
            None => None,
        }
    } else {
        proof {
            if i < s@.len() {
                assert(s@.skip(i as int)[0] == s@[i as int]);
            }
        }
        match parse_lit(s, i, "]}") {
            Some(j) => Some((Coordinate::Abs, j)),
            None => None,
        }
    }
}

/// Reads the optional `,axis` and the closing `]}` at `i`.
fn parse_opt_axis_close(s: &[char], i: usize) -> (r: Option<(Axis, usize)>)
    requires
        i <= s@.len(),
    ensures
        match r {
            Some((d, j)) => i <= j <= s@.len() && spec_parse_opt_axis_close(s@.skip(i as int))
                == Some((d, s@.skip(j as int))),
            None => spec_parse_opt_axis_close(s@.skip(i as int)) is None,
        },
{
    proof {
        reveal(crate::codec::spec_parse_opt_axis_close);
    }
    if i < s.len() && s[i] == ',' {
        proof {
            assert(s@.skip(i as int)[0] == ',');
            assert(s@.skip(i as int).skip(1) =~= s@.skip(i + 1));
        }
        let (d, j) = match parse_axis(s, i + 1) {
            Some(v) => v,
            None => {
                return None;
            },
        };
        match parse_lit(s, j, "]}") {
            Some(j2) => Some((d, j2)),
            None => None,
        }
    } else {
        proof {
            if i < s@.len() {
                assert(s@.skip(i as int)[0] == s@[i as int]);
            }
        }
        match parse_lit(s, i, "]}") {
            Some(j) => Some((Axis::Vertical, j)),
            None => None,
        }
    }
}

/// One kind of token, spelled.
#[verifier::rlimit(100)]
fn enc_token_text(out: &mut Vec<char>, x: &String)
    ensures
        final(out)@ == old(out)@ + spec_enc_token(TokenV::Text(x@)),
{
    proof {
        reveal(crate::codec::spec_enc_token);
    }
    out.push('{');
    proof {
        reveal_strlit("{");
        assert(out@ =~= old(out)@ + "{"@);
    }
    enc_string(out, "Text");
    push_lit(out, ":");
    enc_string(out, x.as_str());
    push_lit(out, "}");
    proof {
        assert(out@ =~= old(out)@ + spec_enc_token(TokenV::Text(x@)));
    }
}

/// One kind of token, spelled.
#[verifier::rlimit(100)]
fn enc_token_key(out: &mut Vec<char>, k: &Key, d: &Direction)
    ensures
        final(out)@ == old(out)@ + spec_enc_token(TokenV::Key(*k, *d)),
{
    proof {
        reveal(crate::codec::spec_enc_token);
    }
    out.push('{');
    proof {
        reveal_strlit("{");
        assert(out@ =~= old(out)@ + "{"@);
    }
    enc_string(out, "Key");
    push_lit(out, ":[");
    enc_key(out, k);
    push_lit(out, ",");
    enc_direction(out, d);
    push_lit(out, "]}");
    proof {
        assert(out@ + Seq::<char>::empty() =~= out@);
        assert(out@ =~= old(out)@ + spec_enc_token(TokenV::Key(*k, *d)));
    }
}

/// One kind of token, spelled.
#[verifier::rlimit(100)]
fn enc_token_raw(out: &mut Vec<char>, c: u16, d: &Direction)
    ensures
        final(out)@ == old(out)@ + spec_enc_token(TokenV::Raw(c, *d)),
{
    proof {
        reveal(crate::codec::spec_enc_token);
    }
    out.push('{');
    proof {
        reveal_strlit("{");
        assert(out@ =~= old(out)@ + "{"@);
    }
    enc_string(out, "Raw");
    push_lit(out, ":[");
    enc_nat(out, c as u64);
    push_lit(out, ",");
    enc_direction(out, d);
    push_lit(out, "]}");
    proof {
        assert(out@ + Seq::<char>::empty() =~= out@);
        assert(out@ =~= old(out)@ + spec_enc_token(TokenV::Raw(c, *d)));
    }
}

/// One kind of token, spelled.
#[verifier::rlimit(100)]
fn enc_token_button(out: &mut Vec<char>, b: &Button, d: &Direction)
    ensures
        final(out)@ == old(out)@ + spec_enc_token(TokenV::Button(*b, *d)),
{
    proof {
        reveal(crate::codec::spec_enc_token);
    }
    out.push('{');
    proof {
        reveal_strlit("{");
        assert(out@ =~= old(out)@ + "{"@);
    }
    enc_string(out, "Button");
    push_lit(out, ":[");
    enc_button(out, b);
    push_lit(out, ",");
    enc_direction(out, d);
    push_lit(out, "]}");
    proof {
        assert(out@ + Seq::<char>::empty() =~= out@);
        assert(out@ =~= old(out)@ + spec_enc_token(TokenV::Button(*b, *d)));
    }
}

/// One kind of token, spelled.
#[verifier::rlimit(100)]
fn enc_token_movemouse(out: &mut Vec<char>, x: i32, y: i32, c: &Coordinate)
    ensures
        final(out)@ == old(out)@ + spec_enc_token(TokenV::MoveMouse(x, y, *c)),
{
    proof {
        reveal(crate::codec::spec_enc_token);
    }
    out.push('{');
    proof {
        reveal_strlit("{");
        assert(out@ =~= old(out)@ + "{"@);
    }
    enc_string(out, "MoveMouse");
    push_lit(out, ":[");
    enc_int(out, x as i64);
    push_lit(out, ",");
    enc_int(out, y as i64);
    push_lit(out, ",");
    enc_coordinate(out, c);
    push_lit(out, "]}");
    proof {
        assert(out@ + Seq::<char>::empty() =~= out@);
        assert(out@ =~= old(out)@ + spec_enc_token(TokenV::MoveMouse(x, y, *c)));
    }
}

/// One kind of token, spelled.
#[verifier::rlimit(100)]
fn enc_token_scroll(out: &mut Vec<char>, n: i32, a: &Axis)
    ensures
        final(out)@ == old(out)@ + spec_enc_token(TokenV::Scroll(n, *a)),
{
    proof {
        reveal(crate::codec::spec_enc_token);
    }
    out.push('{');
    proof {
        reveal_strlit("{");
        assert(out@ =~= old(out)@ + "{"@);
    }
    enc_string(out, "Scroll");
    push_lit(out, ":[");
    enc_int(out, n as i64);
    push_lit(out, ",");
    enc_axis(out, a);
    push_lit(out, "]}");
    proof {
        assert(out@ + Seq::<char>::empty() =~= out@);
        assert(out@ =~= old(out)@ + spec_enc_token(TokenV::Scroll(n, *a)));
    }
}

/// One kind of token, spelled.
#[verifier::rlimit(100)]
fn enc_token_location(out: &mut Vec<char>, x: i32, y: i32)
    ensures
        final(out)@ == old(out)@ + spec_enc_token(TokenV::Location(x, y)),
{
    proof {
        reveal(crate::codec::spec_enc_token);
    }
    out.push('{');
    proof {
        reveal_strlit("{");
        assert(out@ =~= old(out)@ + "{"@);
    }
    enc_string(out, "Location");
    push_lit(out, ":[");
    enc_int(out, x as i64);
    push_lit(out, ",");
    enc_int(out, y as i64);
    push_lit(out, "]}");
    proof {
        assert(out@ =~= old(out)@ + spec_enc_token(TokenV::Location(x, y)));
    }
}

/// One kind of token, spelled.
#[verifier::rlimit(100)]
fn enc_token_maindisplay(out: &mut Vec<char>, x: i32, y: i32)
    ensures
        final(out)@ == old(out)@ + spec_enc_token(TokenV::MainDisplay(x, y)),
{
    proof {
        reveal(crate::codec::spec_enc_token);
    }
    out.push('{');
    proof {
        reveal_strlit("{");
        assert(out@ =~= old(out)@ + "{"@);
    }
    enc_string(out, "MainDisplay");
    push_lit(out, ":[");
    enc_int(out, x as i64);
    push_lit(out, ",");
    enc_int(out, y as i64);
    push_lit(out, "]}");
    proof {
        assert(out@ =~= old(out)@ + spec_enc_token(TokenV::MainDisplay(x, y)));
    }
}

/// Appends the spelling of a token.
pub fn enc_token(out: &mut Vec<char>, t: &Token)
    ensures
        final(out)@ == old(out)@ + spec_enc_token(t@),
{
    match t {
        Token::Text(x) => enc_token_text(out, x),
        Token::Key(k, d) => enc_token_key(out, k, d),
        Token::Raw(c, d) => enc_token_raw(out, *c, d),
        Token::Button(b, d) => enc_token_button(out, b, d),
        Token::MoveMouse(x, y, c) => enc_token_movemouse(out, *x, *y, c),
        Token::Scroll(n, a) => enc_token_scroll(out, *n, a),
        Token::Location(x, y) => enc_token_location(out, *x, *y),
        Token::MainDisplay(x, y) => enc_token_maindisplay(out, *x, *y),
    }
}
/// The message a payload-free wire name denotes.
pub open spec fn spec_input_unit_msg(u: InputUnit) -> InputMessageV {
    match u {
        InputUnit::GetScreens => InputMessageV::GetScreens,
        InputUnit::GetMainScreen => InputMessageV::GetMainScreen,
        InputUnit::GetMouseLocation => InputMessageV::GetMouseLocation,
        InputUnit::GetClipboardText => InputMessageV::GetClipboardText,
    }
}

/// A request or response spells as its bare quoted name, or as an
/// object whose key names its kind.
#[verifier::opaque]
pub open spec fn spec_enc_input(m: InputMessageV) -> Seq<char> {
    match m {
        InputMessageV::GetScreens => spec_enc_string("GetScreens"@),
        InputMessageV::GetMainScreen => spec_enc_string("GetMainScreen"@),
        InputMessageV::GetMouseLocation => spec_enc_string("GetMouseLocation"@),
        InputMessageV::GetClipboardText => spec_enc_string("GetClipboardText"@),
        InputMessageV::CaptureScreen { name } => "{"@ + spec_enc_string("CaptureScreen"@) + ":{\"name\":"@ + spec_enc_string(name) + "}}"@,
        InputMessageV::DoInput(a0) => "{"@ + spec_enc_string("DoInput"@) + ":"@ + spec_enc_token(a0) + "}"@,
        InputMessageV::DoTypeText(a0) => "{"@ + spec_enc_string("DoTypeText"@) + ":"@ + spec_enc_string(a0) + "}"@,
        InputMessageV::FindText { text, screen_name, timeout_millis } => "{"@ + spec_enc_string("FindText"@) + ":{\"text\":"@ + spec_enc_string(text) + ",\"screen_name\":"@ + spec_enc_string(screen_name) + ",\"timeout_in_seconds\":"@ + spec_enc_milli(timeout_millis as int) + "}}"@,
        InputMessageV::FindImage { screen_name, image, quality, filter } => "{"@ + spec_enc_string("FindImage"@) + ":{\"screen_name\":"@ + spec_enc_string(screen_name) + ",\"image\":"@ + spec_enc_image(image) + ",\"quality\":"@ + spec_enc_quality(quality) + ",\"filter\":"@ + spec_enc_filter(filter) + "}}"@,
        InputMessageV::SetClipboardText(a0) => "{"@ + spec_enc_string("SetClipboardText"@) + ":"@ + spec_enc_string(a0) + "}"@,
    }
}

/// `Some((message, rest))` when `s` starts with a message.
#[verifier::opaque]
pub open spec fn spec_parse_input(s: Seq<char>) -> Option<(InputMessageV, Seq<char>)> {
    if s.len() > 0 && s[0] == '"' {
        match spec_parse_string(s) {
            Some((t, rest)) => match spec_input_unit_of_name(t) {
                Some(u) => Some((spec_input_unit_msg(u), rest)),
                None => None,
            },
            None => None,
        }
    } else {
        match spec_parse_lit(s, "{"@) {
            Some(s1) => match spec_parse_string(s1) {
                Some((nm, s2)) => match spec_input_tag_of_name(nm) {
                    Some(InputTag::CaptureScreen) => {
                        match spec_parse_lit(s2, ":{\"name\":"@) {
                            Some(s3) => {
                                match spec_parse_string(s3) {
                                    Some((name_v, s4)) => {
                                        match spec_parse_lit(s4, "}}"@) {
                                            Some(s5) => {
                                                Some((InputMessageV::CaptureScreen { name: name_v }, s5))
                                            },
                                            None => None,
                                        }
                                    },
                                    None => None,
                                }
                            },
                            None => None,
                        }
                    },
                    Some(InputTag::DoInput) => {
                        match spec_parse_lit(s2, ":"@) {
                            Some(s3) => {
                                match spec_parse_token(s3) {
                                    Some((a0_v, s4)) => {
                                        match spec_parse_lit(s4, "}"@) {
                                            Some(s5) => {
                                                Some((InputMessageV::DoInput(a0_v), s5))
                                            },
                                            None => None,
                                        }
                                    },
                                    None => None,
                                }
                            },
                            None => None,
                        }
                    },
                    Some(InputTag::DoTypeText) => {
                        match spec_parse_lit(s2, ":"@) {
                            Some(s3) => {
                                match spec_parse_string(s3) {
                                    Some((a0_v, s4)) => {
                                        match spec_parse_lit(s4, "}"@) {
                                            Some(s5) => {
                                                Some((InputMessageV::DoTypeText(a0_v), s5))
                                            },
                                            None => None,
                                        }
                                    },
                                    None => None,
                                }
                            },
                            None => None,
                        }
                    },
                    Some(InputTag::FindText) => {
                        match spec_parse_lit(s2, ":{\"text\":"@) {
                            Some(s3) => {
                                match spec_parse_string(s3) {
                                    Some((text_v, s4)) => {
                                        match spec_parse_lit(s4, ",\"screen_name\":"@) {
                                            Some(s5) => {
                                                match spec_parse_string(s5) {
                                                    Some((screen_name_v, s6)) => {
                                                        match spec_parse_lit(s6, ",\"timeout_in_seconds\":"@) {
                                                            Some(s7) => {
                                                                match spec_parse_milli(s7) {
                                                                    Some((timeout_millis_v, s8)) => {
                                                                        if !(timeout_millis_v <= 0xffff_ffff) {
                                                                            None
                                                                        } else {
                                                                            match spec_parse_lit(s8, "}}"@) {
                                                                                Some(s9) => {
                                                                                    Some((InputMessageV::FindText { text: text_v, screen_name: screen_name_v, timeout_millis: timeout_millis_v as u32 }, s9))
                                                                                },
                                                                                None => None,
                                                                            }
                                                                        }
                                                                    },
                                                                    None => None,
                                                                }
                                                            },
                                                            None => None,
                                                        }
                                                    },
                                                    None => None,
                                                }
                                            },
                                            None => None,
                                        }
                                    },
                                    None => None,
                                }
                            },
                            None => None,
                        }
                    },
                    Some(InputTag::FindImage) => {
                        match spec_parse_lit(s2, ":{\"screen_name\":"@) {
                            Some(s3) => {
                                match spec_parse_string(s3) {
                                    Some((screen_name_v, s4)) => {
                                        match spec_parse_lit(s4, ",\"image\":"@) {
                                            Some(s5) => {
                                                match spec_parse_image(s5) {
                                                    Some((image_v, s6)) => {
                                                        match spec_parse_lit(s6, ",\"quality\":"@) {
                                                            Some(s7) => {
                                                                match spec_parse_quality(s7) {
                                                                    Some((quality_v, s8)) => {
                                                                        match spec_parse_lit(s8, ",\"filter\":"@) {
                                                                            Some(s9) => {
                                                                                match spec_parse_filter(s9) {
                                                                                    Some((filter_v, s10)) => {
                                                                                        match spec_parse_lit(s10, "}}"@) {
                                                                                            Some(s11) => {
                                                                                                Some((InputMessageV::FindImage { screen_name: screen_name_v, image: image_v, quality: quality_v, filter: filter_v }, s11))
                                                                                            },
                                                                                            None => None,
                                                                                        }
                                                                                    },
                                                                                    None => None,
                                                                                }
                                                                            },
                                                                            None => None,
                                                                        }
                                                                    },
                                                                    None => None,
                                                                }
                                                            },
                                                            None => None,
                                                        }
                                                    },
                                                    None => None,
                                                }
                                            },
                                            None => None,
                                        }
                                    },
                                    None => None,
                                }
                            },
                            None => None,
                        }
                    },
                    Some(InputTag::SetClipboardText) => {
                        match spec_parse_lit(s2, ":"@) {
                            Some(s3) => {
                                match spec_parse_string(s3) {
                                    Some((a0_v, s4)) => {
                                        match spec_parse_lit(s4, "}"@) {
                                            Some(s5) => {
                                                Some((InputMessageV::SetClipboardText(a0_v), s5))
                                            },
                                            None => None,
                                        }
                                    },
                                    None => None,
                                }
                            },
                            None => None,
                        }
                    },
                    None => None,
                },
                None => None,
            },
            None => None,
        }
    }
}

/// The message a payload-free wire name denotes.
pub open spec fn spec_output_unit_msg(u: OutputUnit) -> OutputMessageV {
    match u {
        OutputUnit::DidInput => OutputMessageV::DidInput,
        OutputUnit::DidTypeText => OutputMessageV::DidTypeText,
        OutputUnit::DidSetClipboardText => OutputMessageV::DidSetClipboardText,
    }
}

/// A request or response spells as its bare quoted name, or as an
/// object whose key names its kind.
#[verifier::opaque]
pub open spec fn spec_enc_output(m: OutputMessageV) -> Seq<char> {
    match m {
        OutputMessageV::DidInput => spec_enc_string("DidInput"@),
        OutputMessageV::DidTypeText => spec_enc_string("DidTypeText"@),
        OutputMessageV::DidSetClipboardText => spec_enc_string("DidSetClipboardText"@),
        OutputMessageV::GotScreens(a0) => "{"@ + spec_enc_string("GotScreens"@) + ":"@ + spec_enc_screens(a0) + "}"@,
        OutputMessageV::GotMainScreen(a0) => "{"@ + spec_enc_string("GotMainScreen"@) + ":"@ + spec_enc_screen(a0) + "}"@,
        OutputMessageV::CapturedScreen { image_buffer } => "{"@ + spec_enc_string("CapturedScreen"@) + ":{\"image_buffer\":"@ + spec_enc_image(image_buffer) + "}}"@,
        OutputMessageV::GotMouseLocation(a0) => "{"@ + spec_enc_string("GotMouseLocation"@) + ":"@ + spec_enc_point(a0) + "}"@,
        OutputMessageV::FoundText { locations } => "{"@ + spec_enc_string("FoundText"@) + ":{\"locations\":"@ + spec_enc_rects(locations) + "}}"@,
        OutputMessageV::FoundImage { locations } => "{"@ + spec_enc_string("FoundImage"@) + ":{\"locations\":"@ + spec_enc_rects(locations) + "}}"@,
        OutputMessageV::GotClipboardText(a0) => "{"@ + spec_enc_string("GotClipboardText"@) + ":"@ + spec_enc_string(a0) + "}"@,
        OutputMessageV::Error(a0) => "{"@ + spec_enc_string("Error"@) + ":"@ + spec_enc_string(a0) + "}"@,
    }
}

/// `Some((message, rest))` when `s` starts with a message.
#[verifier::opaque]
pub open spec fn spec_parse_output(s: Seq<char>) -> Option<(OutputMessageV, Seq<char>)> {
    if s.len() > 0 && s[0] == '"' {
        match spec_parse_string(s) {
            Some((t, rest)) => match spec_output_unit_of_name(t) {
                Some(u) => Some((spec_output_unit_msg(u), rest)),
                None => None,
            },
            None => None,
        }
    } else {
        match spec_parse_lit(s, "{"@) {
            Some(s1) => match spec_parse_string(s1) {
                Some((nm, s2)) => match spec_output_tag_of_name(nm) {
                    Some(OutputTag::GotScreens) => {
                        match spec_parse_lit(s2, ":"@) {
                            Some(s3) => {
                                match spec_parse_screens(s3) {
                                    Some((a0_v, s4)) => {
                                        match spec_parse_lit(s4, "}"@) {
                                            Some(s5) => {
                                                Some((OutputMessageV::GotScreens(a0_v), s5))
                                            },
                                            None => None,
                                        }
                                    },
                                    None => None,
                                }
                            },
                            None => None,
                        }
                    },
                    Some(OutputTag::GotMainScreen) => {
                        match spec_parse_lit(s2, ":"@) {
                            Some(s3) => {
                                match spec_parse_screen(s3) {
                                    Some((a0_v, s4)) => {
                                        match spec_parse_lit(s4, "}"@) {
                                            Some(s5) => {
                                                Some((OutputMessageV::GotMainScreen(a0_v), s5))
                                            },
                                            None => None,
                                        }
                                    },
                                    None => None,
                                }
                            },
                            None => None,
                        }
                    },
                    Some(OutputTag::CapturedScreen) => {
                        match spec_parse_lit(s2, ":{\"image_buffer\":"@) {
                            Some(s3) => {
                                match spec_parse_image(s3) {
                                    Some((image_buffer_v, s4)) => {
                                        match spec_parse_lit(s4, "}}"@) {
                                            Some(s5) => {
                                                Some((OutputMessageV::CapturedScreen { image_buffer: image_buffer_v }, s5))
                                            },
                                            None => None,
                                        }
                                    },
                                    None => None,
                                }
                            },
                            None => None,
                        }
                    },
                    Some(OutputTag::GotMouseLocation) => {
                        match spec_parse_lit(s2, ":"@) {
                            Some(s3) => {
                                match spec_parse_point(s3) {
                                    Some((a0_v, s4)) => {
                                        match spec_parse_lit(s4, "}"@) {
                                            Some(s5) => {
                                                Some((OutputMessageV::GotMouseLocation(a0_v), s5))
                                            },
                                            None => None,
                                        }
                                    },
                                    None => None,
                                }
                            },
                            None => None,
                        }
                    },
                    Some(OutputTag::FoundText) => {
                        match spec_parse_lit(s2, ":{\"locations\":"@) {
                            Some(s3) => {
                                match spec_parse_rects(s3) {
                                    Some((locations_v, s4)) => {
                                        match spec_parse_lit(s4, "}}"@) {
                                            Some(s5) => {
                                                Some((OutputMessageV::FoundText { locations: locations_v }, s5))
                                            },
                                            None => None,
                                        }
                                    },
                                    None => None,
                                }
                            },
                            None => None,
                        }
                    },
                    Some(OutputTag::FoundImage) => {
                        match spec_parse_lit(s2, ":{\"locations\":"@) {
                            Some(s3) => {
                                match spec_parse_rects(s3) {
                                    Some((locations_v, s4)) => {
                                        match spec_parse_lit(s4, "}}"@) {
                                            Some(s5) => {
                                                Some((OutputMessageV::FoundImage { locations: locations_v }, s5))
                                            },
                                            None => None,
                                        }
                                    },
                                    None => None,
                                }
                            },
                            None => None,
                        }
                    },
                    Some(OutputTag::GotClipboardText) => {
                        match spec_parse_lit(s2, ":"@) {
                            Some(s3) => {
                                match spec_parse_string(s3) {
                                    Some((a0_v, s4)) => {
                                        match spec_parse_lit(s4, "}"@) {
                                            Some(s5) => {
                                                Some((OutputMessageV::GotClipboardText(a0_v), s5))
                                            },
                                            None => None,
                                        }
                                    },
                                    None => None,
                                }
                            },
                            None => None,
                        }
                    },
                    Some(OutputTag::ErrorReply) => {
                        match spec_parse_lit(s2, ":"@) {
                            Some(s3) => {
                                match spec_parse_string(s3) {
                                    Some((a0_v, s4)) => {
                                        match spec_parse_lit(s4, "}"@) {
                                            Some(s5) => {
                                                Some((OutputMessageV::Error(a0_v), s5))
                                            },
                                            None => None,
                                        }
                                    },
                                    None => None,
                                }
                            },
                            None => None,
                        }
                    },
                    None => None,
                },
                None => None,
            },
            None => None,
        }
    }
}

/// Every screen, rectangle, image and filter the message holds keeps
/// its own invariant.
pub open spec fn wf_input(m: InputMessageV) -> bool {
    match m {
        InputMessageV::FindImage { screen_name, image, quality, filter } => image.wf() && filter.wf(),
        _ => true,
    }
}

/// One kind of message, encoded then parsed back.
#[verifier::rlimit(100)]
proof fn lemma_parse_input_capturescreen_rt(name: Seq<char>, rest: Seq<char>)
    ensures
        spec_parse_input(spec_enc_input(InputMessageV::CaptureScreen { name }) + rest) == Some((InputMessageV::CaptureScreen { name }, rest)),
{
    reveal(crate::codec::spec_enc_input);
    reveal(crate::codec::spec_parse_input);
    reveal_strlit("{");
    reveal_strlit(":{\"name\":");
    reveal_strlit("}}");
    let m = InputMessageV::CaptureScreen { name };
    let s = spec_enc_input(m) + rest;
    let t3 = rest;
    let t2 = "}}"@ + t3;
    let t1 = spec_enc_string(name) + t2;
    let t0 = ":{\"name\":"@ + t1;
    let tname = spec_enc_string("CaptureScreen"@) + t0;
    assert(s =~= "{"@ + tname);
    assert(s[0] == '{');
    lemma_parse_lit_rt("{"@, tname);
    lemma_parse_string_rt("CaptureScreen"@, t0);
    lemma_input_tag_name_rt(InputTag::CaptureScreen);
    lemma_parse_lit_rt(":{\"name\":"@, t1);
    lemma_parse_string_rt(name, t2);
    lemma_parse_lit_rt("}}"@, t3);
}

/// One kind of message, encoded then parsed back.
#[verifier::rlimit(100)]
proof fn lemma_parse_input_doinput_rt(a0: TokenV, rest: Seq<char>)
    ensures
        spec_parse_input(spec_enc_input(InputMessageV::DoInput(a0)) + rest) == Some((InputMessageV::DoInput(a0), rest)),
{
    reveal(crate::codec::spec_enc_input);
    reveal(crate::codec::spec_parse_input);
    reveal_strlit("{");
    reveal_strlit(":");
    reveal_strlit("}");
    let m = InputMessageV::DoInput(a0);
    let s = spec_enc_input(m) + rest;
    let t3 = rest;
    let t2 = "}"@ + t3;
    let t1 = spec_enc_token(a0) + t2;
    let t0 = ":"@ + t1;
    let tname = spec_enc_string("DoInput"@) + t0;
    assert(s =~= "{"@ + tname);
    assert(s[0] == '{');
    lemma_parse_lit_rt("{"@, tname);
    lemma_parse_string_rt("DoInput"@, t0);
    lemma_input_tag_name_rt(InputTag::DoInput);
    lemma_parse_lit_rt(":"@, t1);
    lemma_parse_token_rt(a0, t2);
    lemma_parse_lit_rt("}"@, t3);
}

/// One kind of message, encoded then parsed back.
#[verifier::rlimit(100)]
proof fn lemma_parse_input_dotypetext_rt(a0: Seq<char>, rest: Seq<char>)
    ensures
        spec_parse_input(spec_enc_input(InputMessageV::DoTypeText(a0)) + rest) == Some((InputMessageV::DoTypeText(a0), rest)),
{
    reveal(crate::codec::spec_enc_input);
    reveal(crate::codec::spec_parse_input);
    reveal_strlit("{");
    reveal_strlit(":");
    reveal_strlit("}");
    let m = InputMessageV::DoTypeText(a0);
    let s = spec_enc_input(m) + rest;
    let t3 = rest;
    let t2 = "}"@ + t3;
    let t1 = spec_enc_string(a0) + t2;
    let t0 = ":"@ + t1;
    let tname = spec_enc_string("DoTypeText"@) + t0;
    assert(s =~= "{"@ + tname);
    assert(s[0] == '{');
    lemma_parse_lit_rt("{"@, tname);
    lemma_parse_string_rt("DoTypeText"@, t0);
    lemma_input_tag_name_rt(InputTag::DoTypeText);
    lemma_parse_lit_rt(":"@, t1);
    lemma_parse_string_rt(a0, t2);
    lemma_parse_lit_rt("}"@, t3);
}

/// One kind of message, encoded then parsed back.
#[verifier::rlimit(100)]
proof fn lemma_parse_input_findtext_rt(text: Seq<char>, screen_name: Seq<char>, timeout_millis: u32, rest: Seq<char>)
    ensures
        spec_parse_input(spec_enc_input(InputMessageV::FindText { text, screen_name, timeout_millis }) + rest) == Some((InputMessageV::FindText { text, screen_name, timeout_millis }, rest)),
{
    reveal(crate::codec::spec_enc_input);
    reveal(crate::codec::spec_parse_input);
    reveal_strlit("{");
    reveal_strlit(":{\"text\":");
    reveal_strlit(",\"screen_name\":");
    reveal_strlit(",\"timeout_in_seconds\":");
    reveal_strlit("}}");
    let m = InputMessageV::FindText { text, screen_name, timeout_millis };
    let s = spec_enc_input(m) + rest;
    let t7 = rest;
    let t6 = "}}"@ + t7;
    let t5 = spec_enc_milli(timeout_millis as int) + t6;
    let t4 = ",\"timeout_in_seconds\":"@ + t5;
    let t3 = spec_enc_string(screen_name) + t4;
    let t2 = ",\"screen_name\":"@ + t3;
    let t1 = spec_enc_string(text) + t2;
    let t0 = ":{\"text\":"@ + t1;
    let tname = spec_enc_string("FindText"@) + t0;
    assert(s =~= "{"@ + tname);
    assert(s[0] == '{');
    lemma_parse_lit_rt("{"@, tname);
    lemma_parse_string_rt("FindText"@, t0);
    lemma_input_tag_name_rt(InputTag::FindText);
    lemma_parse_lit_rt(":{\"text\":"@, t1);
    lemma_parse_string_rt(text, t2);
    lemma_parse_lit_rt(",\"screen_name\":"@, t3);
    lemma_parse_string_rt(screen_name, t4);
    lemma_parse_lit_rt(",\"timeout_in_seconds\":"@, t5);
    lemma_parse_milli_rt(timeout_millis as u64, t6);
    lemma_parse_lit_rt("}}"@, t7);
}

/// One kind of message, encoded then parsed back.
#[verifier::rlimit(100)]
proof fn lemma_parse_input_findimage_rt(screen_name: Seq<char>, image: ImageBufferV, quality: FindImageQuality, filter: FindImageFilter, rest: Seq<char>)
    requires
        image.wf(),
        filter.wf(),
    ensures
        spec_parse_input(spec_enc_input(InputMessageV::FindImage { screen_name, image, quality, filter }) + rest) == Some((InputMessageV::FindImage { screen_name, image, quality, filter }, rest)),
{
    reveal(crate::codec::spec_enc_input);
    reveal(crate::codec::spec_parse_input);
    reveal_strlit("{");
    reveal_strlit(":{\"screen_name\":");
    reveal_strlit(",\"image\":");
    reveal_strlit(",\"quality\":");
    reveal_strlit(",\"filter\":");
    reveal_strlit("}}");
    let m = InputMessageV::FindImage { screen_name, image, quality, filter };
    let s = spec_enc_input(m) + rest;
    let t9 = rest;
    let t8 = "}}"@ + t9;
    let t7 = spec_enc_filter(filter) + t8;
    let t6 = ",\"filter\":"@ + t7;
    let t5 = spec_enc_quality(quality) + t6;
    let t4 = ",\"quality\":"@ + t5;
    let t3 = spec_enc_image(image) + t4;
    let t2 = ",\"image\":"@ + t3;
    let t1 = spec_enc_string(screen_name) + t2;
    let t0 = ":{\"screen_name\":"@ + t1;
    let tname = spec_enc_string("FindImage"@) + t0;
    assert(s =~= "{"@ + tname);
    assert(s[0] == '{');
    lemma_parse_lit_rt("{"@, tname);
    lemma_parse_string_rt("FindImage"@, t0);
    lemma_input_tag_name_rt(InputTag::FindImage);
    lemma_parse_lit_rt(":{\"screen_name\":"@, t1);
    lemma_parse_string_rt(screen_name, t2);
    lemma_parse_lit_rt(",\"image\":"@, t3);
    lemma_parse_image_rt(image, t4);
    lemma_parse_lit_rt(",\"quality\":"@, t5);
    lemma_parse_quality_rt(quality, t6);
    lemma_parse_lit_rt(",\"filter\":"@, t7);
    lemma_parse_filter_rt(filter, t8);
    lemma_parse_lit_rt("}}"@, t9);
}

/// One kind of message, encoded then parsed back.
#[verifier::rlimit(100)]
proof fn lemma_parse_input_setclipboardtext_rt(a0: Seq<char>, rest: Seq<char>)
    ensures
        spec_parse_input(spec_enc_input(InputMessageV::SetClipboardText(a0)) + rest) == Some((InputMessageV::SetClipboardText(a0), rest)),
{
    reveal(crate::codec::spec_enc_input);
    reveal(crate::codec::spec_parse_input);
    reveal_strlit("{");
    reveal_strlit(":");
    reveal_strlit("}");
    let m = InputMessageV::SetClipboardText(a0);
    let s = spec_enc_input(m) + rest;
    let t3 = rest;
    let t2 = "}"@ + t3;
    let t1 = spec_enc_string(a0) + t2;
    let t0 = ":"@ + t1;
    let tname = spec_enc_string("SetClipboardText"@) + t0;
    assert(s =~= "{"@ + tname);
    assert(s[0] == '{');
    lemma_parse_lit_rt("{"@, tname);
    lemma_parse_string_rt("SetClipboardText"@, t0);
    lemma_input_tag_name_rt(InputTag::SetClipboardText);
    lemma_parse_lit_rt(":"@, t1);
    lemma_parse_string_rt(a0, t2);
    lemma_parse_lit_rt("}"@, t3);
}

/// A payload-free message, encoded then parsed back.
proof fn lemma_parse_input_unit_rt(u: InputUnit, rest: Seq<char>)
    ensures
        spec_parse_input(spec_enc_input(spec_input_unit_msg(u)) + rest) == Some(
            (spec_input_unit_msg(u), rest),
        ),
{
    reveal(crate::codec::spec_enc_input);
    reveal(crate::codec::spec_parse_input);
    match u {
        InputUnit::GetScreens => {
            let s = spec_enc_input(spec_input_unit_msg(u)) + rest;
            assert(s[0] == '"');
            lemma_parse_string_rt("GetScreens"@, rest);
            lemma_input_unit_name_rt(InputUnit::GetScreens);
        },
        InputUnit::GetMainScreen => {
            let s = spec_enc_input(spec_input_unit_msg(u)) + rest;
            assert(s[0] == '"');
            lemma_parse_string_rt("GetMainScreen"@, rest);
            lemma_input_unit_name_rt(InputUnit::GetMainScreen);
        },
        InputUnit::GetMouseLocation => {
            let s = spec_enc_input(spec_input_unit_msg(u)) + rest;
            assert(s[0] == '"');
            lemma_parse_string_rt("GetMouseLocation"@, rest);
            lemma_input_unit_name_rt(InputUnit::GetMouseLocation);
        },
        InputUnit::GetClipboardText => {
            let s = spec_enc_input(spec_input_unit_msg(u)) + rest;
            assert(s[0] == '"');
            lemma_parse_string_rt("GetClipboardText"@, rest);
            lemma_input_unit_name_rt(InputUnit::GetClipboardText);
        },
    }
}

/// An encoded well-formed message parses back to itself.
pub proof fn lemma_parse_input_rt(m: InputMessageV, rest: Seq<char>)
    requires
        wf_input(m),
    ensures
        spec_parse_input(spec_enc_input(m) + rest) == Some((m, rest)),
{
    match m {
        InputMessageV::GetScreens => lemma_parse_input_unit_rt(InputUnit::GetScreens, rest),
        InputMessageV::GetMainScreen => lemma_parse_input_unit_rt(InputUnit::GetMainScreen, rest),
        InputMessageV::GetMouseLocation => lemma_parse_input_unit_rt(InputUnit::GetMouseLocation, rest),
        InputMessageV::GetClipboardText => lemma_parse_input_unit_rt(InputUnit::GetClipboardText, rest),
        InputMessageV::CaptureScreen { name } => lemma_parse_input_capturescreen_rt(name, rest),
        InputMessageV::DoInput(a0) => lemma_parse_input_doinput_rt(a0, rest),
        InputMessageV::DoTypeText(a0) => lemma_parse_input_dotypetext_rt(a0, rest),
        InputMessageV::FindText { text, screen_name, timeout_millis } => lemma_parse_input_findtext_rt(text, screen_name, timeout_millis, rest),
        InputMessageV::FindImage { screen_name, image, quality, filter } => lemma_parse_input_findimage_rt(screen_name, image, quality, filter, rest),
        InputMessageV::SetClipboardText(a0) => lemma_parse_input_setclipboardtext_rt(a0, rest),
    }
}

/// Every screen, rectangle, image and filter the message holds keeps
/// its own invariant.
pub open spec fn wf_output(m: OutputMessageV) -> bool {
    match m {
        OutputMessageV::GotScreens(a0) => (forall|q: int| 0 <= q < a0.len() ==> (#[trigger] a0[q]).wf()),
        OutputMessageV::GotMainScreen(a0) => a0.wf(),
        OutputMessageV::CapturedScreen { image_buffer } => image_buffer.wf(),
        OutputMessageV::FoundText { locations } => (forall|q: int| 0 <= q < locations.len() ==> (#[trigger] locations[q]).wf()),
        OutputMessageV::FoundImage { locations } => (forall|q: int| 0 <= q < locations.len() ==> (#[trigger] locations[q]).wf()),
        _ => true,
    }
}

/// One kind of message, encoded then parsed back.
#[verifier::rlimit(100)]
proof fn lemma_parse_output_gotscreens_rt(a0: Seq<ScreenV>, rest: Seq<char>)
    requires
        (forall|q: int| 0 <= q < a0.len() ==> (#[trigger] a0[q]).wf()),
    ensures
        spec_parse_output(spec_enc_output(OutputMessageV::GotScreens(a0)) + rest) == Some((OutputMessageV::GotScreens(a0), rest)),
{
    reveal(crate::codec::spec_enc_output);
    reveal(crate::codec::spec_parse_output);
    reveal_strlit("{");
    reveal_strlit(":");
    reveal_strlit("}");
    let m = OutputMessageV::GotScreens(a0);
    let s = spec_enc_output(m) + rest;
    let t3 = rest;
    let t2 = "}"@ + t3;
    let t1 = spec_enc_screens(a0) + t2;
    let t0 = ":"@ + t1;
    let tname = spec_enc_string("GotScreens"@) + t0;
    assert(s =~= "{"@ + tname);
    assert(s[0] == '{');
    lemma_parse_lit_rt("{"@, tname);
    lemma_parse_string_rt("GotScreens"@, t0);
    lemma_output_tag_name_rt(OutputTag::GotScreens);
    lemma_parse_lit_rt(":"@, t1);
    lemma_parse_screens_rt(a0, t2);
    lemma_parse_lit_rt("}"@, t3);
}

/// One kind of message, encoded then parsed back.
#[verifier::rlimit(100)]
proof fn lemma_parse_output_gotmainscreen_rt(a0: ScreenV, rest: Seq<char>)
    requires
        a0.wf(),
    ensures
        spec_parse_output(spec_enc_output(OutputMessageV::GotMainScreen(a0)) + rest) == Some((OutputMessageV::GotMainScreen(a0), rest)),
{
    reveal(crate::codec::spec_enc_output);
    reveal(crate::codec::spec_parse_output);
    reveal_strlit("{");
    reveal_strlit(":");
    reveal_strlit("}");
    let m = OutputMessageV::GotMainScreen(a0);
    let s = spec_enc_output(m) + rest;
    let t3 = rest;
    let t2 = "}"@ + t3;
    let t1 = spec_enc_screen(a0) + t2;
    let t0 = ":"@ + t1;
    let tname = spec_enc_string("GotMainScreen"@) + t0;
    assert(s =~= "{"@ + tname);
    assert(s[0] == '{');
    lemma_parse_lit_rt("{"@, tname);
    lemma_parse_string_rt("GotMainScreen"@, t0);
    lemma_output_tag_name_rt(OutputTag::GotMainScreen);
    lemma_parse_lit_rt(":"@, t1);
    lemma_parse_screen_rt(a0, t2);
    lemma_parse_lit_rt("}"@, t3);
}

/// One kind of message, encoded then parsed back.
#[verifier::rlimit(100)]
proof fn lemma_parse_output_capturedscreen_rt(image_buffer: ImageBufferV, rest: Seq<char>)
    requires
        image_buffer.wf(),
    ensures
        spec_parse_output(spec_enc_output(OutputMessageV::CapturedScreen { image_buffer }) + rest) == Some((OutputMessageV::CapturedScreen { image_buffer }, rest)),
{
    reveal(crate::codec::spec_enc_output);
    reveal(crate::codec::spec_parse_output);
    reveal_strlit("{");
    reveal_strlit(":{\"image_buffer\":");
    reveal_strlit("}}");
    let m = OutputMessageV::CapturedScreen { image_buffer };
    let s = spec_enc_output(m) + rest;
    let t3 = rest;
    let t2 = "}}"@ + t3;
    let t1 = spec_enc_image(image_buffer) + t2;
    let t0 = ":{\"image_buffer\":"@ + t1;
    let tname = spec_enc_string("CapturedScreen"@) + t0;
    assert(s =~= "{"@ + tname);
    assert(s[0] == '{');
    lemma_parse_lit_rt("{"@, tname);
    lemma_parse_string_rt("CapturedScreen"@, t0);
    lemma_output_tag_name_rt(OutputTag::CapturedScreen);
    lemma_parse_lit_rt(":{\"image_buffer\":"@, t1);
    lemma_parse_image_rt(image_buffer, t2);
    lemma_parse_lit_rt("}}"@, t3);
}

/// One kind of message, encoded then parsed back.
#[verifier::rlimit(100)]
proof fn lemma_parse_output_gotmouselocation_rt(a0: Point, rest: Seq<char>)
    ensures
        spec_parse_output(spec_enc_output(OutputMessageV::GotMouseLocation(a0)) + rest) == Some((OutputMessageV::GotMouseLocation(a0), rest)),
{
    reveal(crate::codec::spec_enc_output);
    reveal(crate::codec::spec_parse_output);
    reveal_strlit("{");
    reveal_strlit(":");
    reveal_strlit("}");
    let m = OutputMessageV::GotMouseLocation(a0);
    let s = spec_enc_output(m) + rest;
    let t3 = rest;
    let t2 = "}"@ + t3;
    let t1 = spec_enc_point(a0) + t2;
    let t0 = ":"@ + t1;
    let tname = spec_enc_string("GotMouseLocation"@) + t0;
    assert(s =~= "{"@ + tname);
    assert(s[0] == '{');
    lemma_parse_lit_rt("{"@, tname);
    lemma_parse_string_rt("GotMouseLocation"@, t0);
    lemma_output_tag_name_rt(OutputTag::GotMouseLocation);
    lemma_parse_lit_rt(":"@, t1);
    lemma_parse_point_rt(a0, t2);
    lemma_parse_lit_rt("}"@, t3);
}

/// One kind of message, encoded then parsed back.
#[verifier::rlimit(100)]
proof fn lemma_parse_output_foundtext_rt(locations: Seq<BoundingRectangle>, rest: Seq<char>)
    requires
        (forall|q: int| 0 <= q < locations.len() ==> (#[trigger] locations[q]).wf()),
    ensures
        spec_parse_output(spec_enc_output(OutputMessageV::FoundText { locations }) + rest) == Some((OutputMessageV::FoundText { locations }, rest)),
{
    reveal(crate::codec::spec_enc_output);
    reveal(crate::codec::spec_parse_output);
    reveal_strlit("{");
    reveal_strlit(":{\"locations\":");
    reveal_strlit("}}");
    let m = OutputMessageV::FoundText { locations };
    let s = spec_enc_output(m) + rest;
    let t3 = rest;
    let t2 = "}}"@ + t3;
    let t1 = spec_enc_rects(locations) + t2;
    let t0 = ":{\"locations\":"@ + t1;
    let tname = spec_enc_string("FoundText"@) + t0;
    assert(s =~= "{"@ + tname);
    assert(s[0] == '{');
    lemma_parse_lit_rt("{"@, tname);
    lemma_parse_string_rt("FoundText"@, t0);
    lemma_output_tag_name_rt(OutputTag::FoundText);
    lemma_parse_lit_rt(":{\"locations\":"@, t1);
    lemma_parse_rects_rt(locations, t2);
    lemma_parse_lit_rt("}}"@, t3);
}

/// One kind of message, encoded then parsed back.
#[verifier::rlimit(100)]
proof fn lemma_parse_output_foundimage_rt(locations: Seq<BoundingRectangle>, rest: Seq<char>)
    requires
        (forall|q: int| 0 <= q < locations.len() ==> (#[trigger] locations[q]).wf()),
    ensures
        spec_parse_output(spec_enc_output(OutputMessageV::FoundImage { locations }) + rest) == Some((OutputMessageV::FoundImage { locations }, rest)),
{
    reveal(crate::codec::spec_enc_output);
    reveal(crate::codec::spec_parse_output);
    reveal_strlit("{");
    reveal_strlit(":{\"locations\":");
    reveal_strlit("}}");
    let m = OutputMessageV::FoundImage { locations };
    let s = spec_enc_output(m) + rest;
    let t3 = rest;
    let t2 = "}}"@ + t3;
    let t1 = spec_enc_rects(locations) + t2;
    let t0 = ":{\"locations\":"@ + t1;
    let tname = spec_enc_string("FoundImage"@) + t0;
    assert(s =~= "{"@ + tname);
    assert(s[0] == '{');
    lemma_parse_lit_rt("{"@, tname);
    lemma_parse_string_rt("FoundImage"@, t0);
    lemma_output_tag_name_rt(OutputTag::FoundImage);
    lemma_parse_lit_rt(":{\"locations\":"@, t1);
    lemma_parse_rects_rt(locations, t2);
    lemma_parse_lit_rt("}}"@, t3);
}

/// One kind of message, encoded then parsed back.
#[verifier::rlimit(100)]
proof fn lemma_parse_output_gotclipboardtext_rt(a0: Seq<char>, rest: Seq<char>)
    ensures
        spec_parse_output(spec_enc_output(OutputMessageV::GotClipboardText(a0)) + rest) == Some((OutputMessageV::GotClipboardText(a0), rest)),
{
    reveal(crate::codec::spec_enc_output);
    reveal(crate::codec::spec_parse_output);
    reveal_strlit("{");
    reveal_strlit(":");
    reveal_strlit("}");
    let m = OutputMessageV::GotClipboardText(a0);
    let s = spec_enc_output(m) + rest;
    let t3 = rest;
    let t2 = "}"@ + t3;
    let t1 = spec_enc_string(a0) + t2;
    let t0 = ":"@ + t1;
    let tname = spec_enc_string("GotClipboardText"@) + t0;
    assert(s =~= "{"@ + tname);
    assert(s[0] == '{');
    lemma_parse_lit_rt("{"@, tname);
    lemma_parse_string_rt("GotClipboardText"@, t0);
    lemma_output_tag_name_rt(OutputTag::GotClipboardText);
    lemma_parse_lit_rt(":"@, t1);
    lemma_parse_string_rt(a0, t2);
    lemma_parse_lit_rt("}"@, t3);
}

/// One kind of message, encoded then parsed back.
#[verifier::rlimit(100)]
proof fn lemma_parse_output_error_rt(a0: Seq<char>, rest: Seq<char>)
    ensures
        spec_parse_output(spec_enc_output(OutputMessageV::Error(a0)) + rest) == Some((OutputMessageV::Error(a0), rest)),
{
    reveal(crate::codec::spec_enc_output);
    reveal(crate::codec::spec_parse_output);
    reveal_strlit("{");
    reveal_strlit(":");
    reveal_strlit("}");
    let m = OutputMessageV::Error(a0);
    let s = spec_enc_output(m) + rest;
    let t3 = rest;
    let t2 = "}"@ + t3;
    let t1 = spec_enc_string(a0) + t2;
    let t0 = ":"@ + t1;
    let tname = spec_enc_string("Error"@) + t0;
    assert(s =~= "{"@ + tname);
    assert(s[0] == '{');
    lemma_parse_lit_rt("{"@, tname);
    lemma_parse_string_rt("Error"@, t0);
    lemma_output_tag_name_rt(OutputTag::ErrorReply);
    lemma_parse_lit_rt(":"@, t1);
    lemma_parse_string_rt(a0, t2);
    lemma_parse_lit_rt("}"@, t3);
}

/// A payload-free message, encoded then parsed back.
proof fn lemma_parse_output_unit_rt(u: OutputUnit, rest: Seq<char>)
    ensures
        spec_parse_output(spec_enc_output(spec_output_unit_msg(u)) + rest) == Some(
            (spec_output_unit_msg(u), rest),
        ),
{
    reveal(crate::codec::spec_enc_output);
    reveal(crate::codec::spec_parse_output);
    match u {
        OutputUnit::DidInput => {
            let s = spec_enc_output(spec_output_unit_msg(u)) + rest;
            assert(s[0] == '"');
            lemma_parse_string_rt("DidInput"@, rest);
            lemma_output_unit_name_rt(OutputUnit::DidInput);
        },
        OutputUnit::DidTypeText => {
            let s = spec_enc_output(spec_output_unit_msg(u)) + rest;
            assert(s[0] == '"');
            lemma_parse_string_rt("DidTypeText"@, rest);
            lemma_output_unit_name_rt(OutputUnit::DidTypeText);
        },
        OutputUnit::DidSetClipboardText => {
            let s = spec_enc_output(spec_output_unit_msg(u)) + rest;
            assert(s[0] == '"');
            lemma_parse_string_rt("DidSetClipboardText"@, rest);
            lemma_output_unit_name_rt(OutputUnit::DidSetClipboardText);
        },
    }
}

/// An encoded well-formed message parses back to itself.
pub proof fn lemma_parse_output_rt(m: OutputMessageV, rest: Seq<char>)
    requires
        wf_output(m),
    ensures
        spec_parse_output(spec_enc_output(m) + rest) == Some((m, rest)),
{
    match m {
        OutputMessageV::DidInput => lemma_parse_output_unit_rt(OutputUnit::DidInput, rest),
        OutputMessageV::DidTypeText => lemma_parse_output_unit_rt(OutputUnit::DidTypeText, rest),
        OutputMessageV::DidSetClipboardText => lemma_parse_output_unit_rt(OutputUnit::DidSetClipboardText, rest),
        OutputMessageV::GotScreens(a0) => lemma_parse_output_gotscreens_rt(a0, rest),
        OutputMessageV::GotMainScreen(a0) => lemma_parse_output_gotmainscreen_rt(a0, rest),
        OutputMessageV::CapturedScreen { image_buffer } => lemma_parse_output_capturedscreen_rt(image_buffer, rest),
        OutputMessageV::GotMouseLocation(a0) => lemma_parse_output_gotmouselocation_rt(a0, rest),
        OutputMessageV::FoundText { locations } => lemma_parse_output_foundtext_rt(locations, rest),
        OutputMessageV::FoundImage { locations } => lemma_parse_output_foundimage_rt(locations, rest),
        OutputMessageV::GotClipboardText(a0) => lemma_parse_output_gotclipboardtext_rt(a0, rest),
        OutputMessageV::Error(a0) => lemma_parse_output_error_rt(a0, rest),
    }
}

/// Reads a message at `i`.
#[verifier::rlimit(100)]
pub fn parse_input_msg(s: &[char], i: usize) -> (r: Option<(InputMessage, usize)>)
    requires
        i <= s@.len(),
    ensures
        match r {
            Some((m, j)) => i <= j <= s@.len() && spec_parse_input(s@.skip(i as int)) == Some(
                (m@, s@.skip(j as int)),
            ),
            None => spec_parse_input(s@.skip(i as int)) is None,
        },
{
    proof {
        reveal(crate::codec::spec_parse_input);
    }
    if i < s.len() && s[i] == '"' {
        proof {
            assert(s@.skip(i as int)[0] == '"');
        }
        let (t, j) = match parse_string(s, i) {
            Some(v) => v,
            None => {
                return None;
            },
        };
        match input_unit_of_chars(t.as_slice()) {
            Some(InputUnit::GetScreens) => Some((InputMessage::GetScreens, j)),
            Some(InputUnit::GetMainScreen) => Some((InputMessage::GetMainScreen, j)),
            Some(InputUnit::GetMouseLocation) => Some((InputMessage::GetMouseLocation, j)),
            Some(InputUnit::GetClipboardText) => Some((InputMessage::GetClipboardText, j)),
            None => None,
        }
    } else {
        proof {
            if i < s@.len() {
                assert(s@.skip(i as int)[0] == s@[i as int]);
            }
        }
        let i1 = match parse_lit(s, i, "{") {
            Some(j) => j,
            None => {
                return None;
            },
        };
        let (nm, i2) = match parse_string(s, i1) {
            Some(v) => v,
            None => {
                return None;
            },
        };
        let tg = match input_tag_of_chars(nm.as_slice()) {
            Some(t) => t,
            None => {
                return None;
            },
        };
        match tg {
            InputTag::CaptureScreen => {
                let i3 = match parse_lit(s, i2, ":{\"name\":") {
                    Some(j) => j,
                    None => {
                        return None;
                    },
                };
                let (name_v, i4) = match parse_string(s, i3) {
                    Some(v) => v,
                    None => {
                        return None;
                    },
                };
                let i5 = match parse_lit(s, i4, "}}") {
                    Some(j) => j,
                    None => {
                        return None;
                    },
                };
                Some((InputMessage::CaptureScreen { name: chars_to_string(&name_v) }, i5))
            },
            InputTag::DoInput => {
                let i3 = match parse_lit(s, i2, ":") {
                    Some(j) => j,
                    None => {
                        return None;
                    },
                };
                let (a0_v, i4) = match parse_token(s, i3) {
                    Some(v) => v,
                    None => {
                        return None;
                    },
                };
                let i5 = match parse_lit(s, i4, "}") {
                    Some(j) => j,
                    None => {
                        return None;
                    },
                };
                Some((InputMessage::DoInput(a0_v), i5))
            },
            InputTag::DoTypeText => {
                let i3 = match parse_lit(s, i2, ":") {
                    Some(j) => j,
                    None => {
                        return None;
                    },
                };
                let (a0_v, i4) = match parse_string(s, i3) {
                    Some(v) => v,
                    None => {
                        return None;
                    },
                };
                let i5 = match parse_lit(s, i4, "}") {
                    Some(j) => j,
                    None => {
                        return None;
                    },
                };
                Some((InputMessage::DoTypeText(chars_to_string(&a0_v)), i5))
            },
            InputTag::FindText => {
                let i3 = match parse_lit(s, i2, ":{\"text\":") {
                    Some(j) => j,
                    None => {
                        return None;
                    },
                };
                let (text_v, i4) = match parse_string(s, i3) {
                    Some(v) => v,
                    None => {
                        return None;
                    },
                };
                let i5 = match parse_lit(s, i4, ",\"screen_name\":") {
                    Some(j) => j,
                    None => {
                        return None;
                    },
                };
                let (screen_name_v, i6) = match parse_string(s, i5) {
                    Some(v) => v,
                    None => {
                        return None;
                    },
                };
                let i7 = match parse_lit(s, i6, ",\"timeout_in_seconds\":") {
                    Some(j) => j,
                    None => {
                        return None;
                    },
                };
                let (timeout_millis_v, i8) = match parse_milli(s, i7) {
                    Some(v) => v,
                    None => {
                        return None;
                    },
                };
                if timeout_millis_v > 0xffff_ffff {
                    return None;
                }
                let i9 = match parse_lit(s, i8, "}}") {
                    Some(j) => j,
                    None => {
                        return None;
                    },
                };
                Some((InputMessage::FindText { text: chars_to_string(&text_v), screen_name: chars_to_string(&screen_name_v), timeout_millis: timeout_millis_v as u32 }, i9))
            },
            InputTag::FindImage => {
                let i3 = match parse_lit(s, i2, ":{\"screen_name\":") {
                    Some(j) => j,
                    None => {
                        return None;
                    },
                };
                let (screen_name_v, i4) = match parse_string(s, i3) {
                    Some(v) => v,
                    None => {
                        return None;
                    },
                };
                let i5 = match parse_lit(s, i4, ",\"image\":") {
                    Some(j) => j,
                    None => {
                        return None;
                    },
                };
                let (image_v, i6) = match parse_image(s, i5) {
                    Some(v) => v,
                    None => {
                        return None;
                    },
                };
                let i7 = match parse_lit(s, i6, ",\"quality\":") {
                    Some(j) => j,
                    None => {
                        return None;
                    },
                };
                let (quality_v, i8) = match parse_quality(s, i7) {
                    Some(v) => v,
                    None => {
                        return None;
                    },
                };
                let i9 = match parse_lit(s, i8, ",\"filter\":") {
                    Some(j) => j,
                    None => {
                        return None;
                    },
                };
                let (filter_v, i10) = match parse_filter(s, i9) {
                    Some(v) => v,
                    None => {
                        return None;
                    },
                };
                let i11 = match parse_lit(s, i10, "}}") {
                    Some(j) => j,
                    None => {
                        return None;
                    },
                };
                Some((InputMessage::FindImage { screen_name: chars_to_string(&screen_name_v), image: image_v, quality: quality_v, filter: filter_v }, i11))
            },
            InputTag::SetClipboardText => {
                let i3 = match parse_lit(s, i2, ":") {
                    Some(j) => j,
                    None => {
                        return None;
                    },
                };
                let (a0_v, i4) = match parse_string(s, i3) {
                    Some(v) => v,
                    None => {
                        return None;
                    },
                };
                let i5 = match parse_lit(s, i4, "}") {
                    Some(j) => j,
                    None => {
                        return None;
                    },
                };
                Some((InputMessage::SetClipboardText(chars_to_string(&a0_v)), i5))
            },
        }
    }
}

/// One kind of message, spelled.
#[verifier::rlimit(100)]
fn enc_input_capturescreen(out: &mut Vec<char>, name: &String)
    ensures
        final(out)@ == old(out)@ + spec_enc_input(InputMessageV::CaptureScreen { name: name@ }),
{
    proof {
        reveal(crate::codec::spec_enc_input);
    }
    out.push('{');
    proof {
        reveal_strlit("{");
        assert(out@ =~= old(out)@ + "{"@);
    }
    enc_string(out, "CaptureScreen");
    push_lit(out, ":{\"name\":");
    enc_string(out, name.as_str());
    push_lit(out, "}}");
    proof {
        assert(out@ =~= old(out)@ + spec_enc_input(InputMessageV::CaptureScreen { name: name@ }));
    }
}

/// One kind of message, spelled.
#[verifier::rlimit(100)]
fn enc_input_doinput(out: &mut Vec<char>, a0: &Token)
    ensures
        final(out)@ == old(out)@ + spec_enc_input(InputMessageV::DoInput(a0@)),
{
    proof {
        reveal(crate::codec::spec_enc_input);
    }
    out.push('{');
    proof {
        reveal_strlit("{");
        assert(out@ =~= old(out)@ + "{"@);
    }
    enc_string(out, "DoInput");
    push_lit(out, ":");
    enc_token(out, a0);
    push_lit(out, "}");
    proof {
        assert(out@ =~= old(out)@ + spec_enc_input(InputMessageV::DoInput(a0@)));
    }
}

/// One kind of message, spelled.
#[verifier::rlimit(100)]
fn enc_input_dotypetext(out: &mut Vec<char>, a0: &String)
    ensures
        final(out)@ == old(out)@ + spec_enc_input(InputMessageV::DoTypeText(a0@)),
{
    proof {
        reveal(crate::codec::spec_enc_input);
    }
    out.push('{');
    proof {
        reveal_strlit("{");
        assert(out@ =~= old(out)@ + "{"@);
    }
    enc_string(out, "DoTypeText");
    push_lit(out, ":");
    enc_string(out, a0.as_str());
    push_lit(out, "}");
    proof {
        assert(out@ =~= old(out)@ + spec_enc_input(InputMessageV::DoTypeText(a0@)));
    }
}

/// One kind of message, spelled.
#[verifier::rlimit(100)]
fn enc_input_findtext(out: &mut Vec<char>, text: &String, screen_name: &String, timeout_millis: &u32)
    ensures
        final(out)@ == old(out)@ + spec_enc_input(InputMessageV::FindText { text: text@, screen_name: screen_name@, timeout_millis: *timeout_millis }),
{
    proof {
        reveal(crate::codec::spec_enc_input);
    }
    out.push('{');
    proof {
        reveal_strlit("{");
        assert(out@ =~= old(out)@ + "{"@);
    }
    enc_string(out, "FindText");
    push_lit(out, ":{\"text\":");
    enc_string(out, text.as_str());
    push_lit(out, ",\"screen_name\":");
    enc_string(out, screen_name.as_str());
    push_lit(out, ",\"timeout_in_seconds\":");
    enc_milli(out, *timeout_millis as u64);
    push_lit(out, "}}");
    proof {
        assert(out@ =~= old(out)@ + spec_enc_input(InputMessageV::FindText { text: text@, screen_name: screen_name@, timeout_millis: *timeout_millis }));
    }
}

/// One kind of message, spelled.
#[verifier::rlimit(100)]
fn enc_input_findimage(out: &mut Vec<char>, screen_name: &String, image: &ImageBuffer, quality: &FindImageQuality, filter: &FindImageFilter)
    ensures
        final(out)@ == old(out)@ + spec_enc_input(InputMessageV::FindImage { screen_name: screen_name@, image: image@, quality: *quality, filter: *filter }),
{
    proof {
        reveal(crate::codec::spec_enc_input);
    }
    out.push('{');
    proof {
        reveal_strlit("{");
        assert(out@ =~= old(out)@ + "{"@);
    }
    enc_string(out, "FindImage");
    push_lit(out, ":{\"screen_name\":");
    enc_string(out, screen_name.as_str());
    push_lit(out, ",\"image\":");
    enc_image(out, image);
    push_lit(out, ",\"quality\":");
    enc_quality(out, quality);
    push_lit(out, ",\"filter\":");
    enc_filter(out, filter);
    push_lit(out, "}}");
    proof {
        assert(out@ =~= old(out)@ + spec_enc_input(InputMessageV::FindImage { screen_name: screen_name@, image: image@, quality: *quality, filter: *filter }));
    }
}

/// One kind of message, spelled.
#[verifier::rlimit(100)]
fn enc_input_setclipboardtext(out: &mut Vec<char>, a0: &String)
    ensures
        final(out)@ == old(out)@ + spec_enc_input(InputMessageV::SetClipboardText(a0@)),
{
    proof {
        reveal(crate::codec::spec_enc_input);
    }
    out.push('{');
    proof {
        reveal_strlit("{");
        assert(out@ =~= old(out)@ + "{"@);
    }
    enc_string(out, "SetClipboardText");
    push_lit(out, ":");
    enc_string(out, a0.as_str());
    push_lit(out, "}");
    proof {
        assert(out@ =~= old(out)@ + spec_enc_input(InputMessageV::SetClipboardText(a0@)));
    }
}

/// Appends the spelling of a message.
pub fn enc_input_msg(out: &mut Vec<char>, m: &InputMessage)
    ensures
        final(out)@ == old(out)@ + spec_enc_input(m@),
{
    proof {
        reveal(crate::codec::spec_enc_input);
    }
    match m {
        InputMessage::GetScreens => {
            enc_string(out, "GetScreens");
        },
        InputMessage::GetMainScreen => {
            enc_string(out, "GetMainScreen");
        },
        InputMessage::GetMouseLocation => {
            enc_string(out, "GetMouseLocation");
        },
        InputMessage::GetClipboardText => {
            enc_string(out, "GetClipboardText");
        },
        InputMessage::CaptureScreen { name } => {
            enc_input_capturescreen(out, name);
            proof {
                assert(out@ =~= old(out)@ + spec_enc_input(m@));
            }
        },
        InputMessage::DoInput(a0) => {
            enc_input_doinput(out, a0);
            proof {
                assert(out@ =~= old(out)@ + spec_enc_input(m@));
            }
        },
        InputMessage::DoTypeText(a0) => {
            enc_input_dotypetext(out, a0);
            proof {
                assert(out@ =~= old(out)@ + spec_enc_input(m@));
            }
        },
        InputMessage::FindText { text, screen_name, timeout_millis } => {
            enc_input_findtext(out, text, screen_name, timeout_millis);
            proof {
                assert(out@ =~= old(out)@ + spec_enc_input(m@));
            }
        },
        InputMessage::FindImage { screen_name, image, quality, filter } => {
            enc_input_findimage(out, screen_name, image, quality, filter);
            proof {
                assert(out@ =~= old(out)@ + spec_enc_input(m@));
            }
        },
        InputMessage::SetClipboardText(a0) => {
            enc_input_setclipboardtext(out, a0);
            proof {
                assert(out@ =~= old(out)@ + spec_enc_input(m@));
            }
        },
    }
}

/// Reads a message at `i`.
#[verifier::rlimit(100)]
pub fn parse_output_msg(s: &[char], i: usize) -> (r: Option<(OutputMessage, usize)>)
    requires
        i <= s@.len(),
    ensures
        match r {
            Some((m, j)) => i <= j <= s@.len() && spec_parse_output(s@.skip(i as int)) == Some(
                (m@, s@.skip(j as int)),
            ) && wf_output(m@),
            None => spec_parse_output(s@.skip(i as int)) is None,
        },
{
    proof {
        reveal(crate::codec::spec_parse_output);
    }
    if i < s.len() && s[i] == '"' {
        proof {
            assert(s@.skip(i as int)[0] == '"');
        }
        let (t, j) = match parse_string(s, i) {
            Some(v) => v,
            None => {
                return None;
            },
        };
        match output_unit_of_chars(t.as_slice()) {
            Some(OutputUnit::DidInput) => Some((OutputMessage::DidInput, j)),
            Some(OutputUnit::DidTypeText) => Some((OutputMessage::DidTypeText, j)),
            Some(OutputUnit::DidSetClipboardText) => Some((OutputMessage::DidSetClipboardText, j)),
            None => None,
        }
    } else {
        proof {
            if i < s@.len() {
                assert(s@.skip(i as int)[0] == s@[i as int]);
            }
        }
        let i1 = match parse_lit(s, i, "{") {
            Some(j) => j,
            None => {
                return None;
            },
        };
        let (nm, i2) = match parse_string(s, i1) {
            Some(v) => v,
            None => {
                return None;
            },
        };
        let tg = match output_tag_of_chars(nm.as_slice()) {
            Some(t) => t,
            None => {
                return None;
            },
        };
        match tg {
            OutputTag::GotScreens => {
                let i3 = match parse_lit(s, i2, ":") {
                    Some(j) => j,
                    None => {
                        return None;
                    },
                };
                let (a0_v, i4) = match parse_screens(s, i3) {
                    Some(v) => v,
                    None => {
                        return None;
                    },
                };
                let i5 = match parse_lit(s, i4, "}") {
                    Some(j) => j,
                    None => {
                        return None;
                    },
                };
                Some((OutputMessage::GotScreens(a0_v), i5))
            },
            OutputTag::GotMainScreen => {
                let i3 = match parse_lit(s, i2, ":") {
                    Some(j) => j,
                    None => {
                        return None;
                    },
                };
                let (a0_v, i4) = match parse_screen(s, i3) {
                    Some(v) => v,
                    None => {
                        return None;
                    },
                };
                let i5 = match parse_lit(s, i4, "}") {
                    Some(j) => j,
                    None => {
                        return None;
                    },
                };
                Some((OutputMessage::GotMainScreen(a0_v), i5))
            },
            OutputTag::CapturedScreen => {
                let i3 = match parse_lit(s, i2, ":{\"image_buffer\":") {
                    Some(j) => j,
                    None => {
                        return None;
                    },
                };
                let (image_buffer_v, i4) = match parse_image(s, i3) {
                    Some(v) => v,
                    None => {
                        return None;
                    },
                };
                let i5 = match parse_lit(s, i4, "}}") {
                    Some(j) => j,
                    None => {
                        return None;
                    },
                };
                Some((OutputMessage::CapturedScreen { image_buffer: image_buffer_v }, i5))
            },
            OutputTag::GotMouseLocation => {
                let i3 = match parse_lit(s, i2, ":") {
                    Some(j) => j,
                    None => {
                        return None;
                    },
                };
                let (a0_v, i4) = match parse_point(s, i3) {
                    Some(v) => v,
                    None => {
                        return None;
                    },
                };
                let i5 = match parse_lit(s, i4, "}") {
                    Some(j) => j,
                    None => {
                        return None;
                    },
                };
                Some((OutputMessage::GotMouseLocation(a0_v), i5))
            },
            OutputTag::FoundText => {
                let i3 = match parse_lit(s, i2, ":{\"locations\":") {
                    Some(j) => j,
                    None => {
                        return None;
                    },
                };
                let (locations_v, i4) = match parse_rects(s, i3) {
                    Some(v) => v,
                    None => {
                        return None;
                    },
                };
                let i5 = match parse_lit(s, i4, "}}") {
                    Some(j) => j,
                    None => {
                        return None;
                    },
                };
                Some((OutputMessage::FoundText { locations: locations_v }, i5))
            },
            OutputTag::FoundImage => {
                let i3 = match parse_lit(s, i2, ":{\"locations\":") {
                    Some(j) => j,
                    None => {
                        return None;
                    },
                };
                let (locations_v, i4) = match parse_rects(s, i3) {
                    Some(v) => v,
                    None => {
                        return None;
                    },
                };
                let i5 = match parse_lit(s, i4, "}}") {
                    Some(j) => j,
                    None => {
                        return None;
                    },
                };
                Some((OutputMessage::FoundImage { locations: locations_v }, i5))
            },
            OutputTag::GotClipboardText => {
                let i3 = match parse_lit(s, i2, ":") {
                    Some(j) => j,
                    None => {
                        return None;
                    },
                };
                let (a0_v, i4) = match parse_string(s, i3) {
                    Some(v) => v,
                    None => {
                        return None;
                    },
                };
                let i5 = match parse_lit(s, i4, "}") {
                    Some(j) => j,
                    None => {
                        return None;
                    },
                };
                Some((OutputMessage::GotClipboardText(chars_to_string(&a0_v)), i5))
            },
            OutputTag::ErrorReply => {
                let i3 = match parse_lit(s, i2, ":") {
                    Some(j) => j,
                    None => {
                        return None;
                    },
                };
                let (a0_v, i4) = match parse_string(s, i3) {
                    Some(v) => v,
                    None => {
                        return None;
                    },
                };
                let i5 = match parse_lit(s, i4, "}") {
                    Some(j) => j,
                    None => {
                        return None;
                    },
                };
                Some((OutputMessage::Error(chars_to_string(&a0_v)), i5))
            },
        }
    }
}

/// One kind of message, spelled.
#[verifier::rlimit(100)]
fn enc_output_gotscreens(out: &mut Vec<char>, a0: &Vec<Screen>)
    ensures
        final(out)@ == old(out)@ + spec_enc_output(OutputMessageV::GotScreens(Seq::new(a0@.len(), |q: int| a0@[q]@))),
{
    proof {
        reveal(crate::codec::spec_enc_output);
    }
    out.push('{');
    proof {
        reveal_strlit("{");
        assert(out@ =~= old(out)@ + "{"@);
    }
    enc_string(out, "GotScreens");
    push_lit(out, ":");
    enc_screens(out, a0);
    push_lit(out, "}");
    proof {
        assert(out@ =~= old(out)@ + spec_enc_output(OutputMessageV::GotScreens(Seq::new(a0@.len(), |q: int| a0@[q]@))));
    }
}

/// One kind of message, spelled.
#[verifier::rlimit(100)]
fn enc_output_gotmainscreen(out: &mut Vec<char>, a0: &Screen)
    ensures
        final(out)@ == old(out)@ + spec_enc_output(OutputMessageV::GotMainScreen(a0@)),
{
    proof {
        reveal(crate::codec::spec_enc_output);
    }
    out.push('{');
    proof {
        reveal_strlit("{");
        assert(out@ =~= old(out)@ + "{"@);
    }
    enc_string(out, "GotMainScreen");
    push_lit(out, ":");
    enc_screen(out, a0);
    push_lit(out, "}");
    proof {
        assert(out@ =~= old(out)@ + spec_enc_output(OutputMessageV::GotMainScreen(a0@)));
    }
}

/// One kind of message, spelled.
#[verifier::rlimit(100)]
fn enc_output_capturedscreen(out: &mut Vec<char>, image_buffer: &ImageBuffer)
    ensures
        final(out)@ == old(out)@ + spec_enc_output(OutputMessageV::CapturedScreen { image_buffer: image_buffer@ }),
{
    proof {
        reveal(crate::codec::spec_enc_output);
    }
    out.push('{');
    proof {
        reveal_strlit("{");
        assert(out@ =~= old(out)@ + "{"@);
    }
    enc_string(out, "CapturedScreen");
    push_lit(out, ":{\"image_buffer\":");
    enc_image(out, image_buffer);
    push_lit(out, "}}");
    proof {
        assert(out@ =~= old(out)@ + spec_enc_output(OutputMessageV::CapturedScreen { image_buffer: image_buffer@ }));
    }
}

/// One kind of message, spelled.
#[verifier::rlimit(100)]
fn enc_output_gotmouselocation(out: &mut Vec<char>, a0: &Point)
    ensures
        final(out)@ == old(out)@ + spec_enc_output(OutputMessageV::GotMouseLocation(*a0)),
{
    proof {
        reveal(crate::codec::spec_enc_output);
    }
    out.push('{');
    proof {
        reveal_strlit("{");
        assert(out@ =~= old(out)@ + "{"@);
    }
    enc_string(out, "GotMouseLocation");
    push_lit(out, ":");
    enc_point(out, a0);
    push_lit(out, "}");
    proof {
        assert(out@ =~= old(out)@ + spec_enc_output(OutputMessageV::GotMouseLocation(*a0)));
    }
}

/// One kind of message, spelled.
#[verifier::rlimit(100)]
fn enc_output_foundtext(out: &mut Vec<char>, locations: &Vec<BoundingRectangle>)
    ensures
        final(out)@ == old(out)@ + spec_enc_output(OutputMessageV::FoundText { locations: locations@ }),
{
    proof {
        reveal(crate::codec::spec_enc_output);
    }
    out.push('{');
    proof {
        reveal_strlit("{");
        assert(out@ =~= old(out)@ + "{"@);
    }
    enc_string(out, "FoundText");
    push_lit(out, ":{\"locations\":");
    enc_rects(out, locations);
    push_lit(out, "}}");
    proof {
        assert(out@ =~= old(out)@ + spec_enc_output(OutputMessageV::FoundText { locations: locations@ }));
    }
}

/// One kind of message, spelled.
#[verifier::rlimit(100)]
fn enc_output_foundimage(out: &mut Vec<char>, locations: &Vec<BoundingRectangle>)
    ensures
        final(out)@ == old(out)@ + spec_enc_output(OutputMessageV::FoundImage { locations: locations@ }),
{
    proof {
        reveal(crate::codec::spec_enc_output);
    }
    out.push('{');
    proof {
        reveal_strlit("{");
        assert(out@ =~= old(out)@ + "{"@);
    }
    enc_string(out, "FoundImage");
    push_lit(out, ":{\"locations\":");
    enc_rects(out, locations);
    push_lit(out, "}}");
    proof {
        assert(out@ =~= old(out)@ + spec_enc_output(OutputMessageV::FoundImage { locations: locations@ }));
    }
}

/// One kind of message, spelled.
#[verifier::rlimit(100)]
fn enc_output_gotclipboardtext(out: &mut Vec<char>, a0: &String)
    ensures
        final(out)@ == old(out)@ + spec_enc_output(OutputMessageV::GotClipboardText(a0@)),
{
    proof {
        reveal(crate::codec::spec_enc_output);
    }
    out.push('{');
    proof {
        reveal_strlit("{");
        assert(out@ =~= old(out)@ + "{"@);
    }
    enc_string(out, "GotClipboardText");
    push_lit(out, ":");
    enc_string(out, a0.as_str());
    push_lit(out, "}");
    proof {
        assert(out@ =~= old(out)@ + spec_enc_output(OutputMessageV::GotClipboardText(a0@)));
    }
}

/// One kind of message, spelled.
#[verifier::rlimit(100)]
fn enc_output_error(out: &mut Vec<char>, a0: &String)
    ensures
        final(out)@ == old(out)@ + spec_enc_output(OutputMessageV::Error(a0@)),
{
    proof {
        reveal(crate::codec::spec_enc_output);
    }
    out.push('{');
    proof {
        reveal_strlit("{");
        assert(out@ =~= old(out)@ + "{"@);
    }
    enc_string(out, "Error");
    push_lit(out, ":");
    enc_string(out, a0.as_str());
    push_lit(out, "}");
    proof {
        assert(out@ =~= old(out)@ + spec_enc_output(OutputMessageV::Error(a0@)));
    }
}

/// Appends the spelling of a message.
pub fn enc_output_msg(out: &mut Vec<char>, m: &OutputMessage)
    ensures
        final(out)@ == old(out)@ + spec_enc_output(m@),
{
    proof {
        reveal(crate::codec::spec_enc_output);
    }
    match m {
        OutputMessage::DidInput => {
            enc_string(out, "DidInput");
        },
        OutputMessage::DidTypeText => {
            enc_string(out, "DidTypeText");
        },
        OutputMessage::DidSetClipboardText => {
            enc_string(out, "DidSetClipboardText");
        },
        OutputMessage::GotScreens(a0) => {
            enc_output_gotscreens(out, a0);
            proof {
                assert(out@ =~= old(out)@ + spec_enc_output(m@));
            }
        },
        OutputMessage::GotMainScreen(a0) => {
            enc_output_gotmainscreen(out, a0);
            proof {
                assert(out@ =~= old(out)@ + spec_enc_output(m@));
            }
        },
        OutputMessage::CapturedScreen { image_buffer } => {
            enc_output_capturedscreen(out, image_buffer);
            proof {
                assert(out@ =~= old(out)@ + spec_enc_output(m@));
            }
        },
        OutputMessage::GotMouseLocation(a0) => {
            enc_output_gotmouselocation(out, a0);
            proof {
                assert(out@ =~= old(out)@ + spec_enc_output(m@));
            }
        },
        OutputMessage::FoundText { locations } => {
            enc_output_foundtext(out, locations);
            proof {
                assert(out@ =~= old(out)@ + spec_enc_output(m@));
            }
        },
        OutputMessage::FoundImage { locations } => {
            enc_output_foundimage(out, locations);
            proof {
                assert(out@ =~= old(out)@ + spec_enc_output(m@));
            }
        },
        OutputMessage::GotClipboardText(a0) => {
            enc_output_gotclipboardtext(out, a0);
            proof {
                assert(out@ =~= old(out)@ + spec_enc_output(m@));
            }
        },
        OutputMessage::Error(a0) => {
            enc_output_error(out, a0);
            proof {
                assert(out@ =~= old(out)@ + spec_enc_output(m@));
            }
        },
    }
}


// --- whole documents ----------------------------------------------------

/// The message a whole request document denotes: optional whitespace, one
/// message, optional whitespace, nothing more.
pub open spec fn spec_decode_input(s: Seq<char>) -> Option<InputMessageV> {
    match spec_parse_input(spec_skip_ws(s)) {
        Some((m, rest)) => if spec_skip_ws(rest).len() == 0 {
            Some(m)
        } else {
            None
        },
        None => None,
    }
}

/// The message a whole response document denotes.
pub open spec fn spec_decode_output(s: Seq<char>) -> Option<OutputMessageV> {
    match spec_parse_output(spec_skip_ws(s)) {
        Some((m, rest)) => if spec_skip_ws(rest).len() == 0 {
            Some(m)
        } else {
            None
        },
        None => None,
    }
}

/// An encoded message starts with a quote or a brace, never whitespace.
proof fn lemma_enc_input_head(m: InputMessageV)
    ensures
        spec_enc_input(m).len() > 0,
        !is_ws(spec_enc_input(m)[0]),
{
    reveal(crate::codec::spec_enc_input);
    reveal_strlit("{");
    match m {
        InputMessageV::GetScreens => {},
        InputMessageV::GetMainScreen => {},
        InputMessageV::GetMouseLocation => {},
        InputMessageV::GetClipboardText => {},
        InputMessageV::CaptureScreen { .. } => {},
        InputMessageV::DoInput(..) => {},
        InputMessageV::DoTypeText(..) => {},
        InputMessageV::FindText { .. } => {},
        InputMessageV::FindImage { .. } => {},
        InputMessageV::SetClipboardText(..) => {},
    }
}

/// An encoded message starts with a quote or a brace, never whitespace.
proof fn lemma_enc_output_head(m: OutputMessageV)
    ensures
        spec_enc_output(m).len() > 0,
        !is_ws(spec_enc_output(m)[0]),
{
    reveal(crate::codec::spec_enc_output);
    reveal_strlit("{");
    match m {
        OutputMessageV::GotScreens(..) => {},
        OutputMessageV::GotMainScreen(..) => {},
        OutputMessageV::CapturedScreen { .. } => {},
        OutputMessageV::GotMouseLocation(..) => {},
        OutputMessageV::DidInput => {},
        OutputMessageV::DidTypeText => {},
        OutputMessageV::FoundText { .. } => {},
        OutputMessageV::FoundImage { .. } => {},
        OutputMessageV::GotClipboardText(..) => {},
        OutputMessageV::DidSetClipboardText => {},
        OutputMessageV::Error(..) => {},
    }
}

/// Encoding then decoding any well-formed request yields the request back:
/// the wire schema is stable.
pub proof fn lemma_input_round_trip(m: InputMessageV)
    requires
        wf_input(m),
    ensures
        spec_decode_input(spec_enc_input(m)) == Some(m),
{
    let e = spec_enc_input(m);
    lemma_enc_input_head(m);
    crate::json::lemma_skip_ws_clean(e);
    assert(e + Seq::<char>::empty() =~= e);
    lemma_parse_input_rt(m, Seq::<char>::empty());
    crate::json::lemma_skip_ws_clean(Seq::<char>::empty());
}

/// Encoding then decoding any well-formed response yields the response
/// back: the wire schema is stable.
pub proof fn lemma_output_round_trip(m: OutputMessageV)
    requires
        wf_output(m),
    ensures
        spec_decode_output(spec_enc_output(m)) == Some(m),
{
    let e = spec_enc_output(m);
    lemma_enc_output_head(m);
    crate::json::lemma_skip_ws_clean(e);
    assert(e + Seq::<char>::empty() =~= e);
    lemma_parse_output_rt(m, Seq::<char>::empty());
    crate::json::lemma_skip_ws_clean(Seq::<char>::empty());
}

/// Decodes a whole request document.
pub fn decode_input(s: &[char]) -> (r: Option<InputMessage>)
    ensures
        match r {
            Some(m) => spec_decode_input(s@) == Some(m@),
            None => spec_decode_input(s@) is None,
        },
{
    proof {
        assert(s@.skip(0) =~= s@);
    }
    let i0 = skip_ws(s, 0);
    let (m, j) = match parse_input_msg(s, i0) {
        Some(v) => v,
        None => {
            return None;
        },
    };
    let j2 = skip_ws(s, j);
    if j2 == s.len() {
        Some(m)
    } else {
        None
    }
}

/// Decodes a whole response document.
pub fn decode_output(s: &[char]) -> (r: Option<OutputMessage>)
    ensures
        match r {
            Some(m) => spec_decode_output(s@) == Some(m@) && wf_output(m@),
            None => spec_decode_output(s@) is None,
        },
{
    proof {
        assert(s@.skip(0) =~= s@);
    }
    let i0 = skip_ws(s, 0);
    let (m, j) = match parse_output_msg(s, i0) {
        Some(v) => v,
        None => {
            return None;
        },
    };
    let j2 = skip_ws(s, j);
    if j2 == s.len() {
        Some(m)
    } else {
        None
    }
}

/// Spells a whole request document.
pub fn encode_input(m: &InputMessage) -> (r: Vec<char>)
    ensures
        r@ == spec_enc_input(m@),
{
    let mut out: Vec<char> = Vec::new();
    enc_input_msg(&mut out, m);
    proof {
        assert(out@ =~= spec_enc_input(m@));
    }
    out
}

/// Spells a whole response document.
pub fn encode_output(m: &OutputMessage) -> (r: Vec<char>)
    ensures
        r@ == spec_enc_output(m@),
{
    let mut out: Vec<char> = Vec::new();
    enc_output_msg(&mut out, m);
    proof {
        assert(out@ =~= spec_enc_output(m@));
    }
    out
}

} // verus!

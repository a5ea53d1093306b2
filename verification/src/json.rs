//! JSON text primitives: numbers, decimal fractions in thousandths, and
//! strings, as characters.
//!
//! Every parser here consumes from the front of a character sequence and
//! returns the value beside the unread suffix; every encoder appends the
//! canonical spelling of a value.  Encoders emit compact text; parsers also
//! accept the forms the grammar documents (fractions on whole numbers, the
//! usual string escapes).  Decoding then encoding is proved to give a value
//! back exactly.
//!
//! Limits, chosen for the driver protocol and stated here once: a number may
//! carry at most nineteen integer digits; fractions on whole-number fields
//! are read and dropped (values round toward zero); fractions on thousandth
//! fields are read to three digits, the rest dropped; exponents are not
//! accepted; `\u` escapes must name a scalar value, so surrogate pairs are
//! not accepted (non-BMP characters travel as plain UTF-8 text).

use vstd::prelude::*;


verus! {

// --- whitespace ---------------------------------------------------------

/// JSON insignificant whitespace.
pub open spec fn is_ws(c: char) -> bool {
    c == ' ' || c == '\t' || c == '\n' || c == '\r'
}

/// The suffix after any leading whitespace.
pub open spec fn spec_skip_ws(s: Seq<char>) -> Seq<char>
    decreases s.len(),
{
    if s.len() > 0 && is_ws(s[0]) {
        spec_skip_ws(s.skip(1))
    } else {
        s
    }
}

/// Skipping whitespace does nothing to text that starts without it.
pub proof fn lemma_skip_ws_clean(s: Seq<char>)
    requires
        s.len() == 0 || !is_ws(s[0]),
    ensures
        spec_skip_ws(s) == s,
{
}

/// The first index at or after `i` holding something other than whitespace.
pub fn skip_ws(s: &[char], i: usize) -> (r: usize)
    requires
        i <= s@.len(),
    ensures
        i <= r <= s@.len(),
        s@.skip(r as int) == spec_skip_ws(s@.skip(i as int)),
    decreases s@.len() - i,
{
    let mut j = i;
    while j < s.len() && (s[j] == ' ' || s[j] == '\t' || s[j] == '\n' || s[j] == '\r')
        invariant
            i <= j <= s@.len(),
            spec_skip_ws(s@.skip(j as int)) == spec_skip_ws(s@.skip(i as int)),
        decreases s@.len() - j,
    {
        proof {
            assert(s@.skip(j as int).skip(1) =~= s@.skip(j + 1));
        }
        j = j + 1;
    }
    proof {
        assert(spec_skip_ws(s@.skip(j as int)) == s@.skip(j as int));
    }
    j
}

// --- exact literals -----------------------------------------------------

/// `Some(rest)` when `s` starts with `lit`, with `rest` what follows it.
pub open spec fn spec_parse_lit(s: Seq<char>, lit: Seq<char>) -> Option<Seq<char>> {
    if s.len() >= lit.len() && s.take(lit.len() as int) == lit {
        Some(s.skip(lit.len() as int))
    } else {
        None
    }
}

/// A literal parses off the front of itself.
pub proof fn lemma_parse_lit_rt(lit: Seq<char>, rest: Seq<char>)
    ensures
        spec_parse_lit(lit + rest, lit) == Some(rest),
{
    assert((lit + rest).take(lit.len() as int) =~= lit);
    assert((lit + rest).skip(lit.len() as int) =~= rest);
}

/// Matches `lit` at `i`, yielding the index after it.
pub fn parse_lit(s: &[char], i: usize, lit: &str) -> (r: Option<usize>)
    requires
        i <= s@.len(),
    ensures
        match r {
            Some(j) => i <= j <= s@.len() && spec_parse_lit(s@.skip(i as int), lit@) == Some(
                s@.skip(j as int),
            ),
            None => spec_parse_lit(s@.skip(i as int), lit@) is None,
        },
{
    let n = vstd::string::StrSliceExecFns::unicode_len(lit);
    let slen = s.len();
    if slen - i < n {
        return None;
    }
    let mut k: usize = 0;
    while k < n
        invariant
            0 <= k <= n,
            n == lit@.len(),
            i + n <= slen,
            slen == s@.len(),
            forall|m: int| 0 <= m < k ==> s@[i + m] == lit@[m],
        decreases n - k,
    {
        if s[i + k] != vstd::string::StrSliceExecFns::get_char(lit, k) {
            proof {
                assert(s@.skip(i as int).take(lit@.len() as int) != lit@) by {
                    assert(s@.skip(i as int).take(lit@.len() as int)[k as int] == s@[i + k]);
                }
            }
            return None;
        }
        k = k + 1;
    }
    proof {
        assert(s@.skip(i as int).take(lit@.len() as int) =~= lit@);
        assert(s@.skip(i as int).skip(lit@.len() as int) =~= s@.skip(i + n));
    }
    Some(i + n)
}

// --- natural numbers ----------------------------------------------------

/// A decimal digit.
pub open spec fn is_digit(c: char) -> bool {
    48 <= c as u32 && c as u32 <= 57
}

/// The value of one digit.
pub open spec fn digit_val(c: char) -> int {
    c as u32 - 48
}

/// The digit with value `d`.
pub open spec fn digit_char(d: int) -> char {
    ((48 + d) as u8) as char
}

/// The run of digits at the front of `s`.
pub open spec fn spec_digits_prefix(s: Seq<char>) -> Seq<char>
    decreases s.len(),
{
    if s.len() > 0 && is_digit(s[0]) {
        seq![s[0]] + spec_digits_prefix(s.skip(1))
    } else {
        Seq::empty()
    }
}

/// The value of a digit run, most significant first.
pub open spec fn spec_digits_val(ds: Seq<char>) -> int
    decreases ds.len(),
{
    if ds.len() == 0 {
        0
    } else {
        spec_digits_val(ds.drop_last()) * 10 + digit_val(ds.last())
    }
}

/// Ten to the `n`.
pub open spec fn spec_pow10(n: nat) -> int
    decreases n,
{
    if n == 0 {
        1
    } else {
        10 * spec_pow10((n - 1) as nat)
    }
}

/// The canonical digits of `n`, most significant first, no leading zeros.
pub open spec fn spec_enc_nat(n: int) -> Seq<char>
    decreases n,
{
    if n <= 9 {
        seq![digit_char(if n < 0 { 0 } else { n })]
    } else {
        spec_enc_nat(n / 10) + seq![digit_char(n % 10)]
    }
}

/// A digit run is non-negative and below ten to its length.
pub proof fn lemma_digits_val_bound(ds: Seq<char>)
    requires
        forall|i: int| 0 <= i < ds.len() ==> is_digit(ds[i]),
    ensures
        0 <= spec_digits_val(ds) < spec_pow10(ds.len()),
    decreases ds.len(),
{
    if ds.len() > 0 {
        lemma_digits_val_bound(ds.drop_last());
    }
}

/// The canonical digits of `n` are digits, carry the value `n`, and there
/// are at most as many of them as any power of ten above `n` has zeros.
pub proof fn lemma_enc_nat(n: int, k: nat)
    requires
        0 <= n < spec_pow10(k),
        k >= 1,
    ensures
        spec_enc_nat(n).len() >= 1,
        spec_enc_nat(n).len() <= k,
        forall|i: int| 0 <= i < spec_enc_nat(n).len() ==> is_digit(#[trigger] spec_enc_nat(n)[i]),
        spec_digits_val(spec_enc_nat(n)) == n,
    decreases n,
{
    if n <= 9 {
        assert(spec_enc_nat(n) =~= seq![digit_char(n)]);
        assert(spec_enc_nat(n).last() == digit_char(n));
        assert(spec_enc_nat(n).drop_last() =~= Seq::<char>::empty());
        assert(digit_char(n) as u32 == 48 + n);
        assert(spec_digits_val(Seq::<char>::empty()) == 0);
        assert(spec_digits_val(spec_enc_nat(n)) == digit_val(digit_char(n)));
    } else {
        assert(spec_pow10(k) == 10 * spec_pow10((k - 1) as nat));
        lemma_enc_nat(n / 10, (k - 1) as nat);
        let a = spec_enc_nat(n / 10);
        let whole = a + seq![digit_char(n % 10)];
        assert(spec_enc_nat(n) == whole);
        assert(whole.drop_last() =~= a);
        assert(whole.last() == digit_char(n % 10));
        assert(spec_digits_val(whole) == spec_digits_val(a) * 10 + digit_val(digit_char(n % 10)));
    }
}

/// The digit run at the front of a digit sequence followed by a non-digit
/// is the digit sequence itself.
pub proof fn lemma_digits_prefix_exact(ds: Seq<char>, rest: Seq<char>)
    requires
        forall|i: int| 0 <= i < ds.len() ==> is_digit(ds[i]),
        rest.len() == 0 || !is_digit(rest[0]),
    ensures
        spec_digits_prefix(ds + rest) == ds,
    decreases ds.len(),
{
    if ds.len() == 0 {
        assert(ds + rest =~= rest);
    } else {
        lemma_digits_prefix_exact(ds.skip(1), rest);
        assert((ds + rest).skip(1) =~= ds.skip(1) + rest);
        assert(seq![(ds + rest)[0]] + ds.skip(1) =~= ds);
    }
}

/// `Some((value, rest))` when `s` starts with one to nineteen digits.
pub open spec fn spec_parse_nat(s: Seq<char>) -> Option<(u64, Seq<char>)> {
    let ds = spec_digits_prefix(s);
    if 1 <= ds.len() <= 19 {
        Some((spec_digits_val(ds) as u64, s.skip(ds.len() as int)))
    } else {
        None
    }
}

/// Digits followed by anything that does not extend them parse back to the
/// value they spell.
pub proof fn lemma_parse_nat_rt(n: u64, rest: Seq<char>)
    requires
        n < 10_000_000_000_000_000_000,
        rest.len() == 0 || !is_digit(rest[0]),
    ensures
        spec_parse_nat(spec_enc_nat(n as int) + rest) == Some((n, rest)),
{
    lemma_pow10_values();
    lemma_enc_nat(n as int, 19);
    let ds = spec_enc_nat(n as int);
    lemma_digits_prefix_exact(ds, rest);
    assert((ds + rest).skip(ds.len() as int) =~= rest);
}

/// The first nineteen powers of ten, spelled out.
pub proof fn lemma_pow10_values()
    ensures
        spec_pow10(3) == 1000,
        spec_pow10(10) == 10_000_000_000,
        spec_pow10(13) == 10_000_000_000_000,
        spec_pow10(16) == 10_000_000_000_000_000,
        spec_pow10(19) == 10_000_000_000_000_000_000,
{
    reveal_with_fuel(spec_pow10, 20);
}

/// The end of the digit run beginning at `i`.
fn scan_digits(s: &[char], i: usize) -> (j: usize)
    requires
        i <= s@.len(),
    ensures
        i <= j <= s@.len(),
        spec_digits_prefix(s@.skip(i as int)) =~= s@.subrange(i as int, j as int),
        forall|m: int| i <= m < j ==> is_digit(s@[m]),
        j < s@.len() ==> !is_digit(s@[j as int]),
    decreases s@.len() - i,
{
    let mut j = i;
    while j < s.len() && (s[j] as u32) >= 48 && (s[j] as u32) <= 57
        invariant
            i <= j <= s@.len(),
            forall|m: int| i <= m < j ==> is_digit(s@[m]),
        decreases s@.len() - j,
    {
        j = j + 1;
    }
    proof {
        lemma_digits_prefix_of_run(s@, i as int, j as int);
    }
    j
}

/// The digit run starting at `i` runs exactly to `j`, the first index that
/// is not a digit.
proof fn lemma_digits_prefix_of_run(s: Seq<char>, i: int, j: int)
    requires
        0 <= i <= j <= s.len(),
        forall|m: int| i <= m < j ==> is_digit(s[m]),
        j == s.len() || !is_digit(s[j]),
    ensures
        spec_digits_prefix(s.skip(i)) =~= s.subrange(i, j),
    decreases j - i,
{
    if i < j {
        lemma_digits_prefix_of_run(s, i + 1, j);
        assert(s.skip(i).skip(1) =~= s.skip(i + 1));
        assert(s.skip(i)[0] == s[i]);
        assert(seq![s[i]] + s.subrange(i + 1, j) =~= s.subrange(i, j));
    } else {
        if i < s.len() {
            assert(s.skip(i)[0] == s[i]);
        }
    }
}

/// Reads the digit run at `i` as a natural number.
pub fn parse_nat(s: &[char], i: usize) -> (r: Option<(u64, usize)>)
    requires
        i <= s@.len(),
    ensures
        match r {
            Some((n, j)) => i <= j <= s@.len() && spec_parse_nat(s@.skip(i as int)) == Some(
                (n, s@.skip(j as int)),
            ),
            None => spec_parse_nat(s@.skip(i as int)) is None,
        },
{
    let j = scan_digits(s, i);
    if j == i || j - i > 19 {
        return None;
    }
    let ghost ds = s@.subrange(i as int, j as int);
    proof {
        lemma_pow10_values();
        lemma_digits_val_pow_step(ds);
        lemma_pow10_le((j - i) as nat, 19);
    }
    let mut acc: u64 = 0;
    let mut k = i;
    while k < j
        invariant
            i <= k <= j <= s@.len(),
            j - i <= 19,
            ds == s@.subrange(i as int, j as int),
            forall|m: int| i <= m < j ==> is_digit(s@[m]),
            acc == spec_digits_val(ds.subrange(0, k - i)),
            forall|m: int|
                0 <= m <= ds.len() ==> 0 <= spec_digits_val(#[trigger] ds.subrange(0, m))
                    < spec_pow10(m as nat),
            spec_pow10((j - i) as nat) <= spec_pow10(19),
            spec_pow10(19) == 10_000_000_000_000_000_000,
        decreases j - k,
    {
        proof {
            assert(ds.subrange(0, k + 1 - i).drop_last() =~= ds.subrange(0, k - i));
            assert(ds.subrange(0, k + 1 - i).last() == s@[k as int]);
            lemma_pow10_le((k + 1 - i) as nat, (j - i) as nat);
            assert(0 <= spec_digits_val(ds.subrange(0, k + 1 - i)) < spec_pow10((j - i) as nat));
        }
        let c = s[k];
        acc = acc * 10 + ((c as u32) as u64 - 48);
        k = k + 1;
    }
    proof {
        assert(ds =~= ds.subrange(0, j - i));
        assert(s@.skip(i as int).skip(ds.len() as int) =~= s@.skip(j as int));
    }
    Some((acc, j))
}

/// Each prefix of a digit run is below the matching power of ten.
proof fn lemma_digits_val_pow_step(ds: Seq<char>)
    requires
        forall|i: int| 0 <= i < ds.len() ==> is_digit(ds[i]),
    ensures
        forall|m: int|
            0 <= m <= ds.len() ==> 0 <= spec_digits_val(#[trigger] ds.subrange(0, m)) < spec_pow10(
                m as nat,
            ),
{
    assert forall|m: int|
        0 <= m <= ds.len() implies 0 <= spec_digits_val(#[trigger] ds.subrange(0, m))
        < spec_pow10(m as nat) by {
        lemma_digits_val_bound(ds.subrange(0, m));
    }
}

/// Powers of ten are positive.
proof fn lemma_pow10_pos(a: nat)
    ensures
        spec_pow10(a) >= 1,
    decreases a,
{
    if a > 0 {
        lemma_pow10_pos((a - 1) as nat);
    }
}

/// Powers of ten do not shrink as the exponent grows.
proof fn lemma_pow10_le(a: nat, b: nat)
    requires
        a <= b,
    ensures
        spec_pow10(a) <= spec_pow10(b),
        spec_pow10(a) >= 1,
    decreases b,
{
    lemma_pow10_pos(a);
    if a < b {
        lemma_pow10_le(a, (b - 1) as nat);
    }
}

/// Appends the canonical digits of `n`.
pub fn enc_nat(out: &mut Vec<char>, n: u64)
    ensures
        final(out)@ == old(out)@ + spec_enc_nat(n as int),
    decreases n,
{
    if n <= 9 {
        out.push(((48 + n as u8)) as char);
        proof {
            assert(out@ =~= old(out)@ + spec_enc_nat(n as int));
        }
    } else {
        enc_nat(out, n / 10);
        out.push((48 + (n % 10) as u8) as char);
        proof {
            assert(out@ =~= old(out)@ + spec_enc_nat(n as int));
        }
    }
}

// --- signed whole numbers -----------------------------------------------

/// The suffix after an optional `.digits` fraction, which whole-number
/// fields read and drop.
pub open spec fn spec_skip_fraction(s: Seq<char>) -> Option<Seq<char>> {
    if s.len() > 0 && s[0] == '.' {
        let fs = spec_digits_prefix(s.skip(1));
        if fs.len() >= 1 {
            Some(s.skip(1 + fs.len() as int))
        } else {
            None
        }
    } else {
        Some(s)
    }
}

/// `Some((value, rest))` when `s` starts with an optionally signed whole
/// number that fits `i64`, any fraction dropped (values round toward zero).
pub open spec fn spec_parse_int(s: Seq<char>) -> Option<(i64, Seq<char>)> {
    if s.len() > 0 && s[0] == '-' {
        match spec_parse_nat(s.skip(1)) {
            Some((n, rest)) => if n <= 0x8000_0000_0000_0000u64 {
                match spec_skip_fraction(rest) {
                    Some(r2) => Some(((-(n as int)) as i64, r2)),
                    None => None,
                }
            } else {
                None
            },
            None => None,
        }
    } else {
        match spec_parse_nat(s) {
            Some((n, rest)) => if n <= 0x7fff_ffff_ffff_ffffu64 {
                match spec_skip_fraction(rest) {
                    Some(r2) => Some((n as i64, r2)),
                    None => None,
                }
            } else {
                None
            },
            None => None,
        }
    }
}

/// The canonical spelling of a signed whole number.
pub open spec fn spec_enc_int(n: int) -> Seq<char> {
    if n >= 0 {
        spec_enc_nat(n)
    } else {
        seq!['-'] + spec_enc_nat(-n)
    }
}

/// A signed whole number followed by anything that does not extend it
/// parses back to itself.
pub proof fn lemma_parse_int_rt(n: i64, rest: Seq<char>)
    requires
        rest.len() == 0 || (!is_digit(rest[0]) && rest[0] != '.'),
    ensures
        spec_parse_int(spec_enc_int(n as int) + rest) == Some((n, rest)),
{
    lemma_pow10_values();
    if n >= 0 {
        lemma_enc_nat(n as int, 19);
        lemma_parse_nat_rt(n as u64, rest);
        let whole = spec_enc_int(n as int) + rest;
        assert(is_digit(whole[0])) by {
            assert(whole[0] == spec_enc_nat(n as int)[0]);
        }
        assert(whole[0] != '-') by {
            assert(('-' as u32) == 45);
        }
    } else {
        let m = -(n as int);
        lemma_enc_nat(m, 19);
        lemma_parse_nat_rt(m as u64, rest);
        let whole = spec_enc_int(n as int) + rest;
        assert(whole[0] == '-');
        assert(whole.skip(1) =~= spec_enc_nat(m) + rest);
    }
}

/// Skips the fraction at `i`, if any.
pub fn skip_fraction(s: &[char], i: usize) -> (r: Option<usize>)
    requires
        i <= s@.len(),
    ensures
        match r {
            Some(j) => i <= j <= s@.len() && spec_skip_fraction(s@.skip(i as int)) == Some(
                s@.skip(j as int),
            ),
            None => spec_skip_fraction(s@.skip(i as int)) is None,
        },
{
    if i < s.len() && s[i] == '.' {
        let j = scan_digits(s, i + 1);
        proof {
            assert(s@.skip(i as int).skip(1) =~= s@.skip(i + 1));
        }
        if j == i + 1 {
            None
        } else {
            proof {
                let fs = spec_digits_prefix(s@.skip(i + 1));
                assert(s@.skip(i as int).skip(1 + fs.len() as int) =~= s@.skip(j as int));
            }
            Some(j)
        }
    } else {
        Some(i)
    }
}

/// Reads an optionally signed whole number at `i`, dropping any fraction.
pub fn parse_int(s: &[char], i: usize) -> (r: Option<(i64, usize)>)
    requires
        i <= s@.len(),
    ensures
        match r {
            Some((n, j)) => i <= j <= s@.len() && spec_parse_int(s@.skip(i as int)) == Some(
                (n, s@.skip(j as int)),
            ),
            None => spec_parse_int(s@.skip(i as int)) is None,
        },
{
    if i < s.len() && s[i] == '-' {
        proof {
            assert(s@.skip(i as int).skip(1) =~= s@.skip(i + 1));
        }
        match parse_nat(s, i + 1) {
            Some((n, j)) => {
                if n <= 0x8000_0000_0000_0000u64 {
                    match skip_fraction(s, j) {
                        Some(j2) => Some(((-(n as i128)) as i64, j2)),
                        None => None,
                    }
                } else {
                    None
                }
            },
            None => None,
        }
    } else {
        match parse_nat(s, i) {
            Some((n, j)) => {
                if n <= 0x7fff_ffff_ffff_ffffu64 {
                    match skip_fraction(s, j) {
                        Some(j2) => Some((n as i64, j2)),
                        None => None,
                    }
                } else {
                    None
                }
            },
            None => None,
        }
    }
}

/// Appends the canonical spelling of a signed whole number.
pub fn enc_int(out: &mut Vec<char>, n: i64)
    ensures
        final(out)@ == old(out)@ + spec_enc_int(n as int),
{
    if n >= 0 {
        enc_nat(out, n as u64);
    } else {
        out.push('-');
        let ghost mid = out@;
        let m: u64 = (-(n as i128)) as u64;
        enc_nat(out, m);
        proof {
            assert(mid =~= old(out)@ + seq!['-']);
            assert(out@ =~= old(out)@ + (seq!['-'] + spec_enc_nat(m as int)));
        }
    }
}

// --- thousandths --------------------------------------------------------

/// The value, in thousandths, of the first three fraction digits.
pub open spec fn spec_frac_millis(fs: Seq<char>) -> int {
    (if fs.len() >= 1 {
        digit_val(fs[0]) * 100
    } else {
        0
    }) + (if fs.len() >= 2 {
        digit_val(fs[1]) * 10
    } else {
        0
    }) + (if fs.len() >= 3 {
        digit_val(fs[2])
    } else {
        0
    })
}

/// `Some((thousandths, rest))` when `s` starts with a decimal number of at
/// most thirteen integer digits; fraction digits past the third are read
/// and dropped.
pub open spec fn spec_parse_milli(s: Seq<char>) -> Option<(u64, Seq<char>)> {
    let ds = spec_digits_prefix(s);
    if 1 <= ds.len() <= 13 {
        let ip = spec_digits_val(ds);
        let rest = s.skip(ds.len() as int);
        if rest.len() > 0 && rest[0] == '.' {
            let fs = spec_digits_prefix(rest.skip(1));
            if fs.len() >= 1 {
                Some(((ip * 1000 + spec_frac_millis(fs)) as u64, rest.skip(1 + fs.len() as int)))
            } else {
                None
            }
        } else {
            Some(((ip * 1000) as u64, rest))
        }
    } else {
        None
    }
}

/// The canonical spelling of a number held in thousandths: the whole part,
/// then any nonzero fraction with its trailing zeros trimmed.
pub open spec fn spec_enc_milli(m: int) -> Seq<char> {
    let ip = m / 1000;
    let f = m % 1000;
    if f == 0 {
        spec_enc_nat(ip)
    } else {
        spec_enc_nat(ip) + seq!['.'] + spec_frac_digits(f)
    }
}

/// The trimmed digits of a nonzero fraction in thousandths.
pub open spec fn spec_frac_digits(f: int) -> Seq<char> {
    let d1 = f / 100;
    let d2 = (f % 100) / 10;
    let d3 = f % 10;
    if d3 != 0 {
        seq![digit_char(d1), digit_char(d2), digit_char(d3)]
    } else if d2 != 0 {
        seq![digit_char(d1), digit_char(d2)]
    } else {
        seq![digit_char(d1)]
    }
}

/// A thousandths value below ten to the sixteenth, spelled canonically and
/// followed by anything that does not extend it, parses back to itself.
pub proof fn lemma_parse_milli_rt(m: u64, rest: Seq<char>)
    requires
        m < 10_000_000_000_000_000,
        rest.len() == 0 || (!is_digit(rest[0]) && rest[0] != '.'),
    ensures
        spec_parse_milli(spec_enc_milli(m as int) + rest) == Some((m, rest)),
{
    lemma_pow10_values();
    let ip = (m as int) / 1000;
    let f = (m as int) % 1000;
    lemma_enc_nat(ip, 13);
    let ds = spec_enc_nat(ip);
    if f == 0 {
        let whole = ds + rest;
        lemma_digits_prefix_exact(ds, rest);
        assert(whole.skip(ds.len() as int) =~= rest);
    } else {
        let fd = spec_frac_digits(f);
        assert(forall|i: int| 0 <= i < fd.len() ==> is_digit(#[trigger] fd[i]));
        let tail = seq!['.'] + fd + rest;
        let whole = ds + tail;
        assert(whole =~= (ds + seq!['.'] + fd) + rest);
        assert(tail[0] == '.');
        assert(!is_digit('.')) by {
            assert(('.' as u32) == 46);
        }
        lemma_digits_prefix_exact(ds, tail);
        assert(whole.skip(ds.len() as int) =~= tail);
        assert(tail.skip(1) =~= fd + rest);
        lemma_digits_prefix_exact(fd, rest);
        assert(spec_frac_millis(fd) == f);
        assert(tail.skip(1 + fd.len() as int) =~= rest);
        assert(ip * 1000 + f == m);
    }
}

/// Reads a decimal number at `i` as thousandths.
pub fn parse_milli(s: &[char], i: usize) -> (r: Option<(u64, usize)>)
    requires
        i <= s@.len(),
    ensures
        match r {
            Some((m, j)) => i <= j <= s@.len() && spec_parse_milli(s@.skip(i as int)) == Some(
                (m, s@.skip(j as int)),
            ),
            None => spec_parse_milli(s@.skip(i as int)) is None,
        },
{
    let j = scan_digits(s, i);
    if j == i || j - i > 13 {
        return None;
    }
    let ghost ds = s@.subrange(i as int, j as int);
    proof {
        lemma_pow10_values();
        lemma_digits_val_pow_step(ds);
        lemma_pow10_le((j - i) as nat, 13);
    }
    let mut acc: u64 = 0;
    let mut k = i;
    while k < j
        invariant
            i <= k <= j <= s@.len(),
            j - i <= 13,
            ds == s@.subrange(i as int, j as int),
            forall|m: int| i <= m < j ==> is_digit(s@[m]),
            acc == spec_digits_val(ds.subrange(0, k - i)),
            forall|m: int|
                0 <= m <= ds.len() ==> 0 <= spec_digits_val(#[trigger] ds.subrange(0, m))
                    < spec_pow10(m as nat),
            spec_pow10((j - i) as nat) <= spec_pow10(13),
            spec_pow10(13) == 10_000_000_000_000,
        decreases j - k,
    {
        proof {
            assert(ds.subrange(0, k + 1 - i).drop_last() =~= ds.subrange(0, k - i));
            assert(ds.subrange(0, k + 1 - i).last() == s@[k as int]);
            lemma_pow10_le((k + 1 - i) as nat, (j - i) as nat);
            assert(0 <= spec_digits_val(ds.subrange(0, k + 1 - i)) < spec_pow10((j - i) as nat));
        }
        let c = s[k];
        acc = acc * 10 + ((c as u32) as u64 - 48);
        k = k + 1;
    }
    proof {
        assert(ds =~= ds.subrange(0, j - i));
    }
    let ip = acc;
    if j < s.len() && s[j] == '.' {
        let j2 = scan_digits(s, j + 1);
        proof {
            assert(s@.skip(i as int).skip(ds.len() as int) =~= s@.skip(j as int));
            assert(s@.skip(j as int).skip(1) =~= s@.skip(j + 1));
        }
        if j2 == j + 1 {
            return None;
        }
        let ghost fs = spec_digits_prefix(s@.skip(j + 1));
        let d1 = (s[j + 1] as u32) as u64 - 48;
        let d2: u64 = if j2 - j > 2 {
            (s[j + 2] as u32) as u64 - 48
        } else {
            0
        };
        let d3: u64 = if j2 - j > 3 {
            (s[j + 3] as u32) as u64 - 48
        } else {
            0
        };
        let frac = d1 * 100 + d2 * 10 + d3;
        proof {
            assert(fs =~= s@.subrange(j + 1, j2 as int));
            assert(fs[0] == s@[j + 1]);
            assert(fs.len() >= 2 ==> fs[1] == s@[j + 2]);
            assert(fs.len() >= 3 ==> fs[2] == s@[j + 3]);
            assert(frac == spec_frac_millis(fs));
            assert(s@.skip(j as int).skip(1 + fs.len() as int) =~= s@.skip(j2 as int));
        }
        Some((ip * 1000 + frac, j2))
    } else {
        proof {
            assert(s@.skip(i as int).skip(ds.len() as int) =~= s@.skip(j as int));
        }
        Some((ip * 1000, j))
    }
}

/// Appends the canonical spelling of a thousandths value.
pub fn enc_milli(out: &mut Vec<char>, m: u64)
    requires
        m < 10_000_000_000_000_000,
    ensures
        final(out)@ == old(out)@ + spec_enc_milli(m as int),
{
    let ip = m / 1000;
    let f = m % 1000;
    enc_nat(out, ip);
    if f != 0 {
        let ghost mid = out@;
        out.push('.');
        let d1 = (f / 100) as u8;
        let d2 = ((f % 100) / 10) as u8;
        let d3 = (f % 10) as u8;
        if d3 != 0 {
            out.push((48 + d1) as char);
            out.push((48 + d2) as char);
            out.push((48 + d3) as char);
        } else if d2 != 0 {
            out.push((48 + d1) as char);
            out.push((48 + d2) as char);
        } else {
            out.push((48 + d1) as char);
        }
        proof {
            assert(out@ =~= old(out)@ + spec_enc_milli(m as int));
        }
    }
}

// --- strings --------------------------------------------------------------

/// The hexadecimal digit with value `d`, lower case.
pub open spec fn hex_char(d: int) -> char {
    if d < 10 {
        digit_char(d)
    } else {
        ((87 + d) as u8) as char
    }
}

/// The value of a hexadecimal digit, either case, or `-1`.
pub open spec fn hex_val(c: char) -> int {
    if 48 <= c as u32 && c as u32 <= 57 {
        c as u32 - 48
    } else if 97 <= c as u32 && c as u32 <= 102 {
        c as u32 - 87
    } else if 65 <= c as u32 && c as u32 <= 70 {
        c as u32 - 55
    } else {
        -1
    }
}

/// A hexadecimal digit.
pub open spec fn is_hex(c: char) -> bool {
    hex_val(c) >= 0
}

/// The character an escape at the front of `s` names, beside the suffix
/// after it.  A `\u` escape must name a scalar value: the surrogate range
/// is refused, so non-BMP characters travel as plain text, never as pairs.
pub open spec fn spec_parse_escape(s: Seq<char>) -> Option<(char, Seq<char>)> {
    if s.len() >= 2 && s[0] == '\\' {
        let e = s[1];
        if e == '"' {
            Some(('"', s.skip(2)))
        } else if e == '\\' {
            Some(('\\', s.skip(2)))
        } else if e == '/' {
            Some(('/', s.skip(2)))
        } else if e == 'b' {
            Some(('\u{8}', s.skip(2)))
        } else if e == 'f' {
            Some(('\u{c}', s.skip(2)))
        } else if e == 'n' {
            Some(('\n', s.skip(2)))
        } else if e == 'r' {
            Some(('\r', s.skip(2)))
        } else if e == 't' {
            Some(('\t', s.skip(2)))
        } else if e == 'u' {
            if s.len() >= 6 && is_hex(s[2]) && is_hex(s[3]) && is_hex(s[4]) && is_hex(s[5]) {
                let v = hex_val(s[2]) * 4096 + hex_val(s[3]) * 256 + hex_val(s[4]) * 16 + hex_val(
                    s[5],
                );
                if v < 0xD800 || v > 0xDFFF {
                    Some(((v as u32) as char, s.skip(6)))
                } else {
                    None
                }
            } else {
                None
            }
        } else {
            None
        }
    } else {
        None
    }
}

/// The characters up to the closing quote, escapes decoded, beside the
/// suffix after the quote.  A bare control character or a lone backslash is
/// refused.
pub open spec fn spec_parse_string_rest(s: Seq<char>) -> Option<(Seq<char>, Seq<char>)>
    decreases s.len(),
{
    if s.len() == 0 {
        None
    } else if s[0] == '"' {
        Some((Seq::empty(), s.skip(1)))
    } else if s[0] == '\\' {
        match spec_parse_escape(s) {
            Some((c, rest)) => if rest.len() < s.len() {
                match spec_parse_string_rest(rest) {
                    Some((t, r2)) => Some((seq![c] + t, r2)),
                    None => None,
                }
            } else {
                None
            },
            None => None,
        }
    } else if s[0] as u32 >= 32 {
        match spec_parse_string_rest(s.skip(1)) {
            Some((t, r2)) => Some((seq![s[0]] + t, r2)),
            None => None,
        }
    } else {
        None
    }
}

/// `Some((text, rest))` when `s` starts with a quoted string.
pub open spec fn spec_parse_string(s: Seq<char>) -> Option<(Seq<char>, Seq<char>)> {
    if s.len() > 0 && s[0] == '"' {
        spec_parse_string_rest(s.skip(1))
    } else {
        None
    }
}

/// The canonical spelling of one character inside a string: itself, unless
/// it must be escaped.
pub open spec fn spec_enc_char(c: char) -> Seq<char> {
    if c == '"' {
        seq!['\\', '"']
    } else if c == '\\' {
        seq!['\\', '\\']
    } else if (c as u32) < 32 {
        seq!['\\', 'u', '0', '0', hex_char((c as u32) as int / 16), hex_char((c as u32) as int % 16)]
    } else {
        seq![c]
    }
}

/// The canonical spelling of a string's characters.
pub open spec fn spec_enc_str_body(t: Seq<char>) -> Seq<char>
    decreases t.len(),
{
    if t.len() == 0 {
        Seq::empty()
    } else {
        spec_enc_char(t[0]) + spec_enc_str_body(t.skip(1))
    }
}

/// The canonical spelling of a quoted string.
pub open spec fn spec_enc_string(t: Seq<char>) -> Seq<char> {
    seq!['"'] + spec_enc_str_body(t) + seq!['"']
}

/// Hexadecimal digits spell their own values.
proof fn lemma_hex_char(d: int)
    requires
        0 <= d < 16,
    ensures
        is_hex(hex_char(d)),
        hex_val(hex_char(d)) == d,
        (hex_char(d) as u32) < 0xD800,
{
}

/// A string body followed by its closing quote parses back to the text the
/// body spells.
#[verifier::rlimit(50)]
proof fn lemma_parse_str_body_rt(t: Seq<char>, rest: Seq<char>)
    ensures
        spec_parse_string_rest(spec_enc_str_body(t) + seq!['"'] + rest) == Some((t, rest)),
    decreases t.len(),
{

    if t.len() == 0 {
        let s = spec_enc_str_body(t) + seq!['"'] + rest;
        assert(s =~= seq!['"'] + rest);
        assert(s[0] == '"');
        assert(s.skip(1) =~= rest);
    } else {
        let c = t[0];
        let body = spec_enc_str_body(t);
        let tail = spec_enc_str_body(t.skip(1)) + seq!['"'] + rest;
        let s = body + seq!['"'] + rest;
        assert(s =~= spec_enc_char(c) + tail);
        lemma_parse_str_body_rt(t.skip(1), rest);
        if c == '"' {
            assert(s[0] == '\\' && s[1] == '"');
            assert(s.skip(2) =~= tail);
            assert(seq![c] + t.skip(1) =~= t);
        } else if c == '\\' {
            assert(s[0] == '\\' && s[1] == '\\');
            assert(s.skip(2) =~= tail);
            assert(seq![c] + t.skip(1) =~= t);
        } else if (c as u32) < 32 {
            let hi = hex_char((c as u32) as int / 16);
            let lo = hex_char((c as u32) as int % 16);
            lemma_hex_char((c as u32) as int / 16);
            lemma_hex_char((c as u32) as int % 16);
            assert(s[0] == '\\' && s[1] == 'u' && s[2] == '0' && s[3] == '0' && s[4] == hi && s[5]
                == lo);
            assert(s.len() >= 6);
            assert(is_hex('0')) by {
                assert(('0' as u32) == 48);
            }
            assert(hex_val('0') == 0) by {
                assert(('0' as u32) == 48);
            }
            let v = hex_val(s[2]) * 4096 + hex_val(s[3]) * 256 + hex_val(s[4]) * 16 + hex_val(s[5]);
            assert(v == c as u32);
            vstd::utf8::char_u32_cast(c, v as u32);
            assert((v as u32) as char == c);
            assert(s.skip(6) =~= tail);
            assert(seq![c] + t.skip(1) =~= t);
        } else {
            assert(s[0] == c);
            assert(s[0] != '"' && s[0] != '\\');
            assert(s.skip(1) =~= tail);
            assert(seq![c] + t.skip(1) =~= t);
        }
    }
}

/// A string spelled canonically parses back to itself.
pub proof fn lemma_parse_string_rt(t: Seq<char>, rest: Seq<char>)
    ensures
        spec_parse_string(spec_enc_string(t) + rest) == Some((t, rest)),
{
    let s = spec_enc_string(t) + rest;
    assert(s[0] == '"');
    assert(s.skip(1) =~= spec_enc_str_body(t) + seq!['"'] + rest);
    lemma_parse_str_body_rt(t, rest);
}

/// Reads the escape at `i`.
fn parse_escape(s: &[char], i: usize) -> (r: Option<(char, usize)>)
    requires
        i <= s@.len(),
    ensures
        match r {
            Some((c, j)) => i <= j <= s@.len() && spec_parse_escape(s@.skip(i as int)) == Some(
                (c, s@.skip(j as int)),
            ),
            None => spec_parse_escape(s@.skip(i as int)) is None,
        },
{
    let n = s.len();
    if n - i < 2 || s[i] != '\\' {
        return None;
    }
    proof {
        assert(s@.skip(i as int).skip(2) =~= s@.skip(i + 2));
    }
    let e = s[i + 1];
    if e == '"' {
        Some(('"', i + 2))
    } else if e == '\\' {
        Some(('\\', i + 2))
    } else if e == '/' {
        Some(('/', i + 2))
    } else if e == 'b' {
        Some(('\u{8}', i + 2))
    } else if e == 'f' {
        Some(('\u{c}', i + 2))
    } else if e == 'n' {
        Some(('\n', i + 2))
    } else if e == 'r' {
        Some(('\r', i + 2))
    } else if e == 't' {
        Some(('\t', i + 2))
    } else if e == 'u' {
        if n - i < 6 {
            return None;
        }
        let h1 = hex_digit(s[i + 2]);
        let h2 = hex_digit(s[i + 3]);
        let h3 = hex_digit(s[i + 4]);
        let h4 = hex_digit(s[i + 5]);
        match (h1, h2, h3, h4) {
            (Some(a), Some(b), Some(c), Some(d)) => {
                let v: u32 = (a as u32) * 4096 + (b as u32) * 256 + (c as u32) * 16 + (d as u32);
                if v < 0xD800 || v > 0xDFFF {
                    proof {
                        assert(vstd::utf8::is_scalar(v));
                        assert(s@.skip(i as int).skip(6) =~= s@.skip(i + 6));
                    }
                    match char::from_u32(v) {
                        Some(ch) => {
                            proof {
                                vstd::utf8::char_u32_cast(ch, v);
                                let w = hex_val(s@[i + 2]) * 4096 + hex_val(s@[i + 3]) * 256
                                    + hex_val(s@[i + 4]) * 16 + hex_val(s@[i + 5]);
                                assert(w == v as int);
                                assert((w as u32) as char == ch);
                            }
                            Some((ch, i + 6))
                        },
                        None => None,
                    }
                } else {
                    None
                }
            },
            _ => None,
        }
    } else {
        None
    }
}

/// The value of a hexadecimal digit, if `c` is one.
fn hex_digit(c: char) -> (r: Option<u8>)
    ensures
        match r {
            Some(v) => is_hex(c) && v == hex_val(c),
            None => !is_hex(c),
        },
{
    let u = c as u32;
    if 48 <= u && u <= 57 {
        Some((u - 48) as u8)
    } else if 97 <= u && u <= 102 {
        Some((u - 87) as u8)
    } else if 65 <= u && u <= 70 {
        Some((u - 55) as u8)
    } else {
        None
    }
}

/// Reads the quoted string at `i`.
pub fn parse_string(s: &[char], i: usize) -> (r: Option<(Vec<char>, usize)>)
    requires
        i <= s@.len(),
    ensures
        match r {
            Some((t, j)) => i <= j <= s@.len() && spec_parse_string(s@.skip(i as int)) == Some(
                (t@, s@.skip(j as int)),
            ),
            None => spec_parse_string(s@.skip(i as int)) is None,
        },
{
    let n = s.len();
    if i >= n || s[i] != '"' {
        return None;
    }
    proof {
        assert(s@.skip(i as int).skip(1) =~= s@.skip(i + 1));
    }
    let mut out: Vec<char> = Vec::new();
    let mut k = i + 1;
    proof {
        match spec_parse_string_rest(s@.skip(i + 1)) {
            Some((t, r)) => {
                assert(Seq::<char>::empty() + t =~= t);
            },
            None => {},
        }
    }
    loop
        invariant
            i + 1 <= k <= n,
            n == s@.len(),
            i < n,
            s@[i as int] == '"',
            spec_parse_string(s@.skip(i as int)) == spec_parse_string_rest(s@.skip(i + 1)),
            match spec_parse_string_rest(s@.skip(k as int)) {
                Some((t, r)) => spec_parse_string_rest(s@.skip(i + 1)) == Some((out@ + t, r)),
                None => spec_parse_string_rest(s@.skip(i + 1)) is None,
            },
        decreases n - k,
    {
        if k >= n {
            return None;
        }
        let c = s[k];
        if c == '"' {
            proof {
                assert(s@.skip(k as int)[0] == '"');
                assert(s@.skip(k as int).skip(1) =~= s@.skip(k + 1));
                assert(out@ + Seq::<char>::empty() =~= out@);
            }
            return Some((out, k + 1));
        }
        if c == '\\' {
            match parse_escape(s, k) {
                Some((ch, j)) => {
                    proof {
                        assert(s@.skip(k as int)[0] == '\\');
                        assert(s@.skip(j as int).len() < s@.skip(k as int).len()) by {
                            assert(s@.skip(k as int).len() >= 2);
                        }
                        match spec_parse_string_rest(s@.skip(j as int)) {
                            Some((t2, r2)) => {
                                assert(spec_parse_string_rest(s@.skip(k as int)) == Some(
                                    (seq![ch] + t2, r2),
                                ));
                                assert(out@ + (seq![ch] + t2) =~= (out@ + seq![ch]) + t2);
                            },
                            None => {
                                assert(spec_parse_string_rest(s@.skip(k as int)) is None);
                            },
                        }
                    }
                    out.push(ch);
                    k = j;
                },
                None => {
                    proof {
                        assert(s@.skip(k as int)[0] == '\\');
                        assert(spec_parse_string_rest(s@.skip(k as int)) is None);
                    }
                    return None;
                },
            }
        } else if (c as u32) >= 32 {
            proof {
                assert(s@.skip(k as int)[0] == c);
                assert(s@.skip(k as int).skip(1) =~= s@.skip(k + 1));
                match spec_parse_string_rest(s@.skip(k + 1)) {
                    Some((t2, r2)) => {
                        assert(spec_parse_string_rest(s@.skip(k as int)) == Some(
                            (seq![c] + t2, r2),
                        ));
                        assert(out@ + (seq![c] + t2) =~= (out@ + seq![c]) + t2);
                    },
                    None => {
                        assert(spec_parse_string_rest(s@.skip(k as int)) is None);
                    },
                }
            }
            out.push(c);
            k = k + 1;
        } else {
            proof {
                assert(s@.skip(k as int)[0] == c);
                assert(spec_parse_string_rest(s@.skip(k as int)) is None);
            }
            return None;
        }
    }
}

/// Appends the canonical spelling of `t` as a quoted string.
pub fn enc_string(out: &mut Vec<char>, t: &str)
    ensures
        final(out)@ == old(out)@ + spec_enc_string(t@),
{
    out.push('"');
    let n = vstd::string::StrSliceExecFns::unicode_len(t);
    let mut k: usize = 0;
    while k < n
        invariant
            0 <= k <= n,
            n == t@.len(),
            out@ == old(out)@ + seq!['"'] + spec_enc_str_body(t@.take(k as int)),
        decreases n - k,
    {
        let c = vstd::string::StrSliceExecFns::get_char(t, k);
        let ghost pre = out@;
        if c == '"' {
            out.push('\\');
            out.push('"');
        } else if c == '\\' {
            out.push('\\');
            out.push('\\');
        } else if (c as u32) < 32 {
            out.push('\\');
            out.push('u');
            out.push('0');
            out.push('0');
            out.push(hex_digit_char(((c as u32) / 16) as u8));
            out.push(hex_digit_char(((c as u32) % 16) as u8));
        } else {
            out.push(c);
        }
        proof {
            assert(out@ =~= pre + spec_enc_char(t@[k as int]));
            lemma_enc_str_body_snoc(t@, k as int);
            assert(out@ =~= old(out)@ + seq!['"'] + spec_enc_str_body(t@.take(k + 1)));
        }
        k = k + 1;
    }
    let ghost pre = out@;
    out.push('"');
    proof {
        assert(out@ =~= pre + seq!['"']);
        assert(t@.take(n as int) =~= t@);
        assert(out@ =~= old(out)@ + spec_enc_string(t@));
    }
}

/// The hexadecimal digit with value `v`, lower case.
fn hex_digit_char(v: u8) -> (c: char)
    requires
        v < 16,
    ensures
        c == hex_char(v as int),
{
    if v < 10 {
        (48 + v) as char
    } else {
        (87 + v) as char
    }
}

/// Encoding one more character extends the encoded body by that character's
/// spelling.
pub proof fn lemma_enc_str_body_snoc(t: Seq<char>, k: int)
    requires
        0 <= k < t.len(),
    ensures
        spec_enc_str_body(t.take(k + 1)) == spec_enc_str_body(t.take(k)) + spec_enc_char(t[k]),
    decreases k,
{
    if k == 0 {
        assert(t.take(1) =~= seq![t[0]]);
        assert(t.take(1)[0] == t[0]);
        assert(t.take(1).skip(1) =~= Seq::<char>::empty());
        assert(spec_enc_str_body(Seq::<char>::empty()) =~= Seq::<char>::empty());
        assert(t.take(0) =~= Seq::<char>::empty());
        assert(spec_enc_str_body(t.take(1)) == spec_enc_char(t[0]) + spec_enc_str_body(
            Seq::<char>::empty(),
        ));
        assert(spec_enc_char(t[0]) + Seq::<char>::empty() =~= spec_enc_char(t[0]));
    } else {
        lemma_enc_str_body_snoc(t.skip(1), k - 1);
        assert(t.take(k + 1)[0] == t[0]);
        assert(t.take(k + 1).skip(1) =~= t.skip(1).take(k));
        assert(t.take(k).skip(1) =~= t.skip(1).take(k - 1));
        assert(t.take(k)[0] == t[0]);
        assert(t.skip(1)[k - 1] == t[k]);
        assert(spec_enc_str_body(t.take(k + 1)) == spec_enc_char(t[0]) + spec_enc_str_body(
            t.skip(1).take(k),
        ));
        assert(spec_enc_str_body(t.take(k)) == spec_enc_char(t[0]) + spec_enc_str_body(
            t.skip(1).take(k - 1),
        ));
        assert(spec_enc_char(t[0]) + (spec_enc_str_body(t.skip(1).take(k - 1)) + spec_enc_char(
            t[k],
        )) =~= (spec_enc_char(t[0]) + spec_enc_str_body(t.skip(1).take(k - 1))) + spec_enc_char(
            t[k],
        ));
    }
}

} // verus!

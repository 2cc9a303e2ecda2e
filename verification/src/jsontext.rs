//! Byte-level primitives of the channel's wire form.
//!
//! The channel speaks compact JSON text.  This module holds the pieces
//! both directions are built from: decimal numbers, escaped strings,
//! fixed literals.  Each emitter is specified by a spec-level encoding
//! function, each parser by a spec-level mirror, and inversion lemmas
//! show that parsing undoes emitting — the ground the response
//! round-trip proof stands on.

use vstd::prelude::*;
use vstd::arithmetic::div_mod::lemma_fundamental_div_mod;
use vstd::string::StringSliceAdditionalSpecFns;

verus! {

/// An ASCII decimal digit.
pub open spec fn is_digit(b: u8) -> bool {
    48 <= b <= 57
}

/// The decimal digits of `n`, most significant first.
pub open spec fn dec_digits(n: nat) -> Seq<u8>
    decreases n,
{
    if n < 10 {
        seq![(48 + n) as u8]
    } else {
        dec_digits(n / 10) + seq![(48 + n % 10) as u8]
    }
}

/// Every byte of a decimal rendering is a digit.
pub proof fn lemma_dec_digits_are_digits(n: nat)
    ensures
        dec_digits(n).len() >= 1,
        forall|k: int| 0 <= k < dec_digits(n).len() ==> is_digit(#[trigger] dec_digits(n)[k]),
    decreases n,
{
    if n >= 10 {
        lemma_dec_digits_are_digits(n / 10);
    }
}

/// Appends the decimal rendering of `n`.
pub fn emit_u64(out: &mut Vec<u8>, n: u64)
    ensures
        final(out)@ == old(out)@ + dec_digits(n as nat),
    decreases n,
{
    if n < 10 {
        out.push(48 + (n as u8));
        proof {
            assert(out@ =~= old(out)@ + dec_digits(n as nat));
        }
    } else {
        let ghost pre = out@;
        emit_u64(out, n / 10);
        out.push(48 + ((n % 10) as u8));
        proof {
            assert(out@ =~= pre + dec_digits(n as nat));
        }
    }
}

/// The parser's accumulator loop: consumes digits while they last,
/// folding each into the value, and fails on u64 overflow.
pub open spec fn spec_parse_u64_loop(s: Seq<u8>, i: int, acc: u64) -> Option<(u64, int)>
    decreases s.len() - i,
{
    if 0 <= i < s.len() && is_digit(s[i]) {
        let d = (s[i] - 48) as u64;
        if acc > (u64::MAX - d) / 10 {
            None
        } else {
            spec_parse_u64_loop(s, i + 1, (acc * 10 + d) as u64)
        }
    } else {
        Some((acc, i))
    }
}

/// A decimal number at position `i`: at least one digit, read greedily.
pub open spec fn spec_parse_u64(s: Seq<u8>, i: int) -> Option<(u64, int)> {
    if 0 <= i < s.len() && is_digit(s[i]) {
        spec_parse_u64_loop(s, i, 0)
    } else {
        None
    }
}

/// Reads a decimal `u64` at position `i`.
pub fn parse_u64(s: &Vec<u8>, i: usize) -> (r: Option<(u64, usize)>)
    requires
        i <= s.len(),
    ensures
        match r {
            Some((v, j)) => spec_parse_u64(s@, i as int) == Some((v, j as int)) && i < j <= s.len(),
            None => spec_parse_u64(s@, i as int) is None,
        },
{
    if i == s.len() || !(48 <= s[i] && s[i] <= 57) {
        return None;
    }
    let mut j: usize = i;
    let mut acc: u64 = 0;
    loop
        invariant
            i <= j <= s.len(),
            spec_parse_u64(s@, i as int) == spec_parse_u64_loop(s@, j as int, acc),
            j == i ==> acc == 0,
        decreases s.len() - j,
    {
        if j == s.len() || !(48 <= s[j] && s[j] <= 57) {
            return Some((acc, j));
        }
        let d: u64 = (s[j] - 48) as u64;
        if acc > (u64::MAX - d) / 10 {
            return None;
        }
        acc = acc * 10 + d;
        j = j + 1;
    }
}

/// Digit folding: the value after consuming the digits `ds` on top of an
/// accumulator.
pub open spec fn fold_dec(acc: int, ds: Seq<u8>) -> int
    decreases ds.len(),
{
    if ds.len() == 0 {
        acc
    } else {
        fold_dec(acc * 10 + (ds[0] - 48), ds.drop_first())
    }
}

/// Folding digits never shrinks a non-negative accumulator.
proof fn lemma_fold_dec_monotone(acc: int, ds: Seq<u8>)
    requires
        acc >= 0,
        forall|k: int| 0 <= k < ds.len() ==> is_digit(#[trigger] ds[k]),
    ensures
        fold_dec(acc, ds) >= acc,
    decreases ds.len(),
{
    if ds.len() > 0 {
        lemma_fold_dec_monotone(acc * 10 + (ds[0] - 48), ds.drop_first());
    }
}

/// The accumulator loop consumes exactly a digit run followed by a
/// non-digit, and computes the fold, when the folded value fits.
proof fn lemma_parse_loop_digits(s: Seq<u8>, i: int, ds: Seq<u8>, acc: u64)
    requires
        0 <= i,
        i + ds.len() <= s.len(),
        s.subrange(i, i + ds.len()) == ds,
        forall|k: int| 0 <= k < ds.len() ==> is_digit(#[trigger] ds[k]),
        i + ds.len() == s.len() || !is_digit(s[i + ds.len()]),
        fold_dec(acc as int, ds) <= u64::MAX,
    ensures
        spec_parse_u64_loop(s, i, acc) == Some((fold_dec(acc as int, ds) as u64, i + ds.len())),
    decreases ds.len(),
{
    if ds.len() == 0 {
        assert(i == s.len() || !is_digit(s[i]));
    } else {
        assert(s[i] == ds[0]);
        let d = (ds[0] - 48) as u64;
        let acc2 = acc as int * 10 + d;
        lemma_fold_dec_monotone(acc2, ds.drop_first());
        assert(fold_dec(acc2, ds.drop_first()) == fold_dec(acc as int, ds));
        assert(acc2 <= u64::MAX);
        assert(!(acc > (u64::MAX - d) / 10));
        assert(s.subrange(i + 1, i + ds.len()) =~= ds.drop_first());
        lemma_parse_loop_digits(s, i + 1, ds.drop_first(), acc2 as u64);
    }
}

/// Folding distributes over appended digit runs.
proof fn lemma_fold_dec_append(acc: int, ds1: Seq<u8>, ds2: Seq<u8>)
    ensures
        fold_dec(acc, ds1 + ds2) == fold_dec(fold_dec(acc, ds1), ds2),
    decreases ds1.len(),
{
    if ds1.len() == 0 {
        assert(ds1 + ds2 =~= ds2);
    } else {
        assert((ds1 + ds2).drop_first() =~= ds1.drop_first() + ds2);
        lemma_fold_dec_append(acc * 10 + ((ds1 + ds2)[0] - 48), ds1.drop_first(), ds2);
    }
}

/// Folding the decimal rendering of `v` from zero gives back `v`.
proof fn lemma_fold_dec_digits(v: nat)
    ensures
        fold_dec(0, dec_digits(v)) == v,
    decreases v,
{
    if v < 10 {
        let ds = dec_digits(v);
        assert(ds == seq![(48 + v) as u8]);
        assert(ds[0] == (48 + v) as u8);
        assert(48 + v < 256);
        assert(ds[0] - 48 == v);
        assert(ds.drop_first() =~= Seq::<u8>::empty());
        assert(fold_dec(0, ds) == fold_dec(0 * 10 + (ds[0] - 48), ds.drop_first()));
    } else {
        lemma_fold_dec_digits(v / 10);
        lemma_fold_dec_append(0, dec_digits(v / 10), seq![(48 + v % 10) as u8]);
        let a = fold_dec(0, dec_digits(v / 10));
        let d = (48 + v % 10) as u8;
        assert(v % 10 < 10);
        assert(d - 48 == v % 10);
        assert(fold_dec(a, seq![d]) == a * 10 + (v % 10)) by {
            assert(seq![d][0] == d);
            assert(seq![d].drop_first() =~= Seq::<u8>::empty());
            assert(fold_dec(a, seq![d]) == fold_dec(a * 10 + (seq![d][0] - 48), seq![d].drop_first()));
        }
        lemma_fundamental_div_mod(v as int, 10);
    }
}

/// Parsing undoes emitting: at a position holding the decimal rendering
/// of `v` followed by a non-digit (or the end), the number parser returns
/// exactly `v` and stops right after the digits.
pub proof fn lemma_parse_u64_inverts(s: Seq<u8>, i: int, v: u64)
    requires
        0 <= i,
        i + dec_digits(v as nat).len() <= s.len(),
        s.subrange(i, i + dec_digits(v as nat).len()) == dec_digits(v as nat),
        i + dec_digits(v as nat).len() == s.len() || !is_digit(s[i + dec_digits(v as nat).len()]),
    ensures
        spec_parse_u64(s, i) == Some((v, i + dec_digits(v as nat).len())),
{
    let ds = dec_digits(v as nat);
    lemma_dec_digits_are_digits(v as nat);
    lemma_fold_dec_digits(v as nat);
    assert(s[i] == ds[0]);
    lemma_parse_loop_digits(s, i, ds, 0);
}

/// One lowercase hex digit.
pub open spec fn hex_digit(n: u8) -> u8 {
    if n < 10 {
        (48 + n) as u8
    } else {
        (87 + n) as u8
    }
}

/// The escape of one byte inside a JSON string: quote and backslash get
/// a backslash escape, the common control characters their short forms,
/// any other control byte a `\u00XX` form, and everything else stands as
/// itself.
pub open spec fn esc_byte(b: u8) -> Seq<u8> {
    if b == 34 {
        seq![92u8, 34u8]
    } else if b == 92 {
        seq![92u8, 92u8]
    } else if b == 10 {
        seq![92u8, 110u8]
    } else if b == 13 {
        seq![92u8, 114u8]
    } else if b == 9 {
        seq![92u8, 116u8]
    } else if b < 32 {
        seq![92u8, 117u8, 48u8, 48u8, hex_digit(b / 16), hex_digit(b % 16)]
    } else {
        seq![b]
    }
}

/// The escaped form of a byte string.
pub open spec fn esc_bytes(s: Seq<u8>) -> Seq<u8>
    decreases s.len(),
{
    if s.len() == 0 {
        Seq::empty()
    } else {
        esc_byte(s[0]) + esc_bytes(s.drop_first())
    }
}

/// Escaping a string one byte longer appends that byte's escape.
proof fn lemma_esc_bytes_snoc(s: Seq<u8>, b: u8)
    ensures
        esc_bytes(s.push(b)) == esc_bytes(s) + esc_byte(b),
    decreases s.len(),
{
    if s.len() == 0 {
        assert(s.push(b)[0] == b);
        assert(s.push(b).drop_first() =~= Seq::<u8>::empty());
        assert(esc_bytes(s.push(b)) == esc_byte(b) + esc_bytes(Seq::<u8>::empty()));
        assert(esc_byte(b) + Seq::<u8>::empty() =~= esc_byte(b));
        assert(esc_bytes(s) + esc_byte(b) =~= esc_byte(b));
    } else {
        assert(s.push(b)[0] == s[0]);
        assert(s.push(b).drop_first() =~= s.drop_first().push(b));
        lemma_esc_bytes_snoc(s.drop_first(), b);
        assert(esc_bytes(s.push(b)) =~= esc_bytes(s) + esc_byte(b));
    }
}

/// Appends one escaped byte.
fn emit_esc_byte(out: &mut Vec<u8>, b: u8)
    ensures
        final(out)@ == old(out)@ + esc_byte(b),
{
    if b == 34 {
        out.push(92);
        out.push(34);
    } else if b == 92 {
        out.push(92);
        out.push(92);
    } else if b == 10 {
        out.push(92);
        out.push(110);
    } else if b == 13 {
        out.push(92);
        out.push(114);
    } else if b == 9 {
        out.push(92);
        out.push(116);
    } else if b < 32 {
        out.push(92);
        out.push(117);
        out.push(48);
        out.push(48);
        let hi = b / 16;
        let lo = b % 16;
        out.push(if hi < 10 { 48 + hi } else { 87 + hi });
        out.push(if lo < 10 { 48 + lo } else { 87 + lo });
    } else {
        out.push(b);
    }
    proof {
        assert(out@ =~= old(out)@ + esc_byte(b));
    }
}

/// Appends a quoted, escaped JSON string.
pub fn emit_string(out: &mut Vec<u8>, s: &Vec<u8>)
    ensures
        final(out)@ == old(out)@ + seq![34u8] + esc_bytes(s@) + seq![34u8],
{
    out.push(34);
    let ghost start = out@;
    let mut k: usize = 0;
    while k < s.len()
        invariant
            k <= s.len(),
            start == old(out)@ + seq![34u8],
            out@ == start + esc_bytes(s@.take(k as int)),
        decreases s.len() - k,
    {
        emit_esc_byte(out, s[k]);
        proof {
            assert(s@.take(k as int).push(s@[k as int]) =~= s@.take(k as int + 1));
            lemma_esc_bytes_snoc(s@.take(k as int), s@[k as int]);
        }
        k = k + 1;
    }
    out.push(34);
    proof {
        assert(s@.take(s@.len() as int) =~= s@);
        assert(out@ =~= old(out)@ + seq![34u8] + esc_bytes(s@) + seq![34u8]);
    }
}

/// The value of a lowercase hex digit byte, or 16 if it is none.
pub open spec fn hex_val(b: u8) -> u8 {
    if 48 <= b <= 57 {
        (b - 48) as u8
    } else if 97 <= b <= 102 {
        (b - 87) as u8
    } else {
        16
    }
}

/// The string parser's mirror: consumes from just after the opening
/// quote up to and including the closing quote, undoing escapes.  `\u`
/// escapes are accepted for ASCII code points only — the channel's wire
/// form never carries others.
pub open spec fn spec_parse_string_body(s: Seq<u8>, i: int) -> Option<(Seq<u8>, int)>
    decreases s.len() - i,
{
    if i < 0 || i >= s.len() {
        None
    } else if s[i] == 34 {
        Some((Seq::empty(), i + 1))
    } else if s[i] == 92 {
        if i + 1 >= s.len() {
            None
        } else {
            let e = s[i + 1];
            if e == 34 || e == 92 {
                cons_parsed(e, spec_parse_string_body(s, i + 2))
            } else if e == 110 {
                cons_parsed(10, spec_parse_string_body(s, i + 2))
            } else if e == 114 {
                cons_parsed(13, spec_parse_string_body(s, i + 2))
            } else if e == 116 {
                cons_parsed(9, spec_parse_string_body(s, i + 2))
            } else if e == 117 {
                if i + 6 <= s.len() && s[i + 2] == 48 && s[i + 3] == 48 && hex_val(s[i + 4]) < 8
                    && hex_val(s[i + 5]) < 16 {
                    cons_parsed(
                        (hex_val(s[i + 4]) * 16 + hex_val(s[i + 5])) as u8,
                        spec_parse_string_body(s, i + 6),
                    )
                } else {
                    None
                }
            } else {
                None
            }
        }
    } else if s[i] >= 32 {
        cons_parsed(s[i], spec_parse_string_body(s, i + 1))
    } else {
        None
    }
}

/// Prepends a decoded byte to a parse continuation.
pub open spec fn cons_parsed(b: u8, rest: Option<(Seq<u8>, int)>) -> Option<(Seq<u8>, int)> {
    match rest {
        Some((t, j)) => Some((seq![b] + t, j)),
        None => None,
    }
}

/// A quoted string at position `i`.
pub open spec fn spec_parse_string(s: Seq<u8>, i: int) -> Option<(Seq<u8>, int)> {
    if 0 <= i < s.len() && s[i] == 34 {
        spec_parse_string_body(s, i + 1)
    } else {
        None
    }
}

/// Reads a quoted string at position `i`, undoing escapes.
pub fn parse_string(s: &Vec<u8>, i: usize) -> (r: Option<(Vec<u8>, usize)>)
    requires
        i <= s.len(),
    ensures
        match r {
            Some((v, j)) => spec_parse_string(s@, i as int) == Some((v@, j as int)) && i < j
                <= s.len(),
            None => spec_parse_string(s@, i as int) is None,
        },
{
    if i == s.len() || s[i] != 34 {
        return None;
    }
    let mut j: usize = i + 1;
    let mut out: Vec<u8> = Vec::new();
    proof {
        match spec_parse_string_body(s@, i as int + 1) {
            Some((t, e)) => {
                assert(Seq::<u8>::empty() + t =~= t);
            },
            None => {},
        }
    }
    loop
        invariant
            i < s.len(),
            s@[i as int] == 34,
            i + 1 <= j <= s.len(),
            spec_parse_string_body(s@, i as int + 1) == (match spec_parse_string_body(
                s@,
                j as int,
            ) {
                Some((t, e)) => Some((out@ + t, e)),
                None => None,
            }),
        decreases s.len() - j,
    {
        if j == s.len() {
            return None;
        }
        let b = s[j];
        if b == 34 {
            proof {
                assert(spec_parse_string_body(s@, j as int) == Some(
                    (Seq::<u8>::empty(), j as int + 1),
                ));
                assert(out@ + Seq::<u8>::empty() =~= out@);
                assert(spec_parse_string_body(s@, i as int + 1) =~~= Some(
                    (out@, j as int + 1),
                ));
                assert(spec_parse_string(s@, i as int) == Some((out@, j as int + 1)));
            }
            return Some((out, j + 1));
        } else if b == 92 {
            if j + 1 == s.len() {
                return None;
            }
            let e = s[j + 1];
            let ghost out_pre = out@;
            if e == 34 || e == 92 {
                out.push(e);
                proof {
                    lemma_cons_shift(out_pre, e, s@, j as int + 2);
                }
                j = j + 2;
            } else if e == 110 {
                out.push(10);
                proof {
                    lemma_cons_shift(out_pre, 10, s@, j as int + 2);
                }
                j = j + 2;
            } else if e == 114 {
                out.push(13);
                proof {
                    lemma_cons_shift(out_pre, 13, s@, j as int + 2);
                }
                j = j + 2;
            } else if e == 116 {
                out.push(9);
                proof {
                    lemma_cons_shift(out_pre, 9, s@, j as int + 2);
                }
                j = j + 2;
            } else if e == 117 {
                if s.len() - j < 6 || s[j + 2] != 48 || s[j + 3] != 48 {
                    return None;
                }
                let h1 = hex_val_exec(s[j + 4]);
                let h2 = hex_val_exec(s[j + 5]);
                if h1 >= 8 || h2 >= 16 {
                    return None;
                }
                out.push(h1 * 16 + h2);
                proof {
                    lemma_cons_shift(out_pre, (h1 * 16 + h2) as u8, s@, j as int + 6);
                }
                j = j + 6;
            } else {
                return None;
            }
        } else if b >= 32 {
            let ghost out_pre = out@;
            out.push(b);
            proof {
                lemma_cons_shift(out_pre, b, s@, j as int + 1);
            }
            j = j + 1;
        } else {
            return None;
        }
    }
}

/// Accumulated bytes distribute over the parse continuation.
proof fn lemma_cons_shift(acc: Seq<u8>, b: u8, s: Seq<u8>, j: int)
    ensures
        (match cons_parsed(b, spec_parse_string_body(s, j)) {
            Some((t, e)) => Some((acc + t, e)),
            None => None,
        }) == (match spec_parse_string_body(s, j) {
            Some((t, e)) => Some::<(Seq<u8>, int)>((acc.push(b) + t, e)),
            None => None,
        }),
{
    match spec_parse_string_body(s, j) {
        Some((t, e)) => {
            assert(acc + (seq![b] + t) =~= acc.push(b) + t);
        },
        None => {},
    }
}

/// The value of a lowercase hex digit byte, or 16 if it is none.
fn hex_val_exec(b: u8) -> (v: u8)
    ensures
        v == hex_val(b),
{
    if 48 <= b && b <= 57 {
        b - 48
    } else if 97 <= b && b <= 102 {
        b - 87
    } else {
        16
    }
}

/// Escaped bytes parse back to what was escaped: from just after an
/// opening quote, the body parser undoes `esc_bytes(v)` followed by a
/// closing quote and stops right after it.
pub proof fn lemma_parse_string_inverts(s: Seq<u8>, i: int, v: Seq<u8>)
    requires
        0 <= i,
        i + esc_bytes(v).len() + 1 <= s.len(),
        s.subrange(i, i + esc_bytes(v).len()) == esc_bytes(v),
        s[i + esc_bytes(v).len()] == 34,
    ensures
        spec_parse_string_body(s, i) == Some((v, i + esc_bytes(v).len() + 1)),
    decreases v.len(),
{
    if v.len() == 0 {
        assert(s[i] == 34);
    } else {
        let b = v[0];
        let eb = esc_byte(b);
        let rest = esc_bytes(v.drop_first());
        assert(esc_bytes(v) == eb + rest);
        assert forall|k: int| 0 <= k < eb.len() implies s[i + k] == eb[k] by {
            assert(s.subrange(i, i + esc_bytes(v).len())[k] == s[i + k]);
            assert((eb + rest)[k] == eb[k]);
        }
        assert(s.subrange(i + eb.len(), i + eb.len() + rest.len()) =~= rest) by {
            assert forall|k: int| 0 <= k < rest.len() implies s[i + eb.len() + k] == rest[k] by {
                assert(s.subrange(i, i + esc_bytes(v).len())[eb.len() + k] == s[i + eb.len() + k]);
                assert((eb + rest)[eb.len() + k] == rest[k]);
            }
        }
        lemma_parse_string_inverts(s, i + eb.len(), v.drop_first());
        let cont = spec_parse_string_body(s, i + eb.len());
        assert(cont == Some((v.drop_first(), i + esc_bytes(v).len() + 1)));
        if b == 34 {
            assert(s[i + 0] == eb[0] && s[i + 1] == eb[1]);
            assert(s[i] == 92 && s[i + 1] == 34);
            assert(spec_parse_string_body(s, i) == cons_parsed(b, cont));
        } else if b == 92 {
            assert(s[i + 0] == eb[0] && s[i + 1] == eb[1]);
            assert(s[i] == 92 && s[i + 1] == 92);
            assert(spec_parse_string_body(s, i) == cons_parsed(b, cont));
        } else if b == 10 {
            assert(s[i + 0] == eb[0] && s[i + 1] == eb[1]);
            assert(s[i] == 92 && s[i + 1] == 110);
            assert(spec_parse_string_body(s, i) == cons_parsed(b, cont));
        } else if b == 13 {
            assert(s[i + 0] == eb[0] && s[i + 1] == eb[1]);
            assert(s[i] == 92 && s[i + 1] == 114);
            assert(spec_parse_string_body(s, i) == cons_parsed(b, cont));
        } else if b == 9 {
            assert(s[i + 0] == eb[0] && s[i + 1] == eb[1]);
            assert(s[i] == 92 && s[i + 1] == 116);
            assert(spec_parse_string_body(s, i) == cons_parsed(b, cont));
        } else if b < 32 {
            assert(s[i + 0] == eb[0] && s[i + 1] == eb[1] && s[i + 2] == eb[2] && s[i + 3] == eb[3]
                && s[i + 4] == eb[4] && s[i + 5] == eb[5]);
            assert(s[i] == 92 && s[i + 1] == 117 && s[i + 2] == 48 && s[i + 3] == 48);
            assert(s[i + 4] == hex_digit(b / 16) && s[i + 5] == hex_digit(b % 16));
            assert(hex_val(hex_digit(b / 16)) == b / 16 && hex_val(hex_digit(b % 16)) == b % 16);
            assert(hex_val(s[i + 4]) < 8 && hex_val(s[i + 5]) < 16);
            assert((hex_val(s[i + 4]) * 16 + hex_val(s[i + 5])) as u8 == b);
            assert(spec_parse_string_body(s, i) == cons_parsed(b, cont));
        } else {
            assert(s[i + 0] == eb[0]);
            assert(s[i] == b && b >= 32 && b != 34 && b != 92);
            assert(spec_parse_string_body(s, i) == cons_parsed(b, cont));
        }
        assert(seq![b] + v.drop_first() =~= v);
    }
}

/// Compares two byte strings for equality.
pub fn bytes_eq(a: &Vec<u8>, b: &[u8]) -> (r: bool)
    ensures
        r == (a@ == b@),
{
    if a.len() != b.len() {
        proof {
            assert(a@.len() != b@.len());
        }
        return false;
    }
    let mut k: usize = 0;
    while k < a.len()
        invariant
            0 <= k <= a.len(),
            a@.len() == b@.len(),
            forall|t: int| 0 <= t < k ==> a@[t] == b@[t],
        decreases a.len() - k,
    {
        if a[k] != b[k] {
            return false;
        }
        k = k + 1;
    }
    proof {
        assert(a@ =~= b@);
    }
    true
}

/// The fixed-text matcher's mirror: position right after `p`, if `s`
/// holds `p` at `i`.
pub open spec fn spec_expect(s: Seq<u8>, i: int, p: Seq<u8>) -> Option<int> {
    if 0 <= i && i + p.len() <= s.len() && s.subrange(i, i + p.len()) == p {
        Some(i + p.len())
    } else {
        None
    }
}

/// Matches the fixed ASCII text `p` at position `i`.
pub fn expect(s: &Vec<u8>, i: usize, p: &str) -> (r: Option<usize>)
    requires
        i <= s.len(),
    ensures
        match r {
            Some(j) => spec_expect(s@, i as int, p.spec_bytes()) == Some(j as int) && i <= j
                <= s.len(),
            None => spec_expect(s@, i as int, p.spec_bytes()) is None,
        },
{
    let pb = p.as_bytes();
    if s.len() - i < pb.len() {
        return None;
    }
    let mut k: usize = 0;
    while k < pb.len()
        invariant
            0 <= k <= pb.len(),
            i + pb.len() <= s.len(),
            pb@ == p.spec_bytes(),
            forall|t: int| 0 <= t < k ==> s@[i + t] == pb@[t],
        decreases pb.len() - k,
    {
        if s[i + k] != pb[k] {
            proof {
                assert(s@.subrange(i as int, i + pb@.len()) != pb@) by {
                    assert(s@.subrange(i as int, i + pb@.len())[k as int] == s@[i + k]);
                }
            }
            return None;
        }
        k = k + 1;
    }
    proof {
        assert(s@.subrange(i as int, i + pb@.len()) =~= pb@);
    }
    Some(i + pb.len())
}

} // verus!

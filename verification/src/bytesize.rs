//! The block-size grammar.
//!
//! A size string is a decimal byte count — optionally with a
//! fractional part — and an optional binary multiplier suffix, the
//! convention of the external benchmark tool: `"512"`, `"4k"`,
//! `"1.5KiB"`, `"32 KiB"`, `"16MiB"`. The multiplier letters k, m, g
//! and t stand for powers of 1024, in either case, optionally
//! followed by `b` or `ib`; surrounding blanks are ignored. The
//! value is the product rounded down to whole bytes; a fraction
//! carries at most eighteen digits.

use vstd::prelude::*;
use vstd::arithmetic::div_mod::{
    lemma_div_by_multiple, lemma_div_is_ordered, lemma_div_pos_is_pos, lemma_fundamental_div_mod,
};
use vstd::string::StrSliceExecFns;

verus! {

/// Whether a character is a decimal digit.
pub open spec fn is_digit(c: char) -> bool {
    48 <= c as u32 <= 57
}

/// The value of one decimal digit character.
pub open spec fn digit_val(c: char) -> int
    recommends
        is_digit(c),
{
    c as u32 - 48
}

/// Whether a character is the blank the grammar ignores.
pub open spec fn is_blank(c: char) -> bool {
    c == ' '
}

/// The sequence with its leading blanks removed.
pub open spec fn drop_leading_blanks(s: Seq<char>) -> Seq<char>
    decreases s.len(),
{
    if s.len() > 0 && is_blank(s[0]) {
        drop_leading_blanks(s.drop_first())
    } else {
        s
    }
}

/// The sequence with its trailing blanks removed.
pub open spec fn drop_trailing_blanks(s: Seq<char>) -> Seq<char>
    decreases s.len(),
{
    if s.len() > 0 && is_blank(s.last()) {
        drop_trailing_blanks(s.drop_last())
    } else {
        s
    }
}

/// The length of the longest digit prefix of a sequence.
pub open spec fn digit_prefix_len(s: Seq<char>) -> int
    decreases s.len(),
{
    if s.len() > 0 && is_digit(s[0]) {
        1 + digit_prefix_len(s.drop_first())
    } else {
        0
    }
}

/// The number written by a sequence of digit characters, most
/// significant first.
pub open spec fn digits_value(s: Seq<char>) -> int
    decreases s.len(),
{
    if s.len() == 0 {
        0
    } else {
        digits_value(s.drop_last()) * 10 + digit_val(s.last())
    }
}

/// Powers of ten: the scale of a fractional part.
pub open spec fn pow10(m: nat) -> int
    decreases m,
{
    if m == 0 {
        1
    } else {
        10 * pow10((m - 1) as nat)
    }
}

/// The byte multiplier of one suffix letter, case-insensitively:
/// powers of 1024 for k, m, g and t.
pub open spec fn multiplier_of(c: char) -> Option<int> {
    if c == 'k' || c == 'K' {
        Some(1024int)
    } else if c == 'm' || c == 'M' {
        Some(1048576int)
    } else if c == 'g' || c == 'G' {
        Some(1073741824int)
    } else if c == 't' || c == 'T' {
        Some(1099511627776int)
    } else {
        None
    }
}

/// Whether a character is the byte marker b, in either case.
pub open spec fn is_b(c: char) -> bool {
    c == 'b' || c == 'B'
}

/// Whether a character is the binary marker i, in either case.
pub open spec fn is_i(c: char) -> bool {
    c == 'i' || c == 'I'
}

/// The factor written by a whole unit suffix: nothing or `b` is one
/// byte; a multiplier letter may stand alone or be followed by `b` or
/// `ib`. Anything else is outside the grammar.
pub open spec fn suffix_factor(s: Seq<char>) -> Option<int> {
    if s.len() == 0 {
        Some(1int)
    } else if s.len() == 1 && is_b(s[0]) {
        Some(1int)
    } else if multiplier_of(s[0]) is Some {
        let tail = s.drop_first();
        if tail.len() == 0 {
            multiplier_of(s[0])
        } else if tail.len() == 1 && is_b(tail[0]) {
            multiplier_of(s[0])
        } else if tail.len() == 2 && is_i(tail[0]) && is_b(tail[1]) {
            multiplier_of(s[0])
        } else {
            None
        }
    } else {
        None
    }
}

/// The byte count written by integer digits, fraction digits and a
/// factor: the whole-part product plus the scaled fractional product,
/// rounded down.
pub open spec fn spec_size_value(
    int_digits: Seq<char>,
    frac_digits: Seq<char>,
    factor: int,
) -> int {
    digits_value(int_digits) * factor + (digits_value(frac_digits) * factor) / pow10(
        frac_digits.len(),
    )
}

/// The verdict once the number and the remainder of the string are
/// separated: the value when the remainder is a unit suffix and the
/// value fits the machine word, nothing otherwise.
pub open spec fn spec_size_verdict(
    int_digits: Seq<char>,
    frac_digits: Seq<char>,
    rest: Seq<char>,
) -> Option<u64> {
    match suffix_factor(rest) {
        None => None,
        Some(f) => {
            let v = spec_size_value(int_digits, frac_digits, f);
            if v <= u64::MAX {
                Some(v as u64)
            } else {
                None
            }
        },
    }
}

/// The value of a size string: digits, an optional point followed by
/// at most eighteen fraction digits, blanks, and a unit suffix; the
/// digits times the binary multiplier, rounded down to whole bytes,
/// when that fits the machine word; nothing otherwise.
pub open spec fn spec_parse_block_size(s: Seq<char>) -> Option<u64> {
    let t = drop_trailing_blanks(drop_leading_blanks(s));
    let k = digit_prefix_len(t);
    if k == 0 {
        None
    } else {
        let after = t.skip(k);
        if after.len() > 0 && after[0] == '.' {
            let fk = digit_prefix_len(after.drop_first());
            if fk == 0 || fk > 18 {
                None
            } else {
                spec_size_verdict(
                    t.take(k),
                    after.drop_first().take(fk),
                    drop_leading_blanks(after.drop_first().skip(fk)),
                )
            }
        } else {
            spec_size_verdict(t.take(k), Seq::<char>::empty(), drop_leading_blanks(after))
        }
    }
}

proof fn lemma_drop_leading_blanks_at(s: Seq<char>, i: int)
    requires
        0 <= i <= s.len(),
        forall|j: int| 0 <= j < i ==> is_blank(s[j]),
        i < s.len() ==> !is_blank(s[i]),
    ensures
        drop_leading_blanks(s) =~= s.skip(i),
    decreases i,
{
    if i == 0 {
        assert(s.skip(0) =~= s);
    } else {
        assert(is_blank(s[0]));
        lemma_drop_leading_blanks_at(s.drop_first(), i - 1);
        assert(s.drop_first().skip(i - 1) =~= s.skip(i));
    }
}

proof fn lemma_drop_trailing_blanks_at(s: Seq<char>, e: int)
    requires
        0 <= e <= s.len(),
        forall|j: int| e <= j < s.len() ==> is_blank(s[j]),
        e > 0 ==> !is_blank(s[e - 1]),
    ensures
        drop_trailing_blanks(s) =~= s.take(e),
    decreases s.len() - e,
{
    if e == s.len() {
        assert(s.take(e) =~= s);
    } else {
        assert(is_blank(s.last()));
        lemma_drop_trailing_blanks_at(s.drop_last(), e);
        assert(s.drop_last().take(e) =~= s.take(e));
    }
}

proof fn lemma_digit_prefix_len_at(s: Seq<char>, k: int)
    requires
        0 <= k <= s.len(),
        forall|j: int| 0 <= j < k ==> is_digit(s[j]),
        k < s.len() ==> !is_digit(s[k]),
    ensures
        digit_prefix_len(s) == k,
    decreases k,
{
    if k == 0 {
    } else {
        assert(is_digit(s[0]));
        lemma_digit_prefix_len_at(s.drop_first(), k - 1);
    }
}

proof fn lemma_digit_prefix_len_nonneg(s: Seq<char>)
    ensures
        digit_prefix_len(s) >= 0,
    decreases s.len(),
{
    if s.len() > 0 && is_digit(s[0]) {
        lemma_digit_prefix_len_nonneg(s.drop_first());
    }
}

proof fn lemma_digit_prefix_len_ge(s: Seq<char>, k: int)
    requires
        0 <= k <= s.len(),
        forall|j: int| 0 <= j < k ==> is_digit(s[j]),
    ensures
        digit_prefix_len(s) >= k,
    decreases k,
{
    if k > 0 {
        assert(is_digit(s[0]));
        lemma_digit_prefix_len_ge(s.drop_first(), k - 1);
    } else {
        lemma_digit_prefix_len_nonneg(s);
    }
}

/// Every factor the suffix grammar admits is at least one.
proof fn lemma_suffix_factor_pos(s: Seq<char>)
    ensures
        suffix_factor(s) is Some ==> suffix_factor(s)->0 >= 1,
{
}

proof fn lemma_pow10_pos(m: nat)
    ensures
        pow10(m) >= 1,
    decreases m,
{
    if m > 0 {
        lemma_pow10_pos((m - 1) as nat);
    }
}

proof fn lemma_pow10_mono(a: nat, b: nat)
    requires
        a <= b,
    ensures
        1 <= pow10(a) <= pow10(b),
    decreases b,
{
    lemma_pow10_pos(a);
    if a < b {
        lemma_pow10_mono(a, (b - 1) as nat);
    }
}

/// The scaled fractional product stays under the factor, so rounding
/// down never adds a whole extra unit.
proof fn lemma_frac_part_lt_factor(frac: int, factor: int, scale: int)
    requires
        0 <= frac < scale,
        factor >= 1,
    ensures
        0 <= (frac * factor) / scale < factor,
{
    assert(frac * factor >= 0) by (nonlinear_arith)
        requires
            frac >= 0,
            factor >= 1,
    ;
    lemma_div_pos_is_pos(frac * factor, scale);
    lemma_fundamental_div_mod(frac * factor, scale);
    let q = (frac * factor) / scale;
    if q >= factor {
        assert(scale * q >= scale * factor) by (nonlinear_arith)
            requires
                q >= factor,
                scale >= 1,
        ;
        assert(frac * factor < scale * factor) by (nonlinear_arith)
            requires
                frac < scale,
                factor >= 1,
        ;
    }
}

fn read_suffix_factor(s: &str, j2: usize, end: usize) -> (r: Option<u64>)
    requires
        j2 <= end <= s@.len(),
    ensures
        r matches Some(f) ==> suffix_factor(s@.subrange(j2 as int, end as int)) == Some(
            f as int,
        ) && 1 <= f <= 1099511627776,
        r is None ==> suffix_factor(s@.subrange(j2 as int, end as int)) is None,
{
    let ghost rest = s@.subrange(j2 as int, end as int);
    let suffix_len = end - j2;
    if suffix_len == 0 {
        return Some(1);
    }
    let c0 = s.get_char(j2);
    proof {
        assert(rest[0] == s@[j2 as int]);
    }
    if (c0 == 'b' || c0 == 'B') && suffix_len == 1 {
        return Some(1);
    }
    let mult: u64 = if c0 == 'k' || c0 == 'K' {
        1024
    } else if c0 == 'm' || c0 == 'M' {
        1048576
    } else if c0 == 'g' || c0 == 'G' {
        1073741824
    } else if c0 == 't' || c0 == 'T' {
        1099511627776
    } else {
        proof {
            assert(suffix_factor(rest) is None);
        }
        return None;
    };
    if suffix_len == 1 {
        Some(mult)
    } else if suffix_len == 2 {
        let c1 = s.get_char(j2 + 1);
        proof {
            assert(rest.drop_first()[0] == s@[j2 + 1]);
        }
        if c1 == 'b' || c1 == 'B' {
            Some(mult)
        } else {
            None
        }
    } else if suffix_len == 3 {
        let c1 = s.get_char(j2 + 1);
        let c2 = s.get_char(j2 + 2);
        proof {
            assert(rest.drop_first()[0] == s@[j2 + 1]);
            assert(rest.drop_first()[1] == s@[j2 + 2]);
        }
        if (c1 == 'i' || c1 == 'I') && (c2 == 'b' || c2 == 'B') {
            Some(mult)
        } else {
            None
        }
    } else {
        None
    }
}

fn scale_and_combine(value: u64, frac: u64, scale: u64, factor: u64) -> (r: Option<u64>)
    requires
        1 <= scale <= 1000000000000000000,
        frac < scale,
        1 <= factor <= 1099511627776,
    ensures
        value as int * factor as int + (frac as int * factor as int) / (scale as int) <= u64::MAX
            ==> r == Some(
            (value as int * factor as int + (frac as int * factor as int) / (scale as int)) as u64,
        ),
        value as int * factor as int + (frac as int * factor as int) / (scale as int) > u64::MAX
            ==> r is None,
{
    proof {
        lemma_frac_part_lt_factor(frac as int, factor as int, scale as int);
        assert(frac as int * factor as int <= 999999999999999999int * 1099511627776int)
            by (nonlinear_arith)
            requires
                frac as int >= 0,
                (frac as int) < (scale as int),
                scale as int <= 1000000000000000000int,
                factor as int >= 1,
                factor as int <= 1099511627776int,
        ;
    }
    let wide = (frac as u128) * (factor as u128);
    let frac_part = (wide / (scale as u128)) as u64;
    proof {
        assert(frac_part == (frac as int * factor as int) / (scale as int));
    }
    if value > (u64::MAX - frac_part) / factor {
        proof {
            let lim = (u64::MAX as int - frac_part as int) / (factor as int);
            assert(value as int * (factor as int) > u64::MAX as int - frac_part as int)
                by (nonlinear_arith)
                requires
                    value as int > lim,
                    lim == (u64::MAX as int - frac_part as int) / (factor as int),
                    factor as int >= 1,
            ;
        }
        return None;
    }
    proof {
        let lim = (u64::MAX as int - frac_part as int) / (factor as int);
        lemma_fundamental_div_mod(u64::MAX as int - frac_part as int, factor as int);
        assert(lim * (factor as int) <= u64::MAX as int - frac_part as int);
        assert(value as int * (factor as int) <= lim * (factor as int)) by (nonlinear_arith)
            requires
                value as int <= lim,
                factor as int >= 1,
        ;
    }
    Some(value * factor + frac_part)
}

fn is_digit_at(s: &str, j: usize) -> (r: bool)
    requires
        j < s@.len(),
    ensures
        r == is_digit(s@[j as int]),
{
    let c = s.get_char(j);
    '0' <= c && c <= '9'
}

/// Parses a size string. The result is exactly the value the grammar
/// assigns: the decimal count — whole and fractional digits — times
/// the binary multiplier of the unit suffix, rounded down, or
/// nothing when the string is outside the grammar or the value
/// exceeds the machine word.
#[verifier::rlimit(100)]
#[verifier::loop_isolation(false)]
pub fn parse_block_size(s: &str) -> (r: Option<u64>)
    ensures
        r == spec_parse_block_size(s@),
{
    let n = s.unicode_len();
    let ghost sq = s@;

    // Trim blanks from both ends.
    let mut start: usize = 0;
    while start < n && s.get_char(start) == ' '
        invariant
            0 <= start <= n,
            n == sq.len(),
            sq == s@,
            forall|j: int| 0 <= j < start ==> is_blank(sq[j]),
        decreases n - start,
    {
        start = start + 1;
    }
    let mut end: usize = n;
    while end > start && s.get_char(end - 1) == ' '
        invariant
            start <= end <= n,
            start < n ==> !is_blank(sq[start as int]),
            forall|j: int| end <= j < n ==> is_blank(sq[j]),
        decreases end,
    {
        end = end - 1;
    }
    let ghost t = sq.subrange(start as int, end as int);
    proof {
        if start == end {
            // The whole string is blank: trimming from the front
            // already leaves nothing.
            lemma_drop_leading_blanks_at(sq, end as int);
            assert(drop_leading_blanks(sq) =~= sq.skip(end as int));
            lemma_drop_trailing_blanks_at(sq.skip(end as int), 0);
            assert(t =~= drop_trailing_blanks(drop_leading_blanks(sq)));
        } else {
            lemma_drop_leading_blanks_at(sq, start as int);
            lemma_drop_trailing_blanks_at(sq.skip(start as int), end - start);
            assert(sq.skip(start as int).take(end - start) =~= t);
            assert(t =~= drop_trailing_blanks(drop_leading_blanks(sq)));
        }
    }

    // Scan the whole-part digits, accumulating their value and
    // detecting overflow of the machine word.
    let mut j: usize = start;
    let mut value: u64 = 0;
    let mut too_big: bool = false;
    while j < end && is_digit_at(s, j)
        invariant
            start <= j <= end,
            forall|i: int| start <= i < j ==> is_digit(sq[i]),
            !too_big ==> value == digits_value(t.take(j - start)),
            too_big ==> digits_value(t.take(j - start)) > u64::MAX,
            forall|i: int| 0 <= i < t.len() ==> t[i] == sq[start + i],
        decreases end - j,
    {
        let c = s.get_char(j);
        let d: u64 = (c as u32 as u64) - 48;
        proof {
            assert(t[j - start] == sq[j as int]);
            assert(t.take(j - start + 1).drop_last() =~= t.take(j - start));
            assert(digits_value(t.take(j - start + 1)) == digits_value(t.take(j - start)) * 10
                + digit_val(t[j - start]));
        }
        if too_big {
            proof {
                let v = digits_value(t.take(j - start));
                assert(v * 10 + digit_val(t[j - start]) > u64::MAX) by (nonlinear_arith)
                    requires
                        v > u64::MAX,
                        digit_val(t[j - start]) >= 0,
                ;
            }
        } else if value <= (u64::MAX - d) / 10 {
            proof {
                let lim = ((u64::MAX - d) / 10) as int;
                assert(lim * 10 <= u64::MAX - d) by (nonlinear_arith)
                    requires
                        lim == (u64::MAX - d) as int / 10,
                        0 <= d <= 9,
                ;
                assert(value * 10 <= lim * 10) by (nonlinear_arith)
                    requires
                        value as int <= lim,
                ;
            }
            value = value * 10 + d;
        } else {
            proof {
                let lim = ((u64::MAX - d) / 10) as int;
                assert(value * 10 + d > u64::MAX) by (nonlinear_arith)
                    requires
                        value as int > lim,
                        lim == (u64::MAX - d) as int / 10,
                        0 <= d <= 9,
                ;
            }
            too_big = true;
        }
        j = j + 1;
    }
    let digit_count = j - start;
    proof {
        lemma_digit_prefix_len_at(t, digit_count as int);
    }
    if digit_count == 0 {
        return None;
    }
    let ghost after = t.skip(digit_count as int);
    proof {
        assert(forall|i: int| 0 <= i < after.len() ==> after[i] == sq[j + i]);
    }

    // Scan the fractional digits, if a point follows, keeping their
    // value and their scale; more than eighteen of them are outside
    // the grammar.
    let has_frac = j < end && s.get_char(j) == '.';
    let mut jf: usize = j;
    let mut frac: u64 = 0;
    let mut frac_len: usize = 0;
    let mut scale: u64 = 1;
    if has_frac {
        let ghost fseq = after.drop_first();
        proof {
            assert(forall|i: int| 0 <= i < fseq.len() ==> fseq[i] == sq[j + 1 + i]);
        }
        jf = j + 1;
        while jf < end && is_digit_at(s, jf)
            invariant
                has_frac,
                j + 1 <= jf <= end,
                frac_len == jf - (j + 1),
                frac_len <= 18,
                fseq == after.drop_first(),
                forall|i: int| j + 1 <= i < jf ==> is_digit(sq[i]),
                frac == digits_value(fseq.take(frac_len as int)),
                scale == pow10(frac_len as nat),
                frac < scale,
            decreases end - jf,
        {
            if frac_len == 18 {
                // A nineteenth fraction digit: outside the grammar.
                proof {
                    lemma_digit_prefix_len_ge(fseq, 19);
                }
                return None;
            }
            let c = s.get_char(jf);
            let d: u64 = (c as u32 as u64) - 48;
            proof {
                assert(fseq[jf - (j + 1)] == sq[jf as int]);
                assert(fseq.take(frac_len + 1).drop_last() =~= fseq.take(frac_len as int));
                assert(digits_value(fseq.take(frac_len + 1)) == digits_value(
                    fseq.take(frac_len as int),
                ) * 10 + digit_val(fseq[frac_len as int]));
                lemma_pow10_mono(frac_len as nat, 17);
                reveal_with_fuel(pow10, 19);
                assert(pow10(17) == 100000000000000000);
            }
            frac = frac * 10 + d;
            scale = scale * 10;
            frac_len = frac_len + 1;
            jf = jf + 1;
        }
        if frac_len == 0 {
            // A point with no digits after it is outside the grammar.
            proof {
                lemma_digit_prefix_len_at(fseq, 0);
            }
            return None;
        }
        proof {
            lemma_digit_prefix_len_at(fseq, frac_len as int);
        }
    }
    let ghost frac_digits = if has_frac {
        after.drop_first().take(frac_len as int)
    } else {
        Seq::<char>::empty()
    };
    proof {
        assert(frac == digits_value(frac_digits));
        assert(scale == pow10(frac_digits.len() as nat));
    }

    // Skip blanks between the number and the unit.
    let mut j2: usize = jf;
    while j2 < end && s.get_char(j2) == ' '
        invariant
            jf <= j2 <= end,
            forall|i: int| jf <= i < j2 ==> is_blank(sq[i]),
        decreases end - j2,
    {
        j2 = j2 + 1;
    }
    let ghost rest = if has_frac {
        drop_leading_blanks(after.drop_first().skip(frac_len as int))
    } else {
        drop_leading_blanks(after)
    };
    proof {
        if has_frac {
            assert(after.drop_first().skip(frac_len as int) =~= sq.subrange(
                jf as int,
                end as int,
            ));
            lemma_drop_leading_blanks_at(sq.subrange(jf as int, end as int), j2 - jf);
        } else {
            assert(after =~= sq.subrange(jf as int, end as int));
            lemma_drop_leading_blanks_at(sq.subrange(jf as int, end as int), j2 - jf);
        }
        assert(rest =~= sq.subrange(j2 as int, end as int));
    }

    // Read the unit suffix.
    let factor: u64 = match read_suffix_factor(s, j2, end) {
        None => {
            return None;
        },
        Some(f) => f,
    };
    proof {
        assert(suffix_factor(rest) == Some(factor as int));
    }

    // Combine, guarding the final sum.
    let ghost int_digits = t.take(digit_count as int);
    if too_big {
        proof {
            lemma_frac_part_lt_factor(frac as int, factor as int, scale as int);
            let i0 = digits_value(int_digits);
            assert(i0 * (factor as int) >= i0) by (nonlinear_arith)
                requires
                    i0 > u64::MAX,
                    factor as int >= 1,
            ;
        }
        return None;
    }
    proof {
        reveal_with_fuel(pow10, 19);
        lemma_pow10_mono(frac_digits.len() as nat, 18);
        assert(pow10(18) == 1000000000000000000);
    }
    let r = scale_and_combine(value, frac, scale, factor);
    proof {
        assert(spec_size_value(int_digits, frac_digits, factor as int) == value as int
            * factor as int + (frac as int * factor as int) / (scale as int));
    }
    r
}

} // verus!

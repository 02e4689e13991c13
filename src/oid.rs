use vstd::prelude::*;

use crate::error::{AppError, ErrorKind};

verus! {

pub open spec fn is_digit(c: char) -> bool {
    '0' <= c <= '9'
}

pub open spec fn all_digits(s: Seq<char>) -> bool {
    forall|i: int| 0 <= i < s.len() ==> is_digit(#[trigger] s[i])
}

/// The number that a sequence of decimal digits denotes.
pub open spec fn digits_value(s: Seq<char>) -> int
    decreases s.len(),
{
    if s.len() == 0 {
        0
    } else {
        digits_value(s.drop_last()) * 10 + (s.last() as int - '0' as int)
    }
}

/// A segment as an unsigned 64-bit decimal: an optional `+`, then one or
/// more digits whose value fits.
pub open spec fn segment_value(s: Seq<char>) -> Option<u64> {
    let d = if s.len() > 0 && s[0] == '+' {
        s.drop_first()
    } else {
        s
    };
    if d.len() > 0 && all_digits(d) && digits_value(d) <= u64::MAX {
        Some(digits_value(d) as u64)
    } else {
        None
    }
}

/// The pieces of `s` between dots, in order; `s` with `k` dots has `k + 1`.
pub open spec fn split_dots(s: Seq<char>) -> Seq<Seq<char>>
    decreases s.len(),
{
    if s.len() == 0 {
        seq![Seq::empty()]
    } else {
        let prev = split_dots(s.drop_last());
        if s.last() == '.' {
            prev.push(Seq::empty())
        } else {
            prev.update(prev.len() - 1, prev.last().push(s.last()))
        }
    }
}

pub open spec fn all_segments_numeric(segs: Seq<Seq<char>>) -> bool {
    forall|k: int| 0 <= k < segs.len() ==> (#[trigger] segment_value(segs[k])) is Some
}

/// The OID that a dotted string denotes: empty for the empty string, the
/// value of every segment when all are numeric, and nothing otherwise.
pub open spec fn oid_spec(s: Seq<char>) -> Option<Seq<u64>> {
    if s.len() == 0 {
        Some(Seq::empty())
    } else if all_segments_numeric(split_dots(s)) {
        Some(split_dots(s).map_values(|seg: Seq<char>| segment_value(seg)->Some_0))
    } else {
        None
    }
}

proof fn lemma_split_dots_nonempty(s: Seq<char>)
    ensures
        split_dots(s).len() >= 1,
    decreases s.len(),
{
    if s.len() > 0 {
        lemma_split_dots_nonempty(s.drop_last());
    }
}

proof fn lemma_split_dots_step(s: Seq<char>, i: int)
    requires
        0 <= i < s.len(),
    ensures
        split_dots(s.take(i)).len() >= 1,
        s[i] == '.' ==> split_dots(s.take(i + 1)) == split_dots(s.take(i)).push(Seq::empty()),
        s[i] != '.' ==> split_dots(s.take(i + 1)) == split_dots(s.take(i)).update(
            split_dots(s.take(i)).len() - 1,
            split_dots(s.take(i)).last().push(s[i]),
        ),
{
    lemma_split_dots_nonempty(s.take(i));
    assert(s.take(i + 1).drop_last() =~= s.take(i));
}

/// The character of a decimal digit.
pub open spec fn digit_char(d: nat) -> char {
    if d == 0 {
        '0'
    } else if d == 1 {
        '1'
    } else if d == 2 {
        '2'
    } else if d == 3 {
        '3'
    } else if d == 4 {
        '4'
    } else if d == 5 {
        '5'
    } else if d == 6 {
        '6'
    } else if d == 7 {
        '7'
    } else if d == 8 {
        '8'
    } else {
        '9'
    }
}

/// The decimal digits of `n`, most significant first, without leading zeros.
pub open spec fn decimal(n: nat) -> Seq<char>
    decreases n,
{
    if n < 10 {
        seq![digit_char(n)]
    } else {
        decimal(n / 10).push(digit_char(n % 10))
    }
}

/// The arcs written in dotted decimal form.
pub open spec fn dotted(arcs: Seq<u64>) -> Seq<char>
    decreases arcs.len(),
{
    if arcs.len() <= 1 {
        if arcs.len() == 0 {
            Seq::empty()
        } else {
            decimal(arcs[0] as nat)
        }
    } else {
        dotted(arcs.drop_last()) + seq!['.'] + decimal(arcs.last() as nat)
    }
}

proof fn lemma_digit_char(d: nat)
    requires
        d < 10,
    ensures
        is_digit(digit_char(d)),
        digit_char(d) as int - '0' as int == d,
{
}

proof fn lemma_decimal(n: nat)
    ensures
        decimal(n).len() > 0,
        all_digits(decimal(n)),
        digits_value(decimal(n)) == n,
    decreases n,
{
    if n < 10 {
        lemma_digit_char(n);
        assert(decimal(n).drop_last() =~= Seq::<char>::empty());
        assert(digits_value(Seq::<char>::empty()) == 0);
        assert(decimal(n).last() == digit_char(n));
        assert(digits_value(decimal(n)) == digits_value(decimal(n).drop_last()) * 10 + (
        digit_char(n) as int - '0' as int));
    } else {
        lemma_decimal(n / 10);
        lemma_digit_char(n % 10);
        let d = decimal(n);
        assert(d.drop_last() =~= decimal(n / 10));
        assert(d.last() == digit_char(n % 10));
        assert(digits_value(d) == digits_value(decimal(n / 10)) * 10 + (digit_char(n % 10) as int
            - '0' as int));
        assert((n / 10) * 10 + n % 10 == n);
        assert(all_digits(d)) by {
            assert forall|i: int| 0 <= i < d.len() implies is_digit(#[trigger] d[i]) by {
                if i < d.len() - 1 {
                    assert(d[i] == decimal(n / 10)[i]);
                }
            }
        }
    }
}

proof fn lemma_segment_of_decimal(n: u64)
    ensures
        segment_value(decimal(n as nat)) == Some(n),
{
    lemma_decimal(n as nat);
    assert(is_digit(decimal(n as nat)[0]));
}

/// Splitting text that ends in a dot-free piece `w` after `p` and a dot.
proof fn lemma_split_after_dot(p: Seq<char>, w: Seq<char>)
    requires
        forall|i: int| 0 <= i < w.len() ==> w[i] != '.',
    ensures
        split_dots(p + seq!['.'] + w) == split_dots(p).push(w),
    decreases w.len(),
{
    let s = p + seq!['.'] + w;
    if w.len() == 0 {
        assert(s =~= p + seq!['.']);
        assert(s.drop_last() =~= p);
        assert(s.last() == '.');
        assert(w =~= Seq::<char>::empty());
    } else {
        let w1 = w.drop_last();
        assert forall|i: int| 0 <= i < w1.len() implies w1[i] != '.' by {
            assert(w1[i] == w[i]);
        }
        lemma_split_after_dot(p, w1);
        assert(s.drop_last() =~= p + seq!['.'] + w1);
        assert(s.last() == w[w.len() - 1]);
        assert(w1.push(w.last()) =~= w);
        let prev = split_dots(p).push(w1);
        assert(prev.update(prev.len() - 1, prev.last().push(s.last())) =~= split_dots(p).push(w));
    }
}

proof fn lemma_split_dot_free(w: Seq<char>)
    requires
        forall|i: int| 0 <= i < w.len() ==> w[i] != '.',
    ensures
        split_dots(w) == seq![w],
    decreases w.len(),
{
    if w.len() == 0 {
        assert(w =~= Seq::<char>::empty());
    } else {
        let w1 = w.drop_last();
        assert forall|i: int| 0 <= i < w1.len() implies w1[i] != '.' by {
            assert(w1[i] == w[i]);
        }
        lemma_split_dot_free(w1);
        assert(w.last() == w[w.len() - 1]);
        assert(w1.push(w.last()) =~= w);
        assert(seq![w1].update(0, w1.push(w.last())) =~= seq![w]);
    }
}

proof fn lemma_split_dotted(arcs: Seq<u64>)
    requires
        arcs.len() > 0,
    ensures
        split_dots(dotted(arcs)) == arcs.map_values(|a: u64| decimal(a as nat)),
    decreases arcs.len(),
{
    let last = decimal(arcs.last() as nat);
    lemma_decimal(arcs.last() as nat);
    assert forall|i: int| 0 <= i < last.len() implies last[i] != '.' by {
        assert(is_digit(last[i]));
    }
    if arcs.len() == 1 {
        lemma_split_dot_free(last);
        assert(arcs.map_values(|a: u64| decimal(a as nat)) =~= seq![last]);
    } else {
        lemma_split_dotted(arcs.drop_last());
        lemma_split_after_dot(dotted(arcs.drop_last()), last);
        assert(arcs.map_values(|a: u64| decimal(a as nat)) =~= arcs.drop_last().map_values(
            |a: u64| decimal(a as nat),
        ).push(last));
    }
}

/// Parsing round-trips: arcs written in dotted decimal parse back to the
/// same arcs, and the empty string parses to the empty OID.
pub proof fn lemma_oid_round_trip(arcs: Seq<u64>)
    ensures
        oid_spec(dotted(arcs)) == Some(arcs),
{
    if arcs.len() == 0 {
        assert(oid_spec(dotted(arcs)) == Some(Seq::<u64>::empty()));
        assert(arcs =~= Seq::<u64>::empty());
    } else {
        lemma_split_dotted(arcs);
        let segs = split_dots(dotted(arcs));
        assert forall|k: int| 0 <= k < segs.len() implies (#[trigger] segment_value(segs[k]))
            == Some(arcs[k]) by {
            lemma_segment_of_decimal(arcs[k]);
        }
        assert(dotted(arcs).len() > 0) by {
            lemma_decimal(arcs.last() as nat);
            if arcs.len() > 1 {
                assert(dotted(arcs) == dotted(arcs.drop_last()) + seq!['.'] + decimal(
                    arcs.last() as nat,
                ));
            }
        }
        assert(segs.map_values(|seg: Seq<char>| segment_value(seg)->Some_0) =~= arcs);
    }
}

/// A string with a segment that is not an unsigned decimal has no OID.
pub proof fn lemma_non_numeric_segment_rejected(s: Seq<char>, k: int)
    requires
        s.len() > 0,
        0 <= k < split_dots(s).len(),
        segment_value(split_dots(s)[k]) is None,
    ensures
        oid_spec(s) is None,
{
}

/// Parses the characters `start..end` of `s` as an unsigned decimal.
fn parse_segment(s: &str, start: usize, end: usize) -> (r: Option<u64>)
    requires
        start <= end <= s@.len(),
    ensures
        r == segment_value(s@.subrange(start as int, end as int)),
{
    let ghost seg = s@.subrange(start as int, end as int);
    let mut i: usize = start;
    if i < end && s.get_char(i) == '+' {
        i = i + 1;
    }
    let digits_start: usize = i;
    let ghost d = if seg.len() > 0 && seg[0] == '+' {
        seg.drop_first()
    } else {
        seg
    };
    assert(d =~= s@.subrange(digits_start as int, end as int));
    if digits_start == end {
        return None;
    }
    let mut value: u64 = 0;
    let mut overflow = false;
    while i < end
        invariant
            digits_start <= i <= end <= s@.len(),
            seg == s@.subrange(start as int, end as int),
            d == (if seg.len() > 0 && seg[0] == '+' {
                seg.drop_first()
            } else {
                seg
            }),
            d =~= s@.subrange(digits_start as int, end as int),
            all_digits(d.take(i - digits_start)),
            digits_value(d.take(i - digits_start)) >= 0,
            !overflow ==> value == digits_value(d.take(i - digits_start)),
            overflow ==> digits_value(d.take(i - digits_start)) > u64::MAX,
        decreases end - i,
    {
        let c = s.get_char(i);
        let k: usize = i - digits_start;
        if !('0' <= c && c <= '9') {
            assert(!is_digit(d[k as int]));
            return None;
        }
        let ghost prev = digits_value(d.take(k as int));
        assert(d.take(k + 1).drop_last() =~= d.take(k as int));
        assert(digits_value(d.take(k + 1)) == prev * 10 + (c as int - '0' as int));
        assert(all_digits(d.take(k + 1))) by {
            assert forall|j: int| 0 <= j < k + 1 implies is_digit(#[trigger] d.take(k + 1)[j]) by {
                if j < k {
                    assert(d.take(k + 1)[j] == d.take(k as int)[j]);
                }
            }
        }
        let digit: u64 = (c as u32 - '0' as u32) as u64;
        if !overflow {
            if value <= (u64::MAX - digit) / 10 {
                value = value * 10 + digit;
            } else {
                overflow = true;
            }
        }
        assert(prev * 10 >= prev) by (nonlinear_arith)
            requires
                prev >= 0,
        ;
        i = i + 1;
    }
    assert(d.take(d.len() as int) =~= d);
    if overflow {
        None
    } else {
        Some(value)
    }
}

/// Parses a dotted OID string into its numeric segments.
///
/// The empty string gives the empty OID; a segment that is not an unsigned
/// decimal number gives an `InvalidOidFormat` error.
pub fn parse_oid_to_vec(oid: &str) -> (r: Result<Vec<u64>, AppError>)
    ensures
        r is Ok <==> oid_spec(oid@) is Some,
        r is Ok ==> r->Ok_0@ == oid_spec(oid@)->Some_0,
        r is Err ==> r->Err_0.kind == ErrorKind::InvalidOidFormat,
{
    let n: usize = oid.unicode_len();
    if n == 0 {
        return Ok(Vec::new());
    }
    let ghost s = oid@;
    let mut result: Vec<u64> = Vec::new();
    let mut ok = true;
    let mut seg_start: usize = 0;
    let mut i: usize = 0;
    proof {
        assert(s.take(0) =~= Seq::<char>::empty());
    }
    while i < n
        invariant
            n == s.len(),
            s == oid@,
            seg_start <= i <= n,
            split_dots(s.take(i as int)).len() >= 1,
            split_dots(s.take(i as int)).last() =~= s.subrange(seg_start as int, i as int),
            ok == (forall|k: int|
                0 <= k < split_dots(s.take(i as int)).len() - 1 ==> (#[trigger] segment_value(
                    split_dots(s.take(i as int))[k],
                )) is Some),
            ok ==> result@.len() == split_dots(s.take(i as int)).len() - 1,
            ok ==> forall|k: int|
                0 <= k < result@.len() ==> result@[k] == (#[trigger] segment_value(
                    split_dots(s.take(i as int))[k],
                ))->Some_0,
        decreases n - i,
    {
        let ghost segs = split_dots(s.take(i as int));
        proof {
            lemma_split_dots_step(s, i as int);
        }
        let c = oid.get_char(i);
        if c == '.' {
            let ghost segs2 = split_dots(s.take(i + 1));
            assert(segs2 == segs.push(Seq::empty()));
            if ok {
                match parse_segment(oid, seg_start, i) {
                    Some(v) => {
                        result.push(v);
                    },
                    None => {
                        ok = false;
                    },
                }
            }
            assert(segs2[segs.len() - 1] == segs.last());
            assert(ok == (forall|k: int|
                0 <= k < segs2.len() - 1 ==> (#[trigger] segment_value(segs2[k])) is Some)) by {
                if !ok {
                    if exists|k: int|
                        0 <= k < segs.len() - 1 && (#[trigger] segment_value(segs[k])) is None {
                        let k = choose|k: int|
                            0 <= k < segs.len() - 1 && (#[trigger] segment_value(segs[k])) is None;
                        assert(segs2[k] == segs[k]);
                    }
                }
            }
            seg_start = i + 1;
            i = i + 1;
            assert(split_dots(s.take(i as int)).last() =~= s.subrange(seg_start as int, i as int));
        } else {
            let ghost segs2 = split_dots(s.take(i + 1));
            assert(segs2 =~= segs.update(segs.len() - 1, segs.last().push(c)));
            assert forall|k: int| 0 <= k < segs.len() - 1 implies segs2[k] == segs[k] by {}
            i = i + 1;
            assert(split_dots(s.take(i as int)).last() =~= s.subrange(seg_start as int, i as int));
        }
    }
    assert(s.take(n as int) =~= s);
    let ghost segs = split_dots(s);
    let last = parse_segment(oid, seg_start, n);
    if ok {
        if let Some(v) = last {
            result.push(v);
            assert(result@ =~= segs.map_values(|seg: Seq<char>| segment_value(seg)->Some_0));
            return Ok(result);
        }
    }
    assert(!all_segments_numeric(segs)) by {
        if ok {
            assert(segment_value(segs[segs.len() - 1]) is None);
        }
    }
    Err(AppError::new(ErrorKind::InvalidOidFormat))
}

} // verus!

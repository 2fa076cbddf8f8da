//! Parser for the process-table elapsed-time format `[[DD-]HH:]MM:SS`.
//!
//! The byte-level grammar: colon-separated parts, two parts meaning
//! minutes and seconds, three meaning hours (optionally prefixed by a
//! day count and a dash), minutes and seconds. Minutes and seconds
//! must parse as unsigned decimal numbers or the whole parse fails;
//! a malformed day or hour part counts as zero. A total that does not
//! fit the result type yields nothing rather than a panic.

use vstd::prelude::*;
use vstd::string::StringSliceAdditionalSpecFns;

verus! {

/// Index of the first occurrence of `b`, or -1 when absent.
pub open spec fn first_index_of(s: Seq<u8>, b: u8) -> int
    decreases s.len(),
{
    if s.len() == 0 {
        -1
    } else if s[0] == b {
        0
    } else {
        let rest = first_index_of(s.drop_first(), b);
        if rest < 0 {
            -1
        } else {
            rest + 1
        }
    }
}

/// `first_index_of` finds the first occurrence: the result is in
/// range, points at `b`, and nothing before it is `b`; -1 means `b`
/// does not occur at all.
pub proof fn lemma_first_index_of(s: Seq<u8>, b: u8)
    ensures
        -1 <= first_index_of(s, b) < s.len(),
        first_index_of(s, b) >= 0 ==> s[first_index_of(s, b)] == b,
        first_index_of(s, b) >= 0 ==> forall|k: int| 0 <= k < first_index_of(s, b) ==> s[k] != b,
        first_index_of(s, b) == -1 ==> forall|k: int| 0 <= k < s.len() ==> s[k] != b,
    decreases s.len(),
{
    if s.len() > 0 && s[0] != b {
        lemma_first_index_of(s.drop_first(), b);
        let rest = first_index_of(s.drop_first(), b);
        if rest < 0 {
            assert forall|k: int| 0 <= k < s.len() implies s[k] != b by {
                if k > 0 {
                    assert(s.drop_first()[k - 1] == s[k]);
                }
            }
        } else {
            assert forall|k: int| 0 <= k < rest + 1 implies s[k] != b by {
                if k > 0 {
                    assert(s.drop_first()[k - 1] == s[k]);
                }
            }
        }
    }
}

/// Splits a byte sequence on a separator: the chunks between the
/// occurrences of `b`, in order, empty chunks included; a sequence
/// without the separator is one single part.
pub open spec fn split_on(s: Seq<u8>, b: u8) -> Seq<Seq<u8>>
    decreases s.len(),
    via split_on_decreases
{
    let i = first_index_of(s, b);
    if i < 0 {
        seq![s]
    } else {
        seq![s.subrange(0, i)] + split_on(s.subrange(i + 1, s.len() as int), b)
    }
}

#[via_fn]
proof fn split_on_decreases(s: Seq<u8>, b: u8) {
    lemma_first_index_of(s, b);
}

/// A split always has at least one part.
pub proof fn lemma_split_on_len(s: Seq<u8>, b: u8)
    ensures
        split_on(s, b).len() >= 1,
    decreases s.len(),
{
    lemma_first_index_of(s, b);
    let i = first_index_of(s, b);
    if i >= 0 {
        lemma_split_on_len(s.subrange(i + 1, s.len() as int), b);
    }
}

/// Whether every byte is an ASCII decimal digit.
pub open spec fn all_digits(s: Seq<u8>) -> bool {
    forall|i: int| 0 <= i < s.len() ==> 48 <= #[trigger] s[i] <= 57
}

/// Decimal value of the first `n` digit bytes.
pub open spec fn digits_value(s: Seq<u8>, n: int) -> int
    decreases n,
{
    if n <= 0 {
        0
    } else {
        digits_value(s, n - 1) * 10 + (s[n - 1] - 48)
    }
}

/// The value of an unsigned decimal number with an optional leading
/// plus sign, or nothing when the bytes are not such a number or its
/// value does not fit the result type of the parser.
pub open spec fn spec_parse_u64(s: Seq<u8>) -> Option<int> {
    let body = if s.len() >= 1 && s[0] == 43 {
        s.drop_first()
    } else {
        s
    };
    if body.len() >= 1 && all_digits(body) && digits_value(body, body.len() as int) <= u64::MAX {
        Some(digits_value(body, body.len() as int))
    } else {
        None
    }
}

/// A parse used leniently: a malformed part counts as zero.
pub open spec fn parse_or_zero(s: Seq<u8>) -> int {
    match spec_parse_u64(s) {
        Some(v) => v,
        None => 0,
    }
}

/// Total seconds encoded by an elapsed-time byte string, per the
/// grammar above, or nothing when it has the wrong number of parts
/// or an unparsable minute or second part.
pub open spec fn spec_parse_etime(s: Seq<u8>) -> Option<int> {
    let parts = split_on(s, 58);
    if parts.len() == 2 {
        if spec_parse_u64(parts[0]) is Some && spec_parse_u64(parts[1]) is Some {
            Some(spec_parse_u64(parts[0])->Some_0 * 60 + spec_parse_u64(parts[1])->Some_0)
        } else {
            None
        }
    } else if parts.len() == 3 {
        let day_parts = split_on(parts[0], 45);
        let days = if day_parts.len() == 2 {
            parse_or_zero(day_parts[0])
        } else {
            0
        };
        let hours = if day_parts.len() == 2 {
            parse_or_zero(day_parts[1])
        } else {
            parse_or_zero(parts[0])
        };
        if spec_parse_u64(parts[1]) is Some && spec_parse_u64(parts[2]) is Some {
            Some(
                days * 86400 + hours * 3600 + spec_parse_u64(parts[1])->Some_0 * 60
                    + spec_parse_u64(parts[2])->Some_0,
            )
        } else {
            None
        }
    } else {
        None
    }
}

/// A digit prefix has a non-negative value.
proof fn lemma_digits_value_nonneg(s: Seq<u8>, n: int)
    requires
        0 <= n <= s.len(),
        forall|i: int| 0 <= i < n ==> 48 <= #[trigger] s[i] <= 57,
    ensures
        digits_value(s, n) >= 0,
    decreases n,
{
    if n > 0 {
        lemma_digits_value_nonneg(s, n - 1);
    }
}

/// The value of a digit prefix never goes down as the prefix grows.
proof fn lemma_digits_value_monotone(s: Seq<u8>, n: int, m: int)
    requires
        0 <= n <= m <= s.len(),
        forall|i: int| 0 <= i < m ==> 48 <= #[trigger] s[i] <= 57,
    ensures
        0 <= digits_value(s, n) <= digits_value(s, m),
    decreases m - n,
{
    lemma_digits_value_nonneg(s, n);
    if n < m {
        lemma_digits_value_monotone(s, n, m - 1);
        lemma_digits_value_nonneg(s, m - 1);
    }
}

/// A split whose input has its first separator at `i` and none after
/// that point has exactly the two parts around `i`.
proof fn lemma_split_parts_two(s: Seq<u8>, p0: Seq<u8>, p1: Seq<u8>, i: int, b: u8)
    requires
        0 <= i < s.len(),
        first_index_of(s, b) == i,
        p0 == s.subrange(0, i),
        p1 == s.subrange(i + 1, s.len() as int),
        first_index_of(p1, b) == -1,
    ensures
        split_on(s, b) =~= seq![p0, p1],
{
    assert(split_on(p1, b) =~= seq![p1]);
}

/// A split with separators at `i` and then at `j` of the remainder,
/// and none after, has exactly three parts.
proof fn lemma_split_parts_three(
    s: Seq<u8>,
    rest: Seq<u8>,
    p1: Seq<u8>,
    p2: Seq<u8>,
    i: int,
    j: int,
    b: u8,
)
    requires
        0 <= i < s.len(),
        first_index_of(s, b) == i,
        rest == s.subrange(i + 1, s.len() as int),
        0 <= j < rest.len(),
        first_index_of(rest, b) == j,
        p1 == rest.subrange(0, j),
        p2 == rest.subrange(j + 1, rest.len() as int),
        first_index_of(p2, b) == -1,
    ensures
        split_on(s, b) =~= seq![s.subrange(0, i), p1, p2],
{
    assert(split_on(p2, b) =~= seq![p2]);
    assert(split_on(rest, b) =~= seq![p1, p2]);
}

/// Two separators with yet another one following mean at least four
/// parts.
proof fn lemma_split_parts_many(
    s: Seq<u8>,
    rest: Seq<u8>,
    rest2: Seq<u8>,
    i: int,
    j: int,
    b: u8,
)
    requires
        0 <= i < s.len(),
        first_index_of(s, b) == i,
        rest == s.subrange(i + 1, s.len() as int),
        0 <= j < rest.len(),
        first_index_of(rest, b) == j,
        rest2 == rest.subrange(j + 1, rest.len() as int),
        first_index_of(rest2, b) >= 0,
    ensures
        split_on(s, b).len() >= 4,
{
    let k = first_index_of(rest2, b);
    lemma_first_index_of(rest2, b);
    let rest3 = rest2.subrange(k + 1, rest2.len() as int);
    lemma_split_on_len(rest3, b);
    assert(split_on(rest2, b).len() >= 2);
    assert(split_on(rest, b).len() >= 3);
}

/// One separator with another one following means at least three
/// parts.
proof fn lemma_split_parts_at_least_three(s: Seq<u8>, rest: Seq<u8>, i: int, b: u8)
    requires
        0 <= i < s.len(),
        first_index_of(s, b) == i,
        rest == s.subrange(i + 1, s.len() as int),
        first_index_of(rest, b) >= 0,
    ensures
        split_on(s, b).len() >= 3,
{
    let j = first_index_of(rest, b);
    lemma_first_index_of(rest, b);
    let rest2 = rest.subrange(j + 1, rest.len() as int);
    lemma_split_on_len(rest2, b);
    assert(split_on(rest, b).len() >= 2);
}

/// Finds the first occurrence of a byte.
fn find_byte(data: &[u8], b: u8) -> (r: Option<usize>)
    ensures
        r matches Some(i) ==> i == first_index_of(data@, b) && i < data@.len(),
        r is None ==> first_index_of(data@, b) == -1,
{
    proof {
        lemma_first_index_of(data@, b);
    }
    let mut i: usize = 0;
    while i < data.len()
        invariant
            i <= data@.len(),
            forall|k: int| 0 <= k < i ==> data@[k] != b,
        decreases data@.len() - i,
    {
        if data[i] == b {
            proof {
                lemma_first_index_of(data@, b);
            }
            return Some(i);
        }
        i = i + 1;
    }
    None
}

/// Parses an unsigned decimal number with an optional leading plus
/// sign.
fn parse_u64_bytes(data: &[u8]) -> (r: Option<u64>)
    ensures
        r matches Some(v) ==> spec_parse_u64(data@) == Some(v as int),
        r is None ==> spec_parse_u64(data@) is None,
{
    let ghost body = if data@.len() >= 1 && data@[0] == 43 {
        data@.drop_first()
    } else {
        data@
    };
    let start: usize = if data.len() >= 1 && data[0] == 43 {
        1
    } else {
        0
    };
    assert(body =~= data@.subrange(start as int, data@.len() as int));
    if data.len() == start {
        return None;
    }
    let mut val: u64 = 0;
    let mut i: usize = start;
    while i < data.len()
        invariant
            start <= i <= data@.len(),
            body == (if data@.len() >= 1 && data@[0] == 43 {
                data@.drop_first()
            } else {
                data@
            }),
            body =~= data@.subrange(start as int, data@.len() as int),
            forall|k: int| 0 <= k < i - start ==> 48 <= #[trigger] body[k] <= 57,
            val == digits_value(body, i - start),
        decreases data@.len() - i,
    {
        let c = data[i];
        if c < 48 || c > 57 {
            proof {
                assert(body[i - start] == c);
                assert(!all_digits(body));
            }
            return None;
        }
        let d: u64 = (c - 48) as u64;
        if val > (u64::MAX - d) / 10 {
            proof {
                assert(body[i - start] == c);
                if all_digits(body) {
                    assert(digits_value(body, i - start + 1) == val * 10 + (c - 48));
                    assert(val * 10 + d > u64::MAX);
                    lemma_digits_value_monotone(body, i - start + 1, body.len() as int);
                }
            }
            return None;
        }
        val = val * 10 + d;
        assert(body[i - start] == c);
        i = i + 1;
    }
    assert(body.len() == i - start);
    Some(val)
}

/// Parses leniently: a malformed part counts as zero.
fn parse_u64_or_zero(data: &[u8]) -> (r: u64)
    ensures
        r == parse_or_zero(data@),
{
    match parse_u64_bytes(data) {
        Some(v) => v,
        None => 0,
    }
}

/// Parses an elapsed-time string of the form `[[DD-]HH:]MM:SS` into
/// total seconds. Returns nothing when the shape is wrong, when a
/// minute or second part is not a number, or when the total does not
/// fit the result type.
#[verifier::rlimit(100)]
pub fn parse_etime(etime: &str) -> (r: Option<u64>)
    ensures
        spec_parse_etime(etime.spec_bytes()) is None ==> r is None,
        spec_parse_etime(etime.spec_bytes()) matches Some(v) ==> (if v <= u64::MAX {
            r == Some(v as u64)
        } else {
            r is None
        }),
{
    let data = etime.as_bytes();
    let n = data.len();
    let c1 = match find_byte(data, 58) {
        None => {
            return None;
        },
        Some(i) => i,
    };
    let part0 = &data[0..c1];
    let rest = &data[c1 + 1..n];
    match find_byte(rest, 58) {
        None => {
            proof {
                lemma_split_parts_two(data@, part0@, rest@, c1 as int, 58);
            }
            let minutes = parse_u64_bytes(part0);
            let seconds = parse_u64_bytes(rest);
            match (minutes, seconds) {
                (Some(m), Some(s)) => checked_total(0, 0, m, s),
                _ => None,
            }
        },
        Some(c2) => {
            let rn = rest.len();
            let part1 = &rest[0..c2];
            let rest2 = &rest[c2 + 1..rn];
            match find_byte(rest2, 58) {
                Some(_) => {
                    proof {
                        lemma_split_parts_many(data@, rest@, rest2@, c1 as int, c2 as int, 58);
                    }
                    None
                },
                None => {
                    proof {
                        lemma_split_parts_three(
                            data@,
                            rest@,
                            part1@,
                            rest2@,
                            c1 as int,
                            c2 as int,
                            58,
                        );
                    }
                    let day_split = find_byte(part0, 45);
                    let (days, hours): (u64, u64) = match day_split {
                        None => (0, parse_u64_or_zero(part0)),
                        Some(k) => {
                            let pn = part0.len();
                            let d0 = &part0[0..k];
                            let d1 = &part0[k + 1..pn];
                            match find_byte(d1, 45) {
                                None => {
                                    proof {
                                        lemma_split_parts_two(part0@, d0@, d1@, k as int, 45);
                                    }
                                    (parse_u64_or_zero(d0), parse_u64_or_zero(d1))
                                },
                                Some(_) => {
                                    proof {
                                        lemma_split_parts_at_least_three(
                                            part0@,
                                            d1@,
                                            k as int,
                                            45,
                                        );
                                    }
                                    (0, parse_u64_or_zero(part0))
                                },
                            }
                        },
                    };
                    let minutes = parse_u64_bytes(part1);
                    let seconds = parse_u64_bytes(rest2);
                    match (minutes, seconds) {
                        (Some(m), Some(s)) => checked_total(days, hours, m, s),
                        _ => None,
                    }
                },
            }
        },
    }
}

/// Sums the weighted parts in wide arithmetic and fits the total
/// into the result type, or nothing when it does not fit.
fn checked_total(days: u64, hours: u64, minutes: u64, seconds: u64) -> (r: Option<u64>)
    ensures
        ({
            let v = days * 86400 + hours * 3600 + minutes * 60 + seconds;
            if v <= u64::MAX {
                r == Some(v as u64)
            } else {
                r is None
            }
        }),
{
    let total: u128 = (days as u128) * 86400 + (hours as u128) * 3600 + (minutes as u128) * 60
        + (seconds as u128);
    if total > u64::MAX as u128 {
        None
    } else {
        Some(total as u64)
    }
}

} // verus!

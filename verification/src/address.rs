//! Gateway address validation.
//!
//! The gateway is identified by an IPv4 address in dotted-quad text form.
//! The address is supplied from outside and must be validated for
//! parseability before any exchange uses it. A valid dotted quad is four
//! decimal octets separated by dots, each octet one to three digits with no
//! leading zero and a value at most 255.

use vstd::prelude::*;
use vstd::string::StringSliceAdditionalSpecFns;

verus! {

/// ASCII code of the dot separator.
pub const DOT_BYTE: u8 = 46;

/// ASCII code of the digit zero.
pub const ZERO_BYTE: u8 = 48;

/// A validated IPv4 address, as its four octet values.
#[derive(Clone, Copy, Debug, PartialEq, Eq, Structural)]
pub struct Ipv4Octets {
    pub a: u8,
    pub b: u8,
    pub c: u8,
    pub d: u8,
}

/// An ASCII decimal digit.
pub open spec fn is_ascii_digit(b: u8) -> bool {
    ZERO_BYTE <= b <= 57
}

/// The value of one ASCII decimal digit.
pub open spec fn digit_value(b: u8) -> nat
    recommends
        is_ascii_digit(b),
{
    (b - ZERO_BYTE) as nat
}

/// Every byte of the sequence is an ASCII decimal digit.
pub open spec fn all_digits(s: Seq<u8>) -> bool {
    forall|i: int| 0 <= i < s.len() ==> is_ascii_digit(#[trigger] s[i])
}

/// The number a sequence of ASCII digits denotes in decimal.
pub open spec fn dec_value(s: Seq<u8>) -> nat
    recommends
        all_digits(s),
    decreases s.len(),
{
    if s.len() == 0 {
        0
    } else {
        dec_value(s.drop_last()) * 10 + digit_value(s.last())
    }
}

/// A well-formed octet of a dotted quad: one to three digits, no leading
/// zero on a multi-digit octet, value at most 255.
pub open spec fn is_octet_text(s: Seq<u8>) -> bool {
    &&& 1 <= s.len() <= 3
    &&& all_digits(s)
    &&& s.len() > 1 ==> s[0] != ZERO_BYTE
    &&& dec_value(s) <= 255
}

/// The three dots of a dotted quad stand at `i`, `j` and `k`, and the four
/// segments between them are well-formed octets.
pub open spec fn quad_split_at(s: Seq<u8>, i: int, j: int, k: int) -> bool {
    &&& 0 <= i < j < k < s.len()
    &&& s[i] == DOT_BYTE
    &&& s[j] == DOT_BYTE
    &&& s[k] == DOT_BYTE
    &&& is_octet_text(s.subrange(0, i))
    &&& is_octet_text(s.subrange(i + 1, j))
    &&& is_octet_text(s.subrange(j + 1, k))
    &&& is_octet_text(s.subrange(k + 1, s.len() as int))
}

/// The byte sequence is a valid dotted-quad IPv4 address.
pub open spec fn is_dotted_quad(s: Seq<u8>) -> bool {
    exists|i: int, j: int, k: int| #[trigger] quad_split_at(s, i, j, k)
}

/// `q` holds exactly the four octet values the dotted quad `s` denotes.
pub open spec fn quad_denotes(s: Seq<u8>, q: Ipv4Octets) -> bool {
    exists|i: int, j: int, k: int|
        {
            &&& #[trigger] quad_split_at(s, i, j, k)
            &&& q.a == dec_value(s.subrange(0, i))
            &&& q.b == dec_value(s.subrange(i + 1, j))
            &&& q.c == dec_value(s.subrange(j + 1, k))
            &&& q.d == dec_value(s.subrange(k + 1, s.len() as int))
        }
}

/// The first position at or after `from` that does not hold a digit.
pub open spec fn digit_run_end(s: Seq<u8>, from: int) -> int
    decreases s.len() - from
        when 0 <= from <= s.len()
{
    if from >= s.len() || !is_ascii_digit(s[from]) {
        from
    } else {
        digit_run_end(s, from + 1)
    }
}

/// What `digit_run_end` delivers: the maximal digit run starting at `from`.
pub proof fn lemma_digit_run_end(s: Seq<u8>, from: int)
    requires
        0 <= from <= s.len(),
    ensures
        from <= digit_run_end(s, from) <= s.len(),
        forall|x: int| from <= x < digit_run_end(s, from) ==> is_ascii_digit(#[trigger] s[x]),
        digit_run_end(s, from) < s.len() ==> !is_ascii_digit(s[digit_run_end(s, from)]),
    decreases s.len() - from,
{
    if from < s.len() && is_ascii_digit(s[from]) {
        lemma_digit_run_end(s, from + 1);
    }
}

/// A digit run bounded by a non-digit (or the end of the sequence) is the
/// maximal run: its end is determined.
pub proof fn lemma_digit_boundary_unique(s: Seq<u8>, from: int, end: int)
    requires
        0 <= from <= end <= s.len(),
        forall|x: int| from <= x < end ==> is_ascii_digit(#[trigger] s[x]),
        end == s.len() || !is_ascii_digit(s[end]),
    ensures
        end == digit_run_end(s, from),
    decreases end - from,
{
    if from < end {
        lemma_digit_boundary_unique(s, from + 1, end);
    }
}

/// A well-formed octet segment ending at a non-digit boundary is the
/// maximal digit run from its start.
pub proof fn lemma_octet_end_unique(s: Seq<u8>, from: int, end: int)
    requires
        0 <= from <= end <= s.len(),
        is_octet_text(s.subrange(from, end)),
        end == s.len() || !is_ascii_digit(s[end]),
    ensures
        end == digit_run_end(s, from),
{
    assert forall|x: int| from <= x < end implies is_ascii_digit(#[trigger] s[x]) by {
        assert(s.subrange(from, end)[x - from] == s[x]);
    }
    lemma_digit_boundary_unique(s, from, end);
}

/// Locate the end of the digit run starting at `from`.
fn find_digit_run_end(bytes: &[u8], from: usize) -> (e: usize)
    requires
        from <= bytes@.len(),
    ensures
        e == digit_run_end(bytes@, from as int),
        from <= e <= bytes@.len(),
    decreases bytes@.len() - from,
{
    if from == bytes.len() {
        from
    } else if bytes[from] < ZERO_BYTE || bytes[from] > 57 {
        from
    } else {
        find_digit_run_end(bytes, from + 1)
    }
}

/// The decimal value of the digit run `bytes[from..end]`, at most three
/// digits long.
fn octet_run_value(bytes: &[u8], from: usize, end: usize) -> (v: u16)
    requires
        from < end <= bytes@.len(),
        end - from <= 3,
        forall|x: int| from <= x < end ==> is_ascii_digit(#[trigger] bytes@[x]),
    ensures
        v == dec_value(bytes@.subrange(from as int, end as int)),
        v <= 999,
{
    let ghost s = bytes@.subrange(from as int, end as int);
    let len: usize = end - from;
    if len == 1 {
        let v: u16 = (bytes[from] - ZERO_BYTE) as u16;
        proof {
            assert(s.drop_last() =~= Seq::<u8>::empty());
            assert(dec_value(s.drop_last()) == 0);
            assert(s.last() == bytes@[from as int]);
            assert(dec_value(s) == digit_value(bytes@[from as int]));
        }
        v
    } else if len == 2 {
        let d0: u16 = (bytes[from] - ZERO_BYTE) as u16;
        let d1: u16 = (bytes[from + 1] - ZERO_BYTE) as u16;
        proof {
            assert(s.drop_last().drop_last() =~= Seq::<u8>::empty());
            assert(dec_value(s.drop_last().drop_last()) == 0);
            assert(s.drop_last().last() == bytes@[from as int]);
            assert(dec_value(s.drop_last()) == digit_value(bytes@[from as int]));
            assert(s.last() == bytes@[from as int + 1]);
            assert(dec_value(s) == digit_value(bytes@[from as int]) * 10 + digit_value(
                bytes@[from as int + 1],
            ));
        }
        d0 * 10 + d1
    } else {
        let d0: u16 = (bytes[from] - ZERO_BYTE) as u16;
        let d1: u16 = (bytes[from + 1] - ZERO_BYTE) as u16;
        let d2: u16 = (bytes[from + 2] - ZERO_BYTE) as u16;
        proof {
            assert(s.drop_last().drop_last().drop_last() =~= Seq::<u8>::empty());
            assert(dec_value(s.drop_last().drop_last().drop_last()) == 0);
            assert(s.drop_last().drop_last().last() == bytes@[from as int]);
            assert(dec_value(s.drop_last().drop_last()) == digit_value(bytes@[from as int]));
            assert(s.drop_last().last() == bytes@[from as int + 1]);
            assert(dec_value(s.drop_last()) == digit_value(bytes@[from as int]) * 10
                + digit_value(bytes@[from as int + 1]));
            assert(s.last() == bytes@[from as int + 2]);
            assert(dec_value(s) == (digit_value(bytes@[from as int]) * 10 + digit_value(
                bytes@[from as int + 1],
            )) * 10 + digit_value(bytes@[from as int + 2]));
        }
        d0 * 100 + d1 * 10 + d2
    }
}

/// Read one octet starting at `from`: the maximal digit run there, checked
/// for well-formedness. On success the value and the run's end; on failure
/// there is no well-formed octet starting at `from` that ends at a
/// non-digit boundary.
fn check_octet(bytes: &[u8], from: usize) -> (r: Option<(u16, usize)>)
    requires
        from <= bytes@.len(),
    ensures
        r matches Some((v, end)) ==> {
            &&& from < end <= bytes@.len()
            &&& end == digit_run_end(bytes@, from as int)
            &&& is_octet_text(bytes@.subrange(from as int, end as int))
            &&& v == dec_value(bytes@.subrange(from as int, end as int))
            &&& v <= 255
        },
        r is None ==> forall|end: int|
            from <= end <= bytes@.len() && (end == bytes@.len() || !is_ascii_digit(bytes@[end]))
                ==> !#[trigger] is_octet_text(bytes@.subrange(from as int, end)),
{
    let ghost bs = bytes@;
    proof {
        lemma_digit_run_end(bs, from as int);
    }
    let end = find_digit_run_end(bytes, from);
    let ok: bool = if end == from {
        false
    } else if end - from > 3 {
        false
    } else if end - from > 1 && bytes[from] == ZERO_BYTE {
        false
    } else {
        true
    };
    if !ok {
        proof {
            assert forall|e2: int|
                from <= e2 <= bs.len() && (e2 == bs.len() || !is_ascii_digit(
                    bs[e2],
                )) implies !#[trigger] is_octet_text(bs.subrange(from as int, e2)) by {
                if is_octet_text(bs.subrange(from as int, e2)) {
                    lemma_octet_end_unique(bs, from as int, e2);
                    assert(e2 == end as int);
                    assert(bs.subrange(from as int, e2)[0] == bs[from as int]);
                }
            }
        }
        return None;
    }
    let v = octet_run_value(bytes, from, end);
    if v > 255 {
        proof {
            assert forall|e2: int|
                from <= e2 <= bs.len() && (e2 == bs.len() || !is_ascii_digit(
                    bs[e2],
                )) implies !#[trigger] is_octet_text(bs.subrange(from as int, e2)) by {
                if is_octet_text(bs.subrange(from as int, e2)) {
                    lemma_octet_end_unique(bs, from as int, e2);
                    assert(e2 == end as int);
                    assert(dec_value(bs.subrange(from as int, end as int)) <= 255);
                }
            }
        }
        None
    } else {
        proof {
            let s = bs.subrange(from as int, end as int);
            assert(s.len() > 1 ==> s[0] != ZERO_BYTE) by {
                assert(s[0] == bs[from as int]);
            }
            assert(is_octet_text(s));
        }
        Some((v, end))
    }
}

/// Validate a dotted-quad IPv4 address over its bytes. Returns the four
/// octet values exactly when the bytes form a valid dotted quad.
pub fn parse_ipv4_bytes(bytes: &[u8]) -> (r: Option<Ipv4Octets>)
    ensures
        r is Some <==> is_dotted_quad(bytes@),
        r matches Some(q) ==> quad_denotes(bytes@, q),
{
    let ghost bs = bytes@;
    let n: usize = bytes.len();

    let first = check_octet(bytes, 0);
    let (v1, e1) = match first {
        None => {
            proof {
                assert forall|i: int, j: int, k: int| !#[trigger] quad_split_at(bs, i, j, k) by {
                    if quad_split_at(bs, i, j, k) {
                        assert(!is_ascii_digit(bs[i]));
                    }
                }
            }
            return None;
        },
        Some(p) => p,
    };
    if e1 == n || bytes[e1] != DOT_BYTE {
        proof {
            assert forall|i: int, j: int, k: int| !#[trigger] quad_split_at(bs, i, j, k) by {
                if quad_split_at(bs, i, j, k) {
                    assert(!is_ascii_digit(bs[i]));
                    lemma_octet_end_unique(bs, 0, i);
                }
            }
        }
        return None;
    }

    let second = check_octet(bytes, e1 + 1);
    let (v2, e2) = match second {
        None => {
            proof {
                assert forall|i: int, j: int, k: int| !#[trigger] quad_split_at(bs, i, j, k) by {
                    if quad_split_at(bs, i, j, k) {
                        assert(!is_ascii_digit(bs[i]));
                        assert(!is_ascii_digit(bs[j]));
                        lemma_octet_end_unique(bs, 0, i);
                        assert(i == e1 as int);
                        assert(!is_octet_text(bs.subrange(i + 1, j)));
                    }
                }
            }
            return None;
        },
        Some(p) => p,
    };
    if e2 == n || bytes[e2] != DOT_BYTE {
        proof {
            assert forall|i: int, j: int, k: int| !#[trigger] quad_split_at(bs, i, j, k) by {
                if quad_split_at(bs, i, j, k) {
                    assert(!is_ascii_digit(bs[i]));
                    assert(!is_ascii_digit(bs[j]));
                    lemma_octet_end_unique(bs, 0, i);
                    assert(i == e1 as int);
                    lemma_octet_end_unique(bs, i + 1, j);
                    assert(j == e2 as int);
                }
            }
        }
        return None;
    }

    let third = check_octet(bytes, e2 + 1);
    let (v3, e3) = match third {
        None => {
            proof {
                assert forall|i: int, j: int, k: int| !#[trigger] quad_split_at(bs, i, j, k) by {
                    if quad_split_at(bs, i, j, k) {
                        assert(!is_ascii_digit(bs[i]));
                        assert(!is_ascii_digit(bs[j]));
                        assert(!is_ascii_digit(bs[k]));
                        lemma_octet_end_unique(bs, 0, i);
                        assert(i == e1 as int);
                        lemma_octet_end_unique(bs, i + 1, j);
                        assert(j == e2 as int);
                        assert(!is_octet_text(bs.subrange(j + 1, k)));
                    }
                }
            }
            return None;
        },
        Some(p) => p,
    };
    if e3 == n || bytes[e3] != DOT_BYTE {
        proof {
            assert forall|i: int, j: int, k: int| !#[trigger] quad_split_at(bs, i, j, k) by {
                if quad_split_at(bs, i, j, k) {
                    assert(!is_ascii_digit(bs[i]));
                    assert(!is_ascii_digit(bs[j]));
                    assert(!is_ascii_digit(bs[k]));
                    lemma_octet_end_unique(bs, 0, i);
                    assert(i == e1 as int);
                    lemma_octet_end_unique(bs, i + 1, j);
                    assert(j == e2 as int);
                    lemma_octet_end_unique(bs, j + 1, k);
                    assert(k == e3 as int);
                }
            }
        }
        return None;
    }

    let fourth = check_octet(bytes, e3 + 1);
    let (v4, e4) = match fourth {
        None => {
            proof {
                assert forall|i: int, j: int, k: int| !#[trigger] quad_split_at(bs, i, j, k) by {
                    if quad_split_at(bs, i, j, k) {
                        assert(!is_ascii_digit(bs[i]));
                        assert(!is_ascii_digit(bs[j]));
                        assert(!is_ascii_digit(bs[k]));
                        lemma_octet_end_unique(bs, 0, i);
                        assert(i == e1 as int);
                        lemma_octet_end_unique(bs, i + 1, j);
                        assert(j == e2 as int);
                        lemma_octet_end_unique(bs, j + 1, k);
                        assert(k == e3 as int);
                        assert(!is_octet_text(bs.subrange(k + 1, bs.len() as int)));
                    }
                }
            }
            return None;
        },
        Some(p) => p,
    };
    if e4 != n {
        proof {
            assert forall|i: int, j: int, k: int| !#[trigger] quad_split_at(bs, i, j, k) by {
                if quad_split_at(bs, i, j, k) {
                    assert(!is_ascii_digit(bs[i]));
                    assert(!is_ascii_digit(bs[j]));
                    assert(!is_ascii_digit(bs[k]));
                    lemma_octet_end_unique(bs, 0, i);
                    assert(i == e1 as int);
                    lemma_octet_end_unique(bs, i + 1, j);
                    assert(j == e2 as int);
                    lemma_octet_end_unique(bs, j + 1, k);
                    assert(k == e3 as int);
                    lemma_octet_end_unique(bs, k + 1, bs.len() as int);
                    assert(e4 as int == bs.len() as int);
                }
            }
        }
        return None;
    }

    proof {
        assert(quad_split_at(bs, e1 as int, e2 as int, e3 as int));
    }
    let q = Ipv4Octets { a: v1 as u8, b: v2 as u8, c: v3 as u8, d: v4 as u8 };
    proof {
        assert(quad_denotes(bs, q)) by {
            assert(quad_split_at(bs, e1 as int, e2 as int, e3 as int) && q.a == dec_value(
                bs.subrange(0, e1 as int),
            ) && q.b == dec_value(bs.subrange(e1 as int + 1, e2 as int)) && q.c == dec_value(
                bs.subrange(e2 as int + 1, e3 as int),
            ) && q.d == dec_value(bs.subrange(e3 as int + 1, bs.len() as int)));
        }
    }
    Some(q)
}

/// Validate a gateway address given in text form. Returns the four octet
/// values exactly when the text is a valid dotted-quad IPv4 address.
pub fn parse_ipv4(s: &str) -> (r: Option<Ipv4Octets>)
    ensures
        r is Some <==> is_dotted_quad(s.spec_bytes()),
        r matches Some(q) ==> quad_denotes(s.spec_bytes(), q),
{
    parse_ipv4_bytes(s.as_bytes())
}

} // verus!

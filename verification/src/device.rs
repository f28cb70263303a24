//! Parsing the configured compute-device name.
//!
//! The device string names either the CPU or a CUDA card with an optional
//! index ("cuda", "cuda:1"). Whether a CUDA device may actually be chosen
//! depends on what the machine offers; the backend's availability answer
//! comes in as a plain flag, and everything decided from the text is
//! verified here. Matching is byte-wise with ASCII case folding, which
//! the ASCII device keywords make exact.

use vstd::prelude::*;
use vstd::string::StringSliceAdditionalSpecFns;

verus! {

/// The compute device a model is loaded onto.
#[derive(Debug, Clone, Copy, PartialEq, Eq, Structural)]
pub enum DeviceChoice {
    Cpu,
    Cuda(usize),
}

/// ASCII case folding of one byte.
pub open spec fn ascii_lower(b: u8) -> u8 {
    if 65 <= b && b <= 90 {
        (b + 32) as u8
    } else {
        b
    }
}

/// ASCII case folding of a byte string.
pub open spec fn lower_bytes(s: Seq<u8>) -> Seq<u8> {
    s.map_values(|b: u8| ascii_lower(b))
}

/// The first position at or after `from` holding `b`, or the length when
/// there is none.
pub open spec fn find_byte(s: Seq<u8>, b: u8, from: int) -> int
    decreases s.len() - from,
{
    if from < 0 || from >= s.len() {
        s.len() as int
    } else if s[from] == b {
        from
    } else {
        find_byte(s, b, from + 1)
    }
}

/// The numeric value of a digit string, most significant first.
pub open spec fn digits_value(s: Seq<u8>) -> int
    decreases s.len(),
{
    if s.len() == 0 {
        0
    } else {
        digits_value(s.drop_last()) * 10 + (s.last() - 48)
    }
}

pub open spec fn is_digit(b: u8) -> bool {
    48 <= b && b <= 57
}

pub open spec fn all_digits(s: Seq<u8>) -> bool {
    forall|i: int| 0 <= i < s.len() ==> is_digit(#[trigger] s[i])
}

/// What `str::parse::<usize>` accepts of a segment: an optional leading
/// plus sign, then one or more digits, whose value fits the type.
pub open spec fn spec_parse_usize(s: Seq<u8>) -> Option<int> {
    let digits = if s.len() > 0 && s[0] == 43 {
        s.skip(1)
    } else {
        s
    };
    if digits.len() > 0 && all_digits(digits) && digits_value(digits) <= usize::MAX {
        Some(digits_value(digits))
    } else {
        None
    }
}

/// The text between the first colon and the one after it (or the end):
/// where the CUDA index is looked for. Absent when there is no colon.
pub open spec fn spec_second_segment(s: Seq<u8>) -> Option<Seq<u8>> {
    let first = find_byte(s, 58, 0);
    if first == s.len() {
        None
    } else {
        Some(s.subrange(first + 1, find_byte(s, 58, first + 1)))
    }
}

/// How a device name resolves: "cpu" (in any case) is the CPU; a name
/// starting with "cuda" picks the CUDA card whose index follows the first
/// colon (0 when absent or unparsable), but only when CUDA is available,
/// the CPU otherwise; anything else is the CPU.
pub open spec fn spec_parse_device(s: Seq<u8>, cuda_available: bool) -> DeviceChoice {
    let l = lower_bytes(s);
    if l == seq![99u8, 112u8, 117u8] {
        DeviceChoice::Cpu
    } else if l.len() >= 4 && l.subrange(0, 4) == seq![99u8, 117u8, 100u8, 97u8] {
        if cuda_available {
            DeviceChoice::Cuda(
                (match spec_second_segment(l) {
                    Some(seg) => match spec_parse_usize(seg) {
                        Some(v) => v,
                        None => 0,
                    },
                    None => 0,
                }) as usize,
            )
        } else {
            DeviceChoice::Cpu
        }
    } else {
        DeviceChoice::Cpu
    }
}

proof fn lemma_find_byte_found(s: Seq<u8>, b: u8, from: int, at: int)
    requires
        0 <= from <= at < s.len(),
        s[at] == b,
        forall|j: int| from <= j < at ==> s[j] != b,
    ensures
        find_byte(s, b, from) == at,
    decreases at - from,
{
    if from < at {
        lemma_find_byte_found(s, b, from + 1, at);
    }
}

proof fn lemma_find_byte_absent(s: Seq<u8>, b: u8, from: int)
    requires
        0 <= from <= s.len(),
        forall|j: int| from <= j < s.len() ==> s[j] != b,
    ensures
        find_byte(s, b, from) == s.len(),
    decreases s.len() - from,
{
    if from < s.len() {
        lemma_find_byte_absent(s, b, from + 1);
    }
}

fn ascii_lower_byte(b: u8) -> (r: u8)
    ensures
        r == ascii_lower(b),
{
    if 65 <= b && b <= 90 {
        b + 32
    } else {
        b
    }
}

/// ASCII-lowercases the bytes of the device name.
fn lower_byte_vec(s: &[u8]) -> (r: Vec<u8>)
    ensures
        r@ == lower_bytes(s@),
{
    let mut r: Vec<u8> = Vec::new();
    let mut i: usize = 0;
    proof {
        assert(lower_bytes(s@.take(0)) =~= Seq::<u8>::empty());
    }
    while i < s.len()
        invariant
            0 <= i <= s@.len(),
            r@ == lower_bytes(s@.take(i as int)),
        decreases s@.len() - i,
    {
        proof {
            assert(lower_bytes(s@.take(i + 1)) =~= lower_bytes(s@.take(i as int)).push(
                ascii_lower(s@[i as int]),
            ));
        }
        r.push(ascii_lower_byte(s[i]));
        i = i + 1;
    }
    proof {
        assert(s@.take(s@.len() as int) =~= s@);
    }
    r
}

/// The first position at or after `from` holding `b`, or the length.
fn find_byte_from(s: &Vec<u8>, b: u8, from: usize) -> (r: usize)
    requires
        from <= s@.len(),
    ensures
        r == find_byte(s@, b, from as int),
        from <= r <= s@.len(),
        r < s@.len() ==> s@[r as int] == b,
{
    let mut i: usize = from;
    while i < s.len()
        invariant
            from <= i <= s@.len(),
            forall|j: int| from <= j < i ==> s@[j] != b,
        decreases s@.len() - i,
    {
        if s[i] == b {
            proof {
                lemma_find_byte_found(s@, b, from as int, i as int);
            }
            return i;
        }
        i = i + 1;
    }
    proof {
        lemma_find_byte_absent(s@, b, from as int);
    }
    s.len()
}

/// Parses a decimal segment as `str::parse::<usize>` would: an optional
/// leading plus sign, then digits; absent on anything else or overflow.
fn parse_usize_bytes(s: &Vec<u8>, start: usize, end: usize) -> (r: Option<usize>)
    requires
        start <= end <= s@.len(),
    ensures
        r matches Some(v) ==> spec_parse_usize(s@.subrange(start as int, end as int)) == Some(
            v as int,
        ),
        r is None ==> spec_parse_usize(s@.subrange(start as int, end as int)) is None,
{
    let ghost whole = s@.subrange(start as int, end as int);
    let mut i: usize = start;
    proof {
        if whole.len() > 0 {
            assert(whole[0] == s@[start as int]);
        }
    }
    if i < end && s[i] == 43 {
        i = i + 1;
        proof {
            assert(whole[0] == 43);
            assert(whole.skip(1) =~= s@.subrange(i as int, end as int));
        }
    } else {
        proof {
            assert(whole =~= s@.subrange(i as int, end as int));
        }
    }
    let ghost digits = s@.subrange(i as int, end as int);
    proof {
        if whole.len() > 0 && whole[0] == 43 {
            assert(digits == whole.skip(1));
        } else {
            assert(digits == whole);
        }
    }
    if i == end {
        return None;
    }
    let mut acc: usize = 0;
    let digit_start = i;
    proof {
        assert(digits.take(0) =~= Seq::<u8>::empty());
    }
    while i < end
        invariant
            digit_start <= i <= end <= s@.len(),
            start <= digit_start,
            whole == s@.subrange(start as int, end as int),
            digits == (if whole.len() > 0 && whole[0] == 43 {
                whole.skip(1)
            } else {
                whole
            }),
            digits == s@.subrange(digit_start as int, end as int),
            digits.len() == end - digit_start,
            digits.len() > 0,
            forall|j: int| 0 <= j < i - digit_start ==> is_digit(#[trigger] digits[j]),
            acc == digits_value(digits.take(i - digit_start)),
        decreases end - i,
    {
        let ghost k = (i - digit_start) as int;
        let b = s[i];
        proof {
            assert(digits[k] == b);
        }
        if b < 48 || b > 57 {
            proof {
                assert(!is_digit(digits[k]));
                assert(!all_digits(digits));
            }
            return None;
        }
        proof {
            assert(digits.take(k + 1).drop_last() =~= digits.take(k));
            assert(digits.take(k + 1).last() == digits[k]);
            assert(digits_value(digits.take(k + 1)) == digits_value(digits.take(k)) * 10 + (b
                - 48));
        }
        let d: usize = (b - 48) as usize;
        let grown: u128 = (acc as u128) * 10 + (d as u128);
        if grown > (usize::MAX as u128) {
            proof {
                if all_digits(digits) {
                    lemma_digits_value_monotone(digits, k + 1);
                }
            }
            return None;
        }
        acc = (acc * 10) + d;
        i = i + 1;
    }
    proof {
        assert(digits.take((end - digit_start) as int) =~= digits);
        assert(all_digits(digits));
    }
    Some(acc)
}

/// Appending digits never shrinks the value: once a prefix exceeds the
/// type's range, the whole digit string does.
proof fn lemma_digits_value_monotone(s: Seq<u8>, n: int)
    requires
        0 <= n <= s.len(),
        all_digits(s),
        digits_value(s.take(n)) > usize::MAX,
    ensures
        digits_value(s) > usize::MAX,
    decreases s.len() - n,
{
    if n == s.len() {
        assert(s.take(n) =~= s);
    } else {
        assert(s.take(n + 1).drop_last() =~= s.take(n));
        assert(s.take(n + 1).last() == s[n]);
        assert(is_digit(s[n]));
        assert(digits_value(s.take(n)) * 10 + (s[n] - 48) > usize::MAX) by (nonlinear_arith)
            requires
                digits_value(s.take(n)) >= usize::MAX as int + 1,
                s[n] >= 48,
        ;
        lemma_digits_value_monotone(s, n + 1);
    }
}

proof fn lemma_digits_value_nonnegative(s: Seq<u8>)
    requires
        forall|i: int| 0 <= i < s.len() ==> is_digit(#[trigger] s[i]),
    ensures
        digits_value(s) >= 0,
    decreases s.len(),
{
    if s.len() > 0 {
        assert(forall|i: int|
            0 <= i < s.drop_last().len() ==> is_digit(#[trigger] s.drop_last()[i]));
        lemma_digits_value_nonnegative(s.drop_last());
        assert(digits_value(s.drop_last()) * 10 >= 0) by (nonlinear_arith)
            requires
                digits_value(s.drop_last()) >= 0,
        ;
    }
}

/// Resolves the configured device name: "cpu" in any letter case is the
/// CPU; a "cuda" name picks the card indexed after the first colon (0
/// when absent or unparsable) if CUDA is available and the CPU otherwise;
/// any other name is the CPU.
pub fn parse_device(raw: &str, cuda_available: bool) -> (r: DeviceChoice)
    ensures
        r == spec_parse_device(raw.spec_bytes(), cuda_available),
{
    let bytes = raw.as_bytes();
    let l = lower_byte_vec(bytes);
    let ghost lv = lower_bytes(raw.spec_bytes());
    if l.len() == 3 && l[0] == 99 && l[1] == 112 && l[2] == 117 {
        proof {
            assert(lv =~= seq![99u8, 112u8, 117u8]);
        }
        return DeviceChoice::Cpu;
    }
    proof {
        assert(lv != seq![99u8, 112u8, 117u8]) by {
            let c = seq![99u8, 112u8, 117u8];
            if lv == c {
                assert(lv.len() == 3);
                assert(lv[0] == 99 && lv[1] == 112 && lv[2] == 117);
            }
        }
    }
    if !(l.len() >= 4 && l[0] == 99 && l[1] == 117 && l[2] == 100 && l[3] == 97) {
        proof {
            if lv.len() >= 4 && lv.subrange(0, 4) == seq![99u8, 117u8, 100u8, 97u8] {
                assert(lv.subrange(0, 4)[0] == 99 && lv.subrange(0, 4)[1] == 117 && lv.subrange(
                    0,
                    4,
                )[2] == 100 && lv.subrange(0, 4)[3] == 97);
            }
        }
        return DeviceChoice::Cpu;
    }
    proof {
        assert(lv.subrange(0, 4) =~= seq![99u8, 117u8, 100u8, 97u8]);
    }
    if !cuda_available {
        return DeviceChoice::Cpu;
    }
    let first = find_byte_from(&l, 58, 0);
    if first == l.len() {
        return DeviceChoice::Cuda(0);
    }
    let second = find_byte_from(&l, 58, first + 1);
    let idx = match parse_usize_bytes(&l, first + 1, second) {
        Some(v) => v,
        None => 0,
    };
    DeviceChoice::Cuda(idx)
}

} // verus!

use vstd::prelude::*;
use vstd::std_specs::iter::IteratorSpec;

verus! {

/// Whether a code point carries the Unicode White_Space property, the notion
/// of whitespace that prompt validation goes by.
pub open spec fn is_space_code(u: u32) -> bool {
    ||| u == 0x20
    ||| (0x09 <= u && u <= 0x0D)
    ||| u == 0x85
    ||| u == 0xA0
    ||| u == 0x1680
    ||| (0x2000 <= u && u <= 0x200A)
    ||| u == 0x2028
    ||| u == 0x2029
    ||| u == 0x202F
    ||| u == 0x205F
    ||| u == 0x3000
}

pub open spec fn is_space_char(c: char) -> bool {
    is_space_code(c as u32)
}

/// A text is blank when every character in it is whitespace; the empty text
/// is blank.
pub open spec fn is_blank(s: Seq<char>) -> bool {
    forall|j: int| 0 <= j < s.len() ==> is_space_char(#[trigger] s[j])
}

pub fn char_is_space(c: char) -> (r: bool)
    ensures
        r == is_space_char(c),
{
    let u = c as u32;
    u == 0x20 || (0x09 <= u && u <= 0x0D) || u == 0x85 || u == 0xA0 || u == 0x1680 || (0x2000 <= u
        && u <= 0x200A) || u == 0x2028 || u == 0x2029 || u == 0x202F || u == 0x205F || u == 0x3000
}

/// Whether the text holds nothing but whitespace.
pub fn is_blank_str(s: &str) -> (r: bool)
    ensures
        r == is_blank(s@),
{
    let mut it = s.chars();
    let ghost mut k: int = 0;
    proof {
        assert(it.remaining() =~= s@.skip(0));
    }
    loop
        invariant
            0 <= k <= s@.len(),
            it.remaining() =~= s@.skip(k),
            forall|j: int| 0 <= j < k ==> is_space_char(#[trigger] s@[j]),
        decreases s@.len() - k,
    {
        let ghost pre = it;
        match it.next() {
            Some(c) => {
                proof {
                    assert(pre.remaining().len() > 0);
                    assert(c == pre.remaining()[0]);
                    assert(s@.skip(k)[0] == s@[k]);
                }
                if !char_is_space(c) {
                    assert(!is_space_char(s@[k]));
                    return false;
                }
                proof {
                    assert(it.remaining() =~= pre.remaining().drop_first());
                    assert(pre.remaining().drop_first() =~= s@.skip(k + 1));
                    k = k + 1;
                }
            },
            None => {
                proof {
                    assert(pre.remaining().len() == 0);
                    assert(s@.skip(k).len() == 0);
                    assert(k == s@.len());
                }
                return true;
            },
        }
    }
}

/// The Unicode-lowercased form of a text; what `str::to_lowercase` computes,
/// a function of the characters alone.
pub uninterp spec fn lower_of(s: Seq<char>) -> Seq<char>;

/// Relies on str::to_lowercase: the result depends on the characters alone.
#[verifier::external_body]
fn lowercase(s: &str) -> (r: String)
    ensures
        r@ == lower_of(s@),
{
    s.to_lowercase()
}

/// Whether `n` occurs contiguously inside `h`.
pub open spec fn spec_contains(h: Seq<char>, n: Seq<char>) -> bool {
    exists|i: int| 0 <= i && i + n.len() <= h.len() && #[trigger] h.subrange(i, i + n.len()) == n
}

/// Relies on str::contains with a string pattern: substring presence.
#[verifier::external_body]
fn str_contains(hay: &str, needle: &str) -> (r: bool)
    ensures
        r == spec_contains(hay@, needle@),
{
    hay.contains(needle)
}

/// Whether a completion matches a reference: the reference occurs in the
/// completion, compared case-insensitively.
pub open spec fn spec_reference_match(completion: Seq<char>, reference: Seq<char>) -> bool {
    spec_contains(lower_of(completion), lower_of(reference))
}

/// Case-insensitive reference check: both sides are lowercased and the
/// reference is searched for in the completion.
pub fn reference_matches(completion: &str, reference: &str) -> (r: bool)
    ensures
        r == spec_reference_match(completion@, reference@),
{
    let hay = lowercase(completion);
    let needle = lowercase(reference);
    str_contains(hay.as_str(), needle.as_str())
}

} // verus!

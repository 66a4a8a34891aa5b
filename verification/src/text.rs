//! Small text helpers shared by the grammar and the virtual filesystem:
//! character appending, string comparison, and 16-bit wide-string encodings.
use vstd::prelude::*;

verus! {

/// Relies on std's String::push: appends the given character to the end of
/// the string.
#[verifier::external_body]
pub fn push_char(s: &mut String, c: char)
    ensures
        final(s)@ == old(s)@.push(c),
{
    s.push(c)
}

/// Character-wise string equality.
pub fn str_eq(a: &str, b: &str) -> (r: bool)
    ensures
        r == (a@ == b@),
{
    let n = a.unicode_len();
    if n != b.unicode_len() {
        return false;
    }
    let mut i: usize = 0;
    while i < n
        invariant
            n == a@.len(),
            n == b@.len(),
            i <= n,
            forall|t: int| 0 <= t < i ==> a@[t] == b@[t],
        decreases n - i,
    {
        if a.get_char(i) != b.get_char(i) {
            return false;
        }
        i = i + 1;
    }
    proof {
        assert(a@ =~= b@);
    }
    true
}

/// The ASCII-lower-cased form of a character: letters A to Z map down,
/// every other character is unchanged.
pub open spec fn ascii_to_lower(c: char) -> char {
    if 65 <= (c as u32) && (c as u32) <= 90 {
        (((c as u32) + 32) as u8) as char
    } else {
        c
    }
}

/// Whether two character sequences are equal up to ASCII case.
pub open spec fn ascii_case_eq(a: Seq<char>, b: Seq<char>) -> bool {
    &&& a.len() == b.len()
    &&& forall|i: int| 0 <= i < a.len() ==> ascii_to_lower(#[trigger] a[i]) == ascii_to_lower(b[i])
}

/// The 16-bit units that encode one character in the wide transformation
/// format: one unit for code points below 0x10000, a surrogate pair above.
pub open spec fn wide_units_of_char(c: char) -> Seq<u16> {
    let u = c as u32;
    if u < 0x1_0000 {
        seq![u as u16]
    } else {
        let v = (u - 0x1_0000) as u32;
        seq![(0xD800 + (v >> 10u32)) as u16, (0xDC00 + (v & 0x3FF)) as u16]
    }
}

/// The 16-bit wide encoding of a character sequence.
pub open spec fn wide_units(s: Seq<char>) -> Seq<u16>
    decreases s.len(),
{
    if s.len() == 0 {
        Seq::empty()
    } else {
        wide_units(s.drop_last()) + wide_units_of_char(s.last())
    }
}

/// Whether every character fits in a single non-zero 16-bit unit, which is
/// what the firmware's fixed-width string representation requires.
pub open spec fn is_ucs2(s: Seq<char>) -> bool {
    forall|i: int|
        #![trigger s[i]]
        0 <= i < s.len() ==> (s[i] as u32) != 0 && (s[i] as u32) < 0x1_0000
}

/// Every character of a 16-bit-representable sequence encodes to one unit.
pub proof fn lemma_wide_units_ucs2_len(s: Seq<char>)
    requires
        is_ucs2(s),
    ensures
        wide_units(s).len() == s.len(),
    decreases s.len(),
{
    if s.len() > 0 {
        assert(is_ucs2(s.drop_last()));
        lemma_wide_units_ucs2_len(s.drop_last());
    }
}

/// A character encodes to at most two 16-bit units.
pub proof fn lemma_wide_units_len_bound(s: Seq<char>)
    ensures
        wide_units(s).len() <= 2 * s.len(),
    decreases s.len(),
{
    if s.len() > 0 {
        lemma_wide_units_len_bound(s.drop_last());
    }
}

/// Encode a string into 16-bit wide units, surrogate pairs included.
pub fn encode_wide(s: &str) -> (r: Vec<u16>)
    ensures
        r@ == wide_units(s@),
{
    let n = s.unicode_len();
    let mut out: Vec<u16> = Vec::new();
    let mut i: usize = 0;
    while i < n
        invariant
            n == s@.len(),
            i <= n,
            out@ == wide_units(s@.subrange(0, i as int)),
        decreases n - i,
    {
        let c = s.get_char(i);
        let u = c as u32;
        if u < 0x1_0000 {
            out.push(u as u16);
        } else {
            let v = u - 0x1_0000;
            proof {
                assert(v <= 0xFFFFF ==> ((v >> 10u32) <= 0x3FF && (v & 0x3FF) <= 0x3FF))
                    by (bit_vector);
            }
            out.push((0xD800 + (v >> 10u32)) as u16);
            out.push((0xDC00 + (v & 0x3FF)) as u16);
        }
        proof {
            let pre = s@.subrange(0, i as int);
            let now = s@.subrange(0, i + 1);
            assert(now.drop_last() =~= pre);
            assert(now.last() == c);
        }
        i = i + 1;
    }
    proof {
        assert(s@.subrange(0, n as int) =~= s@);
    }
    out
}

/// Encode a string for the firmware's fixed-width representation: one 16-bit
/// unit per character. Fails exactly when some character is the null
/// character or lies outside the 16-bit range.
pub fn encode_ucs2(s: &str) -> (r: Option<Vec<u16>>)
    ensures
        match r {
            Some(v) => is_ucs2(s@) && v@ == wide_units(s@),
            None => !is_ucs2(s@),
        },
{
    let n = s.unicode_len();
    let mut out: Vec<u16> = Vec::new();
    let mut i: usize = 0;
    while i < n
        invariant
            n == s@.len(),
            i <= n,
            is_ucs2(s@.subrange(0, i as int)),
            out@ == wide_units(s@.subrange(0, i as int)),
        decreases n - i,
    {
        let c = s.get_char(i);
        let u = c as u32;
        if u == 0 || u >= 0x1_0000 {
            return None;
        }
        out.push(u as u16);
        proof {
            let pre = s@.subrange(0, i as int);
            let now = s@.subrange(0, i + 1);
            assert(now.drop_last() =~= pre);
            assert(now.last() == c);
        }
        i = i + 1;
    }
    proof {
        assert(s@.subrange(0, n as int) =~= s@);
    }
    Some(out)
}

} // verus!

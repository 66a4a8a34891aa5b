//! A 128-bit partition identifier and its canonical 36-character text form
//! (eight, four, four, four and twelve hexadecimal digits, separated by
//! hyphens).
use vstd::prelude::*;

verus! {

/// A 128-bit partition identifier. The four fields hold the 32 hexadecimal
/// digits of the canonical text form, eight digits per field, in text order.
#[derive(Clone, Copy, Debug, PartialEq, Eq, Structural)]
pub struct Guid {
    pub q0: u32,
    pub q1: u32,
    pub q2: u32,
    pub q3: u32,
}

/// Value of a hexadecimal digit character; 16 for any other character.
pub open spec fn nib_val(c: char) -> u32 {
    let u = c as u32;
    if 48 <= u && u <= 57 {
        (u - 48) as u32
    } else if 97 <= u && u <= 102 {
        (u - 87) as u32
    } else if 65 <= u && u <= 70 {
        (u - 55) as u32
    } else {
        16
    }
}

pub open spec fn is_hex_digit(c: char) -> bool {
    nib_val(c) < 16
}

/// Lower-case hexadecimal digit character for a value below 16.
pub open spec fn nib_char(n: u32) -> char
    recommends
        n < 16,
{
    if n < 10 {
        ((48 + n) as u8) as char
    } else {
        ((87 + n) as u8) as char
    }
}

/// The positions of the four hyphens in the canonical text form.
pub open spec fn guid_hyphen_pos(i: int) -> bool {
    i == 8 || i == 13 || i == 18 || i == 23
}

/// Character position of hexadecimal digit `k` (0 <= k < 32) in the
/// canonical text form.
pub open spec fn guid_char_pos(k: int) -> int {
    if k < 8 {
        k
    } else if k < 12 {
        k + 1
    } else if k < 16 {
        k + 2
    } else if k < 20 {
        k + 3
    } else {
        k + 4
    }
}

/// Hexadecimal digit index of character position `i`, for non-hyphen
/// positions.
pub open spec fn guid_digit_pos(i: int) -> int {
    if i < 8 {
        i
    } else if i < 13 {
        i - 1
    } else if i < 18 {
        i - 2
    } else if i < 23 {
        i - 3
    } else {
        i - 4
    }
}

/// Hexadecimal digit `k` (0 <= k < 32) of an identifier, in text order.
pub open spec fn guid_digit(g: Guid, k: int) -> u32 {
    let q = if k < 8 {
        g.q0
    } else if k < 16 {
        g.q1
    } else if k < 24 {
        g.q2
    } else {
        g.q3
    };
    let j = if k < 8 {
        k
    } else if k < 16 {
        k - 8
    } else if k < 24 {
        k - 16
    } else {
        k - 24
    };
    (q >> ((28 - 4 * j) as u32)) & 0xF
}

/// Canonical 36-character text form of an identifier.
pub open spec fn guid_chars(g: Guid) -> Seq<char> {
    Seq::new(
        36,
        |i: int|
            if guid_hyphen_pos(i) {
                '-'
            } else {
                nib_char(guid_digit(g, guid_digit_pos(i)))
            },
    )
}

/// Whether a character sequence is a well-formed canonical identifier:
/// exactly 36 characters, hyphens at positions 8, 13, 18 and 23, and
/// hexadecimal digits everywhere else.
pub open spec fn valid_guid_chars(s: Seq<char>) -> bool {
    &&& s.len() == 36
    &&& s[8] == '-' && s[13] == '-' && s[18] == '-' && s[23] == '-'
    &&& forall|i: int| 0 <= i < 36 && !guid_hyphen_pos(i) ==> is_hex_digit(#[trigger] s[i])
}

/// Value of hexadecimal digit `k` of a well-formed character sequence.
pub open spec fn digit_of_chars(s: Seq<char>, k: int) -> u32 {
    nib_val(s[guid_char_pos(k)])
}

/// Value of the eight digits starting at digit index `k0`.
pub open spec fn group_of_chars(s: Seq<char>, k0: int) -> int {
    digit_of_chars(s, k0) * 0x1000_0000 + digit_of_chars(s, k0 + 1) * 0x100_0000 + digit_of_chars(
        s,
        k0 + 2,
    ) * 0x10_0000 + digit_of_chars(s, k0 + 3) * 0x1_0000 + digit_of_chars(s, k0 + 4) * 0x1000
        + digit_of_chars(s, k0 + 5) * 0x100 + digit_of_chars(s, k0 + 6) * 16 + digit_of_chars(
        s,
        k0 + 7,
    )
}

/// What parsing a canonical identifier text yields: the identifier for a
/// well-formed text, nothing otherwise.
pub open spec fn parse_guid_chars(s: Seq<char>) -> Option<Guid> {
    if valid_guid_chars(s) {
        Some(
            Guid {
                q0: group_of_chars(s, 0) as u32,
                q1: group_of_chars(s, 8) as u32,
                q2: group_of_chars(s, 16) as u32,
                q3: group_of_chars(s, 24) as u32,
            },
        )
    } else {
        None
    }
}

/// A group value rebuilt from the eight digits of `q` is `q` itself.
proof fn lemma_u32_digit_sum(q: u32)
    ensures
        ((q >> 28u32) & 0xF) * 0x1000_0000 + ((q >> 24u32) & 0xF) * 0x100_0000 + ((q >> 20u32)
            & 0xF) * 0x10_0000 + ((q >> 16u32) & 0xF) * 0x1_0000 + ((q >> 12u32) & 0xF) * 0x1000 + (
        (q >> 8u32) & 0xF) * 0x100 + ((q >> 4u32) & 0xF) * 16 + ((q >> 0u32) & 0xF) == q,
{
    assert(((q >> 28u32) & 0xF) * 0x1000_0000 + ((q >> 24u32) & 0xF) * 0x100_0000 + ((q >> 20u32)
        & 0xF) * 0x10_0000 + ((q >> 16u32) & 0xF) * 0x1_0000 + ((q >> 12u32) & 0xF) * 0x1000 + ((q
        >> 8u32) & 0xF) * 0x100 + ((q >> 4u32) & 0xF) * 16 + ((q >> 0u32) & 0xF) == q)
        by (bit_vector);
}

/// Every digit of an identifier is below 16.
pub proof fn lemma_guid_digit_bound(g: Guid, k: int)
    requires
        0 <= k < 32,
    ensures
        guid_digit(g, k) < 16,
{
    let q = if k < 8 {
        g.q0
    } else if k < 16 {
        g.q1
    } else if k < 24 {
        g.q2
    } else {
        g.q3
    };
    let j = if k < 8 {
        k
    } else if k < 16 {
        k - 8
    } else if k < 24 {
        k - 16
    } else {
        k - 24
    };
    let sh = (28 - 4 * j) as u32;
    assert(sh <= 28);
    assert((q >> sh) & 0xF < 16) by (bit_vector);
}

/// A digit character carries its own value.
proof fn lemma_nib_char_val(n: u32)
    requires
        n < 16,
    ensures
        nib_val(nib_char(n)) == n,
        is_hex_digit(nib_char(n)),
{
    if n < 10 {
        assert(((48 + n) as u8) as char as u32 == 48 + n);
    } else {
        assert(((87 + n) as u8) as char as u32 == 87 + n);
    }
}

/// Parsing the canonical text of an identifier yields that identifier.
pub proof fn lemma_guid_chars_roundtrip(g: Guid)
    ensures
        parse_guid_chars(guid_chars(g)) == Some(g),
{
    let s = guid_chars(g);
    assert forall|i: int| 0 <= i < 36 && !guid_hyphen_pos(i) implies is_hex_digit(
        #[trigger] s[i],
    ) by {
        lemma_guid_digit_bound(g, guid_digit_pos(i));
        lemma_nib_char_val(guid_digit(g, guid_digit_pos(i)));
    }
    assert(valid_guid_chars(s));
    assert forall|k: int| 0 <= k < 32 implies #[trigger] digit_of_chars(s, k) == guid_digit(
        g,
        k,
    ) by {
        assert(guid_digit_pos(guid_char_pos(k)) == k);
        assert(!guid_hyphen_pos(guid_char_pos(k)));
        lemma_guid_digit_bound(g, k);
        lemma_nib_char_val(guid_digit(g, k));
    }
    lemma_u32_digit_sum(g.q0);
    assert(group_of_chars(s, 0) == g.q0) by {
        assert(guid_digit(g, 0) == (g.q0 >> 28u32) & 0xF);
        assert(guid_digit(g, 1) == (g.q0 >> 24u32) & 0xF);
        assert(guid_digit(g, 2) == (g.q0 >> 20u32) & 0xF);
        assert(guid_digit(g, 3) == (g.q0 >> 16u32) & 0xF);
        assert(guid_digit(g, 4) == (g.q0 >> 12u32) & 0xF);
        assert(guid_digit(g, 5) == (g.q0 >> 8u32) & 0xF);
        assert(guid_digit(g, 6) == (g.q0 >> 4u32) & 0xF);
        assert(guid_digit(g, 7) == (g.q0 >> 0u32) & 0xF);
    }
    lemma_u32_digit_sum(g.q1);
    assert(group_of_chars(s, 8) == g.q1) by {
        assert(guid_digit(g, 8) == (g.q1 >> 28u32) & 0xF);
        assert(guid_digit(g, 9) == (g.q1 >> 24u32) & 0xF);
        assert(guid_digit(g, 10) == (g.q1 >> 20u32) & 0xF);
        assert(guid_digit(g, 11) == (g.q1 >> 16u32) & 0xF);
        assert(guid_digit(g, 12) == (g.q1 >> 12u32) & 0xF);
        assert(guid_digit(g, 13) == (g.q1 >> 8u32) & 0xF);
        assert(guid_digit(g, 14) == (g.q1 >> 4u32) & 0xF);
        assert(guid_digit(g, 15) == (g.q1 >> 0u32) & 0xF);
    }
    lemma_u32_digit_sum(g.q2);
    assert(group_of_chars(s, 16) == g.q2) by {
        assert(guid_digit(g, 16) == (g.q2 >> 28u32) & 0xF);
        assert(guid_digit(g, 17) == (g.q2 >> 24u32) & 0xF);
        assert(guid_digit(g, 18) == (g.q2 >> 20u32) & 0xF);
        assert(guid_digit(g, 19) == (g.q2 >> 16u32) & 0xF);
        assert(guid_digit(g, 20) == (g.q2 >> 12u32) & 0xF);
        assert(guid_digit(g, 21) == (g.q2 >> 8u32) & 0xF);
        assert(guid_digit(g, 22) == (g.q2 >> 4u32) & 0xF);
        assert(guid_digit(g, 23) == (g.q2 >> 0u32) & 0xF);
    }
    lemma_u32_digit_sum(g.q3);
    assert(group_of_chars(s, 24) == g.q3) by {
        assert(guid_digit(g, 24) == (g.q3 >> 28u32) & 0xF);
        assert(guid_digit(g, 25) == (g.q3 >> 24u32) & 0xF);
        assert(guid_digit(g, 26) == (g.q3 >> 20u32) & 0xF);
        assert(guid_digit(g, 27) == (g.q3 >> 16u32) & 0xF);
        assert(guid_digit(g, 28) == (g.q3 >> 12u32) & 0xF);
        assert(guid_digit(g, 29) == (g.q3 >> 8u32) & 0xF);
        assert(guid_digit(g, 30) == (g.q3 >> 4u32) & 0xF);
        assert(guid_digit(g, 31) == (g.q3 >> 0u32) & 0xF);
    }
    let p = parse_guid_chars(s).unwrap();
    assert(p.q0 == g.q0 && p.q1 == g.q1 && p.q2 == g.q2 && p.q3 == g.q3);
}

/// Hexadecimal digit value of a character; 16 for any other character.
fn hex_digit_value(c: char) -> (r: u32)
    ensures
        r == nib_val(c),
{
    let u = c as u32;
    if 48 <= u && u <= 57 {
        u - 48
    } else if 97 <= u && u <= 102 {
        u - 87
    } else if 65 <= u && u <= 70 {
        u - 55
    } else {
        16
    }
}

/// Lower-case hexadecimal digit character for a value below 16.
fn hex_digit_char(n: u32) -> (c: char)
    requires
        n < 16,
    ensures
        c == nib_char(n),
{
    if n < 10 {
        ((48 + n) as u8) as char
    } else {
        ((87 + n) as u8) as char
    }
}

impl Guid {
    /// Parse the canonical 36-character text form.
    pub fn parse(s: &str) -> (r: Option<Guid>)
        ensures
            r == parse_guid_chars(s@),
    {
        let n = s.unicode_len();
        if n != 36 {
            assert(!valid_guid_chars(s@));
            return None;
        }
        if !(s.get_char(8) == '-' && s.get_char(13) == '-' && s.get_char(18) == '-' && s.get_char(
            23,
        ) == '-') {
            assert(!valid_guid_chars(s@));
            return None;
        }
        let mut digits: Vec<u32> = Vec::new();
        let mut i: usize = 0;
        while i < 36
            invariant
                s@.len() == 36,
                i <= 36,
                digits@.len() == if i < 9 {
                    i as int
                } else if i < 14 {
                    i - 1
                } else if i < 19 {
                    i - 2
                } else if i < 24 {
                    i - 3
                } else {
                    i - 4
                },
                forall|k: int|
                    0 <= k < digits@.len() ==> #[trigger] digits@[k] == nib_val(
                        s@[guid_char_pos(k)],
                    ),
            decreases 36 - i,
        {
            if !(i == 8 || i == 13 || i == 18 || i == 23) {
                let d = hex_digit_value(s.get_char(i));
                proof {
                    assert(guid_char_pos(digits@.len() as int) == i as int);
                }
                digits.push(d);
            }
            i = i + 1;
        }
        assert(digits@.len() == 32);
        let mut k: usize = 0;
        let mut all_hex = true;
        while k < 32
            invariant
                digits@.len() == 32,
                k <= 32,
                forall|t: int| 0 <= t < digits@.len() ==> #[trigger] digits@[t] < 17,
                forall|t: int|
                    0 <= t < digits@.len() ==> #[trigger] digits@[t] == nib_val(
                        s@[guid_char_pos(t)],
                    ),
                all_hex == forall|t: int| 0 <= t < k ==> #[trigger] digits@[t] < 16,
            decreases 32 - k,
        {
            if digits[k] >= 16 {
                all_hex = false;
            }
            k = k + 1;
        }
        if !all_hex {
            proof {
                let t = choose|t: int| 0 <= t < 32 && !(digits@[t] < 16);
                assert(!is_hex_digit(s@[guid_char_pos(t)]));
                assert(!guid_hyphen_pos(guid_char_pos(t)));
                assert(!valid_guid_chars(s@));
            }
            return None;
        }
        assert(valid_guid_chars(s@)) by {
            assert forall|i2: int| 0 <= i2 < 36 && !guid_hyphen_pos(i2) implies is_hex_digit(
                #[trigger] s@[i2],
            ) by {
                let k2 = guid_digit_pos(i2);
                assert(guid_char_pos(k2) == i2);
                assert(digits@[k2] < 16);
            }
        }
        let q0 = guid_group(&digits, 0);
        let q1 = guid_group(&digits, 8);
        let q2 = guid_group(&digits, 16);
        let q3 = guid_group(&digits, 24);
        assert(group_of_chars(s@, 0) == q0);
        assert(group_of_chars(s@, 8) == q1);
        assert(group_of_chars(s@, 16) == q2);
        assert(group_of_chars(s@, 24) == q3);
        Some(Guid { q0, q1, q2, q3 })
    }

    /// Render the canonical 36-character text form, with lower-case digits.
    pub fn to_text(&self) -> (r: String)
        ensures
            r@ == guid_chars(*self),
    {
        let mut out = String::new();
        let mut i: usize = 0;
        while i < 36
            invariant
                i <= 36,
                out@.len() == i,
                forall|t: int| 0 <= t < i ==> #[trigger] out@[t] == guid_chars(*self)[t],
            decreases 36 - i,
        {
            let c: char = if i == 8 || i == 13 || i == 18 || i == 23 {
                '-'
            } else {
                let k = if i < 8 {
                    i
                } else if i < 13 {
                    i - 1
                } else if i < 18 {
                    i - 2
                } else if i < 23 {
                    i - 3
                } else {
                    i - 4
                };
                proof {
                    lemma_guid_digit_bound(*self, k as int);
                    assert(guid_digit_pos(i as int) == k as int);
                }
                hex_digit_char(self.digit(k))
            };
            crate::text::push_char(&mut out, c);
            i = i + 1;
        }
        assert(out@ =~= guid_chars(*self));
        out
    }

    /// Hexadecimal digit `k` (0 <= k < 32), in text order.
    fn digit(&self, k: usize) -> (r: u32)
        requires
            k < 32,
        ensures
            r == guid_digit(*self, k as int),
    {
        let q = if k < 8 {
            self.q0
        } else if k < 16 {
            self.q1
        } else if k < 24 {
            self.q2
        } else {
            self.q3
        };
        let j = k % 8;
        (q >> ((28 - 4 * j) as u32)) & 0xF
    }
}

/// Combine eight digit values (each below 16) into one 32-bit group.
fn guid_group(digits: &Vec<u32>, k0: usize) -> (r: u32)
    requires
        digits@.len() == 32,
        k0 + 8 <= 32,
        forall|t: int| 0 <= t < 32 ==> #[trigger] digits@[t] < 16,
    ensures
        r == digits@[k0 as int] * 0x1000_0000 + digits@[k0 + 1] * 0x100_0000 + digits@[k0 + 2]
            * 0x10_0000 + digits@[k0 + 3] * 0x1_0000 + digits@[k0 + 4] * 0x1000 + digits@[k0 + 5]
            * 0x100 + digits@[k0 + 6] * 16 + digits@[k0 + 7],
{
    digits[k0] * 0x1000_0000 + digits[k0 + 1] * 0x100_0000 + digits[k0 + 2] * 0x10_0000 + digits[k0
        + 3] * 0x1_0000 + digits[k0 + 4] * 0x1000 + digits[k0 + 5] * 0x100 + digits[k0 + 6] * 16
        + digits[k0 + 7]
}

} // verus!

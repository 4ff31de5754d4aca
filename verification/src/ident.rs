//! Container identifiers: the canonical hyphenated hexadecimal form,
//! its well-formedness predicate, and its numeric value.
//!
//! An identifier on the wire is 36 characters: five groups of hexadecimal
//! digits (8-4-4-4-12) separated by hyphens. Its value is the 128-bit
//! integer the 32 digits denote, most significant digit first.

use vstd::prelude::*;
use vstd::string::StrSliceExecFns;
use vstd::arithmetic::power::{
    pow,
    lemma_pow_increases,
    lemma_pow_adds,
    lemma_pow0,
    lemma_pow1,
    lemma_pow_positive,
};

verus! {

/// Whether `c` is a hexadecimal digit (either case).
pub open spec fn is_hex_digit(c: char) -> bool {
    let u = c as u32;
    (48 <= u && u <= 57) || (97 <= u && u <= 102) || (65 <= u && u <= 70)
}

/// The value of a hexadecimal digit; zero on any other character.
pub open spec fn hex_digit_value(c: char) -> nat {
    let u = c as u32;
    if 48 <= u && u <= 57 {
        (u - 48) as nat
    } else if 97 <= u && u <= 102 {
        (u - 97 + 10) as nat
    } else if 65 <= u && u <= 70 {
        (u - 65 + 10) as nat
    } else {
        0
    }
}

/// The value of a digit string, most significant digit first.
pub open spec fn hex_value(s: Seq<char>) -> nat
    decreases s.len(),
{
    if s.len() == 0 {
        0
    } else {
        hex_value(s.drop_last()) * 16 + hex_digit_value(s.last())
    }
}

/// The four positions of the hyphens in the canonical form.
pub open spec fn is_uuid_hyphen_index(i: int) -> bool {
    i == 8 || i == 13 || i == 18 || i == 23
}

/// How many hyphen positions lie strictly before position `i`.
pub open spec fn hyphens_before(i: int) -> int {
    (if i > 8 { 1int } else { 0int }) + (if i > 13 { 1int } else { 0int })
        + (if i > 18 { 1int } else { 0int }) + (if i > 23 { 1int } else { 0int })
}

/// What position `i` of a well-formed identifier must hold.
pub open spec fn uuid_char_ok(s: Seq<char>, i: int) -> bool {
    if is_uuid_hyphen_index(i) {
        s[i] == '-'
    } else {
        is_hex_digit(s[i])
    }
}

/// The digit characters among the first `i` positions, hyphens skipped.
pub open spec fn uuid_digits_upto(s: Seq<char>, i: int) -> Seq<char>
    decreases i,
{
    if i <= 0 {
        Seq::empty()
    } else if is_uuid_hyphen_index(i - 1) {
        uuid_digits_upto(s, i - 1)
    } else {
        uuid_digits_upto(s, i - 1).push(s[i - 1])
    }
}

/// The 32 digit characters of a well-formed identifier.
pub open spec fn uuid_digits(s: Seq<char>) -> Seq<char> {
    uuid_digits_upto(s, 36)
}

/// A well-formed identifier: 36 characters, hyphens at positions
/// 8, 13, 18 and 23, hexadecimal digits everywhere else.
pub open spec fn uuid_well_formed(s: Seq<char>) -> bool {
    &&& s.len() == 36
    &&& forall|i: int| 0 <= i < 36 ==> #[trigger] uuid_char_ok(s, i)
}

/// The numeric value a well-formed identifier denotes.
pub open spec fn uuid_value(s: Seq<char>) -> nat {
    hex_value(uuid_digits(s))
}

/// The numeric value of `16^32`, the count of 128-bit values.
pub proof fn lemma_pow16_32()
    ensures
        pow(16, 32) == 0x100000000000000000000000000000000,
{
    reveal_with_fuel(pow, 33);
}

/// A digit string of length `n` denotes a value below `16^n`.
pub proof fn lemma_hex_value_bound(s: Seq<char>)
    ensures
        hex_value(s) < pow(16, s.len()),
    decreases s.len(),
{
    if s.len() == 0 {
        lemma_pow0(16);
    } else {
        lemma_hex_value_bound(s.drop_last());
        lemma_pow1(16);
        lemma_pow_adds(16, 1, (s.len() - 1) as nat);
        assert(pow(16, s.len()) == 16 * pow(16, (s.len() - 1) as nat));
        assert(hex_value(s) == hex_value(s.drop_last()) * 16 + hex_digit_value(s.last()));
        assert(hex_digit_value(s.last()) < 16);
        assert(hex_value(s.drop_last()) * 16 <= (pow(16, (s.len() - 1) as nat) - 1) * 16) by (nonlinear_arith)
            requires
                hex_value(s.drop_last()) <= pow(16, (s.len() - 1) as nat) - 1,
        ;
    }
}

/// Appending a digit multiplies the value by sixteen and adds the digit.
pub proof fn lemma_hex_value_push(s: Seq<char>, c: char)
    ensures
        hex_value(s.push(c)) == hex_value(s) * 16 + hex_digit_value(c),
{
    assert(s.push(c).drop_last() =~= s);
    assert(s.push(c).last() == c);
}

/// Parses the canonical hyphenated form. Returns the denoted value
/// exactly on well-formed input.
pub fn parse_uuid(raw: &str) -> (r: Option<u128>)
    ensures
        match r {
            Some(v) => uuid_well_formed(raw@) && v as nat == uuid_value(raw@),
            None => !uuid_well_formed(raw@),
        },
{
    let n = raw.unicode_len();
    if n != 36 {
        return None;
    }
    let mut acc: u128 = 0;
    let mut i: usize = 0;
    while i < 36
        invariant
            raw@.len() == 36,
            i <= 36,
            forall|j: int| 0 <= j < i ==> #[trigger] uuid_char_ok(raw@, j),
            uuid_digits_upto(raw@, i as int).len() == i - hyphens_before(i as int),
            acc as nat == hex_value(uuid_digits_upto(raw@, i as int)),
        decreases 36 - i,
    {
        let c = raw.get_char(i);
        if i == 8 || i == 13 || i == 18 || i == 23 {
            if c != '-' {
                proof {
                    assert(!uuid_char_ok(raw@, i as int));
                }
                return None;
            }
        } else {
            let u = c as u32;
            let d: u32 = if 48 <= u && u <= 57 {
                u - 48
            } else if 97 <= u && u <= 102 {
                u - 97 + 10
            } else if 65 <= u && u <= 70 {
                u - 65 + 10
            } else {
                proof {
                    assert(!uuid_char_ok(raw@, i as int));
                }
                return None;
            };
            proof {
                let dg = uuid_digits_upto(raw@, i as int);
                lemma_hex_value_bound(dg);
                assert(dg.len() <= 31);
                lemma_pow_increases(16, dg.len(), 31);
                lemma_pow1(16);
                lemma_pow_adds(16, 1, 31);
                assert(pow(16, 32) == 16 * pow(16, 31));
                lemma_pow16_32();
                assert(acc * 16 + d <= u128::MAX);
                lemma_hex_value_push(dg, raw@[i as int]);
            }
            acc = acc * 16 + (d as u128);
        }
        i = i + 1;
    }
    Some(acc)
}

/// The digit slot that position `k` of the text fills, hyphens skipped.
pub open spec fn digit_slot(k: int) -> int {
    k - hyphens_before(k)
}

/// The value of a digit string, least significant digit first.
pub open spec fn le_value(s: Seq<u8>) -> nat
    decreases s.len(),
{
    if s.len() == 0 {
        0
    } else {
        (s[0] + 16 * le_value(s.drop_first())) as nat
    }
}

/// The lower-case character of one hexadecimal digit.
pub open spec fn hex_digit_char(v: nat) -> char {
    if v < 10 {
        ((48 + v) as u8) as char
    } else {
        ((87 + v) as u8) as char
    }
}

/// The character a rendered identifier holds at position `j`, given the
/// 32 digit values least significant first.
pub open spec fn uuid_render_char(digits: Seq<u8>, j: int) -> char {
    if is_uuid_hyphen_index(j) {
        '-'
    } else {
        hex_digit_char(digits[31 - digit_slot(j)] as nat)
    }
}

/// The rendered character of a digit below sixteen is that digit.
pub proof fn lemma_hex_digit_char(v: nat)
    requires
        v < 16,
    ensures
        is_hex_digit(hex_digit_char(v)),
        hex_digit_value(hex_digit_char(v)) == v,
{
}

/// Appending a digit at the least significant end adds it scaled by the
/// weight of its slot.
pub proof fn lemma_le_value_push(s: Seq<u8>, d: u8)
    ensures
        le_value(s.push(d)) == le_value(s) + d * pow(16, s.len()),
    decreases s.len(),
{
    if s.len() == 0 {
        lemma_pow0(16);
        assert(s.push(d).drop_first() =~= Seq::<u8>::empty());
        assert(s.push(d)[0] == d);
        assert(le_value(s.push(d)) == d + 16 * le_value(s.push(d).drop_first()));
    } else {
        assert(s.push(d).drop_first() =~= s.drop_first().push(d));
        lemma_le_value_push(s.drop_first(), d);
        lemma_pow1(16);
        lemma_pow_adds(16, 1, (s.len() - 1) as nat);
        assert(s.push(d)[0] == s[0]);
        assert(le_value(s.push(d)) == s[0] + 16 * le_value(s.drop_first().push(d)));
        assert(le_value(s) == s[0] + 16 * le_value(s.drop_first()));
        assert(16 * (le_value(s.drop_first()) + d * pow(16, (s.len() - 1) as nat)) == 16
            * le_value(s.drop_first()) + d * (16 * pow(16, (s.len() - 1) as nat)))
            by (nonlinear_arith);
    }
}

/// A digit string read most significant first denotes the same value as
/// its reverse read least significant first.
pub proof fn lemma_hex_value_of_rev(digits: Seq<u8>, cs: Seq<char>)
    requires
        cs.len() == digits.len(),
        forall|k: int| 0 <= k < digits.len() ==> digits[k] < 16,
        forall|k: int| 0 <= k < cs.len() ==> #[trigger] cs[k] == hex_digit_char(
            digits[cs.len() - 1 - k] as nat,
        ),
    ensures
        hex_value(cs) == le_value(digits),
    decreases cs.len(),
{
    if cs.len() == 0 {
    } else {
        let df = digits.drop_first();
        let cl = cs.drop_last();
        assert(cl.len() == df.len());
        assert forall|k: int| 0 <= k < cl.len() implies #[trigger] cl[k] == hex_digit_char(
            df[cl.len() - 1 - k] as nat,
        ) by {
            assert(cs[k] == hex_digit_char(digits[cs.len() - 1 - k] as nat));
            assert(df[cl.len() - 1 - k] == digits[cs.len() - 1 - k]);
        }
        lemma_hex_value_of_rev(df, cl);
        assert(cs.last() == hex_digit_char(digits[0] as nat));
        lemma_hex_digit_char(digits[0] as nat);
    }
}

/// The digit characters collected from a prefix sit at their slots: the
/// digit at text position `k` lands in slot `digit_slot(k)`.
pub proof fn lemma_uuid_digits_characterize(s: Seq<char>, i: int)
    requires
        0 <= i <= 36,
    ensures
        uuid_digits_upto(s, i).len() == i - hyphens_before(i),
        forall|k: int|
            #![trigger s[k]]
            0 <= k < i && !is_uuid_hyphen_index(k) ==> uuid_digits_upto(s, i)[digit_slot(k)]
                == s[k],
    decreases i,
{
    if i > 0 {
        lemma_uuid_digits_characterize(s, i - 1);
        let prev = uuid_digits_upto(s, i - 1);
        let curr = uuid_digits_upto(s, i);
        if is_uuid_hyphen_index(i - 1) {
            assert(curr == prev);
        } else {
            assert(curr == prev.push(s[i - 1]));
            assert(digit_slot(i - 1) == prev.len());
        }
        assert forall|k: int|
            #![trigger s[k]]
            0 <= k < i && !is_uuid_hyphen_index(k) implies curr[digit_slot(k)] == s[k] by {
            if k < i - 1 {
                assert(prev[digit_slot(k)] == s[k]);
                assert(digit_slot(k) < prev.len());
            }
        }
    }
}

/// Renders a value in the canonical hyphenated form, lower case.
pub fn format_uuid(v: u128) -> (r: String)
    ensures
        uuid_well_formed(r@),
        uuid_value(r@) == v as nat,
{
    let mut digits: Vec<u8> = Vec::new();
    let mut cur: u128 = v;
    let mut k: usize = 0;
    proof {
        lemma_pow0(16);
        assert(le_value(digits@) == 0);
    }
    while k < 32
        invariant
            k <= 32,
            digits@.len() == k,
            forall|j: int| 0 <= j < k ==> digits@[j] < 16,
            v as nat == le_value(digits@) + (cur as nat) * pow(16, k as nat),
        decreases 32 - k,
    {
        let d: u8 = (cur % 16) as u8;
        proof {
            lemma_le_value_push(digits@, d);
            lemma_pow1(16);
            lemma_pow_adds(16, 1, k as nat);
            lemma_pow_positive(16, k as nat);
            assert((cur as nat) * pow(16, k as nat) == d * pow(16, k as nat) + ((cur / 16)
                as nat) * (16 * pow(16, k as nat))) by (nonlinear_arith)
                requires
                    cur as nat == 16 * ((cur / 16) as nat) + (d as nat),
                    pow(16, k as nat) >= 0,
            ;
        }
        digits.push(d);
        cur = cur / 16;
        k = k + 1;
    }
    proof {
        lemma_pow16_32();
        if cur >= 1 {
            assert((cur as nat) * pow(16, 32) >= pow(16, 32)) by (nonlinear_arith)
                requires
                    cur as nat >= 1,
                    pow(16, 32) >= 0,
            ;
        }
        assert(le_value(digits@) == v as nat);
    }
    let mut out = String::new();
    let mut i: usize = 0;
    while i < 36
        invariant
            i <= 36,
            out@.len() == i,
            digits@.len() == 32,
            forall|j: int| 0 <= j < 32 ==> digits@[j] < 16,
            le_value(digits@) == v as nat,
            forall|j: int| 0 <= j < i ==> #[trigger] out@[j] == uuid_render_char(digits@, j),
        decreases 36 - i,
    {
        if i == 8 || i == 13 || i == 18 || i == 23 {
            proof {
                reveal_strlit("-");
            }
            out.append("-");
        } else {
            let hb: usize = if i > 23 {
                4
            } else if i > 18 {
                3
            } else if i > 13 {
                2
            } else if i > 8 {
                1
            } else {
                0
            };
            let d: u8 = digits[31 - (i - hb)];
            proof {
                reveal_strlit("0");
                reveal_strlit("1");
                reveal_strlit("2");
                reveal_strlit("3");
                reveal_strlit("4");
                reveal_strlit("5");
                reveal_strlit("6");
                reveal_strlit("7");
                reveal_strlit("8");
                reveal_strlit("9");
                reveal_strlit("a");
                reveal_strlit("b");
                reveal_strlit("c");
                reveal_strlit("d");
                reveal_strlit("e");
                reveal_strlit("f");
            }
            if d == 0 {
                out.append("0");
            } else if d == 1 {
                out.append("1");
            } else if d == 2 {
                out.append("2");
            } else if d == 3 {
                out.append("3");
            } else if d == 4 {
                out.append("4");
            } else if d == 5 {
                out.append("5");
            } else if d == 6 {
                out.append("6");
            } else if d == 7 {
                out.append("7");
            } else if d == 8 {
                out.append("8");
            } else if d == 9 {
                out.append("9");
            } else if d == 10 {
                out.append("a");
            } else if d == 11 {
                out.append("b");
            } else if d == 12 {
                out.append("c");
            } else if d == 13 {
                out.append("d");
            } else if d == 14 {
                out.append("e");
            } else {
                out.append("f");
            }
        }
        i = i + 1;
    }
    proof {
        assert forall|j: int| 0 <= j < 36 implies #[trigger] uuid_char_ok(out@, j) by {
            if !is_uuid_hyphen_index(j) {
                lemma_hex_digit_char(digits@[31 - digit_slot(j)] as nat);
            }
        }
        lemma_uuid_digits_characterize(out@, 36);
        let cs = uuid_digits(out@);
        assert forall|k: int| 0 <= k < 32 implies #[trigger] cs[k] == hex_digit_char(
            digits@[31 - k] as nat,
        ) by {
            let j: int = if k < 8 {
                k
            } else if k < 12 {
                k + 1
            } else if k < 16 {
                k + 2
            } else if k < 20 {
                k + 3
            } else {
                k + 4
            };
            assert(!is_uuid_hyphen_index(j));
            assert(digit_slot(j) == k);
            assert(uuid_digits_upto(out@, 36)[digit_slot(j)] == out@[j]);
            assert(out@[j] == uuid_render_char(digits@, j));
        }
        lemma_hex_value_of_rev(digits@, cs);
    }
    out
}

} // verus!

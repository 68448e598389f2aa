use vstd::prelude::*;

verus! {

// Shard output files are named with the shard index zero-padded to eight
// decimal digits, followed by `.tar.zstd`. This module holds the naming
// convention: formatting an index into a name, recognising and parsing a
// name back into its index, and the proofs that the two agree.

/// Indices live below this bound, so a name always has exactly eight digits.
pub const SHARD_INDEX_LIMIT: u64 = 100000000;

/// The character for one decimal digit.
pub open spec fn digit_char(d: int) -> char {
    if d == 0 {
        '0'
    } else if d == 1 {
        '1'
    } else if d == 2 {
        '2'
    } else if d == 3 {
        '3'
    } else if d == 4 {
        '4'
    } else if d == 5 {
        '5'
    } else if d == 6 {
        '6'
    } else if d == 7 {
        '7'
    } else if d == 8 {
        '8'
    } else {
        '9'
    }
}

/// The eight digit characters of an index, most significant first.
pub open spec fn spec_shard_digits(i: int) -> Seq<char> {
    seq![
        digit_char(i / 10000000 % 10),
        digit_char(i / 1000000 % 10),
        digit_char(i / 100000 % 10),
        digit_char(i / 10000 % 10),
        digit_char(i / 1000 % 10),
        digit_char(i / 100 % 10),
        digit_char(i / 10 % 10),
        digit_char(i % 10),
    ]
}

/// The fixed archive suffix.
pub open spec fn spec_shard_suffix() -> Seq<char> {
    seq!['.', 't', 'a', 'r', '.', 'z', 's', 't', 'd']
}

/// The full shard file name for an index.
pub open spec fn spec_shard_name(i: int) -> Seq<char> {
    spec_shard_digits(i) + spec_shard_suffix()
}

/// Whether a character is a decimal digit.
pub open spec fn is_digit(c: char) -> bool {
    '0' as int <= c as int <= '9' as int
}

/// The numeric value of a digit character.
pub open spec fn digit_val(c: char) -> int {
    c as int - '0' as int
}

/// Value of the first `k` characters of `s` read as a decimal number.
pub open spec fn digits_val_prefix(s: Seq<char>, k: int) -> int
    decreases k,
{
    if k <= 0 {
        0
    } else {
        digits_val_prefix(s, k - 1) * 10 + digit_val(s[k - 1])
    }
}

/// Upper bound on the value of a `k`-digit decimal prefix.
pub open spec fn digits_val_bound(k: int) -> int {
    if k <= 0 {
        1
    } else if k == 1 {
        10
    } else if k == 2 {
        100
    } else if k == 3 {
        1000
    } else if k == 4 {
        10000
    } else if k == 5 {
        100000
    } else if k == 6 {
        1000000
    } else if k == 7 {
        10000000
    } else {
        100000000
    }
}

/// Whether a character sequence follows the shard naming convention:
/// exactly eight decimal digits followed by `.tar.zstd`.
pub open spec fn spec_name_matches(s: Seq<char>) -> bool {
    &&& s.len() == 17
    &&& forall|k: int| 0 <= k < 8 ==> is_digit(#[trigger] s[k])
    &&& s.subrange(8, 17) == spec_shard_suffix()
}

/// The index encoded by a name that follows the convention, or `None`.
pub open spec fn spec_parse_shard_name(s: Seq<char>) -> Option<u64> {
    if spec_name_matches(s) {
        Some(digits_val_prefix(s, 8) as u64)
    } else {
        None
    }
}

/// The one-character string for a digit.
fn digit_str(d: u64) -> (r: &'static str)
    requires
        d < 10,
    ensures
        r@ == seq![digit_char(d as int)],
{
    let r: &'static str = if d == 0 {
        "0"
    } else if d == 1 {
        "1"
    } else if d == 2 {
        "2"
    } else if d == 3 {
        "3"
    } else if d == 4 {
        "4"
    } else if d == 5 {
        "5"
    } else if d == 6 {
        "6"
    } else if d == 7 {
        "7"
    } else if d == 8 {
        "8"
    } else {
        "9"
    };
    proof {
        reveal_strlit("0");
        reveal_strlit("1");
        reveal_strlit("2");
        reveal_strlit("3");
        reveal_strlit("4");
        reveal_strlit("5");
        reveal_strlit("6");
        reveal_strlit("7");
        reveal_strlit("8");
        reveal_strlit("9");
        assert(r@ =~= seq![digit_char(d as int)]);
    }
    r
}

/// The archive suffix as a string slice.
fn shard_suffix_str() -> (r: &'static str)
    ensures
        r@ == spec_shard_suffix(),
{
    let r: &'static str = ".tar.zstd";
    proof {
        reveal_strlit(".tar.zstd");
        assert(r@ =~= spec_shard_suffix());
    }
    r
}

/// Format a shard index into its output file name: the index zero-padded to
/// eight decimal digits, with the `.tar.zstd` suffix.
pub fn shard_file_name(index: u64) -> (r: String)
    requires
        index < SHARD_INDEX_LIMIT,
    ensures
        r@ == spec_shard_name(index as int),
{
    let mut r = String::new();
    r.append(digit_str(index / 10000000 % 10));
    r.append(digit_str(index / 1000000 % 10));
    r.append(digit_str(index / 100000 % 10));
    r.append(digit_str(index / 10000 % 10));
    r.append(digit_str(index / 1000 % 10));
    r.append(digit_str(index / 100 % 10));
    r.append(digit_str(index / 10 % 10));
    r.append(digit_str(index % 10));
    r.append(shard_suffix_str());
    proof {
        assert(r@ =~= spec_shard_name(index as int));
    }
    r
}

/// Recognise a file name that follows the shard naming convention and
/// recover its index; reject every other name.
pub fn parse_shard_name(name: &str) -> (r: Option<u64>)
    ensures
        r == spec_parse_shard_name(name@),
{
    let n = name.unicode_len();
    if n != 17 {
        return None;
    }
    let mut val: u64 = 0;
    let mut k: usize = 0;
    while k < 8
        invariant
            name@.len() == 17,
            0 <= k <= 8,
            forall|j: int| 0 <= j < k ==> is_digit(#[trigger] name@[j]),
            val == digits_val_prefix(name@, k as int),
            val < digits_val_bound(k as int),
        decreases 8 - k,
    {
        let c = name.get_char(k);
        let u: u32 = c as u32;
        if u < 48 || u > 57 {
            proof {
                assert('0' as int == 48 && '9' as int == 57);
                assert(!is_digit(name@[k as int]));
            }
            return None;
        }
        proof {
            assert('0' as int == 48 && '9' as int == 57);
        }
        val = val * 10 + ((u - 48) as u64);
        k = k + 1;
    }
    let suffix = shard_suffix_str();
    let mut j: usize = 8;
    while j < 17
        invariant
            name@.len() == 17,
            suffix@ == spec_shard_suffix(),
            8 <= j <= 17,
            forall|m: int| 8 <= m < j ==> name@[m] == spec_shard_suffix()[m - 8],
        decreases 17 - j,
    {
        if name.get_char(j) != suffix.get_char(j - 8) {
            proof {
                assert(name@[j as int] != spec_shard_suffix()[j as int - 8]);
                assert(name@.subrange(8, 17) != spec_shard_suffix()) by {
                    assert(name@.subrange(8, 17)[j as int - 8] != spec_shard_suffix()[j as int
                        - 8]);
                }
            }
            return None;
        }
        j = j + 1;
    }
    proof {
        assert(name@.subrange(8, 17) =~= spec_shard_suffix());
        assert(spec_name_matches(name@));
    }
    Some(val)
}

/// Each digit character carries its digit back.
proof fn lemma_digit_char_val(d: int)
    requires
        0 <= d < 10,
    ensures
        is_digit(digit_char(d)),
        digit_val(digit_char(d)) == d,
{
}

/// Reading the formatted digits back yields the index: the digit prefix of
/// `spec_shard_digits(i)` evaluates, step by step, to `i` itself.
proof fn lemma_digits_value(i: int)
    requires
        0 <= i < SHARD_INDEX_LIMIT,
    ensures
        digits_val_prefix(spec_shard_name(i), 8) == i,
{
    let s = spec_shard_name(i);
    assert forall|d: int| 0 <= d < 10 implies digit_val(digit_char(d)) == d by {
        lemma_digit_char_val(d);
    }
    assert(digits_val_prefix(s, 0) == 0);
    assert(digits_val_prefix(s, 1) == i / 10000000 % 10);
    assert(i / 10000000 % 10 == i / 10000000) by {
        assert(i / 10000000 < 10);
    }
    assert(digits_val_prefix(s, 2) == i / 10000000 * 10 + i / 1000000 % 10);
    assert(i / 10000000 * 10 + i / 1000000 % 10 == i / 1000000) by {
        vstd::arithmetic::div_mod::lemma_div_denominator(i, 1000000, 10);
        vstd::arithmetic::div_mod::lemma_fundamental_div_mod(i / 1000000, 10);
    }
    assert(digits_val_prefix(s, 3) == i / 1000000 * 10 + i / 100000 % 10);
    assert(i / 1000000 * 10 + i / 100000 % 10 == i / 100000) by {
        vstd::arithmetic::div_mod::lemma_div_denominator(i, 100000, 10);
        vstd::arithmetic::div_mod::lemma_fundamental_div_mod(i / 100000, 10);
    }
    assert(digits_val_prefix(s, 4) == i / 100000 * 10 + i / 10000 % 10);
    assert(i / 100000 * 10 + i / 10000 % 10 == i / 10000) by {
        vstd::arithmetic::div_mod::lemma_div_denominator(i, 10000, 10);
        vstd::arithmetic::div_mod::lemma_fundamental_div_mod(i / 10000, 10);
    }
    assert(digits_val_prefix(s, 5) == i / 10000 * 10 + i / 1000 % 10);
    assert(i / 10000 * 10 + i / 1000 % 10 == i / 1000) by {
        vstd::arithmetic::div_mod::lemma_div_denominator(i, 1000, 10);
        vstd::arithmetic::div_mod::lemma_fundamental_div_mod(i / 1000, 10);
    }
    assert(digits_val_prefix(s, 6) == i / 1000 * 10 + i / 100 % 10);
    assert(i / 1000 * 10 + i / 100 % 10 == i / 100) by {
        vstd::arithmetic::div_mod::lemma_div_denominator(i, 100, 10);
        vstd::arithmetic::div_mod::lemma_fundamental_div_mod(i / 100, 10);
    }
    assert(digits_val_prefix(s, 7) == i / 100 * 10 + i / 10 % 10);
    assert(i / 100 * 10 + i / 10 % 10 == i / 10) by {
        vstd::arithmetic::div_mod::lemma_div_denominator(i, 10, 10);
        vstd::arithmetic::div_mod::lemma_fundamental_div_mod(i / 10, 10);
    }
    assert(digits_val_prefix(s, 8) == i / 10 * 10 + i % 10);
    assert(i / 10 * 10 + i % 10 == i) by {
        vstd::arithmetic::div_mod::lemma_fundamental_div_mod(i, 10);
    }
}

/// Round trip of the naming convention: formatting an index and parsing the
/// result yields that index back.
pub proof fn lemma_shard_name_round_trip(i: u64)
    requires
        i < SHARD_INDEX_LIMIT,
    ensures
        spec_parse_shard_name(spec_shard_name(i as int)) == Some::<u64>(i),
{
    let s = spec_shard_name(i as int);
    assert forall|k: int| 0 <= k < 8 implies is_digit(#[trigger] s[k]) by {
        assert(s[k] == spec_shard_digits(i as int)[k]);
        if k == 0 {
            lemma_digit_char_val(i as int / 10000000 % 10);
        } else if k == 1 {
            lemma_digit_char_val(i as int / 1000000 % 10);
        } else if k == 2 {
            lemma_digit_char_val(i as int / 100000 % 10);
        } else if k == 3 {
            lemma_digit_char_val(i as int / 10000 % 10);
        } else if k == 4 {
            lemma_digit_char_val(i as int / 1000 % 10);
        } else if k == 5 {
            lemma_digit_char_val(i as int / 100 % 10);
        } else if k == 6 {
            lemma_digit_char_val(i as int / 10 % 10);
        } else {
            lemma_digit_char_val(i as int % 10);
        }
    }
    assert(s.subrange(8, 17) =~= spec_shard_suffix());
    assert(spec_name_matches(s));
    lemma_digits_value(i as int);
}

/// Distinct indices get distinct names.
pub proof fn lemma_shard_name_injective(i: u64, j: u64)
    requires
        i < SHARD_INDEX_LIMIT,
        j < SHARD_INDEX_LIMIT,
        spec_shard_name(i as int) == spec_shard_name(j as int),
    ensures
        i == j,
{
    lemma_shard_name_round_trip(i);
    lemma_shard_name_round_trip(j);
}

} // verus!

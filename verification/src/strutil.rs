//! Character-sequence helpers: decimal rendering and parsing of integers,
//! string equality and prefix tests, all specified over `Seq<char>`.

use vstd::prelude::*;

verus! {

broadcast use vstd::string::group_string_axioms;

/// Whether `c` is a decimal digit.
pub open spec fn is_digit(c: char) -> bool {
    '0' as int <= c as int && c as int <= '9' as int
}

/// The numeric value of the digit `c`.
pub open spec fn digit_val(c: char) -> int {
    c as int - '0' as int
}

/// The digit character for a value in `[0, 9]`.
pub open spec fn digit_char(d: int) -> char {
    if d == 0 {
        '0'
    } else if d == 1 {
        '1'
    } else if d == 2 {
        '2'
    } else if d == 3 {
        '3'
    } else if d == 4 {
        '4'
    } else if d == 5 {
        '5'
    } else if d == 6 {
        '6'
    } else if d == 7 {
        '7'
    } else if d == 8 {
        '8'
    } else {
        '9'
    }
}

/// The decimal rendering of `n`, most significant digit first, no sign and no
/// leading zeros (except for `n == 0` itself).
pub open spec fn dec_seq(n: nat) -> Seq<char>
    decreases n,
{
    if n < 10 {
        seq![digit_char(n as int)]
    } else {
        dec_seq(n / 10).push(digit_char((n % 10) as int))
    }
}

/// The value of a digit string, most significant digit first.
pub open spec fn digits_value(s: Seq<char>) -> int
    decreases s.len(),
{
    if s.len() == 0 {
        0
    } else {
        digits_value(s.drop_last()) * 10 + digit_val(s.last())
    }
}

/// A nonempty string of decimal digits.
pub open spec fn all_digits(s: Seq<char>) -> bool {
    s.len() > 0 && forall|i: int| 0 <= i < s.len() ==> is_digit(#[trigger] s[i])
}

pub open spec fn pow10(n: nat) -> int
    decreases n,
{
    if n == 0 {
        1
    } else {
        10 * pow10((n - 1) as nat)
    }
}

proof fn lemma_digits_value_bounds(s: Seq<char>)
    requires
        forall|i: int| 0 <= i < s.len() ==> is_digit(#[trigger] s[i]),
    ensures
        0 <= digits_value(s) < pow10(s.len()),
    decreases s.len(),
{
    if s.len() > 0 {
        lemma_digits_value_bounds(s.drop_last());
    }
}

proof fn lemma_digits_value_lower(s: Seq<char>)
    requires
        all_digits(s),
        digit_val(s[0]) >= 1,
    ensures
        digits_value(s) >= pow10((s.len() - 1) as nat),
    decreases s.len(),
{
    if s.len() == 1 {
        assert(s.last() == s[0]);
        assert(digits_value(s.drop_last()) == 0);
        assert(digits_value(s) == digit_val(s[0]));
        assert(pow10(0) == 1);
    } else {
        let dl = s.drop_last();
        assert(dl.len() == s.len() - 1);
        assert(dl[0] == s[0]);
        assert(all_digits(dl));
        lemma_digits_value_lower(dl);
        assert(digits_value(s) == digits_value(dl) * 10 + digit_val(s.last()));
        assert(digit_val(s.last()) >= 0);
        assert(pow10((s.len() - 1) as nat) == 10 * pow10((s.len() - 2) as nat));
        assert(digits_value(dl) * 10 >= pow10((dl.len() - 1) as nat) * 10);
        assert(pow10((dl.len() - 1) as nat) == pow10((s.len() - 2) as nat));
        assert(digits_value(s) >= 10 * pow10((s.len() - 2) as nat));
    }
}

proof fn lemma_strip_one_zero(t: Seq<char>)
    ensures
        digits_value(seq!['0'] + t) == digits_value(t),
    decreases t.len(),
{
    if t.len() == 0 {
        let s = seq!['0'] + t;
        assert(s.len() == 1);
        assert(s.drop_last() =~= Seq::<char>::empty());
        assert(digits_value(s.drop_last()) == 0);
        assert(s.last() == '0');
        assert(digits_value(s) == digits_value(s.drop_last()) * 10 + digit_val(s.last()));
        assert(digit_val('0') == 0);
    } else {
        assert((seq!['0'] + t).drop_last() =~= seq!['0'] + t.drop_last());
        assert((seq!['0'] + t).last() == t.last());
        lemma_strip_one_zero(t.drop_last());
    }
}

proof fn lemma_strip_zeros(s: Seq<char>, k: int)
    requires
        0 <= k <= s.len(),
        forall|i: int| 0 <= i < k ==> #[trigger] s[i] == '0',
    ensures
        digits_value(s) == digits_value(s.skip(k)),
    decreases k,
{
    if k == 0 {
        assert(s.skip(0) =~= s);
    } else {
        assert(s =~= seq!['0'] + s.skip(1));
        lemma_strip_one_zero(s.skip(1));
        lemma_strip_zeros(s.skip(1), k - 1);
        assert(s.skip(1).skip(k - 1) =~= s.skip(k));
    }
}

/// Renders a digit value as a one-character string slice.
fn digit_str(d: u64) -> (r: &'static str)
    requires
        d < 10,
    ensures
        r@ == seq![digit_char(d as int)],
{
    let r: &'static str = match d {
        0 => "0",
        1 => "1",
        2 => "2",
        3 => "3",
        4 => "4",
        5 => "5",
        6 => "6",
        7 => "7",
        8 => "8",
        _ => "9",
    };
    proof {
        reveal_strlit("0");
        reveal_strlit("1");
        reveal_strlit("2");
        reveal_strlit("3");
        reveal_strlit("4");
        reveal_strlit("5");
        reveal_strlit("6");
        reveal_strlit("7");
        reveal_strlit("8");
        reveal_strlit("9");
        assert(r@ =~= seq![digit_char(d as int)]);
    }
    r
}

/// The decimal rendering of `n`.
pub fn u128_to_string(n: u128) -> (r: String)
    ensures
        r@ == dec_seq(n as nat),
    decreases n,
{
    if n < 10 {
        let d: &'static str = digit_str(n as u64);
        let r = d.to_owned();
        r
    } else {
        let mut r = u128_to_string(n / 10);
        let d: &'static str = digit_str((n % 10) as u64);
        r.append(d);
        proof {
            assert(dec_seq((n as nat) / 10).push(digit_char((n as nat % 10) as int)) =~= dec_seq(
                (n as nat) / 10,
            ) + seq![digit_char((n as nat % 10) as int)]);
        }
        r
    }
}

/// The three-digit, zero-padded decimal rendering of a value below 1000.
pub open spec fn pad3_seq(n: nat) -> Seq<char> {
    seq![
        digit_char((n / 100) as int),
        digit_char(((n / 10) % 10) as int),
        digit_char((n % 10) as int),
    ]
}

/// Renders `n < 1000` with exactly three digits, zero-padded.
pub fn u128_to_padded3(n: u128) -> (r: String)
    requires
        n < 1000,
    ensures
        r@ == pad3_seq(n as nat),
{
    let mut r = digit_str((n / 100) as u64).to_owned();
    r.append(digit_str(((n / 10) % 10) as u64));
    r.append(digit_str((n % 10) as u64));
    proof {
        assert(r@ =~= pad3_seq(n as nat));
    }
    r
}

/// Whether two string slices hold the same characters.
pub fn str_eq(a: &str, b: &str) -> (r: bool)
    ensures
        r == (a@ == b@),
{
    let la = a.unicode_len();
    let lb = b.unicode_len();
    if la != lb {
        return false;
    }
    let mut i: usize = 0;
    while i < la
        invariant
            i <= la,
            la == a@.len(),
            la == b@.len(),
            forall|j: int| 0 <= j < i ==> a@[j] == b@[j],
        decreases la - i,
    {
        if a.get_char(i) != b.get_char(i) {
            return false;
        }
        i = i + 1;
    }
    proof {
        assert(a@ =~= b@);
    }
    true
}

/// Whether `p` is a prefix of `s`.
pub open spec fn seq_starts_with(s: Seq<char>, p: Seq<char>) -> bool {
    p.len() <= s.len() && s.subrange(0, p.len() as int) == p
}

/// Whether `p` is a prefix of the first `upto` characters of `s`.
pub fn starts_with_upto(s: &str, upto: usize, p: &str) -> (r: bool)
    requires
        upto <= s@.len(),
    ensures
        r == seq_starts_with(s@.subrange(0, upto as int), p@),
{
    let lp = p.unicode_len();
    if lp > upto {
        return false;
    }
    let mut i: usize = 0;
    while i < lp
        invariant
            i <= lp,
            lp == p@.len(),
            lp <= upto <= s@.len(),
            forall|j: int| 0 <= j < i ==> s@[j] == p@[j],
        decreases lp - i,
    {
        if s.get_char(i) != p.get_char(i) {
            proof {
                let head = s@.subrange(0, upto as int);
                assert(head.subrange(0, p@.len() as int)[i as int] == s@[i as int]);
            }
            return false;
        }
        i = i + 1;
    }
    proof {
        let head = s@.subrange(0, upto as int);
        assert(head.subrange(0, p@.len() as int) =~= p@);
    }
    true
}

/// The largest value the digit parser accumulates before giving up.
pub open spec fn parse_cap() -> int {
    9999999999
}

/// Parses the characters of `s` from position `from` on as an unsigned decimal
/// numeral. Yields the value when every remaining character is a digit, there
/// is at least one, and the value is at most `parse_cap()`.
fn parse_all_digits(s: &str, from: usize) -> (r: Option<u64>)
    requires
        from <= s@.len(),
    ensures
        r matches Some(v) ==> all_digits(s@.skip(from as int)) && v == digits_value(
            s@.skip(from as int),
        ) && v <= parse_cap(),
        r is None ==> !all_digits(s@.skip(from as int)) || digits_value(s@.skip(from as int))
            > parse_cap(),
{
    let ghost sk = s@.skip(from as int);
    let len = s.unicode_len();
    if from == len {
        return None;
    }
    // Skip the leading zeros so that a cap on the count of significant digits
    // is also a cap on the value.
    let mut z = from;
    while z < len && s.get_char(z) == '0'
        invariant
            from <= z <= len,
            len == s@.len(),
            forall|i: int| from <= i < z ==> #[trigger] s@[i] == '0',
        decreases len - z,
    {
        z = z + 1;
    }
    proof {
        assert(forall|i: int| 0 <= i < z - from ==> #[trigger] sk[i] == '0');
        lemma_strip_zeros(sk, z - from);
        assert(sk.skip(z - from) =~= s@.skip(z as int));
    }
    if z == len {
        // Every character was a zero.
        proof {
            assert(all_digits(sk));
            assert(digits_value(s@.skip(z as int)) == 0);
        }
        return Some(0);
    }
    if len - z > 10 {
        // Too many significant digits: either some character is not a digit,
        // or the value exceeds the cap. Either way the numeral is refused.
        proof {
            if all_digits(sk) {
                let tail = s@.skip(z as int);
                assert(all_digits(tail)) by {
                    assert(forall|i: int|
                        0 <= i < tail.len() ==> #[trigger] tail[i] == sk[i + z - from]);
                }
                assert(tail[0] == s@[z as int]);
                assert(tail[0] != '0');
                lemma_digits_value_lower(tail);
                assert(pow10(10) == 10000000000) by {
                    reveal_with_fuel(pow10, 11);
                }
                assert(pow10((tail.len() - 1) as nat) >= pow10(10)) by {
                    lemma_pow10_mono(10, (tail.len() - 1) as nat);
                }
            }
        }
        return None;
    }
    let mut acc: u64 = 0;
    let mut i = z;
    while i < len
        invariant
            from <= z <= i <= len,
            len == s@.len(),
            len - z <= 10,
            sk == s@.skip(from as int),
            forall|j: int| z <= j < i ==> is_digit(#[trigger] s@[j]),
            acc == digits_value(s@.subrange(z as int, i as int)),
            acc < pow10((i - z) as nat),
        decreases len - i,
    {
        let c = s.get_char(i);
        let cv = c as u32;
        if cv < '0' as u32 || cv > '9' as u32 {
            proof {
                assert(!is_digit(s@[i as int]));
                assert(sk[i - from] == s@[(i - from) + from]);
                assert(!all_digits(sk));
            }
            return None;
        }
        let d: u64 = (cv - '0' as u32) as u64;
        proof {
            let pre = s@.subrange(z as int, i as int);
            let cur = s@.subrange(z as int, i + 1);
            assert(cur.drop_last() =~= pre);
            assert(cur.last() == s@[i as int]);
            assert(pow10(((i - z) + 1) as nat) == 10 * pow10((i - z) as nat));
            lemma_pow10_mono((i + 1 - z) as nat, 10);
            assert(pow10(10) == 10000000000) by {
                reveal_with_fuel(pow10, 11);
            }
        }
        acc = acc * 10 + d;
        i = i + 1;
    }
    proof {
        assert(s@.subrange(z as int, len as int) =~= s@.skip(z as int));
        assert(all_digits(sk)) by {
            assert(forall|i: int|
                0 <= i < sk.len() ==> sk[i] == #[trigger] s@[i + from] && is_digit(s@[i + from]));
        }
        lemma_pow10_mono((len - z) as nat, 10);
        assert(pow10(10) == 10000000000) by {
            reveal_with_fuel(pow10, 11);
        }
    }
    Some(acc)
}

proof fn lemma_pow10_mono(a: nat, b: nat)
    requires
        a <= b,
    ensures
        pow10(a) <= pow10(b),
    decreases b,
{
    if a < b {
        lemma_pow10_mono(a, (b - 1) as nat);
        lemma_digits_pow10_pos(a);
        lemma_digits_pow10_pos((b - 1) as nat);
    }
}

proof fn lemma_digits_pow10_pos(n: nat)
    ensures
        pow10(n) >= 1,
    decreases n,
{
    if n > 0 {
        lemma_digits_pow10_pos((n - 1) as nat);
    }
}

/// The digits of an unsigned numeral: everything after an optional leading
/// plus sign.
pub open spec fn unsigned_body(s: Seq<char>) -> Seq<char> {
    if s.len() > 0 && s[0] == '+' {
        s.skip(1)
    } else {
        s
    }
}

/// Whether `s` is an unsigned decimal numeral whose value fits in `u32`,
/// exactly as `u32::from_str` accepts it: an optional `+`, then one or more
/// digits, and a value of at most `u32::MAX`.
pub open spec fn is_u32_numeral(s: Seq<char>) -> bool {
    all_digits(unsigned_body(s)) && digits_value(unsigned_body(s)) <= u32::MAX
}

pub open spec fn u32_numeral_value(s: Seq<char>) -> int {
    digits_value(unsigned_body(s))
}

/// Parses `s` as `u32::from_str` does.
pub fn parse_u32(s: &str) -> (r: Option<u32>)
    ensures
        r is Some <==> is_u32_numeral(s@),
        r matches Some(v) ==> v == u32_numeral_value(s@),
{
    let len = s.unicode_len();
    let from: usize = if len > 0 && s.get_char(0) == '+' {
        1
    } else {
        0
    };
    proof {
        if from == 1 {
            assert(unsigned_body(s@) =~= s@.skip(1));
        } else {
            assert(unsigned_body(s@) =~= s@.skip(0));
        }
    }
    match parse_all_digits(s, from) {
        Some(v) => {
            if v <= u32::MAX as u64 {
                Some(v as u32)
            } else {
                None
            }
        },
        None => None,
    }
}

/// The digits of a signed numeral: everything after an optional leading sign.
pub open spec fn signed_body(s: Seq<char>) -> Seq<char> {
    if s.len() > 0 && (s[0] == '+' || s[0] == '-') {
        s.skip(1)
    } else {
        s
    }
}

pub open spec fn is_negative_numeral(s: Seq<char>) -> bool {
    s.len() > 0 && s[0] == '-'
}

/// Whether `s` is a signed decimal numeral whose value fits in `i32`, exactly
/// as `i32::from_str` accepts it.
pub open spec fn is_i32_numeral(s: Seq<char>) -> bool {
    &&& all_digits(signed_body(s))
    &&& if is_negative_numeral(s) {
        digits_value(signed_body(s)) <= 2147483648
    } else {
        digits_value(signed_body(s)) <= i32::MAX
    }
}

pub open spec fn i32_numeral_value(s: Seq<char>) -> int {
    if is_negative_numeral(s) {
        -digits_value(signed_body(s))
    } else {
        digits_value(signed_body(s))
    }
}

/// Parses `s` as `i32::from_str` does.
pub fn parse_i32(s: &str) -> (r: Option<i32>)
    ensures
        r is Some <==> is_i32_numeral(s@),
        r matches Some(v) ==> v == i32_numeral_value(s@),
{
    let len = s.unicode_len();
    let mut neg = false;
    let mut from: usize = 0;
    if len > 0 {
        let c0 = s.get_char(0);
        if c0 == '+' {
            from = 1;
        } else if c0 == '-' {
            from = 1;
            neg = true;
        }
    }
    proof {
        if from == 1 {
            assert(signed_body(s@) =~= s@.skip(1));
        } else {
            assert(signed_body(s@) =~= s@.skip(0));
        }
    }
    match parse_all_digits(s, from) {
        Some(v) => {
            if neg {
                if v <= 2147483648 {
                    Some((-(v as i64)) as i32)
                } else {
                    None
                }
            } else {
                if v <= i32::MAX as u64 {
                    Some(v as i32)
                } else {
                    None
                }
            }
        },
        None => None,
    }
}

} // verus!

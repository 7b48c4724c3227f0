//! Text the protocol reads and writes: decimal numbers, clock readouts of
//! the form `M:SS`, and the semicolon-separated fields of a move line.

use vstd::prelude::*;
use vstd::string::StrSliceExecFns;
use vstd::string::StringExecFns;

verus! {

/// Digit character of a value in 0..10.
pub open spec fn digit_char(d: int) -> char {
    if d == 0 {
        '0'
    } else if d == 1 {
        '1'
    } else if d == 2 {
        '2'
    } else if d == 3 {
        '3'
    } else if d == 4 {
        '4'
    } else if d == 5 {
        '5'
    } else if d == 6 {
        '6'
    } else if d == 7 {
        '7'
    } else if d == 8 {
        '8'
    } else {
        '9'
    }
}

/// Decimal digits of a nonnegative integer, most significant first.
pub open spec fn dec_digits(n: int) -> Seq<char>
    decreases n,
{
    if n < 10 {
        seq![digit_char(n)]
    } else {
        dec_digits(n / 10).push(digit_char(n % 10))
    }
}

fn digit_str(d: u64) -> (r: &'static str)
    requires
        d < 10,
    ensures
        r@ == seq![digit_char(d as int)],
{
    proof {
        reveal_strlit("0");
        reveal_strlit("1");
        reveal_strlit("2");
        reveal_strlit("3");
        reveal_strlit("4");
        reveal_strlit("5");
        reveal_strlit("6");
        reveal_strlit("7");
        reveal_strlit("8");
        reveal_strlit("9");
    }
    let r = match d {
        0 => "0",
        1 => "1",
        2 => "2",
        3 => "3",
        4 => "4",
        5 => "5",
        6 => "6",
        7 => "7",
        8 => "8",
        _ => "9",
    };
    proof {
        assert(r@ =~= seq![digit_char(d as int)]);
    }
    r
}

/// Render a number in decimal.
pub fn u64_dec(n: u64) -> (r: String)
    ensures
        r@ == dec_digits(n as int),
    decreases n,
{
    if n < 10 {
        String::from_str(digit_str(n))
    } else {
        let mut r = u64_dec(n / 10);
        r.append(digit_str(n % 10));
        proof {
            assert(r@ =~= dec_digits(n as int));
        }
        r
    }
}

/// Two-character readout of a value in 0..60, zero-padded.
pub open spec fn pad2(n: int) -> Seq<char> {
    if n < 10 {
        seq!['0', digit_char(n)]
    } else {
        dec_digits(n)
    }
}

fn u64_pad2(n: u64) -> (r: String)
    requires
        n < 60,
    ensures
        r@ == pad2(n as int),
{
    if n < 10 {
        let mut r = String::from_str("0");
        r.append(digit_str(n));
        proof {
            reveal_strlit("0");
            assert(r@ =~= pad2(n as int));
        }
        r
    } else {
        u64_dec(n)
    }
}

/// Clock readout of a time in milliseconds: ceiling seconds, shown as
/// minutes, a colon, and two-digit seconds.
pub open spec fn spec_clock_text(ms: int) -> Seq<char> {
    let s = (ms + 999) / 1000;
    dec_digits(s / 60) + seq![':'] + pad2(s % 60)
}

pub fn clock_text(ms: i64) -> (r: String)
    requires
        0 <= ms <= 300_000,
    ensures
        r@ == spec_clock_text(ms as int),
{
    let s: u64 = ((ms as u64) + 999) / 1000;
    let mut r = u64_dec(s / 60);
    r.append(":");
    let sec = u64_pad2(s % 60);
    r.append(sec.as_str());
    proof {
        reveal_strlit(":");
        assert(r@ =~= spec_clock_text(ms as int));
    }
    r
}

/// JSON text of a boolean.
pub open spec fn spec_bool_text(b: bool) -> Seq<char> {
    if b {
        "true"@
    } else {
        "false"@
    }
}

pub fn bool_text(b: bool) -> (r: &'static str)
    ensures
        r@ == spec_bool_text(b),
{
    if b {
        "true"
    } else {
        "false"
    }
}

/// A decimal digit.
pub open spec fn is_digit(c: char) -> bool {
    '0' as int <= c as int <= '9' as int
}

pub open spec fn all_digits(s: Seq<char>) -> bool {
    forall|i: int| 0 <= i < s.len() ==> is_digit(#[trigger] s[i])
}

/// Numeric value of a digit string, most significant first.
pub open spec fn dec_value(s: Seq<char>) -> int
    decreases s.len(),
{
    if s.len() == 0 {
        0
    } else {
        dec_value(s.take(s.len() - 1)) * 10 + (s.last() as int - '0' as int)
    }
}

proof fn lemma_dec_value_nonneg(s: Seq<char>)
    requires
        all_digits(s),
    ensures
        dec_value(s) >= 0,
    decreases s.len(),
{
    if s.len() > 0 {
        assert(all_digits(s.take(s.len() - 1)));
        lemma_dec_value_nonneg(s.take(s.len() - 1));
    }
}

proof fn lemma_dec_value_prefix(s: Seq<char>, j: int)
    requires
        all_digits(s),
        0 <= j <= s.len(),
    ensures
        dec_value(s.take(j)) <= dec_value(s),
    decreases s.len() - j,
{
    if j < s.len() {
        assert(all_digits(s.take(j)));
        lemma_dec_value_nonneg(s.take(j));
        assert(s.take(j + 1).take(j) =~= s.take(j));
        assert(dec_value(s.take(j + 1)) == dec_value(s.take(j)) * 10 + (s[j] as int - '0' as int));
        lemma_dec_value_prefix(s, j + 1);
    } else {
        assert(s.take(j) =~= s);
    }
}

/// What `u8::from_str` accepts: an optional leading `+`, then at least one
/// digit, and a value that fits in a byte.
pub open spec fn spec_parse_u8(s: Seq<char>) -> Option<u8> {
    let digits = if s.len() >= 1 && s[0] == '+' {
        s.skip(1)
    } else {
        s
    };
    if digits.len() == 0 || !all_digits(digits) || dec_value(digits) > 255 {
        None
    } else {
        Some(dec_value(digits) as u8)
    }
}

/// Parse a byte-sized decimal number as `u8::from_str` does.
pub fn parse_u8(s: &str) -> (r: Option<u8>)
    ensures
        r == spec_parse_u8(s@),
{
    let n = s.unicode_len();
    let offset: usize = if n >= 1 && s.get_char(0) == '+' {
        1
    } else {
        0
    };
    let ghost digits = if offset == 1 {
        s@.skip(1)
    } else {
        s@
    };
    if n == offset {
        return None;
    }
    let mut v: u64 = 0;
    let mut i: usize = offset;
    while i < n
        invariant
            offset <= 1,
            offset <= i <= n,
            n == s@.len(),
            (offset == 1) == (s@.len() >= 1 && s@[0] == '+'),
            digits == if offset == 1 {
                s@.skip(1)
            } else {
                s@
            },
            all_digits(digits.take(i - offset)),
            v == dec_value(digits.take(i - offset)),
            v <= 255,
        decreases n - i,
    {
        let c = s.get_char(i);
        let d = c as u32;
        proof {
            if offset == 1 {
                assert(digits =~= s@.subrange(1, s@.len() as int));
                assert(s@.subrange(1, s@.len() as int)[i - 1] == s@[i as int]);
            }
            assert(digits[i - offset] == s@[i as int]);
            assert(digits.take(i + 1 - offset).take(i - offset) =~= digits.take(i - offset));
            assert(digits.take(i + 1 - offset).last() == digits[i - offset]);
            assert(c as int == d as int);
        }
        if d < 48 || d > 57 {
            proof {
                assert(!is_digit(digits[i - offset]));
                assert(!all_digits(digits));
            }
            return None;
        }
        v = v * 10 + (d - 48) as u64;
        i = i + 1;
        proof {
            assert(all_digits(digits.take(i - offset)));
            assert(v == dec_value(digits.take(i - offset)));
        }
        if v > 255 {
            proof {
                if all_digits(digits) {
                    lemma_dec_value_prefix(digits, i - offset);
                }
            }
            return None;
        }
    }
    proof {
        assert(digits.take(n - offset) =~= digits);
    }
    Some(v as u8)
}

/// The fields of a line, split on every semicolon. A line without a
/// semicolon is one field; each semicolon ends a field.
pub open spec fn split_semi(s: Seq<char>) -> Seq<Seq<char>>
    decreases s.len(),
{
    if s.len() == 0 {
        seq![Seq::<char>::empty()]
    } else if s[0] == ';' {
        seq![Seq::<char>::empty()] + split_semi(s.skip(1))
    } else {
        let r = split_semi(s.skip(1));
        seq![seq![s[0]] + r[0]] + r.skip(1)
    }
}

/// The line whose fields are the given parts.
pub open spec fn join_semi(parts: Seq<Seq<char>>) -> Seq<char>
    decreases parts.len(),
{
    if parts.len() <= 1 {
        parts[0]
    } else {
        parts[0] + seq![';'] + join_semi(parts.skip(1))
    }
}

pub proof fn lemma_split_semi_len(s: Seq<char>)
    ensures
        split_semi(s).len() >= 1,
    decreases s.len(),
{
    if s.len() > 0 {
        lemma_split_semi_len(s.skip(1));
    }
}

/// Appending a character extends the last field, or opens a new empty one.
proof fn lemma_split_semi_push(s: Seq<char>, c: char)
    ensures
        c == ';' ==> split_semi(s.push(c)) == split_semi(s).push(Seq::<char>::empty()),
        c != ';' ==> split_semi(s.push(c)) == split_semi(s).update(
            split_semi(s).len() - 1,
            split_semi(s).last().push(c),
        ),
    decreases s.len(),
{
    reveal_with_fuel(split_semi, 4);
    lemma_split_semi_len(s);
    if s.len() == 0 {
        assert(s.push(c).skip(1) =~= Seq::<char>::empty());
        if c == ';' {
            assert(split_semi(s.push(c)) =~~= split_semi(s).push(Seq::<char>::empty()));
        } else {
            assert(split_semi(s.push(c)) =~~= split_semi(s).update(
                split_semi(s).len() - 1,
                split_semi(s).last().push(c),
            ));
        }
    } else {
        lemma_split_semi_push(s.skip(1), c);
        lemma_split_semi_len(s.skip(1));
        assert(s.push(c).skip(1) =~= s.skip(1).push(c));
        assert(s.push(c)[0] == s[0]);
        if c == ';' {
            assert(split_semi(s.push(c)) =~~= split_semi(s).push(Seq::<char>::empty()));
        } else {
            assert(split_semi(s.push(c)) =~~= split_semi(s).update(
                split_semi(s).len() - 1,
                split_semi(s).last().push(c),
            ));
        }
    }
}

/// A single decimal digit prints and parses back to itself.
pub proof fn lemma_parse_single_digit(n: u8)
    requires
        n < 10,
    ensures
        spec_parse_u8(dec_digits(n as int)) == Some(n),
{
    reveal_with_fuel(dec_value, 3);
    let s = dec_digits(n as int);
    assert(s =~= seq![digit_char(n as int)]);
    assert(is_digit(s[0]));
    assert(all_digits(s));
    assert(s.take(0) =~= Seq::<char>::empty());
    assert(dec_value(s) == n);
}

/// A text with no separator in it is a single field.
pub open spec fn semi_free(s: Seq<char>) -> bool {
    forall|i: int| 0 <= i < s.len() ==> s[i] != ';'
}

pub proof fn lemma_split_semi_free(a: Seq<char>)
    requires
        semi_free(a),
    ensures
        split_semi(a) == seq![a],
    decreases a.len(),
{
    if a.len() == 0 {
        assert(split_semi(a) =~~= seq![a]);
    } else {
        assert(semi_free(a.skip(1)));
        lemma_split_semi_free(a.skip(1));
        assert(seq![a[0]] + a.skip(1) =~= a);
        assert(split_semi(a) =~~= seq![a]);
    }
}

/// Splitting at the first separator: a semicolon after a clean field opens
/// the rest.
pub proof fn lemma_split_semi_sep(a: Seq<char>, b: Seq<char>)
    requires
        semi_free(a),
    ensures
        split_semi(a + seq![';'] + b) == seq![a] + split_semi(b),
    decreases a.len(),
{
    lemma_split_semi_len(b);
    if a.len() == 0 {
        let s = a + seq![';'] + b;
        assert(s[0] == ';');
        assert(s.skip(1) =~= b);
        assert(split_semi(s) =~~= seq![a] + split_semi(b));
    } else {
        let s = a + seq![';'] + b;
        assert(semi_free(a.skip(1)));
        lemma_split_semi_sep(a.skip(1), b);
        assert(s[0] == a[0]);
        assert(s.skip(1) =~= a.skip(1) + seq![';'] + b);
        lemma_split_semi_len(a.skip(1) + seq![';'] + b);
        assert(seq![a[0]] + a.skip(1) =~= a);
        assert(split_semi(s) =~~= seq![a] + split_semi(b));
    }
}

/// Split a line into its semicolon-separated fields.
pub fn split_fields(s: &str) -> (fields: Vec<String>)
    ensures
        fields@.len() == split_semi(s@).len(),
        forall|k: int| 0 <= k < fields@.len() ==> fields@[k]@ == split_semi(s@)[k],
{
    let n = s.unicode_len();
    let mut fields: Vec<String> = Vec::new();
    let mut start: usize = 0;
    let mut i: usize = 0;
    while i < n
        invariant
            0 <= start <= i <= n,
            n == s@.len(),
            split_semi(s@.take(i as int)).len() == fields@.len() + 1,
            forall|k: int| 0 <= k < fields@.len() ==> fields@[k]@ == split_semi(s@.take(i as int))[k],
            split_semi(s@.take(i as int)).last() == s@.subrange(start as int, i as int),
        decreases n - i,
    {
        let c = s.get_char(i);
        proof {
            assert(s@.take(i + 1) =~= s@.take(i as int).push(s@[i as int]));
            lemma_split_semi_push(s@.take(i as int), s@[i as int]);
            lemma_split_semi_len(s@.take(i as int));
        }
        if c == ';' {
            let f = s.substring_char(start, i).to_owned();
            fields.push(f);
            start = i + 1;
            proof {
                assert(s@.subrange(start as int, i + 1) =~= Seq::<char>::empty());
            }
        } else {
            proof {
                assert(s@.subrange(start as int, i + 1) =~= s@.subrange(
                    start as int,
                    i as int,
                ).push(s@[i as int]));
            }
        }
        i = i + 1;
    }
    let f = s.substring_char(start, n).to_owned();
    fields.push(f);
    proof {
        assert(s@.take(n as int) =~= s@);
    }
    fields
}

} // verus!

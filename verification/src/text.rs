//! Verified text utilities: decimal numbers to and from text, JSON string
//! escaping, and small character-level helpers the extraction logic needs.

use vstd::prelude::*;

verus! {

/// Relies on `String::push`: appends exactly one character.
pub assume_specification[ String::push ](s: &mut String, c: char)
    ensures
        final(s)@ == old(s)@.push(c),
;

/// Whether `c` is an ASCII decimal digit.
pub open spec fn is_dec_digit(c: char) -> bool {
    '0' <= c && c <= '9'
}

/// Numeric value of an ASCII decimal digit.
pub open spec fn digit_val(c: char) -> nat {
    ((c as int) - ('0' as int)) as nat
}

/// Whether every character of `s` is an ASCII decimal digit.
pub open spec fn all_dec_digits(s: Seq<char>) -> bool {
    forall|i: int| 0 <= i < s.len() ==> is_dec_digit(#[trigger] s[i])
}

/// The numeric value of a digit string, most significant digit first.
pub open spec fn dec_value(s: Seq<char>) -> nat
    decreases s.len(),
{
    if s.len() == 0 {
        0
    } else {
        dec_value(s.drop_last()) * 10 + digit_val(s.last())
    }
}

/// The digits of a decimal number text, past any single leading `+`.
pub open spec fn dec_body(s: Seq<char>) -> Seq<char> {
    if s.len() > 0 && s[0] == '+' {
        s.subrange(1, s.len() as int)
    } else {
        s
    }
}

/// What parsing an unsigned 64-bit decimal means: an optional leading `+`,
/// then at least one digit, and a value that fits.
pub open spec fn parse_u64_spec(s: Seq<char>) -> Option<u64> {
    if dec_body(s).len() > 0 && all_dec_digits(dec_body(s)) && dec_value(dec_body(s))
        <= u64::MAX {
        Some(dec_value(dec_body(s)) as u64)
    } else {
        None
    }
}

proof fn lemma_dec_value_take_step(s: Seq<char>, i: int)
    requires
        0 <= i < s.len(),
    ensures
        dec_value(s.take(i + 1)) == dec_value(s.take(i)) * 10 + digit_val(s[i]),
{
    assert(s.take(i + 1).drop_last() =~= s.take(i));
    assert(s.take(i + 1).last() == s[i]);
}

/// Parses an unsigned decimal number exactly as `parse_u64_spec` says:
/// an optional leading `+`, then at least one digit, rejecting overflow.
pub fn parse_u64(s: &str) -> (r: Option<u64>)
    ensures
        r == parse_u64_spec(s@),
{
    let n = s.unicode_len();
    let start: usize = if n > 0 && s.get_char(0) == '+' {
        1
    } else {
        0
    };
    let ghost body = dec_body(s@);
    assert(body =~= s@.subrange(start as int, s@.len() as int));
    if n == start {
        return None;
    }
    let mut acc: u64 = 0;
    let mut i: usize = start;
    while i < n
        invariant
            start <= i <= n,
            start < n,
            n == s@.len(),
            body == dec_body(s@),
            body == s@.subrange(start as int, s@.len() as int),
            all_dec_digits(body.take(i - start)),
            dec_value(body.take(i - start)) == acc,
        decreases n - i,
    {
        let c = s.get_char(i);
        let u = c as u32;
        if u < 48 || u > 57 {
            assert(!is_dec_digit(body[i - start]));
            assert(!all_dec_digits(body));
            return None;
        }
        let d: u64 = (u - 48) as u64;
        assert(d == digit_val(body[i - start]));
        let shifted = match acc.checked_mul(10) {
            Some(v) => v,
            None => {
                proof {
                    assert(acc * 10 > u64::MAX);
                    assert(dec_value(body.take(i - start)) * 10 + digit_val(body[i - start])
                        > u64::MAX);
                    overflow_stays(body, i - start);
                }
                return None;
            },
        };
        let next = match shifted.checked_add(d) {
            Some(v) => v,
            None => {
                proof {
                    lemma_dec_value_take_step(body, i - start);
                    overflow_stays(body, i - start + 1);
                }
                return None;
            },
        };
        proof {
            lemma_dec_value_take_step(body, i - start);
        }
        acc = next;
        i = i + 1;
    }
    assert(body.take(i - start) =~= body);
    Some(acc)
}

proof fn overflow_stays(s: Seq<char>, i: int)
    requires
        0 <= i <= s.len(),
        dec_value(s.take(i)) > u64::MAX || (i < s.len() && dec_value(s.take(i)) * 10 + digit_val(
            s[i],
        ) > u64::MAX),
    ensures
        dec_value(s) > u64::MAX,
    decreases s.len() - i,
{
    if i == s.len() {
        assert(s.take(i) =~= s);
    } else {
        lemma_dec_value_take_step(s, i);
        overflow_stays(s, i + 1);
    }
}

/// Compares two string slices character by character.
pub fn str_eq(a: &str, b: &str) -> (r: bool)
    ensures
        r == (a@ == b@),
{
    let n = a.unicode_len();
    let m = b.unicode_len();
    if n != m {
        assert(a@ != b@);
        return false;
    }
    let mut i: usize = 0;
    while i < n
        invariant
            0 <= i <= n,
            n == a@.len(),
            n == b@.len(),
            forall|j: int| 0 <= j < i ==> a@[j] == b@[j],
        decreases n - i,
    {
        if a.get_char(i) != b.get_char(i) {
            assert(a@ != b@);
            return false;
        }
        i = i + 1;
    }
    assert(a@ =~= b@);
    true
}

/// The decimal digit character for a value below ten.
pub open spec fn digit_char(d: nat) -> char {
    if d == 0 {
        '0'
    } else if d == 1 {
        '1'
    } else if d == 2 {
        '2'
    } else if d == 3 {
        '3'
    } else if d == 4 {
        '4'
    } else if d == 5 {
        '5'
    } else if d == 6 {
        '6'
    } else if d == 7 {
        '7'
    } else if d == 8 {
        '8'
    } else {
        '9'
    }
}

/// The decimal text of a number, most significant digit first.
pub open spec fn dec_str(n: nat) -> Seq<char>
    decreases n,
{
    if n < 10 {
        seq![digit_char(n)]
    } else {
        dec_str(n / 10).push(digit_char(n % 10))
    }
}

fn digit_to_char(d: u64) -> (r: char)
    requires
        d < 10,
    ensures
        r == digit_char(d as nat),
{
    if d == 0 {
        '0'
    } else if d == 1 {
        '1'
    } else if d == 2 {
        '2'
    } else if d == 3 {
        '3'
    } else if d == 4 {
        '4'
    } else if d == 5 {
        '5'
    } else if d == 6 {
        '6'
    } else if d == 7 {
        '7'
    } else if d == 8 {
        '8'
    } else {
        '9'
    }
}

/// Whether `p` is a prefix of `s`, character by character.
pub fn has_prefix(s: &str, p: &str) -> (r: bool)
    ensures
        r == (s@.len() >= p@.len() && s@.take(p@.len() as int) == p@),
{
    let n = s.unicode_len();
    let m = p.unicode_len();
    if n < m {
        return false;
    }
    let mut i: usize = 0;
    while i < m
        invariant
            0 <= i <= m,
            m <= n,
            n == s@.len(),
            m == p@.len(),
            forall|j: int| 0 <= j < i ==> s@[j] == p@[j],
        decreases m - i,
    {
        if s.get_char(i) != p.get_char(i) {
            assert(s@.take(p@.len() as int)[i as int] != p@[i as int]);
            return false;
        }
        i = i + 1;
    }
    assert(s@.take(p@.len() as int) =~= p@);
    true
}

/// The lowercase hexadecimal digit character for a value below sixteen.
pub open spec fn hex_char(d: nat) -> char {
    if d < 10 {
        digit_char(d)
    } else if d == 10 {
        'a'
    } else if d == 11 {
        'b'
    } else if d == 12 {
        'c'
    } else if d == 13 {
        'd'
    } else if d == 14 {
        'e'
    } else {
        'f'
    }
}

fn hex_to_char(d: u32) -> (r: char)
    requires
        d < 16,
    ensures
        r == hex_char(d as nat),
{
    if d < 10 {
        digit_to_char(d as u64)
    } else if d == 10 {
        'a'
    } else if d == 11 {
        'b'
    } else if d == 12 {
        'c'
    } else if d == 13 {
        'd'
    } else if d == 14 {
        'e'
    } else {
        'f'
    }
}

/// How one character is written inside a JSON string literal: quotes and
/// backslashes escaped, control characters in their short or numeric forms.
pub open spec fn json_esc_char(c: char) -> Seq<char> {
    if c == '"' {
        seq!['\\', '"']
    } else if c == '\\' {
        seq!['\\', '\\']
    } else if c == '\u{8}' {
        seq!['\\', 'b']
    } else if c == '\u{c}' {
        seq!['\\', 'f']
    } else if c == '\n' {
        seq!['\\', 'n']
    } else if c == '\r' {
        seq!['\\', 'r']
    } else if c == '\t' {
        seq!['\\', 't']
    } else if (c as int) < 0x20 {
        seq!['\\', 'u', '0', '0', hex_char((c as nat) / 16), hex_char((c as nat) % 16)]
    } else {
        seq![c]
    }
}

/// A string written inside a JSON string literal, character by character.
pub open spec fn json_esc(s: Seq<char>) -> Seq<char>
    decreases s.len(),
{
    if s.len() == 0 {
        Seq::<char>::empty()
    } else {
        json_esc(s.drop_last()) + json_esc_char(s.last())
    }
}

proof fn lemma_json_esc_step(s: Seq<char>, i: int)
    requires
        0 <= i < s.len(),
    ensures
        json_esc(s.take(i + 1)) == json_esc(s.take(i)) + json_esc_char(s[i]),
{
    assert(s.take(i + 1).drop_last() =~= s.take(i));
    assert(s.take(i + 1).last() == s[i]);
}

/// Appends `s` to `out` written as the inside of a JSON string literal.
pub fn push_json_escaped(out: &mut String, s: &str)
    ensures
        final(out)@ == old(out)@ + json_esc(s@),
{
    let n = s.unicode_len();
    let mut i: usize = 0;
    while i < n
        invariant
            0 <= i <= n,
            n == s@.len(),
            out@ == old(out)@ + json_esc(s@.take(i as int)),
        decreases n - i,
    {
        let c = s.get_char(i);
        let u = c as u32;
        if c == '"' {
            out.append("\\\"");
        } else if c == '\\' {
            out.append("\\\\");
        } else if u == 0x8 {
            out.append("\\b");
        } else if u == 0xc {
            out.append("\\f");
        } else if u == 0xa {
            out.append("\\n");
        } else if u == 0xd {
            out.append("\\r");
        } else if u == 0x9 {
            out.append("\\t");
        } else if u < 0x20 {
            out.append("\\u00");
            out.push(hex_to_char(u / 16));
            out.push(hex_to_char(u % 16));
        } else {
            out.push(c);
        }
        proof {
            lemma_json_esc_step(s@, i as int);
            reveal_strlit("\\\"");
            reveal_strlit("\\\\");
            reveal_strlit("\\b");
            reveal_strlit("\\f");
            reveal_strlit("\\n");
            reveal_strlit("\\r");
            reveal_strlit("\\t");
            reveal_strlit("\\u00");
            assert(out@ =~= old(out)@ + json_esc(s@.take(i + 1)));
        }
        i = i + 1;
    }
    assert(s@.take(n as int) =~= s@);
}

/// Appends the decimal text of `n` to `out`.
pub fn push_u64_dec(out: &mut String, n: u64)
    ensures
        final(out)@ == old(out)@ + dec_str(n as nat),
    decreases n,
{
    if n < 10 {
        out.push(digit_to_char(n));
        assert(out@ =~= old(out)@ + dec_str(n as nat));
    } else {
        push_u64_dec(out, n / 10);
        out.push(digit_to_char(n % 10));
        assert(out@ =~= old(out)@ + dec_str(n as nat));
    }
}

} // verus!

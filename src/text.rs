use vstd::prelude::*;

verus! {

/// The character of a decimal digit.
pub open spec fn digit_char(d: int) -> char {
    if d == 0 {
        '0'
    } else if d == 1 {
        '1'
    } else if d == 2 {
        '2'
    } else if d == 3 {
        '3'
    } else if d == 4 {
        '4'
    } else if d == 5 {
        '5'
    } else if d == 6 {
        '6'
    } else if d == 7 {
        '7'
    } else if d == 8 {
        '8'
    } else {
        '9'
    }
}

/// The decimal digits of a natural number, most significant first, with no
/// leading zero.
pub open spec fn decimal(n: nat) -> Seq<char>
    decreases n,
{
    if n < 10 {
        seq![digit_char(n as int)]
    } else {
        decimal(n / 10).push(digit_char((n % 10) as int))
    }
}

/// An integer as Rust's `Display` writes it: a minus sign for a negative
/// value, then the decimal digits of its magnitude.
pub open spec fn int_text(n: int) -> Seq<char> {
    if n < 0 {
        seq!['-'] + decimal((-n) as nat)
    } else {
        decimal(n as nat)
    }
}

/// Whether a character is an ASCII decimal digit.
pub open spec fn is_digit(c: char) -> bool {
    '0' as u32 <= c as u32 <= '9' as u32
}

/// The numeric value of an ASCII digit character.
pub open spec fn digit_value(c: char) -> int {
    c as u32 - '0' as u32
}

/// The value of a string of decimal digits, read most significant first.
pub open spec fn digits_value(s: Seq<char>) -> int
    decreases s.len(),
{
    if s.len() == 0 {
        0
    } else {
        digits_value(s.drop_last()) * 10 + digit_value(s.last())
    }
}

/// A non-empty string made of ASCII digits only.
pub open spec fn all_digits(s: Seq<char>) -> bool {
    s.len() > 0 && forall|i: int| 0 <= i < s.len() ==> is_digit(#[trigger] s[i])
}

/// The string with one leading `+` removed, if it has one.
pub open spec fn unsigned_part(s: Seq<char>) -> Seq<char> {
    if s.len() > 0 && s[0] == '+' {
        s.drop_first()
    } else {
        s
    }
}

/// The positive `i32` that `s` spells (an optional `+`, then digits), if any.
pub open spec fn positive_i32_of(s: Seq<char>) -> Option<int> {
    let body = unsigned_part(s);
    if all_digits(body) && 1 <= digits_value(body) <= i32::MAX {
        Some(digits_value(body))
    } else {
        None
    }
}

proof fn lemma_digits_value_nonneg(s: Seq<char>)
    requires
        forall|i: int| 0 <= i < s.len() ==> is_digit(#[trigger] s[i]),
    ensures
        digits_value(s) >= 0,
    decreases s.len(),
{
    if s.len() > 0 {
        lemma_digits_value_nonneg(s.drop_last());
    }
}

/// The one-character string of a decimal digit.
fn digit_str(d: u64) -> (r: &'static str)
    requires
        d < 10,
    ensures
        r@ == seq![digit_char(d as int)],
{
    proof {
        reveal_strlit("0");
        reveal_strlit("1");
        reveal_strlit("2");
        reveal_strlit("3");
        reveal_strlit("4");
        reveal_strlit("5");
        reveal_strlit("6");
        reveal_strlit("7");
        reveal_strlit("8");
        reveal_strlit("9");
    }
    if d == 0 {
        "0"
    } else if d == 1 {
        "1"
    } else if d == 2 {
        "2"
    } else if d == 3 {
        "3"
    } else if d == 4 {
        "4"
    } else if d == 5 {
        "5"
    } else if d == 6 {
        "6"
    } else if d == 7 {
        "7"
    } else if d == 8 {
        "8"
    } else {
        "9"
    }
}

/// Appends the decimal digits of `n`.
pub fn push_decimal(s: &mut String, n: u64)
    ensures
        final(s)@ == old(s)@ + decimal(n as nat),
    decreases n,
{
    if n >= 10 {
        push_decimal(s, n / 10);
    }
    s.append(digit_str(n % 10));
    proof {
        assert(final(s)@ =~= old(s)@ + decimal(n as nat));
    }
}

/// Appends the decimal text of `n`, with a minus sign when it is negative.
pub fn push_int(s: &mut String, n: i64)
    ensures
        final(s)@ == old(s)@ + int_text(n as int),
{
    if n < 0 {
        proof {
            reveal_strlit("-");
        }
        s.append("-");
        let magnitude: u64 = (-(n as i128)) as u64;
        push_decimal(s, magnitude);
        proof {
            assert(final(s)@ =~= old(s)@ + int_text(n as int));
        }
    } else {
        push_decimal(s, n as u64);
    }
}

/// The positive `i32` spelled by `raw` (an optional `+`, then ASCII digits,
/// nothing else), as `str::parse::<i32>` reads it; `None` when `raw` spells
/// no such number.
pub fn parse_positive_i32(raw: &str) -> (r: Option<i32>)
    ensures
        r matches Some(v) ==> positive_i32_of(raw@) == Some(v as int),
        r is None ==> positive_i32_of(raw@) is None,
{
    let len = raw.unicode_len();
    let mut start: usize = 0;
    if len > 0 && raw.get_char(0) == '+' {
        start = 1;
    }
    let ghost body = unsigned_part(raw@);
    assert(body =~= raw@.subrange(start as int, len as int));
    if start >= len {
        return None;
    }
    let mut v: u64 = 0;
    let mut i: usize = start;
    while i < len
        invariant
            start <= i <= len,
            len == raw@.len(),
            body == raw@.subrange(start as int, len as int),
            body == unsigned_part(raw@),
            forall|j: int| start <= j < i ==> is_digit(#[trigger] raw@[j]),
            digits_value(raw@.subrange(start as int, i as int)) <= i32::MAX ==> v
                == digits_value(raw@.subrange(start as int, i as int)),
            digits_value(raw@.subrange(start as int, i as int)) > i32::MAX ==> i32::MAX < v
                <= 10 * (i32::MAX as int) + 9,
        decreases len - i,
    {
        let c = raw.get_char(i);
        let code = c as u32;
        if code < '0' as u32 || code > '9' as u32 {
            assert(body[i - start] == c);
            assert(!is_digit(body[i - start]));
            return None;
        }
        let d = (code - '0' as u32) as u64;
        let ghost prefix = raw@.subrange(start as int, i as int);
        let ghost next = raw@.subrange(start as int, i + 1);
        proof {
            assert(next.drop_last() =~= prefix);
            assert(next.last() == c);
            assert forall|j: int| 0 <= j < prefix.len() implies is_digit(#[trigger] prefix[j]) by {
                assert(prefix[j] == raw@[start + j]);
            }
            lemma_digits_value_nonneg(prefix);
        }
        if v <= i32::MAX as u64 {
            v = v * 10 + d;
        }
        i = i + 1;
    }
    proof {
        assert(raw@.subrange(start as int, len as int) == body);
        assert forall|j: int| 0 <= j < body.len() implies is_digit(#[trigger] body[j]) by {
            assert(body[j] == raw@[start + j]);
        }
    }
    if v >= 1 && v <= i32::MAX as u64 {
        Some(v as i32)
    } else {
        None
    }
}

} // verus!

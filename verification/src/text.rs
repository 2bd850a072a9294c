//! Decimal notation and the reading of one numeric field from a line.

use vstd::prelude::*;

verus! {

/// The character that stands for the digit `d`.
pub open spec fn digit_char(d: nat) -> char
    recommends
        d < 10,
{
    seq!['0', '1', '2', '3', '4', '5', '6', '7', '8', '9'][d as int]
}

/// `n` in decimal notation: no sign, no leading zeros, `"0"` for zero.
pub open spec fn decimal(n: nat) -> Seq<char>
    decreases n,
{
    if n < 10 {
        seq![digit_char(n)]
    } else {
        decimal(n / 10).push(digit_char(n % 10))
    }
}

/// `n` in decimal notation, with a leading `-` when it is negative.
pub open spec fn signed_decimal(n: int) -> Seq<char> {
    if n < 0 {
        seq!['-'] + decimal((-n) as nat)
    } else {
        decimal(n as nat)
    }
}

fn digit_text(d: u64) -> (text: &'static str)
    requires
        d < 10,
    ensures
        text@ == seq![digit_char(d as nat)],
{
    proof {
        reveal_strlit("0");
        reveal_strlit("1");
        reveal_strlit("2");
        reveal_strlit("3");
        reveal_strlit("4");
        reveal_strlit("5");
        reveal_strlit("6");
        reveal_strlit("7");
        reveal_strlit("8");
        reveal_strlit("9");
    }
    let text = if d == 0 {
        "0"
    } else if d == 1 {
        "1"
    } else if d == 2 {
        "2"
    } else if d == 3 {
        "3"
    } else if d == 4 {
        "4"
    } else if d == 5 {
        "5"
    } else if d == 6 {
        "6"
    } else if d == 7 {
        "7"
    } else if d == 8 {
        "8"
    } else {
        "9"
    };
    assert(text@ =~= seq![digit_char(d as nat)]);
    text
}

/// Appends `n` in decimal notation to `out`.
pub fn push_decimal(out: &mut String, n: u64)
    ensures
        final(out)@ == old(out)@ + decimal(n as nat),
    decreases n,
{
    if n >= 10 {
        push_decimal(out, n / 10);
    }
    out.append(digit_text(n % 10));
    assert(out@ =~= old(out)@ + decimal(n as nat));
}

/// Appends `n` in decimal notation to `out`, with a leading `-` when it is
/// negative.
pub fn push_signed_decimal(out: &mut String, n: i64)
    ensures
        final(out)@ == old(out)@ + signed_decimal(n as int),
{
    if n < 0 {
        proof {
            reveal_strlit("-");
        }
        out.append("-");
        let magnitude: u64 = ((-(n + 1)) as u64) + 1;
        push_decimal(out, magnitude);
        assert(out@ =~= old(out)@ + signed_decimal(n as int));
    } else {
        push_decimal(out, n as u64);
    }
}

/// The characters of `s`, in order.
pub fn chars_of(s: &str) -> (chars: Vec<char>)
    ensures
        chars@ == s@,
{
    broadcast use vstd::string::group_string_axioms;

    let mut chars: Vec<char> = Vec::new();
    for c in it: s.chars()
        invariant
            it.seq() == s@,
            chars@ == s@.take(it.index()),
    {
        chars.push(c);
        assert(chars@ =~= s@.take(it.index() + 1));
    }
    assert(chars@ =~= s@);
    chars
}

/// Whether `c` is white space: the code points with the Unicode property
/// `White_Space`.
pub open spec fn is_whitespace(c: char) -> bool {
    let code = c as u32;
    ||| 0x09 <= code <= 0x0D
    ||| code == 0x20
    ||| code == 0x85
    ||| code == 0xA0
    ||| code == 0x1680
    ||| 0x2000 <= code <= 0x200A
    ||| code == 0x2028
    ||| code == 0x2029
    ||| code == 0x202F
    ||| code == 0x205F
    ||| code == 0x3000
}

/// `s` without the white space it begins with.
pub open spec fn trim_start(s: Seq<char>) -> Seq<char>
    decreases s.len(),
{
    if s.len() > 0 && is_whitespace(s.first()) {
        trim_start(s.drop_first())
    } else {
        s
    }
}

/// `s` without the white space it ends with.
pub open spec fn trim_end(s: Seq<char>) -> Seq<char>
    decreases s.len(),
{
    if s.len() > 0 && is_whitespace(s.last()) {
        trim_end(s.drop_last())
    } else {
        s
    }
}

/// `s` without the white space at either end.
pub open spec fn trimmed(s: Seq<char>) -> Seq<char> {
    trim_end(trim_start(s))
}

/// Whether `c` is one of the ten decimal digits.
pub open spec fn is_digit(c: char) -> bool {
    0x30 <= c as u32 <= 0x39
}

/// The number that the digit `c` stands for; zero for any other character.
pub open spec fn digit_value(c: char) -> nat {
    if is_digit(c) {
        (c as u32 - 0x30) as nat
    } else {
        0
    }
}

/// Whether `s` holds decimal digits and nothing else.
pub open spec fn all_digits(s: Seq<char>) -> bool {
    forall|i: int| 0 <= i < s.len() ==> is_digit(#[trigger] s[i])
}

/// The number that the digits of `s` denote, the first digit weighing most.
pub open spec fn digits_value(s: Seq<char>) -> nat
    decreases s.len(),
{
    if s.len() == 0 {
        0
    } else {
        digits_value(s.drop_last()) * 10 + digit_value(s.last())
    }
}

/// `s` after an optional leading `+`.
pub open spec fn unsigned_body(s: Seq<char>) -> Seq<char> {
    if s.len() > 0 && s[0] == '+' {
        s.drop_first()
    } else {
        s
    }
}

/// The 32-bit unsigned number that `s` denotes: an optional `+`, then one or
/// more decimal digits whose value fits. Anything else denotes nothing.
pub open spec fn unsigned_value(s: Seq<char>) -> Option<u32> {
    let body = unsigned_body(s);
    if body.len() > 0 && all_digits(body) && digits_value(body) <= u32::MAX {
        Some(digits_value(body) as u32)
    } else {
        None
    }
}

/// The number that one line of input denotes, white space at either end of
/// the line set aside.
pub open spec fn field_value(line: Seq<char>) -> Option<u32> {
    unsigned_value(trimmed(line))
}

/// Whether `c` is white space.
pub fn whitespace(c: char) -> (yes: bool)
    ensures
        yes == is_whitespace(c),
{
    let code: u32 = c as u32;
    (0x09 <= code && code <= 0x0D) || code == 0x20 || code == 0x85 || code == 0xA0 || code
        == 0x1680 || (0x2000 <= code && code <= 0x200A) || code == 0x2028 || code == 0x2029
        || code == 0x202F || code == 0x205F || code == 0x3000
}

/// A prefix of a digit string denotes no more than the whole string.
pub proof fn lemma_digits_value_prefix(s: Seq<char>, k: int)
    requires
        0 <= k <= s.len(),
    ensures
        digits_value(s.take(k)) <= digits_value(s),
    decreases s.len(),
{
    if k == s.len() {
        assert(s.take(k) =~= s);
    } else {
        lemma_digits_value_prefix(s.drop_last(), k);
        assert(s.drop_last().take(k) =~= s.take(k));
    }
}

/// Decimal notation is made of digits, at least one of them, and they
/// denote the number that was written: reading undoes writing.
pub proof fn lemma_decimal_denotes(n: nat)
    ensures
        decimal(n).len() >= 1,
        all_digits(decimal(n)),
        digits_value(decimal(n)) == n,
    decreases n,
{
    let d = if n < 10 {
        n
    } else {
        n % 10
    };
    assert(is_digit(digit_char(d)) && digit_value(digit_char(d)) == d) by {
        assert(d < 10);
        assert(digit_char(0) == '0' && digit_char(1) == '1' && digit_char(2) == '2');
        assert(digit_char(3) == '3' && digit_char(4) == '4' && digit_char(5) == '5');
        assert(digit_char(6) == '6' && digit_char(7) == '7' && digit_char(8) == '8');
        assert(digit_char(9) == '9');
    }
    if n < 10 {
        assert(decimal(n).drop_last() =~= Seq::<char>::empty());
        assert(digits_value(decimal(n).drop_last()) == 0);
    } else {
        lemma_decimal_denotes(n / 10);
        assert(decimal(n).drop_last() =~= decimal(n / 10));
    }
}

/// A number written in decimal notation reads back as itself: what the
/// input file says of a field is what the peer's line said.
pub proof fn lemma_field_value_of_decimal(n: u32)
    ensures
        field_value(decimal(n as nat)) == Some(n),
{
    let s = decimal(n as nat);
    lemma_decimal_denotes(n as nat);
    assert(is_digit(s.first()) && is_digit(s.last()));
    assert(trim_start(s) == s);
    assert(trim_end(s) == s);
    assert(unsigned_body(s) == s);
}

/// Two texts that agree, each of them `before`, then a number in decimal
/// notation, then something that does not begin with a digit, hold the same
/// number and go on alike.
pub proof fn lemma_embedded_decimal(
    before: Seq<char>,
    a: nat,
    after_a: Seq<char>,
    b: nat,
    after_b: Seq<char>,
)
    requires
        before + decimal(a) + after_a == before + decimal(b) + after_b,
        after_a.len() > 0 && !is_digit(after_a[0]),
        after_b.len() > 0 && !is_digit(after_b[0]),
    ensures
        a == b,
        after_a == after_b,
{
    let whole = before + decimal(a) + after_a;
    let other = before + decimal(b) + after_b;
    let la = decimal(a).len() as int;
    let lb = decimal(b).len() as int;
    let at = before.len() as int;
    lemma_decimal_denotes(a);
    lemma_decimal_denotes(b);
    if la < lb {
        assert(whole[at + la] == after_a[0]);
        assert(other[at + la] == decimal(b)[la]);
    } else if lb < la {
        assert(other[at + lb] == after_b[0]);
        assert(whole[at + lb] == decimal(a)[lb]);
    } else {
        assert(decimal(a) =~= decimal(b)) by {
            assert forall|i: int| 0 <= i < la implies decimal(a)[i] == decimal(b)[i] by {
                assert(whole[at + i] == decimal(a)[i]);
                assert(other[at + i] == decimal(b)[i]);
            }
        }
        assert(after_a =~= after_b) by {
            assert(whole.len() == at + la + after_a.len());
            assert(other.len() == at + lb + after_b.len());
            assert forall|i: int| 0 <= i < after_a.len() implies after_a[i] == after_b[i] by {
                assert(whole[at + la + i] == after_a[i]);
                assert(other[at + la + i] == after_b[i]);
            }
        }
    }
}

/// Reads one numeric field from a line of input: the line is trimmed of
/// white space and must then be an unsigned decimal number of 32 bits.
pub fn parse_field(line: &str) -> (value: Option<u32>)
    ensures
        value == field_value(line@),
{
    let chars = chars_of(line);
    let ghost s = chars@;
    let n: usize = chars.len();
    let mut start: usize = 0;
    assert(s.subrange(0, n as int) =~= s);
    while start < n && whitespace(chars[start])
        invariant
            n == chars.len(),
            s == chars@,
            start <= n,
            trim_start(s) == trim_start(s.subrange(start as int, n as int)),
        decreases n - start,
    {
        assert(s.subrange(start as int, n as int).drop_first() =~= s.subrange(
            start as int + 1,
            n as int,
        ));
        start = start + 1;
    }
    assert(trim_start(s) == s.subrange(start as int, n as int));
    let mut end: usize = n;
    while end > start && whitespace(chars[end - 1])
        invariant
            n == chars.len(),
            s == chars@,
            start <= end <= n,
            trimmed(s) == trim_end(s.subrange(start as int, end as int)),
        decreases end,
    {
        assert(s.subrange(start as int, end as int).drop_last() =~= s.subrange(
            start as int,
            end as int - 1,
        ));
        end = end - 1;
    }
    let ghost field = s.subrange(start as int, end as int);
    assert(trimmed(s) == field);
    assert(field_value(line@) == unsigned_value(field));
    let mut at: usize = start;
    if at < end && chars[at] == '+' {
        at = at + 1;
    }
    let ghost body = s.subrange(at as int, end as int);
    assert(body =~= unsigned_body(field));
    if at == end {
        return None;
    }
    let first: usize = at;
    let mut total: u64 = 0;
    while at < end
        invariant
            n == chars.len(),
            s == chars@,
            first <= at <= end <= n,
            first < end,
            field_value(line@) == unsigned_value(field),
            body == unsigned_body(field),
            body == s.subrange(first as int, end as int),
            all_digits(body.take(at - first)),
            total == digits_value(body.take(at - first)),
            total <= u32::MAX,
        decreases end - at,
    {
        let code: u32 = chars[at] as u32;
        assert(body[at - first] == s[at as int]);
        if code < 0x30 || code > 0x39 {
            return None;
        }
        let digit: u64 = (code - 0x30) as u64;
        let ghost longer = body.take(at - first + 1);
        assert(longer.drop_last() =~= body.take(at - first));
        assert(longer.last() == s[at as int]);
        total = total * 10 + digit;
        assert(total == digits_value(longer));
        if total > 0xFFFF_FFFF {
            proof {
                lemma_digits_value_prefix(body, at - first + 1);
            }
            return None;
        }
        at = at + 1;
    }
    assert(body.take(end - first) =~= body);
    Some(total as u32)
}

} // verus!

//! Helpers on text: rendering and reading integers in decimal, prefix
//! tests, and cutting a text at a separator.

use vstd::prelude::*;
use vstd::string::*;

verus! {

/// The character of one decimal digit.
pub open spec fn digit_char(d: int) -> char {
    if d == 0 {
        '0'
    } else if d == 1 {
        '1'
    } else if d == 2 {
        '2'
    } else if d == 3 {
        '3'
    } else if d == 4 {
        '4'
    } else if d == 5 {
        '5'
    } else if d == 6 {
        '6'
    } else if d == 7 {
        '7'
    } else if d == 8 {
        '8'
    } else {
        '9'
    }
}

/// The decimal digits of a natural number, most significant first, without
/// leading zeros.
pub open spec fn digits(n: nat) -> Seq<char>
    decreases n,
{
    if n < 10 {
        seq![digit_char(n as int)]
    } else {
        digits(n / 10).push(digit_char((n % 10) as int))
    }
}

/// The decimal rendering of an integer: a minus sign for a negative number,
/// then its digits.
pub open spec fn decimal(n: int) -> Seq<char> {
    if n < 0 {
        seq!['-'] + digits((-n) as nat)
    } else {
        digits(n as nat)
    }
}

fn digit_str(d: u64) -> (r: &'static str)
    requires
        d < 10,
    ensures
        r@ == seq![digit_char(d as int)],
{
    proof {
        reveal_strlit("0");
        reveal_strlit("1");
        reveal_strlit("2");
        reveal_strlit("3");
        reveal_strlit("4");
        reveal_strlit("5");
        reveal_strlit("6");
        reveal_strlit("7");
        reveal_strlit("8");
        reveal_strlit("9");
    }
    let r: &'static str = if d == 0 {
        "0"
    } else if d == 1 {
        "1"
    } else if d == 2 {
        "2"
    } else if d == 3 {
        "3"
    } else if d == 4 {
        "4"
    } else if d == 5 {
        "5"
    } else if d == 6 {
        "6"
    } else if d == 7 {
        "7"
    } else if d == 8 {
        "8"
    } else {
        "9"
    };
    assert(r@ =~= seq![digit_char(d as int)]);
    r
}

/// Renders a natural number in decimal.
pub fn digits_text(n: u64) -> (r: String)
    ensures
        r@ == digits(n as nat),
    decreases n,
{
    if n < 10 {
        String::from_str(digit_str(n))
    } else {
        let mut head: String = digits_text(n / 10);
        head.append(digit_str(n % 10));
        assert(head@ =~= digits(n as nat));
        head
    }
}

/// Renders a signed integer in decimal.
pub fn decimal_text(n: i64) -> (r: String)
    ensures
        r@ == decimal(n as int),
{
    if n < 0 {
        let magnitude: u64 = if n == i64::MIN {
            9223372036854775808
        } else {
            (-n) as u64
        };
        let tail: String = digits_text(magnitude);
        let mut out: String = String::from_str("-");
        proof {
            reveal_strlit("-");
        }
        out.append(tail.as_str());
        assert(out@ =~= decimal(n as int));
        out
    } else {
        digits_text(n as u64)
    }
}

/// The texts of a list of strings.
pub open spec fn texts(list: Seq<String>) -> Seq<Seq<char>> {
    list.map_values(|s: String| s@)
}

/// Tells whether `text` begins with `prefix`.
pub fn starts_with(text: &str, prefix: &str) -> (r: bool)
    ensures
        r == prefix@.is_prefix_of(text@),
{
    let n: usize = prefix.unicode_len();
    let m: usize = text.unicode_len();
    if n > m {
        return false;
    }
    let mut i: usize = 0;
    while i < n
        invariant
            n == prefix@.len(),
            m == text@.len(),
            n <= m,
            i <= n,
            forall|k: int| 0 <= k < i ==> text@[k] == prefix@[k],
        decreases n - i,
    {
        if text.get_char(i) != prefix.get_char(i) {
            assert(text@.subrange(0, n as int)[i as int] != prefix@[i as int]);
            return false;
        }
        i += 1;
    }
    assert(prefix@ =~= text@.subrange(0, n as int));
    true
}

/// Whether `c` is one of the ten decimal digits.
pub open spec fn is_decimal_digit(c: char) -> bool {
    '0' <= c && c <= '9'
}

/// The value of a decimal digit.
pub open spec fn digit_value(c: char) -> nat {
    (c as int - '0' as int) as nat
}

/// Whether a text is made of decimal digits only.
pub open spec fn all_digits(s: Seq<char>) -> bool {
    forall|i: int| 0 <= i < s.len() ==> is_decimal_digit(#[trigger] s[i])
}

/// The number that a text of decimal digits spells, leading zeros allowed.
pub open spec fn number_of(s: Seq<char>) -> nat
    decreases s.len(),
{
    if s.len() == 0 {
        0
    } else {
        number_of(s.drop_last()) * 10 + digit_value(s.last())
    }
}

/// The 32-bit integer that a text spells: an optional sign, `+` or `-`,
/// then one digit or more, and a value in the range of the type. Every
/// other text spells none.
pub open spec fn parsed_i32(s: Seq<char>) -> Option<i32> {
    let negative = s.len() > 0 && s[0] == '-';
    let signed = s.len() > 0 && (s[0] == '-' || s[0] == '+');
    let body = if signed {
        s.subrange(1, s.len() as int)
    } else {
        s
    };
    if body.len() == 0 || !all_digits(body) {
        None
    } else {
        let value = if negative {
            -(number_of(body) as int)
        } else {
            number_of(body) as int
        };
        if -2147483648 <= value <= 2147483647 {
            Some(value as i32)
        } else {
            None
        }
    }
}

/// The number spelled by the first digits of a text is at most the number
/// spelled by the whole.
pub proof fn lemma_number_of_prefix(s: Seq<char>, k: int)
    requires
        0 <= k <= s.len(),
    ensures
        number_of(s.take(k)) <= number_of(s),
    decreases s.len(),
{
    if k == s.len() {
        assert(s.take(k) =~= s);
    } else {
        lemma_number_of_prefix(s.drop_last(), k);
        assert(s.drop_last().take(k) =~= s.take(k));
    }
}

/// Appending one digit to a text multiplies its number by ten and adds
/// the digit.
pub proof fn lemma_number_of_step(s: Seq<char>, k: int)
    requires
        0 <= k < s.len(),
    ensures
        number_of(s.take(k + 1)) == number_of(s.take(k)) * 10 + digit_value(s[k]),
{
    assert(s.take(k + 1).drop_last() =~= s.take(k));
    assert(s.take(k + 1).last() == s[k]);
}

/// The character of a digit is a decimal digit of that value, and no sign.
pub proof fn lemma_digit_char(d: int)
    requires
        0 <= d < 10,
    ensures
        is_decimal_digit(digit_char(d)),
        digit_value(digit_char(d)) == d,
{
}

/// The digits of a number are decimal digits, at least one, and spell the
/// number.
pub proof fn lemma_digits_value(n: nat)
    ensures
        digits(n).len() >= 1,
        all_digits(digits(n)),
        number_of(digits(n)) == n,
    decreases n,
{
    if n < 10 {
        lemma_digit_char(n as int);
        assert(digits(n).drop_last() =~= Seq::<char>::empty());
        assert(number_of(digits(n).drop_last()) == 0);
    } else {
        lemma_digits_value(n / 10);
        lemma_digit_char((n % 10) as int);
        assert(digits(n).drop_last() =~= digits(n / 10));
        assert forall|i: int| 0 <= i < digits(n).len() implies is_decimal_digit(
            #[trigger] digits(n)[i],
        ) by {
            if i < digits(n).len() - 1 {
                assert(digits(n)[i] == digits(n / 10)[i]);
            }
        }
    }
}

/// A decimal rendering is never empty. Its first character is a digit or
/// the minus sign, and every later one is a digit.
pub proof fn lemma_decimal_chars(n: int)
    ensures
        decimal(n).len() >= 1,
        is_decimal_digit(decimal(n)[0]) || decimal(n)[0] == '-',
        forall|i: int| 1 <= i < decimal(n).len() ==> is_decimal_digit(#[trigger] decimal(n)[i]),
{
    if n < 0 {
        lemma_digits_value((-n) as nat);
        assert forall|i: int| 1 <= i < decimal(n).len() implies is_decimal_digit(
            #[trigger] decimal(n)[i],
        ) by {
            assert(decimal(n)[i] == digits((-n) as nat)[i - 1]);
        }
    } else {
        lemma_digits_value(n as nat);
    }
}

/// Two integers with the same decimal rendering are the same.
pub proof fn lemma_decimal_injective(a: int, b: int)
    requires
        decimal(a) == decimal(b),
    ensures
        a == b,
{
    let x = if a < 0 {
        (-a) as nat
    } else {
        a as nat
    };
    let y = if b < 0 {
        (-b) as nat
    } else {
        b as nat
    };
    lemma_digits_value(x);
    lemma_digits_value(y);
    if a < 0 {
        assert(decimal(a)[0] == '-');
        assert(decimal(a).subrange(1, decimal(a).len() as int) =~= digits(x));
    } else {
        assert(is_decimal_digit(digits(x)[0]));
    }
    if b < 0 {
        assert(decimal(b)[0] == '-');
        assert(decimal(b).subrange(1, decimal(b).len() as int) =~= digits(y));
    } else {
        assert(is_decimal_digit(digits(y)[0]));
    }
}

/// Reading undoes rendering: the decimal text of a 32-bit integer is read
/// back as that integer.
pub proof fn lemma_parse_undoes_decimal(n: i32)
    ensures
        parsed_i32(decimal(n as int)) == Some(n),
{
    let s = decimal(n as int);
    if n < 0 {
        let x = (-(n as int)) as nat;
        lemma_digits_value(x);
        assert(s[0] == '-');
        assert(s.subrange(1, s.len() as int) =~= digits(x));
    } else {
        lemma_digits_value(n as nat);
        assert(is_decimal_digit(s[0]));
    }
}

/// Cutting a text at a separator is unambiguous. Let two texts each be made
/// of a head, the separator `c` and a tail, where neither head holds `c`
/// from position `from` on and both heads are at least `from` long. If the
/// texts are equal, so are the heads and the tails.
pub proof fn lemma_cut_at_separator(
    head_a: Seq<char>,
    tail_a: Seq<char>,
    head_b: Seq<char>,
    tail_b: Seq<char>,
    c: char,
    from: int,
)
    requires
        0 <= from <= head_a.len(),
        from <= head_b.len(),
        forall|i: int| from <= i < head_a.len() ==> head_a[i] != c,
        forall|i: int| from <= i < head_b.len() ==> head_b[i] != c,
        head_a + seq![c] + tail_a == head_b + seq![c] + tail_b,
    ensures
        head_a == head_b,
        tail_a == tail_b,
{
    let whole_a = head_a + seq![c] + tail_a;
    let whole_b = head_b + seq![c] + tail_b;
    if head_a.len() < head_b.len() {
        assert(whole_a[head_a.len() as int] == c);
        assert(whole_b[head_a.len() as int] == head_b[head_a.len() as int]);
    }
    if head_b.len() < head_a.len() {
        assert(whole_b[head_b.len() as int] == c);
        assert(whole_a[head_b.len() as int] == head_a[head_b.len() as int]);
    }
    assert(head_a =~= head_b) by {
        assert forall|i: int| 0 <= i < head_a.len() implies head_a[i] == head_b[i] by {
            assert(whole_a[i] == head_a[i]);
            assert(whole_b[i] == head_b[i]);
        }
    }
    assert(tail_a =~= tail_b) by {
        assert(whole_a.len() == whole_b.len());
        assert forall|i: int| 0 <= i < tail_a.len() implies tail_a[i] == tail_b[i] by {
            assert(whole_a[head_a.len() + 1 + i] == tail_a[i]);
            assert(whole_b[head_b.len() + 1 + i] == tail_b[i]);
        }
    }
}

/// Reads a 32-bit integer from its decimal text.
pub fn parse_i32(text: &str) -> (r: Option<i32>)
    ensures
        r == parsed_i32(text@),
{
    let n: usize = text.unicode_len();
    if n == 0 {
        return None;
    }
    let first: char = text.get_char(0);
    let negative: bool = first == '-';
    let start: usize = if first == '-' || first == '+' {
        1
    } else {
        0
    };
    if start == n {
        return None;
    }
    let ghost body = text@.subrange(start as int, n as int);
    let mut value: i64 = 0;
    let mut i: usize = start;
    proof {
        assert(body.take(0) =~= Seq::<char>::empty());
        if start == 0 {
            assert(body =~= text@);
        }
    }
    while i < n
        invariant
            start <= i <= n,
            n == text@.len(),
            n > 0,
            negative == (text@[0] == '-'),
            body.len() == n - start,
            body == (if text@[0] == '-' || text@[0] == '+' {
                text@.subrange(1, n as int)
            } else {
                text@
            }),
            forall|k: int| 0 <= k < n - start ==> body[k] == text@[k + start],
            forall|k: int| 0 <= k < i - start ==> is_decimal_digit(#[trigger] body[k]),
            value == number_of(body.take(i - start)),
            0 <= value <= 2147483648,
        decreases n - i,
    {
        let c: char = text.get_char(i);
        if !(c >= '0' && c <= '9') {
            proof {
                assert(body[i - start] == c);
                assert(!all_digits(body));
            }
            return None;
        }
        let d: i64 = (c as u32 - '0' as u32) as i64;
        let next: i64 = value * 10 + d;
        proof {
            assert(body[i - start] == c);
            lemma_number_of_step(body, i - start);
            if next > 2147483648 {
                lemma_number_of_prefix(body, i - start + 1);
            }
        }
        if next > 2147483648 {
            return None;
        }
        value = next;
        i += 1;
    }
    proof {
        assert(body.take(n - start) =~= body);
        assert(all_digits(body));
    }
    if negative {
        Some((-value) as i32)
    } else if value <= 2147483647 {
        Some(value as i32)
    } else {
        None
    }
}

/// The place of the last `c` in `s`, or -1 where `s` holds none.
pub open spec fn last_index(s: Seq<char>, c: char) -> int
    decreases s.len(),
{
    if s.len() == 0 {
        -1
    } else if s.last() == c {
        s.len() - 1
    } else {
        last_index(s.drop_last(), c)
    }
}

/// `last_index` is in range, points at a `c`, and no `c` follows it.
pub proof fn lemma_last_index(s: Seq<char>, c: char)
    ensures
        -1 <= last_index(s, c) < s.len(),
        last_index(s, c) >= 0 ==> s[last_index(s, c)] == c,
        forall|k: int| last_index(s, c) < k < s.len() ==> #[trigger] s[k] != c,
    decreases s.len(),
{
    if s.len() > 0 && s.last() != c {
        lemma_last_index(s.drop_last(), c);
        assert forall|k: int| last_index(s, c) < k < s.len() implies #[trigger] s[k] != c by {
            if k < s.len() - 1 {
                assert(s.drop_last()[k] == s[k]);
            }
        }
    }
}

/// A `c` that no `c` follows is the last one.
pub proof fn lemma_last_index_is(s: Seq<char>, c: char, at: int)
    requires
        0 <= at < s.len(),
        s[at] == c,
        forall|k: int| at < k < s.len() ==> s[k] != c,
    ensures
        last_index(s, c) == at,
{
    lemma_last_index(s, c);
    let found = last_index(s, c);
    if found < at {
        assert(s[at] != c);
    }
    if found > at {
        assert(s[found] != c);
    }
}

/// A text without `c` has no last `c`.
pub proof fn lemma_last_index_none(s: Seq<char>, c: char)
    requires
        forall|k: int| 0 <= k < s.len() ==> s[k] != c,
    ensures
        last_index(s, c) < 0,
{
    lemma_last_index(s, c);
    let found = last_index(s, c);
    if found >= 0 {
        assert(s[found] != c);
    }
}

/// Finds the last `c` in a text.
pub fn find_last(text: &str, c: char) -> (r: Option<usize>)
    ensures
        match r {
            Some(at) => at as int == last_index(text@, c) && at < text@.len(),
            None => last_index(text@, c) < 0,
        },
{
    let n: usize = text.unicode_len();
    let mut i: usize = n;
    while i > 0
        invariant
            i <= n,
            n == text@.len(),
            forall|k: int| i <= k < n ==> #[trigger] text@[k] != c,
        decreases i,
    {
        if text.get_char(i - 1) == c {
            proof {
                lemma_last_index_is(text@, c, i - 1);
            }
            return Some(i - 1);
        }
        i -= 1;
    }
    proof {
        lemma_last_index_none(text@, c);
    }
    None
}

/// A text cut in two at its only `c`: what stands before it and what
/// stands after it. A text with no `c`, or with more than one, is not cut.
pub open spec fn split_single(s: Seq<char>, c: char) -> Option<(Seq<char>, Seq<char>)> {
    let at = last_index(s, c);
    if at >= 0 && last_index(s.subrange(0, at), c) < 0 {
        Some((s.subrange(0, at), s.subrange(at + 1, s.len() as int)))
    } else {
        None
    }
}

/// Cuts a text in two at its only `c`.
pub fn split_at_single(text: &str, c: char) -> (r: Option<(&str, &str)>)
    ensures
        match split_single(text@, c) {
            Some((head, tail)) => r is Some && r->Some_0.0@ == head && r->Some_0.1@ == tail,
            None => r is None,
        },
{
    match find_last(text, c) {
        None => None,
        Some(at) => {
            let head: &str = text.substring_char(0, at);
            match find_last(head, c) {
                Some(_) => None,
                None => {
                    let end: usize = text.unicode_len();
                    let tail: &str = text.substring_char(at + 1, end);
                    Some((head, tail))
                },
            }
        },
    }
}

} // verus!

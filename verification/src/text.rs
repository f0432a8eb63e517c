//! Small text functions over the characters of a string.

use vstd::prelude::*;
use vstd::string::{StrSliceExecFns, StringExecFns};

verus! {

/// Texts as mathematical values.
pub open spec fn texts(list: Seq<String>) -> Seq<Seq<char>> {
    list.map_values(|s: String| s@)
}

/// `n` spaces.
pub open spec fn spaces(n: nat) -> Seq<char> {
    Seq::new(n, |i: int| ' ')
}

/// `s` filled up with spaces on the right to at least `width` characters.
pub open spec fn padded(s: Seq<char>, width: nat) -> Seq<char> {
    if s.len() < width {
        s + spaces((width - s.len()) as nat)
    } else {
        s
    }
}

/// The character of a decimal digit.
pub open spec fn digit_char(d: nat) -> char {
    ('0' as int + d) as char
}

/// The decimal notation of `n`, without leading zeros.
pub open spec fn decimal(n: nat) -> Seq<char>
    decreases n,
{
    if n < 10 {
        seq![digit_char(n)]
    } else {
        decimal(n / 10).push(digit_char(n % 10))
    }
}

/// Whether `c` is one of the ten decimal digits.
pub open spec fn is_digit(c: char) -> bool {
    '0' as int <= c as int <= '9' as int
}

/// The number that a sequence of decimal digits denotes.
pub open spec fn digits_value(s: Seq<char>) -> nat
    decreases s.len(),
{
    if s.len() == 0 {
        0
    } else {
        digits_value(s.drop_last()) * 10 + (s.last() as int - '0' as int) as nat
    }
}

/// The digits of an unsigned number: what follows an optional plus sign.
pub open spec fn unsigned_digits(s: Seq<char>) -> Seq<char> {
    if s.len() > 0 && s[0] == '+' {
        s.skip(1)
    } else {
        s
    }
}

/// The unsigned number that a text denotes: an optional plus sign, then digits
/// only and at least one of them, with a value of at most `max`.
pub open spec fn unsigned_from_text(s: Seq<char>, max: nat) -> Option<nat> {
    let digits = unsigned_digits(s);
    if digits.len() > 0 && (forall|i: int| 0 <= i < digits.len() ==> is_digit(#[trigger] digits[i]))
        && digits_value(digits) <= max {
        Some(digits_value(digits))
    } else {
        None
    }
}

/// The position of the first `c` in `s`, at `from` or after it.
pub open spec fn find_from(s: Seq<char>, c: char, from: int) -> Option<int>
    decreases s.len() - from,
{
    if from < 0 || from >= s.len() {
        None
    } else if s[from] == c {
        Some(from)
    } else {
        find_from(s, c, from + 1)
    }
}

/// The position of the last `c` in `s`.
pub open spec fn rfind(s: Seq<char>, c: char) -> Option<int>
    decreases s.len(),
{
    if s.len() == 0 {
        None
    } else if s.last() == c {
        Some(s.len() - 1)
    } else {
        rfind(s.drop_last(), c)
    }
}

/// What `rfind` finds is the last occurrence, and it finds one if there is one.
pub proof fn lemma_rfind(s: Seq<char>, c: char)
    ensures
        match rfind(s, c) {
            Some(i) => 0 <= i < s.len() && s[i] == c && (forall|j: int|
                i < j < s.len() ==> s[j] != c),
            None => forall|j: int| 0 <= j < s.len() ==> s[j] != c,
        },
    decreases s.len(),
{
    if s.len() > 0 && s.last() != c {
        lemma_rfind(s.drop_last(), c);
        assert forall|j: int| 0 <= j < s.len() - 1 implies s[j] == s.drop_last()[j] by {}
    }
}

/// What `find_from` finds is the first occurrence, and it finds one if there is one.
pub proof fn lemma_find_from(s: Seq<char>, c: char, from: int)
    requires
        0 <= from <= s.len(),
    ensures
        match find_from(s, c, from) {
            Some(i) => from <= i < s.len() && s[i] == c && (forall|j: int|
                from <= j < i ==> s[j] != c),
            None => forall|j: int| from <= j < s.len() ==> s[j] != c,
        },
    decreases s.len() - from,
{
    if from < s.len() && s[from] != c {
        lemma_find_from(s, c, from + 1);
    }
}

/// The characters of an optional text.
pub open spec fn text_view(s: Option<String>) -> Option<Seq<char>> {
    match s {
        Some(s) => Some(s@),
        None => None,
    }
}

/// An optional text once more.
pub fn copy_text(s: &Option<String>) -> (r: Option<String>)
    ensures
        text_view(r) == text_view(*s),
{
    match s {
        Some(s) => Some(s.clone()),
        None => None,
    }
}

/// Two texts one after the other.
pub fn followed_by(a: &str, b: &str) -> (r: String)
    ensures
        r@ == a@ + b@,
{
    let mut r = a.to_owned();
    r.append(b);
    r
}

/// Fills `s` up with spaces to `width` characters.
pub fn pad_right(s: &str, width: usize) -> (r: String)
    ensures
        r@ == padded(s@, width as nat),
{
    let mut r: String = s.to_owned();
    let len: usize = s.unicode_len();
    let mut n: usize = len;
    proof {
        reveal_strlit(" ");
    }
    while n < width
        invariant
            len == s@.len(),
            len <= n,
            n <= width || n == len,
            r@ == s@ + spaces((n - len) as nat),
            " "@ == seq![' '],
        decreases width - n,
    {
        r.append(" ");
        n = n + 1;
    }
    r
}

/// `n` spaces.
pub fn blank(n: usize) -> (r: String)
    ensures
        r@ == spaces(n as nat),
{
    let r: String = pad_right("", n);
    proof {
        reveal_strlit("");
    }
    r
}

fn digit_text(d: u8) -> (r: &'static str)
    requires
        d < 10,
    ensures
        r@ == seq![digit_char(d as nat)],
{
    proof {
        reveal_strlit("0");
        reveal_strlit("1");
        reveal_strlit("2");
        reveal_strlit("3");
        reveal_strlit("4");
        reveal_strlit("5");
        reveal_strlit("6");
        reveal_strlit("7");
        reveal_strlit("8");
        reveal_strlit("9");
    }
    match d {
        0 => "0",
        1 => "1",
        2 => "2",
        3 => "3",
        4 => "4",
        5 => "5",
        6 => "6",
        7 => "7",
        8 => "8",
        _ => "9",
    }
}

/// The decimal notation of a number.
pub fn decimal_text(n: u128) -> (r: String)
    ensures
        r@ == decimal(n as nat),
    decreases n,
{
    if n < 10 {
        digit_text(n as u8).to_owned()
    } else {
        let mut r: String = decimal_text(n / 10);
        r.append(digit_text((n % 10) as u8));
        r
    }
}

proof fn lemma_digits_value_monotone(s: Seq<char>, n: int)
    requires
        0 <= n <= s.len(),
        forall|i: int| 0 <= i < s.len() ==> is_digit(#[trigger] s[i]),
    ensures
        digits_value(s.take(n)) <= digits_value(s),
    decreases s.len(),
{
    if n == s.len() {
        assert(s.take(n) =~= s);
    } else {
        assert(s.drop_last().take(n) =~= s.take(n));
        lemma_digits_value_monotone(s.drop_last(), n);
    }
}

/// The unsigned number of at most `max` that a text denotes.
pub fn parse_unsigned(s: &str, max: u64) -> (r: Option<u64>)
    ensures
        match r {
            Some(n) => unsigned_from_text(s@, max as nat) == Some(n as nat),
            None => unsigned_from_text(s@, max as nat) is None,
        },
{
    let len: usize = s.unicode_len();
    let start: usize = if len > 0 && s.get_char(0) == '+' {
        1
    } else {
        0
    };
    let ghost digits = unsigned_digits(s@);
    assert(digits =~= s@.skip(start as int));
    if start == len {
        return None;
    }
    let mut i: usize = start;
    let mut value: u64 = 0;
    while i < len
        invariant
            len == s@.len(),
            start <= 1,
            start < len,
            start <= i <= len,
            digits == unsigned_digits(s@),
            digits == s@.skip(start as int),
            forall|j: int| 0 <= j < i - start ==> is_digit(#[trigger] digits[j]),
            value == digits_value(digits.take(i - start)),
            value <= max,
        decreases len - i,
    {
        let c: char = s.get_char(i);
        let ghost at = i - start;
        assert(digits[at] == c);
        if c < '0' || c > '9' {
            assert(!is_digit(digits[at]));
            return None;
        }
        let d: u64 = (c as u32 - '0' as u32) as u64;
        proof {
            assert(digits.take(at + 1).drop_last() =~= digits.take(at));
            assert(digits.take(at + 1).last() == c);
        }
        if value > (max - (if d <= max { d } else { max })) / 10 || d > max {
            proof {
                if forall|j: int| 0 <= j < digits.len() ==> is_digit(#[trigger] digits[j]) {
                    lemma_digits_value_monotone(digits, at + 1);
                    assert(digits_value(digits.take(at + 1)) > max);
                }
            }
            return None;
        }
        value = value * 10 + d;
        i = i + 1;
    }
    assert(digits.take(len - start) =~= digits);
    Some(value)
}

/// Whether two texts hold the same characters.
pub fn same_text(a: &str, b: &str) -> (r: bool)
    ensures
        r == (a@ == b@),
{
    let len: usize = a.unicode_len();
    if b.unicode_len() != len {
        return false;
    }
    let mut i: usize = 0;
    while i < len
        invariant
            i <= len,
            len == a@.len(),
            len == b@.len(),
            forall|j: int| 0 <= j < i ==> a@[j] == b@[j],
        decreases len - i,
    {
        if a.get_char(i) != b.get_char(i) {
            return false;
        }
        i = i + 1;
    }
    assert(a@ =~= b@);
    true
}

/// The position of the last `c` in `s`, counted in characters.
pub fn rfind_char(s: &str, c: char) -> (r: Option<usize>)
    ensures
        match r {
            Some(i) => rfind(s@, c) == Some(i as int),
            None => rfind(s@, c) is None,
        },
{
    let len: usize = s.unicode_len();
    let mut n: usize = len;
    assert(s@.take(len as int) =~= s@);
    while n > 0
        invariant
            n <= len,
            len == s@.len(),
            rfind(s@, c) == rfind(s@.take(n as int), c),
        decreases n,
    {
        if s.get_char(n - 1) == c {
            return Some(n - 1);
        }
        assert(s@.take(n as int).drop_last() =~= s@.take(n - 1));
        n = n - 1;
    }
    None
}

/// The position of the first `c` in `s` from `from` on, counted in characters.
pub fn find_char_from(s: &str, c: char, from: usize) -> (r: Option<usize>)
    requires
        from <= s@.len(),
    ensures
        match r {
            Some(i) => find_from(s@, c, from as int) == Some(i as int),
            None => find_from(s@, c, from as int) is None,
        },
{
    let len: usize = s.unicode_len();
    let mut i: usize = from;
    while i < len
        invariant
            from <= i <= len,
            len == s@.len(),
            find_from(s@, c, from as int) == find_from(s@, c, i as int),
        decreases len - i,
    {
        if s.get_char(i) == c {
            return Some(i);
        }
        i = i + 1;
    }
    None
}

/// A number in decimal notation is made of digits, without a zero in front of others, and
/// denotes that number.
pub proof fn law_decimal_denotes_its_number(n: nat)
    ensures
        decimal(n).len() > 0,
        forall|i: int| 0 <= i < decimal(n).len() ==> '0' <= #[trigger] decimal(n)[i] <= '9',
        decimal(n).len() > 1 ==> decimal(n)[0] != '0',
        digits_value(decimal(n)) == n,
    decreases n,
{
    if n < 10 {
        assert(decimal(n).drop_last() =~= Seq::empty());
        assert(digits_value(decimal(n).drop_last()) == 0);
        assert(decimal(n).last() == digit_char(n));
    } else {
        law_decimal_denotes_its_number(n / 10);
        assert(decimal(n).drop_last() =~= decimal(n / 10));
        assert(decimal(n).last() == digit_char(n % 10));
        if decimal(n / 10).len() == 1 {
            assert(decimal(n)[0] == decimal(n / 10)[0]);
            if n / 10 >= 10 {
                assert(decimal(n / 10 / 10).len() > 0) by {
                    law_decimal_denotes_its_number(n / 10 / 10);
                }
            }
        }
    }
}

/// What is written of a number is read as that number again, where it is not above the limit,
/// and a plus sign before it makes no difference. Above the limit it is read as none.
pub proof fn law_written_is_read(n: u64, max: u64, text: String, s: &str, plus: bool, r: Option<u64>)
    requires
        call_ensures(decimal_text, (n as u128,), text),
        s@ == if plus {
            seq!['+'] + text@
        } else {
            text@
        },
        call_ensures(parse_unsigned, (s, max), r),
    ensures
        n <= max ==> r == Some(n),
        n > max ==> r is None,
{
    law_decimal_denotes_its_number(n as nat);
    if plus {
        assert(s@.skip(1) =~= text@);
    } else {
        assert('0' <= text@[0] <= '9');
    }
    let digits = unsigned_digits(s@);
    assert(digits == text@);
    assert forall|i: int| 0 <= i < digits.len() implies is_digit(#[trigger] digits[i]) by {
        assert('0' <= text@[i] <= '9');
    }
}

/// A text is no number where it has a character that is no digit, but for a plus sign in
/// front, and the empty text is none.
pub proof fn law_other_texts_are_no_numbers(s: &str, max: u64, i: int, r: Option<u64>)
    requires
        call_ensures(parse_unsigned, (s, max), r),
    ensures
        s@.len() == 0 ==> r is None,
        0 <= i < s@.len() && (s@[i] < '0' || s@[i] > '9') && (i > 0 || s@[i] != '+') ==> r is None,
        r matches Some(n) ==> n <= max,
{
    if 0 <= i < s@.len() && (s@[i] < '0' || s@[i] > '9') && (i > 0 || s@[i] != '+') {
        let digits = unsigned_digits(s@);
        if s@[0] == '+' {
            assert(digits[i - 1] == s@[i]);
            assert(!is_digit(digits[i - 1]));
        } else {
            assert(digits[i] == s@[i]);
            assert(!is_digit(digits[i]));
        }
    }
}

/// A text that is filled up begins with the text, goes on with blanks, and is as long as the
/// column or, where it does not fit, as it was.
pub proof fn law_filled_up_to_its_column(s: &str, width: usize, r: String, i: int)
    requires
        call_ensures(pad_right, (s, width), r),
    ensures
        r@.len() == if s@.len() < width {
            width as nat
        } else {
            s@.len()
        },
        0 <= i < s@.len() ==> r@[i] == s@[i],
        s@.len() <= i < r@.len() ==> r@[i] == ' ',
{
}

/// The position that is found is that of the last or the first such character, and none is
/// found only where there is none.
pub proof fn law_positions_that_are_found(
    s: &str,
    c: char,
    from: usize,
    last: Option<usize>,
    first: Option<usize>,
    j: int,
)
    requires
        from <= s@.len(),
        call_ensures(rfind_char, (s, c), last),
        call_ensures(find_char_from, (s, c, from), first),
    ensures
        last matches Some(i) ==> i < s@.len() && s@[i as int] == c && (i < j < s@.len() ==> s@[j]
            != c),
        last is None && 0 <= j < s@.len() ==> s@[j] != c,
        first matches Some(i) ==> from <= i < s@.len() && s@[i as int] == c && (from <= j < i
            ==> s@[j] != c),
        first is None && from <= j < s@.len() ==> s@[j] != c,
{
    lemma_rfind(s@, c);
    lemma_find_from(s@, c, from as int);
}

/// Two texts one after the other are as long as both, the first in front.
pub proof fn law_one_text_after_the_other(a: &str, b: &str, r: String, i: int)
    requires
        call_ensures(followed_by, (a, b), r),
    ensures
        r@.len() == a@.len() + b@.len(),
        0 <= i < a@.len() ==> r@[i] == a@[i],
        0 <= i < b@.len() ==> r@[a@.len() + i] == b@[i],
{
}

/// Two texts are the same exactly where each character is, and blanks are blanks.
pub proof fn law_texts_are_compared(a: &str, b: &str, same: bool, n: usize, blanks: String, i: int)
    requires
        call_ensures(same_text, (a, b), same),
        call_ensures(blank, (n,), blanks),
    ensures
        same ==> a@.len() == b@.len(),
        same && 0 <= i < a@.len() ==> a@[i] == b@[i],
        0 <= i < a@.len() && i < b@.len() && a@[i] != b@[i] ==> !same,
        a@ == b@ ==> same,
        blanks@.len() == n,
        0 <= i < n ==> blanks@[i] == ' ',
{
}

} // verus!

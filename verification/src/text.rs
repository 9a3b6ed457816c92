//! Decimal numbers and the order of strings.

use vstd::prelude::*;

verus! {

/// The character of a decimal digit.
pub open spec fn digit_char(d: nat) -> char {
    ('0' as u32 + d) as char
}

/// A natural number in decimal, without leading zeros.
pub open spec fn decimal(n: nat) -> Seq<char>
    decreases n,
{
    if n < 10 {
        seq![digit_char(n)]
    } else {
        decimal(n / 10).push(digit_char(n % 10))
    }
}

/// An integer in decimal, with a minus sign where it is negative.
pub open spec fn signed_decimal(n: int) -> Seq<char> {
    if n < 0 {
        seq!['-'] + decimal((-n) as nat)
    } else {
        decimal(n as nat)
    }
}

/// The text of an optional string.
pub open spec fn text_of(value: Option<String>) -> Option<Seq<char>> {
    match value {
        Some(text) => Some(text@),
        None => None,
    }
}

fn digit_text(d: u64) -> (res: &'static str)
    requires
        d < 10,
    ensures
        res@ == seq![digit_char(d as nat)],
{
    proof {
        reveal_strlit("0");
        reveal_strlit("1");
        reveal_strlit("2");
        reveal_strlit("3");
        reveal_strlit("4");
        reveal_strlit("5");
        reveal_strlit("6");
        reveal_strlit("7");
        reveal_strlit("8");
        reveal_strlit("9");
    }
    if d == 0 {
        "0"
    } else if d == 1 {
        "1"
    } else if d == 2 {
        "2"
    } else if d == 3 {
        "3"
    } else if d == 4 {
        "4"
    } else if d == 5 {
        "5"
    } else if d == 6 {
        "6"
    } else if d == 7 {
        "7"
    } else if d == 8 {
        "8"
    } else {
        "9"
    }
}

/// Appends a number in decimal.
pub fn append_decimal(text: &mut String, n: u64)
    ensures
        final(text)@ == old(text)@ + decimal(n as nat),
    decreases n,
{
    if n >= 10 {
        append_decimal(text, n / 10);
    }
    text.append(digit_text(n % 10));
}

/// Appends a signed number in decimal.
pub fn append_signed(text: &mut String, n: i64)
    ensures
        final(text)@ == old(text)@ + signed_decimal(n as int),
{
    if n < 0 {
        proof {
            reveal_strlit("-");
        }
        text.append("-");
        let magnitude: u64 = (-(n + 1)) as u64 + 1;
        append_decimal(text, magnitude);
        assert(text@ == old(text)@ + (seq!['-'] + decimal((-n) as nat)));
    } else {
        append_decimal(text, n as u64);
    }
}

/// A signed number in decimal, as `to_string` writes it.
pub fn signed_text(n: i64) -> (res: String)
    ensures
        res@ == signed_decimal(n as int),
{
    let mut text = String::new();
    append_signed(&mut text, n);
    text
}

/// Decimal digits determine the number.
pub proof fn decimal_injective(a: nat, b: nat)
    requires
        decimal(a) == decimal(b),
    ensures
        a == b,
    decreases a,
{
    decimal_shape(a);
    decimal_shape(b);
    if a < 10 && b < 10 {
        assert(decimal(a)[0] == decimal(b)[0]);
    } else if a >= 10 && b >= 10 {
        assert(decimal(a).drop_last() =~= decimal(a / 10));
        assert(decimal(b).drop_last() =~= decimal(b / 10));
        decimal_injective(a / 10, b / 10);
        assert(decimal(a).last() == digit_char(a % 10));
        assert(decimal(b).last() == digit_char(b % 10));
    } else {
        decimal_shape(a / 10);
        decimal_shape(b / 10);
    }
}

/// A decimal is not empty, holds digits only, and grows with the number of digits.
proof fn decimal_shape(n: nat)
    ensures
        decimal(n).len() >= 1,
        n >= 10 ==> decimal(n).len() == decimal(n / 10).len() + 1,
        decimal(n)[0] != '-',
    decreases n,
{
    if n >= 10 {
        decimal_shape(n / 10);
    }
}

/// Two integers with the same decimal text are the same integer.
pub proof fn signed_decimal_injective(a: int, b: int)
    requires
        signed_decimal(a) == signed_decimal(b),
    ensures
        a == b,
{
    if a < 0 && b < 0 {
        assert(signed_decimal(a).skip(1) =~= decimal((-a) as nat));
        assert(signed_decimal(b).skip(1) =~= decimal((-b) as nat));
        decimal_injective((-a) as nat, (-b) as nat);
    } else if a >= 0 && b >= 0 {
        decimal_injective(a as nat, b as nat);
    } else {
        if a < 0 {
            decimal_shape(b as nat);
            assert(signed_decimal(a)[0] == '-');
        } else {
            decimal_shape(a as nat);
            assert(signed_decimal(b)[0] == '-');
        }
    }
}

/// The needle starts in the haystack at the given position.
pub open spec fn occurs_at(haystack: Seq<char>, needle: Seq<char>, at: int) -> bool {
    &&& 0 <= at
    &&& at + needle.len() <= haystack.len()
    &&& haystack.subrange(at, at + needle.len()) == needle
}

/// The needle stands somewhere in the haystack.
pub open spec fn occurs_in(haystack: Seq<char>, needle: Seq<char>) -> bool {
    exists|at: int| occurs_at(haystack, needle, at)
}

fn starts_at(haystack: &str, total: usize, needle: &str, at: usize) -> (res: bool)
    requires
        total == haystack@.len(),
        at + needle@.len() <= total,
    ensures
        res == occurs_at(haystack@, needle@, at as int),
{
    let len = needle.unicode_len();
    let mut i: usize = 0;
    while i < len
        invariant
            len == needle@.len(),
            i <= len,
            total == haystack@.len(),
            at + len <= total,
            forall|j: int| 0 <= j < i ==> haystack@[at + j] == needle@[j],
        decreases len - i,
    {
        if haystack.get_char(at + i) != needle.get_char(i) {
            assert(haystack@.subrange(at as int, at + len)[i as int] != needle@[i as int]);
            return false;
        }
        i = i + 1;
    }
    assert(haystack@.subrange(at as int, at + len) =~= needle@);
    true
}

/// Whether the needle stands in the haystack, as `str::contains` decides it.
pub fn contains_text(haystack: &str, needle: &str) -> (res: bool)
    ensures
        res == occurs_in(haystack@, needle@),
{
    let total = haystack.unicode_len();
    let len = needle.unicode_len();
    if total < len {
        return false;
    }
    let last: usize = total - len;
    let mut at: usize = 0;
    loop
        invariant
            total == haystack@.len(),
            len == needle@.len(),
            last + len == total,
            at <= last,
            forall|j: int| 0 <= j < at ==> !occurs_at(haystack@, needle@, j),
        decreases last - at,
    {
        if starts_at(haystack, total, needle, at) {
            return true;
        }
        if at == last {
            assert forall|j: int| !occurs_at(haystack@, needle@, j) by {
                if occurs_at(haystack@, needle@, j) {
                    assert(j <= last);
                }
            }
            return false;
        }
        at = at + 1;
    }
}

/// One string comes before another, character by character.
pub open spec fn text_less(a: Seq<char>, b: Seq<char>) -> bool
    decreases a.len(),
{
    if b.len() == 0 {
        false
    } else if a.len() == 0 {
        true
    } else if a[0] != b[0] {
        a[0] < b[0]
    } else {
        text_less(a.skip(1), b.skip(1))
    }
}

/// Where two strings stand to each other.
#[derive(Clone, Copy, Debug, PartialEq, Eq, Structural)]
pub enum TextOrder {
    Before,
    Same,
    After,
}

/// The order of two strings, by the first character in which they differ.
pub fn text_order(a: &str, b: &str) -> (res: TextOrder)
    ensures
        res is Before <==> text_less(a@, b@),
        res is Same <==> a@ == b@,
        res is After <==> text_less(b@, a@),
{
    let a_len = a.unicode_len();
    let b_len = b.unicode_len();
    let mut i: usize = 0;
    assert(a@.skip(0) =~= a@);
    assert(b@.skip(0) =~= b@);
    while i < a_len && i < b_len
        invariant
            a_len == a@.len(),
            b_len == b@.len(),
            i <= a_len,
            i <= b_len,
            forall|j: int| 0 <= j < i ==> a@[j] == b@[j],
            text_less(a@, b@) == text_less(a@.skip(i as int), b@.skip(i as int)),
            text_less(b@, a@) == text_less(b@.skip(i as int), a@.skip(i as int)),
        decreases a_len - i,
    {
        let x = a.get_char(i);
        let y = b.get_char(i);
        if x != y {
            if x < y {
                return TextOrder::Before;
            }
            return TextOrder::After;
        }
        assert(a@.skip(i as int).skip(1) =~= a@.skip(i + 1));
        assert(b@.skip(i as int).skip(1) =~= b@.skip(i + 1));
        i = i + 1;
    }
    if a_len == b_len {
        assert(a@ =~= b@);
        TextOrder::Same
    } else if a_len < b_len {
        TextOrder::Before
    } else {
        TextOrder::After
    }
}

/// No string comes before itself.
pub proof fn text_less_irreflexive(a: Seq<char>)
    ensures
        !text_less(a, a),
    decreases a.len(),
{
    if a.len() > 0 {
        text_less_irreflexive(a.skip(1));
    }
}

/// What comes before a string comes before all that comes after it.
pub proof fn text_less_transitive(a: Seq<char>, b: Seq<char>, c: Seq<char>)
    requires
        text_less(a, b),
        text_less(b, c),
    ensures
        text_less(a, c),
    decreases a.len(),
{
    if a.len() > 0 && a[0] == b[0] && b[0] == c[0] {
        text_less_transitive(a.skip(1), b.skip(1), c.skip(1));
    }
}

/// The number that a text of digits stands for.
pub open spec fn number_of(digits: Seq<char>) -> int
    decreases digits.len(),
{
    if digits.len() == 0 {
        0
    } else {
        10 * number_of(digits.drop_last()) + (digits.last() as int - '0' as int)
    }
}

/// A decimal reads as its number: its digits, from the first on, make up the number, and the
/// first is not a zero but for the number zero itself.
pub proof fn decimals_read_as_their_number(n: nat)
    ensures
        number_of(decimal(n)) == n,
        forall|i: int| 0 <= i < decimal(n).len() ==> '0' <= #[trigger] decimal(n)[i] <= '9',
        decimal(n).len() > 0,
        n > 0 ==> decimal(n)[0] != '0',
    decreases n,
{
    if n < 10 {
        assert(decimal(n).drop_last() =~= seq![]);
        assert(number_of(decimal(n).drop_last()) == 0);
    } else {
        decimals_read_as_their_number(n / 10);
        assert(decimal(n).drop_last() =~= decimal(n / 10));
        assert(n == 10 * (n / 10) + n % 10);
        assert forall|i: int| 0 <= i < decimal(n).len() implies '0' <= #[trigger] decimal(n)[i]
            <= '9' by {
            if i < decimal(n / 10).len() {
                assert(decimal(n)[i] == decimal(n / 10)[i]);
            }
        }
    }
}

/// A negative number is its sign before its magnitude.
pub proof fn negative_numbers_have_a_sign(n: int)
    ensures
        n >= 0 ==> number_of(signed_decimal(n)) == n,
        n < 0 ==> signed_decimal(n)[0] == '-' && number_of(signed_decimal(n).skip(1)) == -n,
{
    if n >= 0 {
        decimals_read_as_their_number(n as nat);
    } else {
        decimals_read_as_their_number((-n) as nat);
        assert(signed_decimal(n).skip(1) =~= decimal((-n) as nat));
    }
}

/// A text stands in another exactly when the other is made of it with something before and
/// something behind, either of which may be empty.
pub proof fn texts_stand_in_what_holds_them(before: Seq<char>, text: Seq<char>, behind: Seq<char>)
    ensures
        occurs_in(before + text + behind, text),
{
    let whole = before + text + behind;
    assert(whole.subrange(before.len() as int, (before.len() + text.len()) as int) =~= text);
    assert(occurs_at(whole, text, before.len() as int));
}

/// Where a text stands in another, the other can be taken apart around it.
pub proof fn what_holds_a_text_can_be_taken_apart(whole: Seq<char>, text: Seq<char>) -> (parts: (
    Seq<char>,
    Seq<char>,
))
    requires
        occurs_in(whole, text),
    ensures
        whole == parts.0 + text + parts.1,
{
    let at = choose|at: int| occurs_at(whole, text, at);
    let parts = (whole.take(at), whole.skip(at + text.len()));
    assert(whole =~= parts.0 + text + parts.1);
    parts
}

/// Texts are ordered by the first character in which they differ, and where they differ in none,
/// the shorter comes first.
pub proof fn texts_are_ordered_by_the_first_difference(a: Seq<char>, b: Seq<char>, i: int)
    requires
        0 <= i <= a.len(),
        i <= b.len(),
        forall|j: int| 0 <= j < i ==> a[j] == b[j],
    ensures
        i < a.len() && i < b.len() && a[i] < b[i] ==> text_less(a, b) && !text_less(b, a),
        i == a.len() && i < b.len() ==> text_less(a, b) && !text_less(b, a),
        i == a.len() && i == b.len() ==> !text_less(a, b),
    decreases i,
{
    if i > 0 {
        assert(a.skip(1).len() == a.len() - 1);
        assert forall|j: int| 0 <= j < i - 1 implies a.skip(1)[j] == b.skip(1)[j] by {
            assert(a[j + 1] == b[j + 1]);
        }
        texts_are_ordered_by_the_first_difference(a.skip(1), b.skip(1), i - 1);
        assert(a[0] == b[0]);
    }
}

} // verus!

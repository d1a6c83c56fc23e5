//! Text handling: trimming, comparison and decimal numbers.

use vstd::prelude::*;
use vstd::string::StrSliceExecFns;

verus! {

/// The characters with the Unicode property `White_Space`.
pub open spec fn whitespace(c: char) -> bool {
    let n = c as int;
    ||| 0x09 <= n <= 0x0d
    ||| n == 0x20
    ||| n == 0x85
    ||| n == 0xa0
    ||| n == 0x1680
    ||| 0x2000 <= n <= 0x200a
    ||| n == 0x2028
    ||| n == 0x2029
    ||| n == 0x202f
    ||| n == 0x205f
    ||| n == 0x3000
}

/// Whether every character of `s` is whitespace.
pub open spec fn all_whitespace(s: Seq<char>) -> bool {
    forall|i: int| 0 <= i < s.len() ==> whitespace(#[trigger] s[i])
}

/// Whether `s` neither starts nor ends with whitespace.
pub open spec fn tight(s: Seq<char>) -> bool {
    s.len() > 0 ==> !whitespace(s.first()) && !whitespace(s.last())
}

/// `s` without its leading whitespace.
pub open spec fn trimmed_start(s: Seq<char>) -> Seq<char>
    decreases s.len(),
{
    if s.len() > 0 && whitespace(s.first()) {
        trimmed_start(s.drop_first())
    } else {
        s
    }
}

/// `s` without its trailing whitespace.
pub open spec fn trimmed_end(s: Seq<char>) -> Seq<char>
    decreases s.len(),
{
    if s.len() > 0 && whitespace(s.last()) {
        trimmed_end(s.drop_last())
    } else {
        s
    }
}

/// `s` without the whitespace around it.
pub open spec fn trimmed(s: Seq<char>) -> Seq<char> {
    trimmed_end(trimmed_start(s))
}

/// Whether `c` has the Unicode property `White_Space`.
pub fn is_whitespace(c: char) -> (r: bool)
    ensures
        r == whitespace(c),
{
    let n: u32 = c as u32;
    (0x09 <= n && n <= 0x0d) || n == 0x20 || n == 0x85 || n == 0xa0 || n == 0x1680 || (0x2000 <= n
        && n <= 0x200a) || n == 0x2028 || n == 0x2029 || n == 0x202f || n == 0x205f || n == 0x3000
}

/// Strips the whitespace around `s`.
pub fn trim(s: &str) -> (r: &str)
    ensures
        r@ == trimmed(s@),
        exists|i: int, j: int|
            {
                &&& 0 <= i <= j <= s@.len()
                &&& r@ == #[trigger] s@.subrange(i, j)
                &&& forall|k: int| 0 <= k < i ==> whitespace(#[trigger] s@[k])
                &&& forall|k: int| j <= k < s@.len() ==> whitespace(#[trigger] s@[k])
                &&& i < j ==> !whitespace(s@[i]) && !whitespace(s@[j - 1])
            },
{
    let len: usize = s.unicode_len();
    let mut start: usize = 0;
    assert(s@.skip(0) =~= s@);
    while start < len && is_whitespace(s.get_char(start))
        invariant
            start <= len == s@.len(),
            trimmed_start(s@) == trimmed_start(s@.skip(start as int)),
            forall|k: int| 0 <= k < start ==> whitespace(#[trigger] s@[k]),
        ensures
            start <= len,
            start < len ==> !whitespace(s@[start as int]),
            trimmed_start(s@) == s@.skip(start as int),
        decreases len - start,
    {
        assert(s@.skip(start as int).drop_first() =~= s@.skip(start + 1));
        start = start + 1;
    }
    let ghost rest = s@.skip(start as int);
    let mut end: usize = len;
    assert(rest =~= s@.subrange(start as int, end as int));
    while start < end && is_whitespace(s.get_char(end - 1))
        invariant
            start <= end <= len == s@.len(),
            trimmed_end(rest) == trimmed_end(s@.subrange(start as int, end as int)),
            forall|k: int| end <= k < len ==> whitespace(#[trigger] s@[k]),
        ensures
            start <= end <= len,
            start < end ==> !whitespace(s@[end - 1]),
            trimmed_end(rest) == s@.subrange(start as int, end as int),
        decreases end,
    {
        assert(s@.subrange(start as int, end as int).drop_last() =~= s@.subrange(
            start as int,
            end - 1,
        ));
        end = end - 1;
    }
    s.substring_char(start, end)
}

/// Whether `a` and `b` are the same text.
pub fn same_text(a: &str, b: &str) -> (r: bool)
    ensures
        r == (a@ == b@),
{
    a.to_owned() == b.to_owned()
}

/// What follows `prefix` at the start of `s`.
pub open spec fn rest_after(s: Seq<char>, prefix: Seq<char>) -> Option<Seq<char>> {
    if prefix.is_prefix_of(s) {
        Some(s.skip(prefix.len() as int))
    } else {
        None
    }
}

/// A prefix is taken off a text that starts with it, whatever follows, and what
/// follows is left as it is.
pub proof fn law_prefix_is_taken_off(prefix: Seq<char>, rest: Seq<char>)
    ensures
        rest_after(prefix + rest, prefix) == Some(rest),
{
    assert((prefix + rest).skip(prefix.len() as int) =~= rest);
}

/// Nothing is taken off a text but the prefix in front of it.
pub proof fn law_only_a_prefix_is_taken_off(s: Seq<char>, prefix: Seq<char>)
    ensures
        rest_after(s, prefix) matches Some(rest) ==> s == prefix + rest,
{
    if prefix.is_prefix_of(s) {
        assert(s =~= prefix + s.skip(prefix.len() as int));
    }
}

/// What follows `prefix` at the start of `s`, if `s` starts with it.
pub fn strip_prefix<'a>(s: &'a str, prefix: &str) -> (r: Option<&'a str>)
    ensures
        r matches Some(rest) ==> rest_after(s@, prefix@) == Some(rest@),
        r is None ==> rest_after(s@, prefix@) is None,
        r matches Some(rest) ==> s@ == prefix@ + rest@,
        r is None ==> forall|rest: Seq<char>| s@ != #[trigger] (prefix@ + rest),
{
    let len: usize = s.unicode_len();
    let cut: usize = prefix.unicode_len();
    if cut <= len && same_text(s.substring_char(0, cut), prefix) {
        let rest = s.substring_char(cut, len);
        assert(rest@ =~= s@.skip(cut as int));
        assert(s@ =~= prefix@ + rest@);
        Some(rest)
    } else {
        proof {
            assert forall|rest: Seq<char>| s@ != #[trigger] (prefix@ + rest) by {
                law_prefix_is_taken_off(prefix@, rest);
            }
        }
        None
    }
}

/// Whether `c` is one of the digits from 0 to 9.
pub open spec fn digit(c: char) -> bool {
    '0' <= c <= '9'
}

/// Whether `s` is one or more decimal digits.
pub open spec fn digits(s: Seq<char>) -> bool {
    s.len() > 0 && forall|i: int| 0 <= i < s.len() ==> digit(#[trigger] s[i])
}

/// The number that the decimal digits `s` stand for.
pub open spec fn digits_value(s: Seq<char>) -> nat
    decreases s.len(),
{
    if s.len() == 0 {
        0
    } else {
        digits_value(s.drop_last()) * 10 + (s.last() as int - '0' as int) as nat
    }
}

/// `s` without the plus sign that a number may start with.
pub open spec fn unsigned_part(s: Seq<char>) -> Seq<char> {
    if s.len() > 0 && s.first() == '+' {
        s.drop_first()
    } else {
        s
    }
}

/// The number from 0 to `max` that `s` spells: decimal digits, with one plus
/// sign in front of them or none.
pub open spec fn number_up_to(s: Seq<char>, max: nat) -> Option<nat> {
    let body = unsigned_part(s);
    if digits(body) && digits_value(body) <= max {
        Some(digits_value(body))
    } else {
        None
    }
}

/// The decimal digits of `n`, without leading zeros.
pub open spec fn digits_of(n: nat) -> Seq<char>
    decreases n,
{
    let last = ('0' as int + n % 10) as char;
    if n < 10 {
        seq![last]
    } else {
        digits_of(n / 10).push(last)
    }
}

proof fn lemma_longer_is_larger(s: Seq<char>, i: int)
    requires
        0 <= i <= s.len(),
        forall|j: int| 0 <= j < s.len() ==> digit(#[trigger] s[j]),
    ensures
        digits_value(s.take(i)) <= digits_value(s),
    decreases s.len(),
{
    if i < s.len() {
        lemma_longer_is_larger(s.drop_last(), i);
        assert(s.drop_last().take(i) =~= s.take(i));
    } else {
        assert(s.take(i) =~= s);
    }
}

/// Reads a number from 0 to `max`.
fn parse_up_to(s: &str, max: u64) -> (r: Option<u64>)
    requires
        max <= u32::MAX,
    ensures
        r matches Some(n) ==> number_up_to(s@, max as nat) == Some(n as nat),
        r is None ==> number_up_to(s@, max as nat) is None,
{
    let len: usize = s.unicode_len();
    let start: usize = if len > 0 && s.get_char(0) == '+' {
        1
    } else {
        0
    };
    let ghost body = unsigned_part(s@);
    assert(body =~= s@.skip(start as int));
    if start == len {
        return None;
    }
    let mut value: u64 = 0;
    let mut i: usize = start;
    while i < len
        invariant
            start <= i <= len == s@.len(),
            body == s@.skip(start as int),
            body == unsigned_part(s@),
            max <= u32::MAX,
            value <= max,
            forall|j: int| 0 <= j < i - start ==> digit(#[trigger] body[j]),
            value == digits_value(body.take(i - start)),
        decreases len - i,
    {
        let c: char = s.get_char(i);
        assert(c == body[i - start]);
        if c < '0' || '9' < c {
            assert(!digit(body[i - start]));
            return None;
        }
        assert(body.take(i + 1 - start).drop_last() =~= body.take(i - start));
        let next: u64 = value * 10 + (c as u64 - '0' as u64);
        assert(next == digits_value(body.take(i + 1 - start)));
        if next > max {
            proof {
                if digits(body) {
                    lemma_longer_is_larger(body, i + 1 - start);
                }
            }
            return None;
        }
        value = next;
        i = i + 1;
    }
    assert(body.take(len - start) =~= body);
    Some(value)
}

/// Reads a `u32`: decimal digits, with one plus sign in front of them or none.
pub fn parse_u32(s: &str) -> (r: Option<u32>)
    ensures
        r matches Some(n) ==> number_up_to(s@, u32::MAX as nat) == Some(n as nat),
        r is None ==> number_up_to(s@, u32::MAX as nat) is None,
{
    match parse_up_to(s, 0xffff_ffff) {
        Some(n) => Some(n as u32),
        None => None,
    }
}

/// Reads a `u16`: decimal digits, with one plus sign in front of them or none.
pub fn parse_u16(s: &str) -> (r: Option<u16>)
    ensures
        r matches Some(n) ==> number_up_to(s@, u16::MAX as nat) == Some(n as nat),
        r is None ==> number_up_to(s@, u16::MAX as nat) is None,
{
    match parse_up_to(s, 0xffff) {
        Some(n) => Some(n as u16),
        None => None,
    }
}

proof fn lemma_trim_start_padding(pad: Seq<char>, s: Seq<char>)
    requires
        all_whitespace(pad),
    ensures
        trimmed_start(pad + s) == trimmed_start(s),
    decreases pad.len(),
{
    if pad.len() > 0 {
        assert(whitespace(pad[0]));
        assert((pad + s).drop_first() =~= pad.drop_first() + s);
        lemma_trim_start_padding(pad.drop_first(), s);
    } else {
        assert(pad + s =~= s);
    }
}

proof fn lemma_trim_end_padding(s: Seq<char>, pad: Seq<char>)
    requires
        all_whitespace(pad),
    ensures
        trimmed_end(s + pad) == trimmed_end(s),
    decreases pad.len(),
{
    if pad.len() > 0 {
        assert(whitespace(pad[pad.len() - 1]));
        assert((s + pad).drop_last() =~= s + pad.drop_last());
        lemma_trim_end_padding(s, pad.drop_last());
    } else {
        assert(s + pad =~= s);
    }
}

/// Whitespace around a text is all that trimming takes away, and it takes away
/// all of it.
pub proof fn law_trim_removes_exactly_the_padding(left: Seq<char>, s: Seq<char>, right: Seq<char>)
    requires
        all_whitespace(left),
        all_whitespace(right),
        tight(s),
    ensures
        trimmed(left + s + right) == s,
{
    assert(left + s + right =~= left + (s + right));
    lemma_trim_start_padding(left, s + right);
    if s.len() > 0 {
        assert((s + right).first() == s.first());
        lemma_trim_end_padding(s, right);
    } else {
        assert(s + right =~= right + s);
        lemma_trim_start_padding(right, s);
        assert(s =~= Seq::empty());
    }
}

/// What trimming leaves neither starts nor ends with whitespace, and what it
/// took away was whitespace.
pub proof fn law_trim_leaves_no_padding(s: Seq<char>)
    ensures
        tight(trimmed(s)),
        exists|left: Seq<char>, right: Seq<char>|
            all_whitespace(left) && all_whitespace(right) && s == #[trigger] (left + trimmed(s)
                + right),
{
    let left = lemma_trim_start_split(s);
    let right = lemma_trim_end_split(trimmed_start(s));
    assert(s =~= left + trimmed(s) + right);
}

proof fn lemma_trim_start_split(s: Seq<char>) -> (left: Seq<char>)
    ensures
        all_whitespace(left),
        s == left + trimmed_start(s),
        trimmed_start(s).len() > 0 ==> !whitespace(trimmed_start(s).first()),
    decreases s.len(),
{
    if s.len() > 0 && whitespace(s.first()) {
        let left = lemma_trim_start_split(s.drop_first());
        assert(s =~= seq![s.first()] + s.drop_first());
        assert(s =~= seq![s.first()] + left + trimmed_start(s));
        seq![s.first()] + left
    } else {
        assert(s =~= Seq::<char>::empty() + s);
        Seq::empty()
    }
}

proof fn lemma_trim_end_split(s: Seq<char>) -> (right: Seq<char>)
    ensures
        all_whitespace(right),
        s == trimmed_end(s) + right,
        trimmed_end(s).len() > 0 ==> !whitespace(trimmed_end(s).last()) && trimmed_end(s).first()
            == s.first(),
    decreases s.len(),
{
    if s.len() > 0 && whitespace(s.last()) {
        let right = lemma_trim_end_split(s.drop_last());
        assert(s =~= s.drop_last().push(s.last()));
        assert(s =~= trimmed_end(s) + right.push(s.last()));
        right.push(s.last())
    } else {
        assert(s =~= s + Seq::<char>::empty());
        Seq::empty()
    }
}

/// Trimming a trimmed text changes nothing.
pub proof fn law_trim_is_idempotent(s: Seq<char>)
    ensures
        trimmed(trimmed(s)) == trimmed(s),
{
    law_trim_leaves_no_padding(s);
    let t = trimmed(s);
    law_trim_removes_exactly_the_padding(Seq::empty(), t, Seq::empty());
    assert(Seq::<char>::empty() + t + Seq::empty() =~= t);
}

proof fn lemma_digits_of(n: nat)
    ensures
        digits(digits_of(n)),
        digits_value(digits_of(n)) == n,
    decreases n,
{
    let s = digits_of(n);
    let last = ('0' as int + n % 10) as char;
    assert(digit(last) && last as int - '0' as int == n % 10);
    if n >= 10 {
        lemma_digits_of(n / 10);
        assert(s.drop_last() =~= digits_of(n / 10));
        assert forall|i: int| 0 <= i < s.len() implies digit(#[trigger] s[i]) by {
            if i < s.len() - 1 {
                assert(s[i] == digits_of(n / 10)[i]);
            }
        }
    } else {
        assert(s.drop_last() =~= Seq::empty());
        assert(digits_value(s.drop_last()) == 0);
    }
}

/// A number written in decimal digits reads back as that number, with a plus
/// sign in front of it or without one.
pub proof fn law_decimal_reads_back(n: nat, max: nat)
    requires
        n <= max,
    ensures
        number_up_to(digits_of(n), max) == Some(n),
        number_up_to(seq!['+'] + digits_of(n), max) == Some(n),
{
    lemma_digits_of(n);
    let s = digits_of(n);
    assert(digit(s[0]));
    assert((seq!['+'] + s).drop_first() =~= s);
}

/// One more digit makes a number ten times as large, plus the digit, as long as
/// that is not too large. A single digit stands for itself.
pub proof fn law_digit_by_digit(s: Seq<char>, c: char, max: nat)
    requires
        '0' <= c <= '9',
    ensures
        number_up_to(s, max) matches Some(n) ==> number_up_to(s.push(c), max) == if 10 * n + (
        c as int - 48) <= max {
            Some((10 * n + (c as int - 48)) as nat)
        } else {
            None
        },
        c as int - 48 <= max ==> number_up_to(seq![c], max) == Some((c as int - 48) as nat),
        c as int - 48 > max ==> number_up_to(seq![c], max) is None,
{
    let one = seq![c];
    assert(digit(one[0]));
    assert(one.drop_last() =~= Seq::empty());
    assert(digits_value(one.drop_last()) == 0);
    let longer = s.push(c);
    if number_up_to(s, max) is Some {
        let body = unsigned_part(s);
        assert(unsigned_part(longer) =~= body.push(c));
        assert(body.push(c).drop_last() =~= body);
        assert forall|i: int| 0 <= i < body.push(c).len() implies digit(
            #[trigger] body.push(c)[i],
        ) by {
            if i < body.len() {
                assert(digit(body[i]));
            }
        }
    }
}

/// A plus sign in front of a number changes nothing, as long as it is the only
/// sign.
pub proof fn law_plus_sign_does_not_matter(s: Seq<char>, max: nat)
    requires
        s.len() > 0 ==> s[0] != '+',
    ensures
        number_up_to(seq!['+'] + s, max) == number_up_to(s, max),
{
    assert((seq!['+'] + s).drop_first() =~= s);
}

/// A text with a character in it that is no digit is no number, unless the
/// character is a plus sign in front. Nor is a text without any digit a number.
pub proof fn law_only_digits_spell_a_number(s: Seq<char>, max: nat, i: int)
    ensures
        s.len() == 0 ==> number_up_to(s, max) is None,
        s == seq!['+'] ==> number_up_to(s, max) is None,
        0 <= i < s.len() && !('0' <= s[i] <= '9') && (i > 0 || s[i] != '+') ==> number_up_to(
            s,
            max,
        ) is None,
{
    if 0 <= i < s.len() && !('0' <= s[i] <= '9') && (i > 0 || s[i] != '+') {
        let body = unsigned_part(s);
        let k = i - (s.len() - body.len());
        assert(body[k] == s[i]);
        assert(!digit(body[k]));
    }
}

/// The bound decides only whether a number is taken, not which number it is.
pub proof fn law_bound_only_refuses(s: Seq<char>, small: nat, large: nat)
    requires
        small <= large,
    ensures
        number_up_to(s, small) matches Some(n) ==> n <= small && number_up_to(s, large) == Some(n),
        number_up_to(s, large) matches Some(n) ==> n <= small || number_up_to(s, small) is None,
        number_up_to(s, large) is None ==> number_up_to(s, small) is None,
{
}

/// A number above the bound is refused.
pub proof fn law_large_numbers_are_refused(n: nat, max: nat)
    requires
        n > max,
    ensures
        number_up_to(digits_of(n), max) is None,
        number_up_to(seq!['+'] + digits_of(n), max) is None,
{
    law_decimal_reads_back(n, n);
    law_bound_only_refuses(digits_of(n), max, n);
    law_bound_only_refuses(seq!['+'] + digits_of(n), max, n);
}

}

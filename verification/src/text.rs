//! Small verified operations on strings: decimal numerals, equality, search and parsing.

use vstd::prelude::*;
use vstd::string::*;
use vstd::utf8::*;

verus! {

/// The decimal digit `d`, for `d` below ten.
pub open spec fn digit_char(d: nat) -> char {
    (48 + d) as char
}

/// The decimal numeral of `n`, without leading zeros.
pub open spec fn digits(n: nat) -> Seq<char>
    decreases n,
{
    if n < 10 {
        seq![digit_char(n)]
    } else {
        digits(n / 10).push(digit_char(n % 10))
    }
}

/// The decimal numeral of `i`, with a minus sign where it is negative.
pub open spec fn signed_digits(i: int) -> Seq<char> {
    if i < 0 {
        seq!['-'] + digits((-i) as nat)
    } else {
        digits(i as nat)
    }
}

/// Whether `c` is one of `0` to `9`.
pub open spec fn is_digit(c: char) -> bool {
    '0' <= c && c <= '9'
}

/// Whether `s` is a run of one or more decimal digits.
pub open spec fn is_digits(s: Seq<char>) -> bool {
    &&& s.len() > 0
    &&& forall|i: int| 0 <= i < s.len() ==> is_digit(#[trigger] s[i])
}

/// The number that a run of decimal digits denotes.
pub open spec fn digits_value(s: Seq<char>) -> nat
    decreases s.len(),
{
    if s.len() == 0 {
        0
    } else {
        10 * digits_value(s.drop_last()) + (s.last() as nat - 48) as nat
    }
}

/// Whether `t` occurs in `s`.
pub open spec fn occurs_in(t: Seq<char>, s: Seq<char>) -> bool {
    exists|i: int| 0 <= i <= s.len() - t.len() && #[trigger] s.subrange(i, i + t.len()) == t
}

/// The integer that `s` denotes: an optional sign and at least one decimal digit, in the range
/// of `i32`.
pub open spec fn parsed_i32(s: Seq<char>) -> Option<i32> {
    let signed = s.len() > 0 && (s[0] == '-' || s[0] == '+');
    let body = if signed {
        s.skip(1)
    } else {
        s
    };
    let value = if signed && s[0] == '-' {
        -(digits_value(body) as int)
    } else {
        digits_value(body) as int
    };
    if !is_digits(body) {
        None
    } else if i32::MIN <= value <= i32::MAX {
        Some(value as i32)
    } else {
        None
    }
}

/// The one-digit numeral of `d`.
fn digit_str(d: u8) -> (r: &'static str)
    requires
        d < 10,
    ensures
        r@ == seq![digit_char(d as nat)],
{
    proof {
        reveal_strlit("0");
        reveal_strlit("1");
        reveal_strlit("2");
        reveal_strlit("3");
        reveal_strlit("4");
        reveal_strlit("5");
        reveal_strlit("6");
        reveal_strlit("7");
        reveal_strlit("8");
        reveal_strlit("9");
    }
    match d {
        0 => "0",
        1 => "1",
        2 => "2",
        3 => "3",
        4 => "4",
        5 => "5",
        6 => "6",
        7 => "7",
        8 => "8",
        _ => "9",
    }
}

/// The decimal numeral of `n`.
pub fn decimal(n: u128) -> (r: String)
    ensures
        r@ == digits(n as nat),
    decreases n,
{
    if n < 10 {
        digit_str(n as u8).to_owned()
    } else {
        let mut r = decimal(n / 10);
        r.append(digit_str((n % 10) as u8));
        r
    }
}

/// The decimal numeral of `i`.
pub fn decimal_signed(i: i32) -> (r: String)
    ensures
        r@ == signed_digits(i as int),
{
    if i < 0 {
        let mut r = "-".to_owned();
        proof {
            reveal_strlit("-");
        }
        let magnitude: i64 = -(i as i64);
        r.append(decimal(magnitude as u128).as_str());
        r
    } else {
        decimal(i as u128)
    }
}

/// Whether the two strings hold the same characters.
pub fn str_eq(a: &str, b: &str) -> (r: bool)
    ensures
        r == (a@ == b@),
{
    let x = a.as_bytes();
    let y = b.as_bytes();
    proof {
        encode_utf8_decode_utf8(a@);
        encode_utf8_decode_utf8(b@);
    }
    if x.len() != y.len() {
        return false;
    }
    let mut i: usize = 0;
    while i < x.len()
        invariant
            i <= x@.len(),
            x@.len() == y@.len(),
            x@ == encode_utf8(a@),
            y@ == encode_utf8(b@),
            forall|j: int| 0 <= j < i ==> x@[j] == y@[j],
        decreases x@.len() - i,
    {
        if x[i] != y[i] {
            return false;
        }
        i += 1;
    }
    assert(x@ =~= y@);
    true
}

/// The characters of `s`.
pub fn chars_of(s: &str) -> (r: Vec<char>)
    ensures
        r@ == s@,
{
    let mut r: Vec<char> = Vec::new();
    for c in it: s.chars()
        invariant
            it.seq() == s@,
            r@ == s@.take(it.index() as int),
    {
        r.push(c);
    }
    assert(s@.take(s@.len() as int) == s@);
    r
}

/// Whether `needle` occurs in `hay`.
pub fn contains(hay: &str, needle: &str) -> (r: bool)
    ensures
        r == occurs_in(needle@, hay@),
{
    let h = chars_of(hay);
    let n = chars_of(needle);
    if n.len() > h.len() {
        return false;
    }
    if n.len() == 0 {
        assert(hay@.subrange(0, 0int + needle@.len()) =~= needle@);
        return true;
    }
    let last: usize = h.len() - n.len();
    let mut i: usize = 0;
    while i <= last
        invariant
            last == h@.len() - n@.len(),
            0 < n@.len() <= h@.len() <= usize::MAX,
            h@ == hay@,
            n@ == needle@,
            i <= last + 1,
            forall|j: int| 0 <= j < i ==> #[trigger] h@.subrange(j, j + n@.len()) != n@,
        decreases last + 1 - i,
    {
        let mut k: usize = 0;
        while k < n.len() && h[i + k] == n[k]
            invariant
                k <= n@.len(),
                i <= last,
                last == h@.len() - n@.len(),
                h@.len() <= usize::MAX,
                forall|j: int| 0 <= j < k ==> h@[i + j] == n@[j],
            decreases n@.len() - k,
        {
            k += 1;
        }
        if k == n.len() {
            assert(h@.subrange(i as int, i + n@.len()) =~= n@);
            return true;
        }
        assert(h@.subrange(i as int, i + n@.len())[k as int] != n@[k as int]);
        i += 1;
    }
    false
}

/// The characters of `s` behind `prefix`, where `s` begins with it.
pub fn strip_prefix(s: &str, prefix: &str) -> (r: Option<Vec<char>>)
    ensures
        r is Some <==> prefix@.is_prefix_of(s@),
        r matches Some(rest) ==> rest@ == s@.skip(prefix@.len() as int),
{
    let h = chars_of(s);
    let p = chars_of(prefix);
    if p.len() > h.len() {
        return None;
    }
    let mut i: usize = 0;
    while i < p.len()
        invariant
            i <= p@.len() <= h@.len(),
            h@ == s@,
            p@ == prefix@,
            forall|j: int| 0 <= j < i ==> h@[j] == p@[j],
        decreases p@.len() - i,
    {
        if h[i] != p[i] {
            assert(s@.subrange(0, prefix@.len() as int)[i as int] != prefix@[i as int]);
            return None;
        }
        i += 1;
    }
    assert(prefix@ =~= s@.subrange(0, prefix@.len() as int));
    let mut rest: Vec<char> = Vec::new();
    while i < h.len()
        invariant
            p@.len() <= i <= h@.len(),
            h@ == s@,
            rest@ == s@.subrange(p@.len() as int, i as int),
        decreases h@.len() - i,
    {
        rest.push(h[i]);
        i += 1;
    }
    Some(rest)
}

/// Read `s` as an `i32`.
pub fn parse_i32(s: &Vec<char>) -> (r: Option<i32>)
    ensures
        r == parsed_i32(s@),
{
    let signed: bool = s.len() > 0 && (s[0] == '-' || s[0] == '+');
    let negative: bool = signed && s[0] == '-';
    let start: usize = if signed {
        1
    } else {
        0
    };
    let ghost body: Seq<char> = s@.skip(start as int);
    assert(!signed ==> body =~= s@);
    if s.len() == start {
        return None;
    }
    let mut i: usize = start;
    let mut value: u64 = 0;
    let limit: u64 = 3_000_000_000;
    let mut over: bool = false;
    while i < s.len()
        invariant
            start <= i <= s@.len(),
            start <= 1,
            body == s@.skip(start as int),
            !signed ==> body == s@,
            limit == 3_000_000_000,
            value <= limit,
            forall|j: int| 0 <= j < i - start ==> is_digit(#[trigger] body[j]),
            over ==> digits_value(body.take(i - start)) > i32::MAX + 1,
            !over ==> value == digits_value(body.take(i - start)),
            signed == (s@.len() > 0 && (s@[0] == '-' || s@[0] == '+')),
            start == (if signed { 1int } else { 0int }),
            body.len() > 0,
        decreases s@.len() - i,
    {
        let c = s[i];
        assert(body[i - start] == c);
        if c < '0' || c > '9' {
            assert(!is_digits(body));
            return None;
        }
        assert(body.take(i + 1 - start).drop_last() =~= body.take(i - start));
        assert(body.take(i + 1 - start).last() == c);
        let d: u64 = (c as u32 as u64) - 48;
        if !over {
            let next: u64 = value * 10 + d;
            if next > limit {
                over = true;
            } else {
                value = next;
            }
        }
        i += 1;
    }
    assert(body.take(body.len() as int) =~= body);
    if over {
        return None;
    }
    let signed_value: i64 = if negative {
        -(value as i64)
    } else {
        value as i64
    };
    if signed_value < -2_147_483_648 || signed_value > 2_147_483_647 {
        None
    } else {
        Some(signed_value as i32)
    }
}

/// A numeral is written as by hand: a number below ten is one digit, and a digit behind the numeral
/// of a number makes ten times that number and the digit.
pub proof fn law_numerals_are_decimal(n: nat, d: nat)
    requires
        d < 10,
    ensures
        digits(d) == seq![(48 + d) as char],
        n > 0 ==> digits(10 * n + d) == digits(n).push((48 + d) as char),
        signed_digits(n as int) == digits(n),
        n > 0 ==> signed_digits(-(n as int)) == seq!['-'] + digits(n),
{
    assert((10 * n + d) / 10 == n && (10 * n + d) % 10 == d);
}

/// A numeral holds digits only, at least one, and is read back as the number that it was made from.
pub proof fn law_numerals_read_back(n: nat)
    ensures
        is_digits(digits(n)),
        digits_value(digits(n)) == n,
    decreases n,
{
    let s = digits(n);
    if n < 10 {
        assert(s.drop_last() =~= seq![]);
        assert(digits_value(s.drop_last()) == 0);
    } else {
        law_numerals_read_back(n / 10);
        let front = digits(n / 10);
        assert(s.drop_last() =~= front);
        assert forall|i: int| 0 <= i < s.len() implies is_digit(#[trigger] s[i]) by {
            if i < front.len() {
                assert(s[i] == front[i]);
            }
        }
    }
}

/// Digits are worth what stands in front of them ten times, and themselves, leading zeros or not.
pub proof fn law_digits_are_worth_their_place(s: Seq<char>, c: char)
    requires
        is_digit(c),
    ensures
        digits_value(Seq::empty()) == 0,
        digits_value(s.push(c)) == 10 * digits_value(s) + (c as nat - 48),
{
    assert(s.push(c).drop_last() =~= s);
}

/// A number is read off its digits, with or without a sign in front, exactly where it is one of the
/// `i32`; nothing else is read.
pub proof fn law_integers_are_read(body: Seq<char>)
    ensures
        is_digits(body) && digits_value(body) <= i32::MAX ==> parsed_i32(body) == Some(
            digits_value(body) as i32,
        ) && parsed_i32(seq!['+'] + body) == Some(digits_value(body) as i32),
        is_digits(body) && digits_value(body) > i32::MAX ==> parsed_i32(body) is None
            && parsed_i32(seq!['+'] + body) is None,
        is_digits(body) && digits_value(body) <= 2147483648 ==> parsed_i32(seq!['-'] + body)
            == Some((-(digits_value(body) as int)) as i32),
        is_digits(body) && digits_value(body) > 2147483648 ==> parsed_i32(seq!['-'] + body) is None,
        !is_digits(body) ==> parsed_i32(seq!['+'] + body) is None && parsed_i32(
            seq!['-'] + body,
        ) is None,
        !is_digits(body) && (body.len() == 0 || (body[0] != '+' && body[0] != '-')) ==> parsed_i32(
            body,
        ) is None,
{
    let plus = seq!['+'] + body;
    let minus = seq!['-'] + body;
    assert(plus.skip(1) =~= body);
    assert(minus.skip(1) =~= body);
    assert(plus[0] == '+');
    assert(minus[0] == '-');
    if is_digits(body) {
        assert(is_digit(body[0]));
    }
}

/// Something occurs where it stands between what is in front of it and what is behind it.
pub proof fn law_occurs_between(t: Seq<char>, s: Seq<char>)
    ensures
        occurs_in(t, s) <==> exists|front: Seq<char>, back: Seq<char>|
            s == #[trigger] (front + t + back),
{
    if occurs_in(t, s) {
        let i = choose|i: int|
            0 <= i <= s.len() - t.len() && #[trigger] s.subrange(i, i + t.len()) == t;
        assert(s =~= s.take(i) + t + s.skip(i + t.len()));
    }
    if exists|front: Seq<char>, back: Seq<char>| s == #[trigger] (front + t + back) {
        let (front, back) = choose|front: Seq<char>, back: Seq<char>|
            s == #[trigger] (front + t + back);
        let i = front.len() as int;
        assert(s.subrange(i, i + t.len()) =~= t);
    }
}

/// A digit is one of the ten, and a run of them is not empty and holds nothing else.
pub proof fn law_what_a_run_of_digits_is(s: Seq<char>, c: char)
    ensures
        is_digit(c) <==> seq!['0', '1', '2', '3', '4', '5', '6', '7', '8', '9'].contains(c),
        !is_digits(Seq::empty()),
        is_digits(s.push(c)) <==> is_digit(c) && (s.len() == 0 || is_digits(s)),
{
    let ten = seq!['0', '1', '2', '3', '4', '5', '6', '7', '8', '9'];
    if is_digit(c) {
        assert(ten[c as int - 48] == c);
    }
    let t = s.push(c);
    if is_digits(t) {
        assert(is_digit(t[s.len() as int]));
        assert forall|i: int| 0 <= i < s.len() implies is_digit(#[trigger] s[i]) by {
            assert(t[i] == s[i]);
        }
    }
}

} // verus!

//! Text building blocks: numbers written as digits, prefixes, separators and words.
use vstd::prelude::*;

verus! {

/// The digit of value `d`, with `letter` standing for ten.
pub open spec fn digit(d: nat, letter: char) -> char {
    if d < 10 {
        (48 + d) as char
    } else {
        (letter as nat + d - 10) as char
    }
}

/// The digits of `n` in base `base`, most significant first and without leading zeros.
pub open spec fn digits(n: nat, base: nat, letter: char) -> Seq<char>
    decreases n,
{
    if base < 2 || n < base {
        seq![digit(n, letter)]
    } else {
        proof {
            assert(n / base < n) by (nonlinear_arith)
                requires
                    base >= 2,
                    n >= base,
            ;
        }
        digits(n / base, base, letter).push(digit(n % base, letter))
    }
}

/// `n` in decimal, as `{}` formats an unsigned number.
pub open spec fn decimal(n: nat) -> Seq<char> {
    digits(n, 10, 'a')
}

/// `n` in decimal with a leading minus for negative numbers, as `{}` formats a signed number.
pub open spec fn signed_decimal(n: int) -> Seq<char> {
    if n < 0 {
        seq!['-'] + decimal((-n) as nat)
    } else {
        decimal(n as nat)
    }
}

/// `n` in upper case hexadecimal, as `{:X}` formats it.
pub open spec fn hex_upper(n: nat) -> Seq<char> {
    digits(n, 16, 'A')
}

/// `n` in lower case hexadecimal, as `{:x}` formats it.
pub open spec fn hex_lower(n: nat) -> Seq<char> {
    digits(n, 16, 'a')
}

/// `text` with zeros in front up to a length of `width`.
pub open spec fn zero_padded(text: Seq<char>, width: nat) -> Seq<char> {
    if text.len() < width {
        Seq::new((width - text.len()) as nat, |i: int| '0') + text
    } else {
        text
    }
}

/// The address `n` as the protocol writes it: `0x` and upper case hexadecimal digits.
pub open spec fn address_text(n: nat) -> Seq<char> {
    seq!['0', 'x'] + hex_upper(n)
}

fn push_digits(out: &mut String, n: u64, base: u64, letter: char)
    requires
        base == 10 || base == 16,
        letter == 'a' || letter == 'A',
    ensures
        final(out)@ == old(out)@ + digits(n as nat, base as nat, letter),
    decreases n,
{
    if n >= base {
        let q: u64 = if base == 10 { n / 10 } else { n / 16 };
        push_digits(out, q, base, letter);
    }
    let d: u64 = if base == 10 { n % 10 } else { n % 16 };
    let c: char = if d < 10 {
        (48 + d as u8) as char
    } else {
        (letter as u8 + (d as u8 - 10)) as char
    };
    out.push(c);
    proof {
        assert(out@ =~= old(out)@ + digits(n as nat, base as nat, letter));
    }
}

/// Appends `n` in decimal.
pub fn push_decimal(out: &mut String, n: u64)
    ensures
        final(out)@ == old(out)@ + decimal(n as nat),
{
    push_digits(out, n, 10, 'a');
}

/// Appends `n` in decimal, with a minus when it is negative.
pub fn push_signed_decimal(out: &mut String, n: i64)
    ensures
        final(out)@ == old(out)@ + signed_decimal(n as int),
{
    if n < 0 {
        let magnitude: u64 = if n == i64::MIN { 0x8000_0000_0000_0000 } else { (-n) as u64 };
        out.push('-');
        push_digits(out, magnitude, 10, 'a');
        proof {
            assert(out@ =~= old(out)@ + signed_decimal(n as int));
        }
    } else {
        push_digits(out, n as u64, 10, 'a');
    }
}

/// Appends `n` in upper case hexadecimal.
pub fn push_hex_upper(out: &mut String, n: u64)
    ensures
        final(out)@ == old(out)@ + hex_upper(n as nat),
{
    push_digits(out, n, 16, 'A');
}

/// Appends `n` in lower case hexadecimal.
pub fn push_hex_lower(out: &mut String, n: u64)
    ensures
        final(out)@ == old(out)@ + hex_lower(n as nat),
{
    push_digits(out, n, 16, 'a');
}

/// Appends `n` in upper case hexadecimal, filled up with zeros to `width` digits.
pub fn push_hex_padded(out: &mut String, n: u64, width: usize)
    ensures
        final(out)@ == old(out)@ + zero_padded(hex_upper(n as nat), width as nat),
{
    let mut body: String = String::new();
    push_digits(&mut body, n, 16, 'A');
    let len: usize = char_count(body.as_str());
    let mut written: usize = len;
    let ghost start = out@;
    while written < width
        invariant
            len == body@.len(),
            len <= written,
            written <= width || written == len,
            out@ == start + Seq::new((written - len) as nat, |i: int| '0'),
        decreases width - written,
    {
        out.push('0');
        written = written + 1;
        proof {
            assert(out@ =~= start + Seq::new((written - len) as nat, |i: int| '0'));
        }
    }
    out.append(body.as_str());
    proof {
        assert(out@ =~= start + zero_padded(hex_upper(n as nat), width as nat));
    }
}

/// The upper case hexadecimal digits of `n`.
pub fn hex_upper_string(n: u64) -> (s: String)
    ensures
        s@ == hex_upper(n as nat),
{
    let mut s: String = String::new();
    push_hex_upper(&mut s, n);
    proof {
        assert(s@ =~= hex_upper(n as nat));
    }
    s
}

/// The address `n` as the protocol writes it.
pub fn address_string(n: u64) -> (s: String)
    ensures
        s@ == address_text(n as nat),
{
    let mut s: String = String::new();
    s.push('0');
    s.push('x');
    push_hex_upper(&mut s, n);
    proof {
        assert(s@ =~= address_text(n as nat));
    }
    s
}

/// The number of characters of `s`.
pub fn char_count(s: &str) -> (n: usize)
    ensures
        n == s@.len(),
{
    s.unicode_len()
}

/// The characters of `s` in order.
pub fn chars_of(s: &str) -> (v: Vec<char>)
    ensures
        v@ == s@,
{
    let mut v: Vec<char> = Vec::new();
    for c in it: s.chars()
        invariant
            it.seq() == s@,
            v@ == s@.take(it.index() as int),
    {
        v.push(c);
        proof {
            assert(v@ =~= s@.take(it.index() as int + 1));
        }
    }
    proof {
        assert(v@ =~= s@);
    }
    v
}

/// The string of the characters of `v` from `from` up to but not including `to`.
pub fn string_of(v: &Vec<char>, from: usize, to: usize) -> (s: String)
    requires
        from <= to <= v@.len(),
    ensures
        s@ == v@.subrange(from as int, to as int),
{
    let mut s: String = String::new();
    let mut i: usize = from;
    while i < to
        invariant
            from <= i <= to <= v@.len(),
            s@ == v@.subrange(from as int, i as int),
        decreases to - i,
    {
        s.push(v[i]);
        i = i + 1;
        proof {
            assert(s@ =~= v@.subrange(from as int, i as int));
        }
    }
    proof {
        assert(s@ =~= v@.subrange(from as int, to as int));
    }
    s
}

/// Whether two strings hold the same characters.
pub fn same_text(a: &str, b: &str) -> (r: bool)
    ensures
        r == (a@ == b@),
{
    a.to_owned() == b.to_owned()
}

/// Whether `s` starts with `prefix`.
pub fn starts_with(s: &str, prefix: &str) -> (r: bool)
    ensures
        r == prefix@.is_prefix_of(s@),
{
    let n: usize = prefix.unicode_len();
    if s.unicode_len() < n {
        false
    } else {
        same_text(s.substring_char(0, n), prefix)
    }
}

/// What stands before the first `sep` of `s`: all of `s` where there is none.
pub open spec fn before_first(s: Seq<char>, sep: char) -> Seq<char>
    decreases s.len(),
{
    if s.len() == 0 || s[0] == sep {
        Seq::empty()
    } else {
        seq![s[0]] + before_first(s.drop_first(), sep)
    }
}

/// What stands behind the first `sep` of `s`, where there is one.
pub open spec fn after_first(s: Seq<char>, sep: char) -> Option<Seq<char>> {
    if s.contains(sep) {
        Some(s.skip(before_first(s, sep).len() as int + 1))
    } else {
        None
    }
}

/// `before_first` is what runs up to a separator, or to the end of the text.
pub proof fn lemma_before_first(s: Seq<char>, sep: char, i: int)
    requires
        0 <= i <= s.len(),
        forall|j: int| 0 <= j < i ==> s[j] != sep,
        i == s.len() || s[i] == sep,
    ensures
        before_first(s, sep) == s.take(i),
        s.contains(sep) == (i < s.len()),
    decreases i,
{
    if i < s.len() {
        assert(s[i] == sep);
    }
    if i == 0 {
        assert(before_first(s, sep) =~= s.take(i));
    } else {
        let rest = s.drop_first();
        assert forall|j: int| 0 <= j < i - 1 implies rest[j] != sep by {
            assert(rest[j] == s[j + 1]);
        }
        assert(i - 1 == rest.len() || rest[i - 1] == s[i]);
        lemma_before_first(rest, sep, i - 1);
        assert(before_first(s, sep) =~= s.take(i));
    }
}

/// Splits `s` at its first `sep`.
pub fn split_first(s: &str, sep: char) -> (r: (String, Option<String>))
    ensures
        r.0@ == before_first(s@, sep),
        r.1.deep_view() == after_first(s@, sep),
{
    let chars: Vec<char> = chars_of(s);
    let mut i: usize = 0;
    while i < chars.len() && chars[i] != sep
        invariant
            chars@ == s@,
            0 <= i <= s@.len(),
            forall|j: int| 0 <= j < i ==> s@[j] != sep,
        decreases s@.len() - i,
    {
        i = i + 1;
    }
    proof {
        lemma_before_first(s@, sep, i as int);
        assert(s@.subrange(0, i as int) =~= s@.take(i as int));
    }
    let head: String = string_of(&chars, 0, i);
    if i < chars.len() {
        let tail: String = string_of(&chars, i + 1, chars.len());
        proof {
            assert(s@.subrange(i as int + 1, s@.len() as int) =~= s@.skip(i as int + 1));
        }
        (head, Some(tail))
    } else {
        (head, None)
    }
}

/// The characters with the Unicode property `White_Space`.
pub open spec fn white_space(c: char) -> bool {
    let n = c as u32;
    ||| 0x9 <= n <= 0xd
    ||| n == 0x20
    ||| n == 0x85
    ||| n == 0xa0
    ||| n == 0x1680
    ||| 0x2000 <= n <= 0x200a
    ||| n == 0x2028
    ||| n == 0x2029
    ||| n == 0x202f
    ||| n == 0x205f
    ||| n == 0x3000
}

fn is_whitespace(c: char) -> (r: bool)
    ensures
        r == white_space(c),
{
    let n: u32 = c as u32;
    (0x9 <= n && n <= 0xd) || n == 0x20 || n == 0x85 || n == 0xa0 || n == 0x1680 || (0x2000 <= n
        && n <= 0x200a) || n == 0x2028 || n == 0x2029 || n == 0x202f || n == 0x205f || n == 0x3000
}

/// `s` without the white space at its end.
pub open spec fn trimmed_end(s: Seq<char>) -> Seq<char>
    decreases s.len(),
{
    if s.len() > 0 && white_space(s.last()) {
        trimmed_end(s.drop_last())
    } else {
        s
    }
}

/// The longest end of `s` that holds no white space.
pub open spec fn solid_end(s: Seq<char>) -> Seq<char>
    decreases s.len(),
{
    if s.len() == 0 || white_space(s.last()) {
        Seq::empty()
    } else {
        solid_end(s.drop_last()).push(s.last())
    }
}

/// The last of the words of `s` that white space sets apart: empty where there is no word.
pub open spec fn last_word(s: Seq<char>) -> Seq<char> {
    solid_end(trimmed_end(s))
}

/// The last word of `s`.
pub fn last_word_of(s: &str) -> (w: String)
    ensures
        w@ == last_word(s@),
{
    let chars: Vec<char> = chars_of(s);
    let mut end: usize = chars.len();
    proof {
        assert(s@.take(end as int) =~= s@);
    }
    while end > 0 && is_whitespace(chars[end - 1])
        invariant
            chars@ == s@,
            end <= s@.len(),
            trimmed_end(s@) == trimmed_end(s@.take(end as int)),
        decreases end,
    {
        proof {
            assert(s@.take(end as int).drop_last() =~= s@.take(end as int - 1));
        }
        end = end - 1;
    }
    let ghost body = s@.take(end as int);
    proof {
        assert(trimmed_end(s@) == body);
    }
    let mut start: usize = end;
    proof {
        assert(body.take(end as int) =~= body);
        assert(s@.subrange(end as int, end as int) =~= Seq::<char>::empty());
    }
    while start > 0 && !is_whitespace(chars[start - 1])
        invariant
            chars@ == s@,
            body == s@.take(end as int),
            start <= end <= s@.len(),
            solid_end(body) == solid_end(body.take(start as int)) + s@.subrange(
                start as int,
                end as int,
            ),
        decreases start,
    {
        proof {
            let head = body.take(start as int);
            assert(head.drop_last() =~= body.take(start as int - 1));
            assert(head.last() == s@[start as int - 1]);
            assert(solid_end(body) =~= solid_end(body.take(start as int - 1)) + s@.subrange(
                start as int - 1,
                end as int,
            ));
        }
        start = start - 1;
    }
    proof {
        assert(solid_end(body.take(start as int)) =~= Seq::<char>::empty());
        assert(solid_end(body) =~= s@.subrange(start as int, end as int));
    }
    string_of(&chars, start, end)
}

proof fn lemma_solid_end_len(s: Seq<char>)
    ensures
        solid_end(s).len() <= s.len(),
    decreases s.len(),
{
    if s.len() > 0 {
        lemma_solid_end_len(s.drop_last());
    }
}

proof fn lemma_trimmed_end_len(s: Seq<char>)
    ensures
        trimmed_end(s).len() <= s.len(),
    decreases s.len(),
{
    if s.len() > 0 {
        lemma_trimmed_end_len(s.drop_last());
    }
}

/// The last word is no longer than the text.
pub proof fn lemma_last_word_len(s: Seq<char>)
    ensures
        last_word(s).len() <= s.len(),
{
    lemma_trimmed_end_len(s);
    lemma_solid_end_len(trimmed_end(s));
}

/// The value of a run of decimal digits.
pub open spec fn digits_value(s: Seq<char>) -> nat
    decreases s.len(),
{
    if s.len() == 0 {
        0
    } else {
        (digits_value(s.drop_last()) * 10 + (s.last() as nat - 48)) as nat
    }
}

/// Whether `s` is one decimal digit or more, and nothing else.
pub open spec fn all_digits(s: Seq<char>) -> bool {
    s.len() > 0 && forall|i: int| 0 <= i < s.len() ==> '0' <= #[trigger] s[i] <= '9'
}

/// The number that `s` writes in decimal, with or without a leading plus: none where `s` holds
/// anything else.
pub open spec fn unsigned_value(s: Seq<char>) -> Option<nat> {
    let body = if s.len() > 0 && s[0] == '+' {
        s.drop_first()
    } else {
        s
    };
    if all_digits(body) {
        Some(digits_value(body))
    } else {
        None
    }
}

/// A number is read back from its decimal digits.
pub proof fn lemma_decimal_value(n: nat)
    ensures
        all_digits(decimal(n)),
        digits_value(decimal(n)) == n,
        unsigned_value(decimal(n)) == Some(n),
    decreases n,
{
    let s = decimal(n);
    if n < 10 {
        assert(s.drop_last() =~= Seq::empty());
        assert(digits_value(s.drop_last()) == 0);
    } else {
        lemma_decimal_value(n / 10);
        assert(s.drop_last() =~= decimal(n / 10));
        assert(s.last() == digit(n % 10, 'a'));
        assert forall|i: int| 0 <= i < s.len() implies '0' <= #[trigger] s[i] <= '9' by {
            if i < s.len() - 1 {
                assert(s[i] == decimal(n / 10)[i]);
            }
        }
    }
    assert('0' <= s[0] <= '9');
}

/// `a` with the letters `A` to `Z` made small.
pub open spec fn ascii_lower(a: char) -> char {
    if 'A' <= a <= 'Z' {
        (a as u32 + 32) as char
    } else {
        a
    }
}

/// Whether the characters of `pattern` occur in `choice` in the same order, where the case of
/// ASCII letters does not count.
pub open spec fn occurs_in_order(choice: Seq<char>, pattern: Seq<char>) -> bool
    decreases choice.len(),
{
    if pattern.len() == 0 {
        true
    } else if choice.len() == 0 {
        false
    } else if ascii_lower(choice[0]) == ascii_lower(pattern[0]) {
        occurs_in_order(choice.drop_first(), pattern.drop_first())
    } else {
        occurs_in_order(choice.drop_first(), pattern)
    }
}

/// The value of a hexadecimal digit, in either case.
pub open spec fn hex_digit_value(c: char) -> int {
    if '0' <= c <= '9' {
        c as int - '0' as int
    } else if 'A' <= c <= 'F' {
        c as int - 'A' as int + 10
    } else {
        c as int - 'a' as int + 10
    }
}

/// The value of a run of hexadecimal digits.
pub open spec fn hex_value(s: Seq<char>) -> int
    decreases s.len(),
{
    if s.len() == 0 {
        0
    } else {
        hex_value(s.drop_last()) * 16 + hex_digit_value(s.last())
    }
}

/// The decimal digits of a number have the value of the number, and start with a zero only where
/// that is all: no other text of digits will do.
pub proof fn law_decimal_writes_the_number(n: nat)
    ensures
        decimal(n).len() > 0,
        forall|i: int| 0 <= i < decimal(n).len() ==> '0' <= #[trigger] decimal(n)[i] <= '9',
        digits_value(decimal(n)) == n,
        decimal(n)[0] == '0' ==> decimal(n).len() == 1,
    decreases n,
{
    lemma_decimal_value(n);
    if n >= 10 {
        law_decimal_writes_the_number(n / 10);
        let rest = decimal(n / 10);
        assert(decimal(n).drop_last() =~= rest);
        assert(decimal(n)[0] == rest[0]);
        if rest[0] == '0' {
            assert(rest.drop_last() =~= Seq::empty());
            assert(digits_value(rest.drop_last()) == 0);
            assert(digits_value(rest) == 0);
        }
    }
}

/// The digits in upper case hexadecimal have the value of the number, hold no small letter, and
/// start with a zero only where that is all.
pub proof fn law_upper_hex_writes_the_number(n: nat)
    ensures
        hex_upper(n).len() > 0,
        forall|i: int|
            0 <= i < hex_upper(n).len() ==> '0' <= #[trigger] hex_upper(n)[i] <= '9' || 'A'
                <= hex_upper(n)[i] <= 'F',
        hex_value(hex_upper(n)) == n,
        hex_upper(n)[0] == '0' ==> hex_upper(n).len() == 1,
    decreases n,
{
    let s = hex_upper(n);
    if n < 16 {
        assert(s.drop_last() =~= Seq::empty());
        assert(hex_value(s.drop_last()) == 0);
    } else {
        law_upper_hex_writes_the_number(n / 16);
        let rest = hex_upper(n / 16);
        assert(s.drop_last() =~= rest);
        assert(s[0] == rest[0]);
        assert(s.last() == digit(n % 16, 'A'));
        assert forall|i: int| 0 <= i < s.len() implies '0' <= #[trigger] s[i] <= '9' || 'A' <= s[i]
            <= 'F' by {
            if i < s.len() - 1 {
                assert(s[i] == rest[i]);
            }
        }
        if rest[0] == '0' {
            assert(rest.drop_last() =~= Seq::empty());
            assert(hex_value(rest.drop_last()) == 0);
            assert(hex_value(rest) == 0);
        }
    }
}

/// The digits in lower case hexadecimal have the value of the number, hold no capital letter, and
/// start with a zero only where that is all.
pub proof fn law_lower_hex_writes_the_number(n: nat)
    ensures
        hex_lower(n).len() > 0,
        forall|i: int|
            0 <= i < hex_lower(n).len() ==> '0' <= #[trigger] hex_lower(n)[i] <= '9' || 'a'
                <= hex_lower(n)[i] <= 'f',
        hex_value(hex_lower(n)) == n,
        hex_lower(n)[0] == '0' ==> hex_lower(n).len() == 1,
    decreases n,
{
    let s = hex_lower(n);
    if n < 16 {
        assert(s.drop_last() =~= Seq::empty());
        assert(hex_value(s.drop_last()) == 0);
    } else {
        law_lower_hex_writes_the_number(n / 16);
        let rest = hex_lower(n / 16);
        assert(s.drop_last() =~= rest);
        assert(s[0] == rest[0]);
        assert(s.last() == digit(n % 16, 'a'));
        assert forall|i: int| 0 <= i < s.len() implies '0' <= #[trigger] s[i] <= '9' || 'a' <= s[i]
            <= 'f' by {
            if i < s.len() - 1 {
                assert(s[i] == rest[i]);
            }
        }
        if rest[0] == '0' {
            assert(rest.drop_last() =~= Seq::empty());
            assert(hex_value(rest.drop_last()) == 0);
            assert(hex_value(rest) == 0);
        }
    }
}

/// A negative number is written as a minus and its magnitude, and no other number has a minus.
pub proof fn law_only_negative_numbers_have_a_minus(n: int)
    ensures
        signed_decimal(n).len() > 0,
        signed_decimal(n)[0] == '-' <==> n < 0,
        n >= 0 ==> digits_value(signed_decimal(n)) == n,
        n < 0 ==> digits_value(signed_decimal(n).drop_first()) == -n,
        n < 0 ==> signed_decimal(n).drop_first() == signed_decimal(-n),
{
    if n < 0 {
        law_decimal_writes_the_number((-n) as nat);
        assert(signed_decimal(n).drop_first() =~= decimal((-n) as nat));
    } else {
        law_decimal_writes_the_number(n as nat);
        assert('0' <= decimal(n as nat)[0] <= '9');
    }
}

/// Padding puts zeros in front up to the width, and changes nothing else.
pub proof fn law_padding_only_adds_zeros(text: Seq<char>, width: nat)
    ensures
        ({
            let padded = zero_padded(text, width);
            &&& padded.len() >= text.len()
            &&& padded.len() >= width
            &&& padded.len() == text.len() || padded.len() == width
            &&& padded.skip(padded.len() - text.len()) == text
            &&& forall|i: int| 0 <= i < padded.len() - text.len() ==> #[trigger] padded[i] == '0'
        }),
{
    let padded = zero_padded(text, width);
    assert(padded.skip(padded.len() - text.len()) =~= text);
}

/// An address is `0x` and the upper case hexadecimal digits of its value.
pub proof fn law_address_has_its_prefix(n: nat)
    ensures
        address_text(n).len() > 2,
        address_text(n)[0] == '0',
        address_text(n)[1] == 'x',
        hex_value(address_text(n).skip(2)) == n,
        forall|i: int|
            2 <= i < address_text(n).len() ==> '0' <= #[trigger] address_text(n)[i] <= '9' || 'A'
                <= address_text(n)[i] <= 'F',
        address_text(n)[2] == '0' ==> address_text(n).len() == 3,
{
    law_upper_hex_writes_the_number(n);
    let s = address_text(n);
    assert(s.skip(2) =~= hex_upper(n));
    assert forall|i: int| 2 <= i < s.len() implies '0' <= #[trigger] s[i] <= '9' || 'A' <= s[i]
        <= 'F' by {
        assert(s[i] == hex_upper(n)[i - 2]);
    }
}

/// A text is cut at its first separator: the first part holds none, and the parts with a separator
/// between them are the text. Without a separator the first part is the text.
pub proof fn law_text_is_cut_at_the_first_separator(s: Seq<char>, sep: char)
    ensures
        !before_first(s, sep).contains(sep),
        match after_first(s, sep) {
            Some(rest) => s == before_first(s, sep) + seq![sep] + rest,
            None => s == before_first(s, sep),
        },
    decreases s.len(),
{
    if s.len() == 0 {
        assert(before_first(s, sep) =~= s);
    } else if s[0] == sep {
        assert(s.contains(sep));
        assert(s =~= before_first(s, sep) + seq![sep] + s.skip(1));
    } else {
        let rest = s.drop_first();
        law_text_is_cut_at_the_first_separator(rest, sep);
        let head = before_first(s, sep);
        assert forall|i: int| 0 <= i < head.len() implies head[i] != sep by {
            if i > 0 {
                assert(head[i] == before_first(rest, sep)[i - 1]);
            }
        }
        if s.contains(sep) {
            let i = choose|i: int| 0 <= i < s.len() && s[i] == sep;
            assert(rest[i - 1] == sep);
            assert(rest =~= before_first(rest, sep) + seq![sep] + rest.skip(
                before_first(rest, sep).len() as int + 1,
            ));
            assert(s.skip(head.len() as int + 1) =~= rest.skip(
                before_first(rest, sep).len() as int + 1,
            ));
            assert(s =~= seq![s[0]] + rest);
            assert(s =~= head + seq![sep] + s.skip(head.len() as int + 1));
        } else {
            assert(!rest.contains(sep)) by {
                if rest.contains(sep) {
                    let i = choose|i: int| 0 <= i < rest.len() && rest[i] == sep;
                    assert(s[i + 1] == sep);
                }
            }
            assert(s =~= seq![s[0]] + rest);
            assert(s =~= head);
        }
    }
}

/// White space is the tab, the line and page breaks, and the spaces of Unicode, and nothing else.
pub proof fn law_these_characters_are_white_space(c: char)
    ensures
        white_space(c) <==> {
            ||| c == '\t'
            ||| c == '\n'
            ||| c == '\u{b}'
            ||| c == '\u{c}'
            ||| c == '\r'
            ||| c == ' '
            ||| c == '\u{85}'
            ||| c == '\u{a0}'
            ||| c == '\u{1680}'
            ||| '\u{2000}' <= c <= '\u{200a}'
            ||| c == '\u{2028}'
            ||| c == '\u{2029}'
            ||| c == '\u{202f}'
            ||| c == '\u{205f}'
            ||| c == '\u{3000}'
        },
{
}

/// The last word holds no white space, only white space comes behind it, and what comes before it
/// ends in white space. There is no last word just where there is nothing but white space.
pub proof fn law_last_word_ends_the_text(s: Seq<char>)
    ensures
        forall|i: int| 0 <= i < last_word(s).len() ==> !white_space(#[trigger] last_word(s)[i]),
        ({
            let end = trimmed_end(s).len() as int;
            let start = end - last_word(s).len();
            &&& 0 <= start <= end <= s.len()
            &&& s.subrange(start, end) == last_word(s)
            &&& forall|i: int| end <= i < s.len() ==> white_space(#[trigger] s[i])
            &&& start > 0 ==> white_space(s[start - 1])
        }),
        last_word(s).len() == 0 <==> forall|i: int|
            0 <= i < s.len() ==> white_space(#[trigger] s[i]),
{
    lemma_trimmed_end(s);
    let body = trimmed_end(s);
    lemma_solid_end(body);
    let end = body.len() as int;
    let start = end - last_word(s).len();
    assert(s.subrange(start, end) =~= body.subrange(start, end));
    if last_word(s).len() == 0 && end > 0 {
        assert(!white_space(body.last()));
    }
    if end > 0 {
        assert(s[end - 1] == body.last());
    }
}

proof fn lemma_trimmed_end(s: Seq<char>)
    ensures
        trimmed_end(s).len() <= s.len(),
        trimmed_end(s) == s.take(trimmed_end(s).len() as int),
        forall|i: int| trimmed_end(s).len() <= i < s.len() ==> white_space(#[trigger] s[i]),
        trimmed_end(s).len() > 0 ==> !white_space(trimmed_end(s).last()),
    decreases s.len(),
{
    if s.len() > 0 && white_space(s.last()) {
        let rest = s.drop_last();
        lemma_trimmed_end(rest);
        assert(trimmed_end(s) =~= s.take(trimmed_end(s).len() as int));
        assert forall|i: int| trimmed_end(s).len() <= i < s.len() implies white_space(
            #[trigger] s[i],
        ) by {
            if i < s.len() - 1 {
                assert(rest[i] == s[i]);
            }
        }
    } else {
        assert(s =~= s.take(s.len() as int));
    }
}

proof fn lemma_solid_end(s: Seq<char>)
    ensures
        solid_end(s).len() <= s.len(),
        solid_end(s) == s.skip(s.len() - solid_end(s).len()),
        forall|i: int| 0 <= i < solid_end(s).len() ==> !white_space(#[trigger] solid_end(s)[i]),
        solid_end(s).len() < s.len() ==> white_space(s[s.len() - solid_end(s).len() - 1]),
    decreases s.len(),
{
    if s.len() > 0 && !white_space(s.last()) {
        let rest = s.drop_last();
        lemma_solid_end(rest);
        assert(solid_end(s) =~= s.skip(s.len() - solid_end(s).len()));
    } else {
        assert(solid_end(s) =~= s.skip(s.len() as int));
    }
}

/// A text is read as a number just where it is digits, with or without a plus in front, and each
/// further digit makes the number ten times as large and adds the digit.
pub proof fn law_numbers_are_read_digit_by_digit(s: Seq<char>, c: char)
    ensures
        unsigned_value(s) is Some ==> s.len() > 0 && ('0' <= s.last() <= '9'),
        unsigned_value(Seq::empty()) is None,
        unsigned_value(seq!['+']) is None,
        '0' <= c <= '9' ==> unsigned_value(seq![c]) == Some((c as int - '0' as int) as nat),
        unsigned_value(s) is Some && '0' <= c <= '9' ==> unsigned_value(s.push(c)) == Some(
            (unsigned_value(s)->0 * 10 + (c as int - '0' as int)) as nat,
        ),
        s.len() > 0 && !('0' <= c <= '9') ==> unsigned_value(s.push(c)) is None,
        unsigned_value(s) is Some && s[0] != '+' ==> unsigned_value(seq!['+'] + s)
            == unsigned_value(s),
{
    let one = seq![c];
    assert(one.drop_last() =~= Seq::<char>::empty());
    assert(digits_value(one.drop_last()) == 0);
    if '0' <= c <= '9' {
        assert(all_digits(one));
        assert(digits_value(one) == c as int - '0' as int);
    }
    let more = s.push(c);
    let body = if s.len() > 0 && s[0] == '+' {
        s.drop_first()
    } else {
        s
    };
    if s.len() > 0 {
        let more_body = if more[0] == '+' {
            more.drop_first()
        } else {
            more
        };
        assert(more_body =~= body.push(c));
        assert(more_body.drop_last() =~= body);
        assert(more_body[more_body.len() - 1] == c);
        if unsigned_value(s) is Some {
            assert(body[body.len() - 1] == s.last());
            assert('0' <= body[body.len() - 1] <= '9');
            if '0' <= c <= '9' {
                assert forall|i: int| 0 <= i < more_body.len() implies '0' <= #[trigger] more_body[i]
                    <= '9' by {
                    if i < body.len() {
                        assert(more_body[i] == body[i]);
                    }
                }
            }
        }
    }
    let plus = seq!['+'] + s;
    assert(plus.drop_first() =~= s);
    assert(seq!['+'].drop_first() =~= Seq::<char>::empty());
}

/// Only the capital letters of ASCII change when letters are made small, each to the same letter.
pub proof fn law_only_capitals_are_made_small(c: char)
    ensures
        'A' <= c <= 'Z' ==> 'a' <= ascii_lower(c) <= 'z' && ascii_lower(c) as int - 'a' as int
            == c as int - 'A' as int,
        !('A' <= c <= 'Z') ==> ascii_lower(c) == c,
{
}

/// Whether `at` are places of `choice`, one behind the other, that hold the characters of `pattern`.
pub open spec fn places_of(choice: Seq<char>, pattern: Seq<char>, at: Seq<int>) -> bool {
    &&& at.len() == pattern.len()
    &&& forall|i: int|
        0 <= i < at.len() ==> 0 <= #[trigger] at[i] < choice.len() && ascii_lower(choice[at[i]])
            == ascii_lower(pattern[i])
    &&& forall|i: int, j: int| 0 <= i < j < at.len() ==> #[trigger] at[i] < #[trigger] at[j]
}

/// A pattern occurs in a text in order just where there are places for all of its characters, one
/// behind the other.
pub proof fn law_patterns_occur_at_places_in_order(choice: Seq<char>, pattern: Seq<char>)
    ensures
        occurs_in_order(choice, pattern) <==> exists|at: Seq<int>| places_of(choice, pattern, at),
{
    if occurs_in_order(choice, pattern) {
        lemma_places_from_order(choice, pattern);
    }
    if exists|at: Seq<int>| places_of(choice, pattern, at) {
        let at = choose|at: Seq<int>| places_of(choice, pattern, at);
        lemma_order_from_places(choice, pattern, at);
    }
}

proof fn lemma_places_from_order(choice: Seq<char>, pattern: Seq<char>)
    requires
        occurs_in_order(choice, pattern),
    ensures
        exists|at: Seq<int>| places_of(choice, pattern, at),
    decreases choice.len(),
{
    if pattern.len() == 0 {
        assert(places_of(choice, pattern, Seq::<int>::empty()));
    } else {
        let rest = choice.drop_first();
        if ascii_lower(choice[0]) == ascii_lower(pattern[0]) {
            let later = pattern.drop_first();
            lemma_places_from_order(rest, later);
            let at = choose|at: Seq<int>| places_of(rest, later, at);
            let all = seq![0int] + at.map_values(|i: int| i + 1);
            assert forall|i: int| 0 <= i < all.len() implies 0 <= #[trigger] all[i] < choice.len()
                && ascii_lower(choice[all[i]]) == ascii_lower(pattern[i]) by {
                if i > 0 {
                    assert(0 <= at[i - 1] < rest.len());
                    assert(rest[at[i - 1]] == choice[all[i]]);
                    assert(later[i - 1] == pattern[i]);
                }
            }
            assert forall|i: int, j: int| 0 <= i < j < all.len() implies #[trigger] all[i]
                < #[trigger] all[j] by {
                assert(0 <= at[j - 1]);
                if i > 0 {
                    assert(at[i - 1] < at[j - 1]);
                }
            }
            assert(places_of(choice, pattern, all));
        } else {
            lemma_places_from_order(rest, pattern);
            let at = choose|at: Seq<int>| places_of(rest, pattern, at);
            let all = at.map_values(|i: int| i + 1);
            assert forall|i: int| 0 <= i < all.len() implies 0 <= #[trigger] all[i] < choice.len()
                && ascii_lower(choice[all[i]]) == ascii_lower(pattern[i]) by {
                assert(0 <= at[i] < rest.len());
                assert(rest[at[i]] == choice[all[i]]);
            }
            assert forall|i: int, j: int| 0 <= i < j < all.len() implies #[trigger] all[i]
                < #[trigger] all[j] by {
                assert(at[i] < at[j]);
            }
            assert(places_of(choice, pattern, all));
        }
    }
}

proof fn lemma_order_from_places(choice: Seq<char>, pattern: Seq<char>, at: Seq<int>)
    requires
        places_of(choice, pattern, at),
    ensures
        occurs_in_order(choice, pattern),
    decreases choice.len(),
{
    if pattern.len() > 0 {
        assert(0 <= at[0] < choice.len());
        let rest = choice.drop_first();
        if ascii_lower(choice[0]) == ascii_lower(pattern[0]) {
            let later = pattern.drop_first();
            let less = at.drop_first().map_values(|i: int| i - 1);
            assert forall|i: int| 0 <= i < less.len() implies 0 <= #[trigger] less[i] < rest.len()
                && ascii_lower(rest[less[i]]) == ascii_lower(later[i]) by {
                assert(at[0] < at[i + 1]);
                assert(rest[less[i]] == choice[at[i + 1]]);
                assert(later[i] == pattern[i + 1]);
            }
            assert forall|i: int, j: int| 0 <= i < j < less.len() implies #[trigger] less[i]
                < #[trigger] less[j] by {
                assert(at[i + 1] < at[j + 1]);
            }
            lemma_order_from_places(rest, later, less);
        } else {
            let less = at.map_values(|i: int| i - 1);
            assert(at[0] != 0);
            assert forall|i: int| 0 <= i < less.len() implies 0 <= #[trigger] less[i] < rest.len()
                && ascii_lower(rest[less[i]]) == ascii_lower(pattern[i]) by {
                if i > 0 {
                    assert(at[0] < at[i]);
                }
                assert(rest[less[i]] == choice[at[i]]);
            }
            assert forall|i: int, j: int| 0 <= i < j < less.len() implies #[trigger] less[i]
                < #[trigger] less[j] by {
                assert(at[i] < at[j]);
            }
            lemma_order_from_places(rest, pattern, less);
        }
    }
}

}

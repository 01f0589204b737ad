//! Text as the server reads and writes it: numbers, JSON string contents, query
//! strings and path pieces.

use vstd::prelude::*;
use vstd::string::*;

verus! {

/// `String::push` appends the given character.
pub assume_specification[ String::push ](text: &mut String, c: char)
    ensures
        final(text)@ == old(text)@.push(c),
;

/// The character that stands for the digit `d`, in base ten or sixteen.
pub open spec fn digit_char(d: int) -> char {
    if d < 10 {
        (d + '0' as int) as char
    } else {
        (d - 10 + 'a' as int) as char
    }
}

/// A natural number in base ten, without leading zeros.
pub open spec fn digits(n: nat) -> Seq<char>
    decreases n,
{
    if n < 10 {
        seq![digit_char(n as int)]
    } else {
        digits(n / 10).push(digit_char((n % 10) as int))
    }
}

/// An integer in base ten, with a minus sign where it is negative.
pub open spec fn decimal(n: int) -> Seq<char> {
    if n < 0 {
        seq!['-'] + digits((-n) as nat)
    } else {
        digits(n as nat)
    }
}

/// `text` with as many zeros before it as bring it up to `width` characters.
pub open spec fn zero_padded(text: Seq<char>, width: nat) -> Seq<char> {
    if text.len() >= width {
        text
    } else {
        Seq::new((width - text.len()) as nat, |i: int| '0') + text
    }
}

/// A byte as two hexadecimal digits.
pub open spec fn hex_byte(b: u8) -> Seq<char> {
    seq![digit_char(b as int / 16), digit_char(b as int % 16)]
}

/// Bytes in hexadecimal, two digits to a byte.
pub open spec fn hex(bytes: Seq<u8>) -> Seq<char>
    decreases bytes.len(),
{
    if bytes.len() == 0 {
        Seq::empty()
    } else {
        hex(bytes.drop_last()) + hex_byte(bytes.last())
    }
}

/// A truth value as JSON writes it.
pub open spec fn truth(b: bool) -> Seq<char> {
    if b {
        "true"@
    } else {
        "false"@
    }
}

/// A truth value as JSON writes it.
pub fn truth_text(b: bool) -> (text: &'static str)
    ensures
        text@ == truth(b),
{
    if b {
        "true"
    } else {
        "false"
    }
}

fn digit(d: u8) -> (c: char)
    requires
        d < 16,
    ensures
        c == digit_char(d as int),
{
    if d < 10 {
        (d + 48) as char
    } else {
        (d - 10 + 97) as char
    }
}

fn push_digits(text: &mut String, n: u128)
    ensures
        final(text)@ == old(text)@ + digits(n as nat),
    decreases n,
{
    if n < 10 {
        text.push(digit(n as u8));
    } else {
        push_digits(text, n / 10);
        text.push(digit((n % 10) as u8));
    }
    assert(text@ =~= old(text)@ + digits(n as nat));
}

/// Appends an integer in base ten.
pub fn push_decimal(text: &mut String, n: i128)
    requires
        n > i128::MIN,
    ensures
        final(text)@ == old(text)@ + decimal(n as int),
{
    if n < 0 {
        text.push('-');
        push_digits(text, (-n) as u128);
        assert(text@ =~= old(text)@ + decimal(n as int));
    } else {
        push_digits(text, n as u128);
    }
}

/// An integer in base ten.
pub fn decimal_text(n: i128) -> (text: String)
    requires
        n > i128::MIN,
    ensures
        text@ == decimal(n as int),
{
    let mut text: String = String::new();
    push_decimal(&mut text, n);
    assert(text@ =~= decimal(n as int));
    text
}

/// A natural number in base ten with leading zeros up to `width` characters.
pub fn padded_text(n: u64, width: usize) -> (text: String)
    ensures
        text@ == zero_padded(digits(n as nat), width as nat),
{
    let number: String = decimal_text(n as i128);
    let len: usize = number.as_str().unicode_len();
    let mut text: String = String::new();
    if len < width {
        for i in 0..(width - len)
            invariant
                text@ == Seq::new(i as nat, |j: int| '0'),
        {
            text.push('0');
            assert(text@ =~= Seq::new((i + 1) as nat, |j: int| '0'));
        }
    }
    text.append(number.as_str());
    assert(text@ =~= zero_padded(digits(n as nat), width as nat));
    text
}

/// Bytes in hexadecimal, two digits to a byte.
pub fn hex_text(bytes: &Vec<u8>) -> (text: String)
    ensures
        text@ == hex(bytes@),
{
    let mut text: String = String::new();
    for i in 0..bytes.len()
        invariant
            text@ == hex(bytes@.take(i as int)),
    {
        text.push(digit(bytes[i] / 16));
        text.push(digit(bytes[i] % 16));
        assert(bytes@.take(i + 1).drop_last() =~= bytes@.take(i as int));
        assert(text@ =~= hex(bytes@.take(i + 1)));
    }
    assert(bytes@.take(bytes@.len() as int) =~= bytes@);
    text
}

/// The characters of `text`.
pub fn chars_of(text: &str) -> (chars: Vec<char>)
    ensures
        chars@ == text@,
{
    let mut chars: Vec<char> = Vec::new();
    for c in it: text.chars()
        invariant
            it.seq() == text@,
            chars@ == text@.take(it.index() as int),
    {
        chars.push(c);
        assert(chars@ =~= text@.take(it.index() + 1));
    }
    assert(chars@ =~= text@);
    chars
}

/// Whether a character is left out of a JSON string.
pub open spec fn is_dropped(c: char) -> bool {
    c == '\x08' || c == '\x0C' || c == '\n' || c == '\r' || c == '\t'
}

/// What a character becomes inside a JSON string.
pub open spec fn sanitized_char(c: char) -> Seq<char> {
    if c == '"' {
        seq!['\\', '"']
    } else if c == '\\' {
        seq!['\\', '\\']
    } else if is_dropped(c) {
        Seq::empty()
    } else {
        seq![c]
    }
}

/// Text as the contents of a JSON string: quotes and backslashes escaped, and
/// the control characters that have an escape of their own left out.
pub open spec fn sanitized(s: Seq<char>) -> Seq<char>
    decreases s.len(),
{
    if s.len() == 0 {
        Seq::empty()
    } else {
        sanitized(s.drop_last()) + sanitized_char(s.last())
    }
}

/// Makes text fit to stand between the quotes of a JSON string.
pub fn sanitize_for_json(s: &str) -> (res: String)
    ensures
        res@ == sanitized(s@),
{
    let mut res: String = String::new();
    for c in it: s.chars()
        invariant
            it.seq() == s@,
            res@ == sanitized(s@.take(it.index() as int)),
    {
        let ghost before = res@;
        if c == '"' {
            res.push('\\');
            res.push('"');
        } else if c == '\\' {
            res.push('\\');
            res.push('\\');
        } else if c == '\x08' || c == '\x0C' || c == '\n' || c == '\r' || c == '\t' {
        } else {
            res.push(c);
        }
        assert(res@ =~= before + sanitized_char(c));
        assert(s@.take(it.index() + 1).drop_last() =~= s@.take(it.index() as int));
    }
    assert(s@.take(s@.len() as int) =~= s@);
    res
}

/// Whether `c` is a digit in base ten.
pub open spec fn is_digit(c: char) -> bool {
    '0' <= c && c <= '9'
}

/// Whether `s` is a number without a sign: one digit or more, and nothing else.
pub open spec fn is_number(s: Seq<char>) -> bool {
    s.len() > 0 && forall|i: int| 0 <= i < s.len() ==> is_digit(#[trigger] s[i])
}

/// The number that digits in base ten stand for.
pub open spec fn number_value(s: Seq<char>) -> int
    decreases s.len(),
{
    if s.len() == 0 {
        0
    } else {
        number_value(s.drop_last()) * 10 + (s.last() as int - '0' as int)
    }
}

/// `s` without a leading `sign`.
pub open spec fn unsigned(s: Seq<char>, sign: char) -> Seq<char> {
    if s.len() > 0 && s[0] == sign {
        s.skip(1)
    } else {
        s
    }
}

/// The number that `s` spells where no minus sign is allowed: an optional plus
/// sign and digits.
pub open spec fn natural_value(s: Seq<char>) -> Option<int> {
    let number = unsigned(s, '+');
    if is_number(number) {
        Some(number_value(number))
    } else {
        None
    }
}

/// The number that `s` spells: an optional sign and digits.
pub open spec fn integer_value(s: Seq<char>) -> Option<int> {
    if s.len() > 0 && s[0] == '-' {
        if is_number(s.skip(1)) {
            Some(-number_value(s.skip(1)))
        } else {
            None
        }
    } else {
        natural_value(s)
    }
}

fn parse_number(chars: &Vec<char>, start: usize, limit: u64) -> (value: Option<u64>)
    requires
        start <= chars@.len(),
        limit <= 0xffff_ffff,
    ensures
        value == (if is_number(chars@.skip(start as int)) && number_value(chars@.skip(start as int))
            <= limit {
            Some(number_value(chars@.skip(start as int)) as u64)
        } else {
            None
        }),
{
    let ghost number = chars@.skip(start as int);
    if start == chars.len() {
        return None;
    }
    let mut total: u64 = 0;
    let mut fits: bool = true;
    for i in start..chars.len()
        invariant
            start < chars@.len(),
            limit <= 0xffff_ffff,
            number == chars@.skip(start as int),
            forall|j: int| 0 <= j < i - start ==> is_digit(#[trigger] number[j]),
            fits <==> number_value(number.take(i - start)) <= limit,
            fits ==> total == number_value(number.take(i - start)),
    {
        let c: char = chars[i];
        assert(number[i - start] == c);
        if !(c >= '0' && c <= '9') {
            return None;
        }
        assert(number.take(i - start + 1).drop_last() =~= number.take(i - start));
        if fits {
            total = total * 10 + (c as u64 - 48);
            fits = total <= limit;
        }
    }
    assert(number.take(chars@.len() - start) =~= number);
    if fits {
        Some(total)
    } else {
        None
    }
}

/// Reads a `u32` as `str::parse` does: an optional plus sign, then digits only.
pub fn parse_u32(text: &str) -> (value: Option<u32>)
    ensures
        value == (match natural_value(text@) {
            Some(n) if n <= u32::MAX => Some(n as u32),
            _ => None,
        }),
{
    let chars: Vec<char> = chars_of(text);
    let start: usize = if chars.len() > 0 && chars[0] == '+' {
        1
    } else {
        0
    };
    assert(chars@.skip(start as int) =~= unsigned(text@, '+'));
    proof {
        lemma_number_value_nonnegative(unsigned(text@, '+'));
    }
    match parse_number(&chars, start, 0xffff_ffff) {
        Some(n) => Some(n as u32),
        None => None,
    }
}

/// Reads an `i32` as `str::parse` does: an optional sign, then digits only.
pub fn parse_i32(text: &str) -> (value: Option<i32>)
    ensures
        value == (match integer_value(text@) {
            Some(n) if i32::MIN <= n <= i32::MAX => Some(n as i32),
            _ => None,
        }),
{
    let chars: Vec<char> = chars_of(text);
    if chars.len() > 0 && chars[0] == '-' {
        proof {
            lemma_number_value_nonnegative(text@.skip(1));
        }
        match parse_number(&chars, 1, 0x8000_0000) {
            Some(n) => Some((-(n as i64)) as i32),
            None => None,
        }
    } else {
        let start: usize = if chars.len() > 0 && chars[0] == '+' {
            1
        } else {
            0
        };
        assert(chars@.skip(start as int) =~= unsigned(text@, '+'));
        proof {
            lemma_number_value_nonnegative(unsigned(text@, '+'));
        }
        match parse_number(&chars, start, 0x7fff_ffff) {
            Some(n) => Some(n as i32),
            None => None,
        }
    }
}

pub(crate) proof fn lemma_number_value_nonnegative(s: Seq<char>)
    ensures
        is_number(s) ==> number_value(s) >= 0,
        s.len() == 0 ==> number_value(s) == 0,
    decreases s.len(),
{
    if s.len() > 0 {
        lemma_number_value_nonnegative(s.drop_last());
        if is_number(s) {
            assert(is_digit(s[s.len() - 1]));
            if s.len() > 1 {
                assert forall|i: int| 0 <= i < s.drop_last().len() implies is_digit(
                    #[trigger] s.drop_last()[i],
                ) by {
                    assert(s.drop_last()[i] == s[i]);
                }
            }
        }
    }
}

/// Whether `s` starts with `prefix`.
pub open spec fn has_prefix(s: Seq<char>, prefix: Seq<char>) -> bool {
    prefix.len() <= s.len() && s.take(prefix.len() as int) == prefix
}

/// Whether `s` ends with `suffix`.
pub open spec fn has_suffix(s: Seq<char>, suffix: Seq<char>) -> bool {
    suffix.len() <= s.len() && s.skip(s.len() - suffix.len()) == suffix
}

fn matches_at(chars: &Vec<char>, at: usize, pattern: &Vec<char>) -> (same: bool)
    requires
        at + pattern@.len() <= chars@.len(),
    ensures
        same == (chars@.subrange(at as int, at + pattern@.len()) == pattern@),
{
    let len: usize = chars.len();
    for i in 0..pattern.len()
        invariant
            len == chars@.len(),
            at + pattern@.len() <= chars@.len(),
            forall|j: int| 0 <= j < i ==> chars@[at + j] == #[trigger] pattern@[j],
    {
        if chars[at + i] != pattern[i] {
            assert(chars@.subrange(at as int, at + pattern@.len())[i as int] != pattern@[i as int]);
            return false;
        }
    }
    assert(chars@.subrange(at as int, at + pattern@.len()) =~= pattern@);
    true
}

/// What follows `prefix` in `text`, if `text` starts with it.
pub fn strip_prefix<'a>(text: &'a str, prefix: &str) -> (rest: Option<&'a str>)
    ensures
        match rest {
            Some(r) => has_prefix(text@, prefix@) && r@ == text@.skip(prefix@.len() as int),
            None => !has_prefix(text@, prefix@),
        },
{
    let chars: Vec<char> = chars_of(text);
    let pattern: Vec<char> = chars_of(prefix);
    if pattern.len() <= chars.len() && matches_at(&chars, 0, &pattern) {
        assert(text@.skip(prefix@.len() as int) =~= text@.subrange(
            prefix@.len() as int,
            text@.len() as int,
        ));
        Some(text.substring_char(pattern.len(), chars.len()))
    } else {
        None
    }
}

/// What precedes `suffix` in `text`, if `text` ends with it.
pub fn strip_suffix<'a>(text: &'a str, suffix: &str) -> (rest: Option<&'a str>)
    ensures
        match rest {
            Some(r) => has_suffix(text@, suffix@) && r@ == text@.take(
                text@.len() - suffix@.len(),
            ),
            None => !has_suffix(text@, suffix@),
        },
{
    let chars: Vec<char> = chars_of(text);
    let pattern: Vec<char> = chars_of(suffix);
    if pattern.len() <= chars.len() && matches_at(&chars, chars.len() - pattern.len(), &pattern) {
        Some(text.substring_char(0, chars.len() - pattern.len()))
    } else {
        None
    }
}

/// Whether two texts are the same.
pub fn same_text(a: &str, b: &str) -> (same: bool)
    ensures
        same == (a@ == b@),
{
    a.to_owned() == b.to_owned()
}

/// Where the first `separator` in `s` stands, or the length of `s` where there
/// is none.
pub open spec fn piece_end(s: Seq<char>, separator: char) -> int
    decreases s.len(),
{
    if s.len() == 0 || s[0] == separator {
        0
    } else {
        1 + piece_end(s.skip(1), separator)
    }
}

proof fn lemma_piece_end(s: Seq<char>, separator: char)
    ensures
        0 <= piece_end(s, separator) <= s.len(),
        piece_end(s, separator) < s.len() ==> s[piece_end(s, separator)] == separator,
        forall|i: int| 0 <= i < piece_end(s, separator) ==> s[i] != separator,
    decreases s.len(),
{
    if s.len() > 0 && s[0] != separator {
        lemma_piece_end(s.skip(1), separator);
        assert forall|i: int| 0 <= i < piece_end(s, separator) implies s[i] != separator by {
            if i > 0 {
                assert(s[i] == s.skip(1)[i - 1]);
            }
        }
    }
}

pub(crate) proof fn lemma_piece_end_is(s: Seq<char>, separator: char, end: int)
    requires
        0 <= end <= s.len(),
        end < s.len() ==> s[end] == separator,
        forall|i: int| 0 <= i < end ==> s[i] != separator,
    ensures
        piece_end(s, separator) == end,
{
    lemma_piece_end(s, separator);
}

fn find_char(chars: &Vec<char>, start: usize, separator: char) -> (end: usize)
    requires
        start <= chars@.len(),
    ensures
        start <= end <= chars@.len(),
        end - start == piece_end(chars@.skip(start as int), separator),
{
    let mut end: usize = start;
    while end < chars.len() && chars[end] != separator
        invariant
            start <= end <= chars@.len(),
            forall|i: int| start <= i < end ==> chars@[i] != separator,
        decreases chars@.len() - end,
    {
        end += 1;
    }
    proof {
        lemma_piece_end_is(chars@.skip(start as int), separator, end - start);
    }
    end
}

/// Splits text at the first `separator`: what precedes it and, where there is
/// one, what follows it.
pub fn split_piece<'a>(text: &'a str, separator: char) -> (pieces: (&'a str, Option<&'a str>))
    ensures
        pieces.0@ == text@.take(piece_end(text@, separator)),
        match pieces.1 {
            Some(rest) => piece_end(text@, separator) < text@.len() && rest@ == text@.skip(
                piece_end(text@, separator) + 1,
            ),
            None => piece_end(text@, separator) == text@.len(),
        },
{
    let chars: Vec<char> = chars_of(text);
    let end: usize = find_char(&chars, 0, separator);
    assert(text@.skip(0) =~= text@);
    let piece: &'a str = text.substring_char(0, end);
    assert(piece@ =~= text@.take(end as int));
    if end < chars.len() {
        let rest: &'a str = text.substring_char(end + 1, chars.len());
        assert(rest@ =~= text@.skip(end + 1));
        (piece, Some(rest))
    } else {
        (piece, None)
    }
}

/// The value of the first `name=value` pair of a query string that has the
/// given name. The pairs are separated by `&`.
pub open spec fn param_value(query: Seq<char>, name: Seq<char>) -> Option<Seq<char>>
    decreases query.len(),
    via param_value_decreases
{
    let end = piece_end(query, '&');
    let pair = query.take(end);
    let head = name.push('=');
    if has_prefix(pair, head) {
        Some(pair.skip(head.len() as int))
    } else if end < query.len() {
        param_value(query.skip(end + 1), name)
    } else {
        None
    }
}

#[via_fn]
proof fn param_value_decreases(query: Seq<char>, name: Seq<char>) {
    lemma_piece_end(query, '&');
}

/// A query parameter.
pub fn query_param<'a>(query: Option<&'a str>, name: &str) -> (value: Option<&'a str>)
    ensures
        match (query, value) {
            (None, _) => value is None,
            (Some(q), Some(v)) => param_value(q@, name@) == Some(v@),
            (Some(q), None) => param_value(q@, name@) is None,
        },
{
    let text: &'a str = match query {
        Some(text) => text,
        None => return None,
    };
    let chars: Vec<char> = chars_of(text);
    let mut head: Vec<char> = chars_of(name);
    head.push('=');
    let mut start: usize = 0;
    assert(text@.skip(0) =~= text@);
    loop
        invariant
            chars@ == text@,
            head@ == name@.push('='),
            start <= chars@.len(),
            param_value(text@, name@) == param_value(text@.skip(start as int), name@),
            query == Some(text),
        decreases chars@.len() - start,
    {
        let end: usize = find_char(&chars, start, '&');
        let ghost rest = text@.skip(start as int);
        let ghost pair = rest.take(end - start);
        if end - start >= head.len() && matches_at(&chars, start, &head) {
            assert(pair.take(head@.len() as int) =~= chars@.subrange(
                start as int,
                start + head@.len(),
            ));
            let value: &'a str = text.substring_char(start + head.len(), end);
            assert(value@ =~= pair.skip(head@.len() as int));
            return Some(value);
        }
        proof {
            if end - start >= head@.len() {
                assert(pair.take(head@.len() as int) =~= chars@.subrange(
                    start as int,
                    start + head@.len(),
                ));
            }
        }
        if end == chars.len() {
            return None;
        }
        assert(rest.skip(end - start + 1) =~= text@.skip(end + 1));
        start = end + 1;
    }
}

proof fn lemma_digits(n: nat)
    ensures
        is_number(digits(n)),
        number_value(digits(n)) == n,
    decreases n,
{
    reveal_with_fuel(number_value, 3);
    if n < 10 {
        let s = digits(n);
        assert(s.drop_last() =~= Seq::<char>::empty());
        assert(s.last() == digit_char(n as int));
    } else {
        lemma_digits(n / 10);
        let s = digits(n);
        assert(s.drop_last() =~= digits(n / 10));
        assert forall|i: int| 0 <= i < s.len() implies is_digit(#[trigger] s[i]) by {
            if i < s.len() - 1 {
                assert(s[i] == digits(n / 10)[i]);
            }
        }
    }
}

/// A number that is written out and read back is the same number.
pub proof fn law_decimal_reads_back(n: int)
    ensures
        integer_value(decimal(n)) == Some(n),
        n >= 0 ==> natural_value(decimal(n)) == Some(n),
{
    if n < 0 {
        lemma_digits((-n) as nat);
        assert(decimal(n).skip(1) =~= digits((-n) as nat));
    } else {
        lemma_digits(n as nat);
        assert(is_digit(digits(n as nat)[0]));
        assert(unsigned(digits(n as nat), '+') == digits(n as nat));
    }
}

proof fn lemma_leading_zeros(k: nat, s: Seq<char>)
    requires
        is_number(s),
    ensures
        number_value(Seq::new(k, |i: int| '0') + s) == number_value(s),
    decreases s.len(), k,
{
    let zeros = Seq::new(k, |i: int| '0');
    let all = zeros + s;
    reveal_with_fuel(number_value, 2);
    if s.len() > 1 {
        assert forall|i: int| 0 <= i < s.drop_last().len() implies is_digit(
            #[trigger] s.drop_last()[i],
        ) by {
            assert(s.drop_last()[i] == s[i]);
        }
        lemma_leading_zeros(k, s.drop_last());
        assert(all.drop_last() =~= zeros + s.drop_last());
    } else {
        assert(all.drop_last() =~= zeros);
        lemma_only_zeros(k);
        assert(s.drop_last() =~= Seq::<char>::empty());
    }
}

proof fn lemma_only_zeros(k: nat)
    ensures
        number_value(Seq::new(k, |i: int| '0')) == 0,
    decreases k,
{
    if k > 0 {
        lemma_only_zeros((k - 1) as nat);
        assert(Seq::new(k, |i: int| '0').drop_last() =~= Seq::new((k - 1) as nat, |i: int| '0'));
    }
}

/// Padding with zeros keeps the number that digits stand for, so padded numbers
/// are told apart as the numbers are.
pub proof fn law_padding_keeps_the_number(n: nat, width: nat)
    ensures
        number_value(zero_padded(digits(n), width)) == n,
{
    lemma_digits(n);
    if digits(n).len() < width {
        lemma_leading_zeros((width - digits(n).len()) as nat, digits(n));
    }
}

/// Reads the contents of a JSON string: an escaped quote or backslash stands
/// for itself. `None` where a quote or a backslash stands alone, or where one of
/// the characters occurs that `is_dropped` names.
pub open spec fn unescaped(t: Seq<char>) -> Option<Seq<char>>
    decreases t.len(),
{
    if t.len() == 0 {
        Some(Seq::empty())
    } else if t[0] == '\\' {
        if t.len() >= 2 && (t[1] == '"' || t[1] == '\\') {
            match unescaped(t.skip(2)) {
                Some(s) => Some(seq![t[1]] + s),
                None => None,
            }
        } else {
            None
        }
    } else if t[0] == '"' || is_dropped(t[0]) {
        None
    } else {
        match unescaped(t.skip(1)) {
            Some(s) => Some(seq![t[0]] + s),
            None => None,
        }
    }
}

proof fn lemma_sanitized_first(s: Seq<char>)
    requires
        s.len() > 0,
    ensures
        sanitized(s) == sanitized_char(s[0]) + sanitized(s.skip(1)),
    decreases s.len(),
{
    reveal_with_fuel(sanitized, 2);
    if s.len() == 1 {
        assert(s.drop_last() =~= Seq::empty());
        assert(s.skip(1) =~= Seq::empty());
        assert(sanitized(s) =~= sanitized_char(s[0]) + sanitized(s.skip(1)));
    } else {
        lemma_sanitized_first(s.drop_last());
        assert(s.drop_last().skip(1) =~= s.skip(1).drop_last());
        assert(sanitized(s) =~= sanitized_char(s[0]) + sanitized(s.skip(1)));
    }
}

/// No quote or backslash of sanitized text stands alone, so it cannot end the
/// JSON string it is put in, and it reads back as the text without the
/// characters that are left out.
pub proof fn law_sanitized_text_reads_back(s: Seq<char>)
    ensures
        unescaped(sanitized(s)) == Some(s.filter(|c: char| !is_dropped(c))),
    decreases s.len(),
{
    let kept = |c: char| !is_dropped(c);
    if s.len() == 0 {
        reveal(Seq::filter);
        assert(s.filter(kept) =~= Seq::empty());
    } else {
        let first = seq![s[0]];
        let rest = s.skip(1);
        law_sanitized_text_reads_back(rest);
        lemma_sanitized_first(s);
        Seq::filter_distributes_over_add(first, rest, kept);
        assert(s =~= first + rest);
        assert(first.filter(kept) =~= if is_dropped(s[0]) {
            Seq::empty()
        } else {
            first
        }) by {
            reveal(Seq::filter);
            assert(first.drop_last() =~= Seq::empty());
            assert(first.drop_last().filter(kept) =~= Seq::empty());
        }
        let t = sanitized(s);
        if s[0] == '"' || s[0] == '\\' {
            assert(t.skip(2) =~= sanitized(rest));
        } else if is_dropped(s[0]) {
            assert(t =~= sanitized(rest));
            assert(s.filter(kept) =~= rest.filter(kept));
        } else {
            assert(t.skip(1) =~= sanitized(rest));
        }
    }
}

/// The value of a hexadecimal digit.
pub open spec fn hex_value(c: char) -> int {
    if is_digit(c) {
        c as int - '0' as int
    } else if 'a' <= c <= 'f' {
        c as int - 'a' as int + 10
    } else {
        -1
    }
}

/// Bytes that are written in hexadecimal read back, two digits to a byte and the
/// more significant one first.
pub proof fn law_hexadecimal_reads_back(bytes: Seq<u8>, i: int)
    requires
        0 <= i < bytes.len(),
    ensures
        hex(bytes).len() == 2 * bytes.len(),
        0 <= hex_value(hex(bytes)[2 * i]) < 16,
        0 <= hex_value(hex(bytes)[2 * i + 1]) < 16,
        bytes[i] == hex_value(hex(bytes)[2 * i]) * 16 + hex_value(hex(bytes)[2 * i + 1]),
    decreases bytes.len(),
{
    let front = bytes.drop_last();
    lemma_hex_len(bytes);
    lemma_hex_len(front);
    if i < front.len() {
        law_hexadecimal_reads_back(front, i);
        assert(hex(bytes)[2 * i] == hex(front)[2 * i]);
        assert(hex(bytes)[2 * i + 1] == hex(front)[2 * i + 1]);
    } else {
        let b = bytes.last() as int;
        assert(hex(bytes)[2 * i] == digit_char(b / 16));
        assert(hex(bytes)[2 * i + 1] == digit_char(b % 16));
    }
}

proof fn lemma_hex_len(bytes: Seq<u8>)
    ensures
        hex(bytes).len() == 2 * bytes.len(),
    decreases bytes.len(),
{
    if bytes.len() > 0 {
        lemma_hex_len(bytes.drop_last());
    }
}

/// Only a number is read as one: a text that is nothing but a sign, or holds
/// anything but digits behind it, is none.
pub proof fn law_only_numbers_are_read(s: Seq<char>)
    ensures
        natural_value(s) is Some <==> {
            let from: int = if s.len() > 0 && s[0] == '+' {
                1
            } else {
                0
            };
            s.len() > from && forall|i: int| from <= i < s.len() ==> '0' <= #[trigger] s[i] <= '9'
        },
        integer_value(s) is Some <==> {
            let from: int = if s.len() > 0 && (s[0] == '+' || s[0] == '-') {
                1
            } else {
                0
            };
            s.len() > from && forall|i: int| from <= i < s.len() ==> '0' <= #[trigger] s[i] <= '9'
        },
        natural_value(s) is Some ==> integer_value(s) == natural_value(s),
        s.len() > 0 && s[0] == '-' && natural_value(s.skip(1)) is Some && s[1] != '+'
            ==> integer_value(s) == Some(-natural_value(s.skip(1))->0),
{
    if s.len() > 0 {
        let rest = s.skip(1);
        if is_number(rest) {
            assert forall|i: int| 1 <= i < s.len() implies '0' <= #[trigger] s[i] <= '9' by {
                assert(is_digit(rest[i - 1]));
            }
        }
        if s.len() > 1 && (forall|i: int| 1 <= i < s.len() ==> '0' <= #[trigger] s[i] <= '9') {
            assert forall|i: int| 0 <= i < rest.len() implies is_digit(#[trigger] rest[i]) by {
                assert('0' <= s[i + 1] <= '9');
            }
        }
        if is_number(s) {
            assert(is_digit(s[0]));
        }
    }
}

/// A query gives the value of the first of its pairs that has the name: all that
/// stands behind the equals sign of that pair. `pair` is the first pair of the
/// query and `rest` what follows it.
pub proof fn law_the_first_parameter_counts(
    pair: Seq<char>,
    rest: Seq<char>,
    name: Seq<char>,
    value: Seq<char>,
)
    requires
        forall|i: int| 0 <= i < pair.len() ==> pair[i] != '&',
    ensures
        pair == name + seq!['='] + value ==> param_value(pair, name) == Some(value)
            && param_value(pair + seq!['&'] + rest, name) == Some(value),
        !has_prefix(pair, name + seq!['=']) ==> param_value(pair, name) is None && param_value(
            pair + seq!['&'] + rest,
            name,
        ) == param_value(rest, name),
{
    let query = pair + seq!['&'] + rest;
    let head = name.push('=');
    assert(head =~= name + seq!['=']);
    lemma_piece_end_is(pair, '&', pair.len() as int);
    lemma_piece_end_is(query, '&', pair.len() as int);
    assert(pair.take(pair.len() as int) =~= pair);
    assert(query.take(pair.len() as int) =~= pair);
    assert(query.skip(pair.len() as int + 1) =~= rest);
    if pair == name + seq!['='] + value {
        assert(pair.take(head.len() as int) =~= head);
        assert(pair.skip(head.len() as int) =~= value);
    }
}

/// The characters that are left out of JSON strings are the backspace, the tab, the
/// line feed, the form feed and the carriage return, and no others.
pub proof fn law_which_characters_are_left_out(c: char)
    ensures
        is_dropped(c) <==> c as int == 8 || c as int == 9 || c as int == 10 || c as int == 12
            || c as int == 13,
{
}

/// A number is written without leading zeros.
pub proof fn law_numbers_have_no_leading_zeros(n: nat)
    ensures
        digits(n).len() > 0,
        digits(n)[0] == '0' ==> n == 0 && digits(n).len() == 1,
    decreases n,
{
    if n >= 10 {
        law_numbers_have_no_leading_zeros(n / 10);
        assert(digits(n)[0] == digits(n / 10)[0]);
    }
}

/// Padding adds nothing but zeros in front, and no more than bring a text up to
/// the width.
pub proof fn law_padding_only_adds_zeros(text: Seq<char>, width: nat, i: int)
    ensures
        ({
            let padded = zero_padded(text, width);
            let added = padded.len() - text.len();
            &&& padded.len() == if text.len() < width {
                width
            } else {
                text.len()
            }
            &&& 0 <= i < added ==> padded[i] == '0'
            &&& added <= i < padded.len() ==> padded[i] == text[i - added]
        }),
{
}

} // verus!

//! Text building blocks: rendering numbers and byte lists, trimming, splitting and ordering.
//!
//! Text is modelled as a sequence of characters. The rendering functions append to a `String`;
//! the reading functions work on a vector of characters.
use vstd::prelude::*;

verus! {

/// Trusted: `String::push` appends exactly the given character to the end of the string.
pub assume_specification[ String::push ](s: &mut String, c: char)
    ensures
        final(s)@ == old(s)@.push(c),
;

/// How `str`'s `Debug` renders a text: quoted, with the escapes of `str::escape_debug`.
pub uninterp spec fn debug_quoted(text: Seq<char>) -> Seq<char>;

/// Trusted: the `{:?}` rendering of a `str` through `format!`. The result is a function of the
/// text alone; which characters are escaped, and how, is left to [`debug_quoted`].
#[verifier::external_body]
pub(crate) fn quoted(text: &str) -> (r: String)
    ensures
        r@ == debug_quoted(text@),
{
    format!("{:?}", text)
}

/// The text that `String::from_utf8_lossy` decodes from bytes.
pub uninterp spec fn utf8_lossy(bytes: Seq<u8>) -> Seq<char>;

/// Trusted: `String::from_utf8_lossy` decodes bytes, replacing what is not UTF-8. The result is a
/// function of the bytes alone; the decoding itself is left to [`utf8_lossy`].
#[verifier::external_body]
pub(crate) fn decoded_lossy(bytes: &[u8]) -> (r: String)
    ensures
        r@ == utf8_lossy(bytes@),
{
    String::from_utf8_lossy(bytes).into_owned()
}

// ---------------------------------------------------------------------------------------------
// Rendering
// ---------------------------------------------------------------------------------------------

/// The lower-case character of a digit below sixteen.
pub open spec fn digit_char(d: int) -> char {
    if d == 0 {
        '0'
    } else if d == 1 {
        '1'
    } else if d == 2 {
        '2'
    } else if d == 3 {
        '3'
    } else if d == 4 {
        '4'
    } else if d == 5 {
        '5'
    } else if d == 6 {
        '6'
    } else if d == 7 {
        '7'
    } else if d == 8 {
        '8'
    } else if d == 9 {
        '9'
    } else if d == 10 {
        'a'
    } else if d == 11 {
        'b'
    } else if d == 12 {
        'c'
    } else if d == 13 {
        'd'
    } else if d == 14 {
        'e'
    } else {
        'f'
    }
}

/// The decimal rendering of a natural number, without leading zeros.
pub open spec fn decimal(n: nat) -> Seq<char>
    decreases n,
{
    if n < 10 {
        seq![digit_char(n as int)]
    } else {
        decimal(n / 10).push(digit_char((n % 10) as int))
    }
}

/// The decimal rendering of an integer, with a leading `-` where it is negative.
pub open spec fn signed_decimal(n: int) -> Seq<char> {
    if n < 0 {
        seq!['-'] + decimal((-n) as nat)
    } else {
        decimal(n as nat)
    }
}

/// The low `width` hexadecimal digits of a number, most significant first.
pub open spec fn hex_digits(n: nat, width: nat) -> Seq<char>
    decreases width,
{
    if width == 0 {
        seq![]
    } else {
        hex_digits(n / 16, (width - 1) as nat).push(digit_char((n % 16) as int))
    }
}

/// The hexadecimal rendering of a natural number, without leading zeros.
pub open spec fn hexadecimal(n: nat) -> Seq<char>
    decreases n,
{
    if n < 16 {
        seq![digit_char(n as int)]
    } else {
        hexadecimal(n / 16).push(digit_char((n % 16) as int))
    }
}

/// Texts joined by a separator.
pub open spec fn joined(list: Seq<Seq<char>>, separator: Seq<char>) -> Seq<char>
    decreases list.len(),
{
    if list.len() == 0 {
        seq![]
    } else if list.len() == 1 {
        list[0]
    } else {
        joined(list.drop_last(), separator) + separator + list.last()
    }
}

/// The views of a list of texts.
pub open spec fn texts(list: Seq<String>) -> Seq<Seq<char>> {
    Seq::new(list.len(), |i: int| list[i]@)
}

/// Decimal numbers joined by a separator.
pub open spec fn decimal_list(bytes: Seq<u8>, separator: Seq<char>) -> Seq<char>
    decreases bytes.len(),
{
    if bytes.len() == 0 {
        seq![]
    } else if bytes.len() == 1 {
        decimal(bytes[0] as nat)
    } else {
        decimal_list(bytes.drop_last(), separator) + separator + decimal(bytes.last() as nat)
    }
}

/// Two-digit hexadecimal numbers joined by `, `.
pub open spec fn hex_list(bytes: Seq<u8>) -> Seq<char>
    decreases bytes.len(),
{
    if bytes.len() == 0 {
        seq![]
    } else if bytes.len() == 1 {
        hex_digits(bytes[0] as nat, 2)
    } else {
        hex_list(bytes.drop_last()) + ", "@ + hex_digits(bytes.last() as nat, 2)
    }
}

fn digit(d: u8) -> (c: char)
    requires
        d < 16,
    ensures
        c == digit_char(d as int),
{
    match d {
        0 => '0',
        1 => '1',
        2 => '2',
        3 => '3',
        4 => '4',
        5 => '5',
        6 => '6',
        7 => '7',
        8 => '8',
        9 => '9',
        10 => 'a',
        11 => 'b',
        12 => 'c',
        13 => 'd',
        14 => 'e',
        _ => 'f',
    }
}

/// Appends the decimal rendering of `n`.
pub fn push_decimal(s: &mut String, n: u64)
    ensures
        final(s)@ == old(s)@ + decimal(n as nat),
    decreases n,
{
    if n < 10 {
        s.push(digit(n as u8));
        assert(s@ =~= old(s)@ + decimal(n as nat));
    } else {
        push_decimal(s, n / 10);
        s.push(digit((n % 10) as u8));
        assert(s@ =~= old(s)@ + decimal(n as nat));
    }
}

/// Appends the decimal rendering of `n`, with its sign where it is negative.
pub fn push_signed_decimal(s: &mut String, n: i64)
    ensures
        final(s)@ == old(s)@ + signed_decimal(n as int),
{
    if n < 0 {
        s.push('-');
        if n == i64::MIN {
            push_decimal(s, 9_223_372_036_854_775_808u64);
        } else {
            push_decimal(s, (-n) as u64);
        }
        assert(s@ =~= old(s)@ + signed_decimal(n as int));
    } else {
        push_decimal(s, n as u64);
    }
}

/// Appends the low `width` hexadecimal digits of `n`.
pub fn push_hex(s: &mut String, n: u128, width: usize)
    ensures
        final(s)@ == old(s)@ + hex_digits(n as nat, width as nat),
    decreases width,
{
    if width > 0 {
        push_hex(s, n / 16, width - 1);
        s.push(digit((n % 16) as u8));
    }
    assert(s@ =~= old(s)@ + hex_digits(n as nat, width as nat));
}

/// Appends the hexadecimal rendering of `n`, without leading zeros.
pub fn push_hexadecimal(s: &mut String, n: u64)
    ensures
        final(s)@ == old(s)@ + hexadecimal(n as nat),
    decreases n,
{
    if n < 16 {
        s.push(digit(n as u8));
        assert(s@ =~= old(s)@ + hexadecimal(n as nat));
    } else {
        push_hexadecimal(s, n / 16);
        s.push(digit((n % 16) as u8));
        assert(s@ =~= old(s)@ + hexadecimal(n as nat));
    }
}

/// Appends the texts, with `separator` between them.
pub fn push_joined(s: &mut String, list: &Vec<String>, separator: &str)
    ensures
        final(s)@ == old(s)@ + joined(texts(list@), separator@),
{
    let ghost before = s@;
    let ghost views = texts(list@);
    let mut i: usize = 0;
    while i < list.len()
        invariant
            i <= list@.len(),
            views == texts(list@),
            s@ == before + joined(views.take(i as int), separator@),
        decreases list@.len() - i,
    {
        let ghost taken = views.take(i as int + 1);
        assert(taken.drop_last() =~= views.take(i as int));
        if i > 0 {
            s.append(separator);
        }
        s.append(list[i].as_str());
        assert(s@ =~= before + joined(taken, separator@));
        i = i + 1;
    }
    assert(views.take(i as int) =~= views);
}

/// Appends the numbers in decimal, with `separator` between them.
pub fn push_decimal_list(s: &mut String, bytes: &[u8], separator: &str)
    ensures
        final(s)@ == old(s)@ + decimal_list(bytes@, separator@),
{
    let ghost before = s@;
    let mut i: usize = 0;
    while i < bytes.len()
        invariant
            i <= bytes@.len(),
            s@ == before + decimal_list(bytes@.take(i as int), separator@),
        decreases bytes@.len() - i,
    {
        let ghost taken = bytes@.take(i as int + 1);
        assert(taken.drop_last() =~= bytes@.take(i as int));
        if i > 0 {
            s.append(separator);
        }
        push_decimal(s, bytes[i] as u64);
        assert(s@ =~= before + decimal_list(taken, separator@));
        i = i + 1;
    }
    assert(bytes@.take(i as int) =~= bytes@);
}

/// Appends the numbers as two hexadecimal digits each, with `, ` between them.
pub fn push_hex_list(s: &mut String, bytes: &[u8])
    ensures
        final(s)@ == old(s)@ + hex_list(bytes@),
{
    let ghost before = s@;
    let mut i: usize = 0;
    while i < bytes.len()
        invariant
            i <= bytes@.len(),
            s@ == before + hex_list(bytes@.take(i as int)),
        decreases bytes@.len() - i,
    {
        let ghost taken = bytes@.take(i as int + 1);
        assert(taken.drop_last() =~= bytes@.take(i as int));
        if i > 0 {
            s.append(", ");
        }
        push_hex(s, bytes[i] as u128, 2);
        assert(s@ =~= before + hex_list(taken));
        i = i + 1;
    }
    assert(bytes@.take(i as int) =~= bytes@);
}

// ---------------------------------------------------------------------------------------------
// Reading
// ---------------------------------------------------------------------------------------------

/// The characters of a text.
pub fn chars_of(s: &str) -> (r: Vec<char>)
    ensures
        r@ == s@,
{
    let mut r: Vec<char> = Vec::new();
    for c in iter: s.chars()
        invariant
            r@ == iter.seq().take(iter.index() as int),
            iter.seq() == s@,
    {
        r.push(c);
        assert(r@ =~= iter.seq().take(iter.index() as int + 1));
    }
    r
}

/// The text of characters.
pub fn text_of(chars: &[char]) -> (r: String)
    ensures
        r@ == chars@,
{
    let mut s: String = "".to_owned();
    proof {
        reveal_strlit("");
    }
    let mut i: usize = 0;
    assert(s@ =~= chars@.take(0));
    while i < chars.len()
        invariant
            i <= chars@.len(),
            s@ == chars@.take(i as int),
        decreases chars@.len() - i,
    {
        s.push(chars[i]);
        i = i + 1;
        assert(s@ =~= chars@.take(i as int));
    }
    assert(chars@.take(i as int) =~= chars@);
    s
}

/// The characters with Unicode's `White_Space` property.
pub open spec fn white_space(c: char) -> bool {
    ||| '\u{9}' <= c <= '\u{d}'
    ||| c == ' '
    ||| c == '\u{85}'
    ||| c == '\u{a0}'
    ||| c == '\u{1680}'
    ||| '\u{2000}' <= c <= '\u{200a}'
    ||| c == '\u{2028}'
    ||| c == '\u{2029}'
    ||| c == '\u{202f}'
    ||| c == '\u{205f}'
    ||| c == '\u{3000}'
}

/// Whether `c` has Unicode's `White_Space` property.
pub fn is_white_space(c: char) -> (r: bool)
    ensures
        r == white_space(c),
{
    ('\u{9}' <= c && c <= '\u{d}') || c == ' ' || c == '\u{85}' || c == '\u{a0}' || c == '\u{1680}'
        || ('\u{2000}' <= c && c <= '\u{200a}') || c == '\u{2028}' || c == '\u{2029}' || c
        == '\u{202f}' || c == '\u{205f}' || c == '\u{3000}'
}

/// A text without the white space that it starts with.
pub open spec fn trimmed_start(s: Seq<char>) -> Seq<char>
    decreases s.len(),
{
    if s.len() > 0 && white_space(s[0]) {
        trimmed_start(s.skip(1))
    } else {
        s
    }
}

/// A text without the white space that it ends with.
pub open spec fn trimmed_end(s: Seq<char>) -> Seq<char>
    decreases s.len(),
{
    if s.len() > 0 && white_space(s.last()) {
        trimmed_end(s.drop_last())
    } else {
        s
    }
}

/// A text without the white space at its two ends.
pub open spec fn trimmed(s: Seq<char>) -> Seq<char> {
    trimmed_end(trimmed_start(s))
}

/// Copies the characters from `from` up to `to`.
pub(crate) fn copy_range(s: &[char], from: usize, to: usize) -> (r: Vec<char>)
    requires
        from <= to <= s@.len(),
    ensures
        r@ == s@.subrange(from as int, to as int),
{
    let mut r: Vec<char> = Vec::new();
    let mut i: usize = from;
    while i < to
        invariant
            from <= i <= to <= s@.len(),
            r@ == s@.subrange(from as int, i as int),
        decreases to - i,
    {
        r.push(s[i]);
        i = i + 1;
        assert(r@ =~= s@.subrange(from as int, i as int));
    }
    r
}

/// The text without the white space at its two ends.
pub fn trim(s: &[char]) -> (r: Vec<char>)
    ensures
        r@ == trimmed(s@),
{
    let mut from: usize = 0;
    assert(s@.skip(0) =~= s@);
    while from < s.len() && is_white_space(s[from])
        invariant
            from <= s@.len(),
            trimmed_start(s@) == trimmed_start(s@.skip(from as int)),
        decreases s@.len() - from,
    {
        assert(s@.skip(from as int).skip(1) =~= s@.skip(from as int + 1));
        from = from + 1;
    }
    let ghost rest = s@.skip(from as int);
    assert(trimmed_start(s@) == rest);
    let mut to: usize = s.len();
    assert(s@.subrange(from as int, to as int) =~= rest);
    while to > from && is_white_space(s[to - 1])
        invariant
            from <= to <= s@.len(),
            trimmed_end(rest) == trimmed_end(s@.subrange(from as int, to as int)),
        decreases to,
    {
        assert(s@.subrange(from as int, to as int).drop_last() =~= s@.subrange(
            from as int,
            to as int - 1,
        ));
        to = to - 1;
    }
    copy_range(s, from, to)
}

/// The fields of a text that a separator parts: one more than there are separators.
pub open spec fn split(s: Seq<char>, separator: char) -> Seq<Seq<char>>
    decreases s.len(),
{
    if s.len() == 0 {
        seq![Seq::<char>::empty()]
    } else {
        let before = split(s.drop_last(), separator);
        if s.last() == separator {
            before.push(Seq::<char>::empty())
        } else {
            before.drop_last().push(before.last().push(s.last()))
        }
    }
}

/// The fields as sequences of characters.
pub open spec fn field_views(fields: Seq<Vec<char>>) -> Seq<Seq<char>> {
    Seq::new(fields.len(), |i: int| fields[i]@)
}

/// The fields of the text that `separator` parts.
pub fn split_on(s: &[char], separator: char) -> (r: Vec<Vec<char>>)
    ensures
        field_views(r@) == split(s@, separator),
{
    let mut fields: Vec<Vec<char>> = Vec::new();
    let mut current: Vec<char> = Vec::new();
    let mut i: usize = 0;
    assert(split(s@.take(0), separator) =~= field_views(fields@).push(current@));
    while i < s.len()
        invariant
            i <= s@.len(),
            split(s@.take(i as int), separator) == field_views(fields@).push(current@),
        decreases s@.len() - i,
    {
        let c: char = s[i];
        let ghost taken = s@.take(i as int + 1);
        assert(taken.drop_last() =~= s@.take(i as int));
        let ghost parts = field_views(fields@);
        let ghost last = current@;
        assert(parts.push(last).drop_last() =~= parts);
        if c == separator {
            fields.push(current);
            current = Vec::new();
            assert(field_views(fields@) =~= parts.push(last));
            assert(current@ =~= Seq::<char>::empty());
        } else {
            current.push(c);
        }
        assert(split(taken, separator) =~= field_views(fields@).push(current@));
        i = i + 1;
    }
    assert(s@.take(i as int) =~= s@);
    let ghost parts = field_views(fields@);
    let ghost last = current@;
    fields.push(current);
    assert(field_views(fields@) =~= parts.push(last));
    fields
}

/// Where a character first occurs in a text.
pub open spec fn first_index(s: Seq<char>, c: char) -> Option<int>
    decreases s.len(),
{
    if s.len() == 0 {
        None
    } else if s[0] == c {
        Some(0)
    } else {
        match first_index(s.skip(1), c) {
            Some(i) => Some(i + 1),
            None => None,
        }
    }
}

/// Where a character first occurs: before it there is none, and where there is no such place
/// the text holds none at all.
pub proof fn first_index_bounds(s: Seq<char>, c: char)
    ensures
        match first_index(s, c) {
            Some(i) => 0 <= i < s.len() && s[i] == c && forall|k: int| 0 <= k < i ==> s[k] != c,
            None => !s.contains(c),
        },
    decreases s.len(),
{
    if s.len() > 0 && s[0] != c {
        first_index_bounds(s.skip(1), c);
        let rest = s.skip(1);
        match first_index(rest, c) {
            Some(i) => {
                assert(s[i + 1] == rest[i]);
                assert forall|k: int| 0 <= k < i + 1 implies s[k] != c by {
                    if k > 0 {
                        assert(s[k] == rest[k - 1]);
                    }
                }
            },
            None => {
                assert forall|k: int| 0 <= k < s.len() implies s[k] != c by {
                    if k > 0 {
                        assert(s[k] == rest[k - 1]);
                    }
                }
            },
        }
    }
}

/// Where `c` first occurs in the text.
pub fn find(s: &[char], c: char) -> (r: Option<usize>)
    ensures
        match r {
            Some(i) => first_index(s@, c) == Some(i as int) && i < s@.len(),
            None => first_index(s@, c) is None,
        },
{
    let mut i: usize = 0;
    assert(s@.skip(0) =~= s@);
    while i < s.len()
        invariant
            i <= s@.len(),
            first_index(s@, c) == (match first_index(s@.skip(i as int), c) {
                Some(k) => Some(k + i),
                None => None::<int>,
            }),
        decreases s@.len() - i,
    {
        if s[i] == c {
            return Some(i);
        }
        assert(s@.skip(i as int).skip(1) =~= s@.skip(i as int + 1));
        i = i + 1;
    }
    None
}

/// A character with an ASCII letter in lower case.
pub open spec fn lower(c: char) -> char {
    if 'A' <= c <= 'Z' {
        (c as u8 + 32) as char
    } else {
        c
    }
}

/// Whether two texts differ in nothing but the case of ASCII letters.
pub open spec fn same_but_for_case(a: Seq<char>, b: Seq<char>) -> bool {
    a.len() == b.len() && forall|i: int| 0 <= i < a.len() ==> lower(#[trigger] a[i]) == lower(b[i])
}

fn lower_of(c: char) -> (r: char)
    ensures
        r == lower(c),
{
    if 'A' <= c && c <= 'Z' {
        (c as u8 + 32) as char
    } else {
        c
    }
}

/// Whether the texts differ in nothing but the case of ASCII letters.
pub fn same_ignoring_case(a: &[char], b: &[char]) -> (r: bool)
    ensures
        r == same_but_for_case(a@, b@),
{
    if a.len() != b.len() {
        return false;
    }
    let mut i: usize = 0;
    while i < a.len()
        invariant
            a@.len() == b@.len(),
            i <= a@.len(),
            forall|k: int| 0 <= k < i ==> lower(#[trigger] a@[k]) == lower(b@[k]),
        decreases a@.len() - i,
    {
        if lower_of(a[i]) != lower_of(b[i]) {
            return false;
        }
        i = i + 1;
    }
    true
}

// ---------------------------------------------------------------------------------------------
// Numbers
// ---------------------------------------------------------------------------------------------

/// The value of a digit, of either case where it is a letter.
pub open spec fn digit_value(c: char) -> Option<int> {
    if '0' <= c <= '9' {
        Some(c as int - '0' as int)
    } else if 'a' <= c <= 'f' {
        Some(c as int - 'a' as int + 10)
    } else if 'A' <= c <= 'F' {
        Some(c as int - 'A' as int + 10)
    } else {
        None
    }
}

/// Whether a character is a digit of a base.
pub open spec fn is_digit(c: char, base: int) -> bool {
    digit_value(c) is Some && digit_value(c)->0 < base
}

/// The number that digits of a base write, most significant first; zero where there are none.
/// `None` where a character is not such a digit.
pub open spec fn number(s: Seq<char>, base: int) -> Option<int>
    decreases s.len(),
{
    if s.len() == 0 {
        Some(0)
    } else if number(s.drop_last(), base) is Some && is_digit(s.last(), base) {
        Some(base * number(s.drop_last(), base)->0 + digit_value(s.last())->0)
    } else {
        None
    }
}

/// The value of a digit, of either case where it is a letter.
pub fn digit_of(c: char) -> (r: Option<u8>)
    ensures
        match r {
            Some(d) => digit_value(c) == Some(d as int) && d < 16,
            None => digit_value(c) is None,
        },
{
    let code: u32 = c as u32;
    if '0' <= c && c <= '9' {
        Some((code - 48) as u8)
    } else if 'a' <= c && c <= 'f' {
        Some((code - 87) as u8)
    } else if 'A' <= c && c <= 'F' {
        Some((code - 55) as u8)
    } else {
        None
    }
}

/// A text is a number only if each of its prefixes is one, and none of those is greater.
pub proof fn number_of_prefix(s: Seq<char>, base: int, n: int)
    requires
        0 <= n <= s.len(),
        base > 0,
    ensures
        number(s, base) is Some ==> number(s.take(n), base) is Some && 0 <= number(
            s.take(n),
            base,
        )->0 <= number(s, base)->0,
    decreases s.len(),
{
    if n < s.len() {
        let shorter = s.drop_last();
        assert(shorter.take(n) =~= s.take(n));
        number_of_prefix(shorter, base, n);
        if number(s, base) is Some {
            let v = number(shorter, base)->0;
            assert(v <= base * v) by (nonlinear_arith)
                requires
                    base > 0,
                    v >= 0,
            ;
        }
    } else {
        assert(s.take(n) =~= s);
        if s.len() > 0 {
            number_of_prefix(s.drop_last(), base, 0);
            number_of_prefix(s.drop_last(), base, s.len() - 1);
            let shorter = s.drop_last();
            if number(s, base) is Some {
                let v = number(shorter, base)->0;
                assert(shorter.take(shorter.len() as int) =~= shorter);
                assert(0 <= base * v) by (nonlinear_arith)
                    requires
                        base > 0,
                        v >= 0,
                ;
            }
        }
    }
}

/// Reads the number that digits of a base write, if it is one and at most `limit`.
pub fn read_number(s: &[char], base: u8, limit: u32) -> (r: Option<u32>)
    requires
        2 <= base <= 16,
    ensures
        match r {
            Some(n) => number(s@, base as int) == Some(n as int) && n <= limit,
            None => number(s@, base as int) is None || number(s@, base as int)->0 > limit,
        },
{
    let mut value: u32 = 0;
    let mut i: usize = 0;
    assert(s@.take(0) =~= Seq::<char>::empty());
    while i < s.len()
        invariant
            i <= s@.len(),
            2 <= base <= 16,
            value <= limit,
            number(s@.take(i as int), base as int) == Some(value as int),
        decreases s@.len() - i,
    {
        let ghost taken = s@.take(i as int + 1);
        assert(taken.drop_last() =~= s@.take(i as int));
        proof {
            number_of_prefix(s@, base as int, i as int + 1);
        }
        let d: u8 = match digit_of(s[i]) {
            Some(d) => d,
            None => {
                return None;
            },
        };
        if d >= base {
            return None;
        }
        assert(0 <= base * value <= 16 * 0xffff_ffff) by (nonlinear_arith)
            requires
                base <= 16,
                value <= 0xffff_ffff,
        ;
        let next: u64 = base as u64 * value as u64 + d as u64;
        if next > limit as u64 {
            return None;
        }
        value = next as u32;
        i = i + 1;
    }
    assert(s@.take(i as int) =~= s@);
    Some(value)
}

/// A rendered digit has its value.
pub proof fn digit_value_of_char(d: int)
    requires
        0 <= d < 16,
    ensures
        digit_value(digit_char(d)) == Some(d),
        d < 10 ==> '0' <= digit_char(d) <= '9',
        digit_char(d) != ' ' && digit_char(d) != ':' && digit_char(d) != ',' && digit_char(d)
            != '+' && digit_char(d) != 'x' && digit_char(d) != 'X' && digit_char(d) != '\n',
        !white_space(digit_char(d)),
{
}

/// A rendered number is made of digits, and they write the number.
pub proof fn decimal_is_a_number(n: nat)
    ensures
        decimal(n).len() > 0,
        forall|i: int| 0 <= i < decimal(n).len() ==> '0' <= #[trigger] decimal(n)[i] <= '9',
        number(decimal(n), 10) == Some(n as int),
    decreases n,
{
    if n < 10 {
        digit_value_of_char(n as int);
        assert(decimal(n).drop_last() =~= Seq::<char>::empty());
        assert(number(Seq::<char>::empty(), 10) == Some(0int));
    } else {
        decimal_is_a_number(n / 10);
        digit_value_of_char((n % 10) as int);
        assert(decimal(n).drop_last() =~= decimal(n / 10));
    }
}

/// Hexadecimal digits are as many as were asked for, and none of them is a blank.
pub proof fn hex_digits_are_solid(n: nat, width: nat)
    ensures
        hex_digits(n, width).len() == width,
        forall|i: int|
            0 <= i < width ==> !white_space(#[trigger] hex_digits(n, width)[i]) && hex_digits(
                n,
                width,
            )[i] != '\n',
    decreases width,
{
    if width > 0 {
        hex_digits_are_solid(n / 16, (width - 1) as nat);
        digit_value_of_char((n % 16) as int);
    }
}

// ---------------------------------------------------------------------------------------------
// Separators
// ---------------------------------------------------------------------------------------------

/// A text without the separator is its only field.
pub proof fn split_without_separator(s: Seq<char>, separator: char)
    requires
        forall|i: int| 0 <= i < s.len() ==> s[i] != separator,
    ensures
        split(s, separator) == seq![s],
    decreases s.len(),
{
    if s.len() == 0 {
        assert(s =~= Seq::<char>::empty());
    } else {
        let shorter = s.drop_last();
        split_without_separator(shorter, separator);
        assert(s =~= shorter.push(s.last()));
        assert(split(s, separator) =~= seq![s]);
    }
}

/// Two texts with a separator between them have the fields of both.
pub proof fn split_at_separator(a: Seq<char>, b: Seq<char>, separator: char)
    ensures
        split(a.push(separator) + b, separator) == split(a, separator) + split(b, separator),
        split(b, separator).len() > 0,
    decreases b.len(),
{
    let whole = a.push(separator) + b;
    if b.len() == 0 {
        assert(whole =~= a.push(separator));
        assert(whole.drop_last() =~= a);
        assert(split(whole, separator) =~= split(a, separator) + split(b, separator));
    } else {
        let shorter = b.drop_last();
        split_at_separator(a, shorter, separator);
        assert(whole.drop_last() =~= a.push(separator) + shorter);
        let before = split(a, separator) + split(shorter, separator);
        assert(before.drop_last() =~= split(a, separator) + split(shorter, separator).drop_last());
        assert(before.last() == split(shorter, separator).last());
        assert(split(whole, separator) =~= split(a, separator) + split(b, separator));
    }
}

/// The first field ends where the separator first occurs.
pub proof fn first_index_at_separator(a: Seq<char>, b: Seq<char>, separator: char)
    requires
        forall|i: int| 0 <= i < a.len() ==> a[i] != separator,
    ensures
        first_index(a.push(separator) + b, separator) == Some(a.len() as int),
{
    let whole = a.push(separator) + b;
    first_index_bounds(whole, separator);
    assert(whole[a.len() as int] == separator);
    assert(whole.contains(separator));
    let i = first_index(whole, separator)->0;
    if i < a.len() {
        assert(whole[i] == a[i]);
    }
}

/// A text with no white space at its ends is not changed by trimming.
pub proof fn trimmed_leaves_solid_text(s: Seq<char>)
    requires
        s.len() > 0 ==> !white_space(s[0]) && !white_space(s.last()),
    ensures
        trimmed(s) == s,
{
}

// ---------------------------------------------------------------------------------------------
// Ordering
// ---------------------------------------------------------------------------------------------

/// The order of texts by their first differing character, a prefix before what it starts.
pub open spec fn precedes(a: Seq<char>, b: Seq<char>) -> bool
    decreases a.len(),
{
    if b.len() == 0 {
        false
    } else if a.len() == 0 {
        true
    } else if a[0] == b[0] {
        precedes(a.skip(1), b.skip(1))
    } else {
        a[0] < b[0]
    }
}

/// Whether `a` comes before `b`.
pub fn comes_before(a: &[char], b: &[char]) -> (r: bool)
    ensures
        r == precedes(a@, b@),
{
    let mut i: usize = 0;
    assert(a@.skip(0) =~= a@);
    assert(b@.skip(0) =~= b@);
    while i < a.len() && i < b.len() && a[i] == b[i]
        invariant
            i <= a@.len(),
            i <= b@.len(),
            precedes(a@, b@) == precedes(a@.skip(i as int), b@.skip(i as int)),
        decreases a@.len() - i,
    {
        assert(a@.skip(i as int).skip(1) =~= a@.skip(i as int + 1));
        assert(b@.skip(i as int).skip(1) =~= b@.skip(i as int + 1));
        i = i + 1;
    }
    if i >= b.len() {
        false
    } else if i >= a.len() {
        true
    } else {
        a[i] < b[i]
    }
}

/// No text comes before itself.
pub proof fn precedes_irreflexive(a: Seq<char>)
    ensures
        !precedes(a, a),
    decreases a.len(),
{
    if a.len() > 0 {
        precedes_irreflexive(a.skip(1));
    }
}

/// Of two different texts one comes before the other.
pub proof fn precedes_total(a: Seq<char>, b: Seq<char>)
    ensures
        a != b ==> precedes(a, b) || precedes(b, a),
    decreases a.len(),
{
    if a.len() > 0 && b.len() > 0 && a[0] == b[0] {
        precedes_total(a.skip(1), b.skip(1));
        if a.skip(1) == b.skip(1) {
            assert(a =~= seq![a[0]] + a.skip(1));
            assert(b =~= seq![b[0]] + b.skip(1));
        }
    } else if a.len() == 0 && b.len() == 0 {
        assert(a =~= b);
    }
}

/// The order of texts is transitive.
pub proof fn precedes_transitive(a: Seq<char>, b: Seq<char>, c: Seq<char>)
    requires
        precedes(a, b),
        precedes(b, c),
    ensures
        precedes(a, c),
    decreases a.len(),
{
    if a.len() > 0 && a[0] == b[0] && b[0] == c[0] {
        precedes_transitive(a.skip(1), b.skip(1), c.skip(1));
    }
}

// ---------------------------------------------------------------------------------------------
// Bytes
// ---------------------------------------------------------------------------------------------

/// Whether two byte strings are the same.
pub fn same_bytes(a: &[u8], b: &[u8]) -> (r: bool)
    ensures
        r == (a@ == b@),
{
    if a.len() != b.len() {
        return false;
    }
    let mut i: usize = 0;
    while i < a.len()
        invariant
            a@.len() == b@.len(),
            i <= a@.len(),
            forall|k: int| 0 <= k < i ==> a@[k] == b@[k],
        decreases a@.len() - i,
    {
        if a[i] != b[i] {
            return false;
        }
        i = i + 1;
    }
    assert(a@ =~= b@);
    true
}

/// A copy of a byte string.
pub fn copy_bytes(a: &[u8]) -> (r: Vec<u8>)
    ensures
        r@ == a@,
{
    let mut r: Vec<u8> = Vec::new();
    let mut i: usize = 0;
    while i < a.len()
        invariant
            i <= a@.len(),
            r@ == a@.take(i as int),
        decreases a@.len() - i,
    {
        r.push(a[i]);
        i = i + 1;
        assert(r@ =~= a@.take(i as int));
    }
    assert(a@.take(i as int) =~= a@);
    r
}

/// A copy of a list of texts.
pub fn copy_texts(list: &Vec<String>) -> (r: Vec<String>)
    ensures
        texts(r@) == texts(list@),
{
    let mut r: Vec<String> = Vec::new();
    let mut i: usize = 0;
    while i < list.len()
        invariant
            i <= list@.len(),
            r@.len() == i,
            forall|k: int| 0 <= k < i ==> (#[trigger] r@[k])@ == list@[k]@,
        decreases list@.len() - i,
    {
        r.push(list[i].clone());
        i = i + 1;
    }
    assert(texts(r@) =~= texts(list@));
    r
}

/// Whether two lists hold the same texts in the same order.
#[must_use]
pub fn same_texts(a: &Vec<String>, b: &Vec<String>) -> (r: bool)
    ensures
        r == (texts(a@) == texts(b@)),
{
    if a.len() != b.len() {
        assert(texts(a@).len() != texts(b@).len());
        return false;
    }
    let mut i: usize = 0;
    while i < a.len()
        invariant
            i <= a@.len(),
            a@.len() == b@.len(),
            forall|k: int| 0 <= k < i ==> #[trigger] texts(a@)[k] == texts(b@)[k],
        decreases a@.len() - i,
    {
        if a[i] != b[i] {
            assert(texts(a@)[i as int] != texts(b@)[i as int]);
            return false;
        }
        i = i + 1;
    }
    assert(texts(a@) =~= texts(b@));
    true
}

// ---------------------------------------------------------------------------------------------
// Laws
// ---------------------------------------------------------------------------------------------

/// The character of a digit is its place in the row of decimal digits and then of lower-case letters.
pub proof fn digits_are_in_their_row(d: int)
    requires
        0 <= d < 16,
    ensures
        digit_char(d) as int == (if d < 10 {
            0x30 + d
        } else {
            0x57 + d
        }),
{
}

/// Exactly the decimal digits and the first six letters, of either case, are digits, each with its
/// own value.
pub proof fn a_digit_has_its_value(c: char)
    ensures
        0x30 <= c as int <= 0x39 ==> digit_value(c) == Some(c as int - 0x30),
        0x41 <= c as int <= 0x46 ==> digit_value(c) == Some(c as int - 0x37),
        0x61 <= c as int <= 0x66 ==> digit_value(c) == Some(c as int - 0x57),
        digit_value(c) is Some ==> 0x30 <= c as int <= 0x39 || 0x41 <= c as int <= 0x46 || 0x61
            <= c as int <= 0x66,
{
}

/// One more digit multiplies a number by the base and adds the digit's value; what is no digit of the
/// base makes the text no number.
pub proof fn one_more_digit_counts(s: Seq<char>, c: char, base: int)
    requires
        number(s, base) is Some,
    ensures
        digit_value(c) is Some && digit_value(c)->0 < base ==> number(s.push(c), base) == Some(
            base * number(s, base)->0 + digit_value(c)->0,
        ),
        digit_value(c) is None || digit_value(c)->0 >= base ==> number(s.push(c), base) is None,
{
    assert(s.push(c).drop_last() =~= s);
}

/// A number is rendered in decimal without a zero in front, and its sign is a minus in front of what
/// the number without it is rendered as.
pub proof fn decimals_have_no_zero_in_front(n: nat)
    ensures
        n > 0 ==> decimal(n)[0] != '0',
        n == 0 ==> decimal(n) == seq!['0'],
        n > 0 ==> signed_decimal(-(n as int)) == seq!['-'] + decimal(n),
        signed_decimal(n as int) == decimal(n),
    decreases n,
{
    if n >= 10 {
        decimals_have_no_zero_in_front(n / 10);
        decimal_is_a_number(n / 10);
    }
}

/// A number that is rendered in hexadecimal reads back as that number, and has no zero in front.
pub proof fn hexadecimal_reads_back(n: nat)
    ensures
        number(hexadecimal(n), 16) == Some(n as int),
        hexadecimal(n).len() > 0,
        n > 0 ==> hexadecimal(n)[0] != '0',
    decreases n,
{
    if n < 16 {
        digit_value_of_char(n as int);
        assert(hexadecimal(n).drop_last() =~= Seq::<char>::empty());
        assert(number(Seq::<char>::empty(), 16) == Some(0int));
    } else {
        hexadecimal_reads_back(n / 16);
        digit_value_of_char((n % 16) as int);
        assert(hexadecimal(n).drop_last() =~= hexadecimal(n / 16));
    }
}

/// Two hexadecimal digits of a byte read back as that byte.
pub proof fn a_hex_byte_reads_back(b: u8)
    ensures
        hex_digits(b as nat, 2).len() == 2,
        number(hex_digits(b as nat, 2), 16) == Some(b as int),
{
    reveal_with_fuel(hex_digits, 3);
    reveal_with_fuel(number, 3);
    let n = b as nat;
    digit_value_of_char((n % 16) as int);
    digit_value_of_char((n / 16 % 16) as int);
    let s = hex_digits(n, 2);
    assert(s.drop_last() =~= hex_digits(n / 16, 1));
    assert(hex_digits(n / 16, 1).drop_last() =~= Seq::<char>::empty());
}

/// A list of numbers is rendered as its numbers, each rendered by itself, with the separator between
/// them.
pub proof fn number_lists_join_their_numbers(bytes: Seq<u8>, separator: Seq<char>)
    ensures
        decimal_list(bytes, separator) == joined(
            Seq::new(bytes.len(), |i: int| decimal(bytes[i] as nat)),
            separator,
        ),
        hex_list(bytes) == joined(
            Seq::new(bytes.len(), |i: int| hex_digits(bytes[i] as nat, 2)),
            ", "@,
        ),
    decreases bytes.len(),
{
    if bytes.len() > 0 {
        let shorter = bytes.drop_last();
        number_lists_join_their_numbers(shorter, separator);
        assert(Seq::new(bytes.len(), |i: int| decimal(bytes[i] as nat)).drop_last() =~= Seq::new(
            shorter.len(),
            |i: int| decimal(shorter[i] as nat),
        ));
        assert(Seq::new(bytes.len(), |i: int| hex_digits(bytes[i] as nat, 2)).drop_last()
            =~= Seq::new(shorter.len(), |i: int| hex_digits(shorter[i] as nat, 2)));
    }
}

/// Parting a text at a separator and joining the fields with it gives the text again, and no field
/// holds the separator.
pub proof fn parted_texts_join_again(s: Seq<char>, separator: char)
    ensures
        joined(split(s, separator), seq![separator]) == s,
        split(s, separator).len() > 0,
        forall|i: int|
            0 <= i < split(s, separator).len() ==> !(#[trigger] split(s, separator)[i]).contains(
                separator,
            ),
    decreases s.len(),
{
    let fields = split(s, separator);
    if s.len() == 0 {
        assert(joined(fields, seq![separator]) =~= s);
    } else {
        let shorter = s.drop_last();
        let before = split(shorter, separator);
        parted_texts_join_again(shorter, separator);
        assert(s =~= shorter.push(s.last()));
        if s.last() == separator {
            assert(fields.drop_last() =~= before);
            assert(joined(fields, seq![separator]) =~= shorter.push(separator));
            assert forall|i: int| 0 <= i < fields.len() implies !(#[trigger] fields[i]).contains(
                separator,
            ) by {
                if i < before.len() {
                    assert(fields[i] == before[i]);
                }
            }
        } else {
            assert(fields.len() == before.len());
            assert(fields.drop_last() =~= before.drop_last());
            assert(fields.last() == before.last().push(s.last()));
            if fields.len() > 1 {
                assert(joined(fields, seq![separator]) =~= joined(before, seq![separator]).push(
                    s.last(),
                ));
            } else {
                assert(before[0] == before.last());
            }
            assert forall|i: int| 0 <= i < fields.len() implies !(#[trigger] fields[i]).contains(
                separator,
            ) by {
                if i < before.len() - 1 {
                    assert(fields[i] == before[i]);
                } else {
                    let last = before[before.len() - 1];
                    assert(!last.contains(separator));
                    if fields[i].contains(separator) {
                        let k = choose|k: int|
                            0 <= k < fields[i].len() && fields[i][k] == separator;
                        assert(k < last.len());
                        assert(last[k] == separator);
                    }
                }
            }
        }
    }
}

/// White space is the blank, the controls from the tab to the carriage return, the next line, and
/// Unicode's other spaces and separators.
pub proof fn white_space_is_unicodes(c: char)
    ensures
        white_space(c) <==> {
            let code = c as int;
            0x9 <= code <= 0xd || code == 0x20 || code == 0x85 || code == 0xa0 || code == 0x1680
                || 0x2000 <= code <= 0x200a || code == 0x2028 || code == 0x2029 || code == 0x202f
                || code == 0x205f || code == 0x3000
        },
{
}

proof fn a_blank_start_is_skipped(blank: Seq<char>, s: Seq<char>)
    requires
        forall|i: int| 0 <= i < blank.len() ==> white_space(#[trigger] blank[i]),
        s.len() > 0 ==> !white_space(s[0]),
    ensures
        trimmed_start(blank + s) == s,
    decreases blank.len(),
{
    let whole = blank + s;
    if blank.len() == 0 {
        assert(whole =~= s);
    } else {
        assert(whole.skip(1) =~= blank.skip(1) + s);
        assert(whole[0] == blank[0]);
        assert forall|i: int| 0 <= i < blank.skip(1).len() implies white_space(
            #[trigger] blank.skip(1)[i],
        ) by {
            assert(blank.skip(1)[i] == blank[i + 1]);
        }
        a_blank_start_is_skipped(blank.skip(1), s);
    }
}

proof fn a_blank_end_is_dropped(s: Seq<char>, blank: Seq<char>)
    requires
        forall|i: int| 0 <= i < blank.len() ==> white_space(#[trigger] blank[i]),
        s.len() > 0 ==> !white_space(s.last()),
    ensures
        trimmed_end(s + blank) == s,
    decreases blank.len(),
{
    let whole = s + blank;
    if blank.len() == 0 {
        assert(whole =~= s);
    } else {
        assert(whole.drop_last() =~= s + blank.drop_last());
        assert(whole.last() == blank[blank.len() - 1]);
        assert forall|i: int| 0 <= i < blank.drop_last().len() implies white_space(
            #[trigger] blank.drop_last()[i],
        ) by {
            assert(blank.drop_last()[i] == blank[i]);
        }
        a_blank_end_is_dropped(s, blank.drop_last());
    }
}

/// Trimming takes the white space off both ends, all of it, and nothing else.
pub proof fn trimming_takes_off_the_white_space(front: Seq<char>, s: Seq<char>, back: Seq<char>)
    requires
        s.len() > 0,
        !white_space(s[0]),
        !white_space(s.last()),
        forall|i: int| 0 <= i < front.len() ==> white_space(#[trigger] front[i]),
        forall|i: int| 0 <= i < back.len() ==> white_space(#[trigger] back[i]),
    ensures
        trimmed(front + s + back) == s,
{
    assert(front + s + back =~= front + (s + back));
    a_blank_start_is_skipped(front, s + back);
    a_blank_end_is_dropped(s, back);
}

/// Of a text that is all white space, trimming leaves nothing.
pub proof fn trimming_leaves_nothing_of_white_space(blank: Seq<char>)
    requires
        forall|i: int| 0 <= i < blank.len() ==> white_space(#[trigger] blank[i]),
    ensures
        trimmed(blank).len() == 0,
{
    a_blank_start_is_skipped(blank, Seq::<char>::empty());
    assert(blank + Seq::<char>::empty() =~= blank);
}

/// Texts are ordered by what follows their common start: by the first character in which they differ,
/// and where one is the start of the other, that one comes first.
pub proof fn texts_are_ordered_by_their_first_difference(
    start: Seq<char>,
    a: Seq<char>,
    b: Seq<char>,
)
    ensures
        precedes(start + a, start + b) == precedes(a, b),
        a.len() == 0 && b.len() > 0 ==> precedes(start + a, start + b),
        b.len() == 0 ==> !precedes(start + a, start + b),
        a.len() > 0 && b.len() > 0 && a[0] != b[0] ==> (precedes(start + a, start + b) <==> (
        a[0] as int) < (b[0] as int)),
    decreases start.len(),
{
    if start.len() == 0 {
        assert(start + a =~= a);
        assert(start + b =~= b);
    } else {
        assert((start + a).skip(1) =~= start.skip(1) + a);
        assert((start + b).skip(1) =~= start.skip(1) + b);
        texts_are_ordered_by_their_first_difference(start.skip(1), a, b);
    }
}

/// Two characters are the same but for case exactly where they are equal or the two cases of one
/// letter.
pub proof fn case_is_that_of_letters(a: char, b: char)
    ensures
        lower(a) == lower(b) <==> a == b || (0x41 <= a as int <= 0x5a && b as int == a as int + 32)
            || (0x41 <= b as int <= 0x5a && a as int == b as int + 32),
{
}

} // verus!

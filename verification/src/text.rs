//! Text: comparing, folding case, and reading and writing numbers.

use vstd::prelude::*;

verus! {

/// Says whether two strings are the same.
pub fn same(a: &str, b: &str) -> (r: bool)
    ensures
        r == (a@ == b@),
{
    let x = a.as_bytes();
    let y = b.as_bytes();
    proof {
        vstd::utf8::encode_utf8_decode_utf8(a@);
        vstd::utf8::encode_utf8_decode_utf8(b@);
    }
    if x.len() != y.len() {
        return false;
    }
    let mut i: usize = 0;
    while i < x.len()
        invariant
            i <= x@.len(),
            x@.len() == y@.len(),
            x@ == vstd::utf8::encode_utf8(a@),
            y@ == vstd::utf8::encode_utf8(b@),
            forall|j: int| 0 <= j < i ==> x@[j] == y@[j],
        decreases x@.len() - i,
    {
        if x[i] != y[i] {
            return false;
        }
        i = i + 1;
    }
    assert(x@ =~= y@);
    true
}

/// The characters of a string.
pub fn to_chars(s: &str) -> (r: Vec<char>)
    ensures
        r@ == s@,
{
    let mut out: Vec<char> = Vec::new();
    for c in it: s.chars()
        invariant
            out@ == it.seq().take(it.index() as int),
            it.seq() == s@,
    {
        out.push(c);
    }
    out
}

/// An ASCII capital made small; any other character as it is.
pub open spec fn ascii_lower(c: char) -> char {
    if 'A' <= c && c <= 'Z' {
        ((c as u32 + 32) as u8) as char
    } else {
        c
    }
}

/// A text with its ASCII capitals made small.
pub open spec fn ascii_lowered(s: Seq<char>) -> Seq<char> {
    s.map_values(|c: char| ascii_lower(c))
}

/// Two texts that differ in nothing but the case of ASCII letters.
pub open spec fn alike(a: Seq<char>, b: Seq<char>) -> bool {
    a.len() == b.len() && forall|i: int|
        0 <= i < a.len() ==> ascii_lower(#[trigger] a[i]) == ascii_lower(b[i])
}

fn lower_char(c: char) -> (r: char)
    ensures
        r == ascii_lower(c),
{
    if 'A' <= c && c <= 'Z' {
        (c as u32 + 32) as u8 as char
    } else {
        c
    }
}

/// Says whether two strings differ in nothing but the case of ASCII letters.
pub fn same_ignoring_ascii_case(a: &str, b: &str) -> (r: bool)
    ensures
        r == alike(a@, b@),
{
    let x = to_chars(a);
    let y = to_chars(b);
    if x.len() != y.len() {
        return false;
    }
    let mut i: usize = 0;
    while i < x.len()
        invariant
            i <= x@.len(),
            x@.len() == y@.len(),
            x@ == a@,
            y@ == b@,
            forall|j: int| 0 <= j < i ==> ascii_lower(#[trigger] x@[j]) == ascii_lower(y@[j]),
        decreases x@.len() - i,
    {
        if lower_char(x[i]) != lower_char(y[i]) {
            return false;
        }
        i = i + 1;
    }
    true
}

/// The characters with the Unicode property `White_Space`.
pub open spec fn white_space(c: char) -> bool {
    let u = c as u32;
    (0x09 <= u <= 0x0D) || u == 0x20 || u == 0x85 || u == 0xA0 || u == 0x1680 || (0x2000 <= u
        <= 0x200A) || u == 0x2028 || u == 0x2029 || u == 0x202F || u == 0x205F || u == 0x3000
}

/// Nothing but white space.
pub open spec fn blank(s: Seq<char>) -> bool {
    forall|i: int| 0 <= i < s.len() ==> white_space(#[trigger] s[i])
}

/// Says whether a string is empty once white space is trimmed off both ends.
pub fn is_blank(s: &str) -> (r: bool)
    ensures
        r == blank(s@),
{
    let x = to_chars(s);
    let mut i: usize = 0;
    while i < x.len()
        invariant
            i <= x@.len(),
            x@ == s@,
            forall|j: int| 0 <= j < i ==> white_space(#[trigger] x@[j]),
        decreases x@.len() - i,
    {
        let u: u32 = x[i] as u32;
        if !((0x09 <= u && u <= 0x0D) || u == 0x20 || u == 0x85 || u == 0xA0 || u == 0x1680 || (
        0x2000 <= u && u <= 0x200A) || u == 0x2028 || u == 0x2029 || u == 0x202F || u == 0x205F
            || u == 0x3000) {
            assert(!white_space(x@[i as int]));
            return false;
        }
        i = i + 1;
    }
    true
}

/// The text with every letter made small, as Unicode has it.
pub uninterp spec fn lowercase(s: Seq<char>) -> Seq<char>;

/// `str::to_lowercase` of std: the text in small letters. An ASCII text has only its capitals
/// changed, each to the letter 32 places on.
pub assume_specification[ str::to_lowercase ](s: &str) -> (r: String)
    ensures
        r@ == lowercase(s@),
        vstd::utf8::is_ascii_chars(s@) ==> r@ == ascii_lowered(s@),
;

/// The value of a decimal digit.
pub open spec fn digit_value(c: char) -> nat {
    (c as u32 - '0' as u32) as nat
}

/// A decimal digit.
pub open spec fn is_digit(c: char) -> bool {
    '0' <= c && c <= '9'
}

/// The number that a run of decimal digits spells.
pub open spec fn digits_value(s: Seq<char>) -> nat
    decreases s.len(),
{
    if s.len() == 0 {
        0
    } else {
        digits_value(s.drop_last()) * 10 + digit_value(s.last())
    }
}

/// The digits of a number text: all of it, but for a leading plus sign.
pub open spec fn unsigned_part(s: Seq<char>) -> Seq<char> {
    if s.len() > 0 && s[0] == '+' {
        s.drop_first()
    } else {
        s
    }
}

/// The text is a number of 32 bits: at least one decimal digit and nothing else, with or
/// without a leading plus sign.
pub open spec fn is_u32_text(s: Seq<char>) -> bool {
    let d = unsigned_part(s);
    d.len() > 0 && (forall|i: int| 0 <= i < d.len() ==> is_digit(#[trigger] d[i])) && digits_value(
        d,
    ) <= u32::MAX
}

/// What a text is as a number of 32 bits.
pub open spec fn u32_of(s: Seq<char>) -> Option<u32> {
    if is_u32_text(s) {
        Some(digits_value(unsigned_part(s)) as u32)
    } else {
        None
    }
}

proof fn digits_value_grows(s: Seq<char>, n: int)
    requires
        0 <= n <= s.len(),
    ensures
        digits_value(s.take(n)) <= digits_value(s),
    decreases s.len() - n,
{
    if n < s.len() {
        digits_value_grows(s, n + 1);
        assert(s.take(n + 1).drop_last() =~= s.take(n));
    } else {
        assert(s.take(n) =~= s);
    }
}

/// Reads a number of 32 bits.
pub fn parse_u32(s: &str) -> (r: Option<u32>)
    ensures
        r == u32_of(s@),
{
    let x = to_chars(s);
    let from: usize = if x.len() > 0 && x[0] == '+' {
        1
    } else {
        0
    };
    let ghost d = unsigned_part(s@);
    assert(d =~= x@.subrange(from as int, x@.len() as int));
    if x.len() == from {
        return None;
    }
    let mut value: u32 = 0;
    let mut i: usize = from;
    assert(d.take(0) =~= Seq::<char>::empty());
    while i < x.len()
        invariant
            from <= i <= x@.len(),
            x@ == s@,
            d == unsigned_part(s@),
            d == x@.subrange(from as int, x@.len() as int),
            value == digits_value(d.take(i - from)),
            forall|j: int| 0 <= j < i - from ==> is_digit(#[trigger] d[j]),
        decreases x@.len() - i,
    {
        let c: char = x[i];
        assert(c == d[i - from]);
        if c < '0' || c > '9' {
            assert(!is_digit(d[i - from]));
            return None;
        }
        let ghost upto = d.take(i - from + 1);
        proof {
            assert(upto.drop_last() =~= d.take(i - from));
            assert(upto.last() == c);
            digits_value_grows(d, i - from + 1);
        }
        let next: u64 = value as u64 * 10 + (c as u32 - '0' as u32) as u64;
        assert(next == digits_value(upto));
        if next > u32::MAX as u64 {
            return None;
        }
        value = next as u32;
        i = i + 1;
    }
    assert(d.take(d.len() as int) =~= d);
    Some(value)
}

/// The decimal digit with the given value.
pub open spec fn digit(n: nat) -> char {
    ('0' as u32 + n) as char
}

/// A number in decimal, without leading zeros.
pub open spec fn decimal(n: nat) -> Seq<char>
    decreases n,
{
    if n < 10 {
        seq![digit(n)]
    } else {
        decimal(n / 10).push(digit(n % 10))
    }
}

/// What a number's decimal text spells is the number.
pub proof fn decimal_spells_the_number(n: nat)
    ensures
        digits_value(decimal(n)) == n,
        decimal(n).len() > 0,
        forall|i: int| 0 <= i < decimal(n).len() ==> is_digit(#[trigger] decimal(n)[i]),
    decreases n,
{
    if n < 10 {
        let d = decimal(n);
        assert(d.drop_last() =~= Seq::<char>::empty());
        assert(digits_value(d.drop_last()) == 0);
        assert(d.last() == digit(n));
        assert(digit_value(digit(n)) == n);
    } else {
        decimal_spells_the_number(n / 10);
        assert(decimal(n).drop_last() =~= decimal(n / 10));
        assert(digit_value(digit(n % 10)) == n % 10);
    }
}

fn digit_text(n: u64) -> (r: &'static str)
    requires
        n < 10,
    ensures
        r@ == seq![digit(n as nat)],
{
    proof {
        reveal_strlit("0");
        reveal_strlit("1");
        reveal_strlit("2");
        reveal_strlit("3");
        reveal_strlit("4");
        reveal_strlit("5");
        reveal_strlit("6");
        reveal_strlit("7");
        reveal_strlit("8");
        reveal_strlit("9");
    }
    let r = match n {
        0 => "0",
        1 => "1",
        2 => "2",
        3 => "3",
        4 => "4",
        5 => "5",
        6 => "6",
        7 => "7",
        8 => "8",
        _ => "9",
    };
    assert(r@ =~= seq![digit(n as nat)]);
    r
}

/// Appends a number in decimal.
pub fn append_decimal(out: &mut String, n: u64)
    ensures
        final(out)@ == old(out)@ + decimal(n as nat),
    decreases n,
{
    let ghost before = out@;
    if n < 10 {
        out.append(digit_text(n));
    } else {
        append_decimal(out, n / 10);
        out.append(digit_text(n % 10));
        assert(out@ =~= before + decimal((n / 10) as nat).push(digit((n % 10) as nat)));
    }
}

/// Two capital hexadecimal digits.
pub open spec fn hex2(b: u8) -> Seq<char> {
    seq![hex_digit((b / 16) as nat), hex_digit((b % 16) as nat)]
}

/// The capital hexadecimal digit with the given value.
pub open spec fn hex_digit(n: nat) -> char {
    if n < 10 {
        digit(n)
    } else {
        ('A' as u32 + (n - 10)) as char
    }
}

fn hex_text(n: u8) -> (r: &'static str)
    requires
        n < 16,
    ensures
        r@ == seq![hex_digit(n as nat)],
{
    if n < 10 {
        return digit_text(n as u64);
    }
    proof {
        reveal_strlit("A");
        reveal_strlit("B");
        reveal_strlit("C");
        reveal_strlit("D");
        reveal_strlit("E");
        reveal_strlit("F");
    }
    let r = match n {
        10 => "A",
        11 => "B",
        12 => "C",
        13 => "D",
        14 => "E",
        _ => "F",
    };
    assert(r@ =~= seq![hex_digit(n as nat)]);
    r
}

/// Appends a byte as two capital hexadecimal digits.
pub fn append_hex2(out: &mut String, b: u8)
    ensures
        final(out)@ == old(out)@ + hex2(b),
{
    let ghost before = out@;
    out.append(hex_text(b / 16));
    out.append(hex_text(b % 16));
    assert(out@ =~= before + hex2(b));
}

/// A text that may be missing, or what stands in for it.
pub open spec fn text_or(value: Option<String>, default: Seq<char>) -> Seq<char> {
    match value {
        Some(text) => text@,
        None => default,
    }
}

/// A text that may be missing, or what stands in for it.
pub fn string_or(value: Option<String>, default: &str) -> (r: String)
    ensures
        r@ == text_or(value, default@),
{
    match value {
        Some(text) => text,
        None => default.to_owned(),
    }
}

/// Texts set one behind the other, with ` | ` between them.
pub open spec fn joined(parts: Seq<Seq<char>>) -> Seq<char>
    decreases parts.len(),
{
    if parts.len() == 0 {
        Seq::empty()
    } else if parts.len() == 1 {
        parts[0]
    } else {
        joined(parts.drop_last()) + " | "@ + parts.last()
    }
}

/// The contents of a list of strings.
pub open spec fn views(v: Seq<String>) -> Seq<Seq<char>> {
    v.map_values(|s: String| s@)
}

/// Sets texts one behind the other, with ` | ` between them.
pub fn join_reasons(parts: &Vec<String>) -> (r: String)
    ensures
        r@ == joined(views(parts@)),
{
    let mut out = String::new();
    let mut i: usize = 0;
    assert(views(parts@).take(0) =~= Seq::<Seq<char>>::empty());
    while i < parts.len()
        invariant
            i <= parts@.len(),
            out@ == joined(views(parts@).take(i as int)),
        decreases parts@.len() - i,
    {
        let ghost now = views(parts@).take(i + 1);
        assert(now.drop_last() =~= views(parts@).take(i as int));
        assert(now.last() == parts@[i as int]@);
        if i > 0 {
            out.append(" | ");
        } else {
            assert(out@ + now.last() =~= now.last());
        }
        out.append(parts[i].as_str());
        i = i + 1;
    }
    assert(views(parts@).take(parts@.len() as int) =~= views(parts@));
    out
}

/// A letter and its capital are alike, a character that is no ASCII letter is like itself alone,
/// and a text stays as it is when it has no capitals.
pub proof fn capitals_differ_by_32(c: char)
    ensures
        'A' <= c && c <= 'Z' ==> ascii_lower(c) as u32 == c as u32 + 32,
        !('A' <= c && c <= 'Z') ==> ascii_lower(c) == c,
        ascii_lower(ascii_lower(c)) == ascii_lower(c),
        ascii_lowered(seq![c]) == seq![ascii_lower(c)],
{
    assert(ascii_lowered(seq![c]) =~= seq![ascii_lower(c)]);
}

/// Among the characters up to the tilde the blank, the tabs and the line ends are white space, and
/// none that leaves a mark is; a text with such a character is not blank.
pub proof fn marks_are_no_white_space(s: Seq<char>, i: int)
    requires
        0 <= i < s.len(),
        '!' <= s[i] && s[i] <= '~',
    ensures
        !blank(s),
        white_space(' ') && white_space('\t') && white_space('\n') && white_space('\r'),
{
    assert(!white_space(s[i]));
}

/// A number is written as the digits of its tenth part and then its last digit, with a leading zero
/// only in zero itself.
pub proof fn decimals_end_with_the_last_digit(n: nat, d: nat)
    requires
        d < 10,
    ensures
        decimal(d) == seq![(48 + d) as char],
        n > 0 ==> decimal(10 * n + d) == decimal(n) + decimal(d),
        decimal(n)[0] == '0' <==> n == 0,
    decreases n,
{
    if n > 0 {
        assert((10 * n + d) / 10 == n && (10 * n + d) % 10 == d);
        assert(decimal(10 * n + d) =~= decimal(n) + decimal(d));
        if n >= 10 {
            decimals_end_with_the_last_digit(n / 10, 0);
            decimal_spells_the_number(n / 10);
            assert(decimal(n)[0] == decimal(n / 10)[0]);
        }
    }
}

/// What a number of 32 bits is written as is read as that number, with a plus sign in front or
/// without; a number that does not fit is not read.
pub proof fn numbers_are_read_as_written(n: nat)
    ensures
        u32_of(decimal(n)) == (if n <= u32::MAX {
            Some(n as u32)
        } else {
            None
        }),
        u32_of(seq!['+'] + decimal(n)) == u32_of(decimal(n)),
{
    decimal_spells_the_number(n);
    assert(is_digit(decimal(n)[0]));
    assert(unsigned_part(decimal(n)) == decimal(n));
    assert((seq!['+'] + decimal(n)).drop_first() =~= decimal(n));
}

/// A text is read as a number only where all of it, but for a plus sign in front, is digits.
pub proof fn other_texts_are_no_numbers(s: Seq<char>, i: int)
    requires
        s.len() == 0 || s == seq!['+'] || (0 <= i < s.len() && !('0' <= s[i] && s[i] <= '9') && !(i
            == 0 && s[0] == '+')),
    ensures
        u32_of(s) is None,
{
    if s.len() > 0 && s != seq!['+'] {
        if s[0] == '+' {
            assert(s.drop_first()[i - 1] == s[i]);
        }
        assert(!is_digit(s[i]));
    } else if s.len() > 0 {
        assert(s.drop_first().len() == 0);
    }
}

/// A byte is written as the digit of its sixteenth part and then that of the rest; ten to fifteen
/// are the capitals from A on.
pub proof fn hex_digits_spell_the_byte(b: u8)
    ensures
        hex2(b).len() == 2,
        ({
            let high = hex2(b)[0] as int;
            let low = hex2(b)[1] as int;
            let h = if high <= 57 {
                high - 48
            } else {
                high - 55
            };
            let l = if low <= 57 {
                low - 48
            } else {
                low - 55
            };
            &&& h * 16 + l == b
            &&& (48 <= high <= 57 || 65 <= high <= 70) && (48 <= low <= 57 || 65 <= low <= 70)
        }),
{
}

/// Every text more comes behind a bar with a blank on either side.
pub proof fn texts_are_joined_by_bars(parts: Seq<Seq<char>>, more: Seq<char>)
    ensures
        joined(seq![more]) == more,
        parts.len() > 0 ==> joined(parts.push(more)) == joined(parts) + seq![' ', '|', ' '] + more,
{
    reveal_strlit(" | ");
    assert(" | "@ =~= seq![' ', '|', ' ']);
    if parts.len() > 0 {
        assert(parts.push(more).drop_last() =~= parts);
    }
}

/// Texts are alike when they are as long as each other and every two characters in the same place
/// are the same, or the same letter from A to Z once as a capital and once not.
pub proof fn alike_texts_are_alike_in_every_place(
    c: char,
    d: char,
    a: Seq<char>,
    b: Seq<char>,
)
    ensures
        alike(seq![c] + a, seq![d] + b) <==> alike(a, b) && (c == d || ('A' <= c && c <= 'Z' && d as int
            == c as int + 32) || ('A' <= d && d <= 'Z' && c as int == d as int + 32)),
        alike(Seq::empty(), Seq::empty()),
        !alike(seq![c] + a, Seq::empty()),
        !alike(Seq::empty(), seq![d] + b),
{
    let x = seq![c] + a;
    let y = seq![d] + b;
    assert(x[0] == c && y[0] == d);
    assert(x.drop_first() =~= a && y.drop_first() =~= b);
    if alike(x, y) {
        assert forall|i: int| 0 <= i < a.len() implies ascii_lower(#[trigger] a[i]) == ascii_lower(
            b[i],
        ) by {
            assert(x[i + 1] == a[i] && y[i + 1] == b[i]);
        }
        assert(ascii_lower(x[0]) == ascii_lower(y[0]));
    }
    if alike(a, b) && ascii_lower(c) == ascii_lower(d) {
        assert forall|i: int| 0 <= i < x.len() implies ascii_lower(#[trigger] x[i]) == ascii_lower(
            y[i],
        ) by {
            if i > 0 {
                assert(x[i] == a[i - 1] && y[i] == b[i - 1]);
            }
        }
    }
}

/// White space is the blank and what is between a tab and a carriage return, the next line, the
/// blank that does not break, the Ogham mark, the eleven blanks of typesetting, the two separators,
/// the two narrow blanks, and the wide one.
pub proof fn white_space_is_told_by_its_characters(c: char)
    ensures
        c <= '~' ==> (white_space(c) <==> c == ' ' || ('\t' <= c && c <= '\r')),
        c > '~' ==> (white_space(c) <==> c == '\u{85}' || c == '\u{A0}' || c == '\u{1680}' || (
        '\u{2000}' <= c && c <= '\u{200A}') || c == '\u{2028}' || c == '\u{2029}' || c == '\u{202F}' || c
            == '\u{205F}' || c == '\u{3000}'),
        blank(seq![c]) <==> white_space(c),
        blank(Seq::empty()),
{
    assert(seq![c][0] == c);
}

} // verus!

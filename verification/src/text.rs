//! Text building and scanning.
//!
//! Everything the library prints, looks up by name or reads from a line of input goes
//! through here. Texts are modelled as sequences of characters, numbers as integers.

use vstd::prelude::*;

verus! {

// ---------------------------------------------------------------------------
// Characters and strings of the standard library
// ---------------------------------------------------------------------------

/// `String::push` appends one character to the text.
pub assume_specification[ String::push ](text: &mut String, c: char)
    ensures
        final(text)@ == old(text)@.push(c),
;

/// `String::pop` takes the last character off the text, and leaves an empty text alone.
pub assume_specification[ String::pop ](text: &mut String) -> (last: Option<char>)
    ensures
        old(text)@.len() == 0 ==> last is None && final(text)@ == old(text)@,
        old(text)@.len() > 0 ==> last == Some(old(text)@.last()) && final(text)@
            == old(text)@.drop_last(),
;

/// What Unicode lowercasing makes of a text that is not plain ASCII.
pub uninterp spec fn unicode_lowercase(text: Seq<char>) -> Seq<char>;

/// Whether Unicode counts a character outside ASCII as white space.
pub uninterp spec fn unicode_space(c: char) -> bool;

/// Whether Unicode counts a character outside ASCII as a letter or a number.
pub uninterp spec fn unicode_alphanumeric(c: char) -> bool;

/// The lowercase form of one ASCII character.
pub open spec fn ascii_lower(c: char) -> char {
    if 'A' <= c <= 'Z' {
        (c as u32 + 32) as char
    } else {
        c
    }
}

/// The lowercase form of a text.
pub open spec fn lowercase(text: Seq<char>) -> Seq<char> {
    if vstd::utf8::is_ascii_chars(text) {
        text.map_values(|c: char| ascii_lower(c))
    } else {
        unicode_lowercase(text)
    }
}

/// Whether a character separates words.
pub open spec fn is_space(c: char) -> bool {
    if (c as u32) < 128 {
        c == ' ' || 9 <= c as u32 <= 13
    } else {
        unicode_space(c)
    }
}

/// Whether a character is a letter or a number.
pub open spec fn is_alphanumeric(c: char) -> bool {
    if (c as u32) < 128 {
        'a' <= c <= 'z' || 'A' <= c <= 'Z' || '0' <= c <= '9'
    } else {
        unicode_alphanumeric(c)
    }
}

/// `str::to_lowercase`: ASCII letters are mapped one by one. What becomes of a text with
/// other characters is a function of that text and is not spelled out.
#[verifier::external_body]
pub(crate) fn to_lowercase(text: &str) -> (lower: String)
    ensures
        lower@ == (if vstd::utf8::is_ascii_chars(text@) {
            text@.map_values(|c: char| ascii_lower(c))
        } else {
            unicode_lowercase(text@)
        }),
{
    text.to_lowercase()
}

/// `char::is_whitespace`: among ASCII the space and the control characters from tab to
/// carriage return. Which other characters count is left to Unicode.
pub assume_specification[ char::is_whitespace ](c: char) -> (r: bool)
    ensures
        r == (if (c as u32) < 128 {
            c == ' ' || 9 <= c as u32 <= 13
        } else {
            unicode_space(c)
        }),
;

/// `char::is_alphanumeric`: among ASCII the letters and the digits. Which other characters
/// count is left to Unicode.
pub assume_specification[ char::is_alphanumeric ](c: char) -> (r: bool)
    ensures
        r == (if (c as u32) < 128 {
            'a' <= c <= 'z' || 'A' <= c <= 'Z' || '0' <= c <= '9'
        } else {
            unicode_alphanumeric(c)
        }),
;

/// Whether two texts hold the same characters.
pub fn same_text(a: &str, b: &str) -> (same: bool)
    ensures
        same == (a@ == b@),
{
    let x = a.to_owned();
    let y = b.to_owned();
    x == y
}

/// The characters of a text, for access by index.
pub fn to_chars(text: &str) -> (chars: Vec<char>)
    ensures
        chars@ == text@,
{
    let mut chars: Vec<char> = Vec::new();
    for c in it: text.chars()
        invariant
            chars@ == it.seq().take(it.index() as int),
    {
        chars.push(c);
    }
    chars
}

/// The text made of `chars[from..to]`.
pub fn from_chars(chars: &Vec<char>, from: usize, to: usize) -> (text: String)
    requires
        from <= to <= chars@.len(),
    ensures
        text@ == chars@.subrange(from as int, to as int),
{
    let mut text = String::new();
    let mut i: usize = from;
    while i < to
        invariant
            from <= i <= to <= chars@.len(),
            text@ == chars@.subrange(from as int, i as int),
        decreases to - i,
    {
        text.push(chars[i]);
        i = i + 1;
    }
    text
}

// ---------------------------------------------------------------------------
// Numbers in text
// ---------------------------------------------------------------------------

/// The character of a digit below 16, letters in upper case.
pub open spec fn digit_char(d: int) -> char {
    if d < 10 {
        (48 + d) as char
    } else {
        (55 + d) as char
    }
}

/// A number in decimal, without leading zeros.
pub open spec fn decimal(n: nat) -> Seq<char>
    decreases n,
{
    if n < 10 {
        seq![digit_char(n as int)]
    } else {
        decimal(n / 10).push(digit_char((n % 10) as int))
    }
}

/// The last `width` digits of a number to a given base, with leading zeros.
pub open spec fn padded(n: nat, base: nat, width: nat) -> Seq<char>
    decreases width,
{
    if width == 0 {
        Seq::empty()
    } else {
        padded(n / base, base, (width - 1) as nat).push(digit_char((n % base) as int))
    }
}

/// A number in upper-case hexadecimal, `width` digits wide.
pub open spec fn hex(n: nat, width: nat) -> Seq<char> {
    padded(n, 16, width)
}

fn digit(d: u8) -> (c: char)
    requires
        d < 16,
    ensures
        c == digit_char(d as int),
{
    if d < 10 {
        (48u8 + d) as char
    } else {
        (55u8 + d) as char
    }
}

/// Writes a number in decimal.
pub fn decimal_text(n: u64) -> (text: String)
    ensures
        text@ == decimal(n as nat),
    decreases n,
{
    if n < 10 {
        let mut text = String::new();
        text.push(digit(n as u8));
        assert(text@ =~= decimal(n as nat));
        text
    } else {
        let mut text = decimal_text(n / 10);
        text.push(digit((n % 10) as u8));
        text
    }
}

/// Writes the last `width` digits of a number to base 10 or 16.
pub fn padded_text(n: u64, base: u64, width: usize) -> (text: String)
    requires
        2 <= base <= 16,
    ensures
        text@ == padded(n as nat, base as nat, width as nat),
    decreases width,
{
    if width == 0 {
        String::new()
    } else {
        let mut text = padded_text(n / base, base, width - 1);
        text.push(digit((n % base) as u8));
        text
    }
}

/// Writes the last `width` hexadecimal digits of a number.
pub fn hex_text(n: u64, width: usize) -> (text: String)
    ensures
        text@ == hex(n as nat, width as nat),
{
    padded_text(n, 16, width)
}

/// The value of a digit of a radix up to 16, letters in either case.
pub open spec fn digit_value(b: u8, radix: int) -> Option<int> {
    let d = if 48 <= b <= 57 {
        b - 48
    } else if 65 <= b <= 70 {
        b - 55
    } else if 97 <= b <= 102 {
        b - 87
    } else {
        16
    };
    if d < radix {
        Some(d)
    } else {
        None
    }
}

/// Whether a run of bytes holds digits of the radix only.
pub open spec fn all_digits(bytes: Seq<u8>, radix: int) -> bool {
    forall|i: int| 0 <= i < bytes.len() ==> (#[trigger] digit_value(bytes[i], radix)) is Some
}

/// The value of a run of digits, most significant first.
pub open spec fn digits_value(bytes: Seq<u8>, radix: int) -> int
    decreases bytes.len(),
{
    if bytes.len() == 0 {
        0
    } else {
        digits_value(bytes.drop_last(), radix) * radix + digit_value(bytes.last(), radix)->0
    }
}

/// A number without its plus sign.
pub open spec fn without_plus(bytes: Seq<u8>) -> Seq<u8> {
    if bytes.len() > 0 && bytes[0] == 43 {
        bytes.drop_first()
    } else {
        bytes
    }
}

/// The number that a text spells: an optional plus sign, then at least one digit and nothing
/// but digits, the value at most `max`.
pub open spec fn number(bytes: Seq<u8>, radix: int, max: int) -> Option<int> {
    let digits = without_plus(bytes);
    if digits.len() > 0 && all_digits(digits, radix) && digits_value(digits, radix) <= max {
        Some(digits_value(digits, radix))
    } else {
        None
    }
}

fn digit_of(b: u8, radix: u64) -> (d: Option<u64>)
    requires
        2 <= radix <= 16,
    ensures
        d matches Some(v) ==> digit_value(b, radix as int) == Some(v as int) && v < radix,
        d is None ==> digit_value(b, radix as int) is None,
{
    let d: u64 = if 48 <= b && b <= 57 {
        (b - 48) as u64
    } else if 65 <= b && b <= 70 {
        (b - 55) as u64
    } else if 97 <= b && b <= 102 {
        (b - 87) as u64
    } else {
        16
    };
    if d < radix {
        Some(d)
    } else {
        None
    }
}

/// A longer run of digits is worth at least as much as its beginning.
proof fn lemma_prefix_value(bytes: Seq<u8>, n: int, radix: int)
    requires
        0 <= n <= bytes.len(),
        2 <= radix <= 16,
        all_digits(bytes, radix),
    ensures
        0 <= digits_value(bytes.take(n), radix) <= digits_value(bytes, radix),
    decreases bytes.len(),
{
    if bytes.len() == 0 {
        assert(bytes.take(n) =~= bytes);
    } else if n == bytes.len() {
        assert(bytes.take(n) =~= bytes);
        lemma_prefix_value(bytes.drop_last(), 0, radix);
        assert(digit_value(bytes[bytes.len() - 1], radix) is Some);
        let v = digits_value(bytes.drop_last(), radix);
        assert(v * radix >= 0) by (nonlinear_arith)
            requires
                v >= 0,
                radix >= 2,
        ;
    } else {
        lemma_prefix_value(bytes.drop_last(), n, radix);
        assert(bytes.drop_last().take(n) =~= bytes.take(n));
        assert(digit_value(bytes[bytes.len() - 1], radix) is Some);
        let v = digits_value(bytes.drop_last(), radix);
        assert(v * radix >= v) by (nonlinear_arith)
            requires
                v >= 0,
                radix >= 2,
        ;
    }
}

/// Reads the number that the bytes spell, if they spell one that is at most `max`.
pub fn parse_number(bytes: &[u8], radix: u64, max: u64) -> (n: Option<u64>)
    requires
        2 <= radix <= 16,
        max <= 0xFFFF_FFFF,
    ensures
        n matches Some(v) ==> number(bytes@, radix as int, max as int) == Some(v as int),
        n is None ==> number(bytes@, radix as int, max as int) is None,
{
    let start: usize = if bytes.len() > 0 && bytes[0] == 43 {
        1
    } else {
        0
    };
    let ghost digits = without_plus(bytes@);
    assert(digits =~= bytes@.subrange(start as int, bytes@.len() as int));
    if start == bytes.len() {
        return None;
    }
    let mut value: u64 = 0;
    let mut i: usize = start;
    assert(digits.take(0) =~= Seq::<u8>::empty());
    while i < bytes.len()
        invariant
            2 <= radix <= 16,
            max <= 0xFFFF_FFFF,
            start <= i <= bytes@.len(),
            start < bytes@.len(),
            digits == bytes@.subrange(start as int, bytes@.len() as int),
            digits == without_plus(bytes@),
            forall|k: int|
                0 <= k < i - start ==> (#[trigger] digit_value(digits[k], radix as int)) is Some,
            value == digits_value(digits.take(i - start), radix as int),
            value <= max,
        decreases bytes@.len() - i,
    {
        let ghost k = i - start;
        assert(digits[k] == bytes@[i as int]);
        match digit_of(bytes[i], radix) {
            Some(d) => {
                assert(digits.take(k + 1).drop_last() =~= digits.take(k));
                assert(digits.take(k + 1).last() == digits[k]);
                assert(value * radix <= 0xFFFF_FFFF * 16) by (nonlinear_arith)
                    requires
                        value <= max,
                        max <= 0xFFFF_FFFF,
                        radix <= 16,
                ;
                let next: u64 = value * radix + d;
                if next > max {
                    proof {
                        if all_digits(digits, radix as int) {
                            lemma_prefix_value(digits, k + 1, radix as int);
                        }
                    }
                    return None;
                }
                value = next;
            },
            None => {
                return None;
            },
        }
        i = i + 1;
    }
    assert(digits.take(i - start) =~= digits);
    Some(value)
}

/// Reads a text as `str::parse` reads a `u8`: an optional plus sign and decimal digits.
pub fn parse_u8(text: &str) -> (n: Option<u8>)
    ensures
        n matches Some(v) ==> number(vstd::utf8::encode_utf8(text@), 10, 255) == Some(v as int),
        n is None ==> number(vstd::utf8::encode_utf8(text@), 10, 255) is None,
{
    match parse_number(text.as_bytes(), 10, 255) {
        Some(v) => Some(v as u8),
        None => None,
    }
}

// ---------------------------------------------------------------------------
// Words and separators
// ---------------------------------------------------------------------------

/// The texts of a list of strings.
pub open spec fn texts(list: Seq<String>) -> Seq<Seq<char>> {
    list.map_values(|s: String| s@)
}

/// A list of texts with one more character at the end of the last one.
pub open spec fn extend_last(list: Seq<Seq<char>>, c: char) -> Seq<Seq<char>> {
    list.drop_last().push(list.last().push(c))
}

/// The words of a text: the longest runs of characters without white space, in order.
pub open spec fn words(text: Seq<char>) -> Seq<Seq<char>>
    decreases text.len(),
{
    if text.len() == 0 {
        Seq::empty()
    } else {
        let before = text.drop_last();
        if is_space(text.last()) {
            words(before)
        } else if before.len() > 0 && !is_space(before.last()) {
            extend_last(words(before), text.last())
        } else {
            words(before).push(seq![text.last()])
        }
    }
}

/// The pieces of a text between occurrences of a separator: always at least one piece.
pub open spec fn pieces(text: Seq<char>, separator: char) -> Seq<Seq<char>>
    decreases text.len(),
{
    if text.len() == 0 {
        seq![Seq::empty()]
    } else if text.last() == separator {
        pieces(text.drop_last(), separator).push(Seq::empty())
    } else {
        extend_last(pieces(text.drop_last(), separator), text.last())
    }
}

/// The parts in order, with a separator between each two.
pub open spec fn joined(parts: Seq<Seq<char>>, separator: Seq<char>) -> Seq<char>
    decreases parts.len(),
{
    if parts.len() == 0 {
        Seq::empty()
    } else if parts.len() == 1 {
        parts[0]
    } else {
        joined(parts.drop_last(), separator) + separator + parts.last()
    }
}

/// A text without the white space at its beginning.
pub open spec fn trimmed_start(text: Seq<char>) -> Seq<char>
    decreases text.len(),
{
    if text.len() > 0 && is_space(text[0]) {
        trimmed_start(text.drop_first())
    } else {
        text
    }
}

/// A text without the white space at its end.
pub open spec fn trimmed_end(text: Seq<char>) -> Seq<char>
    decreases text.len(),
{
    if text.len() > 0 && is_space(text.last()) {
        trimmed_end(text.drop_last())
    } else {
        text
    }
}

/// A text without the white space around it.
pub open spec fn trimmed(text: Seq<char>) -> Seq<char> {
    trimmed_end(trimmed_start(text))
}

/// Whether `part` stands somewhere in `text`.
pub open spec fn has_part(text: Seq<char>, part: Seq<char>) -> bool {
    exists|i: int|
        0 <= i <= text.len() - part.len() && #[trigger] text.subrange(i, i + part.len()) == part
}

proof fn lemma_last_word(text: Seq<char>)
    requires
        text.len() > 0,
        !is_space(text.last()),
    ensures
        words(text).len() > 0,
    decreases text.len(),
{
    let before = text.drop_last();
    if before.len() > 0 && !is_space(before.last()) {
        lemma_last_word(before);
    }
}

proof fn lemma_pieces_some(text: Seq<char>, separator: char)
    ensures
        pieces(text, separator).len() > 0,
    decreases text.len(),
{
    if text.len() > 0 {
        lemma_pieces_some(text.drop_last(), separator);
    }
}

/// Adds a character to the last string of a list.
fn push_to_last(list: &mut Vec<String>, c: char)
    requires
        old(list)@.len() > 0,
    ensures
        texts(final(list)@) == extend_last(texts(old(list)@), c),
{
    match list.pop() {
        Some(s) => {
            let mut last = s;
            last.push(c);
            list.push(last);
        },
        None => {},
    }
    assert(texts(list@) =~= extend_last(texts(old(list)@), c));
}

/// Splits a text into its words, as `str::split_whitespace` does.
pub fn split_words(text: &str) -> (list: Vec<String>)
    ensures
        texts(list@) == words(text@),
{
    let chars = to_chars(text);
    let mut list: Vec<String> = Vec::new();
    let mut inside = false;
    let mut i: usize = 0;
    assert(texts(list@) =~= words(chars@.take(0)));
    while i < chars.len()
        invariant
            i <= chars@.len(),
            texts(list@) == words(chars@.take(i as int)),
            inside == (i > 0 && !is_space(chars@[i - 1])),
        decreases chars@.len() - i,
    {
        let c = chars[i];
        let ghost taken = chars@.take(i as int);
        let ghost next = chars@.take(i + 1);
        assert(next.drop_last() =~= taken);
        assert(next.last() == c);
        if c.is_whitespace() {
            inside = false;
        } else {
            if inside {
                proof {
                    assert(taken.last() == chars@[i - 1]);
                    lemma_last_word(taken);
                    assert(texts(list@).len() == list@.len());
                }
                push_to_last(&mut list, c);
            } else {
                let mut word = String::new();
                word.push(c);
                let ghost earlier = texts(list@);
                list.push(word);
                assert(texts(list@) =~= earlier.push(seq![c]));
            }
            inside = true;
        }
        i = i + 1;
    }
    assert(chars@.take(i as int) =~= chars@);
    list
}

/// Splits a text at every occurrence of a separator, as `str::split` does.
pub fn split_pieces(text: &str, separator: char) -> (list: Vec<String>)
    ensures
        texts(list@) == pieces(text@, separator),
        list@.len() > 0,
{
    let chars = to_chars(text);
    let mut list: Vec<String> = Vec::new();
    list.push(String::new());
    let mut i: usize = 0;
    assert(texts(list@) =~= pieces(chars@.take(0), separator));
    while i < chars.len()
        invariant
            i <= chars@.len(),
            texts(list@) == pieces(chars@.take(i as int), separator),
            list@.len() > 0,
        decreases chars@.len() - i,
    {
        let c = chars[i];
        let ghost next = chars@.take(i + 1);
        assert(next.drop_last() =~= chars@.take(i as int));
        assert(next.last() == c);
        if c == separator {
            let ghost earlier = texts(list@);
            list.push(String::new());
            assert(texts(list@) =~= earlier.push(Seq::<char>::empty()));
        } else {
            push_to_last(&mut list, c);
            proof {
                lemma_pieces_some(next, separator);
                assert(texts(list@).len() == list@.len());
            }
        }
        i = i + 1;
    }
    assert(chars@.take(i as int) =~= chars@);
    list
}

/// Joins the parts with a separator between each two.
pub fn join(parts: &Vec<String>, separator: &str) -> (text: String)
    ensures
        text@ == joined(texts(parts@), separator@),
{
    let mut text = String::new();
    let mut i: usize = 0;
    assert(texts(parts@).take(0) =~= Seq::<Seq<char>>::empty());
    while i < parts.len()
        invariant
            i <= parts@.len(),
            text@ == joined(texts(parts@).take(i as int), separator@),
        decreases parts@.len() - i,
    {
        let ghost next = texts(parts@).take(i + 1);
        assert(next.drop_last() =~= texts(parts@).take(i as int));
        assert(next.last() == parts@[i as int]@);
        let ghost before = text@;
        if i > 0 {
            text.append(separator);
        }
        text.append(parts[i].as_str());
        assert(i == 0 ==> text@ =~= next[0]);
        i = i + 1;
    }
    assert(texts(parts@).take(i as int) =~= texts(parts@));
    text
}

/// Drops the white space around a text, as `str::trim` does.
pub fn trim(text: &str) -> (inner: String)
    ensures
        inner@ == trimmed(text@),
{
    let chars = to_chars(text);
    let mut from: usize = 0;
    let mut to: usize = chars.len();
    assert(chars@.skip(0) =~= chars@);
    while from < chars.len() && chars[from].is_whitespace()
        invariant
            from <= chars@.len(),
            trimmed_start(chars@) == trimmed_start(chars@.skip(from as int)),
        decreases chars@.len() - from,
    {
        assert(chars@.skip(from as int).drop_first() =~= chars@.skip(from + 1));
        from = from + 1;
    }
    assert(trimmed_start(chars@) == chars@.skip(from as int));
    assert(chars@.subrange(from as int, to as int) =~= chars@.skip(from as int));
    while from < to && chars[to - 1].is_whitespace()
        invariant
            from <= to <= chars@.len(),
            trimmed(chars@) == trimmed_end(chars@.subrange(from as int, to as int)),
        decreases to,
    {
        assert(chars@.subrange(from as int, to as int).drop_last() =~= chars@.subrange(
            from as int,
            to - 1,
        ));
        to = to - 1;
    }
    from_chars(&chars, from, to)
}

/// Whether `part` stands somewhere in `text`, as `str::contains` tells.
pub fn contains(text: &str, part: &str) -> (found: bool)
    ensures
        found == has_part(text@, part@),
{
    let t = to_chars(text);
    let p = to_chars(part);
    if p.len() > t.len() {
        return false;
    }
    let last: usize = t.len() - p.len();
    let mut i: usize = 0;
    while i <= last
        invariant
            t@ == text@,
            p@ == part@,
            t@.len() == t.len(),
            last == t@.len() - p@.len(),
            i <= last + 1,
            forall|k: int| 0 <= k < i ==> #[trigger] t@.subrange(k, k + p@.len()) != p@,
        decreases last + 1 - i,
    {
        let mut n: usize = 0;
        while n < p.len() && t[i + n] == p[n]
            invariant
                i + p@.len() <= t@.len() == t.len(),
                n <= p@.len(),
                forall|k: int| 0 <= k < n ==> t@[i + k] == p@[k],
            decreases p@.len() - n,
        {
            n = n + 1;
        }
        let ghost window = t@.subrange(i as int, i + p@.len());
        if n == p.len() {
            assert(window =~= p@);
            return true;
        }
        assert(window[n as int] != p@[n as int]);
        if i == last {
            return false;
        }
        i = i + 1;
    }
    false
}

// ---------------------------------------------------------------------------
// Columns
// ---------------------------------------------------------------------------

/// The same character `n` times.
pub open spec fn repeated(c: char, n: nat) -> Seq<char> {
    Seq::new(n, |i: int| c)
}

/// A text at the right end of a column.
pub open spec fn right_aligned(text: Seq<char>, width: nat) -> Seq<char> {
    if text.len() < width {
        repeated(' ', (width - text.len()) as nat) + text
    } else {
        text
    }
}

/// Writes the same character `n` times.
pub fn repeat_char(c: char, n: usize) -> (text: String)
    ensures
        text@ == repeated(c, n as nat),
{
    let mut text = String::new();
    let mut i: usize = 0;
    while i < n
        invariant
            i <= n,
            text@ == repeated(c, i as nat),
        decreases n - i,
    {
        text.push(c);
        assert(text@ =~= repeated(c, (i + 1) as nat));
        i = i + 1;
    }
    text
}

/// Writes a text at the right end of a column.
pub fn align_right(text: &str, width: usize) -> (column: String)
    ensures
        column@ == right_aligned(text@, width as nat),
{
    let len: usize = text.unicode_len();
    if len < width {
        repeat_char(' ', width - len).concat(text)
    } else {
        text.to_owned()
    }
}

// ---------------------------------------------------------------------------
// Bytes in text
// ---------------------------------------------------------------------------

/// What becomes of bytes that are not UTF-8 when they are read as text all the same.
pub uninterp spec fn repaired_utf8(bytes: Seq<u8>) -> Seq<char>;

/// Bytes read as text.
pub open spec fn lossy_text(bytes: Seq<u8>) -> Seq<char> {
    if vstd::utf8::valid_utf8(bytes) {
        vstd::utf8::decode_utf8(bytes)
    } else {
        repaired_utf8(bytes)
    }
}

/// `String::from_utf8_lossy`: UTF-8 is decoded. What becomes of other bytes is a function of
/// those bytes and is not spelled out.
#[verifier::external_body]
pub(crate) fn from_utf8_lossy(bytes: &[u8]) -> (text: String)
    ensures
        text@ == (if vstd::utf8::valid_utf8(bytes@) {
            vstd::utf8::decode_utf8(bytes@)
        } else {
            repaired_utf8(bytes@)
        }),
{
    String::from_utf8_lossy(bytes).into_owned()
}

/// Bytes as pairs of hexadecimal digits, without separators.
pub open spec fn hex_run(data: Seq<u8>) -> Seq<char>
    decreases data.len(),
{
    if data.len() == 0 {
        Seq::empty()
    } else {
        hex_run(data.drop_last()) + hex(data.last() as nat, 2)
    }
}

/// Bytes as pairs of hexadecimal digits, separated by spaces.
pub open spec fn hex_list(data: Seq<u8>) -> Seq<char> {
    joined(data.map_values(|b: u8| hex(b as nat, 2)), " "@)
}

/// Writes bytes as pairs of hexadecimal digits, separated by spaces.
pub fn hex_str(data: &[u8]) -> (text: String)
    ensures
        text@ == hex_list(data@),
{
    let mut parts: Vec<String> = Vec::new();
    let mut i: usize = 0;
    while i < data.len()
        invariant
            i <= data@.len(),
            texts(parts@) == data@.take(i as int).map_values(|b: u8| hex(b as nat, 2)),
        decreases data@.len() - i,
    {
        let ghost before = texts(parts@);
        parts.push(hex_text(data[i] as u64, 2));
        assert(texts(parts@) =~= before.push(hex(data@[i as int] as nat, 2)));
        assert(data@.take(i + 1).map_values(|b: u8| hex(b as nat, 2)) =~= before.push(
            hex(data@[i as int] as nat, 2),
        ));
        i = i + 1;
    }
    assert(data@.take(i as int) =~= data@);
    join(&parts, " ")
}

// ---------------------------------------------------------------------------
// Reading back what was written
// ---------------------------------------------------------------------------

/// The bytes of an ASCII text.
pub open spec fn ascii_bytes(text: Seq<char>) -> Seq<u8> {
    text.map_values(|c: char| c as u8)
}

/// Whether a number has at most `width` digits.
pub open spec fn has_width(n: nat, base: nat, width: nat) -> bool
    decreases width,
{
    if width == 0 {
        n == 0
    } else {
        has_width(n / base, base, (width - 1) as nat)
    }
}

/// The UTF-8 form of an ASCII text has one byte per character.
pub(crate) proof fn lemma_ascii_encoding(text: Seq<char>)
    requires
        vstd::utf8::is_ascii_chars(text),
    ensures
        vstd::utf8::encode_utf8(text) == ascii_bytes(text),
{
    vstd::utf8::is_ascii_chars_encode_utf8(text);
    assert(vstd::utf8::encode_utf8(text) =~= ascii_bytes(text));
}

/// Digits are written as ASCII digits and letters, and worth the number they were written for.
pub(crate) proof fn lemma_padded(n: nat, base: nat, width: nat)
    requires
        2 <= base <= 16,
    ensures
        padded(n, base, width).len() == width,
        forall|i: int|
            0 <= i < width ==> {
                let c = #[trigger] padded(n, base, width)[i];
                '0' <= c <= '9' || 'A' <= c <= 'F'
            },
        all_digits(ascii_bytes(padded(n, base, width)), base as int),
        has_width(n, base, width) ==> digits_value(
            ascii_bytes(padded(n, base, width)),
            base as int,
        ) == n,
    decreases width,
{
    if width > 0 {
        let rest = (width - 1) as nat;
        lemma_padded(n / base, base, rest);
        let before = padded(n / base, base, rest);
        let now = padded(n, base, width);
        let d = (n % base) as int;
        assert(0 <= d < base) by (nonlinear_arith)
            requires
                d == n % base,
                base >= 2,
        ;
        let c = digit_char(d);
        assert(now == before.push(c));
        let bytes = ascii_bytes(now);
        assert(bytes.drop_last() =~= ascii_bytes(before));
        assert(bytes.last() == c as u8);
        assert(digit_value(c as u8, base as int) == Some(d));
        assert forall|i: int| 0 <= i < bytes.len() implies (#[trigger] digit_value(
            bytes[i],
            base as int,
        )) is Some by {
            if i < rest {
                assert(bytes[i] == ascii_bytes(before)[i]);
            }
        }
        if has_width(n, base, width) {
            assert(n == (n / base) * base + n % base) by (nonlinear_arith)
                requires
                    base >= 2,
            ;
        }
    }
}

/// A hexadecimal number of full width reads back as itself.
pub(crate) proof fn lemma_hex_number(n: nat, width: nat, max: int)
    requires
        width > 0,
        has_width(n, 16, width),
        n <= max,
    ensures
        number(ascii_bytes(hex(n, width)), 16, max) == Some(n as int),
{
    lemma_padded(n, 16, width);
    let bytes = ascii_bytes(hex(n, width));
    assert(bytes[0] == hex(n, width)[0] as u8);
    assert(without_plus(bytes) == bytes);
}

/// A byte written as two digits reads back as itself.
pub(crate) proof fn lemma_hex_byte(b: u8)
    ensures
        number(ascii_bytes(hex(b as nat, 2)), 16, 0xFF) == Some(b as int),
{
    reveal_with_fuel(has_width, 3);
    lemma_hex_number(b as nat, 2, 0xFF);
}

/// A run of bytes takes two digits for each of them, in order.
pub(crate) proof fn lemma_hex_run(data: Seq<u8>)
    ensures
        hex_run(data).len() == 2 * data.len(),
        forall|i: int|
            0 <= i < data.len() ==> #[trigger] hex_run(data).subrange(2 * i, 2 * i + 2) == hex(
                data[i] as nat,
                2,
            ),
        forall|i: int|
            0 <= i < 2 * data.len() ==> {
                let c = #[trigger] hex_run(data)[i];
                '0' <= c <= '9' || 'A' <= c <= 'F'
            },
    decreases data.len(),
{
    if data.len() > 0 {
        let head = data.drop_last();
        lemma_hex_run(head);
        lemma_padded(data.last() as nat, 16, 2);
        let before = hex_run(head);
        let last = hex(data.last() as nat, 2);
        assert(hex_run(data) == before + last);
        assert forall|i: int| 0 <= i < data.len() implies #[trigger] hex_run(data).subrange(
            2 * i,
            2 * i + 2,
        ) == hex(data[i] as nat, 2) by {
            if i < head.len() {
                assert((before + last).subrange(2 * i, 2 * i + 2) =~= before.subrange(
                    2 * i,
                    2 * i + 2,
                ));
                assert(head[i] == data[i]);
            } else {
                assert((before + last).subrange(2 * i, 2 * i + 2) =~= last);
            }
        }
        assert forall|i: int| 0 <= i < 2 * data.len() implies {
            let c = #[trigger] hex_run(data)[i];
            '0' <= c <= '9' || 'A' <= c <= 'F'
        } by {
            if i < before.len() {
                assert(hex_run(data)[i] == before[i]);
            } else {
                assert(hex_run(data)[i] == last[i - before.len()]);
            }
        }
    }
}

/// Whether a text is a word: not empty and without white space.
pub open spec fn is_word(text: Seq<char>) -> bool {
    text.len() > 0 && forall|i: int| 0 <= i < text.len() ==> !is_space(#[trigger] text[i])
}

/// A word behind white space is one more word.
pub(crate) proof fn lemma_words_more(text: Seq<char>, word: Seq<char>)
    requires
        is_word(word),
        text.len() == 0 || is_space(text.last()),
    ensures
        words(text + word) == words(text).push(word),
    decreases word.len(),
{
    let whole = text + word;
    let before = word.drop_last();
    assert(whole.drop_last() =~= text + before);
    assert(whole.last() == word[word.len() - 1]);
    if before.len() == 0 {
        assert(text + before =~= text);
        assert(word =~= seq![word.last()]);
    } else {
        assert forall|i: int| 0 <= i < before.len() implies !is_space(#[trigger] before[i]) by {
            assert(before[i] == word[i]);
        }
        lemma_words_more(text, before);
        assert((text + before).last() == before[before.len() - 1]);
        assert(word =~= before.push(word.last()));
        assert(extend_last(words(text).push(before), word.last()) =~= words(text).push(word));
    }
}

/// The words of a text that begins with a word begin with that word.
pub(crate) proof fn lemma_words_first(word: Seq<char>, rest: Seq<char>)
    requires
        is_word(word),
        rest.len() == 0 || is_space(rest[0]),
    ensures
        words(word + rest).len() > 0,
        words(word + rest)[0] == word,
        rest.len() > 0 && !is_space(rest.last()) ==> words(word + rest).len() > 1,
    decreases rest.len(),
{
    let whole = word + rest;
    if rest.len() == 0 {
        lemma_words_more(Seq::empty(), word);
        assert(whole =~= Seq::empty() + word);
    } else {
        let before = rest.drop_last();
        lemma_words_first(word, before);
        assert(whole.drop_last() =~= word + before);
        assert(whole.last() == rest.last());
        if before.len() > 0 {
            assert((word + before).last() == before.last());
        }
    }
}

/// Words joined by spaces are the words of what comes out.
pub proof fn law_join_words(parts: Seq<Seq<char>>)
    requires
        forall|i: int| 0 <= i < parts.len() ==> is_word(#[trigger] parts[i]),
    ensures
        words(joined(parts, " "@)) == parts,
    decreases parts.len(),
{
    reveal_strlit(" ");
    if parts.len() == 0 {
        assert(words(joined(parts, " "@)) =~= parts);
    } else if parts.len() == 1 {
        lemma_words_more(Seq::empty(), parts[0]);
        assert(Seq::empty() + parts[0] =~= parts[0]);
        assert(words(joined(parts, " "@)) =~= parts);
    } else {
        let before = parts.drop_last();
        assert forall|i: int| 0 <= i < before.len() implies is_word(#[trigger] before[i]) by {
            assert(before[i] == parts[i]);
        }
        law_join_words(before);
        let start = joined(before, " "@) + " "@;
        assert(start.last() == ' ');
        assert(start.drop_last() =~= joined(before, " "@));
        assert(is_word(parts[parts.len() - 1]));
        lemma_words_more(start, parts.last());
        assert(words(start) == words(joined(before, " "@)));
        assert(before.push(parts.last()) =~= parts);
    }
}

/// A number in decimal is a word.
pub(crate) proof fn lemma_decimal_word(n: nat)
    ensures
        is_word(decimal(n)),
        forall|i: int| 0 <= i < decimal(n).len() ==> '0' <= #[trigger] decimal(n)[i] <= '9',
    decreases n,
{
    if n >= 10 {
        lemma_decimal_word(n / 10);
    }
}

/// A text without the separator goes behind a text whose last piece is empty as its last piece.
proof fn lemma_last_piece(text: Seq<char>, part: Seq<char>, separator: char)
    requires
        forall|i: int| 0 <= i < part.len() ==> #[trigger] part[i] != separator,
        pieces(text, separator).len() > 0,
        pieces(text, separator).last().len() == 0,
    ensures
        pieces(text + part, separator) == pieces(text, separator).drop_last().push(part),
    decreases part.len(),
{
    let whole = text + part;
    if part.len() == 0 {
        assert(whole =~= text);
        assert(pieces(text, separator).last() =~= part);
        assert(pieces(text, separator) =~= pieces(text, separator).drop_last().push(part));
    } else {
        let before = part.drop_last();
        assert forall|i: int| 0 <= i < before.len() implies #[trigger] before[i] != separator by {
            assert(before[i] == part[i]);
        }
        lemma_last_piece(text, before, separator);
        assert(whole.drop_last() =~= text + before);
        assert(whole.last() == part[part.len() - 1]);
        assert(part =~= before.push(part.last()));
        assert(extend_last(
            pieces(text, separator).drop_last().push(before),
            part.last(),
        ) =~= pieces(text, separator).drop_last().push(part));
    }
}

/// Parts without the separator in them are what the text joined from them is split into.
pub proof fn law_join_pieces(parts: Seq<Seq<char>>, separator: char)
    requires
        parts.len() > 0,
        forall|i: int, j: int|
            0 <= i < parts.len() && 0 <= j < parts[i].len() ==> #[trigger] parts[i][j]
                != separator,
    ensures
        pieces(joined(parts, seq![separator]), separator) == parts,
    decreases parts.len(),
{
    let last = parts.last();
    assert forall|j: int| 0 <= j < last.len() implies #[trigger] last[j] != separator by {
        assert(parts[parts.len() - 1][j] == last[j]);
    }
    if parts.len() == 1 {
        lemma_last_piece(Seq::empty(), last, separator);
        assert(Seq::empty() + last =~= last);
        assert(seq![Seq::<char>::empty()].drop_last().push(last) =~= parts);
    } else {
        let before = parts.drop_last();
        assert forall|i: int, j: int|
            0 <= i < before.len() && 0 <= j < before[i].len() implies #[trigger] before[i][j]
            != separator by {
            assert(before[i] == parts[i]);
            assert(parts[i][j] != separator);
        }
        law_join_pieces(before, separator);
        let start = joined(before, seq![separator]) + seq![separator];
        assert(start.last() == separator);
        assert(start.drop_last() =~= joined(before, seq![separator]));
        assert(pieces(start, separator) == before.push(Seq::empty()));
        lemma_last_piece(start, last, separator);
        assert(before.push(Seq::empty()).drop_last() =~= before);
        assert(before.push(last) =~= parts);
    }
}

/// A number that is written in decimal is read as that number.
pub proof fn law_decimal_number(n: nat, max: int)
    requires
        n <= max,
    ensures
        number(vstd::utf8::encode_utf8(decimal(n)), 10, max) == Some(n as int),
{
    lemma_decimal_digits(n);
    lemma_ascii_encoding(decimal(n));
    let bytes = vstd::utf8::encode_utf8(decimal(n));
    assert(bytes =~= ascii_bytes(decimal(n)));
    assert(bytes[0] != 43);
    assert(without_plus(bytes) =~= bytes);
}

proof fn lemma_decimal_digits(n: nat)
    ensures
        decimal(n).len() > 0,
        vstd::utf8::is_ascii_chars(decimal(n)),
        forall|i: int| 0 <= i < decimal(n).len() ==> 48 <= #[trigger] decimal(n)[i] as int <= 57,
        all_digits(ascii_bytes(decimal(n)), 10),
        digits_value(ascii_bytes(decimal(n)), 10) == n,
    decreases n,
{
    let text = decimal(n);
    let bytes = ascii_bytes(text);
    if n >= 10 {
        let before = decimal(n / 10);
        lemma_decimal_digits(n / 10);
        assert(text.drop_last() =~= before);
        assert(bytes.drop_last() =~= ascii_bytes(before));
        assert forall|i: int| 0 <= i < text.len() implies 48 <= #[trigger] text[i] as int <= 57 by {
            if i < before.len() {
                assert(text[i] == before[i]);
            }
        }
    } else {
        assert(bytes.drop_last() =~= Seq::<u8>::empty());
    }
    assert forall|i: int| 0 <= i < bytes.len() implies (#[trigger] digit_value(bytes[i], 10))
        is Some by {
        assert(48 <= text[i] as int <= 57);
    }
    assert(bytes.last() == text.last() as u8);
    assert(text.last() == digit_char((n % 10) as int));
    assert(digit_value(bytes.last(), 10) == Some((n % 10) as int));
    assert(digits_value(Seq::<u8>::empty(), 10) == 0);
    assert(digits_value(bytes.drop_last(), 10) == n / 10);
}

/// A text in a column is the text with spaces before it, as many as the column has room for.
pub proof fn law_right_aligned(text: Seq<char>, width: nat)
    ensures
        ({
            let line = right_aligned(text, width);
            let free = line.len() - text.len();
            &&& line.len() == if text.len() < width {
                width
            } else {
                text.len()
            }
            &&& line.skip(free) == text
            &&& forall|i: int| 0 <= i < free ==> #[trigger] line[i] == ' '
        }),
{
    let line = right_aligned(text, width);
    assert(line.skip(line.len() - text.len()) =~= text);
}

/// A trimmed text is a part of the text, with white space alone before it and behind it, and
/// neither begins nor ends with white space.
pub proof fn law_trimmed(text: Seq<char>)
    ensures
        ({
            let t = trimmed(text);
            &&& t.len() > 0 ==> !is_space(t[0]) && !is_space(t.last())
            &&& exists|a: int, b: int|
                0 <= a <= b <= text.len() && t == #[trigger] text.subrange(a, b) && (forall|i: int|
                    0 <= i < a ==> is_space(#[trigger] text[i])) && (forall|i: int|
                    b <= i < text.len() ==> is_space(#[trigger] text[i]))
        }),
{
    let a = lemma_trimmed_start(text);
    let rest = trimmed_start(text);
    let n = lemma_trimmed_end(rest);
    let b = a + n;
    assert(trimmed(text) =~= text.subrange(a, b));
    assert forall|i: int| b <= i < text.len() implies is_space(#[trigger] text[i]) by {
        assert(text[i] == rest[i - a]);
    }
    if n > 0 {
        assert(trimmed(text)[0] == rest[0]);
    }
}

proof fn lemma_trimmed_start(text: Seq<char>) -> (a: int)
    ensures
        0 <= a <= text.len(),
        trimmed_start(text) == text.skip(a),
        forall|i: int| 0 <= i < a ==> is_space(#[trigger] text[i]),
        a < text.len() ==> !is_space(text[a]),
    decreases text.len(),
{
    if text.len() > 0 && is_space(text[0]) {
        let rest = text.drop_first();
        let a = lemma_trimmed_start(rest);
        assert(rest.skip(a) =~= text.skip(a + 1));
        assert forall|i: int| 0 <= i < a + 1 implies is_space(#[trigger] text[i]) by {
            if i > 0 {
                assert(rest[i - 1] == text[i]);
            }
        }
        a + 1
    } else {
        assert(text.skip(0) =~= text);
        0
    }
}

proof fn lemma_trimmed_end(text: Seq<char>) -> (n: int)
    ensures
        0 <= n <= text.len(),
        trimmed_end(text) == text.take(n),
        forall|i: int| n <= i < text.len() ==> is_space(#[trigger] text[i]),
        n > 0 ==> !is_space(text[n - 1]),
    decreases text.len(),
{
    if text.len() > 0 && is_space(text.last()) {
        let rest = text.drop_last();
        let n = lemma_trimmed_end(rest);
        assert(rest.take(n) =~= text.take(n));
        assert forall|i: int| n <= i < text.len() implies is_space(#[trigger] text[i]) by {
            if i < rest.len() {
                assert(rest[i] == text[i]);
            }
        }
        if n > 0 {
            assert(rest[n - 1] == text[n - 1]);
        }
        n
    } else {
        assert(text.take(text.len() as int) =~= text);
        text.len() as int
    }
}

/// Pieces put together again, with the separator between each two, are the text.
pub proof fn law_pieces_join(text: Seq<char>, separator: char)
    ensures
        joined(pieces(text, separator), seq![separator]) == text,
    decreases text.len(),
{
    if text.len() > 0 {
        let before = text.drop_last();
        let list = pieces(before, separator);
        law_pieces_join(before, separator);
        lemma_pieces_some(before, separator);
        if text.last() == separator {
            let more = list.push(Seq::empty());
            assert(more.drop_last() =~= list);
            assert(joined(more, seq![separator]) =~= text);
        } else {
            let more = extend_last(list, text.last());
            assert(more.drop_last() =~= list.drop_last());
            assert(joined(more, seq![separator]) =~= joined(list, seq![separator]).push(
                text.last(),
            ));
            assert(before.push(text.last()) =~= text);
        }
    }
}

/// The words of a text are words: none is empty or holds white space.
pub proof fn law_words_are_words(text: Seq<char>)
    ensures
        forall|i: int| 0 <= i < words(text).len() ==> is_word(#[trigger] words(text)[i]),
        text.len() > 0 && !is_space(text.last()) ==> words(text).len() > 0,
    decreases text.len(),
{
    if text.len() > 0 {
        let before = text.drop_last();
        law_words_are_words(before);
        if !is_space(text.last()) && before.len() > 0 && !is_space(before.last()) {
            let last = words(before).last();
            assert(is_word(words(before)[words(before).len() - 1]));
            assert(is_word(last.push(text.last())));
        }
    }
}

/// In lower case, the 26 capitals of ASCII become the small letters 32 places further on, and
/// no other ASCII character changes. So a second time changes nothing.
pub proof fn law_ascii_lower(text: Seq<char>, i: int)
    requires
        vstd::utf8::is_ascii_chars(text),
        0 <= i < text.len(),
    ensures
        lowercase(text).len() == text.len(),
        65 <= text[i] as int <= 90 ==> lowercase(text)[i] as int == text[i] as int + 32,
        (text[i] as int) < 65 || text[i] as int > 90 ==> lowercase(text)[i] == text[i],
        lowercase(lowercase(text)) == lowercase(text),
{
    let low = lowercase(text);
    assert forall|k: int| 0 <= k < low.len() implies '\0' <= #[trigger] low[k] <= '\u{7f}' by {
        assert('\0' <= text[k] <= '\u{7f}');
    }
    assert(lowercase(low) =~= low);
}

/// Among ASCII characters, space and those with the numbers 9 to 13 separate words; letters
/// and digits count as alphanumeric, which leaves 62.
pub proof fn law_ascii_classes(c: char)
    requires
        (c as int) < 128,
    ensures
        is_space(c) <==> c as int == 32 || 9 <= c as int <= 13,
        is_alphanumeric(c) <==> 48 <= c as int <= 57 || 65 <= c as int <= 90 || 97 <= c as int
            <= 122,
{
}

/// The digits are 0 to 9 and then A onwards, and each reads back as its value.
pub proof fn law_digits(d: int)
    requires
        0 <= d < 16,
    ensures
        d < 10 ==> digit_char(d) as int == 48 + d,
        d >= 10 ==> digit_char(d) as int == 55 + d,
        digit_value(digit_char(d) as u8, 16) == Some(d),
        d < 10 ==> digit_value(digit_char(d) as u8, 10) == Some(d),
        d >= 10 ==> digit_value(digit_char(d) as u8, 10) is None,
{
}

} // verus!

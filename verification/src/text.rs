//! Small verified string helpers shared by the formatting and parsing code.

use vstd::prelude::*;

verus! {

/// The decimal digit character for `d` (0..=9).
pub open spec fn digit_char(d: int) -> char {
    (('0' as int) + d) as char
}

/// Whether `c` is one of the ASCII digits `0`..`9`.
pub open spec fn is_digit(c: char) -> bool {
    '0' <= c && c <= '9'
}

/// The numeric value of an ASCII digit character.
pub open spec fn digit_value(c: char) -> int {
    (c as int) - ('0' as int)
}

/// Decimal representation of a natural number, without leading zeros.
pub open spec fn nat_text(n: nat) -> Seq<char>
    decreases n,
{
    if n < 10 {
        seq![digit_char(n as int)]
    } else {
        nat_text(n / 10).push(digit_char((n % 10) as int))
    }
}

/// Decimal representation of an integer, with a leading `-` for negative values.
pub open spec fn int_text(n: int) -> Seq<char> {
    if n < 0 {
        seq!['-'] + nat_text((-n) as nat)
    } else {
        nat_text(n as nat)
    }
}

/// Two-digit zero-padded representation of `n` (0..=99).
pub open spec fn two_digits(n: nat) -> Seq<char> {
    seq![digit_char((n / 10) as int), digit_char((n % 10) as int)]
}

/// ASCII lower-casing of one character; other characters stay as they are.
pub open spec fn ascii_lower(c: char) -> char {
    if 'A' <= c && c <= 'Z' {
        ((c as int) + 32) as char
    } else {
        c
    }
}

/// Case-insensitive equality in the ASCII sense.
pub open spec fn eq_ignore_ascii_case(a: Seq<char>, b: Seq<char>) -> bool {
    &&& a.len() == b.len()
    &&& forall|i: int| 0 <= i < a.len() ==> ascii_lower(#[trigger] a[i]) == ascii_lower(b[i])
}

/// `needle` occurs in `hay` starting at position `i`.
pub open spec fn occurs_at(hay: Seq<char>, needle: Seq<char>, i: int) -> bool {
    &&& 0 <= i
    &&& i + needle.len() <= hay.len()
    &&& hay.subrange(i, i + needle.len()) == needle
}

/// `needle` is a contiguous part of `hay`.
pub open spec fn contains_seq(hay: Seq<char>, needle: Seq<char>) -> bool {
    exists|i: int| occurs_at(hay, needle, i)
}

/// The value of a sequence of ASCII digits read in base ten.
pub open spec fn digits_value(s: Seq<char>) -> int
    decreases s.len(),
{
    if s.len() == 0 {
        0
    } else {
        10 * digits_value(s.drop_last()) + digit_value(s.last())
    }
}

/// Every character of `s` is an ASCII digit.
pub open spec fn all_digits(s: Seq<char>) -> bool {
    forall|i: int| 0 <= i < s.len() ==> is_digit(#[trigger] s[i])
}

/// What `str::parse::<i32>` yields: an optional sign followed by at least one digit,
/// whose value fits in `i32`.
pub open spec fn spec_parse_i32(s: Seq<char>) -> Option<i32> {
    let neg = s.len() > 0 && s[0] == '-';
    let signed = s.len() > 0 && (s[0] == '-' || s[0] == '+');
    let body = if signed { s.drop_first() } else { s };
    let v = if neg { -digits_value(body) } else { digits_value(body) };
    if body.len() > 0 && all_digits(body) && i32::MIN <= v && v <= i32::MAX {
        Some(v as i32)
    } else {
        None
    }
}

/// Whether `c` has Unicode's White_Space property, which `char::is_whitespace` and
/// `str::trim` go by: tab to carriage return, space, next line, no-break space, ogham
/// space mark, en quad to hair space, line and paragraph separator, narrow no-break
/// space, medium mathematical space and ideographic space.
pub open spec fn is_white_space(c: char) -> bool {
    let v = c as u32;
    ||| 0x09 <= v <= 0x0d
    ||| v == 0x20
    ||| v == 0x85
    ||| v == 0xa0
    ||| v == 0x1680
    ||| 0x2000 <= v <= 0x200a
    ||| v == 0x2028
    ||| v == 0x2029
    ||| v == 0x202f
    ||| v == 0x205f
    ||| v == 0x3000
}

/// The text without its leading white space.
pub open spec fn trim_start(s: Seq<char>) -> Seq<char>
    decreases s.len(),
{
    if s.len() > 0 && is_white_space(s[0]) {
        trim_start(s.drop_first())
    } else {
        s
    }
}

/// The text without its trailing white space.
pub open spec fn trim_end(s: Seq<char>) -> Seq<char>
    decreases s.len(),
{
    if s.len() > 0 && is_white_space(s.last()) {
        trim_end(s.drop_last())
    } else {
        s
    }
}

/// What `str::trim` leaves of a string: the text without leading and trailing white space.
pub open spec fn spec_trim(s: Seq<char>) -> Seq<char> {
    trim_end(trim_start(s))
}

/// What `str::to_lowercase` returns for a string.
pub uninterp spec fn spec_lowercase(s: Seq<char>) -> Seq<char>;

/// Appends one character to a `String` (std's `String::push`).
#[verifier::external_body]
pub(crate) fn push_char(s: &mut String, c: char)
    ensures
        final(s)@ == old(s)@.push(c),
{
    s.push(c);
}

/// Whether `c` is white space (see `is_white_space`).
fn is_white(c: char) -> (r: bool)
    ensures
        r == is_white_space(c),
{
    let v = c as u32;
    (0x09 <= v && v <= 0x0d) || v == 0x20 || v == 0x85 || v == 0xa0 || v == 0x1680 || (0x2000 <= v && v <= 0x200a)
        || v == 0x2028 || v == 0x2029 || v == 0x202f || v == 0x205f || v == 0x3000
}

/// The text without leading and trailing white space, as `str::trim` gives it (see
/// `spec_trim`).
pub(crate) fn trim(s: &str) -> (r: String)
    ensures
        r@ == spec_trim(s@),
{
    let cs = chars_of(s);
    let n = cs.len();
    let mut i: usize = 0;
    assert(cs@.subrange(0, n as int) =~= cs@);
    while i < n && is_white(cs[i])
        invariant
            i <= n,
            n == cs@.len(),
            trim_start(cs@) == trim_start(cs@.subrange(i as int, n as int)),
        decreases n - i,
    {
        assert(cs@.subrange(i as int, n as int).drop_first() =~= cs@.subrange(i + 1, n as int));
        i = i + 1;
    }
    assert(trim_start(cs@) == cs@.subrange(i as int, n as int));
    let mut j: usize = n;
    while j > i && is_white(cs[j - 1])
        invariant
            i <= j <= n,
            n == cs@.len(),
            trim_end(cs@.subrange(i as int, n as int)) == trim_end(cs@.subrange(i as int, j as int)),
        decreases j - i,
    {
        assert(cs@.subrange(i as int, j as int).drop_last() =~= cs@.subrange(i as int, j - 1));
        j = j - 1;
    }
    assert(trim_end(cs@.subrange(i as int, j as int)) == cs@.subrange(i as int, j as int));
    let mut out: Vec<char> = Vec::new();
    let mut k: usize = i;
    while k < j
        invariant
            i <= k <= j,
            j <= n,
            n == cs@.len(),
            out@ == cs@.subrange(i as int, k as int),
        decreases j - k,
    {
        out.push(cs[k]);
        assert(out@ =~= cs@.subrange(i as int, k + 1));
        k = k + 1;
    }
    string_from_chars(&out)
}

/// `str::to_lowercase`: the Unicode lower-case form of the string. The result is named;
/// the Unicode case tables are not restated here.
#[verifier::external_body]
pub(crate) fn to_lowercase(s: &str) -> (r: String)
    ensures
        r@ == spec_lowercase(s@),
{
    s.to_lowercase()
}

/// The number of terminal columns a string takes (unicode-width's `UnicodeWidthStr::width`).
pub uninterp spec fn spec_display_width(s: Seq<char>) -> usize;

/// `UnicodeWidthStr::width`: the columns a string takes in a terminal. The result is
/// named; the Unicode width tables are not restated.
#[verifier::external_body]
pub(crate) fn display_width(s: &str) -> (r: usize)
    ensures
        r == spec_display_width(s@),
{
    unicode_width::UnicodeWidthStr::width(s)
}

/// The characters of a string slice, in order.
pub fn chars_of(s: &str) -> (r: Vec<char>)
    ensures
        r@ == s@,
{
    let n = s.unicode_len();
    let mut out: Vec<char> = Vec::new();
    let mut i: usize = 0;
    while i < n
        invariant
            n == s@.len(),
            i <= n,
            out@ == s@.subrange(0, i as int),
        decreases n - i,
    {
        let c = s.get_char(i);
        out.push(c);
        i = i + 1;
    }
    out
}

/// Builds a `String` from a sequence of characters.
pub fn string_from_chars(cs: &Vec<char>) -> (r: String)
    ensures
        r@ == cs@,
{
    let mut out = String::new();
    let mut i: usize = 0;
    while i < cs.len()
        invariant
            i <= cs.len(),
            out@ == cs@.subrange(0, i as int),
        decreases cs.len() - i,
    {
        push_char(&mut out, cs[i]);
        i = i + 1;
    }
    out
}

/// Character-wise equality of two string slices.
pub fn str_eq(a: &str, b: &str) -> (r: bool)
    ensures
        r == (a@ == b@),
{
    let x = chars_of(a);
    let y = chars_of(b);
    if x.len() != y.len() {
        return false;
    }
    let mut i: usize = 0;
    while i < x.len()
        invariant
            x@ == a@,
            y@ == b@,
            x.len() == y.len(),
            i <= x.len(),
            forall|j: int| 0 <= j < i ==> x@[j] == y@[j],
        decreases x.len() - i,
    {
        if x[i] != y[i] {
            return false;
        }
        i = i + 1;
    }
    assert(a@ =~= b@);
    true
}

/// ASCII lower-casing of one character.
pub fn lower_ascii_char(c: char) -> (r: char)
    ensures
        r == ascii_lower(c),
{
    if 'A' <= c && c <= 'Z' {
        let b: u8 = (c as u8) + 32;
        let r = b as char;
        r
    } else {
        c
    }
}

/// `str::eq_ignore_ascii_case`.
pub fn eq_ignore_case(a: &str, b: &str) -> (r: bool)
    ensures
        r == eq_ignore_ascii_case(a@, b@),
{
    let x = chars_of(a);
    let y = chars_of(b);
    if x.len() != y.len() {
        return false;
    }
    let mut i: usize = 0;
    while i < x.len()
        invariant
            x@ == a@,
            y@ == b@,
            x.len() == y.len(),
            i <= x.len(),
            forall|j: int| 0 <= j < i ==> ascii_lower(#[trigger] x@[j]) == ascii_lower(y@[j]),
        decreases x.len() - i,
    {
        if lower_ascii_char(x[i]) != lower_ascii_char(y[i]) {
            return false;
        }
        i = i + 1;
    }
    true
}

/// Whether `needle` occurs as a contiguous part of `hay` (`str::contains` on a string
/// pattern).
pub fn contains_text(hay: &str, needle: &str) -> (r: bool)
    ensures
        r == contains_seq(hay@, needle@),
{
    let h = chars_of(hay);
    let n = chars_of(needle);
    if n.len() > h.len() {
        assert forall|i: int| !occurs_at(hay@, needle@, i) by {}
        return false;
    }
    let last = h.len() - n.len();
    let mut i: usize = 0;
    while i <= last
        invariant
            h@ == hay@,
            n@ == needle@,
            n.len() <= h.len(),
            last == h.len() - n.len(),
            i <= last + 1,
            forall|k: int| 0 <= k < i ==> !occurs_at(hay@, needle@, k),
        decreases last + 1 - i,
    {
        let mut j: usize = 0;
        let mut same = true;
        while j < n.len()
            invariant
                h@ == hay@,
                n@ == needle@,
                i <= last,
                last == h.len() - n.len(),
                j <= n.len(),
                same == (forall|m: int| 0 <= m < j ==> h@[i + m] == n@[m]),
            decreases n.len() - j,
        {
            if h[i + j] != n[j] {
                same = false;
            }
            j = j + 1;
        }
        if same {
            assert(hay@.subrange(i as int, i + needle@.len()) =~= needle@);
            assert(occurs_at(hay@, needle@, i as int));
            return true;
        }
        assert(!occurs_at(hay@, needle@, i as int)) by {
            if occurs_at(hay@, needle@, i as int) {
                let m = choose|m: int| 0 <= m < n.len() && h@[i + m] != n@[m];
                assert(hay@.subrange(i as int, i + needle@.len())[m] == h@[i + m]);
            }
        }
        i = i + 1;
    }
    assert forall|k: int| !occurs_at(hay@, needle@, k) by {
        if occurs_at(hay@, needle@, k) {
            assert(0 <= k < i);
        }
    }
    false
}

/// Decimal text of an unsigned number.
pub fn u64_text(n: u64) -> (r: String)
    ensures
        r@ == nat_text(n as nat),
{
    let mut digits: Vec<char> = Vec::new();
    let mut m: u64 = n;
    // digits collected least significant first
    let ghost mut rest: Seq<char> = Seq::empty();
    while m >= 10
        invariant
            nat_text(n as nat) == nat_text(m as nat) + digits@.reverse(),
        decreases m,
    {
        let d = m % 10;
        let c = digit_of(d);
        let ghost old_digits = digits@;
        digits.push(c);
        assert(nat_text(m as nat) == nat_text((m / 10) as nat).push(c));
        assert(digits@.reverse() =~= seq![c] + old_digits.reverse());
        assert(nat_text(m as nat) + old_digits.reverse() =~= nat_text((m / 10) as nat) + digits@.reverse());
        m = m / 10;
    }
    let c = digit_of(m);
    let ghost old_digits = digits@;
    digits.push(c);
    assert(nat_text(m as nat) =~= seq![c]);
    assert(digits@.reverse() =~= seq![c] + old_digits.reverse());
    let mut out = String::new();
    let mut k: usize = digits.len();
    while k > 0
        invariant
            k <= digits.len(),
            nat_text(n as nat) == digits@.reverse(),
            out@ == digits@.reverse().subrange(0, digits.len() - k),
        decreases k,
    {
        k = k - 1;
        let ghost before = out@;
        push_char(&mut out, digits[k]);
        assert(digits@.reverse()[digits.len() - 1 - k] == digits@[k as int]);
        assert(out@ =~= digits@.reverse().subrange(0, digits.len() - k));
    }
    assert(out@ =~= digits@.reverse());
    out
}

/// The digit character for `d` (0..=9).
pub fn digit_of(d: u64) -> (c: char)
    requires
        d < 10,
    ensures
        c == digit_char(d as int),
{
    let b: u8 = 48u8 + (d as u8);
    let c = b as char;
    c
}

/// Decimal text of a signed number.
pub fn i64_text(n: i64) -> (r: String)
    ensures
        r@ == int_text(n as int),
{
    if n < 0 {
        let m: u64 = if n == i64::MIN {
            9223372036854775808u64
        } else {
            (-n) as u64
        };
        let digits = u64_text(m);
        let mut out = String::new();
        push_char(&mut out, '-');
        out.append(digits.as_str());
        assert(out@ =~= int_text(n as int));
        out
    } else {
        u64_text(n as u64)
    }
}


/// Amount of money given in cents, as `{:.2} €` prints `cents / 100` euros: an optional
/// minus sign, the whole euros, a point, two digits of cents, a space and the euro sign.
pub open spec fn euro_text(cents: int) -> Seq<char> {
    let a: nat = if cents < 0 { (-cents) as nat } else { cents as nat };
    (if cents < 0 { seq!['-'] } else { Seq::<char>::empty() }) + nat_text(a / 100) + seq!['.']
        + two_digits(a % 100) + seq![' ', '€']
}

/// Formats an amount of cents as euros with two decimals and the euro sign,
/// e.g. `1000` as `10.00 €` and `-5` as `-0.05 €`.
pub fn euro_string(cents: i64) -> (r: String)
    ensures
        r@ == euro_text(cents as int),
{
    let mut out = amount_string(cents);
    push_char(&mut out, ' ');
    push_char(&mut out, '€');
    assert(out@ =~= euro_text(cents as int));
    out
}

/// An amount of cents as `{:.2}` prints the euros: an optional minus sign, the whole
/// euros, a point and two digits of cents.
pub open spec fn amount_text(cents: int) -> Seq<char> {
    let a: nat = if cents < 0 { (-cents) as nat } else { cents as nat };
    (if cents < 0 { seq!['-'] } else { Seq::<char>::empty() }) + nat_text(a / 100) + seq!['.'] + two_digits(a % 100)
}

/// Formats an amount of cents as euros with two decimals (see `amount_text`).
pub fn amount_string(cents: i64) -> (r: String)
    ensures
        r@ == amount_text(cents as int),
{
    let a: u64 = if cents < 0 {
        if cents == i64::MIN {
            9223372036854775808u64
        } else {
            (-cents) as u64
        }
    } else {
        cents as u64
    };
    let mut out = String::new();
    if cents < 0 {
        push_char(&mut out, '-');
    }
    let whole = u64_text(a / 100);
    out.append(whole.as_str());
    push_char(&mut out, '.');
    let rest = a % 100;
    push_char(&mut out, digit_of(rest / 10));
    push_char(&mut out, digit_of(rest % 10));
    assert(out@ =~= amount_text(cents as int));
    out
}

/// `s` right-aligned in a field of `width` characters: blanks in front, as `{:>width}`
/// formats it; a longer text is left as it is.
pub open spec fn pad_left(s: Seq<char>, width: nat) -> Seq<char> {
    if s.len() < width { Seq::new((width - s.len()) as nat, |_i: int| ' ') + s } else { s }
}

/// Right-aligns a text in a field of `width` characters (see `pad_left`).
pub fn pad_left_string(s: &String, width: usize) -> (r: String)
    ensures
        r@ == pad_left(s@, width as nat),
{
    let n = s.as_str().unicode_len();
    let mut out = String::new();
    if n < width {
        let mut k: usize = 0;
        while k < width - n
            invariant
                n == s@.len(),
                n < width,
                k <= width - n,
                out@ == Seq::new(k as nat, |_i: int| ' '),
            decreases width - n - k,
        {
            push_char(&mut out, ' ');
            k = k + 1;
            assert(out@ =~= Seq::new(k as nat, |_i: int| ' '));
        }
    }
    out.append(s.as_str());
    assert(out@ =~= pad_left(s@, width as nat));
    out
}

/// Number of bytes UTF-8 needs for a character.
pub open spec fn utf8_width(c: char) -> nat {
    if (c as u32) < 0x80 {
        1
    } else if (c as u32) < 0x800 {
        2
    } else if (c as u32) < 0x10000 {
        3
    } else {
        4
    }
}

/// The number of characters that the first `b` bytes of the UTF-8 encoding of `s`
/// hold, when byte `b` starts a character or ends the text (a char boundary); `None`
/// when it lies inside a character or past the end.
pub open spec fn char_index_at_byte(s: Seq<char>, b: int) -> Option<int>
    decreases s.len(),
{
    if b == 0 {
        Some(0)
    } else if s.len() == 0 || b < utf8_width(s[0]) {
        None
    } else {
        match char_index_at_byte(s.subrange(1, s.len() as int), b - utf8_width(s[0])) {
            Some(k) => Some(k + 1),
            None => None,
        }
    }
}

/// Bytes UTF-8 needs for `c`.
pub fn utf8_width_of(c: char) -> (r: usize)
    ensures
        r == utf8_width(c),
{
    let v = c as u32;
    if v < 0x80 {
        1
    } else if v < 0x800 {
        2
    } else if v < 0x10000 {
        3
    } else {
        4
    }
}

/// The character position at byte offset `b` of the UTF-8 encoding of `s`, if `b` is
/// a char boundary (see `char_index_at_byte`).
pub fn char_index_of_byte(s: &Vec<char>, b: usize) -> (r: Option<usize>)
    ensures
        r matches Some(k) ==> char_index_at_byte(s@, b as int) == Some(k as int),
        r is None ==> char_index_at_byte(s@, b as int) is None,
{
    let n = s.len();
    let mut k: usize = 0;
    let mut off: usize = 0;
    assert(s@.subrange(0, n as int) =~= s@);
    while k < n && off < b
        invariant
            n == s@.len(),
            k <= n,
            off <= b,
            char_index_at_byte(s@, b as int) == (match char_index_at_byte(s@.subrange(k as int, n as int), b - off) {
                Some(j) => Some(j + k),
                None => None::<int>,
            }),
        decreases n - k,
    {
        let w = utf8_width_of(s[k]);
        let ghost rest = s@.subrange(k as int, n as int);
        assert(rest[0] == s@[k as int]);
        assert(rest.subrange(1, rest.len() as int) =~= s@.subrange(k + 1, n as int));
        if b - off < w {
            return None;
        }
        off = off + w;
        k = k + 1;
    }
    if off == b {
        Some(k)
    } else {
        None
    }
}

/// A longer run of digits is worth at least as much as its beginning.
proof fn digits_value_prefix(s: Seq<char>, k: int)
    requires
        0 <= k <= s.len(),
        all_digits(s),
    ensures
        0 <= digits_value(s.take(k)) <= digits_value(s),
    decreases s.len(),
{
    if s.len() > 0 {
        assert(all_digits(s.drop_last()));
        if k == s.len() {
            assert(s.take(k) =~= s);
            digits_value_prefix(s.drop_last(), k - 1);
            assert(s.take(k).drop_last() =~= s.drop_last().take(k - 1));
        } else {
            assert(s.take(k) =~= s.drop_last().take(k));
            digits_value_prefix(s.drop_last(), k);
            digits_value_prefix(s.drop_last(), s.len() - 1);
            assert(s.drop_last().take(s.len() - 1) =~= s.drop_last());
        }
    }
}

/// Parses a decimal `i32` as `str::parse::<i32>` does (see `spec_parse_i32`).
#[verifier::rlimit(40)]
#[verifier::spinoff_prover]
pub fn parse_i32(text: &str) -> (r: Option<i32>)
    ensures
        r == spec_parse_i32(text@),
{
    let s = chars_of(text);
    let n = s.len();
    let neg = n > 0 && s[0] == '-';
    let signed = n > 0 && (s[0] == '-' || s[0] == '+');
    let start: usize = if signed { 1 } else { 0 };
    let ghost body = if signed { text@.drop_first() } else { text@ };
    if start >= n {
        return None;
    }
    let mut acc: i64 = 0;
    let mut k: usize = start;
    while k < n
        invariant
            s@ == text@,
            n == s.len(),
            start <= k <= n,
            body == text@.subrange(start as int, n as int),
            neg == (text@.len() > 0 && text@[0] == '-'),
            signed == (text@.len() > 0 && (text@[0] == '-' || text@[0] == '+')),
            body == (if signed { text@.drop_first() } else { text@ }),
            all_digits(body.take(k - start)),
            acc == digits_value(body.take(k - start)),
            0 <= acc <= 0x8000_0000,
        decreases n - k,
    {
        let c = s[k];
        assert(body[k - start] == c);
        if !('0' <= c && c <= '9') {
            assert(!is_digit(body[k - start]));
            assert(!all_digits(body));
            return None;
        }
        let d = (c as u32 - '0' as u32) as i64;
        let ghost t = body.take(k - start + 1);
        assert(t.drop_last() =~= body.take(k - start));
        assert(t.last() == c);
        assert(digit_value(c) == d);
        acc = acc * 10 + d;
        k = k + 1;
        assert(acc == digits_value(t));
        assert(all_digits(t));
        if acc > 0x8000_0000 {
            proof {
                if all_digits(body) {
                    digits_value_prefix(body, k - start);
                }
            }
            return None;
        }
    }
    assert(body.take(n - start) =~= body);
    if neg {
        Some((0 - acc) as i32)
    } else if acc <= 0x7fff_ffff {
        Some(acc as i32)
    } else {
        None
    }
}

} // verus!

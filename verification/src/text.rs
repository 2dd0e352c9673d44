//! Text helpers over `str`/`String` views: comparisons, decimal rendering and
//! parsing, and UTF-8 / UTF-16 decoding of raw buffers.
use vstd::prelude::*;
use vstd::utf8::{valid_utf8, decode_utf8};

verus! {

/// The character that stands for a decimal digit `d` (`0 <= d < 10`).
pub open spec fn digit_char(d: nat) -> char {
    if d == 0 { '0' }
    else if d == 1 { '1' }
    else if d == 2 { '2' }
    else if d == 3 { '3' }
    else if d == 4 { '4' }
    else if d == 5 { '5' }
    else if d == 6 { '6' }
    else if d == 7 { '7' }
    else if d == 8 { '8' }
    else { '9' }
}

/// Decimal rendering of `n`, most significant digit first, without leading zeros.
pub open spec fn decimal(n: nat) -> Seq<char>
    decreases n,
{
    if n < 10 {
        seq![digit_char(n)]
    } else {
        decimal(n / 10).push(digit_char(n % 10))
    }
}

/// `s` with every NUL character removed.
pub open spec fn without_nul(s: Seq<char>) -> Seq<char>
    decreases s.len(),
{
    if s.len() == 0 {
        s
    } else if s.last() == '\0' {
        without_nul(s.drop_last())
    } else {
        without_nul(s.drop_last()).push(s.last())
    }
}

pub open spec fn is_ascii_digit(c: char) -> bool {
    '0' <= c && c <= '9'
}

pub open spec fn digit_value(c: char) -> nat {
    (c as int - '0' as int) as nat
}

/// Value of a run of decimal digits.
pub open spec fn digits_value(s: Seq<char>) -> nat
    decreases s.len(),
{
    if s.len() == 0 {
        0
    } else {
        digits_value(s.drop_last()) * 10 + digit_value(s.last())
    }
}

/// The digits that follow an optional leading `+`.
pub open spec fn unsigned_digits(s: Seq<char>) -> Seq<char> {
    if s.len() > 0 && s[0] == '+' {
        s.drop_first()
    } else {
        s
    }
}

/// What `str::parse::<u64>` gives: an optional `+`, then one or more decimal
/// digits whose value fits in a `u64`.
pub open spec fn parsed_u64(s: Seq<char>) -> Option<u64> {
    let d = unsigned_digits(s);
    if d.len() > 0 && (forall|i: int| 0 <= i < d.len() ==> is_ascii_digit(#[trigger] d[i]))
        && digits_value(d) <= u64::MAX {
        Some(digits_value(d) as u64)
    } else {
        None
    }
}

/// Code point of a UTF-16 surrogate pair.
pub open spec fn surrogate_pair_value(high: u16, low: u16) -> int {
    0x10000 + (high - 0xD800) * 0x400 + (low - 0xDC00)
}

/// Strict UTF-16 decoding: `None` when an unpaired surrogate occurs.
/// (`utf16_decoding_examples` pins its cases.)
pub open spec fn decode_utf16(units: Seq<u16>) -> Option<Seq<char>>
    decreases units.len(),
{
    if units.len() == 0 {
        Some(Seq::empty())
    } else {
        let u = units[0];
        if u < 0xD800 || u > 0xDFFF {
            match decode_utf16(units.drop_first()) {
                Some(rest) => Some(seq![u as char] + rest),
                None => None,
            }
        } else if u <= 0xDBFF && units.len() >= 2 && 0xDC00 <= units[1] && units[1] <= 0xDFFF {
            match decode_utf16(units.subrange(2, units.len() as int)) {
                Some(rest) => Some(seq![surrogate_pair_value(u, units[1]) as char] + rest),
                None => None,
            }
        } else {
            None
        }
    }
}

/// A unit outside the surrogate range is its own character; a high surrogate
/// followed by a low one is the character of the pair; a lone low surrogate
/// does not decode.
pub proof fn utf16_decoding_examples(u: u16, high: u16, low: u16)
    ensures
        (u < 0xD800 || u > 0xDFFF) ==> decode_utf16(seq![u]) == Some(seq![u as char]),
        (0xD800 <= high <= 0xDBFF && 0xDC00 <= low <= 0xDFFF) ==> decode_utf16(seq![high, low])
            == Some(seq![(0x10000 + (high - 0xD800) * 0x400 + (low - 0xDC00)) as char]),
        (0xDC00 <= low <= 0xDFFF) ==> decode_utf16(seq![low]) is None,
{
    reveal_with_fuel(decode_utf16, 2);
    assert(seq![u].drop_first() =~= Seq::<u16>::empty());
    assert(decode_utf16(Seq::<u16>::empty()) == Some(Seq::<char>::empty()));
    assert(seq![high, low].subrange(2, 2) =~= Seq::<u16>::empty());
    assert(seq![u as char] + Seq::<char>::empty() =~= seq![u as char]);
    let c = (0x10000 + (high - 0xD800) * 0x400 + (low - 0xDC00)) as char;
    assert(seq![c] + Seq::<char>::empty() =~= seq![c]);
}

/// Units before the first NUL (all of them when there is none).
pub open spec fn until_nul(units: Seq<u16>) -> Seq<u16> {
    if exists|i: int| 0 <= i < units.len() && units[i] == 0 {
        let i = choose|i: int| 0 <= i < units.len() && units[i] == 0
            && forall|j: int| 0 <= j < i ==> units[j] != 0;
        units.take(i)
    } else {
        units
    }
}

/// The text that `String::from_utf8_lossy` makes of `bytes`: valid UTF-8
/// decoded, each invalid sequence replaced by U+FFFD. Only `utf8_lossy`
/// states anything of it.
pub uninterp spec fn utf8_lossy_text(bytes: Seq<u8>) -> Seq<char>;

/// Calls `String::push`; claims that the string afterwards is the old one
/// with `c` appended.
#[verifier::external_body]
pub(crate) fn push_char(s: &mut String, c: char)
    ensures
        final(s)@ == old(s)@.push(c),
{
    s.push(c);
}

/// Calls `std::str::from_utf8`; claims that it succeeds exactly on valid
/// UTF-8 (vstd's `valid_utf8`) and then gives the decoded characters
/// (vstd's `decode_utf8`).
#[verifier::external_body]
pub(crate) fn utf8_text(bytes: &[u8]) -> (res: Option<&str>)
    ensures
        res is Some <==> valid_utf8(bytes@),
        res matches Some(s) ==> s@ == decode_utf8(bytes@),
{
    std::str::from_utf8(bytes).ok()
}

/// Calls `String::from_utf8_lossy`; claims that its text is
/// `utf8_lossy_text(bytes)` and, for valid UTF-8, the decoded characters.
/// How invalid sequences are replaced is left unsaid.
#[verifier::external_body]
pub(crate) fn utf8_lossy(bytes: &[u8]) -> (res: String)
    ensures
        res@ == utf8_lossy_text(bytes@),
        valid_utf8(bytes@) ==> res@ == decode_utf8(bytes@),
{
    String::from_utf8_lossy(bytes).to_string()
}

/// Whether two strings hold the same characters.
pub fn same_text(a: &str, b: &str) -> (res: bool)
    ensures
        res == (a@ == b@),
{
    a.to_owned() == b.to_owned()
}

/// Whether `s` begins with the character `c`.
pub fn starts_with_char(s: &str, c: char) -> (res: bool)
    ensures
        res == (s@.len() > 0 && s@[0] == c),
{
    let n = s.unicode_len();
    n > 0 && s.get_char(0) == c
}

/// Whether `s` holds the character `c` anywhere.
pub fn contains_char(s: &str, c: char) -> (res: bool)
    ensures
        res == s@.contains(c),
{
    let n = s.unicode_len();
    let mut i: usize = 0;
    while i < n
        invariant
            n == s@.len(),
            i <= n,
            forall|j: int| 0 <= j < i ==> s@[j] != c,
        decreases n - i,
    {
        if s.get_char(i) == c {
            assert(s@[i as int] == c);
            return true;
        }
        i = i + 1;
    }
    false
}

fn digit_to_char(d: u32) -> (c: char)
    requires
        d < 10,
    ensures
        c == digit_char(d as nat),
{
    if d == 0 { '0' }
    else if d == 1 { '1' }
    else if d == 2 { '2' }
    else if d == 3 { '3' }
    else if d == 4 { '4' }
    else if d == 5 { '5' }
    else if d == 6 { '6' }
    else if d == 7 { '7' }
    else if d == 8 { '8' }
    else { '9' }
}

proof fn lemma_digit_char_value(k: nat)
    requires
        k < 10,
    ensures
        is_ascii_digit(digit_char(k)),
        digit_value(digit_char(k)) == k,
{
}

/// The decimal rendering of `n` is a run of digits worth `n`, with no
/// leading zero unless `n` is 0.
pub proof fn decimal_is_the_number(n: nat)
    ensures
        decimal(n).len() > 0,
        forall|i: int| 0 <= i < decimal(n).len() ==> is_ascii_digit(#[trigger] decimal(n)[i]),
        digits_value(decimal(n)) == n,
        n > 0 ==> decimal(n)[0] != '0',
        n == 0 ==> decimal(n) == seq!['0'],
    decreases n,
{
    lemma_digit_char_value(n % 10);
    if n < 10 {
        assert(decimal(n).drop_last() =~= Seq::<char>::empty());
        assert(decimal(n).last() == digit_char(n));
        assert(n % 10 == n);
        assert(digits_value(decimal(n)) == digits_value(decimal(n).drop_last()) * 10 + digit_value(decimal(n).last()));
    } else {
        decimal_is_the_number(n / 10);
        let d = decimal(n);
        assert(d.drop_last() =~= decimal(n / 10));
        assert(d.last() == digit_char(n % 10));
        assert(digits_value(d) == digits_value(d.drop_last()) * 10 + digit_value(d.last()));
        assert(n == (n / 10) * 10 + n % 10);
        assert(d[0] == decimal(n / 10)[0]);
        assert forall|i: int| 0 <= i < d.len() implies is_ascii_digit(#[trigger] d[i]) by {
            if i < d.len() - 1 {
                assert(d[i] == decimal(n / 10)[i]);
            }
        }
    }
}

/// Removing NULs keeps a NUL-free text as it is, and never leaves a NUL.
pub proof fn without_nul_removes_only_nuls(s: Seq<char>)
    ensures
        !s.contains('\0') ==> without_nul(s) == s,
        !without_nul(s).contains('\0'),
        without_nul(s.push('\0')) == without_nul(s),
    decreases s.len(),
{
    if s.len() > 0 {
        without_nul_removes_only_nuls(s.drop_last());
        if !s.contains('\0') {
            assert forall|i: int| 0 <= i < s.drop_last().len() implies s.drop_last()[i] != '\0' by {
                assert(s[i] == s.drop_last()[i]);
            }
            assert(s.last() != '\0') by {
                assert(s[s.len() - 1] == s.last());
            }
            assert(s.drop_last().push(s.last()) =~= s);
        }
        let w = without_nul(s.drop_last());
        if s.last() != '\0' {
            assert forall|i: int| 0 <= i < w.push(s.last()).len() implies w.push(s.last())[i] != '\0' by {
                if i < w.len() {
                    assert(!w.contains('\0'));
                    assert(w.push(s.last())[i] == w[i]);
                }
            }
        }
    } else {
        assert(s =~= Seq::<char>::empty());
    }
    assert(s.push('\0').drop_last() =~= s);
}

/// A run of decimal digits worth at most `u64::MAX` parses as its value,
/// with or without a leading `+`; a leading `-`, an empty text and a lone
/// `+` do not parse.
pub proof fn parse_reads_decimal(n: u64)
    ensures
        parsed_u64(decimal(n as nat)) == Some(n),
        parsed_u64(seq!['+'] + decimal(n as nat)) == Some(n),
        parsed_u64(seq!['-'] + decimal(n as nat)) is None,
        parsed_u64(Seq::<char>::empty()) is None,
        parsed_u64(seq!['+']) is None,
{
    decimal_is_the_number(n as nat);
    let d = decimal(n as nat);
    assert(d[0] != '+');
    assert(unsigned_digits(d) == d);
    assert((seq!['+'] + d).drop_first() =~= d);
    let m = seq!['-'] + d;
    assert(unsigned_digits(m) == m);
    assert(!is_ascii_digit(m[0]));
    assert(seq!['+'].drop_first() =~= Seq::<char>::empty());
}

/// Appends the decimal rendering of `n` to `out`.
pub fn push_decimal(out: &mut String, n: u32)
    ensures
        final(out)@ == old(out)@ + decimal(n as nat),
    decreases n,
{
    if n >= 10 {
        push_decimal(out, n / 10);
    }
    push_char(out, digit_to_char(n % 10));
    assert(decimal(n as nat) == if n < 10 { seq![digit_char(n as nat)] } else {
        decimal((n / 10) as nat).push(digit_char((n % 10) as nat))
    });
}

/// Decimal rendering of `n`, as `n.to_string()` gives it.
pub fn decimal_string(n: u32) -> (res: String)
    ensures
        res@ == decimal(n as nat),
{
    let mut out = String::new();
    push_decimal(&mut out, n);
    assert(Seq::<char>::empty() + decimal(n as nat) =~= decimal(n as nat));
    out
}

/// `text` with its NUL characters removed (`str::replace('\0', "")`).
pub fn strip_nul(text: &str) -> (res: String)
    ensures
        res@ == without_nul(text@),
{
    let n = text.unicode_len();
    let mut out = String::new();
    let mut i: usize = 0;
    while i < n
        invariant
            n == text@.len(),
            i <= n,
            out@ == without_nul(text@.take(i as int)),
        decreases n - i,
    {
        let c = text.get_char(i);
        assert(text@.take(i + 1).drop_last() =~= text@.take(i as int));
        assert(text@.take(i + 1).last() == c);
        if c != '\0' {
            push_char(&mut out, c);
        }
        i = i + 1;
    }
    assert(text@.take(n as int) =~= text@);
    out
}

/// The NUL-free text of a fixed-size field that should hold UTF-8: `None`
/// when the bytes are not valid UTF-8.
pub fn decode_field(raw: &[u8]) -> (res: Option<String>)
    ensures
        res is Some <==> valid_utf8(raw@),
        res matches Some(s) ==> s@ == without_nul(decode_utf8(raw@)),
{
    match utf8_text(raw) {
        Some(text) => Some(strip_nul(text)),
        None => None,
    }
}


/// A longer run of digits is worth at least as much as any of its prefixes.
proof fn lemma_digits_value_prefix(s: Seq<char>, k: int)
    requires
        0 <= k <= s.len(),
    ensures
        digits_value(s.take(k)) <= digits_value(s),
    decreases s.len() - k,
{
    if k < s.len() {
        lemma_digits_value_prefix(s, k + 1);
        assert(s.take(k + 1).drop_last() =~= s.take(k));
    } else {
        assert(s.take(k) =~= s);
    }
}

/// Parses `text` as `str::parse::<u64>` does.
pub fn parse_u64(text: &str) -> (res: Option<u64>)
    ensures
        res == parsed_u64(text@),
{
    let n = text.unicode_len();
    let ghost d = unsigned_digits(text@);
    let start: usize = if n > 0 && text.get_char(0) == '+' { 1 } else { 0 };
    assert(d =~= text@.subrange(start as int, n as int));
    if start == n {
        return None;
    }
    let mut acc: u64 = 0;
    let mut i: usize = start;
    while i < n
        invariant
            n == text@.len(),
            start <= i <= n,
            d == text@.subrange(start as int, n as int),
            d == unsigned_digits(text@),
            forall|j: int| 0 <= j < i - start ==> is_ascii_digit(#[trigger] d[j]),
            acc as nat == digits_value(d.take(i - start)),
        decreases n - i,
    {
        let c = text.get_char(i);
        assert(d[i - start] == c);
        if c < '0' || c > '9' {
            assert(!is_ascii_digit(d[i - start]));
            assert(!(forall|j: int| 0 <= j < d.len() ==> is_ascii_digit(#[trigger] d[j])));
            return None;
        }
        let digit: u32 = (c as u32) - ('0' as u32);
        assert(d.take(i - start + 1).drop_last() =~= d.take(i - start));
        assert(d.take(i - start + 1).last() == c);
        assert(digits_value(d.take(i - start + 1)) == acc * 10 + digit);
        match acc.checked_mul(10) {
            Some(m) => match m.checked_add(digit as u64) {
                Some(next) => {
                    acc = next;
                },
                None => {
                    proof {
                        lemma_digits_value_prefix(d, i - start + 1);
                    }
                    assert(digits_value(d) > u64::MAX);
                    return None;
                },
            },
            None => {
                proof {
                    lemma_digits_value_prefix(d, i - start + 1);
                }
                assert(acc * 10 > u64::MAX);
                assert(digits_value(d) > u64::MAX);
                return None;
            },
        }
        i = i + 1;
    }
    assert(d.take(n - start) =~= d);
    Some(acc)
}

} // verus!

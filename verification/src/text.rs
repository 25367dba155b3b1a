//! Byte and character predicates shared by the validators of every module.
use vstd::prelude::*;

verus! {

/// The UTF-8 bytes of a string, as `str::as_bytes` and `str::len` see them.
pub open spec fn utf8(s: Seq<char>) -> Seq<u8> {
    vstd::utf8::encode_utf8(s)
}

/// Length in bytes, as `str::len` reports it.
pub open spec fn blen(s: Seq<char>) -> int {
    utf8(s).len() as int
}

pub open spec fn is_digit(b: u8) -> bool {
    48 <= b <= 57
}

pub open spec fn is_upper(b: u8) -> bool {
    65 <= b <= 90
}

pub open spec fn is_lower(b: u8) -> bool {
    97 <= b <= 122
}

/// `u8::is_ascii_alphanumeric`.
pub open spec fn is_alnum(b: u8) -> bool {
    is_digit(b) || is_upper(b) || is_lower(b)
}

/// `u8::is_ascii_hexdigit`.
pub open spec fn is_hex(b: u8) -> bool {
    is_digit(b) || (65 <= b <= 70) || (97 <= b <= 102)
}

/// The byte alphabets that identifiers of this library are drawn from.
#[derive(Clone, Copy, PartialEq, Eq, Debug, Structural)]
pub enum ByteClass {
    /// Letters and digits.
    Alnum,
    /// Hexadecimal digits of either case.
    Hex,
    /// Letters, digits, `-` and `_`.
    Ident,
    /// Letters, digits, `-`, `_` and `.`.
    DottedIdent,
    /// Letters, digits, `-`, `_`, `.` and `:`.
    RouteKey,
    /// Letters, digits, `-`, `_`, `.`, `:` and `/`.
    ImageRef,
    /// Letters, digits, `.`, `-`, `:`, `[` and `]`.
    Host,
    /// Letters, digits, `/`, `-`, `_` and `.`.
    Path,
    /// Decimal digits.
    Digit,
    /// Lower-case letters, digits, `-`, `_` and `.`.
    LowerDotted,
    /// Letters, digits and `_`.
    Word,
    /// Upper-case letters, digits and `_`.
    EnvName,
}

/// Whether byte `b` belongs to class `c`.
pub open spec fn in_class(c: ByteClass, b: u8) -> bool {
    match c {
        ByteClass::Alnum => is_alnum(b),
        ByteClass::Hex => is_hex(b),
        ByteClass::Ident => is_alnum(b) || b == 45 || b == 95,
        ByteClass::DottedIdent => is_alnum(b) || b == 45 || b == 95 || b == 46,
        ByteClass::RouteKey => is_alnum(b) || b == 45 || b == 95 || b == 46 || b == 58,
        ByteClass::ImageRef => is_alnum(b) || b == 45 || b == 95 || b == 46 || b == 58 || b
            == 47,
        ByteClass::Host => is_alnum(b) || b == 46 || b == 45 || b == 58 || b == 91 || b == 93,
        ByteClass::Path => is_alnum(b) || b == 47 || b == 45 || b == 95 || b == 46,
        ByteClass::Digit => is_digit(b),
        ByteClass::LowerDotted => is_lower(b) || is_digit(b) || b == 45 || b == 95 || b == 46,
        ByteClass::Word => is_alnum(b) || b == 95,
        ByteClass::EnvName => is_upper(b) || is_digit(b) || b == 95,
    }
}

/// Every byte of `bytes` belongs to class `c`.
pub open spec fn all_in_class(bytes: Seq<u8>, c: ByteClass) -> bool {
    forall|i: int| 0 <= i < bytes.len() ==> #[trigger] in_class(c, bytes[i])
}

pub fn byte_in_class(c: ByteClass, b: u8) -> (r: bool)
    ensures
        r == in_class(c, b),
{
    let alnum = (48 <= b && b <= 57) || (65 <= b && b <= 90) || (97 <= b && b <= 122);
    match c {
        ByteClass::Alnum => alnum,
        ByteClass::Hex => (48 <= b && b <= 57) || (65 <= b && b <= 70) || (97 <= b && b <= 102),
        ByteClass::Ident => alnum || b == 45 || b == 95,
        ByteClass::DottedIdent => alnum || b == 45 || b == 95 || b == 46,
        ByteClass::RouteKey => alnum || b == 45 || b == 95 || b == 46 || b == 58,
        ByteClass::ImageRef => alnum || b == 45 || b == 95 || b == 46 || b == 58 || b == 47,
        ByteClass::Host => alnum || b == 46 || b == 45 || b == 58 || b == 91 || b == 93,
        ByteClass::Path => alnum || b == 47 || b == 45 || b == 95 || b == 46,
        ByteClass::Digit => 48 <= b && b <= 57,
        ByteClass::LowerDotted => (97 <= b && b <= 122) || (48 <= b && b <= 57) || b == 45 || b
            == 95 || b == 46,
        ByteClass::Word => alnum || b == 95,
        ByteClass::EnvName => (65 <= b && b <= 90) || (48 <= b && b <= 57) || b == 95,
    }
}

/// Whether every byte of `s` belongs to class `c`.
pub fn bytes_in_class(s: &str, c: ByteClass) -> (r: bool)
    ensures
        r == all_in_class(utf8(s@), c),
{
    let b = s.as_bytes();
    let mut i: usize = 0;
    while i < b.len()
        invariant
            0 <= i <= b@.len(),
            b@ == utf8(s@),
            forall|j: int| 0 <= j < i ==> #[trigger] in_class(c, b@[j]),
        decreases b@.len() - i,
    {
        if !byte_in_class(c, b[i]) {
            return false;
        }
        i += 1;
    }
    true
}

/// Length in bytes between `min` and `max` inclusive, and every byte in class `c`.
pub open spec fn is_token(s: Seq<char>, min: int, max: int, c: ByteClass) -> bool {
    min <= blen(s) <= max && all_in_class(utf8(s), c)
}

pub fn token_ok(s: &str, min: usize, max: usize, c: ByteClass) -> (r: bool)
    ensures
        r == is_token(s@, min as int, max as int, c),
{
    let n = s.as_bytes().len();
    n >= min && n <= max && bytes_in_class(s, c)
}

/// `char::is_control`: the Unicode general category Cc.
pub open spec fn is_control(c: char) -> bool {
    (c as u32) < 0x20 || (0x7f <= (c as u32) && (c as u32) <= 0x9f)
}

pub open spec fn has_control(s: Seq<char>) -> bool {
    exists|i: int| 0 <= i < s.len() && #[trigger] is_control(s[i])
}

/// `s.chars().any(char::is_control)`.
pub fn any_control(s: &str) -> (r: bool)
    ensures
        r == has_control(s@),
{
    let mut found = false;
    for c in it: s.chars()
        invariant
            it.seq() == s@,
            found == exists|i: int| 0 <= i < it.index() && #[trigger] is_control(s@[i]),
    {
        assert(c == s@[it.index() as int]);
        let v = c as u32;
        if v < 0x20 || (0x7f <= v && v <= 0x9f) {
            assert(is_control(s@[it.index() as int]));
            found = true;
        }
    }
    found
}

/// `char::is_whitespace`: the Unicode White_Space property.
pub open spec fn is_ws(c: char) -> bool {
    let v = c as u32;
    (9 <= v && v <= 13) || v == 32 || v == 0x85 || v == 0xa0 || v == 0x1680 || (0x2000 <= v
        && v <= 0x200a) || v == 0x2028 || v == 0x2029 || v == 0x202f || v == 0x205f || v == 0x3000
}

pub fn char_is_ws(c: char) -> (r: bool)
    ensures
        r == is_ws(c),
{
    let v = c as u32;
    (9 <= v && v <= 13) || v == 32 || v == 0x85 || v == 0xa0 || v == 0x1680 || (0x2000 <= v && v
        <= 0x200a) || v == 0x2028 || v == 0x2029 || v == 0x202f || v == 0x205f || v == 0x3000
}

/// `s.trim().is_empty()`: nothing but white space.
pub open spec fn is_blank(s: Seq<char>) -> bool {
    forall|i: int| 0 <= i < s.len() ==> #[trigger] is_ws(s[i])
}

pub fn blank(s: &str) -> (r: bool)
    ensures
        r == is_blank(s@),
{
    let mut all = true;
    for c in it: s.chars()
        invariant
            it.seq() == s@,
            all == forall|i: int| 0 <= i < it.index() ==> #[trigger] is_ws(s@[i]),
    {
        if !char_is_ws(c) {
            all = false;
        }
    }
    all
}

/// `s.trim() != s`: the string begins or ends with white space.
pub open spec fn has_outer_ws(s: Seq<char>) -> bool {
    s.len() > 0 && (is_ws(s[0]) || is_ws(s[s.len() - 1]))
}

pub fn outer_ws(s: &str) -> (r: bool)
    ensures
        r == has_outer_ws(s@),
{
    let mut first = true;
    let mut result = false;
    let mut last_ws = false;
    let ghost mut n: int = 0;
    for c in it: s.chars()
        invariant
            it.seq() == s@,
            first == (it.index() == 0),
            it.index() > 0 ==> last_ws == is_ws(s@[it.index() - 1]),
            it.index() > 0 ==> result == is_ws(s@[0]),
            it.index() == 0 ==> !result && !last_ws,
    {
        assert(c == s@[it.index() as int]);
        let w = char_is_ws(c);
        if first {
            result = w;
            first = false;
        }
        last_ws = w;
    }
    result || last_ws
}

/// `a.starts_with(b)` on the bytes of both strings.
pub open spec fn starts_with(a: Seq<char>, b: Seq<char>) -> bool {
    utf8(b).len() <= utf8(a).len() && utf8(a).subrange(0, utf8(b).len() as int) =~= utf8(b)
}

pub fn has_prefix(a: &str, b: &str) -> (r: bool)
    ensures
        r == starts_with(a@, b@),
{
    let x = a.as_bytes();
    let y = b.as_bytes();
    if y.len() > x.len() {
        return false;
    }
    let mut i: usize = 0;
    while i < y.len()
        invariant
            x@ == utf8(a@),
            y@ == utf8(b@),
            y@.len() <= x@.len(),
            0 <= i <= y@.len(),
            forall|j: int| 0 <= j < i ==> x@[j] == y@[j],
        decreases y@.len() - i,
    {
        if x[i] != y[i] {
            assert(x@.subrange(0, y@.len() as int)[i as int] != y@[i as int]);
            return false;
        }
        i += 1;
    }
    assert(x@.subrange(0, y@.len() as int) =~= y@);
    true
}

/// Whether `pat` occurs at byte offset `i` of `s`.
pub open spec fn occurs_at(s: Seq<u8>, pat: Seq<u8>, i: int) -> bool {
    0 <= i && i + pat.len() <= s.len() && s.subrange(i, i + pat.len()) =~= pat
}

/// `a.contains(b)` on bytes.
pub open spec fn contains(a: Seq<char>, b: Seq<char>) -> bool {
    exists|i: int| #[trigger] occurs_at(utf8(a), utf8(b), i)
}

fn occurs_at_exec(x: &[u8], y: &[u8], i: usize) -> (r: bool)
    requires
        i + y@.len() <= x@.len(),
    ensures
        r == occurs_at(x@, y@, i as int),
{
    let _n = x.len();
    let mut j: usize = 0;
    while j < y.len()
        invariant
            i + y@.len() <= x@.len(),
            x@.len() <= usize::MAX,
            0 <= j <= y@.len(),
            forall|k: int| 0 <= k < j ==> x@[i + k] == y@[k],
        decreases y@.len() - j,
    {
        if x[i + j] != y[j] {
            assert(x@.subrange(i as int, i + y@.len())[j as int] != y@[j as int]);
            return false;
        }
        j += 1;
    }
    assert(x@.subrange(i as int, i + y@.len()) =~= y@);
    true
}

pub fn has_substring(a: &str, b: &str) -> (r: bool)
    ensures
        r == contains(a@, b@),
{
    let x = a.as_bytes();
    let y = b.as_bytes();
    let xl = x.len();
    let yl = y.len();
    if yl > xl {
        return false;
    }
    if yl == 0 {
        assert(occurs_at(utf8(a@), utf8(b@), 0));
        return true;
    }
    let mut i: usize = 0;
    let last = xl - yl;
    while i <= last
        invariant
            last == x@.len() - y@.len(),
            xl == x@.len(),
            x@ == utf8(a@),
            y@ == utf8(b@),
            1 <= y@.len() <= x@.len(),
            0 <= i <= last + 1,
            forall|k: int| 0 <= k < i ==> !#[trigger] occurs_at(x@, y@, k),
        decreases x@.len() - i,
    {
        if occurs_at_exec(x, y, i) {
            return true;
        }
        i += 1;
    }
    assert forall|k: int| !#[trigger] occurs_at(x@, y@, k) by {
        if 0 <= k && k < i {
        }
    }
    false
}

} // verus!

verus! {

/// The value of a string of decimal digit bytes.
pub open spec fn dec_value(d: Seq<u8>) -> nat
    decreases d.len(),
{
    if d.len() == 0 {
        0
    } else {
        dec_value(d.drop_last()) * 10 + (d.last() - 48) as nat
    }
}

/// What `str::parse::<u128>` accepts: an optional `+`, then one or more decimal
/// digits whose value fits in `u128`.
pub open spec fn parses_u128(s: Seq<char>, v: u128) -> bool {
    let b = utf8(s);
    let digits = if b.len() > 0 && b[0] == 43 {
        b.drop_first()
    } else {
        b
    };
    digits.len() > 0 && all_in_class(digits, ByteClass::Digit) && dec_value(digits) == v
}

pub open spec fn u128_text(s: Seq<char>) -> Option<u128> {
    if exists|v: u128| parses_u128(s, v) {
        Some(choose|v: u128| parses_u128(s, v))
    } else {
        None
    }
}

proof fn lemma_dec_value_mono(d: Seq<u8>, i: int)
    requires
        0 <= i <= d.len(),
        all_in_class(d, ByteClass::Digit),
    ensures
        dec_value(d.subrange(0, i)) <= dec_value(d),
    decreases d.len() - i,
{
    if i < d.len() {
        lemma_dec_value_mono(d, i + 1);
        let p = d.subrange(0, i + 1);
        assert(p.drop_last() =~= d.subrange(0, i));
        assert(in_class(ByteClass::Digit, d[i]));
    } else {
        assert(d.subrange(0, i) =~= d);
    }
}

/// `s.parse::<u128>().ok()`.
pub fn parse_u128(s: &str) -> (r: Option<u128>)
    ensures
        r == u128_text(s@),
        r matches Some(v) ==> parses_u128(s@, v),
{
    let b = s.as_bytes();
    let n = b.len();
    let start: usize = if n > 0 && b[0] == 43 { 1 } else { 0 };
    let ghost digits = if b@.len() > 0 && b@[0] == 43 {
        b@.drop_first()
    } else {
        b@
    };
    assert(digits =~= b@.subrange(start as int, n as int));
    if start >= n {
        proof {
            assert(digits.len() == 0);
            assert forall|v: u128| !parses_u128(s@, v) by {}
        }
        return None;
    }
    let mut value: u128 = 0;
    let mut i: usize = start;
    while i < n
        invariant
            b@ == utf8(s@),
            n == b@.len(),
            start <= i <= n,
            digits =~= b@.subrange(start as int, n as int),
            digits == (if b@.len() > 0 && b@[0] == 43 {
                b@.drop_first()
            } else {
                b@
            }),
            all_in_class(b@.subrange(start as int, i as int), ByteClass::Digit),
            value == dec_value(b@.subrange(start as int, i as int)),
        decreases n - i,
    {
        let c = b[i];
        let ghost pre = b@.subrange(start as int, i as int);
        let ghost next = b@.subrange(start as int, i + 1);
        assert(next.drop_last() =~= pre);
        if c < 48 || c > 57 {
            proof {
                assert(!in_class(ByteClass::Digit, digits[i - start]));
                assert forall|v: u128| !parses_u128(s@, v) by {
                    if parses_u128(s@, v) {
                        assert(all_in_class(digits, ByteClass::Digit));
                        assert(in_class(ByteClass::Digit, digits[i - start]));
                    }
                }
            }
            return None;
        }
        let d = (c - 48) as u128;
        if value > (u128::MAX - d) / 10 {
            proof {
                assert(value * 10 + d > u128::MAX) by (nonlinear_arith)
                    requires
                        value > (u128::MAX - d) / 10,
                        d <= 9,
                ;
                assert(all_in_class(next, ByteClass::Digit));
                assert forall|v: u128| !parses_u128(s@, v) by {
                    if parses_u128(s@, v) {
                        assert(all_in_class(digits, ByteClass::Digit));
                        lemma_dec_value_mono(digits, i + 1 - start);
                        assert(digits.subrange(0, i + 1 - start) =~= next);
                    }
                }
            }
            return None;
        }
        assert(value * 10 + d <= u128::MAX) by (nonlinear_arith)
            requires
                value <= (u128::MAX - d) / 10,
                d <= 9,
        ;
        value = value * 10 + d;
        i += 1;
    }
    assert(parses_u128(s@, value));
    assert forall|v: u128| parses_u128(s@, v) implies v == value by {}
    Some(value)
}

} // verus!

verus! {

/// The ASCII digit for `d < 10`.
pub open spec fn digit_char(d: nat) -> char {
    (48 + d) as char
}

/// The decimal rendering of `n`, as `to_string` gives it: no sign, no leading zeros.
pub open spec fn dec_chars(n: nat) -> Seq<char>
    decreases n,
{
    if n < 10 {
        seq![digit_char(n)]
    } else {
        dec_chars(n / 10).push(digit_char(n % 10))
    }
}

/// `n.to_string()` for a `u128`.
pub fn u128_text_of(n: u128) -> (r: String)
    ensures
        r@ == dec_chars(n as nat),
    decreases n,
{
    if n < 10 {
        let mut s = String::new();
        crate::digest::string_push(&mut s, ((n as u8) + 48) as char);
        assert(s@ =~= seq![digit_char(n as nat)]);
        s
    } else {
        let mut s = u128_text_of(n / 10);
        crate::digest::string_push(&mut s, (((n % 10) as u8) + 48) as char);
        s
    }
}

/// `n.to_string()` for a `u64`.
pub fn u64_text_of(n: u64) -> (r: String)
    ensures
        r@ == dec_chars(n as nat),
{
    u128_text_of(n as u128)
}

pub proof fn lemma_dec_chars_ascii_digits(n: nat)
    ensures
        vstd::utf8::is_ascii_chars(dec_chars(n)),
        dec_chars(n).len() >= 1,
        forall|i: int| 0 <= i < dec_chars(n).len() ==> 48 <= #[trigger] (dec_chars(n)[i] as u32) <= 57,
    decreases n,
{
    if n >= 10 {
        lemma_dec_chars_ascii_digits(n / 10);
    }
}

/// Reading back what `to_string` wrote gives the same number.
pub proof fn lemma_parse_dec_chars(n: u128)
    ensures
        parses_u128(dec_chars(n as nat), n),
        u128_text(dec_chars(n as nat)) == Some(n),
{
    lemma_dec_chars_ascii_digits(n as nat);
    let s = dec_chars(n as nat);
    vstd::utf8::is_ascii_chars_encode_utf8(s);
    lemma_dec_bytes_value(n as nat);
    let b = utf8(s);
    assert(b[0] == s[0] as u8);
    assert(b[0] != 43);
    assert(all_in_class(b, ByteClass::Digit)) by {
        assert forall|i: int| 0 <= i < b.len() implies #[trigger] in_class(ByteClass::Digit, b[i]) by {
            assert(b[i] == s[i] as u8);
            assert(48 <= (s[i] as u32) <= 57);
        }
    }
    assert(parses_u128(s, n));
    assert forall|v: u128| parses_u128(s, v) implies v == n by {}
}

proof fn lemma_dec_bytes_value(n: nat)
    ensures
        dec_value(utf8(dec_chars(n))) == n,
    decreases n,
{
    lemma_dec_chars_ascii_digits(n);
    let s = dec_chars(n);
    vstd::utf8::is_ascii_chars_encode_utf8(s);
    let b = utf8(s);
    if n < 10 {
        assert(b.drop_last().len() == 0);
        assert(b.last() == s[0] as u8);
        assert(dec_value(b.drop_last()) == 0);
    } else {
        lemma_dec_bytes_value(n / 10);
        lemma_dec_chars_ascii_digits(n / 10);
        let p = dec_chars(n / 10);
        vstd::utf8::is_ascii_chars_encode_utf8(p);
        assert(s == p.push(digit_char(n % 10)));
        assert(b.drop_last() =~= utf8(p)) by {
            assert forall|i: int| 0 <= i < b.len() - 1 implies b.drop_last()[i] == utf8(p)[i] by {
                assert(b[i] == s[i] as u8);
                assert(s[i] == p[i]);
                assert(utf8(p)[i] == p[i] as u8);
            }
        }
        assert(b.last() == s[s.len() - 1] as u8);
    }
}

} // verus!

verus! {

/// `a == b` on string slices.
pub fn str_eq(a: &str, b: &str) -> (r: bool)
    ensures
        r == (a@ == b@),
{
    let x = a.as_bytes();
    let y = b.as_bytes();
    if x.len() != y.len() {
        proof {
            if a@ == b@ {
                assert(utf8(a@) == utf8(b@));
            }
        }
        return false;
    }
    let mut i: usize = 0;
    while i < x.len()
        invariant
            x@ == utf8(a@),
            y@ == utf8(b@),
            x@.len() == y@.len(),
            0 <= i <= x@.len(),
            forall|j: int| 0 <= j < i ==> x@[j] == y@[j],
        decreases x@.len() - i,
    {
        if x[i] != y[i] {
            proof {
                if a@ == b@ {
                    assert(utf8(a@) == utf8(b@));
                }
            }
            return false;
        }
        i += 1;
    }
    proof {
        assert(x@ =~= y@);
        vstd::utf8::encode_utf8_decode_utf8(a@);
        vstd::utf8::encode_utf8_decode_utf8(b@);
    }
    true
}

} // verus!

verus! {

/// The index of the first non-white-space character at or after `i`.
pub open spec fn first_non_ws(s: Seq<char>, i: int) -> int
    decreases s.len() - i,
{
    if i < 0 || i >= s.len() {
        s.len() as int
    } else if is_ws(s[i]) {
        first_non_ws(s, i + 1)
    } else {
        i
    }
}

/// One past the index of the last non-white-space character before `j`.
pub open spec fn last_non_ws_end(s: Seq<char>, j: int) -> int
    decreases j,
{
    if j <= 0 || j > s.len() {
        0
    } else if is_ws(s[j - 1]) {
        last_non_ws_end(s, j - 1)
    } else {
        j
    }
}

/// `s.trim()`: white space removed from both ends.
pub open spec fn trim(s: Seq<char>) -> Seq<char> {
    let a = first_non_ws(s, 0);
    let b = last_non_ws_end(s, s.len() as int);
    if a < b {
        s.subrange(a, b)
    } else {
        Seq::empty()
    }
}

proof fn lemma_first_non_ws(s: Seq<char>, i: int)
    requires
        0 <= i <= s.len(),
    ensures
        i <= first_non_ws(s, i) <= s.len(),
        forall|k: int| i <= k < first_non_ws(s, i) ==> is_ws(#[trigger] s[k]),
    decreases s.len() - i,
{
    if i < s.len() && is_ws(s[i]) {
        lemma_first_non_ws(s, i + 1);
    }
}

proof fn lemma_last_non_ws_end(s: Seq<char>, j: int)
    requires
        0 <= j <= s.len(),
    ensures
        0 <= last_non_ws_end(s, j) <= j,
        forall|k: int| last_non_ws_end(s, j) <= k < j ==> is_ws(#[trigger] s[k]),
    decreases j,
{
    if j > 0 && is_ws(s[j - 1]) {
        lemma_last_non_ws_end(s, j - 1);
    }
}

/// Trimming removes white space only: a character that is not white space
/// and occurs in `s` occurs in `trim(s)`.
pub proof fn lemma_trim_keeps(s: Seq<char>, c: char)
    requires
        !is_ws(c),
        s.contains(c),
    ensures
        trim(s).contains(c),
{
    let k = choose|k: int| 0 <= k < s.len() && s[k] == c;
    lemma_first_non_ws(s, 0);
    lemma_last_non_ws_end(s, s.len() as int);
    let a = first_non_ws(s, 0);
    let b = last_non_ws_end(s, s.len() as int);
    assert(a <= k) by {
        if k < a {
            assert(is_ws(s[k]));
        }
    }
    assert(k < b) by {
        if b <= k {
            assert(is_ws(s[k]));
        }
    }
    assert(trim(s)[k - a] == c);
}

/// The characters of `s`.
pub fn chars_of(s: &str) -> (r: Vec<char>)
    ensures
        r@ == s@,
{
    let mut v: Vec<char> = Vec::new();
    for c in it: s.chars()
        invariant
            it.seq() == s@,
            v@ =~= s@.subrange(0, it.index() as int),
    {
        assert(c == s@[it.index() as int]);
        v.push(c);
    }
    assert(s@.subrange(0, s@.len() as int) =~= s@);
    v
}

/// The string made of `v[from..to]`.
pub fn string_of_chars(v: &Vec<char>, from: usize, to: usize) -> (r: String)
    requires
        from <= to <= v@.len(),
    ensures
        r@ == v@.subrange(from as int, to as int),
{
    let mut s = String::new();
    let mut i = from;
    while i < to
        invariant
            from <= i <= to <= v@.len(),
            s@ =~= v@.subrange(from as int, i as int),
        decreases to - i,
    {
        crate::digest::string_push(&mut s, v[i]);
        i += 1;
    }
    s
}

/// `s.trim().to_string()`.
pub fn trim_text(s: &str) -> (r: String)
    ensures
        r@ == trim(s@),
{
    let v = chars_of(s);
    let n = v.len();
    let mut a: usize = 0;
    while a < n && char_is_ws(v[a])
        invariant
            v@ == s@,
            n == v@.len(),
            0 <= a <= n,
            first_non_ws(s@, 0) == first_non_ws(s@, a as int),
        decreases n - a,
    {
        a += 1;
    }
    let mut b: usize = n;
    while b > 0 && char_is_ws(v[b - 1])
        invariant
            v@ == s@,
            n == v@.len(),
            0 <= b <= n,
            last_non_ws_end(s@, n as int) == last_non_ws_end(s@, b as int),
        decreases b,
    {
        b -= 1;
    }
    if a < b {
        string_of_chars(&v, a, b)
    } else {
        String::new()
    }
}

/// `u8::to_ascii_lowercase`.
pub open spec fn lower(b: u8) -> u8 {
    if 65 <= b <= 90 {
        (b + 32) as u8
    } else {
        b
    }
}

/// `a.eq_ignore_ascii_case(b)`.
pub open spec fn eq_ignore_case(a: Seq<char>, b: Seq<char>) -> bool {
    utf8(a).len() == utf8(b).len() && forall|i: int|
        0 <= i < utf8(a).len() ==> #[trigger] lower(utf8(a)[i]) == lower(utf8(b)[i])
}

pub fn eq_ignore_ascii_case(a: &str, b: &str) -> (r: bool)
    ensures
        r == eq_ignore_case(a@, b@),
{
    let x = a.as_bytes();
    let y = b.as_bytes();
    if x.len() != y.len() {
        return false;
    }
    let mut i: usize = 0;
    while i < x.len()
        invariant
            x@ == utf8(a@),
            y@ == utf8(b@),
            x@.len() == y@.len(),
            0 <= i <= x@.len(),
            forall|j: int| 0 <= j < i ==> #[trigger] lower(x@[j]) == lower(y@[j]),
        decreases x@.len() - i,
    {
        let p = x[i];
        let q = y[i];
        let lp = if 65 <= p && p <= 90 { p + 32 } else { p };
        let lq = if 65 <= q && q <= 90 { q + 32 } else { q };
        if lp != lq {
            assert(lower(x@[i as int]) != lower(y@[i as int]));
            return false;
        }
        i += 1;
    }
    true
}

} // verus!

verus! {

/// `char::to_ascii_lowercase`.
pub open spec fn lower_char(c: char) -> char {
    if 'A' <= c <= 'Z' {
        ((c as u32) + 32) as char
    } else {
        c
    }
}

/// `str::to_ascii_lowercase`.
pub open spec fn lower_chars(s: Seq<char>) -> Seq<char> {
    s.map_values(|c: char| lower_char(c))
}

pub fn to_lower(s: &str) -> (r: String)
    ensures
        r@ == lower_chars(s@),
{
    let mut out = String::new();
    for c in it: s.chars()
        invariant
            it.seq() == s@,
            out@ =~= lower_chars(s@.subrange(0, it.index() as int)),
    {
        assert(c == s@[it.index() as int]);
        let d = if 'A' <= c && c <= 'Z' {
            ((c as u8) + 32) as char
        } else {
            c
        };
        crate::digest::string_push(&mut out, d);
        assert(lower_chars(s@.subrange(0, it.index() + 1)) =~= lower_chars(
            s@.subrange(0, it.index() as int),
        ).push(lower_char(c)));
    }
    assert(s@.subrange(0, s@.len() as int) =~= s@);
    out
}

/// `a + b` for strings.
pub fn concat(a: &str, b: &str) -> (r: String)
    ensures
        r@ == a@ + b@,
{
    let mut s = a.to_owned();
    vstd::string::StringExecFns::append(&mut s, b);
    s
}

/// `a + b + c` for strings.
pub fn concat3(a: &str, b: &str, c: &str) -> (r: String)
    ensures
        r@ == a@ + b@ + c@,
{
    let mut s = a.to_owned();
    vstd::string::StringExecFns::append(&mut s, b);
    vstd::string::StringExecFns::append(&mut s, c);
    s
}

} // verus!

verus! {

/// `std::str::from_utf8(bytes).ok()`. Trusted: the bytes decode exactly when
/// they are valid UTF-8, and then to the characters they encode.
#[verifier::external_body]
pub(crate) fn utf8_decode(bytes: &[u8]) -> (r: Option<&str>)
    ensures
        r is Some <==> vstd::utf8::valid_utf8(bytes@),
        r matches Some(s) ==> s@ == vstd::utf8::decode_utf8(bytes@),
{
    std::str::from_utf8(bytes).ok()
}

} // verus!

verus! {

/// What `String::from_utf8_lossy` makes of `bytes`.
pub uninterp spec fn lossy_utf8(bytes: Seq<u8>) -> Seq<char>;

/// `String::from_utf8_lossy(bytes).into_owned()`. Trusted: the result is
/// `lossy_utf8(bytes)`, which for valid UTF-8 is the text the bytes encode.
#[verifier::external_body]
pub(crate) fn utf8_lossy(bytes: &[u8]) -> (r: String)
    ensures
        r@ == lossy_utf8(bytes@),
        vstd::utf8::valid_utf8(bytes@) ==> r@ == vstd::utf8::decode_utf8(bytes@),
{
    String::from_utf8_lossy(bytes).into_owned()
}

/// Splitting `s[i..]` into lines as `str::lines` does, given the line `cur`
/// being read and the lines `acc` already read: a line ends at `\n`, and a
/// `\r` right before that `\n` is dropped; a final empty line is not a line.
pub open spec fn lines_from(s: Seq<char>, i: int, cur: Seq<char>, acc: Seq<Seq<char>>) -> Seq<
    Seq<char>,
>
    decreases s.len() - i,
{
    if i < 0 || i >= s.len() {
        if cur.len() > 0 {
            acc.push(cur)
        } else {
            acc
        }
    } else if s[i] == '\n' {
        lines_from(
            s,
            i + 1,
            Seq::empty(),
            acc.push(
                if cur.len() > 0 && cur.last() == '\r' {
                    cur.drop_last()
                } else {
                    cur
                },
            ),
        )
    } else {
        lines_from(s, i + 1, cur.push(s[i]), acc)
    }
}

/// `s.lines()`.
pub open spec fn lines(s: Seq<char>) -> Seq<Seq<char>> {
    lines_from(s, 0, Seq::empty(), Seq::empty())
}

pub fn lines_of(s: &str) -> (r: Vec<String>)
    ensures
        r@.map_values(|x: String| x@) =~= lines(s@),
{
    let v = chars_of(s);
    let n = v.len();
    let mut acc: Vec<String> = Vec::new();
    let mut start: usize = 0;
    let mut i: usize = 0;
    assert(s@.subrange(0, 0) =~= Seq::<char>::empty());
    assert(acc@.map_values(|x: String| x@) =~= Seq::<Seq<char>>::empty());
    while i < n
        invariant
            v@ == s@,
            n == v@.len(),
            0 <= start <= i <= n,
            lines(s@) == lines_from(
                s@,
                i as int,
                s@.subrange(start as int, i as int),
                acc@.map_values(|x: String| x@),
            ),
        decreases n - i,
    {
        let ghost cur = s@.subrange(start as int, i as int);
        let ghost accv = acc@.map_values(|x: String| x@);
        assert(lines_from(s@, i as int, cur, accv) == (if s@[i as int] == '\n' {
            lines_from(
                s@,
                i + 1,
                Seq::empty(),
                accv.push(
                    if cur.len() > 0 && cur.last() == '\r' {
                        cur.drop_last()
                    } else {
                        cur
                    },
                ),
            )
        } else {
            lines_from(s@, i + 1, cur.push(s@[i as int]), accv)
        }));
        if v[i] == '\n' {
            let end = if start < i && v[i - 1] == '\r' {
                i - 1
            } else {
                i
            };
            let line = string_of_chars(&v, start, end);
            proof {
                if start < i && v@[i - 1] == '\r' {
                    assert(cur.drop_last() =~= s@.subrange(start as int, end as int));
                }
                assert(acc@.push(line).map_values(|x: String| x@) =~= accv.push(line@));
                assert(s@.subrange(i + 1, i + 1) =~= Seq::<char>::empty());
            }
            acc.push(line);
            start = i + 1;
        } else {
            assert(s@.subrange(start as int, i + 1) =~= cur.push(s@[i as int]));
        }
        i += 1;
    }
    let ghost cur = s@.subrange(start as int, n as int);
    let ghost accv = acc@.map_values(|x: String| x@);
    assert(lines_from(s@, n as int, cur, accv) == (if cur.len() > 0 {
        accv.push(cur)
    } else {
        accv
    }));
    if start < n {
        let line = string_of_chars(&v, start, n);
        assert(acc@.push(line).map_values(|x: String| x@) =~= accv.push(line@));
        acc.push(line);
    }
    acc
}

/// `s.strip_prefix(p)` on characters: the rest of `s` when it starts with `p`.
pub open spec fn strip_prefix(s: Seq<char>, p: Seq<char>) -> Option<Seq<char>> {
    if p.len() <= s.len() && s.subrange(0, p.len() as int) == p {
        Some(s.subrange(p.len() as int, s.len() as int))
    } else {
        None
    }
}

pub fn strip_prefix_of(s: &str, p: &str) -> (r: Option<String>)
    ensures
        match strip_prefix(s@, p@) {
            Some(rest) => r matches Some(x) && x@ == rest,
            None => r is None,
        },
{
    let v = chars_of(s);
    let w = chars_of(p);
    if w.len() > v.len() {
        return None;
    }
    let mut i: usize = 0;
    while i < w.len()
        invariant
            v@ == s@,
            w@ == p@,
            w@.len() <= v@.len(),
            0 <= i <= w@.len(),
            forall|j: int| 0 <= j < i ==> v@[j] == w@[j],
        decreases w@.len() - i,
    {
        if v[i] != w[i] {
            assert(s@.subrange(0, p@.len() as int)[i as int] != p@[i as int]);
            return None;
        }
        i += 1;
    }
    assert(s@.subrange(0, p@.len() as int) =~= p@);
    Some(string_of_chars(&v, w.len(), v.len()))
}

/// The first `n` characters of `s`.
pub fn take_chars(s: &str, n: usize) -> (r: String)
    ensures
        r@ == (if s@.len() <= n {
            s@
        } else {
            s@.subrange(0, n as int)
        }),
{
    let v = chars_of(s);
    let end = if v.len() <= n {
        v.len()
    } else {
        n
    };
    let r = string_of_chars(&v, 0, end);
    assert(s@.subrange(0, s@.len() as int) =~= s@);
    r
}

} // verus!

verus! {

/// `char::to_ascii_uppercase`.
pub open spec fn upper_char(c: char) -> char {
    if 'a' <= c <= 'z' {
        ((c as u32) - 32) as char
    } else {
        c
    }
}

/// `str::to_ascii_uppercase`.
pub open spec fn upper_chars(s: Seq<char>) -> Seq<char> {
    s.map_values(|c: char| upper_char(c))
}

pub fn to_upper(s: &str) -> (r: String)
    ensures
        r@ == upper_chars(s@),
{
    let mut out = String::new();
    for c in it: s.chars()
        invariant
            it.seq() == s@,
            out@ =~= upper_chars(s@.subrange(0, it.index() as int)),
    {
        assert(c == s@[it.index() as int]);
        let d = if 'a' <= c && c <= 'z' {
            ((c as u8) - 32) as char
        } else {
            c
        };
        crate::digest::string_push(&mut out, d);
        assert(upper_chars(s@.subrange(0, it.index() + 1)) =~= upper_chars(
            s@.subrange(0, it.index() as int),
        ).push(upper_char(c)));
    }
    assert(s@.subrange(0, s@.len() as int) =~= s@);
    out
}

/// The items of `ws` joined by `sep` (`[..].join(sep)`).
pub open spec fn join(ws: Seq<Seq<char>>, sep: Seq<char>) -> Seq<char>
    decreases ws.len(),
{
    if ws.len() == 0 {
        Seq::empty()
    } else if ws.len() == 1 {
        ws[0]
    } else {
        join(ws.drop_last(), sep) + sep + ws.last()
    }
}

/// The conjunction of the conditions `ws`: the first, and each later one
/// added after `" AND "`.
pub open spec fn conjunction(ws: Seq<Seq<char>>) -> Seq<char>
    decreases ws.len(),
{
    if ws.len() == 0 {
        Seq::empty()
    } else if ws.len() == 1 {
        ws[0]
    } else {
        conjunction(ws.drop_last()) + " AND "@ + ws.last()
    }
}

/// Joining conditions by `" AND "` gives their conjunction.
pub proof fn lemma_and_join_is_conjunction(ws: Seq<Seq<char>>)
    ensures
        join(ws, " AND "@) == conjunction(ws),
    decreases ws.len(),
{
    if ws.len() > 1 {
        lemma_and_join_is_conjunction(ws.drop_last());
    }
}

/// `items.join(sep)`.
pub fn join_texts(items: &Vec<String>, sep: &str) -> (r: String)
    ensures
        r@ == join(items@.map_values(|x: String| x@), sep@),
{
    let ghost ws = items@.map_values(|x: String| x@);
    let mut out = String::new();
    let mut i: usize = 0;
    while i < items.len()
        invariant
            ws == items@.map_values(|x: String| x@),
            0 <= i <= items@.len(),
            out@ == join(ws.subrange(0, i as int), sep@),
        decreases items@.len() - i,
    {
        assert(ws.subrange(0, i + 1).drop_last() =~= ws.subrange(0, i as int));
        if i > 0 {
            vstd::string::StringExecFns::append(&mut out, sep);
        }
        vstd::string::StringExecFns::append(&mut out, items[i].as_str());
        proof {
            if i == 0 {
                assert(out@ =~= ws.subrange(0, 1)[0]);
            }
        }
        i += 1;
    }
    assert(ws.subrange(0, items@.len() as int) =~= ws);
    out
}

} // verus!

verus! {

/// The index of the first `c` in `s` at or after `i`, or `s.len()`.
pub open spec fn first_index(s: Seq<char>, c: char, i: int) -> int
    decreases s.len() - i,
{
    if i < 0 || i >= s.len() {
        s.len() as int
    } else if s[i] == c {
        i
    } else {
        first_index(s, c, i + 1)
    }
}

/// What comes before the first `c` (all of `s` when there is none).
pub open spec fn before_first(s: Seq<char>, c: char) -> Seq<char> {
    s.subrange(0, first_index(s, c, 0))
}

/// What comes after the first `c`, when there is one.
pub open spec fn after_first(s: Seq<char>, c: char) -> Option<Seq<char>> {
    let k = first_index(s, c, 0);
    if k < s.len() {
        Some(s.subrange(k + 1, s.len() as int))
    } else {
        None
    }
}

/// The index of the last `c` in `s[..j]`, or -1.
pub open spec fn last_index(s: Seq<char>, c: char, j: int) -> int
    decreases j,
{
    if j <= 0 || j > s.len() {
        -1
    } else if s[j - 1] == c {
        j - 1
    } else {
        last_index(s, c, j - 1)
    }
}

/// What comes after the last `c` (all of `s` when there is none).
pub open spec fn after_last(s: Seq<char>, c: char) -> Seq<char> {
    s.subrange(last_index(s, c, s.len() as int) + 1, s.len() as int)
}

/// `first_index(v, c, 0)`.
pub fn find_char(v: &Vec<char>, c: char) -> (r: usize)
    ensures
        r as int == first_index(v@, c, 0),
        r <= v@.len(),
{
    let mut i: usize = 0;
    while i < v.len() && v[i] != c
        invariant
            0 <= i <= v@.len(),
            first_index(v@, c, 0) == first_index(v@, c, i as int),
        decreases v@.len() - i,
    {
        i += 1;
    }
    i
}

/// `last_index(v, c, v.len()) + 1`.
pub fn find_last_char_end(v: &Vec<char>, c: char) -> (r: usize)
    ensures
        r as int == last_index(v@, c, v@.len() as int) + 1,
        r <= v@.len(),
{
    let mut j: usize = v.len();
    while j > 0 && v[j - 1] != c
        invariant
            0 <= j <= v@.len(),
            last_index(v@, c, v@.len() as int) == last_index(v@, c, j as int),
        decreases j,
    {
        j -= 1;
    }
    j
}

/// Whether `p` begins `s`, character by character.
pub open spec fn begins(s: Seq<char>, p: Seq<char>) -> bool {
    p.len() <= s.len() && s.subrange(0, p.len() as int) =~= p
}

/// `s.trim_start_matches(p)` for a non-empty `p`: every leading copy of `p`
/// removed.
pub open spec fn strip_all(s: Seq<char>, p: Seq<char>) -> Seq<char>
    decreases s.len(),
{
    if p.len() > 0 && begins(s, p) {
        strip_all(s.subrange(p.len() as int, s.len() as int), p)
    } else {
        s
    }
}

fn begins_at(v: &Vec<char>, from: usize, p: &Vec<char>) -> (r: bool)
    requires
        from <= v@.len(),
    ensures
        r == begins(v@.subrange(from as int, v@.len() as int), p@),
        r ==> from + p@.len() <= v@.len(),
{
    let n = v.len();
    if p.len() > n - from {
        return false;
    }
    let mut k: usize = 0;
    while k < p.len()
        invariant
            n == v@.len(),
            from + p@.len() <= v@.len(),
            0 <= k <= p@.len(),
            forall|j: int| 0 <= j < k ==> v@[from + j] == p@[j],
        decreases p@.len() - k,
    {
        if v[from + k] != p[k] {
            assert(v@.subrange(from as int, v@.len() as int).subrange(0, p@.len() as int)[k as int]
                != p@[k as int]);
            return false;
        }
        k += 1;
    }
    assert(v@.subrange(from as int, v@.len() as int).subrange(0, p@.len() as int) =~= p@);
    true
}

/// `s.trim_start_matches(p)` for a non-empty `p`.
pub fn strip_all_prefix(s: &str, p: &str) -> (r: String)
    requires
        p@.len() > 0,
    ensures
        r@ == strip_all(s@, p@),
{
    let v = chars_of(s);
    let pv = chars_of(p);
    let mut i: usize = 0;
    assert(v@.subrange(0, v@.len() as int) =~= v@);
    let mut go = begins_at(&v, 0, &pv);
    let n = v.len();
    while go
        invariant
            n == v@.len(),
            pv@ == p@,
            p@.len() > 0,
            v@ == s@,
            0 <= i <= v@.len(),
            go == begins(v@.subrange(i as int, v@.len() as int), p@),
            go ==> i + p@.len() <= v@.len(),
            strip_all(s@, p@) == strip_all(v@.subrange(i as int, v@.len() as int), p@),
        decreases v@.len() - i,
    {
        assert(v@.subrange(i as int, v@.len() as int).subrange(p@.len() as int, v@.len() - i) =~= v@.subrange(
            i + p@.len(),
            v@.len() as int,
        ));
        i = i + pv.len();
        go = begins_at(&v, i, &pv);
    }
    string_of_chars(&v, i, v.len())
}

/// `s.split(c)`: the pieces between the `c`s, empty ones kept.
pub open spec fn split_all_from(s: Seq<char>, c: char, i: int, cur: Seq<char>, acc: Seq<Seq<char>>) -> Seq<
    Seq<char>,
>
    decreases s.len() - i,
{
    if i < 0 || i >= s.len() {
        acc.push(cur)
    } else if s[i] == c {
        split_all_from(s, c, i + 1, Seq::empty(), acc.push(cur))
    } else {
        split_all_from(s, c, i + 1, cur.push(s[i]), acc)
    }
}

pub open spec fn split_all(s: Seq<char>, c: char) -> Seq<Seq<char>> {
    split_all_from(s, c, 0, Seq::empty(), Seq::empty())
}

pub fn split_on(s: &str, c: char) -> (r: Vec<String>)
    ensures
        r@.map_values(|x: String| x@) =~= split_all(s@, c),
{
    let v = chars_of(s);
    let n = v.len();
    let mut acc: Vec<String> = Vec::new();
    let mut start: usize = 0;
    let mut i: usize = 0;
    assert(s@.subrange(0, 0) =~= Seq::<char>::empty());
    assert(acc@.map_values(|x: String| x@) =~= Seq::<Seq<char>>::empty());
    while i < n
        invariant
            v@ == s@,
            n == v@.len(),
            0 <= start <= i <= n,
            split_all(s@, c) == split_all_from(
                s@,
                c,
                i as int,
                s@.subrange(start as int, i as int),
                acc@.map_values(|x: String| x@),
            ),
        decreases n - i,
    {
        let ghost cur = s@.subrange(start as int, i as int);
        let ghost accv = acc@.map_values(|x: String| x@);
        if v[i] == c {
            let piece = string_of_chars(&v, start, i);
            acc.push(piece);
            assert(acc@.map_values(|x: String| x@) =~= accv.push(cur));
            start = i + 1;
            assert(s@.subrange(start as int, (i + 1) as int) =~= Seq::<char>::empty());
        } else {
            assert(s@.subrange(start as int, (i + 1) as int) =~= cur.push(s@[i as int]));
        }
        i += 1;
    }
    let ghost accv = acc@.map_values(|x: String| x@);
    let last = string_of_chars(&v, start, n);
    acc.push(last);
    assert(acc@.map_values(|x: String| x@) =~= accv.push(s@.subrange(start as int, n as int)));
    acc
}

/// The index of the first of `needles[i..]` that `hay` contains.
pub open spec fn first_hit(hay: Seq<char>, needles: Seq<Seq<char>>, i: int) -> Option<int>
    decreases needles.len() - i,
{
    if i < 0 || i >= needles.len() {
        None
    } else if contains(hay, needles[i]) {
        Some(i)
    } else {
        first_hit(hay, needles, i + 1)
    }
}

pub open spec fn strs_view(v: Seq<&str>) -> Seq<Seq<char>> {
    v.map_values(|x: &str| x@)
}

/// The first of `needles` that `hay` contains.
pub fn first_contained(hay: &str, needles: &Vec<&str>) -> (r: Option<usize>)
    ensures
        r matches Some(k) ==> first_hit(hay@, strs_view(needles@), 0) == Some(k as int) && k
            < needles@.len(),
        r is None ==> first_hit(hay@, strs_view(needles@), 0) is None,
{
    let ghost ns = strs_view(needles@);
    let mut i: usize = 0;
    while i < needles.len()
        invariant
            ns == strs_view(needles@),
            0 <= i <= needles@.len(),
            first_hit(hay@, ns, 0) == first_hit(hay@, ns, i as int),
        decreases needles@.len() - i,
    {
        assert(ns[i as int] == needles@[i as int]@);
        if has_substring(hay, needles[i]) {
            return Some(i);
        }
        i += 1;
    }
    None
}

} // verus!

verus! {

/// The bytes of two texts one after the other are the bytes of each.
pub proof fn lemma_utf8_append(a: Seq<char>, b: Seq<char>)
    ensures
        utf8(a + b) =~= utf8(a) + utf8(b),
    decreases a.len(),
{
    if a.len() == 0 {
        assert(a + b =~= b);
    } else {
        assert((a + b).drop_first() =~= a.drop_first() + b);
        assert((a + b)[0] == a[0]);
        lemma_utf8_append(a.drop_first(), b);
    }
}

/// An ASCII text takes one byte per character.
pub proof fn lemma_ascii_blen(s: Seq<char>)
    requires
        forall|i: int| 0 <= i < s.len() ==> (#[trigger] s[i] as u32) < 128,
    ensures
        blen(s) == s.len(),
    decreases s.len(),
{
    if s.len() > 0 {
        assert forall|i: int| 0 <= i < s.drop_first().len() implies (#[trigger] s.drop_first()[i] as u32)
            < 128 by {
            assert(s.drop_first()[i] == s[i + 1]);
        }
        lemma_ascii_blen(s.drop_first());
        assert((s[0] as u32) < 128);
        let e = vstd::utf8::encode_scalar(s[0] as u32);
        assert(e.len() == 1);
    }
}

/// A text takes one to four bytes per character.
pub proof fn lemma_blen_bounds(s: Seq<char>)
    ensures
        s.len() <= blen(s) <= 4 * s.len(),
    decreases s.len(),
{
    if s.len() > 0 {
        lemma_blen_bounds(s.drop_first());
        let e = vstd::utf8::encode_scalar(s[0] as u32);
        assert(1 <= e.len() <= 4);
    }
}

/// A text that begins with `p` starts with it, byte for byte.
pub proof fn lemma_prefix_starts(p: Seq<char>, rest: Seq<char>)
    ensures
        starts_with(p + rest, p),
{
    lemma_utf8_append(p, rest);
    assert(utf8(p + rest).subrange(0, utf8(p).len() as int) =~= utf8(p));
}

} // verus!


verus! {

/// The first `k` bytes of `a` and `b` agree.
pub open spec fn agree_below(a: Seq<u8>, b: Seq<u8>, k: int) -> bool {
    forall|j: int| 0 <= j < k ==> a[j] == b[j]
}

/// `a` and `b` agree below `k`, and at `k` either `a` has the smaller byte
/// or `a` has ended while `b` goes on.
pub open spec fn lex_step(a: Seq<u8>, b: Seq<u8>, k: int) -> bool {
    &&& 0 <= k <= a.len()
    &&& k <= b.len()
    &&& agree_below(a, b, k)
    &&& ((k < a.len() && k < b.len() && a[k] < b[k]) || (k == a.len() && k < b.len()))
}

/// `a < b` in the byte-wise lexicographic order.
pub open spec fn lex_lt(a: Seq<u8>, b: Seq<u8>) -> bool {
    exists|k: int| #[trigger] lex_step(a, b, k)
}

/// `a < b` as `str` orders them: byte-wise, on their UTF-8 encodings.
pub open spec fn str_lt(a: Seq<char>, b: Seq<char>) -> bool {
    lex_lt(utf8(a), utf8(b))
}

/// Each text is smaller than every later one.
pub open spec fn strictly_sorted(v: Seq<Seq<char>>) -> bool {
    forall|i: int, j: int| 0 <= i < j < v.len() ==> str_lt(#[trigger] v[i], #[trigger] v[j])
}

/// No byte sequence is below itself.
pub proof fn lemma_lex_irreflexive(a: Seq<u8>)
    ensures
        !lex_lt(a, a),
{
}

/// The order is transitive.
pub proof fn lemma_lex_transitive(a: Seq<u8>, b: Seq<u8>, c: Seq<u8>)
    requires
        lex_lt(a, b),
        lex_lt(b, c),
    ensures
        lex_lt(a, c),
{
    let k1 = choose|k: int| lex_step(a, b, k);
    let k2 = choose|k: int| lex_step(b, c, k);
    if k1 < k2 {
        assert(agree_below(a, c, k1));
        assert(lex_step(a, c, k1));
    } else if k2 < k1 {
        assert(agree_below(a, c, k2));
        assert(lex_step(a, c, k2));
    } else {
        assert(agree_below(a, c, k1));
        assert(lex_step(a, c, k1));
    }
}

/// Two different byte sequences are ordered one way or the other.
pub proof fn lemma_lex_total(a: Seq<u8>, b: Seq<u8>)
    requires
        a != b,
    ensures
        lex_lt(a, b) || lex_lt(b, a),
{
    let n = if a.len() < b.len() {
        a.len() as int
    } else {
        b.len() as int
    };
    if agree_below(a, b, n) {
        if a.len() == b.len() {
            assert(a =~= b);
        } else if a.len() < b.len() {
            assert(lex_step(a, b, n));
        } else {
            assert(lex_step(b, a, n));
        }
    } else {
        let k = lemma_first_difference(a, b, n, 0);
        if a[k] < b[k] {
            assert(lex_step(a, b, k));
        } else {
            assert(agree_below(b, a, k));
            assert(lex_step(b, a, k));
        }
    }
}

/// Where two sequences that agree below `i` but not below `n` first differ.
proof fn lemma_first_difference(a: Seq<u8>, b: Seq<u8>, n: int, i: int) -> (k: int)
    requires
        0 <= i <= n,
        n <= a.len(),
        n <= b.len(),
        agree_below(a, b, i),
        !agree_below(a, b, n),
    ensures
        i <= k < n,
        a[k] != b[k],
        agree_below(a, b, k),
    decreases n - i,
{
    if a[i] != b[i] {
        i
    } else {
        assert(agree_below(a, b, i + 1));
        lemma_first_difference(a, b, n, i + 1)
    }
}

} // verus!

verus! {

/// `a < b` on string slices.
pub fn str_lt_exec(a: &str, b: &str) -> (r: bool)
    ensures
        r == str_lt(a@, b@),
{
    let x = a.as_bytes();
    let y = b.as_bytes();
    let n = if x.len() < y.len() {
        x.len()
    } else {
        y.len()
    };
    let mut i: usize = 0;
    while i < n
        invariant
            x@ == utf8(a@),
            y@ == utf8(b@),
            n <= x@.len(),
            n <= y@.len(),
            n == x@.len() || n == y@.len(),
            0 <= i <= n,
            agree_below(x@, y@, i as int),
        decreases n - i,
    {
        if x[i] != y[i] {
            proof {
                if x[i as int] < y[i as int] {
                    assert(lex_step(x@, y@, i as int));
                } else {
                    assert forall|k: int| !lex_step(x@, y@, k) by {
                        if lex_step(x@, y@, k) && k > i {
                            assert(x@[i as int] == y@[i as int]);
                        }
                    }
                }
            }
            return x[i] < y[i];
        }
        i += 1;
    }
    proof {
        if x@.len() < y@.len() {
            assert(lex_step(x@, y@, n as int));
        } else {
            assert forall|k: int| !lex_step(x@, y@, k) by {
                if lex_step(x@, y@, k) && k < n {
                    assert(x@[k] == y@[k]);
                }
            }
        }
    }
    x.len() < y.len()
}

/// Two texts with the same UTF-8 bytes are the same text.
pub proof fn lemma_utf8_injective(a: Seq<char>, b: Seq<char>)
    requires
        utf8(a) == utf8(b),
    ensures
        a == b,
{
    vstd::utf8::encode_utf8_decode_utf8(a);
    vstd::utf8::encode_utf8_decode_utf8(b);
}

/// The texts of a list of strings.
pub open spec fn views(v: Seq<String>) -> Seq<Seq<char>> {
    v.map_values(|s: String| s@)
}

/// Adds `x` to a strictly sorted list of strings unless it is there already;
/// the list stays strictly sorted (the order of a `BTreeSet<String>`).
pub fn insert_sorted(v: &mut Vec<String>, x: String)
    requires
        strictly_sorted(views(old(v)@)),
    ensures
        strictly_sorted(views(final(v)@)),
        views(final(v)@).to_set() == views(old(v)@).to_set().insert(x@),
{
    let ghost s0 = views(v@);
    let mut p: usize = 0;
    while p < v.len() && str_lt_exec(v[p].as_str(), x.as_str())
        invariant
            views(v@) == s0,
            strictly_sorted(s0),
            0 <= p <= v@.len(),
            forall|j: int| 0 <= j < p ==> str_lt(#[trigger] s0[j], x@),
        decreases v@.len() - p,
    {
        assert(s0[p as int] == v@[p as int]@);
        p += 1;
    }
    if p < v.len() && str_eq(v[p].as_str(), x.as_str()) {
        proof {
            assert(s0[p as int] == x@);
            assert(s0.to_set().insert(x@) =~= s0.to_set());
        }
        return;
    }
    proof {
        if p < v@.len() {
            assert(s0[p as int] == v@[p as int]@);
            assert(!str_lt(s0[p as int], x@));
            if utf8(s0[p as int]) == utf8(x@) {
                lemma_utf8_injective(s0[p as int], x@);
            }
            lemma_lex_total(utf8(s0[p as int]), utf8(x@));
            assert(str_lt(x@, s0[p as int]));
        }
        assert(p < s0.len() ==> str_lt(x@, s0[p as int]));
    }
    v.insert(p, x);
    proof {
        let s1 = views(v@);
        assert(s1 =~= s0.insert(p as int, x@));
        assert forall|i: int, j: int| 0 <= i < j < s1.len() implies str_lt(
            #[trigger] s1[i],
            #[trigger] s1[j],
        ) by {
            if j < p {
                assert(s1[i] == s0[i] && s1[j] == s0[j]);
            } else if j == p {
                assert(s1[i] == s0[i]);
            } else if i < p {
                assert(s1[i] == s0[i] && s1[j] == s0[j - 1]);
                assert(str_lt(x@, s0[p as int]));
                if j - 1 > p {
                    assert(str_lt(s0[p as int], s0[j - 1]));
                    lemma_lex_transitive(utf8(x@), utf8(s0[p as int]), utf8(s0[j - 1]));
                }
                lemma_lex_transitive(utf8(s0[i]), utf8(x@), utf8(s0[j - 1]));
            } else if i == p {
                assert(s1[j] == s0[j - 1]);
                if j - 1 > p {
                    assert(str_lt(s0[p as int], s0[j - 1]));
                    lemma_lex_transitive(utf8(x@), utf8(s0[p as int]), utf8(s0[j - 1]));
                }
            } else {
                assert(s1[i] == s0[i - 1] && s1[j] == s0[j - 1]);
            }
        }
        assert forall|t: Seq<char>| s1.to_set().contains(t) <==> s0.to_set().insert(x@).contains(t) by {
            if s1.to_set().contains(t) {
                let k = choose|k: int| 0 <= k < s1.len() && s1[k] == t;
                if k < p {
                    assert(s0[k] == t);
                } else if k > p {
                    assert(s0[k - 1] == t);
                }
            }
            if s0.to_set().contains(t) {
                let k = choose|k: int| 0 <= k < s0.len() && s0[k] == t;
                if k < p {
                    assert(s1[k] == t);
                } else {
                    assert(s1[k + 1] == t);
                }
            }
            if t == x@ {
                assert(s1[p as int] == t);
            }
        }
        assert(s1.to_set() =~= s0.to_set().insert(x@));
    }
}

} // verus!

verus! {

/// Whether `x` is in a strictly sorted list of strings, by binary search.
pub fn contains_sorted(v: &Vec<String>, x: &str) -> (r: bool)
    requires
        strictly_sorted(views(v@)),
    ensures
        r == views(v@).contains(x@),
{
    let ghost s = views(v@);
    let mut lo: usize = 0;
    let mut hi: usize = v.len();
    while lo < hi
        invariant
            s == views(v@),
            strictly_sorted(s),
            0 <= lo <= hi <= v@.len(),
            forall|i: int| 0 <= i < lo ==> str_lt(#[trigger] s[i], x@),
            forall|i: int| hi <= i < s.len() ==> str_lt(x@, #[trigger] s[i]),
        decreases hi - lo,
    {
        let mid = lo + (hi - lo) / 2;
        assert(s[mid as int] == v@[mid as int]@);
        if str_eq(v[mid].as_str(), x) {
            assert(s.contains(x@));
            return true;
        }
        if str_lt_exec(v[mid].as_str(), x) {
            proof {
                assert forall|i: int| 0 <= i < mid + 1 implies str_lt(#[trigger] s[i], x@) by {
                    if i < mid {
                        lemma_lex_transitive(utf8(s[i]), utf8(s[mid as int]), utf8(x@));
                    }
                }
            }
            lo = mid + 1;
        } else {
            proof {
                if utf8(s[mid as int]) == utf8(x@) {
                    lemma_utf8_injective(s[mid as int], x@);
                }
                lemma_lex_total(utf8(s[mid as int]), utf8(x@));
                assert forall|i: int| mid <= i < s.len() implies str_lt(x@, #[trigger] s[i]) by {
                    if i > mid {
                        lemma_lex_transitive(utf8(x@), utf8(s[mid as int]), utf8(s[i]));
                    }
                }
            }
            hi = mid;
        }
    }
    proof {
        if s.contains(x@) {
            let i = choose|i: int| 0 <= i < s.len() && s[i] == x@;
            lemma_lex_irreflexive(utf8(x@));
            if i < lo {
                assert(str_lt(s[i], x@));
            } else {
                assert(str_lt(x@, s[i]));
            }
        }
    }
    false
}

/// 1 when `b` holds, else 0.
pub open spec fn one_if(b: bool) -> nat {
    if b {
        1
    } else {
        0
    }
}

/// The keys of a list of counts.
pub open spec fn keys_of(v: Seq<(String, u64)>) -> Seq<Seq<char>> {
    v.map_values(|p: (String, u64)| p.0@)
}

/// Counts one more `k` in a list of counts kept sorted by key, each key
/// once: `occ` is what the list counted so far (zero for absent keys).
pub fn bump(v: &mut Vec<(String, u64)>, k: &str, Ghost(occ): Ghost<spec_fn(Seq<char>) -> nat>)
    requires
        strictly_sorted(keys_of(old(v)@)),
        forall|i: int| 0 <= i < old(v)@.len() ==> (#[trigger] old(v)@[i]).1 == occ(old(v)@[i].0@),
        forall|x: Seq<char>| !keys_of(old(v)@).contains(x) ==> occ(x) == 0,
        occ(k@) < u64::MAX,
    ensures
        strictly_sorted(keys_of(final(v)@)),
        forall|i: int|
            0 <= i < final(v)@.len() ==> (#[trigger] final(v)@[i]).1 == occ(final(v)@[i].0@)
                + one_if(final(v)@[i].0@ == k@),
        forall|x: Seq<char>| !keys_of(final(v)@).contains(x) ==> occ(x) == 0 && x != k@,
        keys_of(final(v)@).to_set() == keys_of(old(v)@).to_set().insert(k@),
{
    let ghost s0 = keys_of(v@);
    let ghost v0 = v@;
    let mut p: usize = 0;
    while p < v.len() && str_lt_exec(v[p].0.as_str(), k)
        invariant
            v@ == v0,
            s0 == keys_of(v0),
            strictly_sorted(s0),
            0 <= p <= v@.len(),
            forall|j: int| 0 <= j < p ==> str_lt(#[trigger] s0[j], k@),
        decreases v@.len() - p,
    {
        assert(s0[p as int] == v@[p as int].0@);
        p += 1;
    }
    if p < v.len() && str_eq(v[p].0.as_str(), k) {
        assert(s0[p as int] == k@);
        assert(v0[p as int].1 == occ(k@));
        let old_count = v[p].1;
        let key = v[p].0.clone();
        v.set(p, (key, old_count + 1));
        proof {
            let s1 = keys_of(v@);
            assert(s1 =~= s0);
            assert forall|i: int| 0 <= i < v@.len() implies (#[trigger] v@[i]).1 == occ(v@[i].0@) + one_if(
                v@[i].0@ == k@,
            ) by {
                if i != p {
                    assert(v@[i] == v0[i]);
                    assert(s0[i] == v0[i].0@);
                    if v0[i].0@ == k@ {
                        lemma_lex_irreflexive(utf8(k@));
                        if i < p {
                            assert(str_lt(s0[i], s0[p as int]));
                        } else {
                            assert(str_lt(s0[p as int], s0[i]));
                        }
                    }
                }
            }
            assert forall|x: Seq<char>| !keys_of(v@).contains(x) implies occ(x) == 0 && x != k@ by {
                if x == k@ {
                    assert(s1[p as int] == k@);
                }
            }
            assert(s0.to_set().insert(k@) =~= s0.to_set());
        }
        return;
    }
    proof {
        if p < v@.len() {
            assert(s0[p as int] == v@[p as int].0@);
            assert(!str_lt(s0[p as int], k@));
            if utf8(s0[p as int]) == utf8(k@) {
                lemma_utf8_injective(s0[p as int], k@);
            }
            lemma_lex_total(utf8(s0[p as int]), utf8(k@));
            assert(str_lt(k@, s0[p as int]));
        }
        assert(p < s0.len() ==> str_lt(k@, s0[p as int]));
        assert(!s0.contains(k@)) by {
            if s0.contains(k@) {
                let j = choose|j: int| 0 <= j < s0.len() && s0[j] == k@;
                lemma_lex_irreflexive(utf8(k@));
                if j < p {
                    assert(str_lt(s0[j], k@));
                } else if j > p {
                    assert(str_lt(s0[p as int], s0[j]));
                    lemma_lex_transitive(utf8(k@), utf8(s0[p as int]), utf8(s0[j]));
                }
            }
        }
        assert(occ(k@) == 0);
    }
    v.insert(p, (k.to_owned(), 1));
    proof {
        let s1 = keys_of(v@);
        assert(s1 =~= s0.insert(p as int, k@));
        assert forall|i: int, j: int| 0 <= i < j < s1.len() implies str_lt(
            #[trigger] s1[i],
            #[trigger] s1[j],
        ) by {
            if j < p {
                assert(s1[i] == s0[i] && s1[j] == s0[j]);
            } else if j == p {
                assert(s1[i] == s0[i]);
            } else if i < p {
                assert(s1[i] == s0[i] && s1[j] == s0[j - 1]);
                if j - 1 > p {
                    assert(str_lt(s0[p as int], s0[j - 1]));
                    lemma_lex_transitive(utf8(k@), utf8(s0[p as int]), utf8(s0[j - 1]));
                }
                lemma_lex_transitive(utf8(s0[i]), utf8(k@), utf8(s0[j - 1]));
            } else if i == p {
                assert(s1[j] == s0[j - 1]);
                if j - 1 > p {
                    assert(str_lt(s0[p as int], s0[j - 1]));
                    lemma_lex_transitive(utf8(k@), utf8(s0[p as int]), utf8(s0[j - 1]));
                }
            } else {
                assert(s1[i] == s0[i - 1] && s1[j] == s0[j - 1]);
            }
        }
        assert forall|i: int| 0 <= i < v@.len() implies (#[trigger] v@[i]).1 == occ(v@[i].0@) + one_if(
            v@[i].0@ == k@,
        ) by {
            if i < p {
                assert(v@[i] == v0[i]);
                assert(s0[i] == v0[i].0@);
                if v0[i].0@ == k@ {
                    assert(s0.contains(k@));
                }
            } else if i > p {
                assert(v@[i] == v0[i - 1]);
                assert(s0[i - 1] == v0[i - 1].0@);
                if v0[i - 1].0@ == k@ {
                    assert(s0.contains(k@));
                }
            }
        }
        assert forall|x: Seq<char>| !keys_of(v@).contains(x) implies occ(x) == 0 && x != k@ by {
            if x == k@ {
                assert(s1[p as int] == k@);
            }
            if s0.contains(x) {
                let j = choose|j: int| 0 <= j < s0.len() && s0[j] == x;
                if j < p {
                    assert(s1[j] == x);
                } else {
                    assert(s1[j + 1] == x);
                }
            }
        }
        assert forall|t: Seq<char>| s1.to_set().contains(t) <==> s0.to_set().insert(k@).contains(t) by {
            if s1.to_set().contains(t) {
                let j = choose|j: int| 0 <= j < s1.len() && s1[j] == t;
                if j < p {
                    assert(s0[j] == t);
                } else if j > p {
                    assert(s0[j - 1] == t);
                }
            }
            if s0.to_set().contains(t) {
                let j = choose|j: int| 0 <= j < s0.len() && s0[j] == t;
                if j < p {
                    assert(s1[j] == t);
                } else {
                    assert(s1[j + 1] == t);
                }
            }
            if t == k@ {
                assert(s1[p as int] == t);
            }
        }
        assert(s1.to_set() =~= s0.to_set().insert(k@));
    }
}

} // verus!

verus! {

/// The keys of a list of nested counts.
pub open spec fn outer_keys(v: Seq<(String, Vec<(String, u64)>)>) -> Seq<Seq<char>> {
    v.map_values(|p: (String, Vec<(String, u64)>)| p.0@)
}

/// Whether `v` holds the counts `occ` (by name, then by kind): names sorted
/// and each once, each name's kinds sorted and each once, every count as
/// `occ` says, and nothing left out that `occ` counts.
pub open spec fn holds_counts(
    v: Seq<(String, Vec<(String, u64)>)>,
    occ: spec_fn(Seq<char>, Seq<char>) -> nat,
) -> bool {
    &&& strictly_sorted(outer_keys(v))
    &&& forall|t: int| 0 <= t < v.len() ==> strictly_sorted(keys_of((#[trigger] v[t]).1@))
    &&& forall|t: int, u: int|
        0 <= t < v.len() && 0 <= u < v[t].1@.len() ==> (#[trigger] v[t].1@[u]).1 == occ(
            v[t].0@,
            v[t].1@[u].0@,
        )
    &&& forall|t: int, x: Seq<char>|
        0 <= t < v.len() && !keys_of(v[t].1@).contains(x) ==> #[trigger] occ(v[t].0@, x) == 0
    &&& forall|n: Seq<char>, x: Seq<char>| !outer_keys(v).contains(n) ==> #[trigger] occ(n, x) == 0
}

/// Counts one more `kind` under `name` in a list of nested counts.
pub fn bump2(
    v: &mut Vec<(String, Vec<(String, u64)>)>,
    name: &str,
    kind: &str,
    Ghost(occ): Ghost<spec_fn(Seq<char>, Seq<char>) -> nat>,
)
    requires
        holds_counts(old(v)@, occ),
        occ(name@, kind@) < u64::MAX,
    ensures
        holds_counts(
            final(v)@,
            |n: Seq<char>, x: Seq<char>| occ(n, x) + one_if(n == name@ && x == kind@),
        ),
{
    let ghost occ1 = |n: Seq<char>, x: Seq<char>| occ(n, x) + one_if(n == name@ && x == kind@);
    let ghost s0 = outer_keys(v@);
    let ghost v0 = v@;
    let mut p: usize = 0;
    while p < v.len() && str_lt_exec(v[p].0.as_str(), name)
        invariant
            v@ == v0,
            s0 == outer_keys(v0),
            strictly_sorted(s0),
            0 <= p <= v@.len(),
            forall|j: int| 0 <= j < p ==> str_lt(#[trigger] s0[j], name@),
        decreases v@.len() - p,
    {
        assert(s0[p as int] == v@[p as int].0@);
        p += 1;
    }
    if p < v.len() && str_eq(v[p].0.as_str(), name) {
        assert(s0[p as int] == name@);
        let (key, mut inner) = v.remove(p);
        assert(inner@ == v0[p as int].1@);
        assert(key@ == name@);
        bump(&mut inner, kind, Ghost(|x: Seq<char>| occ(name@, x)));
        v.insert(p, (key, inner));
        assert(v@ =~= v0.update(p as int, (key, inner)));
        proof {
            assert(outer_keys(v@) =~= s0);
            assert forall|t: int| 0 <= t < v@.len() && t != p implies (#[trigger] v@[t]) == v0[t] by {}
            assert forall|t: int| 0 <= t < v@.len() && t != p implies v@[t].0@ != name@ by {
                assert(s0[t] == v0[t].0@);
                if v0[t].0@ == name@ {
                    lemma_lex_irreflexive(utf8(name@));
                    if t < p {
                        assert(str_lt(s0[t], s0[p as int]));
                    } else {
                        assert(str_lt(s0[p as int], s0[t]));
                    }
                }
            }
            assert(holds_counts(v@, occ1)) by {
                assert forall|t: int, u: int|
                    0 <= t < v@.len() && 0 <= u < v@[t].1@.len() implies (#[trigger] v@[t].1@[u]).1 == occ1(
                    v@[t].0@,
                    v@[t].1@[u].0@,
                ) by {
                    if t != p {
                        assert(v@[t] == v0[t]);
                    } else {
                        assert(v@[t].1@ == inner@);
                        assert(inner@[u] == v@[t].1@[u]);
                    }
                }
                assert forall|t: int, x: Seq<char>|
                    0 <= t < v@.len() && !keys_of(v@[t].1@).contains(x) implies #[trigger] occ1(v@[t].0@, x) == 0 by {
                    if t != p {
                        assert(v@[t] == v0[t]);
                    } else {
                        assert(v@[t].1@ == inner@);
                    }
                }
                assert forall|t: int| 0 <= t < v@.len() implies strictly_sorted(keys_of((#[trigger] v@[t]).1@)) by {
                    if t != p {
                        assert(v@[t] == v0[t]);
                    } else {
                        assert(v@[t].1@ == inner@);
                    }
                }
                assert forall|n: Seq<char>, x: Seq<char>| !outer_keys(v@).contains(n) implies #[trigger] occ1(n, x) == 0 by {
                    if n == name@ {
                        assert(outer_keys(v@)[p as int] == n);
                    }
                }
            }
        }
        return;
    }
    proof {
        if p < v@.len() {
            assert(s0[p as int] == v@[p as int].0@);
            assert(!str_lt(s0[p as int], name@));
            if utf8(s0[p as int]) == utf8(name@) {
                lemma_utf8_injective(s0[p as int], name@);
            }
            lemma_lex_total(utf8(s0[p as int]), utf8(name@));
            assert(str_lt(name@, s0[p as int]));
        }
        assert(p < s0.len() ==> str_lt(name@, s0[p as int]));
        assert(!s0.contains(name@)) by {
            if s0.contains(name@) {
                let j = choose|j: int| 0 <= j < s0.len() && s0[j] == name@;
                lemma_lex_irreflexive(utf8(name@));
                if j < p {
                    assert(str_lt(s0[j], name@));
                } else if j > p {
                    assert(str_lt(s0[p as int], s0[j]));
                    lemma_lex_transitive(utf8(name@), utf8(s0[p as int]), utf8(s0[j]));
                }
            }
        }
        assert(occ(name@, kind@) == 0);
    }
    let mut inner: Vec<(String, u64)> = Vec::new();
    inner.push((kind.to_owned(), 1));
    v.insert(p, (name.to_owned(), inner));
    proof {
        let s1 = outer_keys(v@);
        assert(s1 =~= s0.insert(p as int, name@));
        assert(keys_of(v@[p as int].1@) =~= seq![kind@]);
        assert forall|i: int, j: int| 0 <= i < j < s1.len() implies str_lt(
            #[trigger] s1[i],
            #[trigger] s1[j],
        ) by {
            if j < p {
                assert(s1[i] == s0[i] && s1[j] == s0[j]);
            } else if j == p {
                assert(s1[i] == s0[i]);
            } else if i < p {
                assert(s1[i] == s0[i] && s1[j] == s0[j - 1]);
                if j - 1 > p {
                    assert(str_lt(s0[p as int], s0[j - 1]));
                    lemma_lex_transitive(utf8(name@), utf8(s0[p as int]), utf8(s0[j - 1]));
                }
                lemma_lex_transitive(utf8(s0[i]), utf8(name@), utf8(s0[j - 1]));
            } else if i == p {
                assert(s1[j] == s0[j - 1]);
                if j - 1 > p {
                    assert(str_lt(s0[p as int], s0[j - 1]));
                    lemma_lex_transitive(utf8(name@), utf8(s0[p as int]), utf8(s0[j - 1]));
                }
            } else {
                assert(s1[i] == s0[i - 1] && s1[j] == s0[j - 1]);
            }
        }
        assert forall|t: int| 0 <= t < v@.len() && t != p implies v@[t].0@ != name@ by {
            if t < p {
                assert(v@[t] == v0[t]);
                assert(s0[t] == v0[t].0@);
            } else {
                assert(v@[t] == v0[t - 1]);
                assert(s0[t - 1] == v0[t - 1].0@);
            }
        }
        assert forall|t: int| 0 <= t < v@.len() && t != p implies (#[trigger] v@[t]) == (if t < p {
            v0[t]
        } else {
            v0[t - 1]
        }) by {}
        assert(holds_counts(v@, occ1)) by {
            assert forall|t: int| 0 <= t < v@.len() implies strictly_sorted(keys_of((#[trigger] v@[t]).1@)) by {
                if t < p {
                    assert(v@[t] == v0[t]);
                } else if t > p {
                    assert(v@[t] == v0[t - 1]);
                }
            }
            assert forall|t: int, u: int|
                0 <= t < v@.len() && 0 <= u < v@[t].1@.len() implies (#[trigger] v@[t].1@[u]).1 == occ1(
                v@[t].0@,
                v@[t].1@[u].0@,
            ) by {
                if t < p {
                    assert(v@[t] == v0[t]);
                } else if t > p {
                    assert(v@[t] == v0[t - 1]);
                }
            }
            assert forall|t: int, x: Seq<char>|
                0 <= t < v@.len() && !keys_of(v@[t].1@).contains(x) implies #[trigger] occ1(v@[t].0@, x) == 0 by {
                if t < p {
                    assert(v@[t] == v0[t]);
                } else if t > p {
                    assert(v@[t] == v0[t - 1]);
                } else {
                    if x == kind@ {
                        assert(keys_of(v@[t].1@)[0] == x);
                    }
                    assert(!outer_keys(v0).contains(name@));
                }
            }
            assert forall|n: Seq<char>, x: Seq<char>| !outer_keys(v@).contains(n) implies #[trigger] occ1(n, x) == 0 by {
                if n == name@ {
                    assert(s1[p as int] == n);
                }
                if s0.contains(n) {
                    let j = choose|j: int| 0 <= j < s0.len() && s0[j] == n;
                    if j < p {
                        assert(s1[j] == n);
                    } else {
                        assert(s1[j + 1] == n);
                    }
                }
            }
        }
    }
}

} // verus!

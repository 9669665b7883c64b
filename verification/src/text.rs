//! Text helpers shared by the request handlers: character access, literal
//! comparison, integer rendering and parsing, prefix trimming and pattern
//! removal, each with the meaning it has in Rust's standard library.
use vstd::prelude::*;
use vstd::string::StringExecFns;

verus! {

broadcast use vstd::string::group_string_axioms;

// ── Unicode-aware operations whose tables live in std ────────────────────────

/// What `str::to_uppercase` makes of a text (Unicode case mapping).
pub uninterp spec fn unicode_uppercase(s: Seq<char>) -> Seq<char>;

/// What `str::to_lowercase` makes of a text (Unicode case mapping).
pub uninterp spec fn unicode_lowercase(s: Seq<char>) -> Seq<char>;

/// Whether `char::is_alphanumeric` holds of a character (Unicode
/// `Alphabetic` or `Numeric`).
pub uninterp spec fn unicode_alphanumeric(c: char) -> bool;

/// Whether every character of a text is ASCII.
pub open spec fn all_ascii(s: Seq<char>) -> bool {
    forall|i: int| 0 <= i < s.len() ==> (#[trigger] s[i] as int) < 128
}

/// The ASCII upper case of a character: `a`..=`z` become `A`..=`Z`.
pub open spec fn ascii_upper(c: char) -> char {
    if 'a' <= c <= 'z' {
        ((c as int) - 32) as char
    } else {
        c
    }
}

/// The ASCII lower case of a character: `A`..=`Z` become `a`..=`z`.
pub open spec fn ascii_lower(c: char) -> char {
    if 'A' <= c <= 'Z' {
        ((c as int) + 32) as char
    } else {
        c
    }
}

/// Calls std's `str::to_uppercase`; its result is the Unicode upper-case
/// mapping of the whole text, which is named rather than written out. For an
/// ASCII text it is the ASCII upper case, character by character (Unicode
/// maps ASCII letters to ASCII letters, as `to_ascii_uppercase` does).
#[verifier::external_body]
pub fn to_uppercase(s: &str) -> (res: String)
    ensures
        res@ == unicode_uppercase(s@),
        all_ascii(s@) ==> res@ == s@.map_values(|c: char| ascii_upper(c)),
{
    s.to_uppercase()
}

/// Calls std's `str::to_lowercase`; its result is the Unicode lower-case
/// mapping of the whole text, which is named rather than written out. For an
/// ASCII text it is the ASCII lower case, character by character.
#[verifier::external_body]
pub fn to_lowercase(s: &str) -> (res: String)
    ensures
        res@ == unicode_lowercase(s@),
        all_ascii(s@) ==> res@ == s@.map_values(|c: char| ascii_lower(c)),
{
    s.to_lowercase()
}

/// Calls std's `char::is_alphanumeric`; the Unicode property tables it
/// consults are named rather than written out.
#[verifier::external_body]
pub fn is_alphanumeric(c: char) -> (res: bool)
    ensures
        res == unicode_alphanumeric(c),
{
    c.is_alphanumeric()
}

/// Appends one character to a `String` (std's `String::push`).
#[verifier::external_body]
pub fn push_char(s: &mut String, c: char)
    ensures
        final(s)@ == old(s)@.push(c),
{
    s.push(c);
}

// ── Basic character access ───────────────────────────────────────────────────

/// All characters of `s`, in order.
pub fn chars_of(s: &str) -> (v: Vec<char>)
    ensures
        v@ == s@,
{
    let mut v: Vec<char> = Vec::new();
    for c in it: s.chars()
        invariant
            it.seq() == s@,
            v@ == s@.take(it.index() as int),
    {
        assert(s@.take(it.index() + 1) =~= s@.take(it.index() as int).push(c));
        v.push(c);
    }
    assert(s@.take(s@.len() as int) =~= s@);
    v
}

/// A `String` holding the characters `v[from..to]`.
pub fn string_of_range(v: &Vec<char>, from: usize, to: usize) -> (s: String)
    requires
        from <= to <= v.len(),
    ensures
        s@ == v@.subrange(from as int, to as int),
{
    let mut s = String::new();
    let mut i: usize = from;
    while i < to
        invariant
            from <= i <= to <= v.len(),
            s@ == v@.subrange(from as int, i as int),
        decreases to - i,
    {
        assert(v@.subrange(from as int, i + 1) =~= v@.subrange(from as int, i as int).push(v[i as int]));
        push_char(&mut s, v[i]);
        i += 1;
    }
    s
}

/// An owned copy of a text.
pub fn owned(s: &str) -> (res: String)
    ensures
        res@ == s@,
{
    String::from_str(s)
}

/// The concatenation of two texts.
pub fn concat2(a: &str, b: &str) -> (res: String)
    ensures
        res@ == a@ + b@,
{
    let mut res = String::from_str(a);
    res.append(b);
    res
}

/// The concatenation of three texts.
pub fn concat3(a: &str, b: &str, c: &str) -> (res: String)
    ensures
        res@ == a@ + b@ + c@,
{
    let mut res = String::from_str(a);
    res.append(b);
    res.append(c);
    res
}

/// Whether two texts hold the same characters (`==` on `str`).
pub fn same_text(a: &str, b: &str) -> (r: bool)
    ensures
        r == (a@ == b@),
{
    let va = chars_of(a);
    let vb = chars_of(b);
    if va.len() != vb.len() {
        return false;
    }
    let mut i: usize = 0;
    while i < va.len()
        invariant
            va@ == a@,
            vb@ == b@,
            va.len() == vb.len(),
            i <= va.len(),
            forall|j: int| 0 <= j < i ==> va@[j] == vb@[j],
        decreases va.len() - i,
    {
        if va[i] != vb[i] {
            return false;
        }
        i += 1;
    }
    assert(va@ =~= vb@);
    true
}

// ── Prefixes ─────────────────────────────────────────────────────────────────

/// Whether `s` begins with `p` (`str::starts_with`).
pub open spec fn has_prefix(s: Seq<char>, p: Seq<char>) -> bool {
    p.len() <= s.len() && s.take(p.len() as int) == p
}

/// Whether the characters `v[at..]` begin with `p`.
pub fn matches_at(v: &Vec<char>, at: usize, p: &Vec<char>) -> (r: bool)
    requires
        at <= v.len(),
    ensures
        r == has_prefix(v@.skip(at as int), p@),
{
    if p.len() > v.len() - at {
        return false;
    }
    let mut j: usize = 0;
    while j < p.len()
        invariant
            at <= v.len(),
            p.len() <= v.len() - at,
            j <= p.len(),
            forall|k: int| 0 <= k < j ==> v@[at + k] == p@[k],
        decreases p.len() - j,
    {
        if v[at + j] != p[j] {
            assert(v@.skip(at as int).take(p.len() as int)[j as int] != p@[j as int]);
            return false;
        }
        j += 1;
    }
    assert(v@.skip(at as int).take(p.len() as int) =~= p@);
    true
}

/// Whether `s` begins with `p` (std's `str::starts_with` on a text pattern).
pub fn starts_with(s: &str, p: &str) -> (r: bool)
    ensures
        r == has_prefix(s@, p@),
{
    let v = chars_of(s);
    let pv = chars_of(p);
    assert(v@.skip(0) =~= v@);
    matches_at(&v, 0, &pv)
}

/// `s` with its leading `p` taken off, when it has one (`str::strip_prefix`).
pub open spec fn without_prefix(s: Seq<char>, p: Seq<char>) -> Option<Seq<char>> {
    if has_prefix(s, p) {
        Some(s.skip(p.len() as int))
    } else {
        None
    }
}

/// std's `str::strip_prefix` on a text pattern.
pub fn strip_prefix(s: &str, p: &str) -> (r: Option<String>)
    ensures
        r matches Some(t) ==> without_prefix(s@, p@) == Some(t@),
        r is None ==> without_prefix(s@, p@) is None,
{
    let v = chars_of(s);
    let pv = chars_of(p);
    assert(v@.skip(0) =~= v@);
    if matches_at(&v, 0, &pv) {
        let rest = string_of_range(&v, pv.len(), v.len());
        assert(rest@ =~= s@.skip(p@.len() as int));
        Some(rest)
    } else {
        None
    }
}

/// `s` after every leading repetition of `0x` is removed
/// (`str::trim_start_matches("0x")`).
pub open spec fn trim_hex_marker(s: Seq<char>) -> Seq<char>
    decreases s.len(),
{
    if s.len() >= 2 && s[0] == '0' && s[1] == 'x' {
        trim_hex_marker(s.skip(2))
    } else {
        s
    }
}

/// The index of the first character of `v` that
/// `trim_start_matches("0x")` keeps.
pub fn hex_marker_end(v: &Vec<char>) -> (i: usize)
    ensures
        i <= v.len(),
        v@.skip(i as int) == trim_hex_marker(v@),
{
    let mut i: usize = 0;
    assert(v@.skip(0) =~= v@);
    while i < v.len() && v.len() - i >= 2 && v[i] == '0' && v[i + 1] == 'x'
        invariant
            i <= v.len(),
            trim_hex_marker(v@.skip(i as int)) == trim_hex_marker(v@),
        decreases v.len() - i,
    {
        assert(v@.skip(i as int).skip(2) =~= v@.skip(i + 2));
        i += 2;
    }
    i
}

// ── Removing every occurrence of a pattern ───────────────────────────────────

/// `s` with every occurrence of `pat`, taken from the left without overlap,
/// removed (`str::replace(pat, "")`).
pub open spec fn remove_all(s: Seq<char>, pat: Seq<char>) -> Seq<char>
    decreases s.len(),
{
    if pat.len() == 0 || s.len() < pat.len() {
        s
    } else if s.take(pat.len() as int) == pat {
        remove_all(s.skip(pat.len() as int), pat)
    } else {
        seq![s[0]] + remove_all(s.drop_first(), pat)
    }
}

/// std's `str::replace` with an empty replacement.
pub fn remove_all_of(s: &str, pat: &str) -> (res: String)
    ensures
        res@ == remove_all(s@, pat@),
{
    let v = chars_of(s);
    let pv = chars_of(pat);
    let mut out = String::new();
    let mut i: usize = 0;
    assert(v@.skip(0) =~= v@);
    while i < v.len()
        invariant
            v@ == s@,
            pv@ == pat@,
            i <= v.len(),
            out@ + remove_all(v@.skip(i as int), pv@) == remove_all(v@, pv@),
        decreases v.len() - i,
    {
        let ghost rest = v@.skip(i as int);
        if pv.len() == 0 || v.len() - i < pv.len() {
            assert(remove_all(rest, pv@) == rest);
            let tail = string_of_range(&v, i, v.len());
            assert(tail@ =~= rest);
            let mut done = out;
            done.append(tail.as_str());
            assert(done@ == remove_all(v@, pv@));
            return done;
        }
        if matches_at(&v, i, &pv) {
            assert(rest.skip(pv@.len() as int) =~= v@.skip(i + pv.len()));
            i = i + pv.len();
        } else {
            assert(rest.drop_first() =~= v@.skip(i + 1));
            assert(remove_all(rest, pv@) == seq![v@[i as int]] + remove_all(v@.skip(i + 1), pv@));
            let ghost before = out@;
            push_char(&mut out, v[i]);
            assert(out@ + remove_all(v@.skip(i + 1), pv@) =~= before + (seq![v@[i as int]]
                + remove_all(v@.skip(i + 1), pv@)));
            i += 1;
        }
    }
    assert(v@.skip(i as int) =~= Seq::<char>::empty());
    assert(remove_all(Seq::<char>::empty(), pv@) =~= Seq::<char>::empty());
    assert(out@ =~= out@ + Seq::<char>::empty());
    out
}

// ── Rendering integers in decimal ────────────────────────────────────────────

/// The character of a decimal digit.
pub open spec fn digit_char(d: int) -> char {
    (d + 48) as char
}

/// The decimal digits of a natural number, without leading zeros.
pub open spec fn decimal_digits(n: nat) -> Seq<char>
    decreases n,
{
    if n < 10 {
        seq![digit_char(n as int)]
    } else {
        decimal_digits(n / 10).push(digit_char((n % 10) as int))
    }
}

/// How `Display` writes an integer: a `-` for negative values, then the
/// decimal digits of its magnitude.
pub open spec fn decimal_text(i: int) -> Seq<char> {
    if i < 0 {
        seq!['-'] + decimal_digits((-i) as nat)
    } else {
        decimal_digits(i as nat)
    }
}

fn digit_of(d: u64) -> (c: char)
    requires
        d < 10,
    ensures
        c == digit_char(d as int),
{
    ((d as u8) + 48u8) as char
}

fn push_digits(out: &mut String, n: u64)
    ensures
        final(out)@ == old(out)@ + decimal_digits(n as nat),
    decreases n,
{
    if n >= 10 {
        push_digits(out, n / 10);
    }
    push_char(out, digit_of(n % 10));
    assert(out@ =~= old(out)@ + decimal_digits(n as nat));
}

/// The decimal text of an unsigned integer (`u64::to_string`).
pub fn u64_text(n: u64) -> (s: String)
    ensures
        s@ == decimal_text(n as int),
{
    let mut s = String::new();
    push_digits(&mut s, n);
    assert(s@ =~= decimal_digits(n as nat));
    s
}

/// The decimal text of a signed integer (`i64::to_string`).
pub fn i64_text(n: i64) -> (s: String)
    ensures
        s@ == decimal_text(n as int),
{
    let mut s = String::new();
    if n < 0 {
        push_char(&mut s, '-');
        let magnitude: u64 = (-(n as i128)) as u64;
        push_digits(&mut s, magnitude);
    } else {
        push_digits(&mut s, n as u64);
        assert(s@ =~= decimal_digits(n as nat));
    }
    s
}

// ── Parsing integers (std's `from_str_radix`) ────────────────────────────────

/// Whether `c` is a digit in base 10 or 16 (ASCII only).
pub open spec fn is_digit_in(c: char, radix: int) -> bool {
    if radix == 16 {
        ('0' <= c <= '9') || ('a' <= c <= 'f') || ('A' <= c <= 'F')
    } else {
        '0' <= c <= '9'
    }
}

/// The value of a digit accepted by `is_digit_in`.
pub open spec fn digit_value(c: char, radix: int) -> int {
    if '0' <= c <= '9' {
        c as int - 48
    } else if 'a' <= c <= 'f' {
        c as int - 87
    } else {
        c as int - 55
    }
}

pub open spec fn all_digits_in(s: Seq<char>, radix: int) -> bool {
    forall|i: int| 0 <= i < s.len() ==> is_digit_in(#[trigger] s[i], radix)
}

/// The value of a run of digits, most significant first.
pub open spec fn digits_value(s: Seq<char>, radix: int) -> int
    decreases s.len(),
{
    if s.len() == 0 {
        0
    } else {
        digits_value(s.drop_last(), radix) * radix + digit_value(s.last(), radix)
    }
}

/// What an unsigned `from_str_radix` accepts: one optional leading `+`, then
/// at least one digit, with a value of at most `max`.
pub open spec fn parse_unsigned(s: Seq<char>, radix: int, max: int) -> Option<int> {
    let body = if s.len() > 0 && s[0] == '+' {
        s.drop_first()
    } else {
        s
    };
    if body.len() > 0 && all_digits_in(body, radix) && digits_value(body, radix) <= max {
        Some(digits_value(body, radix))
    } else {
        None
    }
}

/// What a signed `from_str_radix` accepts: one optional leading `+` or `-`,
/// then at least one digit, with a value in `min..=max`.
pub open spec fn parse_signed(s: Seq<char>, radix: int, min: int, max: int) -> Option<int> {
    let negative = s.len() > 0 && s[0] == '-';
    let body = if s.len() > 0 && (s[0] == '+' || s[0] == '-') {
        s.drop_first()
    } else {
        s
    };
    if body.len() > 0 && all_digits_in(body, radix) {
        let v = if negative {
            -digits_value(body, radix)
        } else {
            digits_value(body, radix)
        };
        if min <= v <= max {
            Some(v)
        } else {
            None
        }
    } else {
        None
    }
}

proof fn lemma_digits_value_nonneg(s: Seq<char>, radix: int)
    requires
        radix == 10 || radix == 16,
        all_digits_in(s, radix),
    ensures
        digits_value(s, radix) >= 0,
    decreases s.len(),
{
    if s.len() > 0 {
        assert(is_digit_in(s[s.len() - 1], radix));
        lemma_digits_value_nonneg(s.drop_last(), radix);
    }
}

/// Reads the digits `v[from..]` in the given base; `None` when one of them is
/// no digit, when there are none, or when the value exceeds `limit`.
fn read_digits(v: &Vec<char>, from: usize, radix: u32, limit: u128) -> (r: Option<u128>)
    requires
        from <= v.len(),
        radix == 10 || radix == 16,
    ensures
        r is Some <==> ({
            let body = v@.skip(from as int);
            body.len() > 0 && all_digits_in(body, radix as int) && digits_value(body, radix as int)
                <= limit
        }),
        r matches Some(n) ==> n == digits_value(v@.skip(from as int), radix as int),
{
    let ghost body = v@.skip(from as int);
    if from == v.len() {
        return None;
    }
    let mut acc: u128 = 0;
    let mut over = false;
    let mut i: usize = from;
    assert(v@.subrange(from as int, from as int) =~= Seq::<char>::empty());
    while i < v.len()
        invariant
            from <= i <= v.len(),
            body == v@.skip(from as int),
            radix == 10 || radix == 16,
            all_digits_in(v@.subrange(from as int, i as int), radix as int),
            !over ==> acc == digits_value(v@.subrange(from as int, i as int), radix as int),
            over ==> digits_value(v@.subrange(from as int, i as int), radix as int) > limit,
            acc <= limit,
        decreases v.len() - i,
    {
        let c = v[i];
        let ghost prefix = v@.subrange(from as int, i as int);
        let ghost next = v@.subrange(from as int, i + 1);
        assert(next.drop_last() =~= prefix);
        assert(next.last() == c);
        let d: u32 = if '0' <= c && c <= '9' {
            (c as u32) - 48
        } else if radix == 16 && 'a' <= c && c <= 'f' {
            (c as u32) - 87
        } else if radix == 16 && 'A' <= c && c <= 'F' {
            (c as u32) - 55
        } else {
            assert(body[i - from] == c);
            assert(!is_digit_in(c, radix as int));
            return None;
        };
        assert(is_digit_in(c, radix as int));
        assert(d as int == digit_value(c, radix as int));
        assert(all_digits_in(next, radix as int)) by {
            assert forall|k: int| 0 <= k < next.len() implies is_digit_in(#[trigger] next[k], radix as int) by {
                if k < prefix.len() {
                    assert(next[k] == prefix[k]);
                }
            }
        }
        proof {
            lemma_digits_value_nonneg(prefix, radix as int);
        }
        if !over {
            match acc.checked_mul(radix as u128) {
                Some(m) => match m.checked_add(d as u128) {
                    Some(n) => {
                        if n <= limit {
                            acc = n;
                        } else {
                            over = true;
                        }
                    },
                    None => {
                        over = true;
                    },
                },
                None => {
                    assert(digits_value(next, radix as int) >= digits_value(prefix, radix as int) * radix as int) by (nonlinear_arith)
                        requires
                            digits_value(next, radix as int) == digits_value(prefix, radix as int) * radix as int + d as int,
                            d >= 0;
                    over = true;
                },
            }
        } else {
            assert(digits_value(next, radix as int) >= digits_value(prefix, radix as int)) by (nonlinear_arith)
                requires
                    digits_value(next, radix as int) == digits_value(prefix, radix as int) * radix as int + d as int,
                    d >= 0,
                    radix >= 10,
                    digits_value(prefix, radix as int) >= 0;
        }
        i += 1;
    }
    assert(v@.subrange(from as int, v.len() as int) =~= body);
    if over {
        None
    } else {
        Some(acc)
    }
}

/// std's `u16::from_str` (decimal).
pub fn parse_u16(s: &str) -> (r: Option<u16>)
    ensures
        r matches Some(n) ==> parse_unsigned(s@, 10, u16::MAX as int) == Some(n as int),
        r is None ==> parse_unsigned(s@, 10, u16::MAX as int) is None,
{
    let v = chars_of(s);
    let from: usize = if v.len() > 0 && v[0] == '+' { 1 } else { 0 };
    assert(v@.skip(from as int) =~= (if s@.len() > 0 && s@[0] == '+' { s@.drop_first() } else { s@ }));
    match read_digits(&v, from, 10, 65535) {
        Some(n) => Some(n as u16),
        None => None,
    }
}

/// std's `u128::from_str_radix(s, 16)`.
pub fn parse_hex_u128(v: &Vec<char>, from: usize) -> (r: Option<u128>)
    requires
        from <= v.len(),
    ensures
        r matches Some(n) ==> parse_unsigned(v@.skip(from as int), 16, u128::MAX as int) == Some(n as int),
        r is None ==> parse_unsigned(v@.skip(from as int), 16, u128::MAX as int) is None,
{
    let ghost s = v@.skip(from as int);
    let start: usize = if from < v.len() && v[from] == '+' { from + 1 } else { from };
    assert(v@.skip(start as int) =~= (if s.len() > 0 && s[0] == '+' { s.drop_first() } else { s }));
    read_digits(v, start, 16, u128::MAX)
}

/// std's `u64::from_str_radix(s, 16)`.
pub fn parse_hex_u64(v: &Vec<char>, from: usize) -> (r: Option<u64>)
    requires
        from <= v.len(),
    ensures
        r matches Some(n) ==> parse_unsigned(v@.skip(from as int), 16, u64::MAX as int) == Some(n as int),
        r is None ==> parse_unsigned(v@.skip(from as int), 16, u64::MAX as int) is None,
{
    let ghost s = v@.skip(from as int);
    let start: usize = if from < v.len() && v[from] == '+' { from + 1 } else { from };
    assert(v@.skip(start as int) =~= (if s.len() > 0 && s[0] == '+' { s.drop_first() } else { s }));
    match read_digits(v, start, 16, u64::MAX as u128) {
        Some(n) => Some(n as u64),
        None => None,
    }
}

/// std's `i64::from_str` (decimal).
pub fn parse_i64(s: &str) -> (r: Option<i64>)
    ensures
        r matches Some(n) ==> parse_signed(s@, 10, i64::MIN as int, i64::MAX as int) == Some(n as int),
        r is None ==> parse_signed(s@, 10, i64::MIN as int, i64::MAX as int) is None,
{
    let v = chars_of(s);
    let negative = v.len() > 0 && v[0] == '-';
    let from: usize = if v.len() > 0 && (v[0] == '+' || v[0] == '-') { 1 } else { 0 };
    let ghost body = v@.skip(from as int);
    assert(body =~= (if s@.len() > 0 && (s@[0] == '+' || s@[0] == '-') { s@.drop_first() } else { s@ }));
    let limit: u128 = if negative { 0x8000_0000_0000_0000 } else { 0x7fff_ffff_ffff_ffff };
    match read_digits(&v, from, 10, limit) {
        Some(m) => {
            if negative {
                Some((-(m as i128)) as i64)
            } else {
                Some(m as i64)
            }
        },
        None => {
            proof {
                if body.len() > 0 && all_digits_in(body, 10) {
                    lemma_digits_value_nonneg(body, 10);
                }
            }
            None
        },
    }
}

} // verus!

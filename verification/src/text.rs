//! Character-level helpers over strings: comparison, splitting, decimal numbers.
use vstd::prelude::*;

verus! {

/// The characters of `s`, in order.
pub fn chars_of(s: &str) -> (v: Vec<char>)
    ensures
        v@ == s@,
{
    let mut v: Vec<char> = Vec::new();
    for c in it: s.chars()
        invariant
            v@ == it.seq().take(it.index() as int),
    {
        v.push(c);
    }
    v
}

/// Whether `s` holds the character `c`.
pub fn contains_char(s: &str, c: char) -> (r: bool)
    ensures
        r == s@.contains(c),
{
    let cs = chars_of(s);
    let mut i: usize = 0;
    while i < cs.len()
        invariant
            cs@ == s@,
            i <= cs@.len(),
            forall|j: int| 0 <= j < i ==> cs@[j] != c,
        decreases cs@.len() - i,
    {
        if cs[i] == c {
            assert(s@[i as int] == c);
            return true;
        }
        i += 1;
    }
    false
}

/// Appends one character to a string (`String::push`).
#[verifier::external_body]
pub(crate) fn string_push(s: &mut String, c: char)
    ensures
        final(s)@ == old(s)@.push(c),
{
    s.push(c);
}

/// The string made of the given characters.
pub fn string_from_chars(cs: &[char]) -> (s: String)
    ensures
        s@ == cs@,
{
    let mut s = String::new();
    let mut i: usize = 0;
    while i < cs.len()
        invariant
            i <= cs@.len(),
            s@ == cs@.take(i as int),
        decreases cs@.len() - i,
    {
        string_push(&mut s, cs[i]);
        i += 1;
        assert(cs@.take(i as int) =~= cs@.take(i - 1).push(cs@[i - 1]));
    }
    assert(cs@.take(cs@.len() as int) =~= cs@);
    s
}

/// Whether two character sequences are equal.
pub fn chars_eq(a: &[char], b: &[char]) -> (r: bool)
    ensures
        r == (a@ == b@),
{
    if a.len() != b.len() {
        return false;
    }
    let mut i: usize = 0;
    while i < a.len()
        invariant
            a@.len() == b@.len(),
            i <= a@.len(),
            forall|j: int| 0 <= j < i ==> a@[j] == b@[j],
        decreases a@.len() - i,
    {
        if a[i] != b[i] {
            return false;
        }
        i += 1;
    }
    assert(a@ =~= b@);
    true
}

/// Whether two strings hold the same characters.
pub fn str_eq(a: &str, b: &str) -> (r: bool)
    ensures
        r == (a@ == b@),
{
    let ca = chars_of(a);
    let cb = chars_of(b);
    chars_eq(ca.as_slice(), cb.as_slice())
}

/// `prefix` is a prefix of `s`.
pub open spec fn has_prefix(s: Seq<char>, prefix: Seq<char>) -> bool {
    prefix.len() <= s.len() && s.take(prefix.len() as int) == prefix
}

/// Whether `s` starts with `prefix`.
pub fn starts_with(s: &str, prefix: &str) -> (r: bool)
    ensures
        r == has_prefix(s@, prefix@),
{
    let cs = chars_of(s);
    let cp = chars_of(prefix);
    if cp.len() > cs.len() {
        return false;
    }
    let mut i: usize = 0;
    while i < cp.len()
        invariant
            cs@ == s@,
            cp@ == prefix@,
            cp@.len() <= cs@.len(),
            i <= cp@.len(),
            forall|j: int| 0 <= j < i ==> cs@[j] == cp@[j],
        decreases cp@.len() - i,
    {
        if cs[i] != cp[i] {
            assert(cs@.take(cp@.len() as int)[i as int] != cp@[i as int]);
            return false;
        }
        i += 1;
    }
    assert(cs@.take(cp@.len() as int) =~= cp@);
    true
}

/// The fields of `s` separated by `sep`, as `str::split` with a character
/// pattern yields them: an empty string has one empty field, and each
/// separator starts a new field.
pub open spec fn split_fields(s: Seq<char>, sep: char) -> Seq<Seq<char>>
    decreases s.len(),
{
    if s.len() == 0 {
        seq![Seq::<char>::empty()]
    } else {
        let p = split_fields(s.drop_last(), sep);
        if s.last() == sep {
            p.push(Seq::<char>::empty())
        } else {
            p.update(p.len() - 1, p.last().push(s.last()))
        }
    }
}

/// There is always at least one field.
pub proof fn lemma_split_fields_nonempty(s: Seq<char>, sep: char)
    ensures
        split_fields(s, sep).len() >= 1,
    decreases s.len(),
{
    if s.len() > 0 {
        lemma_split_fields_nonempty(s.drop_last(), sep);
    }
}

/// Text without the separator is a single field.
pub proof fn lemma_split_single(s: Seq<char>, sep: char)
    requires
        !s.contains(sep),
    ensures
        split_fields(s, sep) == seq![s],
    decreases s.len(),
{
    if s.len() > 0 {
        assert(!s.drop_last().contains(sep)) by {
            if s.drop_last().contains(sep) {
                let k = choose|k: int| 0 <= k < s.drop_last().len() && s.drop_last()[k] == sep;
                assert(s[k] == sep);
            }
        }
        lemma_split_single(s.drop_last(), sep);
        assert(s.last() != sep) by {
            assert(s[s.len() - 1] == s.last());
        }
        let p = split_fields(s.drop_last(), sep);
        assert(s.drop_last().push(s.last()) =~= s);
        assert(p.update(p.len() - 1, p.last().push(s.last())) =~= seq![s]);
    } else {
        assert(s =~= Seq::<char>::empty());
    }
}

/// Text with a single field is that field.
pub proof fn lemma_split_one_field(s: Seq<char>, sep: char)
    requires
        split_fields(s, sep).len() == 1,
    ensures
        split_fields(s, sep)[0] == s,
    decreases s.len(),
{
    if s.len() == 0 {
        assert(s =~= Seq::<char>::empty());
    } else {
        lemma_split_fields_nonempty(s.drop_last(), sep);
        if s.last() != sep {
            lemma_split_one_field(s.drop_last(), sep);
            assert(s.drop_last().push(s.last()) =~= s);
        }
    }
}

/// Text with at least two fields is its first field, the separator, and
/// text whose fields are the remaining ones.
pub proof fn lemma_split_first_field(s: Seq<char>, sep: char)
    requires
        split_fields(s, sep).len() >= 2,
    ensures
        s == split_fields(s, sep)[0] + seq![sep] + s.skip(split_fields(s, sep)[0].len() + 1int),
        split_fields(s.skip(split_fields(s, sep)[0].len() + 1int), sep) == split_fields(
            s,
            sep,
        ).drop_first(),
    decreases s.len(),
{
    let p = split_fields(s, sep);
    let t = s.drop_last();
    let c = s.last();
    let q = split_fields(t, sep);
    lemma_split_fields_nonempty(t, sep);
    assert(s.len() > 0);
    assert(t.push(c) =~= s);
    if c == sep {
        if q.len() >= 2 {
            lemma_split_first_field(t, sep);
            let k: int = q[0].len() + 1int;
            let rest = t.skip(k);
            assert(s.skip(k) =~= rest.push(sep));
            assert(rest.push(sep).drop_last() =~= rest);
            assert(split_fields(rest.push(sep), sep) =~= q.drop_first().push(Seq::<char>::empty()));
            assert(p.drop_first() =~= q.drop_first().push(Seq::<char>::empty()));
            assert(s =~= p[0] + seq![sep] + s.skip(k));
        } else {
            lemma_split_one_field(t, sep);
            let k: int = t.len() + 1int;
            assert(s.skip(k) =~= Seq::<char>::empty());
            assert(p.drop_first() =~= seq![Seq::<char>::empty()]);
            assert(s =~= p[0] + seq![sep] + s.skip(k));
        }
    } else {
        lemma_split_first_field(t, sep);
        let k: int = q[0].len() + 1int;
        let rest = t.skip(k);
        assert(p[0] == q[0]);
        assert(s.skip(k) =~= rest.push(c));
        assert(rest.push(c).drop_last() =~= rest);
        let r = q.drop_first();
        lemma_split_fields_nonempty(rest, sep);
        assert(split_fields(rest.push(c), sep) =~= r.update(r.len() - 1, r.last().push(c)));
        assert(p.drop_first() =~= r.update(r.len() - 1, r.last().push(c)));
        assert(s =~= p[0] + seq![sep] + s.skip(k));
    }
}

/// Splitting text joined by the separator gives the fields of both parts,
/// one after the other.
pub proof fn lemma_split_concat(a: Seq<char>, b: Seq<char>, sep: char)
    ensures
        split_fields(a + seq![sep] + b, sep) == split_fields(a, sep) + split_fields(b, sep),
    decreases b.len(),
{
    let s = a + seq![sep] + b;
    if b.len() == 0 {
        assert(s.drop_last() =~= a);
        assert(split_fields(a, sep).push(Seq::<char>::empty()) =~= split_fields(a, sep)
            + split_fields(b, sep));
    } else {
        lemma_split_concat(a, b.drop_last(), sep);
        lemma_split_fields_nonempty(b.drop_last(), sep);
        lemma_split_fields_nonempty(a, sep);
        assert(s.drop_last() =~= a + seq![sep] + b.drop_last());
        assert(s.last() == b.last());
        let pa = split_fields(a, sep);
        let pb = split_fields(b.drop_last(), sep);
        if b.last() == sep {
            assert((pa + pb).push(Seq::<char>::empty()) =~= pa + pb.push(Seq::<char>::empty()));
        } else {
            assert((pa + pb).update((pa + pb).len() - 1, (pa + pb).last().push(b.last())) =~= pa
                + pb.update(pb.len() - 1, pb.last().push(b.last())));
        }
    }
}

/// The views of a sequence of strings.
pub open spec fn string_views(v: Seq<String>) -> Seq<Seq<char>> {
    v.map_values(|p: String| p@)
}

/// Splits `s` at every occurrence of `sep`.
pub fn split_on(s: &str, sep: char) -> (parts: Vec<String>)
    ensures
        string_views(parts@) == split_fields(s@, sep),
{
    let cs = chars_of(s);
    let mut parts: Vec<String> = Vec::new();
    let mut cur = String::new();
    let mut i: usize = 0;
    assert(cs@.take(0) =~= Seq::<char>::empty());
    assert(string_views(parts@).push(cur@) =~= split_fields(cs@.take(0), sep));
    while i < cs.len()
        invariant
            cs@ == s@,
            i <= cs@.len(),
            string_views(parts@).push(cur@) == split_fields(cs@.take(i as int), sep),
        decreases cs@.len() - i,
    {
        let ghost before = cs@.take(i as int);
        let ghost after = cs@.take(i + 1);
        assert(after.drop_last() =~= before);
        assert(after.last() == cs@[i as int]);
        proof {
            lemma_split_fields_nonempty(before, sep);
        }
        let c = cs[i];
        if c == sep {
            let done = cur;
            parts.push(done);
            cur = String::new();
            assert(string_views(parts@).push(cur@) =~= split_fields(after, sep));
        } else {
            string_push(&mut cur, c);
            assert(string_views(parts@).push(cur@) =~= split_fields(after, sep));
        }
        i += 1;
    }
    assert(cs@.take(cs@.len() as int) =~= cs@);
    parts.push(cur);
    assert(string_views(parts@) =~= split_fields(s@, sep));
    parts
}

/// The decimal digit character for `d < 10`.
pub open spec fn digit_char(d: nat) -> char {
    (48 + d) as char
}

/// Whether `c` is an ASCII decimal digit.
pub open spec fn is_digit(c: char) -> bool {
    '0' <= c && c <= '9'
}

/// The value of an ASCII decimal digit.
pub open spec fn digit_value(c: char) -> nat {
    (c as nat - 48) as nat
}

/// The decimal notation of `n`, without sign or leading zeros.
pub open spec fn decimal_text_of(n: nat) -> Seq<char>
    decreases n,
{
    if n < 10 {
        seq![digit_char(n)]
    } else {
        decimal_text_of(n / 10).push(digit_char(n % 10))
    }
}

/// The value of a sequence of decimal digits.
pub open spec fn decimal_value(d: Seq<char>) -> nat
    decreases d.len(),
{
    if d.len() == 0 {
        0
    } else {
        decimal_value(d.drop_last()) * 10 + digit_value(d.last())
    }
}

/// All characters of `d` are decimal digits.
pub open spec fn all_digits(d: Seq<char>) -> bool {
    forall|i: int| 0 <= i < d.len() ==> is_digit(#[trigger] d[i])
}

/// What `u32::from_str` yields on `s`: an optional `+` followed by one or
/// more decimal digits whose value fits in a `u32`.
pub open spec fn u32_from_decimal(s: Seq<char>) -> Option<u32> {
    let d = if s.len() > 0 && s[0] == '+' {
        s.drop_first()
    } else {
        s
    };
    if d.len() > 0 && all_digits(d) && decimal_value(d) <= u32::MAX {
        Some(decimal_value(d) as u32)
    } else {
        None
    }
}

/// The decimal notation of `n`.
pub fn decimal_text(n: u64) -> (s: String)
    ensures
        s@ == decimal_text_of(n as nat),
    decreases n,
{
    let d = (n % 10) as u8;
    let c = (48u8 + d) as char;
    assert(c == digit_char((n % 10) as nat));
    if n < 10 {
        let mut s = String::new();
        string_push(&mut s, c);
        assert(s@ =~= seq![digit_char(n as nat)]);
        s
    } else {
        let mut s = decimal_text(n / 10);
        string_push(&mut s, c);
        s
    }
}

/// Appending a digit does not make a decimal value smaller.
proof fn lemma_decimal_value_prefix(d: Seq<char>, k: int)
    requires
        all_digits(d),
        0 <= k <= d.len(),
    ensures
        decimal_value(d.take(k)) <= decimal_value(d),
    decreases d.len() - k,
{
    if k < d.len() {
        lemma_decimal_value_prefix(d, k + 1);
        let t = d.take(k + 1);
        assert(t.drop_last() =~= d.take(k));
    } else {
        assert(d.take(k) =~= d);
    }
}

/// Decimal notation is a nonempty run of digits whose value is the number.
pub proof fn lemma_decimal_text(n: nat)
    ensures
        decimal_text_of(n).len() > 0,
        all_digits(decimal_text_of(n)),
        decimal_value(decimal_text_of(n)) == n,
    decreases n,
{
    let d = decimal_text_of(n);
    assert(digit_value(digit_char(n % 10)) == n % 10);
    if n < 10 {
        assert(d.drop_last() =~= Seq::<char>::empty());
        assert(decimal_value(d) == decimal_value(d.drop_last()) * 10 + digit_value(d.last()));
    } else {
        lemma_decimal_text(n / 10);
        let t = decimal_text_of(n / 10);
        assert(d.drop_last() =~= t);
        assert(d.last() == digit_char(n % 10));
        assert(decimal_value(d) == decimal_value(t) * 10 + digit_value(d.last()));
        assert(decimal_value(t) == n / 10);
        assert forall|i: int| 0 <= i < d.len() implies is_digit(#[trigger] d[i]) by {
            if i < t.len() {
                assert(d[i] == t[i]);
            }
        }
    }
}

/// Reading the decimal notation of a `u32` gives the number back.
pub proof fn lemma_decimal_roundtrip(n: u32)
    ensures
        u32_from_decimal(decimal_text_of(n as nat)) == Some(n),
{
    lemma_decimal_text(n as nat);
    let d = decimal_text_of(n as nat);
    assert(is_digit(d[0]));
}

/// Parses a `u32` written in decimal, as `str::parse::<u32>` does.
pub fn parse_u32(s: &str) -> (r: Option<u32>)
    ensures
        r == u32_from_decimal(s@),
{
    let cs = chars_of(s);
    let start: usize = if cs.len() > 0 && cs[0] == '+' {
        1
    } else {
        0
    };
    let ghost d = if s@.len() > 0 && s@[0] == '+' {
        s@.drop_first()
    } else {
        s@
    };
    assert(d =~= cs@.subrange(start as int, cs@.len() as int));
    if start >= cs.len() {
        return None;
    }
    let mut val: u64 = 0;
    let mut i: usize = start;
    assert(d.take(0) =~= Seq::<char>::empty());
    while i < cs.len()
        invariant
            cs@ == s@,
            d =~= cs@.subrange(start as int, cs@.len() as int),
            d == (if s@.len() > 0 && s@[0] == '+' {
                s@.drop_first()
            } else {
                s@
            }),
            start <= i <= cs@.len(),
            val <= u32::MAX,
            all_digits(d.take(i - start)),
            val == decimal_value(d.take(i - start)),
        decreases cs@.len() - i,
    {
        let c = cs[i];
        if !('0' <= c && c <= '9') {
            assert(d[i - start] == c);
            assert(!is_digit(d[i - start]));
            assert(!all_digits(d));
            assert(u32_from_decimal(s@) is None);
            return None;
        }
        let dv = (c as u32 - 48) as u64;
        let ghost prefix = d.take(i - start);
        let ghost next = d.take(i + 1 - start);
        assert(next.drop_last() =~= prefix);
        assert(next.last() == c);
        val = val * 10 + dv;
        i += 1;
        assert(all_digits(next)) by {
            assert forall|j: int| 0 <= j < next.len() implies is_digit(#[trigger] next[j]) by {
                if j < prefix.len() {
                    assert(next[j] == prefix[j]);
                }
            }
        }
        if val > 4294967295 {
            assert(val == decimal_value(next));
            proof {
                if all_digits(d) {
                    lemma_decimal_value_prefix(d, i - start);
                    assert(d.take(i - start) == next);
                }
            }
            assert(u32_from_decimal(s@) is None);
            return None;
        }
    }
    assert(d.take(cs@.len() - start) =~= d);
    Some(val as u32)
}

/// Whether `c` is an ASCII hexadecimal digit (either case).
pub open spec fn is_hex_digit(c: char) -> bool {
    ('0' <= c && c <= '9') || ('a' <= c && c <= 'f') || ('A' <= c && c <= 'F')
}

/// Whether `c` is an ASCII hexadecimal digit, as `char::is_ascii_hexdigit`.
pub fn hex_digit(c: char) -> (r: bool)
    ensures
        r == is_hex_digit(c),
{
    ('0' <= c && c <= '9') || ('a' <= c && c <= 'f') || ('A' <= c && c <= 'F')
}

/// All characters of `s` are ASCII hexadecimal digits.
pub open spec fn all_hex_digits(s: Seq<char>) -> bool {
    forall|i: int| 0 <= i < s.len() ==> is_hex_digit(#[trigger] s[i])
}

/// Whether every character of `s` is an ASCII hexadecimal digit.
pub fn all_hex(s: &str) -> (r: bool)
    ensures
        r == all_hex_digits(s@),
{
    let cs = chars_of(s);
    let mut i: usize = 0;
    while i < cs.len()
        invariant
            cs@ == s@,
            i <= cs@.len(),
            forall|j: int| 0 <= j < i ==> is_hex_digit(#[trigger] cs@[j]),
        decreases cs@.len() - i,
    {
        if !hex_digit(cs[i]) {
            return false;
        }
        i += 1;
    }
    true
}


/// The number of bytes of the UTF-8 encoding of `s`, which `str::len`
/// gives.
pub open spec fn utf8_len(s: Seq<char>) -> nat {
    vstd::utf8::encode_utf8(s).len()
}

/// What `str::to_lowercase` makes of text that is not all ASCII, under
/// Unicode's case mapping.
pub uninterp spec fn unicode_lowercase(s: Seq<char>) -> Seq<char>;

/// The lowercase equivalent of `s`, as `str::to_lowercase` computes it: on
/// ASCII text the letters `A`..`Z` become `a`..`z` and all else stays;
/// beyond ASCII, Unicode's case mapping decides.
pub open spec fn lowercase(s: Seq<char>) -> Seq<char> {
    if vstd::utf8::is_ascii_chars(s) {
        ascii_lowercase(s)
    } else {
        unicode_lowercase(s)
    }
}

/// ASCII lowercasing: `A`..`Z` become `a`..`z`, all else stays.
pub open spec fn ascii_lowercase(s: Seq<char>) -> Seq<char> {
    Seq::new(
        s.len(),
        |i: int|
            if 'A' <= s[i] && s[i] <= 'Z' {
                (s[i] as int + 32) as char
            } else {
                s[i]
            },
    )
}

/// `str::to_lowercase`. On ASCII text it lowercases the letters `A`..`Z`
/// and keeps every other character, as `to_ascii_lowercase` does; beyond
/// ASCII its result is named only.
#[verifier::external_body]
pub(crate) fn to_lowercase(s: &str) -> (r: String)
    ensures
        r@ == lowercase(s@),
        !vstd::utf8::is_ascii_chars(s@) ==> r@ == unicode_lowercase(s@),
{
    s.to_lowercase()
}

/// Whether a character beyond ASCII is alphanumeric in Unicode's sense
/// (`Alphabetic` or `Numeric`), as `char::is_alphanumeric` decides.
pub uninterp spec fn unicode_alphanumeric(c: char) -> bool;

/// Whether `c` is alphanumeric, as `char::is_alphanumeric` decides: in
/// ASCII the letters and digits; beyond ASCII, Unicode's properties decide.
pub open spec fn alphanumeric(c: char) -> bool {
    if c <= '\u{7f}' {
        ('0' <= c && c <= '9') || ('a' <= c && c <= 'z') || ('A' <= c && c <= 'Z')
    } else {
        unicode_alphanumeric(c)
    }
}

/// `char::is_alphanumeric`: in ASCII exactly the letters and digits;
/// beyond ASCII its result is named only.
#[verifier::external_body]
pub(crate) fn is_alphanumeric(c: char) -> (r: bool)
    ensures
        r == alphanumeric(c),
        c > '\u{7f}' ==> r == unicode_alphanumeric(c),
{
    c.is_alphanumeric()
}

/// The length of `s` in bytes, as `str::len` gives it.
pub fn byte_len(s: &str) -> (n: usize)
    ensures
        n == utf8_len(s@),
{
    s.as_bytes().len()
}


/// The string `a`, `b` and `c` make one after the other.
pub fn concat3(a: &str, b: &str, c: &str) -> (r: String)
    ensures
        r@ == a@ + b@ + c@,
{
    let mut r = String::from_str(a);
    r.append(b);
    r.append(c);
    r
}

} // verus!

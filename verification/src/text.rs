//! Character-level text utilities: searching, splitting, case folding,
//! trimming, and decimal formatting and parsing.
//!
//! Everything here is stated over `Seq<char>` views, so the higher layers
//! (header handling, request parsing, routing) can give exact contracts.
use vstd::prelude::*;

verus! {

/// Appends one character at the end of a string.
///
/// Relies on `String::push`: appends the given character to the string.
#[verifier::external_body]
pub fn push_char(s: &mut String, c: char)
    ensures
        final(s)@ == old(s)@.push(c),
{
    s.push(c);
}

/// True when every byte is an ASCII code point.
pub open spec fn ascii_bytes(v: Seq<u8>) -> bool {
    forall|i: int| 0 <= i < v.len() ==> v[i] < 128
}

/// The characters that a sequence of ASCII bytes stands for.
pub open spec fn ascii_chars(v: Seq<u8>) -> Seq<char> {
    v.map_values(|b: u8| b as char)
}

/// Decodes bytes as UTF-8 text.
///
/// Relies on `String::from_utf8`: succeeds exactly on valid UTF-8 input and
/// decodes ASCII bytes one to one.
#[verifier::external_body]
pub fn utf8_to_string(v: &[u8]) -> (r: Option<String>)
    ensures
        r matches Some(s) ==> vstd::utf8::valid_utf8(v@) && s@ == vstd::utf8::decode_utf8(v@),
        r is None ==> !vstd::utf8::valid_utf8(v@),
        r is None ==> !ascii_bytes(v@),
        r matches Some(s) ==> (ascii_bytes(v@) ==> s@ == ascii_chars(v@)),
{
    match String::from_utf8(v.to_vec()) {
        Ok(s) => Some(s),
        Err(_) => None,
    }
}

/// The character for a single decimal digit value.
pub open spec fn digit_char(d: nat) -> char {
    ((d + 48) as u8) as char
}

/// Decimal digit string of a natural number, most significant digit first.
pub open spec fn dec_digits(n: nat) -> Seq<char>
    decreases n,
{
    if n < 10 {
        seq![digit_char(n)]
    } else {
        dec_digits(n / 10).push(digit_char(n % 10))
    }
}

/// Formats a number in decimal, without sign or padding.
pub fn u64_to_string(n: u64) -> (r: String)
    ensures
        r@ == dec_digits(n as nat),
    decreases n,
{
    if n < 10 {
        let mut s = String::new();
        push_char(&mut s, ((n as u8) + 48) as char);
        s
    } else {
        let mut s = u64_to_string(n / 10);
        push_char(&mut s, (((n % 10) as u8) + 48) as char);
        s
    }
}

/// A decimal rendering is one or more digit characters.
pub proof fn lemma_dec_digits_all_digits(n: nat)
    ensures
        all_digits(dec_digits(n)),
        dec_digits(n).len() >= 1,
    decreases n,
{
    if n >= 10 {
        lemma_dec_digits_all_digits(n / 10);
    }
}

/// Digit characters are header-safe.
pub proof fn lemma_digits_no_crlf(s: Seq<char>)
    requires
        all_digits(s),
    ensures
        no_crlf(s),
{
}

/// Reading back a decimal rendering gives the number.
pub proof fn lemma_dec_roundtrip(n: nat)
    ensures
        dec_value(dec_digits(n)) == n,
    decreases n,
{
    if n < 10 {
        assert(dec_digits(n).drop_last() =~= Seq::<char>::empty());
        assert(dec_value(Seq::<char>::empty()) == 0);
        assert(dec_digits(n).last() == digit_char(n));
        assert(((n + 48) as u8) as char as u32 == n + 48);
        assert(digit_value(digit_char(n)) == n);
    } else {
        lemma_dec_roundtrip(n / 10);
        assert(dec_digits(n).drop_last() =~= dec_digits(n / 10));
        assert(dec_digits(n).last() == digit_char(n % 10));
        assert(((n % 10 + 48) as u8) as char as u32 == n % 10 + 48);
        assert(digit_value(digit_char((n % 10) as nat)) == n % 10);
        assert(dec_value(dec_digits(n)) == dec_value(dec_digits(n / 10)) * 10 + (n % 10));
    }
}

/// Trimming one leading blank off a digit string gives the digits.
pub proof fn lemma_trim_space_digits(s: Seq<char>)
    requires
        s.len() > 0,
        all_digits(s),
    ensures
        trim_spec(seq![' '] + s) == s,
{
    assert((seq![' '] + s).drop_first() =~= s);
    assert(!is_space(s[0]));
    assert(!is_space(s.last()));
    assert(trim_spec(s) == s);
}

/// True for the characters '0' through '9'.
pub open spec fn is_digit(c: char) -> bool {
    '0' <= c && c <= '9'
}

/// The numeric value of a digit character.
pub open spec fn digit_value(c: char) -> nat {
    (c as u32 - 48) as nat
}

/// The value of a digit string read in base ten.
pub open spec fn dec_value(s: Seq<char>) -> nat
    decreases s.len(),
{
    if s.len() == 0 {
        0
    } else {
        dec_value(s.drop_last()) * 10 + digit_value(s.last())
    }
}

/// True when the string is one or more decimal digits.
pub open spec fn all_digits(s: Seq<char>) -> bool {
    forall|i: int| 0 <= i < s.len() ==> is_digit(#[trigger] s[i])
}

proof fn lemma_dec_value_grows(s: Seq<char>, i: int)
    requires
        0 <= i <= s.len(),
    ensures
        dec_value(s.take(i)) <= dec_value(s),
    decreases s.len() - i,
{
    if i < s.len() {
        assert(s.take(i + 1).drop_last() =~= s.take(i));
        lemma_dec_value_grows(s, i + 1);
    } else {
        assert(s.take(i) =~= s);
    }
}

/// Reads a decimal number.  Returns the value exactly when the whole string
/// is one or more digits and the value fits in a `u64`.
pub fn parse_u64(s: &str) -> (r: Option<u64>)
    ensures
        r matches Some(n) ==> all_digits(s@) && s@.len() > 0 && n == dec_value(s@),
        r is None ==> s@.len() == 0 || !all_digits(s@) || dec_value(s@) > u64::MAX,
{
    let len = s.unicode_len();
    if len == 0 {
        return None;
    }
    let mut acc: u64 = 0;
    let mut i: usize = 0;
    while i < len
        invariant
            0 <= i <= len,
            len == s@.len(),
            all_digits(s@.take(i as int)),
            acc == dec_value(s@.take(i as int)),
        decreases len - i,
    {
        let c = s.get_char(i);
        if c < '0' || c > '9' {
            assert(!is_digit(s@[i as int]));
            return None;
        }
        let d: u64 = (c as u32 - 48) as u64;
        if acc > (u64::MAX - d) / 10 {
            proof {
                assert(s@.take(i as int + 1).drop_last() =~= s@.take(i as int));
                assert(dec_value(s@.take(i as int + 1)) > u64::MAX);
                lemma_dec_value_grows(s@, i as int + 1);
            }
            return None;
        }
        acc = acc * 10 + d;
        assert(s@.take(i as int + 1).drop_last() =~= s@.take(i as int));
        i += 1;
    }
    assert(s@.take(len as int) =~= s@);
    Some(acc)
}

/// Position of the first occurrence of `c` in `s` at or after `from`.
pub fn find_char(s: &str, c: char, from: usize) -> (r: Option<usize>)
    requires
        from <= s@.len(),
    ensures
        r matches Some(i) ==> from <= i < s@.len() && s@[i as int] == c && forall|j: int|
            from <= j < i ==> s@[j] != c,
        r is None ==> forall|j: int| from <= j < s@.len() ==> s@[j] != c,
{
    let len = s.unicode_len();
    let mut i = from;
    while i < len
        invariant
            from <= i <= len,
            len == s@.len(),
            forall|j: int| from <= j < i ==> s@[j] != c,
        decreases len - i,
    {
        if s.get_char(i) == c {
            return Some(i);
        }
        i += 1;
    }
    None
}

/// Character-wise equality of two string slices.
pub fn str_eq(a: &str, b: &str) -> (r: bool)
    ensures
        r == (a@ == b@),
{
    let alen = a.unicode_len();
    let blen = b.unicode_len();
    if alen != blen {
        return false;
    }
    let mut i: usize = 0;
    while i < alen
        invariant
            0 <= i <= alen,
            alen == a@.len(),
            alen == b@.len(),
            forall|j: int| 0 <= j < i ==> a@[j] == b@[j],
        decreases alen - i,
    {
        if a.get_char(i) != b.get_char(i) {
            assert(a@ != b@);
            return false;
        }
        i += 1;
    }
    proof {
        assert(a@ =~= b@);
    }
    true
}

/// True when `p` is a prefix of `s`.
pub fn starts_with(s: &str, p: &str) -> (r: bool)
    ensures
        r == p@.is_prefix_of(s@),
{
    let slen = s.unicode_len();
    let plen = p.unicode_len();
    if plen > slen {
        assert(!p@.is_prefix_of(s@));
        return false;
    }
    let mut i: usize = 0;
    while i < plen
        invariant
            0 <= i <= plen <= slen,
            slen == s@.len(),
            plen == p@.len(),
            forall|j: int| 0 <= j < i ==> s@[j] == p@[j],
        decreases plen - i,
    {
        if s.get_char(i) != p.get_char(i) {
            assert(p@[i as int] != s@.take(plen as int)[i as int]);
            assert(!p@.is_prefix_of(s@));
            return false;
        }
        i += 1;
    }
    proof {
        assert(p@ =~= s@.take(plen as int));
    }
    true
}

/// ASCII lower-casing of one character; other characters are unchanged.
pub open spec fn lower_char(c: char) -> char {
    if 'A' <= c && c <= 'Z' {
        ((c as u32 + 32) as u8) as char
    } else {
        c
    }
}

/// ASCII lower-casing of a character sequence.
pub open spec fn lower_seq(s: Seq<char>) -> Seq<char> {
    s.map_values(|c: char| lower_char(c))
}

/// ASCII lower-casing of a string.
pub fn to_lowercase(s: &str) -> (r: String)
    ensures
        r@ == lower_seq(s@),
{
    let len = s.unicode_len();
    let mut out = String::new();
    let mut i: usize = 0;
    while i < len
        invariant
            0 <= i <= len,
            len == s@.len(),
            out@ == lower_seq(s@.take(i as int)),
        decreases len - i,
    {
        let c = s.get_char(i);
        let lc: char = if c >= 'A' && c <= 'Z' {
            ((c as u32 + 32) as u8) as char
        } else {
            c
        };
        assert(lc == lower_char(s@[i as int]));
        push_char(&mut out, lc);
        proof {
            assert(lower_seq(s@.take(i + 1)) =~= lower_seq(s@.take(i as int)).push(
                lower_char(s@[i as int]),
            ));
        }
        i += 1;
    }
    proof {
        assert(s@.take(len as int) =~= s@);
    }
    out
}

/// ASCII upper-casing of one character; other characters are unchanged.
pub open spec fn upper_char(c: char) -> char {
    if 'a' <= c && c <= 'z' {
        ((c as u32 - 32) as u8) as char
    } else {
        c
    }
}

/// ASCII upper-casing of a character sequence.
pub open spec fn upper_seq(s: Seq<char>) -> Seq<char> {
    s.map_values(|c: char| upper_char(c))
}

/// ASCII upper-casing of a string.
pub fn to_uppercase(s: &str) -> (r: String)
    ensures
        r@ == upper_seq(s@),
{
    let len = s.unicode_len();
    let mut out = String::new();
    let mut i: usize = 0;
    while i < len
        invariant
            0 <= i <= len,
            len == s@.len(),
            out@ == upper_seq(s@.take(i as int)),
        decreases len - i,
    {
        let c = s.get_char(i);
        let uc: char = if c >= 'a' && c <= 'z' {
            ((c as u32 - 32) as u8) as char
        } else {
            c
        };
        assert(uc == upper_char(s@[i as int]));
        push_char(&mut out, uc);
        proof {
            assert(upper_seq(s@.take(i + 1)) =~= upper_seq(s@.take(i as int)).push(
                upper_char(s@[i as int]),
            ));
        }
        i += 1;
    }
    proof {
        assert(s@.take(len as int) =~= s@);
    }
    out
}

/// True for the blank characters that surrounding-whitespace trimming drops.
pub open spec fn is_space(c: char) -> bool {
    c == ' ' || c == '\t' || c == '\r' || c == '\n'
}

/// Executable test for [`is_space`].
pub fn space(c: char) -> (r: bool)
    ensures
        r == is_space(c),
{
    c == ' ' || c == '\t' || c == '\r' || c == '\n'
}

/// `s` with leading and trailing blanks removed.
pub open spec fn trim_spec(s: Seq<char>) -> Seq<char>
    decreases s.len(),
{
    if s.len() == 0 {
        s
    } else if is_space(s[0]) {
        trim_spec(s.drop_first())
    } else if is_space(s.last()) {
        trim_spec(s.drop_last())
    } else {
        s
    }
}

/// Removes leading and trailing blanks.
pub fn trim(s: &str) -> (r: String)
    ensures
        r@ == trim_spec(s@),
{
    let len = s.unicode_len();
    proof {
        assert(s@.subrange(0, len as int) =~= s@);
    }
    let mut lo: usize = 0;
    while lo < len && space(s.get_char(lo))
        invariant
            0 <= lo <= len,
            len == s@.len(),
            trim_spec(s@) == trim_spec(s@.subrange(lo as int, len as int)),
        decreases len - lo,
    {
        proof {
            assert(s@.subrange(lo as int, len as int).drop_first() =~= s@.subrange(
                lo as int + 1,
                len as int,
            ));
        }
        lo += 1;
    }
    let mut hi: usize = len;
    while hi > lo && space(s.get_char(hi - 1))
        invariant
            lo <= hi <= len,
            len == s@.len(),
            hi > lo ==> !is_space(s@[lo as int]),
            hi == len || !is_space(s@[lo as int]),
            trim_spec(s@) == trim_spec(s@.subrange(lo as int, hi as int)),
        decreases hi,
    {
        proof {
            assert(s@.subrange(lo as int, hi as int).drop_last() =~= s@.subrange(
                lo as int,
                hi as int - 1,
            ));
        }
        hi -= 1;
    }
    let out = s.substring_char(lo, hi);
    proof {
        let sub = s@.subrange(lo as int, hi as int);
        if sub.len() > 0 {
            assert(!is_space(sub[0]));
            assert(!is_space(sub.last()));
        }
        assert(trim_spec(sub) == sub);
    }
    String::from_str(out)
}

/// The text before and after the first occurrence of `c`, or `None` when
/// `c` does not occur in `s`.
pub open spec fn split_first(s: Seq<char>, c: char) -> Option<(Seq<char>, Seq<char>)>
    decreases s.len(),
{
    if s.len() == 0 {
        None
    } else if s[0] == c {
        Some((Seq::<char>::empty(), s.drop_first()))
    } else {
        match split_first(s.drop_first(), c) {
            None => None,
            Some((a, b)) => Some((seq![s[0]] + a, b)),
        }
    }
}

pub proof fn lemma_split_first_at(s: Seq<char>, c: char, i: int)
    requires
        0 <= i <= s.len(),
        forall|j: int| 0 <= j < i ==> s[j] != c,
        i < s.len() ==> s[i] == c,
    ensures
        i == s.len() ==> split_first(s, c) is None,
        i < s.len() ==> split_first(s, c) == Some((s.take(i), s.skip(i + 1))),
    decreases i + 1,
{
    if i == s.len() {
        if s.len() > 0 {
            lemma_split_first_at(s.drop_first(), c, i - 1);
        }
    } else if i == 0 {
        assert(s.take(0) =~= Seq::<char>::empty());
        assert(s.skip(1) =~= s.drop_first());
    } else {
        lemma_split_first_at(s.drop_first(), c, i - 1);
        let (a, b) = split_first(s.drop_first(), c)->Some_0;
        assert(seq![s[0]] + s.drop_first().take(i - 1) =~= s.take(i));
        assert(s.drop_first().skip(i) =~= s.skip(i + 1));
    }
}

/// Splits `s` at the first occurrence of `c` into the text before and after
/// it; `None` when `c` does not occur.
pub fn split_once(s: &str, c: char) -> (r: Option<(String, String)>)
    ensures
        r matches Some(p) ==> split_first(s@, c) == Some((p.0@, p.1@)),
        r is None ==> split_first(s@, c) is None,
{
    let len = s.unicode_len();
    match find_char(s, c, 0) {
        Some(i) => {
            proof {
                lemma_split_first_at(s@, c, i as int);
                assert(s@.take(i as int) =~= s@.subrange(0, i as int));
                assert(s@.skip(i as int + 1) =~= s@.subrange(i as int + 1, len as int));
            }
            let before = String::from_str(s.substring_char(0, i));
            let after = String::from_str(s.substring_char(i + 1, len));
            Some((before, after))
        },
        None => {
            proof {
                lemma_split_first_at(s@, c, s@.len() as int);
            }
            None
        },
    }
}

/// The pieces of `s` between occurrences of the separator `c`.
pub open spec fn split_seq(s: Seq<char>, c: char) -> Seq<Seq<char>>
    decreases s.len(),
{
    if s.len() == 0 {
        seq![Seq::<char>::empty()]
    } else if s[0] == c {
        seq![Seq::<char>::empty()] + split_seq(s.drop_first(), c)
    } else {
        let r = split_seq(s.drop_first(), c);
        seq![seq![s[0]] + r[0]] + r.skip(1)
    }
}

pub proof fn lemma_split_len(s: Seq<char>, c: char)
    ensures
        split_seq(s, c).len() >= 1,
    decreases s.len(),
{
    if s.len() != 0 {
        lemma_split_len(s.drop_first(), c);
    }
}

/// Splitting at the first separator occurrence (or its absence) unfolds the
/// split into its head piece and the split of the remainder.
pub proof fn lemma_split_at_first(s: Seq<char>, c: char, i: int)
    requires
        0 <= i <= s.len(),
        forall|j: int| 0 <= j < i ==> s[j] != c,
        i < s.len() ==> s[i] == c,
    ensures
        i == s.len() ==> split_seq(s, c) == seq![s],
        i < s.len() ==> split_seq(s, c) == seq![s.take(i)] + split_seq(s.skip(i + 1), c),
    decreases i + 1,
{
    if s.len() > 0 {
        lemma_split_len(s.drop_first(), c);
    }
    if i == s.len() {
        if s.len() == 0 {
            assert(s =~= Seq::<char>::empty());
            assert(split_seq(s, c) =~= seq![s]);
        } else {
            lemma_split_at_first(s.drop_first(), c, i - 1);
            let r = split_seq(s.drop_first(), c);
            assert(r == seq![s.drop_first()]);
            assert(seq![s[0]] + r[0] =~= s);
            assert(split_seq(s, c) =~= seq![s]);
        }
    } else if i == 0 {
        assert(s.take(0) =~= Seq::<char>::empty());
        assert(s.skip(1) =~= s.drop_first());
        assert(split_seq(s, c) =~= seq![s.take(0)] + split_seq(s.skip(1), c));
    } else {
        lemma_split_at_first(s.drop_first(), c, i - 1);
        let r = split_seq(s.drop_first(), c);
        assert(r == seq![s.drop_first().take(i - 1)] + split_seq(s.drop_first().skip(i), c));
        assert(seq![s[0]] + r[0] =~= s.take(i));
        assert(s.drop_first().skip(i) =~= s.skip(i + 1));
        assert(r.skip(1) =~= split_seq(s.skip(i + 1), c));
        assert(split_seq(s, c) =~= seq![s.take(i)] + split_seq(s.skip(i + 1), c));
    }
}

/// Splits `s` at every occurrence of `c`.  The result always holds at least
/// one piece, and joining the pieces with `c` gives `s` back.
pub fn split_char(s: &str, c: char) -> (r: Vec<String>)
    ensures
        r@.map_values(|p: String| p@) == split_seq(s@, c),
        r@.len() >= 1,
{
    let mut out: Vec<String> = Vec::new();
    let mut start: usize = 0;
    let len = s.unicode_len();
    proof {
        assert(s@.subrange(0, len as int) =~= s@);
        assert(out@.map_values(|p: String| p@) =~= Seq::<Seq<char>>::empty());
    }
    loop
        invariant
            0 <= start <= len,
            len == s@.len(),
            split_seq(s@, c) == out@.map_values(|p: String| p@) + split_seq(
                s@.subrange(start as int, len as int),
                c,
            ),
        decreases len - start,
    {
        let ghost rv = s@.subrange(start as int, len as int);
        match find_char(s, c, start) {
            Some(i) => {
                let piece = s.substring_char(start, i);
                proof {
                    let local = i - start;
                    assert(forall|j: int| 0 <= j < local ==> rv[j] == s@[start + j] && s@[start + j]
                        != c);
                    assert(rv[local as int] == c);
                    lemma_split_at_first(rv, c, local as int);
                    assert(rv.take(local as int) =~= piece@);
                    assert(rv.skip(local + 1) =~= s@.subrange(i as int + 1, len as int));
                }
                out.push(String::from_str(piece));
                proof {
                    assert(out@.map_values(|p: String| p@) =~= out@.drop_last().map_values(
                        |p: String| p@,
                    ).push(piece@));
                }
                start = i + 1;
            },
            None => {
                let piece = s.substring_char(start, len);
                proof {
                    assert(forall|j: int| 0 <= j < rv.len() ==> rv[j] == s@[start + j] && s@[start
                        + j] != c);
                    lemma_split_at_first(rv, c, rv.len() as int);
                    assert(piece@ =~= rv);
                }
                out.push(String::from_str(piece));
                proof {
                    assert(out@.map_values(|p: String| p@) =~= out@.drop_last().map_values(
                        |p: String| p@,
                    ).push(piece@));
                    assert(out@.map_values(|p: String| p@) =~= split_seq(s@, c));
                }
                return out;
            },
        }
    }
}

/// True for ASCII hexadecimal digit characters.
pub open spec fn is_hex_char(c: char) -> bool {
    ('0' <= c && c <= '9') || ('a' <= c && c <= 'f') || ('A' <= c && c <= 'F')
}

/// The value of one hexadecimal digit character.
pub open spec fn hex_char_val(c: char) -> nat {
    if '0' <= c && c <= '9' {
        (c as u32 - 48) as nat
    } else if 'a' <= c && c <= 'f' {
        (c as u32 - 87) as nat
    } else {
        (c as u32 - 55) as nat
    }
}

/// The value of a hexadecimal digit character, when it is one.
pub fn hex_char_digit(c: char) -> (r: Option<u8>)
    ensures
        r matches Some(v) ==> is_hex_char(c) && v == hex_char_val(c),
        r is None ==> !is_hex_char(c),
{
    if c >= '0' && c <= '9' {
        Some(((c as u32 - 48) as u8))
    } else if c >= 'a' && c <= 'f' {
        Some(((c as u32 - 87) as u8))
    } else if c >= 'A' && c <= 'F' {
        Some(((c as u32 - 55) as u8))
    } else {
        None
    }
}

/// True when `p` occurs as a contiguous piece of `s`.
pub open spec fn has_sub(s: Seq<char>, p: Seq<char>) -> bool {
    exists|i: int| 0 <= i && i + p.len() <= s.len() && #[trigger] s.subrange(i, i + p.len()) == p
}

fn matches_at(s: &str, p: &str, at: usize) -> (r: bool)
    requires
        at + p@.len() <= s@.len(),
    ensures
        r == (s@.subrange(at as int, at + p@.len()) == p@),
{
    let sl = s.unicode_len();
    let pl = p.unicode_len();
    let mut j: usize = 0;
    while j < pl
        invariant
            0 <= j <= pl,
            pl == p@.len(),
            sl == s@.len(),
            at + pl <= sl,
            forall|k: int| 0 <= k < j ==> s@[at + k] == p@[k],
        decreases pl - j,
    {
        if s.get_char(at + j) != p.get_char(j) {
            assert(s@.subrange(at as int, at + p@.len())[j as int] != p@[j as int]);
            return false;
        }
        j += 1;
    }
    proof {
        assert(s@.subrange(at as int, at + p@.len()) =~= p@);
    }
    true
}

/// True when `p` occurs inside `s`.
pub fn contains_sub(s: &str, p: &str) -> (r: bool)
    ensures
        r == has_sub(s@, p@),
{
    let sl = s.unicode_len();
    let pl = p.unicode_len();
    if pl > sl {
        return false;
    }
    if pl == 0 {
        proof {
            assert(s@.subrange(0, 0 + p@.len() as int) =~= p@);
        }
        return true;
    }
    let mut i: usize = 0;
    while i <= sl - pl
        invariant
            0 <= i <= sl - pl + 1,
            1 <= pl <= sl,
            sl == s@.len(),
            pl == p@.len(),
            forall|k: int| 0 <= k < i ==> #[trigger] s@.subrange(k, k + p@.len()) != p@,
        decreases sl - pl + 1 - i,
    {
        if matches_at(s, p, i) {
            assert(has_sub(s@, p@));
            return true;
        }
        i += 1;
    }
    false
}

/// The position of the first occurrence of `p` inside `s`, if any.
pub open spec fn find_sub(s: Seq<char>, p: Seq<char>) -> Option<int>
    decreases s.len(),
{
    if p.len() == 0 {
        Some(0)
    } else if s.len() < p.len() {
        None
    } else {
        if s.take(p.len() as int) == p {
            Some(0)
        } else {
            match find_sub(s.drop_first(), p) {
                None => None,
                Some(i) => Some(i + 1),
            }
        }
    }
}

proof fn lemma_find_sub_at(s: Seq<char>, p: Seq<char>, i: int)
    requires
        p.len() > 0,
        0 <= i <= s.len(),
        forall|j: int|
            0 <= j < i && j + p.len() <= s.len() ==> #[trigger] s.subrange(j, j + p.len() as int)
                != p,
        i + p.len() <= s.len() ==> s.subrange(i, i + p.len() as int) == p,
    ensures
        i + p.len() > s.len() ==> find_sub(s, p) is None,
        i + p.len() <= s.len() ==> find_sub(s, p) == Some(i),
    decreases i + 1,
{
    if s.len() < p.len() {
    } else if i == 0 {
        if i + p.len() <= s.len() {
            assert(s.take(p.len() as int) =~= s.subrange(0, 0 + p.len() as int));
        }
    } else {
        assert(s.subrange(0, 0 + p.len() as int) != p);
        assert(s.take(p.len() as int) =~= s.subrange(0, 0 + p.len() as int));
        let d = s.drop_first();
        assert forall|j: int| 0 <= j < i - 1 && j + p.len() <= d.len() implies #[trigger] d.subrange(
            j,
            j + p.len() as int,
        ) != p by {
            assert(s.subrange(j + 1, (j + 1) + p.len() as int) != p);
            assert(d.subrange(j, j + p.len() as int) =~= s.subrange(j + 1, (j + 1) + p.len() as int));
        }
        if i + p.len() <= s.len() {
            assert(d.subrange(i - 1, (i - 1) + p.len() as int) =~= s.subrange(
                i,
                i + p.len() as int,
            ));
        }
        lemma_find_sub_at(d, p, i - 1);
    }
}

/// Finds where `p` first occurs inside `s`.
pub fn find_sub_at(s: &str, p: &str) -> (r: Option<usize>)
    requires
        p@.len() > 0,
    ensures
        r matches Some(i) ==> find_sub(s@, p@) == Some(i as int) && i + p@.len() <= s@.len(),
        r is None ==> find_sub(s@, p@) is None,
{
    let sl = s.unicode_len();
    let pl = p.unicode_len();
    if pl > sl {
        proof {
            lemma_find_sub_at(s@, p@, 0);
        }
        return None;
    }
    let mut i: usize = 0;
    while i <= sl - pl
        invariant
            0 <= i <= sl - pl + 1,
            1 <= pl <= sl,
            sl == s@.len(),
            pl == p@.len(),
            forall|j: int|
                0 <= j < i && j + p@.len() <= s@.len() ==> #[trigger] s@.subrange(
                    j,
                    j + p@.len() as int,
                ) != p@,
        decreases sl - pl + 1 - i,
    {
        if matches_at(s, p, i) {
            proof {
                assert(s@.subrange(i as int, i as int + p@.len() as int) == p@);
                lemma_find_sub_at(s@, p@, i as int);
            }
            return Some(i);
        }
        proof {
            assert(s@.subrange(i as int, i as int + p@.len() as int) != p@);
        }
        i += 1;
    }
    proof {
        lemma_find_sub_at(s@, p@, i as int);
    }
    None
}

/// The integer a signed decimal string denotes: an optional sign, then one
/// or more digits.
pub open spec fn int_rep(s: Seq<char>) -> Option<int> {
    if s.len() == 0 {
        None
    } else {
        let (neg, ds) = if s[0] == '-' {
            (true, s.drop_first())
        } else if s[0] == '+' {
            (false, s.drop_first())
        } else {
            (false, s)
        };
        if ds.len() > 0 && all_digits(ds) {
            if neg {
                Some(-(dec_value(ds) as int))
            } else {
                Some(dec_value(ds) as int)
            }
        } else {
            None
        }
    }
}

/// Reads a signed decimal number.  Returns the value exactly when the
/// string is a well-formed signed number that fits an `i64`.
pub fn parse_i64(s: &str) -> (r: Option<i64>)
    ensures
        r matches Some(n) ==> int_rep(s@) == Some(n as int),
        r is None ==> int_rep(s@) is None || int_rep(s@)->Some_0 > i64::MAX || int_rep(s@)->Some_0
            < i64::MIN,
{
    let len = s.unicode_len();
    if len == 0 {
        return None;
    }
    let c0 = s.get_char(0);
    let neg = c0 == '-';
    let digits = if neg || c0 == '+' {
        s.substring_char(1, len)
    } else {
        s.substring_char(0, len)
    };
    proof {
        if neg || c0 == '+' {
            assert(digits@ =~= s@.drop_first());
        } else {
            assert(digits@ =~= s@);
        }
    }
    match parse_u64(digits) {
        None => None,
        Some(v) => {
            if neg {
                if v <= 9223372036854775807 {
                    Some(-(v as i64))
                } else if v == 9223372036854775808 {
                    Some(i64::MIN)
                } else {
                    None
                }
            } else {
                if v <= 9223372036854775807 {
                    Some(v as i64)
                } else {
                    None
                }
            }
        },
    }
}

/// True when the text holds neither carriage return nor line feed, so it can
/// stand on one line of an HTTP header block.
pub open spec fn no_crlf(s: Seq<char>) -> bool {
    forall|i: int| 0 <= i < s.len() ==> s[i] != '\r' && s[i] != '\n'
}

/// The pieces joined with the separator between consecutive pieces.
pub open spec fn join_with(ps: Seq<Seq<char>>, sep: Seq<char>) -> Seq<char>
    decreases ps.len(),
{
    if ps.len() == 0 {
        Seq::<char>::empty()
    } else if ps.len() == 1 {
        ps[0]
    } else {
        ps[0] + sep + join_with(ps.drop_first(), sep)
    }
}

/// Joining one more piece appends a separator and the piece.
pub proof fn lemma_join_push(ps: Seq<Seq<char>>, p: Seq<char>, sep: Seq<char>)
    ensures
        ps.len() == 0 ==> join_with(ps.push(p), sep) == p,
        ps.len() > 0 ==> join_with(ps.push(p), sep) == join_with(ps, sep) + sep + p,
    decreases ps.len(),
{
    if ps.len() == 0 {
        assert(join_with(ps.push(p), sep) == ps.push(p)[0]);
        assert(ps.push(p)[0] == p);
    } else if ps.len() == 1 {
        assert(ps.push(p).drop_first() =~= seq![p]);
        assert(join_with(seq![p], sep) == p);
        assert(ps.push(p)[0] == ps[0]);
        assert(join_with(ps.push(p), sep) == ps.push(p)[0] + sep + join_with(
            ps.push(p).drop_first(),
            sep,
        ));
    } else {
        lemma_join_push(ps.drop_first(), p, sep);
        assert(ps.push(p).drop_first() =~= ps.drop_first().push(p));
        assert(join_with(ps, sep) + sep + p =~= ps[0] + sep + (join_with(ps.drop_first(), sep)
            + sep + p));
    }
}

/// Joins string slices with a separator between consecutive entries.
pub fn join_strs(parts: &Vec<String>, sep: &str) -> (r: String)
    ensures
        r@ == join_with(parts@.map_values(|p: String| p@), sep@),
{
    let ghost views = parts@.map_values(|p: String| p@);
    let mut r = String::new();
    let mut i: usize = 0;
    while i < parts.len()
        invariant
            0 <= i <= parts.len(),
            views == parts@.map_values(|p: String| p@),
            r@ == join_with(views.take(i as int), sep@),
        decreases parts.len() - i,
    {
        if i > 0 {
            r.append(sep);
        }
        r.append(parts[i].as_str());
        proof {
            assert(views.take(i as int).push(views[i as int]) =~= views.take(i + 1));
            lemma_join_push(views.take(i as int), views[i as int], sep@);
        }
        i += 1;
    }
    proof {
        assert(views.take(parts@.len() as int) =~= views);
    }
    r
}

} // verus!

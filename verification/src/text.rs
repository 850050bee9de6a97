//! Small string operations with exact contracts, used throughout the crate.

use vstd::prelude::*;

verus! {

/// The characters of each string of a sequence.
pub open spec fn words_view(v: Seq<String>) -> Seq<Seq<char>> {
    v.map_values(|s: String| s@)
}

/// The characters of each string of an optional list.
pub open spec fn opt_words_view(o: Option<Vec<String>>) -> Option<Seq<Seq<char>>> {
    match o {
        Some(v) => Some(words_view(v@)),
        None => None,
    }
}

/// The characters of an optional string.
pub open spec fn opt_str_view(o: Option<String>) -> Option<Seq<char>> {
    match o {
        Some(s) => Some(s@),
        None => None,
    }
}

/// Whether two strings hold the same characters.
pub fn str_eq(a: &str, b: &str) -> (r: bool)
    ensures
        r == (a@ == b@),
{
    a.to_owned() == b.to_owned()
}

/// A fresh `String` holding the characters of `s`.
pub fn owned(s: &str) -> (r: String)
    ensures
        r@ == s@,
{
    s.to_owned()
}

/// Appends a copy of `s` to the list `v`.
pub fn push_word(v: &mut Vec<String>, s: &str)
    ensures
        words_view(final(v)@) == words_view(old(v)@).push(s@),
{
    v.push(s.to_owned());
    assert(words_view(v@) =~= words_view(old(v)@).push(s@));
}

/// Appends the strings of `w` to the list `v`, in order.
pub fn append_words(v: &mut Vec<String>, w: Vec<String>)
    ensures
        words_view(final(v)@) == words_view(old(v)@) + words_view(w@),
{
    let mut w = w;
    let ghost w0 = w@;
    v.append(&mut w);
    assert(words_view(v@) =~= words_view(old(v)@) + words_view(w0));
}

/// Whether `c` occurs in `s`.
pub fn contains_char(s: &str, c: char) -> (r: bool)
    ensures
        r == s@.contains(c),
{
    let n = s.unicode_len();
    let mut i: usize = 0;
    while i < n
        invariant
            n == s@.len(),
            i <= n,
            forall|j: int| 0 <= j < i ==> s@[j] != c,
        decreases n - i,
    {
        if s.get_char(i) == c {
            assert(s@[i as int] == c);
            return true;
        }
        i = i + 1;
    }
    false
}

/// Whether `s` begins with the characters of `prefix`.
pub fn starts_with(s: &str, prefix: &str) -> (r: bool)
    ensures
        r == (prefix@.len() <= s@.len() && s@.subrange(0, prefix@.len() as int) == prefix@),
{
    let n = s.unicode_len();
    let m = prefix.unicode_len();
    if m > n {
        return false;
    }
    let mut i: usize = 0;
    while i < m
        invariant
            n == s@.len(),
            m == prefix@.len(),
            m <= n,
            i <= m,
            forall|j: int| 0 <= j < i ==> s@[j] == prefix@[j],
        decreases m - i,
    {
        if s.get_char(i) != prefix.get_char(i) {
            assert(s@.subrange(0, m as int)[i as int] != prefix@[i as int]);
            return false;
        }
        i = i + 1;
    }
    assert(s@.subrange(0, m as int) =~= prefix@);
    true
}


/// Whether `c` has the Unicode `White_Space` property, as
/// `char::is_whitespace` documents it.
pub open spec fn is_white_space(c: char) -> bool {
    let u = c as u32;
    ||| 0x9 <= u <= 0xD
    ||| u == 0x20
    ||| u == 0x85
    ||| u == 0xA0
    ||| u == 0x1680
    ||| 0x2000 <= u <= 0x200A
    ||| u == 0x2028
    ||| u == 0x2029
    ||| u == 0x202F
    ||| u == 0x205F
    ||| u == 0x3000
}

/// Whether `c` is white space.
pub fn white_space(c: char) -> (r: bool)
    ensures
        r == is_white_space(c),
{
    let u = c as u32;
    (0x9 <= u && u <= 0xD) || u == 0x20 || u == 0x85 || u == 0xA0 || u == 0x1680
        || (0x2000 <= u && u <= 0x200A) || u == 0x2028 || u == 0x2029 || u == 0x202F
        || u == 0x205F || u == 0x3000
}

/// `t` is `s` without its leading and trailing white space.
pub open spec fn is_trimmed_of(t: Seq<char>, s: Seq<char>) -> bool {
    exists|i: int, j: int|
        {
            &&& 0 <= i <= j <= s.len()
            &&& t == #[trigger] s.subrange(i, j)
            &&& forall|k: int| 0 <= k < i ==> is_white_space(s[k])
            &&& forall|k: int| j <= k < s.len() ==> is_white_space(s[k])
            &&& i < j ==> !is_white_space(s[i]) && !is_white_space(s[j - 1])
        }
}

/// `s` without its leading and trailing white space.
pub fn trim(s: &str) -> (r: String)
    ensures
        is_trimmed_of(r@, s@),
{
    let n = s.unicode_len();
    let mut i: usize = 0;
    while i < n && white_space(s.get_char(i))
        invariant
            n == s@.len(),
            i <= n,
            forall|k: int| 0 <= k < i ==> is_white_space(s@[k]),
        decreases n - i,
    {
        i = i + 1;
    }
    let mut j: usize = n;
    while j > i && white_space(s.get_char(j - 1))
        invariant
            n == s@.len(),
            i <= j <= n,
            forall|k: int| 0 <= k < i ==> is_white_space(s@[k]),
            i < n ==> !is_white_space(s@[i as int]),
            forall|k: int| j <= k < n ==> is_white_space(s@[k]),
        decreases j - i,
    {
        j = j - 1;
    }
    let r = s.substring_char(i, j).to_owned();
    assert(is_trimmed_of(r@, s@)) by {
        assert(r@ == s@.subrange(i as int, j as int));
    }
    r
}

/// What `String::from_utf8_lossy` makes of a byte sequence: its UTF-8
/// decoding, with each invalid sequence replaced by U+FFFD.
pub uninterp spec fn utf8_lossy(bytes: Seq<u8>) -> Seq<char>;

/// Calls `String::from_utf8_lossy` and takes the result as an owned
/// string. The contract claims that the result is a function of the bytes,
/// named `utf8_lossy`, and, as the documentation states, that valid UTF-8
/// is decoded unchanged.
#[verifier::external_body]
pub(crate) fn from_utf8_lossy(bytes: &[u8]) -> (r: String)
    ensures
        r@ == utf8_lossy(bytes@),
        vstd::utf8::valid_utf8(bytes@) ==> r@ == vstd::utf8::decode_utf8(bytes@),
{
    String::from_utf8_lossy(bytes).into_owned()
}


/// Calls `String::push`. The contract claims what its documentation
/// states: the character is appended.
#[verifier::external_body]
pub(crate) fn push_char(s: &mut String, c: char)
    ensures
        final(s)@ == old(s)@.push(c),
{
    s.push(c)
}


/// The decimal digit character of `d`, for `0 <= d < 10`.
pub open spec fn digit_char(d: nat) -> char {
    (d + 48) as char
}

/// The decimal digits of a natural number, without leading zeros.
pub open spec fn decimal(n: nat) -> Seq<char>
    decreases n,
{
    if n < 10 {
        seq![digit_char(n)]
    } else {
        decimal(n / 10).push(digit_char(n % 10))
    }
}

/// The decimal text of an integer, with a leading `-` when negative, as
/// Rust's `Display` writes it.
pub open spec fn int_text(i: int) -> Seq<char> {
    if i < 0 {
        seq!['-'] + decimal((-i) as nat)
    } else {
        decimal(i as nat)
    }
}

/// The decimal digits of `n`.
fn u64_text(n: u64) -> (r: String)
    ensures
        r@ == decimal(n as nat),
    decreases n,
{
    let d = (n % 10) as u8;
    let c = (48u8 + d) as char;
    assert(c == digit_char((n % 10) as nat));
    if n < 10 {
        let mut s = String::new();
        push_char(&mut s, c);
        assert(s@ =~= seq![c]);
        s
    } else {
        let mut s = u64_text(n / 10);
        push_char(&mut s, c);
        s
    }
}

/// The decimal text of `i`.
pub fn i64_text(i: i64) -> (r: String)
    ensures
        r@ == int_text(i as int),
{
    if i < 0 {
        let magnitude = (-(i as i128)) as u64;
        let digits = u64_text(magnitude);
        let r = owned("-").concat(digits.as_str());
        proof {
            reveal_strlit("-");
            assert(r@ =~= seq!['-'] + decimal((-(i as int)) as nat));
        }
        r
    } else {
        u64_text(i as u64)
    }
}

/// The decimal text of `i`.
pub fn i32_text(i: i32) -> (r: String)
    ensures
        r@ == int_text(i as int),
{
    i64_text(i as i64)
}

} // verus!

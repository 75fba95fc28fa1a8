//! Character-level string toolkit: every string the library builds or
//! inspects goes through these functions, whose contracts are stated over
//! the `Seq<char>` view of `str` and `String`.
use vstd::prelude::*;

verus! {

// ---------------------------------------------------------------------------
// Conversions between strings and character vectors
// ---------------------------------------------------------------------------

/// The characters of a string slice, in order.
pub fn chars_of(s: &str) -> (out: Vec<char>)
    ensures
        out@ == s@,
{
    let mut out: Vec<char> = Vec::new();
    for c in it: s.chars()
        invariant
            it.seq() == s@,
            out@ == it.seq().take(it.index() as int),
    {
        out.push(c);
    }
    assert(out@ =~= s@);
    out
}

/// `String` holding exactly the given characters (std's `FromIterator<&char>`).
#[verifier::external_body]
pub(crate) fn string_of(cs: &[char]) -> (s: String)
    ensures
        s@ == cs@,
{
    cs.iter().collect()
}

/// UTF-8 encoding of a character sequence (the bytes of a `str`).
pub open spec fn utf8_of(s: Seq<char>) -> Seq<u8> {
    vstd::utf8::encode_utf8(s)
}

/// Unicode lowercase mapping of a whole string (std's `str::to_lowercase`,
/// including its context-dependent final-sigma rule).
pub uninterp spec fn unicode_lowercase(s: Seq<char>) -> Seq<char>;

/// `str::to_lowercase`, named by `unicode_lowercase`. Every character
/// lowercases to one or more characters, so only the empty text gives
/// the empty text.
#[verifier::external_body]
pub(crate) fn to_lowercase(s: &str) -> (r: String)
    ensures
        r@ == unicode_lowercase(s@),
        r@.len() == 0 <==> s@.len() == 0,
{
    s.to_lowercase()
}

/// Appends the characters of `s` to `out`.
pub fn push_str(out: &mut Vec<char>, s: &str)
    ensures
        final(out)@ == old(out)@ + s@,
{
    let cs = chars_of(s);
    let mut i: usize = 0;
    while i < cs.len()
        invariant
            0 <= i <= cs@.len(),
            cs@ == s@,
            out@ == old(out)@ + s@.take(i as int),
        decreases cs@.len() - i,
    {
        out.push(cs[i]);
        i = i + 1;
        assert(s@.take(i as int) =~= s@.take(i - 1) + seq![s@[i - 1]]);
    }
    assert(s@.take(i as int) =~= s@);
}

/// The parts with `sep` between consecutive ones (`[T]::join`).
pub open spec fn joined(parts: Seq<Seq<char>>, sep: Seq<char>) -> Seq<char>
    decreases parts.len(),
{
    if parts.len() == 0 {
        Seq::empty()
    } else if parts.len() == 1 {
        parts[0]
    } else {
        joined(parts.drop_last(), sep) + sep + parts.last()
    }
}

pub open spec fn string_views(v: Seq<String>) -> Seq<Seq<char>> {
    v.map_values(|s: String| s@)
}

/// `parts.join(sep)`.
pub fn join_strings(parts: &[String], sep: &str) -> (out: String)
    ensures
        out@ == joined(string_views(parts@), sep@),
{
    let mut acc: Vec<char> = Vec::new();
    let mut i: usize = 0;
    while i < parts.len()
        invariant
            0 <= i <= parts@.len(),
            acc@ == joined(string_views(parts@.take(i as int)), sep@),
        decreases parts@.len() - i,
    {
        let ghost before = parts@.take(i as int);
        if i > 0 {
            push_str(&mut acc, sep);
        }
        push_str(&mut acc, parts[i].as_str());
        proof {
            let now = parts@.take(i + 1);
            assert(now.drop_last() =~= before);
            assert(string_views(now).drop_last() =~= string_views(before));
            if i == 0 {
                assert(string_views(now) =~= seq![parts@[0]@]);
                assert(acc@ =~= parts@[0]@);
            }
        }
        i = i + 1;
    }
    assert(parts@.take(i as int) =~= parts@);
    string_of(&acc)
}

/// Appends the characters `cs` to `out`.
pub fn push_chars(out: &mut Vec<char>, cs: &[char])
    ensures
        final(out)@ == old(out)@ + cs@,
{
    let mut i: usize = 0;
    while i < cs.len()
        invariant
            0 <= i <= cs@.len(),
            out@ == old(out)@ + cs@.take(i as int),
        decreases cs@.len() - i,
    {
        out.push(cs[i]);
        i = i + 1;
        assert(cs@.take(i as int) =~= cs@.take(i - 1) + seq![cs@[i - 1]]);
    }
    assert(cs@.take(i as int) =~= cs@);
}

/// The characters `cs[from..to]` as a new vector.
pub fn sub_chars(cs: &[char], from: usize, to: usize) -> (out: Vec<char>)
    requires
        from <= to <= cs@.len(),
    ensures
        out@ == cs@.subrange(from as int, to as int),
{
    let mut out: Vec<char> = Vec::new();
    let mut i: usize = from;
    while i < to
        invariant
            from <= i <= to <= cs@.len(),
            out@ == cs@.subrange(from as int, i as int),
        decreases to - i,
    {
        out.push(cs[i]);
        i = i + 1;
        assert(cs@.subrange(from as int, i as int) =~= cs@.subrange(from as int, i - 1) + seq![
            cs@[i - 1],
        ]);
    }
    out
}

/// Exact character-by-character equality.
pub fn chars_eq(a: &[char], b: &[char]) -> (r: bool)
    ensures
        r == (a@ == b@),
{
    if a.len() != b.len() {
        return false;
    }
    let mut i: usize = 0;
    while i < a.len()
        invariant
            a@.len() == b@.len(),
            0 <= i <= a@.len(),
            forall|j: int| 0 <= j < i ==> a@[j] == b@[j],
        decreases a@.len() - i,
    {
        if a[i] != b[i] {
            return false;
        }
        i = i + 1;
    }
    assert(a@ =~= b@);
    true
}

// ---------------------------------------------------------------------------
// Character classes
// ---------------------------------------------------------------------------

/// Unicode `White_Space`, the set std's `char::is_whitespace` tests.
pub open spec fn is_white_space(c: char) -> bool {
    let u = c as u32;
    ||| 0x9 <= u <= 0xd
    ||| u == 0x20
    ||| u == 0x85
    ||| u == 0xa0
    ||| u == 0x1680
    ||| 0x2000 <= u <= 0x200a
    ||| u == 0x2028
    ||| u == 0x2029
    ||| u == 0x202f
    ||| u == 0x205f
    ||| u == 0x3000
}

pub fn white_space(c: char) -> (r: bool)
    ensures
        r == is_white_space(c),
{
    let u = c as u32;
    (0x9 <= u && u <= 0xd) || u == 0x20 || u == 0x85 || u == 0xa0 || u == 0x1680 || (0x2000 <= u
        && u <= 0x200a) || u == 0x2028 || u == 0x2029 || u == 0x202f || u == 0x205f || u == 0x3000
}

/// ASCII lowercase of one character (others unchanged).
pub open spec fn ascii_lower(c: char) -> char {
    if 'A' <= c <= 'Z' {
        ((c as u32) + 32) as char
    } else {
        c
    }
}

pub fn to_ascii_lower(c: char) -> (r: char)
    ensures
        r == ascii_lower(c),
{
    if 'A' <= c && c <= 'Z' {
        let u: u32 = (c as u32) + 32;
        assert(0x61 <= u <= 0x7a);
        let r = char_from_ascii_code(u as u8);
        r
    } else {
        c
    }
}

/// The character with the given ASCII code.
pub(crate) fn char_from_ascii_code(b: u8) -> (c: char)
    requires
        b < 128,
    ensures
        c as u32 == b as u32,
{
    b as char
}

pub open spec fn ascii_lower_seq(s: Seq<char>) -> Seq<char> {
    s.map_values(|c: char| ascii_lower(c))
}

/// `str::to_ascii_lowercase` on a character sequence.
pub fn lower_ascii_chars(cs: &[char]) -> (out: Vec<char>)
    ensures
        out@ == ascii_lower_seq(cs@),
{
    let mut out: Vec<char> = Vec::new();
    let mut i: usize = 0;
    while i < cs.len()
        invariant
            0 <= i <= cs@.len(),
            out@ == ascii_lower_seq(cs@.take(i as int)),
        decreases cs@.len() - i,
    {
        let c = to_ascii_lower(cs[i]);
        out.push(c);
        i = i + 1;
        assert(ascii_lower_seq(cs@.take(i as int)) =~= ascii_lower_seq(cs@.take(i - 1)) + seq![
            ascii_lower(cs@[i - 1]),
        ]);
    }
    assert(cs@.take(i as int) =~= cs@);
    out
}

/// `str::eq_ignore_ascii_case`.
pub open spec fn eq_ignore_ascii_case(a: Seq<char>, b: Seq<char>) -> bool {
    ascii_lower_seq(a) == ascii_lower_seq(b)
}

pub fn chars_eq_ignore_ascii_case(a: &[char], b: &[char]) -> (r: bool)
    ensures
        r == eq_ignore_ascii_case(a@, b@),
{
    let la = lower_ascii_chars(a);
    let lb = lower_ascii_chars(b);
    chars_eq(&la, &lb)
}

// ---------------------------------------------------------------------------
// Trimming
// ---------------------------------------------------------------------------

/// A pattern for the `trim*` family: whitespace or one fixed character.
#[derive(Clone, Copy)]
pub enum CharPat {
    Whitespace,
    Char(char),
}

pub open spec fn pat_matches(p: CharPat, c: char) -> bool {
    match p {
        CharPat::Whitespace => is_white_space(c),
        CharPat::Char(x) => c == x,
    }
}

pub fn pat_test(p: CharPat, c: char) -> (r: bool)
    ensures
        r == pat_matches(p, c),
{
    match p {
        CharPat::Whitespace => white_space(c),
        CharPat::Char(x) => c == x,
    }
}

/// `trim_start_matches(p)`: drop every leading character matching `p`.
pub open spec fn trim_start_pat(s: Seq<char>, p: CharPat) -> Seq<char>
    decreases s.len(),
{
    if s.len() > 0 && pat_matches(p, s[0]) {
        trim_start_pat(s.drop_first(), p)
    } else {
        s
    }
}

/// `trim_end_matches(p)`: drop every trailing character matching `p`.
pub open spec fn trim_end_pat(s: Seq<char>, p: CharPat) -> Seq<char>
    decreases s.len(),
{
    if s.len() > 0 && pat_matches(p, s.last()) {
        trim_end_pat(s.drop_last(), p)
    } else {
        s
    }
}

/// `str::trim`: both ends, whitespace.
pub open spec fn trim_ws(s: Seq<char>) -> Seq<char> {
    trim_end_pat(trim_start_pat(s, CharPat::Whitespace), CharPat::Whitespace)
}

proof fn lemma_trim_start_skip(s: Seq<char>, p: CharPat, k: int)
    requires
        0 <= k <= s.len(),
        forall|i: int| 0 <= i < k ==> pat_matches(p, #[trigger] s[i]),
        k == s.len() || !pat_matches(p, s[k]),
    ensures
        trim_start_pat(s, p) == s.skip(k),
    decreases k,
{
    if k == 0 {
        assert(s.skip(0) =~= s);
    } else {
        let t = s.drop_first();
        assert forall|i: int| 0 <= i < k - 1 implies pat_matches(p, #[trigger] t[i]) by {
            assert(t[i] == s[i + 1]);
        }
        lemma_trim_start_skip(t, p, k - 1);
        assert(t.skip(k - 1) =~= s.skip(k));
    }
}

proof fn lemma_trim_end_take(s: Seq<char>, p: CharPat, k: int)
    requires
        0 <= k <= s.len(),
        forall|i: int| k <= i < s.len() ==> pat_matches(p, #[trigger] s[i]),
        k == 0 || !pat_matches(p, s[k - 1]),
    ensures
        trim_end_pat(s, p) == s.take(k),
    decreases s.len() - k,
{
    if k == s.len() {
        assert(s.take(k) =~= s);
    } else {
        let t = s.drop_last();
        assert forall|i: int| k <= i < t.len() implies pat_matches(p, #[trigger] t[i]) by {
            assert(t[i] == s[i]);
        }
        lemma_trim_end_take(t, p, k);
        assert(t.take(k) =~= s.take(k));
    }
}

/// Index of the first character not matching `p`.
pub fn leading_end(cs: &[char], p: CharPat) -> (k: usize)
    ensures
        k <= cs@.len(),
        trim_start_pat(cs@, p) == cs@.skip(k as int),
{
    let mut k: usize = 0;
    while k < cs.len() && pat_test(p, cs[k])
        invariant
            0 <= k <= cs@.len(),
            forall|i: int| 0 <= i < k ==> pat_matches(p, #[trigger] cs@[i]),
        decreases cs@.len() - k,
    {
        k = k + 1;
    }
    proof {
        lemma_trim_start_skip(cs@, p, k as int);
    }
    k
}

/// One past the index of the last character not matching `p`.
pub fn trailing_start(cs: &[char], p: CharPat) -> (k: usize)
    ensures
        k <= cs@.len(),
        trim_end_pat(cs@, p) == cs@.take(k as int),
{
    let mut k: usize = cs.len();
    while k > 0 && pat_test(p, cs[k - 1])
        invariant
            0 <= k <= cs@.len(),
            forall|i: int| k <= i < cs@.len() ==> pat_matches(p, #[trigger] cs@[i]),
        decreases k,
    {
        k = k - 1;
    }
    proof {
        lemma_trim_end_take(cs@, p, k as int);
    }
    k
}

pub fn trim_start_chars(cs: &[char], p: CharPat) -> (out: Vec<char>)
    ensures
        out@ == trim_start_pat(cs@, p),
{
    let k = leading_end(cs, p);
    let out = sub_chars(cs, k, cs.len());
    assert(out@ =~= cs@.skip(k as int));
    out
}

pub fn trim_end_chars(cs: &[char], p: CharPat) -> (out: Vec<char>)
    ensures
        out@ == trim_end_pat(cs@, p),
{
    let k = trailing_start(cs, p);
    let out = sub_chars(cs, 0, k);
    assert(out@ =~= cs@.take(k as int));
    out
}

/// `str::trim` on a character sequence.
pub fn trim_chars(cs: &[char]) -> (out: Vec<char>)
    ensures
        out@ == trim_ws(cs@),
{
    let a = trim_start_chars(cs, CharPat::Whitespace);
    trim_end_chars(&a, CharPat::Whitespace)
}

// ---------------------------------------------------------------------------
// Words and lines
// ---------------------------------------------------------------------------

/// Length of the longest prefix of `s` without whitespace.
pub open spec fn word_len(s: Seq<char>) -> nat
    decreases s.len(),
{
    if s.len() == 0 || is_white_space(s[0]) {
        0
    } else {
        1 + word_len(s.drop_first())
    }
}

/// `split_whitespace().next()` together with the text after that word.
pub open spec fn next_word(s: Seq<char>) -> Option<(Seq<char>, Seq<char>)> {
    let t = trim_start_pat(s, CharPat::Whitespace);
    if t.len() == 0 {
        None
    } else {
        Some((t.take(word_len(t) as int), t.skip(word_len(t) as int)))
    }
}

proof fn lemma_word_len(s: Seq<char>, k: int)
    requires
        0 <= k <= s.len(),
        forall|i: int| 0 <= i < k ==> !is_white_space(#[trigger] s[i]),
        k == s.len() || is_white_space(s[k]),
    ensures
        word_len(s) == k,
    decreases k,
{
    if k > 0 {
        let t = s.drop_first();
        assert forall|i: int| 0 <= i < k - 1 implies !is_white_space(#[trigger] t[i]) by {
            assert(t[i] == s[i + 1]);
        }
        lemma_word_len(t, k - 1);
    }
}

/// The first whitespace-separated word of `cs` and the text after it.
pub fn next_word_exec(cs: &[char]) -> (r: Option<(Vec<char>, Vec<char>)>)
    ensures
        match (r, next_word(cs@)) {
            (None, None) => true,
            (Some((w, rest)), Some((w2, rest2))) => w@ == w2 && rest@ == rest2,
            _ => false,
        },
{
    let t = trim_start_chars(cs, CharPat::Whitespace);
    if t.len() == 0 {
        return None;
    }
    let mut k: usize = 0;
    while k < t.len() && !white_space(t[k])
        invariant
            0 <= k <= t@.len(),
            forall|i: int| 0 <= i < k ==> !is_white_space(#[trigger] t@[i]),
        decreases t@.len() - k,
    {
        k = k + 1;
    }
    proof {
        lemma_word_len(t@, k as int);
    }
    let w = sub_chars(&t, 0, k);
    let rest = sub_chars(&t, k, t.len());
    assert(w@ =~= t@.take(k as int));
    assert(rest@ =~= t@.skip(k as int));
    Some((w, rest))
}

/// Index of the first `c` in `s`, or its length when there is none.
pub open spec fn char_index(s: Seq<char>, c: char) -> nat
    decreases s.len(),
{
    if s.len() == 0 || s[0] == c {
        0
    } else {
        1 + char_index(s.drop_first(), c)
    }
}

pub proof fn lemma_char_index(s: Seq<char>, c: char, k: int)
    requires
        0 <= k <= s.len(),
        forall|i: int| 0 <= i < k ==> #[trigger] s[i] != c,
        k == s.len() || s[k] == c,
    ensures
        char_index(s, c) == k,
    decreases k,
{
    if k > 0 {
        let t = s.drop_first();
        assert forall|i: int| 0 <= i < k - 1 implies #[trigger] t[i] != c by {
            assert(t[i] == s[i + 1]);
        }
        lemma_char_index(t, c, k - 1);
    }
}

/// Position of the first `c` at or after `from`, else `cs.len()`.
pub fn find_char(cs: &[char], from: usize, c: char) -> (k: usize)
    requires
        from <= cs@.len(),
    ensures
        from <= k <= cs@.len(),
        k - from == char_index(cs@.skip(from as int), c),
{
    let mut k: usize = from;
    while k < cs.len() && cs[k] != c
        invariant
            from <= k <= cs@.len(),
            forall|i: int| from <= i < k ==> #[trigger] cs@[i] != c,
        decreases cs@.len() - k,
    {
        k = k + 1;
    }
    proof {
        let t = cs@.skip(from as int);
        assert forall|i: int| 0 <= i < k - from implies #[trigger] t[i] != c by {
            assert(t[i] == cs@[from + i]);
        }
        lemma_char_index(t, c, k - from);
    }
    k
}

// ---------------------------------------------------------------------------
// Parsing unsigned decimals (the `FromStr` of unsigned integers)
// ---------------------------------------------------------------------------

pub open spec fn is_ascii_digit(c: char) -> bool {
    '0' <= c <= '9'
}

/// Value of a string of decimal digits.
pub open spec fn digits_value(d: Seq<char>) -> nat
    decreases d.len(),
{
    if d.len() == 0 {
        0
    } else {
        digits_value(d.drop_last()) * 10 + ((d.last() as u32) - 48) as nat
    }
}

/// What unsigned `FromStr` accepts: an optional `+`, then one or more ASCII
/// digits and nothing else; the value before any range check.
pub open spec fn parse_unsigned(s: Seq<char>) -> Option<nat> {
    let d = unsigned_digits(s);
    if d.len() > 0 && all_digits(d) {
        Some(digits_value(d))
    } else {
        None
    }
}

/// The text after an optional leading `+`.
pub open spec fn unsigned_digits(s: Seq<char>) -> Seq<char> {
    if s.len() > 0 && s[0] == '+' {
        s.drop_first()
    } else {
        s
    }
}

pub open spec fn all_digits(d: Seq<char>) -> bool {
    forall|i: int| 0 <= i < d.len() ==> is_ascii_digit(#[trigger] d[i])
}

/// `u64::from_str`.
pub fn parse_u64(cs: &[char]) -> (r: Option<u64>)
    ensures
        match parse_unsigned(cs@) {
            Some(v) => if v <= u64::MAX {
                r == Some(v as u64)
            } else {
                r is None
            },
            None => r is None,
        },
{
    let start: usize = if cs.len() > 0 && cs[0] == '+' {
        1
    } else {
        0
    };
    let ghost d = unsigned_digits(cs@);
    assert(d =~= cs@.skip(start as int));
    if start == cs.len() {
        return None;
    }
    let mut acc: u64 = 0;
    let mut i: usize = start;
    let mut overflow = false;
    while i < cs.len()
        invariant
            start <= i <= cs@.len(),
            d == cs@.skip(start as int),
            d == unsigned_digits(cs@),
            forall|j: int| start <= j < i ==> is_ascii_digit(#[trigger] cs@[j]),
            !overflow ==> acc as nat == digits_value(d.take(i - start)),
            overflow ==> digits_value(d.take(i - start)) > u64::MAX,
        decreases cs@.len() - i,
    {
        let c = cs[i];
        if !('0' <= c && c <= '9') {
            assert(d[i - start] == c);
            assert(!is_ascii_digit(d[i - start]));
            assert(!all_digits(d));
            return None;
        }
        let dv: u64 = ((c as u32) - 48) as u64;
        proof {
            let t = d.take(i + 1 - start);
            assert(t.drop_last() =~= d.take(i - start));
            assert(t.last() == c);
            assert(digits_value(t) == digits_value(d.take(i - start)) * 10 + dv);
        }
        if !overflow {
            if acc > (u64::MAX - dv) / 10 {
                overflow = true;
                assert(acc * 10 + dv > u64::MAX) by (nonlinear_arith)
                    requires
                        acc > (u64::MAX - dv) / 10,
                        dv < 10,
                ;
            } else {
                assert(acc * 10 + dv <= u64::MAX) by (nonlinear_arith)
                    requires
                        acc <= (u64::MAX - dv) / 10,
                        dv < 10,
                ;
                acc = acc * 10 + dv;
            }
        } else {
            assert(digits_value(d.take(i - start)) * 10 + dv > u64::MAX) by (nonlinear_arith)
                requires
                    digits_value(d.take(i - start)) > u64::MAX,
            ;
        }
        i = i + 1;
    }
    assert(d.take(i - start) =~= d);
    assert forall|j: int| 0 <= j < d.len() implies is_ascii_digit(#[trigger] d[j]) by {
        assert(d[j] == cs@[start + j]);
    }
    if overflow {
        None
    } else {
        Some(acc)
    }
}

// ---------------------------------------------------------------------------
// Prefixes and substrings
// ---------------------------------------------------------------------------

pub open spec fn starts_with(s: Seq<char>, pre: Seq<char>) -> bool {
    pre.len() <= s.len() && s.take(pre.len() as int) == pre
}

pub open spec fn occurs_at(s: Seq<char>, pat: Seq<char>, i: int) -> bool {
    0 <= i && i + pat.len() <= s.len() && s.subrange(i, i + pat.len()) == pat
}

/// `str::contains` with a string pattern.
pub open spec fn contains_seq(s: Seq<char>, pat: Seq<char>) -> bool {
    exists|i: int| occurs_at(s, pat, i)
}

pub fn chars_starts_with(s: &[char], pre: &[char]) -> (r: bool)
    ensures
        r == starts_with(s@, pre@),
{
    if pre.len() > s.len() {
        return false;
    }
    let head = sub_chars(s, 0, pre.len());
    assert(head@ =~= s@.take(pre@.len() as int));
    chars_eq(&head, pre)
}

/// Whether `pat` occurs in `s` at position `i`.
fn occurs_at_exec(s: &[char], pat: &[char], i: usize) -> (r: bool)
    requires
        i + pat@.len() <= s@.len(),
    ensures
        r == occurs_at(s@, pat@, i as int),
{
    let n = s.len();
    let mut j: usize = 0;
    while j < pat.len()
        invariant
            n == s@.len(),
            i + pat@.len() <= s@.len(),
            0 <= j <= pat@.len(),
            forall|k: int| 0 <= k < j ==> s@[i + k] == pat@[k],
        decreases pat@.len() - j,
    {
        assert(i + j < s@.len());
        if s[i + j] != pat[j] {
            assert(s@.subrange(i as int, i + pat@.len())[j as int] != pat@[j as int]);
            return false;
        }
        j = j + 1;
    }
    assert(s@.subrange(i as int, i + pat@.len()) =~= pat@);
    true
}

pub fn chars_contains(s: &[char], pat: &[char]) -> (r: bool)
    ensures
        r == contains_seq(s@, pat@),
{
    if pat.len() > s.len() {
        return false;
    }
    let last = s.len() - pat.len();
    let mut i: usize = 0;
    while i <= last
        invariant
            last == s@.len() - pat@.len(),
            0 <= i <= last,
            forall|k: int| 0 <= k < i ==> !occurs_at(s@, pat@, k),
        ensures
            forall|k: int| 0 <= k <= last ==> !occurs_at(s@, pat@, k),
        decreases last - i,
    {
        if occurs_at_exec(s, pat, i) {
            return true;
        }
        if i == last {
            break;
        }
        i = i + 1;
    }
    assert forall|k: int| !occurs_at(s@, pat@, k) by {
        if 0 <= k && k + pat@.len() <= s@.len() {
            assert(k <= last);
        }
    }
    false
}

// ---------------------------------------------------------------------------
// Lexicographic order on characters (the order of `str`'s `Ord`)
// ---------------------------------------------------------------------------

/// Strict lexicographic order by code point; UTF-8 byte order agrees with it.
pub open spec fn seq_lt(a: Seq<char>, b: Seq<char>) -> bool
    decreases a.len(),
{
    if a.len() == 0 {
        b.len() > 0
    } else if b.len() == 0 {
        false
    } else if a[0] != b[0] {
        a[0] < b[0]
    } else {
        seq_lt(a.drop_first(), b.drop_first())
    }
}

pub proof fn lemma_seq_lt_irrefl(a: Seq<char>)
    ensures
        !seq_lt(a, a),
    decreases a.len(),
{
    if a.len() > 0 {
        lemma_seq_lt_irrefl(a.drop_first());
    }
}

pub proof fn lemma_seq_lt_trans(a: Seq<char>, b: Seq<char>, c: Seq<char>)
    requires
        seq_lt(a, b),
        seq_lt(b, c),
    ensures
        seq_lt(a, c),
    decreases a.len(),
{
    if a.len() > 0 && b.len() > 0 && c.len() > 0 {
        if a[0] == b[0] && b[0] == c[0] {
            lemma_seq_lt_trans(a.drop_first(), b.drop_first(), c.drop_first());
        }
    }
}

pub proof fn lemma_seq_lt_total(a: Seq<char>, b: Seq<char>)
    ensures
        seq_lt(a, b) || seq_lt(b, a) || a == b,
    decreases a.len(),
{
    if a.len() > 0 && b.len() > 0 {
        if a[0] == b[0] {
            lemma_seq_lt_total(a.drop_first(), b.drop_first());
            if a.drop_first() == b.drop_first() {
                assert(a =~= seq![a[0]] + a.drop_first());
                assert(b =~= seq![b[0]] + b.drop_first());
            }
        }
    } else if a.len() == 0 && b.len() == 0 {
        assert(a =~= b);
    }
}

/// `a < b` in `str`'s order.
pub fn chars_lt(a: &[char], b: &[char]) -> (r: bool)
    ensures
        r == seq_lt(a@, b@),
{
    let mut i: usize = 0;
    while i < a.len() && i < b.len() && a[i] == b[i]
        invariant
            0 <= i <= a@.len(),
            i <= b@.len(),
            a@.take(i as int) == b@.take(i as int),
        decreases a@.len() - i,
    {
        assert(a@.take(i + 1) =~= a@.take(i as int) + seq![a@[i as int]]);
        assert(b@.take(i + 1) =~= b@.take(i as int) + seq![b@[i as int]]);
        i = i + 1;
    }
    proof {
        lemma_seq_lt_common_prefix(a@, b@, i as int);
    }
    if i < a.len() && i < b.len() {
        a[i] < b[i]
    } else {
        i == a.len() && i < b.len()
    }
}

proof fn lemma_seq_lt_common_prefix(a: Seq<char>, b: Seq<char>, i: int)
    requires
        0 <= i <= a.len(),
        i <= b.len(),
        a.take(i) == b.take(i),
    ensures
        seq_lt(a, b) == seq_lt(a.skip(i), b.skip(i)),
    decreases i,
{
    if i > 0 {
        assert(a[0] == a.take(i)[0]);
        assert(b[0] == b.take(i)[0]);
        assert(a.drop_first().take(i - 1) =~= a.take(i).drop_first());
        assert(b.drop_first().take(i - 1) =~= b.take(i).drop_first());
        lemma_seq_lt_common_prefix(a.drop_first(), b.drop_first(), i - 1);
        assert(a.drop_first().skip(i - 1) =~= a.skip(i));
        assert(b.drop_first().skip(i - 1) =~= b.skip(i));
    } else {
        assert(a.skip(0) =~= a);
        assert(b.skip(0) =~= b);
    }
}

// ---------------------------------------------------------------------------
// Decimal rendering of integers
// ---------------------------------------------------------------------------

pub open spec fn digit_char(d: nat) -> char
    recommends
        d < 10,
{
    ((d + 48) as u32) as char
}

/// Decimal digits of a natural number (no sign, no leading zeros).
pub open spec fn dec(n: nat) -> Seq<char>
    decreases n,
{
    if n < 10 {
        seq![digit_char(n)]
    } else {
        dec(n / 10).push(digit_char(n % 10))
    }
}

/// `Display` of a signed integer.
pub open spec fn int_str(n: int) -> Seq<char> {
    if n < 0 {
        seq!['-'] + dec((-n) as nat)
    } else {
        dec(n as nat)
    }
}

/// `{:02}` of a signed integer: sign first, then zeros up to two characters.
pub open spec fn pad2(n: int) -> Seq<char> {
    if 0 <= n < 10 {
        seq!['0'] + dec(n as nat)
    } else {
        int_str(n)
    }
}

/// Decimal rendering reads back: the digits of `n` are one or more ASCII
/// digits whose value is `n`.
pub proof fn lemma_dec_reads_back(n: nat)
    ensures
        dec(n).len() >= 1,
        n >= 10 ==> dec(n).len() >= 2,
        all_digits(dec(n)),
        digits_value(dec(n)) == n,
    decreases n,
{
    let d = digit_char(n % 10);
    assert((d as u32) == (n % 10) + 48);
    assert((((d as u32) - 48) as nat) == n % 10);
    if n < 10 {
        assert(dec(n).drop_last() =~= Seq::<char>::empty());
        assert(digits_value(Seq::<char>::empty()) == 0);
        assert(dec(n).last() == d);
        assert(digits_value(dec(n)) == digits_value(dec(n).drop_last()) * 10 + (((d as u32)
            - 48) as nat));
    } else {
        lemma_dec_reads_back(n / 10);
        assert(dec(n).drop_last() =~= dec(n / 10));
        assert(dec(n).last() == d);
        assert(digits_value(dec(n)) == digits_value(dec(n / 10)) * 10 + (((d as u32) - 48) as nat));
        assert((n / 10) * 10 + n % 10 == n);
    }
}

/// A leading zero does not change the value of a digit string.
pub proof fn lemma_leading_zero(d: Seq<char>)
    requires
        all_digits(d),
    ensures
        all_digits(seq!['0'] + d),
        digits_value(seq!['0'] + d) == digits_value(d),
    decreases d.len(),
{
    let z = seq!['0'] + d;
    assert forall|i: int| 0 <= i < z.len() implies is_ascii_digit(#[trigger] z[i]) by {
        if i > 0 {
            assert(z[i] == d[i - 1]);
        }
    }
    if d.len() == 0 {
        assert(z.drop_last() =~= Seq::<char>::empty());
        assert(digits_value(Seq::<char>::empty()) == 0);
        assert(z.last() == '0');
        assert(digits_value(z) == digits_value(z.drop_last()) * 10 + ((('0' as u32) - 48) as nat));
    } else {
        let dl = d.drop_last();
        assert(all_digits(dl)) by {
            assert forall|i: int| 0 <= i < dl.len() implies is_ascii_digit(#[trigger] dl[i]) by {
                assert(dl[i] == d[i]);
            }
        }
        lemma_leading_zero(dl);
        assert(z.drop_last() =~= seq!['0'] + dl);
        assert(z.last() == d.last());
        assert(digits_value(z) == digits_value(seq!['0'] + dl) * 10 + (((d.last() as u32) - 48) as nat));
    }
}

/// `{:02}` of a non-negative number reads back: at least two ASCII digits
/// whose value is the number.
pub proof fn lemma_pad2_reads_back(n: int)
    requires
        n >= 0,
    ensures
        pad2(n).len() >= 2,
        all_digits(pad2(n)),
        digits_value(pad2(n)) == n,
{
    lemma_dec_reads_back(n as nat);
    if n < 10 {
        lemma_leading_zero(dec(n as nat));
    }
}

fn digit(d: u64) -> (c: char)
    requires
        d < 10,
    ensures
        c == digit_char(d as nat),
{
    let c = char_from_ascii_code((d + 48) as u8);
    c
}

/// Decimal digits of `n`.
pub fn dec_chars(n: u64) -> (out: Vec<char>)
    ensures
        out@ == dec(n as nat),
    decreases n,
{
    if n < 10 {
        let mut out: Vec<char> = Vec::new();
        out.push(digit(n));
        out
    } else {
        let mut out = dec_chars(n / 10);
        out.push(digit(n % 10));
        out
    }
}

/// `n.to_string()` for a signed integer.
pub fn i64_chars(n: i64) -> (out: Vec<char>)
    ensures
        out@ == int_str(n as int),
{
    if n < 0 {
        let mut out: Vec<char> = Vec::new();
        out.push('-');
        let mag: u64 = if n == i64::MIN {
            9223372036854775808u64
        } else {
            (-n) as u64
        };
        let d = dec_chars(mag);
        push_chars(&mut out, &d);
        out
    } else {
        dec_chars(n as u64)
    }
}

/// `format!("{:02}", n)`.
pub fn pad2_chars(n: i64) -> (out: Vec<char>)
    ensures
        out@ == pad2(n as int),
{
    if 0 <= n && n < 10 {
        let mut out: Vec<char> = Vec::new();
        out.push('0');
        out.push(digit(n as u64));
        assert(dec(n as nat) =~= seq![digit_char(n as nat)]);
        assert(out@ =~= seq!['0'] + dec(n as nat));
        out
    } else {
        i64_chars(n)
    }
}

} // verus!

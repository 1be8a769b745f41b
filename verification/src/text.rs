//! Character-level text operations, each with its mathematical meaning over `Seq<char>`.

use vstd::prelude::*;

verus! {

/// Appends one character to a string.
///
/// Wraps `String::push`; the contract says that the string grows by exactly that character.
#[verifier::external_body]
pub(crate) fn push_char(s: &mut String, c: char)
    ensures
        final(s)@ == old(s)@.push(c),
{
    s.push(c)
}

/// The characters of a string, in order.
pub fn to_chars(s: &str) -> (chars: Vec<char>)
    ensures
        chars@ == s@,
{
    let mut chars: Vec<char> = Vec::new();
    for c in it: s.chars()
        invariant
            chars@ == it.seq().take(it.index() as int),
            it.seq() == s@,
    {
        chars.push(c);
    }
    chars
}

/// The string made of the characters `chars[from..to]`.
pub fn from_chars(chars: &Vec<char>, from: usize, to: usize) -> (s: String)
    requires
        from <= to <= chars.len(),
    ensures
        s@ == chars@.subrange(from as int, to as int),
{
    let mut s = String::new();
    let mut i: usize = from;
    while i < to
        invariant
            from <= i <= to <= chars.len(),
            s@ == chars@.subrange(from as int, i as int),
        decreases to - i,
    {
        push_char(&mut s, chars[i]);
        i += 1;
    }
    s
}

/// Whether two strings hold the same characters.
pub fn same_text(a: &str, b: &str) -> (same: bool)
    ensures
        same == (a@ == b@),
{
    let x = to_chars(a);
    let y = to_chars(b);
    same_chars(&x, &y)
}

/// Whether two character vectors are equal.
pub fn same_chars(a: &Vec<char>, b: &Vec<char>) -> (same: bool)
    ensures
        same == (a@ == b@),
{
    if a.len() != b.len() {
        return false;
    }
    let mut i: usize = 0;
    while i < a.len()
        invariant
            a.len() == b.len(),
            i <= a.len(),
            a@.take(i as int) == b@.take(i as int),
        decreases a.len() - i,
    {
        if a[i] != b[i] {
            return false;
        }
        assert(a@.take(i + 1) == a@.take(i as int).push(a@[i as int]));
        assert(b@.take(i + 1) == b@.take(i as int).push(b@[i as int]));
        i += 1;
    }
    assert(a@.take(a.len() as int) == a@);
    assert(b@.take(b.len() as int) == b@);
    true
}

/// The white space of Unicode (the property `White_Space`).
pub open spec fn is_whitespace(c: char) -> bool {
    let u = c as u32;
    ||| 0x09 <= u <= 0x0D
    ||| u == 0x20
    ||| u == 0x85
    ||| u == 0xA0
    ||| u == 0x1680
    ||| 0x2000 <= u <= 0x200A
    ||| u == 0x2028
    ||| u == 0x2029
    ||| u == 0x202F
    ||| u == 0x205F
    ||| u == 0x3000
}

/// Decides `is_whitespace`.
pub fn char_is_whitespace(c: char) -> (w: bool)
    ensures
        w == is_whitespace(c),
{
    let u: u32 = c as u32;
    (0x09 <= u && u <= 0x0D) || u == 0x20 || u == 0x85 || u == 0xA0 || u == 0x1680 || (0x2000 <= u
        && u <= 0x200A) || u == 0x2028 || u == 0x2029 || u == 0x202F || u == 0x205F || u == 0x3000
}

/// How many white-space characters `s` begins with.
pub open spec fn leading_whitespace(s: Seq<char>) -> nat
    decreases s.len(),
{
    if s.len() > 0 && is_whitespace(s[0]) {
        1 + leading_whitespace(s.drop_first())
    } else {
        0
    }
}

/// How many white-space characters `s` ends with.
pub open spec fn trailing_whitespace(s: Seq<char>) -> nat
    decreases s.len(),
{
    if s.len() > 0 && is_whitespace(s.last()) {
        1 + trailing_whitespace(s.drop_last())
    } else {
        0
    }
}

/// `s` without the white space it begins with.
pub open spec fn trim_start(s: Seq<char>) -> Seq<char> {
    s.skip(leading_whitespace(s) as int)
}

/// `s` without the white space around it.
pub open spec fn trimmed(s: Seq<char>) -> Seq<char> {
    let t = trim_start(s);
    t.take(t.len() - trailing_whitespace(t))
}

/// A count of leading white space is the index of the first character that is none.
pub proof fn lemma_leading_whitespace(s: Seq<char>, n: int)
    requires
        0 <= n <= s.len(),
        forall|k: int| 0 <= k < n ==> is_whitespace(#[trigger] s[k]),
        n == s.len() || !is_whitespace(s[n]),
    ensures
        leading_whitespace(s) == n,
    decreases n,
{
    if n > 0 {
        let rest = s.drop_first();
        assert forall|k: int| 0 <= k < n - 1 implies is_whitespace(#[trigger] rest[k]) by {
            assert(rest[k] == s[k + 1]);
        }
        lemma_leading_whitespace(rest, n - 1);
    }
}

/// A count of trailing white space ends at the last character that is none.
pub proof fn lemma_trailing_whitespace(s: Seq<char>, n: int)
    requires
        0 <= n <= s.len(),
        forall|k: int| s.len() - n <= k < s.len() ==> is_whitespace(#[trigger] s[k]),
        n == s.len() || !is_whitespace(s[s.len() - n - 1]),
    ensures
        trailing_whitespace(s) == n,
    decreases n,
{
    if n > 0 {
        let rest = s.drop_last();
        assert forall|k: int| rest.len() - (n - 1) <= k < rest.len() implies is_whitespace(
            #[trigger] rest[k],
        ) by {
            assert(rest[k] == s[k]);
        }
        lemma_trailing_whitespace(rest, n - 1);
    }
}

/// The bounds of `trimmed`: `chars[start..end]` is `chars` without the white space around it.
pub fn trim_bounds(chars: &Vec<char>) -> (bounds: (usize, usize))
    ensures
        bounds.0 <= bounds.1 <= chars.len(),
        chars@.subrange(bounds.0 as int, bounds.1 as int) == trimmed(chars@),
        bounds.0 == leading_whitespace(chars@),
{
    let n = chars.len();
    let mut start: usize = 0;
    while start < n && char_is_whitespace(chars[start])
        invariant
            start <= n == chars.len(),
            forall|k: int| 0 <= k < start ==> is_whitespace(#[trigger] chars@[k]),
        decreases n - start,
    {
        start += 1;
    }
    let mut end: usize = n;
    while end > start && char_is_whitespace(chars[end - 1])
        invariant
            start <= end <= n == chars.len(),
            forall|k: int| end <= k < n ==> is_whitespace(#[trigger] chars@[k]),
        decreases end,
    {
        end -= 1;
    }
    proof {
        lemma_leading_whitespace(chars@, start as int);
        let t = trim_start(chars@);
        assert(t == chars@.skip(start as int));
        assert forall|k: int| t.len() - (n - end) <= k < t.len() implies is_whitespace(
            #[trigger] t[k],
        ) by {
            assert(t[k] == chars@[k + start]);
        }
        lemma_trailing_whitespace(t, (n - end) as int);
        assert(t.take(t.len() - (n - end)) == chars@.subrange(start as int, end as int));
    }
    (start, end)
}

/// What `leading_whitespace` counts: white space up to the count, and none right after it.
pub proof fn lemma_leading_whitespace_counts(s: Seq<char>)
    ensures
        leading_whitespace(s) <= s.len(),
        forall|k: int| 0 <= k < leading_whitespace(s) ==> is_whitespace(#[trigger] s[k]),
        leading_whitespace(s) < s.len() ==> !is_whitespace(s[leading_whitespace(s) as int]),
    decreases s.len(),
{
    if s.len() > 0 && is_whitespace(s[0]) {
        let rest = s.drop_first();
        lemma_leading_whitespace_counts(rest);
        assert forall|k: int| 0 <= k < leading_whitespace(s) implies is_whitespace(
            #[trigger] s[k],
        ) by {
            if k > 0 {
                assert(s[k] == rest[k - 1]);
            }
        }
        if leading_whitespace(s) < s.len() {
            assert(s[leading_whitespace(s) as int] == rest[leading_whitespace(rest) as int]);
        }
    }
}

/// What `trailing_whitespace` counts: white space from the count on, and none right before it.
pub proof fn lemma_trailing_whitespace_counts(s: Seq<char>)
    ensures
        trailing_whitespace(s) <= s.len(),
        forall|k: int|
            s.len() - trailing_whitespace(s) <= k < s.len() ==> is_whitespace(#[trigger] s[k]),
        trailing_whitespace(s) < s.len() ==> !is_whitespace(
            s[s.len() - trailing_whitespace(s) - 1],
        ),
    decreases s.len(),
{
    if s.len() > 0 && is_whitespace(s.last()) {
        let rest = s.drop_last();
        lemma_trailing_whitespace_counts(rest);
        assert forall|k: int|
            s.len() - trailing_whitespace(s) <= k < s.len() implies is_whitespace(
            #[trigger] s[k],
        ) by {
            if k < s.len() - 1 {
                assert(s[k] == rest[k]);
            }
        }
        if trailing_whitespace(s) < s.len() {
            assert(s[s.len() - trailing_whitespace(s) - 1] == rest[rest.len() - trailing_whitespace(
                rest,
            ) - 1]);
        }
    }
}

/// The start and the end of `trimmed(s)` inside `s`.
pub open spec fn trim_range(s: Seq<char>) -> (int, int) {
    let start = leading_whitespace(s) as int;
    (start, s.len() - trailing_whitespace(trim_start(s)))
}

/// `trimmed(s)` is the part of `s` between the bounds of `trim_range`.
pub proof fn lemma_trimmed_is_range(s: Seq<char>)
    ensures
        0 <= trim_range(s).0 <= trim_range(s).1 <= s.len(),
        trimmed(s) == s.subrange(trim_range(s).0, trim_range(s).1),
{
    lemma_leading_whitespace_counts(s);
    lemma_trailing_whitespace_counts(trim_start(s));
    assert(trimmed(s) =~= s.subrange(trim_range(s).0, trim_range(s).1));
}

/// A trimmed text neither begins nor ends with white space.
pub proof fn lemma_trimmed_edges(s: Seq<char>)
    ensures
        trimmed(s).len() > 0 ==> !is_whitespace(trimmed(s).first()) && !is_whitespace(
            trimmed(s).last(),
        ),
        leading_whitespace(trimmed(s)) == 0,
        trailing_whitespace(trimmed(s)) == 0,
        trimmed(trimmed(s)) == trimmed(s),
{
    let t = trim_start(s);
    lemma_leading_whitespace_counts(s);
    lemma_trailing_whitespace_counts(t);
    let r = trimmed(s);
    if r.len() > 0 {
        assert(r.last() == t[t.len() - trailing_whitespace(t) - 1]);
        assert(r.first() == t[0]);
        assert(t[0] == s[leading_whitespace(s) as int]);
    }
    assert(r.skip(0) =~= r);
    assert(r.take(r.len() as int) =~= r);
}

/// `pattern` stands in `text` at index `i`.
pub open spec fn occurs_at(text: Seq<char>, pattern: Seq<char>, i: int) -> bool {
    0 <= i && i + pattern.len() <= text.len() && text.subrange(i, i + pattern.len()) == pattern
}

/// `pattern` stands somewhere in `text`.
pub open spec fn contains(text: Seq<char>, pattern: Seq<char>) -> bool {
    exists|i: int| occurs_at(text, pattern, i)
}

/// `pattern` stands in `text` at index `i` and nowhere before.
pub open spec fn first_occurs_at(text: Seq<char>, pattern: Seq<char>, i: int) -> bool {
    occurs_at(text, pattern, i) && forall|j: int| 0 <= j < i ==> !occurs_at(text, pattern, j)
}

/// The index of the first occurrence of `pattern` in a `text` that contains it.
pub open spec fn first_occurrence(text: Seq<char>, pattern: Seq<char>) -> int {
    choose|i: int| first_occurs_at(text, pattern, i)
}

/// `text` without the `len` characters from index `i` on.
pub open spec fn cut(text: Seq<char>, i: int, len: int) -> Seq<char> {
    text.take(i) + text.skip(i + len)
}

/// `text` without the first occurrence of `pattern`; `text` itself where there is none.
pub open spec fn without_first(text: Seq<char>, pattern: Seq<char>) -> Seq<char> {
    if contains(text, pattern) {
        cut(text, first_occurrence(text, pattern), pattern.len() as int)
    } else {
        text
    }
}

/// There is one first occurrence at most, and `first_occurrence` names it.
pub proof fn lemma_first_occurrence(text: Seq<char>, pattern: Seq<char>, i: int)
    requires
        first_occurs_at(text, pattern, i),
    ensures
        contains(text, pattern),
        first_occurrence(text, pattern) == i,
{
    let j = first_occurrence(text, pattern);
    assert(first_occurs_at(text, pattern, j));
    if j < i {
        assert(!occurs_at(text, pattern, j));
    }
    if i < j {
        assert(!occurs_at(text, pattern, i));
    }
}

/// Decides `occurs_at`.
pub fn matches_at(text: &Vec<char>, pattern: &Vec<char>, i: usize) -> (m: bool)
    requires
        i + pattern.len() <= text.len(),
    ensures
        m == occurs_at(text@, pattern@, i as int),
{
    let mut k: usize = 0;
    while k < pattern.len()
        invariant
            i + pattern.len() <= text.len(),
            k <= pattern.len(),
            forall|j: int| 0 <= j < k ==> text@[i + j] == pattern@[j],
        decreases pattern.len() - k,
    {
        if text[i + k] != pattern[k] {
            assert(text@.subrange(i as int, i + pattern.len())[k as int] != pattern@[k as int]);
            return false;
        }
        k += 1;
    }
    assert(text@.subrange(i as int, i + pattern.len()) =~= pattern@);
    true
}

/// The index of the first occurrence of `pattern` in `text`, if there is one.
pub fn find(text: &Vec<char>, pattern: &Vec<char>) -> (found: Option<usize>)
    ensures
        found is Some <==> contains(text@, pattern@),
        found is Some ==> first_occurs_at(text@, pattern@, found->0 as int),
{
    let n = text.len();
    let m = pattern.len();
    if m > n {
        return None;
    }
    let mut i: usize = 0;
    while i < n - m
        invariant
            m <= n,
            n == text.len(),
            m == pattern.len(),
            i <= n - m,
            forall|j: int| 0 <= j < i ==> !occurs_at(text@, pattern@, j),
        decreases n - m - i,
    {
        if matches_at(text, pattern, i) {
            return Some(i);
        }
        i += 1;
    }
    if matches_at(text, pattern, i) {
        Some(i)
    } else {
        None
    }
}

/// The characters of `text` without the `len` characters from index `i` on.
pub fn cut_out(text: &Vec<char>, i: usize, len: usize) -> (rest: Vec<char>)
    requires
        i + len <= text.len(),
    ensures
        rest@ == cut(text@, i as int, len as int),
{
    let mut rest: Vec<char> = Vec::new();
    let mut k: usize = 0;
    while k < i
        invariant
            k <= i <= text.len(),
            rest@ == text@.take(k as int),
        decreases i - k,
    {
        rest.push(text[k]);
        assert(text@.take(k + 1) == text@.take(k as int).push(text@[k as int]));
        k += 1;
    }
    let mut k: usize = i + len;
    while k < text.len()
        invariant
            i + len <= k <= text.len(),
            rest@ == text@.take(i as int) + text@.subrange(i + len, k as int),
        decreases text.len() - k,
    {
        rest.push(text[k]);
        assert(text@.subrange(i + len, k + 1) == text@.subrange(i + len, k as int).push(
            text@[k as int],
        ));
        k += 1;
    }
    assert(text@.subrange(i + len, text.len() as int) == text@.skip(i + len));
    rest
}

/// What stands in a part of a text stands in the text.
pub proof fn lemma_contains_in_part(text: Seq<char>, from: int, to: int, pattern: Seq<char>)
    requires
        0 <= from <= to <= text.len(),
        contains(text.subrange(from, to), pattern),
    ensures
        contains(text, pattern),
{
    let part = text.subrange(from, to);
    let i = choose|i: int| occurs_at(part, pattern, i);
    assert(text.subrange(from + i, from + i + pattern.len()) =~= part.subrange(
        i,
        i + pattern.len(),
    ));
    assert(occurs_at(text, pattern, from + i));
}

/// What stands in a trimmed text stands in the text.
pub proof fn lemma_contains_in_trimmed(text: Seq<char>, pattern: Seq<char>)
    requires
        contains(trimmed(text), pattern),
    ensures
        contains(text, pattern),
{
    lemma_trimmed_is_range(text);
    lemma_contains_in_part(text, trim_range(text).0, trim_range(text).1, pattern);
}

/// Trimming loses no pattern that neither begins nor ends with white space.
pub proof fn lemma_trimmed_keeps(text: Seq<char>, pattern: Seq<char>)
    requires
        contains(text, pattern),
        pattern.len() > 0,
        !is_whitespace(pattern.first()),
        !is_whitespace(pattern.last()),
    ensures
        contains(trimmed(text), pattern),
{
    let i = choose|i: int| occurs_at(text, pattern, i);
    let m = pattern.len() as int;
    let (start, end) = trim_range(text);
    let t = trim_start(text);
    lemma_trimmed_is_range(text);
    lemma_leading_whitespace_counts(text);
    lemma_trailing_whitespace_counts(t);
    assert(text.subrange(i, i + m)[0] == text[i]);
    assert(text.subrange(i, i + m)[m - 1] == text[i + m - 1]);
    if i < start {
        assert(is_whitespace(text[i]));
    }
    if i + m > end {
        assert(t[i + m - 1 - start] == text[i + m - 1]);
        assert(is_whitespace(t[i + m - 1 - start]));
    }
    assert(trimmed(text).subrange(i - start, i - start + m) =~= text.subrange(i, i + m));
    assert(occurs_at(trimmed(text), pattern, i - start));
}

/// The texts of a sequence of strings.
pub open spec fn texts(strings: Seq<String>) -> Seq<Seq<char>> {
    Seq::new(strings.len(), |i: int| strings[i]@)
}

/// How many characters that are no white space `s` begins with.
pub open spec fn word_length(s: Seq<char>) -> nat
    decreases s.len(),
{
    if s.len() > 0 && !is_whitespace(s[0]) {
        1 + word_length(s.drop_first())
    } else {
        0
    }
}

/// The words of `s`: its longest runs of characters that are no white space, in order.
pub open spec fn tokens(s: Seq<char>) -> Seq<Seq<char>>
    decreases s.len(),
{
    if s.len() == 0 {
        Seq::empty()
    } else if is_whitespace(s[0]) {
        tokens(s.drop_first())
    } else {
        let n = word_length(s) as int;
        if 0 < n <= s.len() {
            seq![s.take(n)] + tokens(s.skip(n))
        } else {
            Seq::empty()
        }
    }
}

/// A count of leading characters that are no white space is the index of the first white
/// space.
pub proof fn lemma_word_length(s: Seq<char>, n: int)
    requires
        0 <= n <= s.len(),
        forall|k: int| 0 <= k < n ==> !is_whitespace(#[trigger] s[k]),
        n == s.len() || is_whitespace(s[n]),
    ensures
        word_length(s) == n,
    decreases n,
{
    if n > 0 {
        let rest = s.drop_first();
        assert forall|k: int| 0 <= k < n - 1 implies !is_whitespace(#[trigger] rest[k]) by {
            assert(rest[k] == s[k + 1]);
        }
        lemma_word_length(rest, n - 1);
    }
}

/// Splits a text into its words.
pub fn tokenize(chars: &Vec<char>) -> (words: Vec<String>)
    ensures
        texts(words@) == tokens(chars@),
{
    let n = chars.len();
    let mut words: Vec<String> = Vec::new();
    let mut i: usize = 0;
    assert(chars@.skip(0) == chars@);
    assert(texts(words@) =~= Seq::<Seq<char>>::empty());
    while i < n
        invariant
            i <= n == chars.len(),
            texts(words@) + tokens(chars@.skip(i as int)) == tokens(chars@),
        decreases n - i,
    {
        let ghost rest = chars@.skip(i as int);
        if char_is_whitespace(chars[i]) {
            assert(rest.drop_first() == chars@.skip(i + 1));
            i += 1;
        } else {
            let mut j: usize = i + 1;
            while j < n && !char_is_whitespace(chars[j])
                invariant
                    i < j <= n == chars.len(),
                    forall|k: int| i <= k < j ==> !is_whitespace(#[trigger] chars@[k]),
                decreases n - j,
            {
                j += 1;
            }
            let word = from_chars(chars, i, j);
            proof {
                assert forall|k: int| 0 <= k < j - i implies !is_whitespace(#[trigger] rest[k]) by {
                    assert(rest[k] == chars@[i + k]);
                }
                lemma_word_length(rest, j - i);
                assert(rest.take(j - i) == chars@.subrange(i as int, j as int));
                assert(rest.skip(j - i) == chars@.skip(j as int));
                assert(texts(words@.push(word)) =~= texts(words@) + seq![word@]);
            }
            words.push(word);
            i = j;
        }
    }
    assert(tokens(chars@.skip(n as int)) =~= Seq::<Seq<char>>::empty());
    words
}

/// A capital letter of ASCII as the small one; any other character as it is.
pub open spec fn ascii_lower(c: char) -> char {
    if 'A' <= c <= 'Z' {
        ((c as u8) + 32) as char
    } else {
        c
    }
}

/// Decides `ascii_lower`.
pub fn ascii_lower_of(c: char) -> (lower: char)
    ensures
        lower == ascii_lower(c),
{
    if 'A' <= c && c <= 'Z' {
        ((c as u8) + 32) as char
    } else {
        c
    }
}

/// Whether `word` is `lower` once its capital letters of ASCII are made small.
pub open spec fn folds_to(word: Seq<char>, lower: Seq<char>) -> bool {
    word.len() == lower.len() && forall|i: int|
        0 <= i < word.len() ==> ascii_lower(#[trigger] word[i]) == lower[i]
}

/// Decides `folds_to`.
pub fn word_folds_to(word: &str, lower: &str) -> (folds: bool)
    ensures
        folds == folds_to(word@, lower@),
{
    let w = to_chars(word);
    let l = to_chars(lower);
    if w.len() != l.len() {
        return false;
    }
    let mut i: usize = 0;
    while i < w.len()
        invariant
            w.len() == l.len(),
            w@ == word@,
            l@ == lower@,
            i <= w.len(),
            forall|k: int| 0 <= k < i ==> ascii_lower(#[trigger] w@[k]) == l@[k],
        decreases w.len() - i,
    {
        if ascii_lower_of(w[i]) != l[i] {
            return false;
        }
        i += 1;
    }
    true
}

/// The word `please`, whatever the case of its letters.
pub open spec fn is_please(word: Seq<char>) -> bool {
    folds_to(word, "please"@)
}

/// Decides `is_please`.
pub fn word_is_please(word: &str) -> (please: bool)
    ensures
        please == is_please(word@),
{
    word_folds_to(word, "please")
}

/// The three texts, one after the other.
pub fn join3(a: &str, b: &str, c: &str) -> (joined: String)
    ensures
        joined@ == a@ + b@ + c@,
{
    let mut joined = a.to_owned();
    joined.append(b);
    joined.append(c);
    joined
}

/// The four texts, one after the other.
pub fn join4(a: &str, b: &str, c: &str, d: &str) -> (joined: String)
    ensures
        joined@ == a@ + b@ + c@ + d@,
{
    let mut joined = join3(a, b, c);
    joined.append(d);
    joined
}

/// The five texts, one after the other.
pub fn join5(a: &str, b: &str, c: &str, d: &str, e: &str) -> (joined: String)
    ensures
        joined@ == a@ + b@ + c@ + d@ + e@,
{
    let mut joined = join4(a, b, c, d);
    joined.append(e);
    joined
}

/// The error of UTF-8 decoding, opaque to the verifier.
#[verifier::external_type_specification]
#[verifier::external_body]
pub struct ExUtf8Error(std::str::Utf8Error);

/// What `std::str::from_utf8` makes of bytes: the text, or the message of the error.
pub uninterp spec fn utf8_decoding(bytes: Seq<u8>) -> Result<Seq<char>, Seq<char>>;

/// The message that an error of UTF-8 decoding displays.
pub uninterp spec fn utf8_error_message(error: std::str::Utf8Error) -> Seq<char>;

/// Reads bytes as UTF-8.
///
/// Wraps `std::str::from_utf8`: a string that comes back has the given bytes. The contract
/// names the outcome `utf8_decoding(bytes)`, and says nothing of which bytes are read.
#[verifier::external_body]
pub(crate) fn utf8_text(bytes: &[u8]) -> (text: Result<&str, std::str::Utf8Error>)
    ensures
        match text {
            Ok(s) => vstd::utf8::encode_utf8(s@) == bytes@ && utf8_decoding(bytes@) == Ok::<
                Seq<char>,
                Seq<char>,
            >(s@),
            Err(error) => utf8_decoding(bytes@) == Err::<Seq<char>, Seq<char>>(
                utf8_error_message(error),
            ),
        },
{
    std::str::from_utf8(bytes)
}

/// The message of an error of UTF-8 decoding.
///
/// Wraps `to_string` on `std::str::Utf8Error`, which renders the error through its `Display`.
#[verifier::external_body]
pub(crate) fn utf8_error_text(error: &std::str::Utf8Error) -> (message: String)
    ensures
        message@ == utf8_error_message(*error),
{
    error.to_string()
}

/// How many characters other than `separator` `s` begins with.
pub open spec fn piece_length(s: Seq<char>, separator: char) -> nat
    decreases s.len(),
{
    if s.len() > 0 && s[0] != separator {
        1 + piece_length(s.drop_first(), separator)
    } else {
        0
    }
}

/// The pieces of `s` between the separators, empty ones included; one piece more than there
/// are separators.
pub open spec fn split(s: Seq<char>, separator: char) -> Seq<Seq<char>>
    decreases s.len(),
{
    let n = piece_length(s, separator) as int;
    if 0 <= n < s.len() {
        seq![s.take(n)] + split(s.skip(n + 1), separator)
    } else {
        seq![s]
    }
}

/// A count of leading characters other than the separator is the index of the first
/// separator.
pub proof fn lemma_piece_length(s: Seq<char>, separator: char, n: int)
    requires
        0 <= n <= s.len(),
        forall|k: int| 0 <= k < n ==> #[trigger] s[k] != separator,
        n == s.len() || s[n] == separator,
    ensures
        piece_length(s, separator) == n,
    decreases n,
{
    if n > 0 {
        let rest = s.drop_first();
        assert forall|k: int| 0 <= k < n - 1 implies #[trigger] rest[k] != separator by {
            assert(rest[k] == s[k + 1]);
        }
        lemma_piece_length(rest, separator, n - 1);
    }
}

/// Splits a text at each separator.
pub fn split_on(chars: &Vec<char>, separator: char) -> (pieces: Vec<String>)
    ensures
        texts(pieces@) == split(chars@, separator),
{
    let n = chars.len();
    let mut pieces: Vec<String> = Vec::new();
    let mut start: usize = 0;
    assert(chars@.skip(0) == chars@);
    assert(texts(pieces@) =~= Seq::<Seq<char>>::empty());
    loop
        invariant_except_break
            texts(pieces@) + split(chars@.skip(start as int), separator) == split(
                chars@,
                separator,
            ),
        invariant
            start <= n == chars.len(),
        ensures
            texts(pieces@) == split(chars@, separator),
        decreases n - start,
    {
        let ghost rest = chars@.skip(start as int);
        let mut end: usize = start;
        while end < n && chars[end] != separator
            invariant
                start <= end <= n == chars.len(),
                forall|k: int| start <= k < end ==> #[trigger] chars@[k] != separator,
            decreases n - end,
        {
            end += 1;
        }
        let piece = from_chars(chars, start, end);
        proof {
            assert forall|k: int| 0 <= k < end - start implies #[trigger] rest[k] != separator by {
                assert(rest[k] == chars@[start + k]);
            }
            lemma_piece_length(rest, separator, end - start);
            assert(texts(pieces@.push(piece)) =~= texts(pieces@) + seq![piece@]);
            assert(chars@.subrange(start as int, end as int) == rest.take(end - start));
        }
        pieces.push(piece);
        if end == n {
            assert(rest.take(end - start) == rest);
            break;
        }
        assert(rest.skip(end - start + 1) == chars@.skip(end + 1));
        start = end + 1;
    }
    pieces
}

} // verus!

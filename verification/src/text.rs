use vstd::prelude::*;
use vstd::std_specs::iter::IteratorSpec;

verus! {

/// `String::push` appends one character at the end of the string.
pub assume_specification[ String::push ](s: &mut String, ch: char)
    ensures
        final(s)@ == old(s)@.push(ch),
;

/// The characters of a string slice, in order.
pub fn chars_of(s: &str) -> (v: Vec<char>)
    ensures
        v@ == s@,
{
    let mut v: Vec<char> = Vec::new();
    for c in it: s.chars()
        invariant
            it.seq() == s@,
            v@ == s@.take(it.index() as int),
    {
        v.push(c);
    }
    v
}

/// The string made of the characters `chars[from..to]`.
pub fn string_of_range(chars: &Vec<char>, from: usize, to: usize) -> (s: String)
    requires
        from <= to <= chars.len(),
    ensures
        s@ == chars@.subrange(from as int, to as int),
{
    let mut s = String::new();
    let mut i: usize = from;
    while i < to
        invariant
            from <= i <= to <= chars.len(),
            s@ == chars@.subrange(from as int, i as int),
        decreases to - i,
    {
        s.push(chars[i]);
        i += 1;
    }
    s
}

/// The string made of the given characters, in order.
pub fn string_of(chars: &Vec<char>) -> (s: String)
    ensures
        s@ == chars@,
{
    string_of_range(chars, 0, chars.len())
}

/// Whether two strings hold the same characters.
pub fn str_eq(a: &str, b: &str) -> (same: bool)
    ensures
        same == (a@ == b@),
{
    let x = chars_of(a);
    chars_eq_str(&x, b)
}

/// Unicode white space, the characters that `str::trim` and
/// `str::split_whitespace` treat as separators.
pub open spec fn is_whitespace(c: char) -> bool {
    let u = c as u32;
    (0x09 <= u && u <= 0x0d) || u == 0x20 || u == 0x85 || u == 0xa0 || u == 0x1680 || (0x2000 <= u
        && u <= 0x200a) || u == 0x2028 || u == 0x2029 || u == 0x202f || u == 0x205f || u == 0x3000
}

pub fn char_is_whitespace(c: char) -> (b: bool)
    ensures
        b == is_whitespace(c),
{
    let u: u32 = c as u32;
    (0x09 <= u && u <= 0x0d) || u == 0x20 || u == 0x85 || u == 0xa0 || u == 0x1680 || (0x2000 <= u
        && u <= 0x200a) || u == 0x2028 || u == 0x2029 || u == 0x202f || u == 0x205f || u == 0x3000
}

/// The lower-case form of an ASCII capital; every other character is itself.
pub open spec fn ascii_lower(c: char) -> char {
    if 'A' <= c && c <= 'Z' {
        ((c as u8 + 32) as u8) as char
    } else {
        c
    }
}

pub fn char_to_ascii_lower(c: char) -> (l: char)
    ensures
        l == ascii_lower(c),
{
    if c >= 'A' && c <= 'Z' {
        ((c as u8) + 32) as char
    } else {
        c
    }
}

/// A text with every ASCII capital replaced by its lower-case form.
pub open spec fn ascii_lowercase(s: Seq<char>) -> Seq<char> {
    Seq::new(s.len(), |i: int| ascii_lower(s[i]))
}

pub fn to_ascii_lowercase(chars: &Vec<char>) -> (lower: Vec<char>)
    ensures
        lower@ == ascii_lowercase(chars@),
{
    let mut lower: Vec<char> = Vec::new();
    let mut i: usize = 0;
    while i < chars.len()
        invariant
            i <= chars.len(),
            lower@ == ascii_lowercase(chars@.take(i as int)),
        decreases chars.len() - i,
    {
        lower.push(char_to_ascii_lower(chars[i]));
        i += 1;
        assert(lower@ =~= ascii_lowercase(chars@.take(i as int)));
    }
    assert(chars@.take(chars.len() as int) == chars@);
    lower
}

/// The text without its leading white space.
pub open spec fn trim_start(s: Seq<char>) -> Seq<char>
    decreases s.len(),
{
    if s.len() > 0 && is_whitespace(s[0]) {
        trim_start(s.drop_first())
    } else {
        s
    }
}

/// The text without its trailing white space.
pub open spec fn trim_end(s: Seq<char>) -> Seq<char>
    decreases s.len(),
{
    if s.len() > 0 && is_whitespace(s.last()) {
        trim_end(s.drop_last())
    } else {
        s
    }
}

/// The text without leading and trailing white space.
pub open spec fn trim(s: Seq<char>) -> Seq<char> {
    trim_end(trim_start(s))
}

/// A text that is empty or white space only.
pub open spec fn is_blank(s: Seq<char>) -> bool {
    trim(s).len() == 0
}

/// The bounds of the trimmed text inside `chars`.
pub fn trim_bounds(chars: &Vec<char>) -> (bounds: (usize, usize))
    ensures
        bounds.0 <= bounds.1 <= chars.len(),
        chars@.subrange(bounds.0 as int, bounds.1 as int) == trim(chars@),
{
    let n = chars.len();
    let mut a: usize = 0;
    assert(chars@.skip(0) == chars@);
    while a < n && char_is_whitespace(chars[a])
        invariant
            a <= n,
            n == chars.len(),
            trim_start(chars@) == trim_start(chars@.skip(a as int)),
        decreases n - a,
    {
        assert(chars@.skip(a as int).drop_first() == chars@.skip(a + 1));
        a += 1;
    }
    assert(trim_start(chars@) == chars@.skip(a as int));
    let mut b: usize = n;
    assert(chars@.skip(a as int) == chars@.subrange(a as int, b as int));
    while b > a && char_is_whitespace(chars[b - 1])
        invariant
            a <= b <= n,
            n == chars.len(),
            trim(chars@) == trim_end(chars@.subrange(a as int, b as int)),
        decreases b - a,
    {
        assert(chars@.subrange(a as int, b as int).drop_last() == chars@.subrange(
            a as int,
            b - 1,
        ));
        b -= 1;
    }
    (a, b)
}

/// The trimmed text of a string.
pub fn trimmed(s: &str) -> (t: Vec<char>)
    ensures
        t@ == trim(s@),
{
    let chars = chars_of(s);
    let (a, b) = trim_bounds(&chars);
    let mut t: Vec<char> = Vec::new();
    let mut i: usize = a;
    while i < b
        invariant
            a <= i <= b <= chars.len(),
            t@ == chars@.subrange(a as int, i as int),
        decreases b - i,
    {
        t.push(chars[i]);
        i += 1;
    }
    t
}

/// Whether the characters spell the given text.
pub fn chars_eq_str(chars: &Vec<char>, text: &str) -> (same: bool)
    ensures
        same == (chars@ == text@),
{
    let other = chars_of(text);
    if chars.len() != other.len() {
        return false;
    }
    let mut i: usize = 0;
    while i < chars.len()
        invariant
            i <= chars.len(),
            chars.len() == other.len(),
            other@ == text@,
            chars@.take(i as int) == other@.take(i as int),
        decreases chars.len() - i,
    {
        if chars[i] != other[i] {
            return false;
        }
        assert(chars@.take(i + 1) == chars@.take(i as int).push(chars@[i as int]));
        assert(other@.take(i + 1) == other@.take(i as int).push(other@[i as int]));
        i += 1;
    }
    assert(chars@.take(chars.len() as int) == chars@);
    assert(other@.take(other.len() as int) == other@);
    true
}


/// Whether `s` begins with `prefix`.
pub open spec fn starts_with(s: Seq<char>, prefix: Seq<char>) -> bool {
    prefix.len() <= s.len() && s.take(prefix.len() as int) == prefix
}

/// Whether `s` ends with `suffix`.
pub open spec fn ends_with(s: Seq<char>, suffix: Seq<char>) -> bool {
    suffix.len() <= s.len() && s.skip(s.len() - suffix.len()) == suffix
}

/// Whether `chars[at..]` begins with `pattern`.
pub fn matches_at(chars: &Vec<char>, at: usize, pattern: &Vec<char>) -> (found: bool)
    requires
        at <= chars.len(),
    ensures
        found == starts_with(chars@.skip(at as int), pattern@),
{
    let n = pattern.len();
    if chars.len() - at < n {
        return false;
    }
    let ghost rest = chars@.skip(at as int);
    let mut i: usize = 0;
    while i < n
        invariant
            i <= n,
            n == pattern.len(),
            at + n <= chars.len(),
            rest == chars@.skip(at as int),
            rest.take(i as int) == pattern@.take(i as int),
        decreases n - i,
    {
        if chars[at + i] != pattern[i] {
            assert(rest.take(n as int)[i as int] != pattern@[i as int]);
            return false;
        }
        assert(rest.take(i + 1) == rest.take(i as int).push(rest[i as int]));
        assert(pattern@.take(i + 1) == pattern@.take(i as int).push(pattern@[i as int]));
        i += 1;
    }
    assert(pattern@.take(n as int) == pattern@);
    true
}

pub fn chars_start_with(chars: &Vec<char>, prefix: &str) -> (found: bool)
    ensures
        found == starts_with(chars@, prefix@),
{
    let pattern = chars_of(prefix);
    assert(chars@.skip(0) == chars@);
    matches_at(chars, 0, &pattern)
}

pub fn chars_end_with(chars: &Vec<char>, suffix: &str) -> (found: bool)
    ensures
        found == ends_with(chars@, suffix@),
{
    let pattern = chars_of(suffix);
    if pattern.len() > chars.len() {
        return false;
    }
    let at = chars.len() - pattern.len();
    let found = matches_at(chars, at, &pattern);
    proof {
        let rest = chars@.skip(at as int);
        assert(rest.len() == pattern@.len());
        assert(rest.take(pattern@.len() as int) == rest);
    }
    found
}

/// The pieces of a text between occurrences of a separator, with the text
/// read so far since the last separator: a left-to-right reading.
pub open spec fn split_reading(s: Seq<char>, sep: char) -> (Seq<Seq<char>>, Seq<char>)
    decreases s.len(),
{
    if s.len() == 0 {
        (Seq::empty(), Seq::empty())
    } else {
        let (done, current) = split_reading(s.drop_last(), sep);
        if s.last() == sep {
            (done.push(current), Seq::empty())
        } else {
            (done, current.push(s.last()))
        }
    }
}

/// The pieces of a text between occurrences of a separator: one more piece
/// than there are separators, empty pieces included.
pub open spec fn split(s: Seq<char>, sep: char) -> Seq<Seq<char>> {
    split_reading(s, sep).0.push(split_reading(s, sep).1)
}

/// The view of a list of character vectors as a sequence of texts.
pub open spec fn texts(parts: Seq<Vec<char>>) -> Seq<Seq<char>> {
    Seq::new(parts.len(), |i: int| parts[i]@)
}

pub fn split_chars(chars: &Vec<char>, sep: char) -> (parts: Vec<Vec<char>>)
    ensures
        texts(parts@) == split(chars@, sep),
{
    let mut parts: Vec<Vec<char>> = Vec::new();
    let mut current: Vec<char> = Vec::new();
    let mut i: usize = 0;
    assert(texts(parts@) =~= Seq::<Seq<char>>::empty());
    while i < chars.len()
        invariant
            i <= chars.len(),
            (texts(parts@), current@) == split_reading(chars@.take(i as int), sep),
        decreases chars.len() - i,
    {
        let ghost before = texts(parts@);
        let ghost word = current@;
        assert(chars@.take(i + 1).drop_last() == chars@.take(i as int));
        if chars[i] == sep {
            parts.push(current);
            current = Vec::new();
            assert(texts(parts@) =~= before.push(word));
        } else {
            current.push(chars[i]);
        }
        i += 1;
    }
    assert(chars@.take(chars.len() as int) == chars@);
    let ghost before = texts(parts@);
    let ghost word = current@;
    parts.push(current);
    assert(texts(parts@) =~= before.push(word));
    parts
}

/// The words of a text with the word read so far: a left-to-right reading
/// in which white space ends a word.
pub open spec fn words_reading(s: Seq<char>) -> (Seq<Seq<char>>, Seq<char>)
    decreases s.len(),
{
    if s.len() == 0 {
        (Seq::empty(), Seq::empty())
    } else {
        let (done, current) = words_reading(s.drop_last());
        if is_whitespace(s.last()) {
            if current.len() > 0 {
                (done.push(current), Seq::empty())
            } else {
                (done, current)
            }
        } else {
            (done, current.push(s.last()))
        }
    }
}

/// The maximal runs of characters that are not white space, in order.
pub open spec fn split_whitespace(s: Seq<char>) -> Seq<Seq<char>> {
    let (done, current) = words_reading(s);
    if current.len() > 0 {
        done.push(current)
    } else {
        done
    }
}

pub fn words_of(chars: &Vec<char>) -> (words: Vec<Vec<char>>)
    ensures
        texts(words@) == split_whitespace(chars@),
{
    let mut words: Vec<Vec<char>> = Vec::new();
    let mut current: Vec<char> = Vec::new();
    let mut i: usize = 0;
    assert(texts(words@) =~= Seq::<Seq<char>>::empty());
    while i < chars.len()
        invariant
            i <= chars.len(),
            (texts(words@), current@) == words_reading(chars@.take(i as int)),
        decreases chars.len() - i,
    {
        let ghost before = texts(words@);
        let ghost word = current@;
        assert(chars@.take(i + 1).drop_last() == chars@.take(i as int));
        if char_is_whitespace(chars[i]) {
            if current.len() > 0 {
                words.push(current);
                current = Vec::new();
                assert(texts(words@) =~= before.push(word));
            }
        } else {
            current.push(chars[i]);
        }
        i += 1;
    }
    assert(chars@.take(chars.len() as int) == chars@);
    if current.len() > 0 {
        let ghost before = texts(words@);
        let ghost word = current@;
        words.push(current);
        assert(texts(words@) =~= before.push(word));
    }
    words
}


/// The text without the occurrences of `ch` at its end.
pub open spec fn trim_end_matches(s: Seq<char>, ch: char) -> Seq<char>
    decreases s.len(),
{
    if s.len() > 0 && s.last() == ch {
        trim_end_matches(s.drop_last(), ch)
    } else {
        s
    }
}

/// The text without the occurrences of `ch` at its beginning.
pub open spec fn trim_start_matches(s: Seq<char>, ch: char) -> Seq<char>
    decreases s.len(),
{
    if s.len() > 0 && s[0] == ch {
        trim_start_matches(s.drop_first(), ch)
    } else {
        s
    }
}

/// Where the text `chars[from..to]` ends once the occurrences of `ch` at
/// its end are left out.
pub fn trim_end_matches_bound(chars: &Vec<char>, from: usize, to: usize, ch: char) -> (end: usize)
    requires
        from <= to <= chars.len(),
    ensures
        from <= end <= to,
        chars@.subrange(from as int, end as int) == trim_end_matches(
            chars@.subrange(from as int, to as int),
            ch,
        ),
{
    let mut b: usize = to;
    while b > from && chars[b - 1] == ch
        invariant
            from <= b <= to <= chars.len(),
            trim_end_matches(chars@.subrange(from as int, to as int), ch) == trim_end_matches(
                chars@.subrange(from as int, b as int),
                ch,
            ),
        decreases b - from,
    {
        assert(chars@.subrange(from as int, b as int).drop_last() == chars@.subrange(
            from as int,
            b - 1,
        ));
        b -= 1;
    }
    b
}

/// Where the text `chars[from..to]` begins once the occurrences of `ch` at
/// its beginning are left out.
pub fn trim_start_matches_bound(chars: &Vec<char>, from: usize, to: usize, ch: char) -> (start:
    usize)
    requires
        from <= to <= chars.len(),
    ensures
        from <= start <= to,
        chars@.subrange(start as int, to as int) == trim_start_matches(
            chars@.subrange(from as int, to as int),
            ch,
        ),
{
    let mut a: usize = from;
    while a < to && chars[a] == ch
        invariant
            from <= a <= to <= chars.len(),
            trim_start_matches(chars@.subrange(from as int, to as int), ch) == trim_start_matches(
                chars@.subrange(a as int, to as int),
                ch,
            ),
        decreases to - a,
    {
        assert(chars@.subrange(a as int, to as int).drop_first() == chars@.subrange(
            a + 1,
            to as int,
        ));
        a += 1;
    }
    a
}

/// Appends the characters of `text` to `chars`.
pub fn push_str(chars: &mut Vec<char>, text: &str)
    ensures
        final(chars)@ == old(chars)@ + text@,
{
    let more = chars_of(text);
    push_chars(chars, &more, 0, more.len());
    assert(more@.subrange(0, more.len() as int) == more@);
}

/// Appends `more[from..to]` to `chars`.
pub fn push_chars(chars: &mut Vec<char>, more: &Vec<char>, from: usize, to: usize)
    requires
        from <= to <= more.len(),
    ensures
        final(chars)@ == old(chars)@ + more@.subrange(from as int, to as int),
{
    let mut i: usize = from;
    assert(chars@ =~= old(chars)@ + more@.subrange(from as int, i as int));
    while i < to
        invariant
            from <= i <= to <= more.len(),
            chars@ == old(chars)@ + more@.subrange(from as int, i as int),
        decreases to - i,
    {
        chars.push(more[i]);
        i += 1;
        assert(chars@ =~= old(chars)@ + more@.subrange(from as int, i as int));
    }
}

/// Whether the text holds the character.
pub fn chars_contain(chars: &Vec<char>, ch: char) -> (found: bool)
    ensures
        found == chars@.contains(ch),
{
    let mut i: usize = 0;
    while i < chars.len()
        invariant
            i <= chars.len(),
            forall|j: int| 0 <= j < i ==> chars@[j] != ch,
        decreases chars.len() - i,
    {
        if chars[i] == ch {
            return true;
        }
        i += 1;
    }
    false
}


/// The texts of a list of strings.
pub open spec fn string_views(strings: Seq<String>) -> Seq<Seq<char>> {
    Seq::new(strings.len(), |i: int| strings[i]@)
}

/// Whether the string is empty or white space only.
pub fn str_is_blank(s: &str) -> (blank: bool)
    ensures
        blank == is_blank(s@),
{
    let chars = chars_of(s);
    let (a, b) = trim_bounds(&chars);
    a == b
}

/// The two texts one after the other, as a string.
pub fn join2(first: &str, second: &str) -> (joined: String)
    ensures
        joined@ == first@ + second@,
{
    let mut out = chars_of(first);
    push_str(&mut out, second);
    string_of(&out)
}

/// The three texts one after the other, as a string.
pub fn join3(first: &str, second: &str, third: &str) -> (joined: String)
    ensures
        joined@ == first@ + second@ + third@,
{
    let mut out = chars_of(first);
    push_str(&mut out, second);
    push_str(&mut out, third);
    string_of(&out)
}


/// The text before the first occurrence of `ch`, or all of it where `ch`
/// does not occur.
pub open spec fn prefix_before(s: Seq<char>, ch: char) -> Seq<char>
    decreases s.len(),
{
    if s.len() == 0 || s[0] == ch {
        Seq::empty()
    } else {
        seq![s[0]] + prefix_before(s.drop_first(), ch)
    }
}

/// The text behind the first occurrence of `ch`, or nothing where `ch`
/// does not occur.
pub open spec fn suffix_after(s: Seq<char>, ch: char) -> Seq<char> {
    if prefix_before(s, ch).len() < s.len() {
        s.skip(prefix_before(s, ch).len() as int + 1)
    } else {
        Seq::empty()
    }
}

/// The text before the first `ch` is a beginning of the text.
pub proof fn lemma_prefix_before(s: Seq<char>, ch: char)
    ensures
        prefix_before(s, ch).len() <= s.len(),
        prefix_before(s, ch) == s.take(prefix_before(s, ch).len() as int),
        prefix_before(s, ch).len() < s.len() ==> s[prefix_before(s, ch).len() as int] == ch,
        !prefix_before(s, ch).contains(ch),
    decreases s.len(),
{
    if s.len() == 0 || s[0] == ch {
        assert(s.take(0) =~= Seq::<char>::empty());
    } else {
        lemma_prefix_before(s.drop_first(), ch);
        let rest = prefix_before(s.drop_first(), ch);
        assert(prefix_before(s, ch) =~= s.take(rest.len() as int + 1));
        assert forall|j: int| 0 <= j < prefix_before(s, ch).len() implies prefix_before(s, ch)[j]
            != ch by {
            if j > 0 {
                assert(prefix_before(s, ch)[j] == rest[j - 1]);
                assert(rest.contains(rest[j - 1]));
            }
        }
    }
}

/// Where `ch` first occurs in `chars[from..to]`, or `to`.
pub fn find_char(chars: &Vec<char>, from: usize, to: usize, ch: char) -> (at: usize)
    requires
        from <= to <= chars.len(),
    ensures
        from <= at <= to,
        at - from == prefix_before(chars@.subrange(from as int, to as int), ch).len(),
{
    let ghost s = chars@.subrange(from as int, to as int);
    let mut i: usize = from;
    while i < to && chars[i] != ch
        invariant
            from <= i <= to <= chars.len(),
            s == chars@.subrange(from as int, to as int),
            prefix_before(s, ch).len() == (i - from) + prefix_before(
                chars@.subrange(i as int, to as int),
                ch,
            ).len(),
        decreases to - i,
    {
        assert(chars@.subrange(i as int, to as int).drop_first() == chars@.subrange(
            i + 1,
            to as int,
        ));
        i += 1;
    }
    i
}


/// A text without the separator is one piece.
pub proof fn lemma_split_without(s: Seq<char>, sep: char)
    requires
        !s.contains(sep),
    ensures
        split_reading(s, sep) == (Seq::<Seq<char>>::empty(), s),
    decreases s.len(),
{
    if s.len() > 0 {
        assert(s.contains(s.last()));
        assert forall|i: int| 0 <= i < s.drop_last().len() implies s.drop_last()[i] != sep by {
            assert(s.contains(s[i]));
        }
        lemma_split_without(s.drop_last(), sep);
        assert(s.drop_last().push(s.last()) == s);
    } else {
        assert(s =~= Seq::<char>::empty());
    }
}

/// Two texts without the separator, with the separator between them, are
/// two pieces.
pub proof fn lemma_split_at(a: Seq<char>, b: Seq<char>, sep: char)
    requires
        !a.contains(sep),
        !b.contains(sep),
    ensures
        split_reading(a + seq![sep] + b, sep) == (seq![a], b),
        split(a + seq![sep] + b, sep) == seq![a, b],
    decreases b.len(),
{
    let s = a + seq![sep] + b;
    if b.len() == 0 {
        assert(s.drop_last() =~= a);
        assert(s.last() == sep);
        lemma_split_without(a, sep);
        assert(Seq::<Seq<char>>::empty().push(a) =~= seq![a]);
        assert(b =~= Seq::<char>::empty());
    } else {
        assert(b.contains(b.last()));
        assert forall|i: int| 0 <= i < b.drop_last().len() implies b.drop_last()[i] != sep by {
            assert(b.contains(b[i]));
        }
        lemma_split_at(a, b.drop_last(), sep);
        assert(s.drop_last() =~= a + seq![sep] + b.drop_last());
        assert(s.last() == b.last());
        assert(b.drop_last().push(b.last()) == b);
    }
    assert(seq![a].push(b) =~= seq![a, b]);
}

/// A text that neither begins nor ends with white space is its own
/// trimmed text.
pub proof fn lemma_trim_of_plain(s: Seq<char>)
    requires
        s.len() > 0,
        !is_whitespace(s[0]),
        !is_whitespace(s.last()),
    ensures
        trim(s) == s,
{
}

/// Of a text without `ch`, then `ch`, then any text, the first is what
/// stands before the first `ch` and the last what stands behind it.
pub proof fn lemma_prefix_before_at(a: Seq<char>, b: Seq<char>, ch: char)
    requires
        !a.contains(ch),
    ensures
        prefix_before(a + seq![ch] + b, ch) == a,
        suffix_after(a + seq![ch] + b, ch) == b,
    decreases a.len(),
{
    let s = a + seq![ch] + b;
    if a.len() == 0 {
        assert(s[0] == ch);
        assert(a =~= Seq::<char>::empty());
        assert(s.skip(1) =~= b);
    } else {
        assert(a.contains(a[0]));
        assert forall|i: int| 0 <= i < a.drop_first().len() implies a.drop_first()[i] != ch by {
            assert(a.contains(a[i + 1]));
        }
        lemma_prefix_before_at(a.drop_first(), b, ch);
        assert(s.drop_first() =~= a.drop_first() + seq![ch] + b);
        assert(seq![s[0]] + a.drop_first() =~= a);
        assert(s.skip(a.len() as int + 1) =~= b);
    }
}

} // verus!

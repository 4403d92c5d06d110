use vstd::prelude::*;
use vstd::pervasive::unreached;
use crate::config::positive_or;
use crate::decimal::{
    decimal_digits, is_float_literal, is_float_text, parse_i64, parse_signed, parse_u64,
    u64_to_chars,
};
use crate::text::{
    chars_contain, chars_of, join2, join3, is_blank, push_chars, push_str, split, split_chars,
    split_whitespace, str_is_blank, string_of, string_of_range, string_views, texts, trim,
    trim_end_matches, trim_end_matches_bound, trim_start_matches,
    trim_start_matches_bound, trimmed, words_of,
};

verus! {

/// The characters that a base name keeps: ASCII letters and digits, `_`
/// and `-`.
pub open spec fn is_safe_char(c: char) -> bool {
    ('a' <= c && c <= 'z') || ('A' <= c && c <= 'Z') || ('0' <= c && c <= '9') || c == '_' || c
        == '-'
}

pub open spec fn all_safe(s: Seq<char>) -> bool {
    forall|i: int| 0 <= i < s.len() ==> is_safe_char(#[trigger] s[i])
}

/// The text with each run of characters that a base name does not keep
/// replaced by one `_`.
pub open spec fn collapse_unsafe(s: Seq<char>) -> Seq<char>
    decreases s.len(),
{
    if s.len() == 0 {
        s
    } else if is_safe_char(s.last()) {
        collapse_unsafe(s.drop_last()).push(s.last())
    } else if s.len() >= 2 && !is_safe_char(s[s.len() - 2]) {
        collapse_unsafe(s.drop_last())
    } else {
        collapse_unsafe(s.drop_last()).push('_')
    }
}

/// The collapsed text without the underscores at its two ends.
pub open spec fn stripped_base_name(s: Seq<char>) -> Seq<char> {
    trim_end_matches(trim_start_matches(collapse_unsafe(s), '_'), '_')
}

/// The base name made of a text: runs of other characters become one `_`,
/// underscores at the two ends are dropped, an empty rest becomes
/// `document`, and no more than the first 80 characters are kept.
pub open spec fn sanitized_base_name(s: Seq<char>) -> Seq<char> {
    let stripped = stripped_base_name(s);
    if stripped.len() == 0 {
        "document"@
    } else if stripped.len() > 80 {
        stripped.take(80)
    } else {
        stripped
    }
}

fn char_is_safe(c: char) -> (safe: bool)
    ensures
        safe == is_safe_char(c),
{
    (c >= 'a' && c <= 'z') || (c >= 'A' && c <= 'Z') || (c >= '0' && c <= '9') || c == '_' || c
        == '-'
}

pub fn sanitize_base_name(value: &str) -> (name: String)
    ensures
        name@ == sanitized_base_name(value@),
{
    let chars = chars_of(value);
    let mut collapsed: Vec<char> = Vec::new();
    let mut i: usize = 0;
    while i < chars.len()
        invariant
            i <= chars.len(),
            collapsed@ == collapse_unsafe(chars@.take(i as int)),
        decreases chars.len() - i,
    {
        let ghost upto = chars@.take(i + 1);
        assert(upto.drop_last() == chars@.take(i as int));
        if char_is_safe(chars[i]) {
            collapsed.push(chars[i]);
        } else if i >= 1 && !char_is_safe(chars[i - 1]) {
            assert(upto[upto.len() - 2] == chars@[i - 1]);
        } else {
            collapsed.push('_');
        }
        i += 1;
    }
    assert(chars@.take(chars.len() as int) == chars@);
    let n = collapsed.len();
    assert(collapsed@.subrange(0, n as int) == collapsed@);
    let start = trim_start_matches_bound(&collapsed, 0, n, '_');
    let end = trim_end_matches_bound(&collapsed, start, n, '_');
    if end == start {
        return "document".to_owned();
    }
    let kept: usize = if end - start > 80 {
        start + 80
    } else {
        end
    };
    assert(collapsed@.subrange(start as int, kept as int) =~= collapsed@.subrange(
        start as int,
        end as int,
    ).take(kept - start));
    string_of_range(&collapsed, start, kept)
}

/// Collapsing leaves only characters that a base name keeps.
pub proof fn lemma_collapse_is_safe(s: Seq<char>)
    ensures
        all_safe(collapse_unsafe(s)),
    decreases s.len(),
{
    if s.len() > 0 {
        lemma_collapse_is_safe(s.drop_last());
    }
}

/// Collapsing changes nothing in a text of kept characters.
pub proof fn lemma_collapse_of_safe(s: Seq<char>)
    requires
        all_safe(s),
    ensures
        collapse_unsafe(s) == s,
    decreases s.len(),
{
    if s.len() > 0 {
        assert(is_safe_char(s[s.len() - 1]));
        lemma_collapse_of_safe(s.drop_last());
        assert(s.drop_last().push(s.last()) == s);
    }
}

/// What is left after the occurrences of `ch` at the beginning is an end
/// of the text that does not begin with `ch`.
pub proof fn lemma_trim_start_matches(s: Seq<char>, ch: char) -> (k: int)
    ensures
        0 <= k <= s.len(),
        trim_start_matches(s, ch) == s.skip(k),
        k < s.len() ==> s[k] != ch,
    decreases s.len(),
{
    if s.len() > 0 && s[0] == ch {
        let k = lemma_trim_start_matches(s.drop_first(), ch);
        assert(s.drop_first().skip(k) == s.skip(k + 1));
        k + 1
    } else {
        assert(s.skip(0) == s);
        0
    }
}

/// What is left after the occurrences of `ch` at the end is a beginning of
/// the text that does not end with `ch`.
pub proof fn lemma_trim_end_matches(s: Seq<char>, ch: char) -> (k: int)
    ensures
        0 <= k <= s.len(),
        trim_end_matches(s, ch) == s.take(k),
        k > 0 ==> s[k - 1] != ch,
    decreases s.len(),
{
    if s.len() > 0 && s.last() == ch {
        let k = lemma_trim_end_matches(s.drop_last(), ch);
        assert(s.drop_last().take(k) == s.take(k));
        k
    } else {
        assert(s.take(s.len() as int) == s);
        s.len() as int
    }
}

/// A base name is its own base name, but for a text that is cut after 80
/// characters just behind an underscore: there the second pass drops that
/// underscore.
pub proof fn lemma_sanitize_idempotent(s: Seq<char>)
    requires
        !(stripped_base_name(s).len() > 80 && stripped_base_name(s)[79] == '_'),
    ensures
        sanitized_base_name(sanitized_base_name(s)) == sanitized_base_name(s),
{
    let collapsed = collapse_unsafe(s);
    lemma_collapse_is_safe(s);
    let a = lemma_trim_start_matches(collapsed, '_');
    let inner = trim_start_matches(collapsed, '_');
    let b = lemma_trim_end_matches(inner, '_');
    let stripped = stripped_base_name(s);
    assert(stripped == inner.take(b));
    let name = sanitized_base_name(s);
    if stripped.len() == 0 {
        reveal_strlit("document");
        assert(all_safe(name));
    } else {
        assert(forall|i: int| 0 <= i < stripped.len() ==> stripped[i] == collapsed[a + i]);
        assert(all_safe(name));
        assert(name[0] == stripped[0]);
        assert(name[0] != '_');
        assert(name.last() != '_');
    }
    lemma_collapse_of_safe(name);
    assert(trim_start_matches(name, '_') == name);
    assert(trim_end_matches(name, '_') == name);
    assert(stripped_base_name(name) == name);
    assert(name.len() <= 80);
}


/// The text that is left out of the law above: a name that is cut after
/// 80 characters just behind an underscore is not its own base name.
pub proof fn lemma_sanitize_of_cut_name(s: Seq<char>)
    requires
        stripped_base_name(s).len() > 80,
        stripped_base_name(s)[79] == '_',
    ensures
        sanitized_base_name(sanitized_base_name(s)) != sanitized_base_name(s),
{
    let collapsed = collapse_unsafe(s);
    lemma_collapse_is_safe(s);
    let a = lemma_trim_start_matches(collapsed, '_');
    let inner = trim_start_matches(collapsed, '_');
    let b = lemma_trim_end_matches(inner, '_');
    let stripped = stripped_base_name(s);
    assert(stripped == inner.take(b));
    let name = sanitized_base_name(s);
    assert(name == stripped.take(80));
    assert(forall|i: int| 0 <= i < stripped.len() ==> stripped[i] == collapsed[a + i]);
    assert(all_safe(name));
    assert(name[0] != '_');
    lemma_collapse_of_safe(name);
    assert(trim_start_matches(name, '_') == name);
    let k = lemma_trim_end_matches(name.drop_last(), '_');
    assert(name.last() == '_');
    assert(trim_end_matches(name, '_') == trim_end_matches(name.drop_last(), '_'));
    assert(stripped_base_name(name).len() <= 79);
    reveal_strlit("document");
    assert(sanitized_base_name(name).len() != 80);
}

/// The ink coverage of one page. The four levels are kept as the texts of
/// the floating-point numbers that the renderer printed, with a point as
/// the decimal separator.
#[derive(Debug, Clone, PartialEq)]
pub struct ColorProfile {
    pub page: i64,
    pub c: String,
    pub m: String,
    pub y: String,
    pub k: String,
    pub ink_type: String,
}

/// What an analysis of a document found.
#[derive(Debug, Clone, PartialEq)]
pub struct PdfAnalysis {
    pub file_name: String,
    pub page_count: i64,
    pub has_formfields: bool,
    pub color_profiles: Vec<ColorProfile>,
}

/// The four levels and the ink type that a line of the renderer gives.
pub struct InkLine {
    pub c: Seq<char>,
    pub m: Seq<char>,
    pub y: Seq<char>,
    pub k: Seq<char>,
    pub ink_type: Seq<char>,
}

/// A profile as a mathematical value.
pub struct ProfileView {
    pub page: int,
    pub ink: InkLine,
}

impl View for ColorProfile {
    type V = ProfileView;

    open spec fn view(&self) -> ProfileView {
        ProfileView {
            page: self.page as int,
            ink: InkLine {
                c: self.c@,
                m: self.m@,
                y: self.y@,
                k: self.k@,
                ink_type: self.ink_type@,
            },
        }
    }
}

/// The profiles of a list, as mathematical values.
pub open spec fn profile_views(profiles: Seq<ColorProfile>) -> Seq<ProfileView> {
    Seq::new(profiles.len(), |i: int| profiles[i]@)
}

/// Whether the four levels are texts of floating-point numbers.
pub open spec fn levels_are_numbers(ink: InkLine) -> bool {
    is_float_literal(ink.c) && is_float_literal(ink.m) && is_float_literal(ink.y)
        && is_float_literal(ink.k)
}

/// Whether each profile of the list holds four numbers.
pub open spec fn all_numeric(profiles: Seq<ProfileView>) -> bool {
    forall|i: int| 0 <= i < profiles.len() ==> levels_are_numbers(#[trigger] profiles[i].ink)
}

impl PdfAnalysis {
    /// An analysis is of at least one page and has one profile for each
    /// page, numbered from 1, with four numbers each.
    pub open spec fn well_formed(&self) -> bool {
        &&& self.page_count >= 1
        &&& self.color_profiles@.len() == self.page_count
        &&& all_numeric(profile_views(self.color_profiles@))
        &&& forall|i: int|
            0 <= i < self.color_profiles@.len() ==> (#[trigger] self.color_profiles@[i]).page == i
                + 1
    }
}

/// A text with each comma replaced by a point.
pub open spec fn commas_to_points(s: Seq<char>) -> Seq<char> {
    Seq::new(
        s.len(),
        |i: int|
            if s[i] == ',' {
                '.'
            } else {
                s[i]
            },
    )
}

/// The number that a token stands for, as a text with a point as decimal
/// separator: the token itself where it is a number; else, where it holds
/// a comma and no point, the token with points for its commas, where that
/// is a number.
pub open spec fn number_text(token: Seq<char>) -> Option<Seq<char>> {
    if is_float_literal(token) {
        Some(token)
    } else if token.contains(',') && !token.contains('.') && is_float_literal(
        commas_to_points(token),
    ) {
        Some(commas_to_points(token))
    } else {
        None
    }
}

/// Whether four numbers stand at `tokens[at..at + 4]`.
pub open spec fn is_number_window(tokens: Seq<Seq<char>>, at: int) -> bool {
    &&& 0 <= at
    &&& at + 4 <= tokens.len()
    &&& number_text(tokens[at]).is_some()
    &&& number_text(tokens[at + 1]).is_some()
    &&& number_text(tokens[at + 2]).is_some()
    &&& number_text(tokens[at + 3]).is_some()
}

/// The last place before `limit` at which four numbers stand.
pub open spec fn last_number_window(tokens: Seq<Seq<char>>, limit: int) -> Option<int>
    decreases limit,
{
    if limit <= 0 {
        None
    } else if is_number_window(tokens, limit - 1) {
        Some(limit - 1)
    } else {
        last_number_window(tokens, limit - 1)
    }
}

/// The tokens with one space between neighbours.
pub open spec fn join_with_space(tokens: Seq<Seq<char>>) -> Seq<char>
    decreases tokens.len(),
{
    if tokens.len() == 0 {
        Seq::empty()
    } else if tokens.len() == 1 {
        tokens[0]
    } else {
        join_with_space(tokens.drop_last()) + seq![' '] + tokens.last()
    }
}

/// What a line of the renderer's output gives: the last four numbers in a
/// row among its tokens are the levels, and the tokens behind them the ink
/// type. A line without four numbers in a row gives nothing.
pub open spec fn inkcov_line(line: Seq<char>) -> Option<InkLine> {
    let tokens = split_whitespace(line);
    match last_number_window(tokens, tokens.len() - 3) {
        Some(at) => Some(
            InkLine {
                c: number_text(tokens[at]).unwrap(),
                m: number_text(tokens[at + 1]).unwrap(),
                y: number_text(tokens[at + 2]).unwrap(),
                k: number_text(tokens[at + 3]).unwrap(),
                ink_type: join_with_space(tokens.skip(at + 4)),
            },
        ),
        None => None,
    }
}

/// The profiles read from the lines so far: each line that gives levels
/// becomes the next page, until `page_count` pages are there.
pub open spec fn profiles_reading(lines: Seq<Seq<char>>, page_count: int) -> Seq<ProfileView>
    decreases lines.len(),
{
    if lines.len() == 0 {
        Seq::empty()
    } else {
        let before = profiles_reading(lines.drop_last(), page_count);
        match inkcov_line(lines.last()) {
            Some(ink) => if before.len() < page_count {
                before.push(ProfileView { page: before.len() as int + 1, ink })
            } else {
                before
            },
            None => before,
        }
    }
}

/// The profiles that the renderer's output holds for a document of
/// `page_count` pages.
pub open spec fn inkcov_profiles(output: Seq<char>, page_count: int) -> Seq<ProfileView> {
    profiles_reading(split(output, '\n'), page_count)
}

/// The profile of a page of which the renderer said nothing.
pub open spec fn blank_profile(page: int) -> ProfileView {
    ProfileView {
        page,
        ink: InkLine { c: seq!['0'], m: seq!['0'], y: seq!['0'], k: seq!['0'], ink_type: Seq::empty() },
    }
}

/// One profile for each of `page_count` pages, numbered from 1: those that
/// are there, in order, then blank ones; profiles beyond the count are
/// dropped.
pub open spec fn normalized_profiles(profiles: Seq<ProfileView>, page_count: int) -> Seq<
    ProfileView,
> {
    Seq::new(
        if page_count > 0 {
            page_count as nat
        } else {
            0
        },
        |i: int|
            if i < profiles.len() {
                ProfileView { page: i + 1, ink: profiles[i].ink }
            } else {
                blank_profile(i + 1)
            },
    )
}

/// The text `0` is the text of a number.
pub proof fn lemma_zero_is_a_number()
    ensures
        levels_are_numbers(blank_profile(1).ink),
{
    let zero = seq!['0'];
    assert(crate::decimal::unsigned_part(zero) == zero);
    assert(zero.drop_first() =~= Seq::<char>::empty());
    assert(crate::decimal::digit_run(zero) == 1) by {
        reveal_with_fuel(crate::decimal::digit_run, 3);
    }
    assert(zero.skip(1) =~= Seq::<char>::empty());
    assert(crate::decimal::is_number(zero));
}

/// The number that a token stands for, if any.
pub fn parse_f64_token(token: &Vec<char>) -> (number: Option<String>)
    ensures
        match number {
            Some(text) => number_text(token@) == Some(text@),
            None => number_text(token@).is_none(),
        },
{
    if is_float_text(token) {
        return Some(string_of(token));
    }
    if chars_contain(token, ',') && !chars_contain(token, '.') {
        let mut replaced: Vec<char> = Vec::new();
        let mut i: usize = 0;
        while i < token.len()
            invariant
                i <= token.len(),
                replaced@ == commas_to_points(token@.take(i as int)),
            decreases token.len() - i,
        {
            replaced.push(
                if token[i] == ',' {
                    '.'
                } else {
                    token[i]
                },
            );
            i += 1;
            assert(replaced@ =~= commas_to_points(token@.take(i as int)));
        }
        assert(token@.take(token.len() as int) == token@);
        if is_float_text(&replaced) {
            return Some(string_of(&replaced));
        }
    }
    None
}

fn window_at(tokens: &Vec<Vec<char>>, at: usize) -> (found: Option<(String, String, String, String)>)
    requires
        at + 4 <= tokens.len(),
    ensures
        found.is_some() == is_number_window(texts(tokens@), at as int),
        found matches Some(w) ==> {
            &&& number_text(tokens[at as int]@) == Some(w.0@)
            &&& number_text(tokens[at + 1]@) == Some(w.1@)
            &&& number_text(tokens[at + 2]@) == Some(w.2@)
            &&& number_text(tokens[at + 3]@) == Some(w.3@)
        },
{
    let c = match parse_f64_token(&tokens[at]) {
        Some(text) => text,
        None => {
            return None;
        },
    };
    let m = match parse_f64_token(&tokens[at + 1]) {
        Some(text) => text,
        None => {
            return None;
        },
    };
    let y = match parse_f64_token(&tokens[at + 2]) {
        Some(text) => text,
        None => {
            return None;
        },
    };
    let k = match parse_f64_token(&tokens[at + 3]) {
        Some(text) => text,
        None => {
            return None;
        },
    };
    Some((c, m, y, k))
}

fn join_tokens(tokens: &Vec<Vec<char>>, from: usize) -> (joined: String)
    requires
        from <= tokens.len(),
    ensures
        joined@ == join_with_space(texts(tokens@).skip(from as int)),
{
    let ghost rest = texts(tokens@).skip(from as int);
    let mut out: Vec<char> = Vec::new();
    let mut i: usize = from;
    assert(rest.take(0) =~= Seq::<Seq<char>>::empty());
    while i < tokens.len()
        invariant
            from <= i <= tokens.len(),
            rest == texts(tokens@).skip(from as int),
            out@ == join_with_space(rest.take(i - from)),
        decreases tokens.len() - i,
    {
        let ghost upto = rest.take(i - from + 1);
        assert(upto.drop_last() == rest.take(i - from));
        assert(upto.last() == tokens[i as int]@);
        if i > from {
            out.push(' ');
        } else {
            assert(upto[0] == tokens[i as int]@);
        }
        let ghost before = out@;
        push_chars(&mut out, &tokens[i], 0, tokens[i].len());
        assert(tokens[i as int]@.subrange(0, tokens[i as int]@.len() as int) == tokens[i as int]@);
        i += 1;
    }
    assert(rest.take(rest.len() as int) == rest);
    string_of(&out)
}

/// The ink line as a mathematical value.
pub open spec fn ink_view(ink: (String, String, String, String, String)) -> InkLine {
    InkLine { c: ink.0@, m: ink.1@, y: ink.2@, k: ink.3@, ink_type: ink.4@ }
}

/// Reads one line of the renderer's output: the four levels, as texts,
/// and the ink type.
pub fn parse_inkcov_line(line: &Vec<char>) -> (parsed: Option<
    (String, String, String, String, String),
>)
    ensures
        match parsed {
            Some(ink) => inkcov_line(line@) == Some(ink_view(ink)) && levels_are_numbers(
                ink_view(ink),
            ),
            None => inkcov_line(line@).is_none(),
        },
{
    let tokens = words_of(line);
    if tokens.len() < 4 {
        assert(last_number_window(texts(tokens@), tokens.len() - 3).is_none());
        return None;
    }
    let mut limit: usize = tokens.len() - 3;
    while limit > 0
        invariant
            limit + 3 <= tokens.len(),
            texts(tokens@) == split_whitespace(line@),
            last_number_window(texts(tokens@), tokens.len() - 3) == last_number_window(
                texts(tokens@),
                limit as int,
            ),
        decreases limit,
    {
        let at = limit - 1;
        if let Some(w) = window_at(&tokens, at) {
            let ink_type = join_tokens(&tokens, at + 4);
            return Some((w.0, w.1, w.2, w.3, ink_type));
        }
        limit -= 1;
    }
    None
}

/// The profiles of the renderer's output, one for each line that gives
/// levels, numbered from 1 and no more than `page_count`.
pub fn parse_inkcov_profiles(output: &str, page_count: i64) -> (profiles: Vec<ColorProfile>)
    ensures
        profile_views(profiles@) == inkcov_profiles(output@, page_count as int),
        profiles.len() <= page_count || profiles.len() == 0,
        all_numeric(profile_views(profiles@)),
{
    let chars = chars_of(output);
    let lines = split_chars(&chars, '\n');
    let mut profiles: Vec<ColorProfile> = Vec::new();
    let mut i: usize = 0;
    assert(profile_views(profiles@) =~= Seq::<ProfileView>::empty());
    assert(texts(lines@).take(0) =~= Seq::<Seq<char>>::empty());
    while i < lines.len()
        invariant
            i <= lines.len(),
            profile_views(profiles@) == profiles_reading(
                texts(lines@).take(i as int),
                page_count as int,
            ),
            profiles.len() <= page_count || profiles.len() == 0,
            all_numeric(profile_views(profiles@)),
        decreases lines.len() - i,
    {
        let ghost upto = texts(lines@).take(i + 1);
        assert(upto.drop_last() == texts(lines@).take(i as int));
        assert(upto.last() == lines[i as int]@);
        if let Some(ink) = parse_inkcov_line(&lines[i]) {
            if page_count > 0 && (profiles.len() as u64) < (page_count as u64) {
                let ghost before = profile_views(profiles@);
                let page: i64 = profiles.len() as i64 + 1;
                profiles.push(
                    ColorProfile { page, c: ink.0, m: ink.1, y: ink.2, k: ink.3, ink_type: ink.4 },
                );
                assert(profile_views(profiles@) =~= before.push(
                    ProfileView { page: before.len() as int + 1, ink: ink_view(ink) },
                ));
            }
        }
        i += 1;
    }
    assert(texts(lines@).take(lines.len() as int) == texts(lines@));
    profiles
}

/// Makes the list one profile for each page: profiles beyond the count are
/// dropped, missing pages get a blank profile, and the pages are numbered
/// from 1.
pub fn normalize_profiles(profiles: Vec<ColorProfile>, page_count: i64) -> (normal: Vec<
    ColorProfile,
>)
    requires
        page_count <= usize::MAX,
    ensures
        profile_views(normal@) == normalized_profiles(
            profile_views(profiles@),
            page_count as int,
        ),
        page_count >= 0 ==> normal.len() == page_count,
        all_numeric(profile_views(profiles@)) ==> all_numeric(profile_views(normal@)),
{
    proof {
        lemma_zero_is_a_number();
    }
    let expected: usize = if page_count > 0 {
        page_count as usize
    } else {
        0
    };
    let ghost target = normalized_profiles(profile_views(profiles@), page_count as int);
    let mut normal: Vec<ColorProfile> = Vec::new();
    let mut i: usize = 0;
    assert(profile_views(normal@) =~= target.take(0));
    while i < expected
        invariant
            i <= expected,
            target == normalized_profiles(profile_views(profiles@), page_count as int),
            target.len() == expected,
            expected <= i64::MAX,
            profile_views(normal@) == target.take(i as int),
        decreases expected - i,
    {
        let ghost before = profile_views(normal@);
        let page: i64 = (i + 1) as i64;
        if i < profiles.len() {
            let old = &profiles[i];
            normal.push(
                ColorProfile {
                    page,
                    c: old.c.clone(),
                    m: old.m.clone(),
                    y: old.y.clone(),
                    k: old.k.clone(),
                    ink_type: old.ink_type.clone(),
                },
            );
        } else {
            proof {
                reveal_strlit("0");
                reveal_strlit("");
            }
            assert("0"@ =~= seq!['0']);
            assert(""@ =~= Seq::<char>::empty());
            normal.push(
                ColorProfile {
                    page,
                    c: "0".to_owned(),
                    m: "0".to_owned(),
                    y: "0".to_owned(),
                    k: "0".to_owned(),
                    ink_type: "".to_owned(),
                },
            );
        }
        assert(profile_views(normal@) =~= before.push(target[i as int]));
        i += 1;
        assert(target.take(i as int) =~= before.push(target[i - 1]));
    }
    assert(target.take(expected as int) == target);
    normal
}


/// The bytes `/Subtype /Widget`, which mark a form field in a document.
pub open spec fn widget_marker() -> Seq<u8> {
    seq![
        0x2fu8, 0x53u8, 0x75u8, 0x62u8, 0x74u8, 0x79u8, 0x70u8, 0x65u8, 0x20u8, 0x2fu8, 0x57u8,
        0x69u8, 0x64u8, 0x67u8, 0x65u8, 0x74u8,
    ]
}

/// Whether `pattern` stands somewhere in `bytes`.
pub open spec fn contains_window(bytes: Seq<u8>, pattern: Seq<u8>) -> bool {
    exists|at: int|
        0 <= at && at + pattern.len() <= bytes.len() && #[trigger] bytes.subrange(
            at,
            at + pattern.len(),
        ) == pattern
}

fn window_matches(bytes: &Vec<u8>, at: usize, pattern: &Vec<u8>) -> (same: bool)
    requires
        at + pattern.len() <= bytes.len(),
    ensures
        same == (bytes@.subrange(at as int, at + pattern.len()) == pattern@),
{
    let ghost window = bytes@.subrange(at as int, at + pattern.len());
    let mut i: usize = 0;
    while i < pattern.len()
        invariant
            i <= pattern.len(),
            at + pattern.len() <= bytes.len(),
            window == bytes@.subrange(at as int, at + pattern.len()),
            forall|j: int| 0 <= j < i ==> window[j] == pattern@[j],
        decreases pattern.len() - i,
    {
        if bytes[at + i] != pattern[i] {
            assert(window[i as int] != pattern@[i as int]);
            return false;
        }
        i += 1;
    }
    assert(window =~= pattern@);
    true
}

/// Whether the document holds a form field: whether the bytes
/// `/Subtype /Widget` stand somewhere in it.
pub fn has_form_fields(bytes: &Vec<u8>) -> (found: bool)
    ensures
        found == contains_window(bytes@, widget_marker()),
{
    let pattern: Vec<u8> = vec![
        0x2fu8, 0x53u8, 0x75u8, 0x62u8, 0x74u8, 0x79u8, 0x70u8, 0x65u8, 0x20u8, 0x2fu8, 0x57u8,
        0x69u8, 0x64u8, 0x67u8, 0x65u8, 0x74u8,
    ];
    assert(pattern@ =~= widget_marker());
    if bytes.len() < pattern.len() {
        return false;
    }
    let last = bytes.len() - pattern.len();
    let mut at: usize = 0;
    while at <= last
        invariant
            at <= last + 1,
            last + pattern.len() == bytes.len(),
            pattern@ == widget_marker(),
            forall|j: int|
                0 <= j < at ==> #[trigger] bytes@.subrange(j, j + pattern.len()) != pattern@,
        decreases last + 1 - at,
    {
        if window_matches(bytes, at, &pattern) {
            return true;
        }
        at += 1;
    }
    false
}

/// What a finished program left behind.
#[derive(Debug, Clone, PartialEq)]
pub struct CommandOutput {
    /// Whether the program ended with status zero.
    pub success: bool,
    /// The exit status, as the system words it.
    pub status: String,
    pub stdout: String,
    pub stderr: String,
}

/// Why a program failed, in words: what it wrote to its error stream,
/// trimmed; where that is nothing, what it wrote to its output, trimmed;
/// where that is nothing too, its name and its status.
pub open spec fn failure_reason(program: Seq<char>, output: CommandOutput) -> Seq<char> {
    if !is_blank(output.stderr@) {
        trim(output.stderr@)
    } else if !is_blank(output.stdout@) {
        trim(output.stdout@)
    } else {
        program + " failed with status "@ + output.status@
    }
}

/// The two streams of a program that succeeded, or the reason of its
/// failure.
pub fn command_result(program: &str, output: CommandOutput) -> (result: Result<
    (String, String),
    String,
>)
    ensures
        match result {
            Ok(streams) => output.success && streams.0 == output.stdout && streams.1
                == output.stderr,
            Err(reason) => !output.success && reason@ == failure_reason(program@, output),
        },
{
    if output.success {
        return Ok((output.stdout, output.stderr));
    }
    let message = trimmed(output.stderr.as_str());
    if message.len() > 0 {
        return Err(string_of(&message));
    }
    let fallback = trimmed(output.stdout.as_str());
    if fallback.len() > 0 {
        return Err(string_of(&fallback));
    }
    Err(join3(program, " failed with status ", output.status.as_str()))
}

/// How long a program may run, in milliseconds: the configured number
/// where it is a positive one, else two minutes.
pub fn command_timeout_ms(value: Option<String>) -> (limit: u64)
    ensures
        limit == positive_or(value, u64::MAX as int, 120_000),
{
    match value {
        Some(v) => {
            let chars = chars_of(v.as_str());
            match parse_u64(&chars) {
                Some(n) => if n > 0 {
                    n
                } else {
                    120_000
                },
                None => 120_000,
            }
        },
        None => 120_000,
    }
}

/// What is said of a program that ran longer than it may.
pub fn timeout_message(program: &str, limit_ms: u64) -> (message: String)
    ensures
        message@ == program@ + " timed out after "@ + decimal_digits(limit_ms as nat) + " ms"@,
{
    let mut out = chars_of(program);
    push_str(&mut out, " timed out after ");
    let digits = u64_to_chars(limit_ms);
    push_chars(&mut out, &digits, 0, digits.len());
    assert(digits@.subrange(0, digits.len() as int) == digits@);
    push_str(&mut out, " ms");
    string_of(&out)
}

/// The page count that a text spells: a positive integer.
pub open spec fn positive_count(text: Seq<char>) -> Option<i64> {
    match parse_signed(text, i64::MIN as int, i64::MAX as int) {
        Some(n) => if n > 0 {
            Some(n as i64)
        } else {
            None
        },
        None => None,
    }
}

fn parse_positive_count(text: &Vec<char>) -> (count: Option<i64>)
    ensures
        count == positive_count(text@),
{
    match parse_i64(text) {
        Some(n) => if n > 0 {
            Some(n)
        } else {
            None
        },
        None => None,
    }
}

/// What the renderer reported as the page count: its output, or its error
/// stream where the output is blank, trimmed.
pub open spec fn reported_count_text(stdout: Seq<char>, stderr: Seq<char>) -> Seq<char> {
    if is_blank(stdout) {
        trim(stderr)
    } else {
        trim(stdout)
    }
}

/// The page count that the renderer printed, or nothing where what it
/// printed is no positive integer.
pub fn parse_ghostscript_page_count(stdout: &str, stderr: &str) -> (count: Option<i64>)
    ensures
        count == positive_count(reported_count_text(stdout@, stderr@)),
{
    let out = trimmed(stdout);
    if out.len() == 0 {
        let err = trimmed(stderr);
        parse_positive_count(&err)
    } else {
        parse_positive_count(&out)
    }
}

/// The arguments with which the renderer prints the page count of a file.
pub fn page_count_args(file_path: &str) -> (args: Vec<String>)
    ensures
        string_views(args@) == seq![
            "-q"@,
            "-dNODISPLAY"@,
            "-dSAFER"@,
            "--permit-file-read="@ + file_path@,
            "-c"@,
            "("@ + file_path@ + ") (r) file runpdfbegin pdfpagecount = quit"@,
        ],
{
    let mut args: Vec<String> = Vec::new();
    args.push("-q".to_owned());
    args.push("-dNODISPLAY".to_owned());
    args.push("-dSAFER".to_owned());
    args.push(join2("--permit-file-read=", file_path));
    args.push("-c".to_owned());
    args.push(join3("(", file_path, ") (r) file runpdfbegin pdfpagecount = quit"));
    assert(string_views(args@) =~= seq![
        "-q"@,
        "-dNODISPLAY"@,
        "-dSAFER"@,
        "--permit-file-read="@ + file_path@,
        "-c"@,
        "("@ + file_path@ + ") (r) file runpdfbegin pdfpagecount = quit"@,
    ]);
    args
}

/// The arguments with which the renderer measures the ink coverage of each
/// page of a file.
pub fn inkcov_args(file_path: &str) -> (args: Vec<String>)
    ensures
        string_views(args@) == seq![
            "-q"@,
            "-o"@,
            "-"@,
            "-dSAFER"@,
            "-dBATCH"@,
            "-dNOPAUSE"@,
            "-sDEVICE=inkcov"@,
            file_path@,
        ],
{
    let mut args: Vec<String> = Vec::new();
    args.push("-q".to_owned());
    args.push("-o".to_owned());
    args.push("-".to_owned());
    args.push("-dSAFER".to_owned());
    args.push("-dBATCH".to_owned());
    args.push("-dNOPAUSE".to_owned());
    args.push("-sDEVICE=inkcov".to_owned());
    args.push(file_path.to_owned());
    assert(string_views(args@) =~= seq![
        "-q"@,
        "-o"@,
        "-"@,
        "-dSAFER"@,
        "-dBATCH"@,
        "-dNOPAUSE"@,
        "-sDEVICE=inkcov"@,
        file_path@,
    ]);
    args
}

/// The arguments with which the renderer writes a gray copy of a file.
pub fn grayscale_args(input_path: &str, output_path: &str) -> (args: Vec<String>)
    ensures
        string_views(args@) == seq![
            "-q"@,
            "-dNOPAUSE"@,
            "-dBATCH"@,
            "-dSAFER"@,
            "-sDEVICE=pdfwrite"@,
            "-sColorConversionStrategy=Gray"@,
            "-dProcessColorModel=/DeviceGray"@,
            "-sOutputFile="@ + output_path@,
            input_path@,
        ],
{
    let mut args: Vec<String> = Vec::new();
    args.push("-q".to_owned());
    args.push("-dNOPAUSE".to_owned());
    args.push("-dBATCH".to_owned());
    args.push("-dSAFER".to_owned());
    args.push("-sDEVICE=pdfwrite".to_owned());
    args.push("-sColorConversionStrategy=Gray".to_owned());
    args.push("-dProcessColorModel=/DeviceGray".to_owned());
    args.push(join2("-sOutputFile=", output_path));
    args.push(input_path.to_owned());
    assert(string_views(args@) =~= seq![
        "-q"@,
        "-dNOPAUSE"@,
        "-dBATCH"@,
        "-dSAFER"@,
        "-sDEVICE=pdfwrite"@,
        "-sColorConversionStrategy=Gray"@,
        "-dProcessColorModel=/DeviceGray"@,
        "-sOutputFile="@ + output_path@,
        input_path@,
    ]);
    args
}

/// What the renderer said of the ink coverage: its output where its error
/// stream is blank, the error stream where the output is blank, else the
/// output, a line break and the error stream.
pub open spec fn inkcov_report(stdout: Seq<char>, stderr: Seq<char>) -> Seq<char> {
    if is_blank(stderr) {
        stdout
    } else if is_blank(stdout) {
        stderr
    } else {
        stdout + "\n"@ + stderr
    }
}

/// The analysis of a document of `page_count` pages, made of what the
/// renderer printed for the ink coverage and of the document's bytes,
/// where they could be read: one profile for each page, and whether the
/// document holds a form field.
pub fn analyze_pdf(
    file_name: &str,
    page_count: i64,
    inkcov_stdout: &str,
    inkcov_stderr: &str,
    pdf_bytes: Option<&Vec<u8>>,
) -> (analysis: PdfAnalysis)
    requires
        1 <= page_count <= usize::MAX,
    ensures
        analysis.file_name@ == file_name@,
        analysis.page_count == page_count,
        analysis.has_formfields == match pdf_bytes {
            Some(bytes) => contains_window(bytes@, widget_marker()),
            None => false,
        },
        profile_views(analysis.color_profiles@) == normalized_profiles(
            inkcov_profiles(inkcov_report(inkcov_stdout@, inkcov_stderr@), page_count as int),
            page_count as int,
        ),
        analysis.color_profiles.len() == analysis.page_count,
        analysis.well_formed(),
{
    let report = if str_is_blank(inkcov_stderr) {
        inkcov_stdout.to_owned()
    } else if str_is_blank(inkcov_stdout) {
        inkcov_stderr.to_owned()
    } else {
        join3(inkcov_stdout, "\n", inkcov_stderr)
    };
    let parsed = parse_inkcov_profiles(report.as_str(), page_count);
    let color_profiles = normalize_profiles(parsed, page_count);
    let has_formfields = match pdf_bytes {
        Some(bytes) => has_form_fields(bytes),
        None => false,
    };
    assert forall|i: int| 0 <= i < color_profiles@.len() implies (#[trigger] color_profiles@[i]).page
        == i + 1 by {
        assert(profile_views(color_profiles@)[i] == color_profiles@[i]@);
    }
    PdfAnalysis { file_name: file_name.to_owned(), page_count, has_formfields, color_profiles }
}


/// What the first capture group of a regular expression holds in the
/// leftmost match of the expression in a text; nothing where the
/// expression is not well formed, does not match, or matches without that
/// group.
pub uninterp spec fn regex_first_group(pattern: Seq<char>, text: Seq<char>) -> Option<Seq<char>>;

/// `regex::Regex::new`, then `Regex::captures` and `Captures::get` for
/// group 1: the text of the first capture group in the leftmost match.
/// Matching is a function of the expression and the text alone.
#[verifier::external_body]
fn first_group(pattern: &str, text: &str) -> (group: Option<String>)
    ensures
        match group {
            Some(g) => regex_first_group(pattern@, text@) == Some(g@),
            None => regex_first_group(pattern@, text@).is_none(),
        },
{
    let expression = match regex::Regex::new(pattern) {
        Ok(expression) => expression,
        Err(_) => return None,
    };
    let found = match expression.captures(text) {
        Some(found) => found,
        None => return None,
    };
    match found.get(1) {
        Some(group) => Some(group.as_str().to_string()),
        None => None,
    }
}

/// The expression for the line on which the information utility names the
/// page count: `Pages:`, white space, digits, alone on a line but for
/// white space.
pub open spec fn pages_pattern() -> Seq<char> {
    "(?m)^\\s*Pages:\\s+(\\d+)\\s*$"@
}

/// The page count that the digits of a `Pages:` line spell, if they spell
/// a positive integer.
pub fn page_count_from_capture(capture: Option<&str>) -> (count: Option<i64>)
    ensures
        count == match capture {
            Some(digits) => positive_count(digits@),
            None => None,
        },
{
    match capture {
        Some(digits) => {
            let chars = chars_of(digits);
            parse_positive_count(&chars)
        },
        None => None,
    }
}

/// Why the information utility gave no page count, so that the renderer
/// has to count.
#[derive(Debug, Clone, Copy, PartialEq, Eq, Structural)]
pub enum PdfinfoFallback {
    /// The utility ended with a failure.
    Failed,
    /// Its output has no `Pages:` line.
    MissingPagesField,
    /// The `Pages:` line does not hold a positive integer.
    InvalidPagesValue,
}

/// The page count in the output of the information utility: the utility
/// has to have succeeded, its output to hold a `Pages:` line, and the
/// digits of the first such line to spell a positive integer.
pub open spec fn pdfinfo_count(output: CommandOutput) -> Result<i64, PdfinfoFallback> {
    if !output.success {
        Err(PdfinfoFallback::Failed)
    } else {
        match regex_first_group(pages_pattern(), output.stdout@) {
            None => Err(PdfinfoFallback::MissingPagesField),
            Some(digits) => match positive_count(digits) {
                Some(n) => Ok(n),
                None => Err(PdfinfoFallback::InvalidPagesValue),
            },
        }
    }
}

pub fn pdfinfo_page_count(output: &CommandOutput) -> (count: Result<i64, PdfinfoFallback>)
    ensures
        count == pdfinfo_count(*output),
{
    if !output.success {
        return Err(PdfinfoFallback::Failed);
    }
    let capture = first_group("(?m)^\\s*Pages:\\s+(\\d+)\\s*$", output.stdout.as_str());
    match capture {
        None => Err(PdfinfoFallback::MissingPagesField),
        Some(digits) => match page_count_from_capture(Some(digits.as_str())) {
            Some(n) => Ok(n),
            None => Err(PdfinfoFallback::InvalidPagesValue),
        },
    }
}

/// Why the renderer has to count, in words: for a failure, what the
/// utility wrote to its error stream, trimmed, or its status where that is
/// nothing.
pub open spec fn fallback_reason(fallback: PdfinfoFallback, output: CommandOutput) -> Seq<char> {
    match fallback {
        PdfinfoFallback::Failed => if is_blank(output.stderr@) {
            "exit="@ + output.status@
        } else {
            trim(output.stderr@)
        },
        PdfinfoFallback::MissingPagesField => "missing Pages field in pdfinfo output"@,
        PdfinfoFallback::InvalidPagesValue => "invalid Pages value in pdfinfo output"@,
    }
}

pub fn describe_fallback(fallback: PdfinfoFallback, output: &CommandOutput) -> (reason: String)
    ensures
        reason@ == fallback_reason(fallback, *output),
{
    match fallback {
        PdfinfoFallback::Failed => {
            let message = trimmed(output.stderr.as_str());
            if message.len() == 0 {
                join2("exit=", output.status.as_str())
            } else {
                string_of(&message)
            }
        },
        PdfinfoFallback::MissingPagesField => "missing Pages field in pdfinfo output".to_owned(),
        PdfinfoFallback::InvalidPagesValue => "invalid Pages value in pdfinfo output".to_owned(),
    }
}

/// Whether the fallback to the renderer was written to the log already.
#[derive(Debug, Clone, Copy, PartialEq)]
pub struct FallbackLog {
    pub logged: bool,
}

/// The reason to write to the log: the first reason is written, every
/// later one is not.
pub fn log_pdfinfo_fallback(log: &mut FallbackLog, reason: &str) -> (entry: Option<String>)
    ensures
        final(log).logged,
        match entry {
            Some(text) => !old(log).logged && text@ == reason@,
            None => old(log).logged,
        },
{
    if log.logged {
        return None;
    }
    log.logged = true;
    Some(reason.to_owned())
}


/// Why the renderer has to count the pages.
#[derive(Debug, Clone, PartialEq)]
pub enum FallbackCause {
    /// The information utility could not be started, with the system's
    /// words.
    SpawnFailed(String),
    /// The utility ran and gave no page count.
    NoCount { fallback: PdfinfoFallback, output: CommandOutput },
}

/// Why the renderer has to count, in words.
pub open spec fn cause_text(cause: FallbackCause) -> Seq<char> {
    match cause {
        FallbackCause::SpawnFailed(error) => "spawn failed: "@ + error@,
        FallbackCause::NoCount { fallback, output } => fallback_reason(fallback, output),
    }
}

pub fn describe_cause(cause: &FallbackCause) -> (reason: String)
    ensures
        reason@ == cause_text(*cause),
{
    match cause {
        FallbackCause::SpawnFailed(error) => join2("spawn failed: ", error.as_str()),
        FallbackCause::NoCount { fallback, output } => describe_fallback(*fallback, output),
    }
}

/// Why a document has no page count.
#[derive(Debug, Clone, PartialEq)]
pub enum PageCountError {
    /// The renderer failed, with its words.
    Toolchain(String),
    /// What the renderer printed is no positive integer.
    InvalidCount,
}

/// What each error says.
pub open spec fn page_count_error_text(error: PageCountError) -> Seq<char> {
    match error {
        PageCountError::Toolchain(message) => message@,
        PageCountError::InvalidCount => "Invalid page count reported by Ghostscript."@,
    }
}

impl PageCountError {
    pub fn message(&self) -> (text: String)
        ensures
            text@ == page_count_error_text(*self),
    {
        match self {
            PageCountError::Toolchain(message) => message.clone(),
            PageCountError::InvalidCount => "Invalid page count reported by Ghostscript.".to_owned(),
        }
    }
}

/// Where the counting of a document's pages stands.
#[derive(Debug, Clone, PartialEq)]
pub enum PageCountState {
    /// Waiting for the information utility.
    AwaitingPdfinfo { file_path: String },
    /// Waiting for the renderer.
    AwaitingGhostscript,
    Done,
}

/// What came of the program that was run.
#[derive(Debug, PartialEq)]
pub enum PageCountEvent {
    /// What the information utility left behind, or why it did not start.
    Pdfinfo(Result<CommandOutput, String>),
    /// The two streams of the renderer, or the reason of its failure.
    Ghostscript(Result<(String, String), String>),
}

/// What is to be done next to count the pages.
#[derive(Debug, PartialEq)]
pub enum PageCountAction {
    /// Run the information utility on the file.
    RunPdfinfo { file_path: String },
    /// Run the renderer with the arguments of `page_count_args` for the
    /// file, because of `cause`.
    RunGhostscript { file_path: String, cause: FallbackCause },
    Finish(Result<i64, PageCountError>),
}

pub open spec fn page_count_accepts(state: PageCountState, event: PageCountEvent) -> bool {
    match (state, event) {
        (PageCountState::AwaitingPdfinfo { .. }, PageCountEvent::Pdfinfo(_)) => true,
        (PageCountState::AwaitingGhostscript, PageCountEvent::Ghostscript(_)) => true,
        _ => false,
    }
}

/// The next state of the counting and what is to be done: the count of
/// the information utility is taken where it gives one; else the renderer
/// counts, and what it prints has to be a positive integer.
pub open spec fn page_count_step(state: PageCountState, event: PageCountEvent) -> (
    PageCountState,
    PageCountAction,
) {
    match (state, event) {
        (PageCountState::AwaitingPdfinfo { file_path }, PageCountEvent::Pdfinfo(Err(error))) => (
            PageCountState::AwaitingGhostscript,
            PageCountAction::RunGhostscript { file_path, cause: FallbackCause::SpawnFailed(error) },
        ),
        (PageCountState::AwaitingPdfinfo { file_path }, PageCountEvent::Pdfinfo(Ok(output))) => match pdfinfo_count(
            output,
        ) {
            Ok(pages) => (PageCountState::Done, PageCountAction::Finish(Ok(pages))),
            Err(fallback) => (
                PageCountState::AwaitingGhostscript,
                PageCountAction::RunGhostscript {
                    file_path,
                    cause: FallbackCause::NoCount { fallback, output },
                },
            ),
        },
        (PageCountState::AwaitingGhostscript, PageCountEvent::Ghostscript(Err(message))) => (
            PageCountState::Done,
            PageCountAction::Finish(Err(PageCountError::Toolchain(message))),
        ),
        (PageCountState::AwaitingGhostscript, PageCountEvent::Ghostscript(Ok(streams))) => match positive_count(
            reported_count_text(streams.0@, streams.1@),
        ) {
            Some(pages) => (PageCountState::Done, PageCountAction::Finish(Ok(pages))),
            None => (
                PageCountState::Done,
                PageCountAction::Finish(Err(PageCountError::InvalidCount)),
            ),
        },
        _ => arbitrary(),
    }
}

impl PageCountState {
    /// The counting at its beginning, with what is to be done first.
    pub fn start(file_path: String) -> (begun: (PageCountState, PageCountAction))
        ensures
            begun.0 == (PageCountState::AwaitingPdfinfo { file_path }),
            begun.1 == (PageCountAction::RunPdfinfo { file_path }),
    {
        let action = PageCountAction::RunPdfinfo { file_path: file_path.clone() };
        (PageCountState::AwaitingPdfinfo { file_path }, action)
    }

    pub fn accepts(&self, event: &PageCountEvent) -> (fits: bool)
        ensures
            fits == page_count_accepts(*self, *event),
    {
        match (self, event) {
            (PageCountState::AwaitingPdfinfo { .. }, PageCountEvent::Pdfinfo(_)) => true,
            (PageCountState::AwaitingGhostscript, PageCountEvent::Ghostscript(_)) => true,
            _ => false,
        }
    }

    pub fn step(self, event: PageCountEvent) -> (next: (PageCountState, PageCountAction))
        requires
            page_count_accepts(self, event),
        ensures
            next == page_count_step(self, event),
    {
        match (self, event) {
            (PageCountState::AwaitingPdfinfo { file_path }, PageCountEvent::Pdfinfo(Err(error))) => (
                PageCountState::AwaitingGhostscript,
                PageCountAction::RunGhostscript {
                    file_path,
                    cause: FallbackCause::SpawnFailed(error),
                },
            ),
            (PageCountState::AwaitingPdfinfo { file_path }, PageCountEvent::Pdfinfo(Ok(output))) => {
                match pdfinfo_page_count(&output) {
                    Ok(pages) => (PageCountState::Done, PageCountAction::Finish(Ok(pages))),
                    Err(fallback) => (
                        PageCountState::AwaitingGhostscript,
                        PageCountAction::RunGhostscript {
                            file_path,
                            cause: FallbackCause::NoCount { fallback, output },
                        },
                    ),
                }
            },
            (PageCountState::AwaitingGhostscript, PageCountEvent::Ghostscript(Err(message))) => (
                PageCountState::Done,
                PageCountAction::Finish(Err(PageCountError::Toolchain(message))),
            ),
            (PageCountState::AwaitingGhostscript, PageCountEvent::Ghostscript(Ok(streams))) => {
                match parse_ghostscript_page_count(streams.0.as_str(), streams.1.as_str()) {
                    Some(pages) => (PageCountState::Done, PageCountAction::Finish(Ok(pages))),
                    None => (
                        PageCountState::Done,
                        PageCountAction::Finish(Err(PageCountError::InvalidCount)),
                    ),
                }
            },
            _ => unreached(),
        }
    }
}

} // verus!

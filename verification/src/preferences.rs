use vstd::prelude::*;

verus! {

/// The characters that `char::is_whitespace` accepts: those with the Unicode property
/// `White_Space`.
pub open spec fn is_whitespace(c: char) -> bool {
    ||| '\u{9}' <= c <= '\u{D}'
    ||| c == ' '
    ||| c == '\u{85}'
    ||| c == '\u{A0}'
    ||| c == '\u{1680}'
    ||| '\u{2000}' <= c <= '\u{200A}'
    ||| c == '\u{2028}'
    ||| c == '\u{2029}'
    ||| c == '\u{202F}'
    ||| c == '\u{205F}'
    ||| c == '\u{3000}'
}

/// The text without its leading whitespace.
pub open spec fn trim_start(s: Seq<char>) -> Seq<char>
    decreases s.len(),
{
    if s.len() > 0 && is_whitespace(s[0]) {
        trim_start(s.drop_first())
    } else {
        s
    }
}

/// The text without its trailing whitespace.
pub open spec fn trim_end(s: Seq<char>) -> Seq<char>
    decreases s.len(),
{
    if s.len() > 0 && is_whitespace(s.last()) {
        trim_end(s.drop_last())
    } else {
        s
    }
}

/// The text without leading and trailing whitespace.
pub open spec fn trim(s: Seq<char>) -> Seq<char> {
    trim_end(trim_start(s))
}

/// The character with an ASCII capital letter turned into its small letter.
pub open spec fn ascii_lowercase(c: char) -> char {
    if 'A' <= c <= 'Z' {
        ((c as int) + 32) as char
    } else {
        c
    }
}

/// The text with its ASCII capital letters turned into small letters.
pub open spec fn to_ascii_lowercase(s: Seq<char>) -> Seq<char> {
    s.map_values(|c: char| ascii_lowercase(c))
}

/// What the value of a yes/no setting means: ignoring surrounding whitespace and the case of
/// ASCII letters, "1", "true", "yes" and "on" mean yes, "0", "false", "no" and "off" mean no;
/// anything else means nothing.
pub open spec fn flag_meaning(text: Seq<char>) -> Option<bool> {
    let word = to_ascii_lowercase(trim(text));
    if word == seq!['1'] || word == seq!['t', 'r', 'u', 'e'] || word == seq!['y', 'e', 's']
        || word == seq!['o', 'n'] {
        Some(true)
    } else if word == seq!['0'] || word == seq!['f', 'a', 'l', 's', 'e'] || word == seq![
        'n',
        'o',
    ] || word == seq!['o', 'f', 'f'] {
        Some(false)
    } else {
        None
    }
}

fn char_is_whitespace(c: char) -> (b: bool)
    ensures
        b == is_whitespace(c),
{
    ('\u{9}' <= c && c <= '\u{D}') || c == ' ' || c == '\u{85}' || c == '\u{A0}' || c
        == '\u{1680}' || ('\u{2000}' <= c && c <= '\u{200A}') || c == '\u{2028}' || c
        == '\u{2029}' || c == '\u{202F}' || c == '\u{205F}' || c == '\u{3000}'
}

fn collect_chars(s: &str) -> (v: Vec<char>)
    ensures
        v@ == s@,
{
    let mut v: Vec<char> = Vec::new();
    for c in it: s.chars()
        invariant
            v@ == it.seq().take(it.index() as int),
    {
        v.push(c);
    }
    v
}

/// The bounds of the text once leading and trailing whitespace is cut off.
fn trimmed_bounds(chars: &Vec<char>) -> (bounds: (usize, usize))
    ensures
        bounds.0 <= bounds.1 <= chars.len(),
        trim(chars@) == chars@.subrange(bounds.0 as int, bounds.1 as int),
{
    let n = chars.len();
    let mut start: usize = 0;
    assert(chars@.subrange(0, n as int) =~= chars@);
    while start < n && char_is_whitespace(chars[start])
        invariant
            n == chars.len(),
            start <= n,
            trim_start(chars@) == trim_start(chars@.subrange(start as int, n as int)),
        decreases n - start,
    {
        assert(chars@.subrange(start as int, n as int).drop_first() =~= chars@.subrange(
            start + 1,
            n as int,
        ));
        start = start + 1;
    }
    assert(trim_start(chars@) == chars@.subrange(start as int, n as int));
    let mut end: usize = n;
    while end > start && char_is_whitespace(chars[end - 1])
        invariant
            n == chars.len(),
            start <= end <= n,
            trim(chars@) == trim_end(chars@.subrange(start as int, end as int)),
        decreases end,
    {
        assert(chars@.subrange(start as int, end as int).drop_last() =~= chars@.subrange(
            start as int,
            end - 1,
        ));
        end = end - 1;
    }
    (start, end)
}

fn char_to_ascii_lowercase(c: char) -> (l: char)
    ensures
        l == ascii_lowercase(c),
{
    if 'A' <= c && c <= 'Z' {
        ((c as u8) + 32) as char
    } else {
        c
    }
}

/// Whether the characters in `start..end`, with ASCII capitals made small, spell `word`.
fn spells_ignoring_ascii_case(chars: &Vec<char>, start: usize, end: usize, word: &Vec<char>) -> (b:
    bool)
    requires
        start <= end <= chars.len(),
    ensures
        b == (to_ascii_lowercase(chars@.subrange(start as int, end as int)) == word@),
{
    let ghost text = chars@.subrange(start as int, end as int);
    if end - start != word.len() {
        assert(to_ascii_lowercase(text).len() != word@.len());
        return false;
    }
    let mut i: usize = 0;
    while i < word.len()
        invariant
            start <= end <= chars.len(),
            end - start == word.len(),
            text == chars@.subrange(start as int, end as int),
            i <= word.len(),
            forall|j: int| 0 <= j < i ==> ascii_lowercase(#[trigger] text[j]) == word@[j],
        decreases word.len() - i,
    {
        if char_to_ascii_lowercase(chars[start + i]) != word[i] {
            assert(to_ascii_lowercase(text)[i as int] != word@[i as int]);
            return false;
        }
        i = i + 1;
    }
    assert(to_ascii_lowercase(text) =~= word@);
    true
}

/// What the value of a yes/no setting means (see `flag_meaning`).
pub fn parse_flag(value: &str) -> (flag: Option<bool>)
    ensures
        flag == flag_meaning(value@),
{
    let chars = collect_chars(value);
    let (start, end) = trimmed_bounds(&chars);
    let yes_words = vec![vec!['1'], vec!['t', 'r', 'u', 'e'], vec!['y', 'e', 's'], vec!['o', 'n']];
    let no_words = vec![vec!['0'], vec!['f', 'a', 'l', 's', 'e'], vec!['n', 'o'], vec!['o', 'f', 'f']];
    assert(yes_words@[0]@ =~= seq!['1']);
    assert(yes_words@[1]@ =~= seq!['t', 'r', 'u', 'e']);
    assert(yes_words@[2]@ =~= seq!['y', 'e', 's']);
    assert(yes_words@[3]@ =~= seq!['o', 'n']);
    assert(no_words@[0]@ =~= seq!['0']);
    assert(no_words@[1]@ =~= seq!['f', 'a', 'l', 's', 'e']);
    assert(no_words@[2]@ =~= seq!['n', 'o']);
    assert(no_words@[3]@ =~= seq!['o', 'f', 'f']);
    if spells_ignoring_ascii_case(&chars, start, end, &yes_words[0])
        || spells_ignoring_ascii_case(&chars, start, end, &yes_words[1])
        || spells_ignoring_ascii_case(&chars, start, end, &yes_words[2])
        || spells_ignoring_ascii_case(&chars, start, end, &yes_words[3]) {
        Some(true)
    } else if spells_ignoring_ascii_case(&chars, start, end, &no_words[0])
        || spells_ignoring_ascii_case(&chars, start, end, &no_words[1])
        || spells_ignoring_ascii_case(&chars, start, end, &no_words[2])
        || spells_ignoring_ascii_case(&chars, start, end, &no_words[3]) {
        Some(false)
    } else {
        None
    }
}

/// Whether the board is drawn with chess glyphs rather than letters, given the meaning of the
/// two settings that can ask for letters: glyphs unless the glyph setting says no or the letter
/// setting says yes.
pub fn prefers_unicode_symbols(unicode_flag: Option<bool>, ascii_flag: Option<bool>) -> (b: bool)
    ensures
        b == !(unicode_flag == Some(false) || ascii_flag == Some(true)),
{
    if let Some(false) = unicode_flag {
        return false;
    }
    if let Some(true) = ascii_flag {
        return false;
    }
    true
}

} // verus!

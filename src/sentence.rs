//! Turning identifiers such as `fooBar` or `foo_bar` into labels such as `Foo bar`.
use vstd::prelude::*;

verus! {

/// Whether `char::is_alphanumeric` holds of a character.
pub uninterp spec fn alnum(c: char) -> bool;

/// Whether `char::is_numeric` holds of a character.
pub uninterp spec fn numeric(c: char) -> bool;

/// Whether `char::is_lowercase` holds of a character.
pub uninterp spec fn lowercase(c: char) -> bool;

/// Whether `char::is_uppercase` holds of a character.
pub uninterp spec fn uppercase(c: char) -> bool;

/// Relies on `char::is_alphanumeric`, which depends on the character alone.
#[verifier::external_body]
fn char_is_alphanumeric(c: char) -> (r: bool)
    ensures
        r == alnum(c),
{
    c.is_alphanumeric()
}

/// Relies on `char::is_numeric`, which depends on the character alone.
#[verifier::external_body]
fn char_is_numeric(c: char) -> (r: bool)
    ensures
        r == numeric(c),
{
    c.is_numeric()
}

/// Relies on `char::is_lowercase`, which depends on the character alone.
#[verifier::external_body]
fn char_is_lowercase(c: char) -> (r: bool)
    ensures
        r == lowercase(c),
{
    c.is_lowercase()
}

/// Relies on `char::is_uppercase`, which depends on the character alone.
#[verifier::external_body]
fn char_is_uppercase(c: char) -> (r: bool)
    ensures
        r == uppercase(c),
{
    c.is_uppercase()
}

/// Relies on `String::push`: the character is appended at the end.
#[verifier::external_body]
pub(crate) fn push_char(s: &mut String, c: char)
    ensures
        final(s)@ == old(s)@.push(c),
{
    s.push(c)
}

/// ASCII upper case of a character; any other character is kept.
pub open spec fn ascii_upper(c: char) -> char {
    if 'a' <= c && c <= 'z' {
        ((c as u32) - 32) as char
    } else {
        c
    }
}

/// ASCII lower case of a character; any other character is kept.
pub open spec fn ascii_lower(c: char) -> char {
    if 'A' <= c && c <= 'Z' {
        ((c as u32) + 32) as char
    } else {
        c
    }
}

fn to_ascii_upper(c: char) -> (r: char)
    ensures
        r == ascii_upper(c),
{
    if 'a' <= c && c <= 'z' {
        ((c as u8) - 32) as char
    } else {
        c
    }
}

fn to_ascii_lower(c: char) -> (r: char)
    ensures
        r == ascii_lower(c),
{
    if 'A' <= c && c <= 'Z' {
        ((c as u8) + 32) as char
    } else {
        c
    }
}


/// Where the casing walk stands after a prefix of its input.
pub struct CaseWalk {
    /// The next letter starts a new word.
    pub new_word: bool,
    /// No word has been started yet.
    pub first_word: bool,
    /// The last letter copied in the middle of a word (a space at first).
    pub last_char: char,
    /// An alphanumeric character has been met.
    pub found_real_char: bool,
    /// The text produced so far.
    pub out: Seq<char>,
}

/// `out` with a word started by `c`: the very first word opens in upper
/// case, every later one is set off by a space and opens in lower case.
pub open spec fn word_start(out: Seq<char>, first_word: bool, c: char) -> Seq<char> {
    if first_word {
        out.push(ascii_upper(c))
    } else {
        out.push(' ').push(ascii_lower(c))
    }
}

/// One character of the walk. Separators end a word (leading ones are
/// skipped), digits are copied and end a word, a letter after a separator or
/// at a lower-to-upper case change starts a word, any other letter is copied
/// in lower case.
pub open spec fn case_step(w: CaseWalk, c: char) -> CaseWalk {
    if !alnum(c) && w.found_real_char {
        CaseWalk { new_word: true, ..w }
    } else if !w.found_real_char && !alnum(c) {
        w
    } else if numeric(c) {
        CaseWalk { found_real_char: true, new_word: true, out: w.out.push(c), ..w }
    } else if w.new_word || (lowercase(w.last_char) && uppercase(c) && w.last_char != ' ') {
        CaseWalk {
            found_real_char: true,
            new_word: false,
            out: word_start(w.out, w.first_word, c),
            first_word: false,
            ..w
        }
    } else {
        CaseWalk {
            found_real_char: true,
            last_char: c,
            out: w.out.push(ascii_lower(c)),
            ..w
        }
    }
}

/// The walk before any character.
pub open spec fn case_start() -> CaseWalk {
    CaseWalk {
        new_word: true,
        first_word: true,
        last_char: ' ',
        found_real_char: false,
        out: Seq::empty(),
    }
}

/// The walk over all of `s`, left to right.
pub open spec fn case_walk(s: Seq<char>) -> CaseWalk
    decreases s.len(),
{
    if s.len() == 0 {
        case_start()
    } else {
        case_step(case_walk(s.drop_last()), s.last())
    }
}

/// `s` without its trailing characters that are not alphanumeric.
pub open spec fn trim_end_separators(s: Seq<char>) -> Seq<char>
    decreases s.len(),
{
    if s.len() == 0 || alnum(s.last()) {
        s
    } else {
        trim_end_separators(s.drop_last())
    }
}

/// The sentence-case label of `s`.
pub open spec fn sentence_case(s: Seq<char>) -> Seq<char> {
    case_walk(trim_end_separators(s)).out
}

/// Appends a word opened by `character` to `result` (see `word_start`).
pub fn append_on_new_word(result: String, first_word: bool, character: char) -> (r: String)
    ensures
        r@ == word_start(result@, first_word, character),
{
    let mut result = result;
    if !first_word {
        push_char(&mut result, ' ');
    }
    if first_word {
        push_char(&mut result, to_ascii_upper(character));
    } else {
        push_char(&mut result, to_ascii_lower(character));
    }
    result
}

/// Whether `character` separates words.
pub fn is_not_alphanumeric(character: char) -> (r: bool)
    ensures
        r == !alnum(character),
{
    !char_is_alphanumeric(character)
}

/// Sentence case of an identifier: words split at separators and at
/// lower-to-upper case changes, joined by single spaces, the first letter in
/// upper case and the others in lower case.
pub fn to_sentence_case(convertable_string: &str) -> (r: String)
    ensures
        r@ == sentence_case(convertable_string@),
{
    let ghost s = convertable_string@;
    let n = convertable_string.unicode_len();
    let mut end: usize = n;
    assert(s.subrange(0, n as int) =~= s);
    loop
        invariant
            s == convertable_string@,
            n == s.len(),
            end <= n,
            trim_end_separators(s.subrange(0, end as int)) == trim_end_separators(s),
        ensures
            end <= n,
            trim_end_separators(s.subrange(0, end as int)) == trim_end_separators(s),
            end == 0 || alnum(s[end - 1]),
        decreases end,
    {
        if end == 0 {
            break;
        }
        let c = convertable_string.get_char(end - 1);
        if !is_not_alphanumeric(c) {
            break;
        }
        assert(s.subrange(0, end as int).drop_last() =~= s.subrange(0, end - 1));
        end = end - 1;
    }
    let ghost t = s.subrange(0, end as int);
    assert(end > 0 ==> t.last() == s[end - 1]);
    assert(trim_end_separators(t) == t);
    let mut new_word: bool = true;
    let mut first_word: bool = true;
    let mut last_char: char = ' ';
    let mut found_real_char: bool = false;
    let mut result: String = String::new();
    let mut i: usize = 0;
    while i < end
        invariant
            s == convertable_string@,
            end <= n,
            n == s.len(),
            t == s.subrange(0, end as int),
            i <= end,
            ({
                let w = case_walk(t.subrange(0, i as int));
                &&& w.new_word == new_word
                &&& w.first_word == first_word
                &&& w.last_char == last_char
                &&& w.found_real_char == found_real_char
                &&& w.out == result@
            }),
        decreases end - i,
    {
        let character = convertable_string.get_char(i);
        assert(t.subrange(0, i + 1).drop_last() =~= t.subrange(0, i as int));
        assert(t.subrange(0, i + 1).last() == character);
        if is_not_alphanumeric(character) && found_real_char {
            new_word = true;
        } else if !found_real_char && is_not_alphanumeric(character) {
        } else if char_is_numeric(character) {
            found_real_char = true;
            new_word = true;
            push_char(&mut result, character);
        } else if new_word || ((char_is_lowercase(last_char) && char_is_uppercase(character))
            && (last_char != ' ')) {
            found_real_char = true;
            new_word = false;
            result = append_on_new_word(result, first_word, character);
            first_word = false;
        } else {
            found_real_char = true;
            last_char = character;
            push_char(&mut result, to_ascii_lower(character));
        }
        i = i + 1;
    }
    assert(t.subrange(0, end as int) =~= t);
    result
}

} // verus!

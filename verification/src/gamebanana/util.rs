use crate::error::ModError;
use regex::Regex;
use vstd::prelude::*;
use vstd::std_specs::iter::IteratorSpec;

verus! {

broadcast use vstd::string::group_string_axioms;

/// The character that brackets a run of compound words which is to be rewritten.
pub const MARKER: char = '\u{24df}';

/// The character that stands for "no character yet" at the start of a text.
pub const QUOTE: char = '"';

/// The number of markers in `s`.
pub open spec fn markers(s: Seq<char>) -> nat
    decreases s.len(),
{
    if s.len() == 0 {
        0
    } else {
        markers(s.drop_last()) + if s.last() == MARKER {
            1nat
        } else {
            0nat
        }
    }
}

/// Whether position `i` of `s` lies inside a bracketed run: an odd number of markers
/// stands before it.
pub open spec fn bracketed(s: Seq<char>, i: int) -> bool {
    markers(s.take(i)) % 2 == 1
}

/// The last character before position `i` of `s` that is no marker, or a double quote
/// when there is none: the start of a text counts like the start of a quoted name.
pub open spec fn previous(s: Seq<char>, i: int) -> char
    decreases i,
{
    if i <= 0 {
        QUOTE
    } else if s[i - 1] != MARKER {
        s[i - 1]
    } else {
        previous(s, i - 1)
    }
}

/// `c` with the letters `A` to `Z` turned into `a` to `z`.
pub open spec fn ascii_lowercase(c: char) -> char {
    if 'A' <= c && c <= 'Z' {
        ((c as u8) + 32) as char
    } else {
        c
    }
}

/// What `char::is_uppercase` answers for `c`: whether Unicode gives it the property
/// `Uppercase`.
pub uninterp spec fn is_uppercase(c: char) -> bool;

/// `char::is_uppercase` answers by the Unicode property `Uppercase` of the character
/// alone. Of the ASCII characters, the letters `A` to `Z` have that property and no
/// other character has it.
pub assume_specification[ char::is_uppercase ](c: char) -> (r: bool)
    ensures
        r == is_uppercase(c),
        c <= '\x7f' ==> r == ('A' <= c && c <= 'Z'),
;

/// What the character at position `i` of `s` becomes: a marker vanishes; outside a
/// bracketed run a character stays; inside one a character right behind a double quote
/// is lowered, and any other upper-case character is lowered behind an underscore.
pub open spec fn rendered(s: Seq<char>, i: int) -> Seq<char> {
    let c = s[i];
    if c == MARKER {
        Seq::empty()
    } else if !bracketed(s, i) {
        seq![c]
    } else if previous(s, i) == QUOTE {
        seq![ascii_lowercase(c)]
    } else if is_uppercase(c) {
        seq!['_', ascii_lowercase(c)]
    } else {
        seq![c]
    }
}

/// What the first `n` characters of `s` become.
pub open spec fn snake_case_prefix(s: Seq<char>, n: nat) -> Seq<char>
    decreases n,
{
    if n == 0 {
        Seq::empty()
    } else {
        snake_case_prefix(s, (n - 1) as nat) + rendered(s, n - 1)
    }
}

/// `s` with its bracketed runs of compound words turned to snake case and the
/// markers taken out.
pub open spec fn snake_case(s: Seq<char>) -> Seq<char> {
    snake_case_prefix(s, s.len())
}

/// The error with which the `regex` crate refuses a pattern.
#[verifier::external_type_specification]
#[verifier::external_body]
pub struct ExRegexError(regex::Error);

/// What `Regex::replace_all` returns for the regular expression compiled from
/// `pattern`, the text `haystack` and the replacement `replacement`.
pub uninterp spec fn regex_replace_all(
    pattern: Seq<char>,
    haystack: Seq<char>,
    replacement: Seq<char>,
) -> Seq<char>;

/// Whether `Regex::new` accepts `pattern`: whether it is a regular expression of the
/// crate's syntax that compiles within the crate's own limits.
pub uninterp spec fn regex_compiles(pattern: Seq<char>) -> bool;

/// Compiles `pattern` with `Regex::new` and hands its error back when it does not
/// compile, which depends on the pattern alone; otherwise the result is what
/// `Regex::replace_all` makes of `haystack`: every match, found from left to right
/// without overlap, replaced by `replacement` with its `$` references filled in.
#[verifier::external_body]
fn replace_all(pattern: &str, haystack: &str, replacement: &str) -> (r: Result<
    String,
    regex::Error,
>)
    ensures
        r is Ok <==> regex_compiles(pattern@),
        r matches Ok(t) ==> t@ == regex_replace_all(pattern@, haystack@, replacement@),
{
    match Regex::new(pattern) {
        Ok(re) => Ok(re.replace_all(haystack, replacement).into_owned()),
        Err(e) => Err(e),
    }
}

/// The pattern of a compact field name: a type prefix of an underscore and lower-case
/// letters, then one or more capitalised words.
pub open spec fn key_pattern() -> Seq<char> {
    "(_[a-z]+)(([A-Z][a-z]+)+)"@
}

/// What a compact field name is replaced with: its capitalised words between two
/// markers, the type prefix dropped.
pub open spec fn key_replacement() -> Seq<char> {
    "\u{24df}$2\u{24df}"@
}

/// `c` with the letters `A` to `Z` turned into `a` to `z`.
pub fn to_ascii_lowercase(c: char) -> (r: char)
    ensures
        r == ascii_lowercase(c),
{
    if 'A' <= c && c <= 'Z' {
        ((c as u8) + 32u8) as char
    } else {
        c
    }
}

/// Turns the bracketed runs of compound words in `s` to snake case and takes the
/// markers out.
pub fn to_snake_case(s: &str) -> (r: String)
    ensures
        r@ == snake_case(s@),
{
    let mut new = String::new();
    let mut last: char = QUOTE;
    let mut active = false;
    let mut chars = s.chars();
    let ghost mut i: int = 0;
    loop
        invariant
            0 <= i <= s@.len(),
            chars.obeys_prophetic_iter_laws(),
            chars.remaining() == s@.skip(i),
            new@ == snake_case_prefix(s@, i as nat),
            active == bracketed(s@, i),
            last == previous(s@, i),
        ensures
            i == s@.len(),
        decreases s@.len() - i,
    {
        let next = chars.next();
        match next {
            None => {
                break ;
            },
            Some(c) => {
                proof {
                    assert(s@.skip(i)[0] == s@[i]);
                    assert(s@.skip(i).drop_first() == s@.skip(i + 1));
                    assert(s@.take(i + 1).drop_last() == s@.take(i));
                    assert(s@.take(i + 1).last() == s@[i]);
                }
                if c == MARKER {
                    active = !active;
                } else {
                    if active {
                        if last == QUOTE {
                            new.push(to_ascii_lowercase(c));
                        } else if c.is_uppercase() {
                            new.push('_');
                            new.push(to_ascii_lowercase(c));
                        } else {
                            new.push(c);
                        }
                    } else {
                        new.push(c);
                    }
                    last = c;
                }
                proof {
                    assert(new@ =~= snake_case_prefix(s@, i as nat) + rendered(s@, i));
                    i = i + 1;
                }
            },
        }
    }
    new
}

/// What `to_human` makes of the text `s`: the text with each compact field name
/// bracketed by markers and stripped of its type prefix, then turned to snake case.
pub open spec fn human(s: Seq<char>) -> Seq<char> {
    snake_case(regex_replace_all(key_pattern(), s, key_replacement()))
}

/// Rewrites the compact field names of a response of the catalog into plain ones:
/// each name loses its type prefix and has its capitalised words turned to snake case.
/// The names are found by a regular expression that is the same for every text: where
/// it compiles, every text is rewritten; should it not compile, the result is
/// `ParseFailure` for every text.
pub fn to_human(s: &str) -> (r: Result<String, ModError>)
    ensures
        regex_compiles(key_pattern()) ==> (r matches Ok(t) && t@ == human(s@)),
        !regex_compiles(key_pattern()) ==> r == Err::<String, ModError>(ModError::ParseFailure),
{
    match replace_all("(_[a-z]+)(([A-Z][a-z]+)+)", s, "\u{24df}$2\u{24df}") {
        Ok(marked) => Ok(to_snake_case(marked.as_str())),
        Err(_) => Err(ModError::ParseFailure),
    }
}

} // verus!

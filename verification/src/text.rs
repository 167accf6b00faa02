use vstd::prelude::*;
use vstd::std_specs::iter::IteratorSpec;
use vstd::string::StringExecFns;

verus! {

broadcast use vstd::string::group_string_axioms;

/// `String::push` appends one character to the end of the string.
pub assume_specification[ String::push ](s: &mut String, c: char)
    ensures
        final(s)@ == old(s)@.push(c),
;

/// `String::pop` takes the last character off the string and returns it, and returns
/// `None` for an empty string, which stays empty.
pub assume_specification[ String::pop ](s: &mut String) -> (c: Option<char>)
    ensures
        old(s)@.len() > 0 ==> c == Some(old(s)@.last()) && final(s)@ == old(s)@.drop_last(),
        old(s)@.len() == 0 ==> c is None && final(s)@ == old(s)@,
;

/// The character that writes the digit `d`.
pub open spec fn digit_char(d: nat) -> char
    recommends
        d < 10,
{
    (('0' as u8) + d) as char
}

/// The decimal numeral of `n`, without leading zeros.
pub open spec fn decimal(n: nat) -> Seq<char>
    decreases n,
{
    if n < 10 {
        seq![digit_char(n)]
    } else {
        decimal(n / 10).push(digit_char(n % 10))
    }
}

/// `parts` written one after the other with `sep` between each two of them.
pub open spec fn joined(parts: Seq<Seq<char>>, sep: Seq<char>) -> Seq<char>
    decreases parts.len(),
{
    if parts.len() == 0 {
        Seq::empty()
    } else if parts.len() == 1 {
        parts[0]
    } else {
        joined(parts.drop_last(), sep) + sep + parts.last()
    }
}

/// The texts that the string slices of `parts` hold.
pub open spec fn texts(parts: Seq<&str>) -> Seq<Seq<char>> {
    parts.map_values(|p: &str| p@)
}

/// Appends the decimal numeral of `n` to `s`.
pub fn push_decimal(s: &mut String, n: usize)
    ensures
        final(s)@ == old(s)@ + decimal(n as nat),
    decreases n,
{
    if n >= 10 {
        push_decimal(s, n / 10);
    }
    let d: u8 = (n % 10) as u8;
    s.push((48u8 + d) as char);
}

/// The decimal numeral of `n`.
pub fn to_decimal(n: usize) -> (r: String)
    ensures
        r@ == decimal(n as nat),
{
    let mut s = String::new();
    push_decimal(&mut s, n);
    s
}

/// Appends the items of `parts` to `s`, with `sep` between each two of them.
pub fn push_joined(s: &mut String, parts: &Vec<&str>, sep: &str)
    ensures
        final(s)@ == old(s)@ + joined(texts(parts@), sep@),
{
    let mut i: usize = 0;
    while i < parts.len()
        invariant
            i <= parts.len(),
            s@ == old(s)@ + joined(texts(parts@.take(i as int)), sep@),
        decreases parts.len() - i,
    {
        proof {
            let before = texts(parts@.take(i as int));
            let after = texts(parts@.take(i + 1));
            assert(after.drop_last() == before);
            assert(after.last() == parts@[i as int]@);
        }
        if i > 0 {
            s.append(sep);
        }
        s.append(parts[i]);
        i = i + 1;
    }
    proof {
        assert(parts@.take(parts.len() as int) == parts@);
    }
}

/// The characters of `name` from position `from` up to position `to`.
pub(crate) fn char_range(name: &str, from: usize, to: usize) -> (r: String)
    requires
        from <= to <= name@.len(),
    ensures
        r@ == name@.subrange(from as int, to as int),
{
    let mut out = String::new();
    let mut chars = name.chars();
    let mut i: usize = 0;
    let n = name.unicode_len();
    loop
        invariant
            0 <= i <= name@.len(),
            n == name@.len(),
            from <= to <= name@.len(),
            chars.obeys_prophetic_iter_laws(),
            chars.remaining() == name@.skip(i as int),
            i <= from ==> out@ == Seq::<char>::empty(),
            from <= i <= to ==> out@ == name@.subrange(from as int, i as int),
            i > to ==> out@ == name@.subrange(from as int, to as int),
        ensures
            i == name@.len(),
            out@ == name@.subrange(from as int, to as int),
        decreases name@.len() - i,
    {
        match chars.next() {
            None => {
                break ;
            },
            Some(c) => {
                proof {
                    assert(name@.skip(i as int)[0] == name@[i as int]);
                    assert(name@.skip(i as int).drop_first() == name@.skip(i + 1));
                }
                if from <= i && i < to {
                    out.push(c);
                    proof {
                        assert(name@.subrange(from as int, i + 1) == name@.subrange(
                            from as int,
                            i as int,
                        ).push(c));
                    }
                }
                i = i + 1;
            },
        }
    }
    out
}

/// `n` spaces.
pub open spec fn spaces(n: nat) -> Seq<char> {
    Seq::new(n, |i: int| ' ')
}

/// `s` followed by as many spaces as it lacks characters to `width`.
pub open spec fn padded(s: Seq<char>, width: nat) -> Seq<char> {
    if s.len() < width {
        s + spaces((width - s.len()) as nat)
    } else {
        s
    }
}

/// The first `n` characters of `s`, or all of `s` where it has no more.
pub open spec fn truncated(s: Seq<char>, n: nat) -> Seq<char> {
    if s.len() > n {
        s.take(n as int)
    } else {
        s
    }
}

/// Appends `s` to `out`, followed by as many spaces as it lacks characters to `width`.
pub fn push_padded(out: &mut String, s: &str, width: usize)
    ensures
        final(out)@ == old(out)@ + padded(s@, width as nat),
{
    out.append(s);
    let n = s.unicode_len();
    let mut i: usize = n;
    while i < width
        invariant
            n == s@.len(),
            n <= i,
            n < width ==> i <= width,
            n >= width ==> i == n,
            out@ == old(out)@ + s@ + spaces((i - n) as nat),
        decreases width - i,
    {
        out.push(' ');
        proof {
            assert(spaces((i + 1 - n) as nat) =~= spaces((i - n) as nat).push(' '));
        }
        i = i + 1;
    }
    proof {
        if n < width {
            assert(i == width);
            assert(padded(s@, width as nat) == s@ + spaces((width - n) as nat));
            assert(old(out)@ + s@ + spaces((width - n) as nat) =~= old(out)@ + (s@ + spaces(
                (width - n) as nat,
            )));
        } else {
            assert(i == n);
            assert(padded(s@, width as nat) == s@);
            assert(old(out)@ + s@ + spaces(0) =~= old(out)@ + s@);
        }
    }
}

/// The first `n` characters of `s`, or all of `s` where it has no more.
pub fn truncate_chars(s: &str, n: usize) -> (r: String)
    ensures
        r@ == truncated(s@, n as nat),
{
    let len = s.unicode_len();
    if len > n {
        proof {
            assert(s@.subrange(0, n as int) == s@.take(n as int));
        }
        char_range(s, 0, n)
    } else {
        String::from_str(s)
    }
}

/// Whether `c` is whitespace: one of the characters to which Unicode gives the
/// property `White_Space`. These are the tab, the line feed, the vertical tab, the form
/// feed, the carriage return, the space, the next-line character, the no-break space,
/// the Ogham space mark, the spaces from the en quad to the hair space, the line and
/// the paragraph separator, the narrow no-break space, the medium mathematical space
/// and the ideographic space.
pub open spec fn is_whitespace(c: char) -> bool {
    ||| '\u{9}' <= c && c <= '\u{d}'
    ||| c == ' '
    ||| c == '\u{85}'
    ||| c == '\u{a0}'
    ||| c == '\u{1680}'
    ||| '\u{2000}' <= c && c <= '\u{200a}'
    ||| c == '\u{2028}'
    ||| c == '\u{2029}'
    ||| c == '\u{202f}'
    ||| c == '\u{205f}'
    ||| c == '\u{3000}'
}

/// `char::is_whitespace` tells whether the character has the Unicode property
/// `White_Space`.
pub assume_specification[ char::is_whitespace ](c: char) -> (r: bool)
    ensures
        r == is_whitespace(c),
;

/// The position of the first character of `s`, not before `from`, that is no
/// whitespace; the length of `s` where there is none.
pub open spec fn first_solid(s: Seq<char>, from: int) -> int
    decreases s.len() - from,
{
    if from < 0 || from >= s.len() {
        s.len() as int
    } else if !is_whitespace(s[from]) {
        from
    } else {
        first_solid(s, from + 1)
    }
}

/// The position behind the last character among the first `n` of `s` that is no
/// whitespace; 0 where there is none.
pub open spec fn last_solid(s: Seq<char>, n: int) -> int
    decreases n,
{
    if n <= 0 {
        0
    } else if !is_whitespace(s[n - 1]) {
        n
    } else {
        last_solid(s, n - 1)
    }
}

/// `s` without the whitespace at its start and at its end.
pub open spec fn trimmed(s: Seq<char>) -> Seq<char> {
    if first_solid(s, 0) < last_solid(s, s.len() as int) {
        s.subrange(first_solid(s, 0), last_solid(s, s.len() as int))
    } else {
        Seq::empty()
    }
}

/// The positions between which the characters of `input` other than the whitespace
/// at its start and at its end stand.
pub(crate) fn solid_range(input: &str) -> (r: (usize, usize))
    ensures
        r.0 == first_solid(input@, 0),
        r.1 == last_solid(input@, input@.len() as int),
        r.0 <= input@.len(),
        r.1 <= input@.len(),
{
    let n = input.unicode_len();
    let mut chars = input.chars();
    let mut i: usize = 0;
    let mut start: usize = n;
    let mut end: usize = 0;
    loop
        invariant
            0 <= i <= n,
            n == input@.len(),
            chars.obeys_prophetic_iter_laws(),
            chars.remaining() == input@.skip(i as int),
            end == last_solid(input@, i as int),
            end <= i,
            start == n ==> first_solid(input@, 0) == first_solid(input@, i as int),
            start < n ==> start == first_solid(input@, 0) && start < i,
            start <= n,
        ensures
            i == n,
            end == last_solid(input@, n as int),
            start == first_solid(input@, 0),
            start <= n,
            end <= n,
        decreases n - i,
    {
        match chars.next() {
            None => {
                break ;
            },
            Some(c) => {
                proof {
                    assert(input@.skip(i as int)[0] == input@[i as int]);
                    assert(input@.skip(i as int).drop_first() == input@.skip(i + 1));
                }
                if !c.is_whitespace() {
                    if start == n {
                        start = i;
                    }
                    end = i + 1;
                }
                i = i + 1;
            },
        }
    }
    (start, end)
}

/// Whether `s` holds nothing but whitespace.
pub fn is_blank(s: &str) -> (r: bool)
    ensures
        r == (trimmed(s@).len() == 0),
{
    let (start, end) = solid_range(s);
    start >= end
}

} // verus!

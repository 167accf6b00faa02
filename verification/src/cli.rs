use crate::error::ModError;
use crate::gamebanana::builder::{
    FeedFilter, SearchBuilder, SearchBuilderView, SearchFilter, SearchFilterView, GAME_ID,
};
use crate::gamebanana::models::modpage::GBModPage;
use crate::gamebanana::search::{catalog_root, page_suffix};
use crate::gamebanana::models::search_result::GBSearchEntry;
use crate::modz::records::{position_of, views};
use crate::modz::{after_stage, after_unstage, LocalCollection, Mod, ModView};
use crate::text::{
    char_range, decimal, digit_char, padded, push_decimal, push_padded, solid_range,
    trimmed, truncate_chars, truncated,
};
use vstd::prelude::*;
use vstd::std_specs::iter::IteratorSpec;
use vstd::string::{StrSliceExecFns, StringExecFns};

verus! {

broadcast use vstd::string::group_string_axioms;

/// How many results a page of a search from the command line holds unless the caller
/// says otherwise.
pub const CLI_PAGE_SIZE: usize = 15;

/// The order that a search from the command line asks for: by time where `recent` is
/// set, else by popularity where `popular` is set, else the featured mods.
pub open spec fn chosen_sort(popular: bool, recent: bool) -> FeedFilter {
    if recent {
        FeedFilter::Recent
    } else if popular {
        FeedFilter::Popular
    } else {
        FeedFilter::Featured
    }
}

/// The address of page `page` of a search from the command line: mods of the game
/// whose name holds `name`, `page_size` to a page (fifteen when `None`), in the chosen
/// order.
pub fn search(
    page: usize,
    page_size: Option<usize>,
    name: &str,
    _featured: bool,
    popular: bool,
    recent: bool,
) -> (url: String)
    ensures
        url@ == catalog_root() + SearchBuilderView::initial().query_with(
            match page_size {
                Some(n) => n as nat,
                None => CLI_PAGE_SIZE as nat,
            },
            chosen_sort(popular, recent),
            SearchFilterView::Name { search: name@, game_id: GAME_ID as nat },
        ) + page_suffix(page as nat),
{
    let size = match page_size {
        Some(n) => n,
        None => CLI_PAGE_SIZE,
    };
    let sort = if recent {
        FeedFilter::Recent
    } else if popular {
        FeedFilter::Popular
    } else {
        FeedFilter::Featured
    };
    SearchBuilder::new().per_page(size).with_sort(sort).by_search(
        SearchFilter::Name { search: name, game_id: GAME_ID },
    ).build().page(page)
}

/// Records that the mod with the id `mod_id` was copied into the game's mod directory,
/// with the outcome `copied`.
pub fn install(
    col: &mut LocalCollection,
    mod_id: usize,
    copied: Result<(), ModError>,
) -> (r: Result<(), ModError>)
    ensures
        final(col).wf(),
        match position_of(old(col)@, mod_id as nat) {
            Some(i) => r == copied && final(col)@ == old(col)@.update(
                i,
                after_stage(old(col)@[i], copied),
            ),
            None => r == Err::<(), ModError>(ModError::NotFound) && final(col)@ == old(col)@,
        },
{
    col.stage(mod_id, copied)
}

/// Records that the mod with the id `mod_id` was removed from the game's mod
/// directory, with the outcome `removed`.
pub fn uninstall(
    col: &mut LocalCollection,
    mod_id: usize,
    removed: Result<(), ModError>,
) -> (r: Result<(), ModError>)
    ensures
        final(col).wf(),
        match position_of(old(col)@, mod_id as nat) {
            Some(i) => r == removed && final(col)@ == old(col)@.update(
                i,
                after_unstage(old(col)@[i], removed),
            ),
            None => r == Err::<(), ModError>(ModError::NotFound) && final(col)@ == old(col)@,
        },
{
    col.unstage(mod_id, removed)
}

/// How many characters of a name a result line shows.
pub const NAME_WIDTH: usize = 35;

/// How many characters of a description a result line shows.
pub const DESCRIPTION_WIDTH: usize = 50;

/// The line that shows a search result: its name and its description, each cut and
/// padded to its width, and how often it was viewed.
pub open spec fn result_line(name: Seq<char>, description: Seq<char>, views: nat) -> Seq<char> {
    padded(truncated(name, NAME_WIDTH as nat), NAME_WIDTH as nat) + " - "@ + padded(
        truncated(description, DESCRIPTION_WIDTH as nat),
        DESCRIPTION_WIDTH as nat,
    ) + " :: "@ + decimal(views) + " views"@
}

/// The line that shows the search result `entry`.
pub fn search_line(entry: &GBSearchEntry) -> (r: String)
    ensures
        r@ == result_line(entry.name@, entry.description@, entry.view_count as nat),
{
    let name = truncate_chars(entry.name.as_str(), NAME_WIDTH);
    let desc = truncate_chars(entry.description.as_str(), DESCRIPTION_WIDTH);
    let mut line = String::new();
    push_padded(&mut line, name.as_str(), NAME_WIDTH);
    line.append(" - ");
    push_padded(&mut line, desc.as_str(), DESCRIPTION_WIDTH);
    line.append(" :: ");
    push_decimal(&mut line, entry.view_count);
    line.append(" views");
    proof {
        assert(line@ =~= result_line(entry.name@, entry.description@, entry.view_count as nat));
    }
    line
}

/// The line that shows a mod of the collection: whether it is staged, its character,
/// its id and its name.
pub open spec fn mod_line(m: ModView) -> Seq<char> {
    "["@ + (if m.staged {
        "+"@
    } else {
        " "@
    }) + "] ["@ + m.character + "] "@ + decimal(m.id) + ": "@ + m.name
}

/// The lines that show the mods `mods`, one for each.
pub open spec fn mod_lines(mods: Seq<ModView>) -> Seq<Seq<char>> {
    mods.map_values(|m: ModView| mod_line(m))
}

/// The texts that the strings of `lines` hold.
pub open spec fn line_texts(lines: Seq<String>) -> Seq<Seq<char>> {
    lines.map_values(|line: String| line@)
}

fn list_line(m: &Mod) -> (r: String)
    ensures
        r@ == mod_line(m@),
{
    let mut line = String::from_str("[");
    if m.staged {
        line.append("+");
    } else {
        line.append(" ");
    }
    line.append("] [");
    line.append(m.character.as_str());
    line.append("] ");
    push_decimal(&mut line, m.id);
    line.append(": ");
    line.append(m.name.as_str());
    proof {
        assert(line@ =~= mod_line(m@));
    }
    line
}

/// The lines that list the mods of the collection, one line for each mod, in order.
pub fn list_all(col: &LocalCollection) -> (r: Vec<String>)
    ensures
        line_texts(r@) == mod_lines(col@),
{
    let mods = col.mods();
    let mut lines: Vec<String> = Vec::new();
    let mut i: usize = 0;
    while i < mods.len()
        invariant
            i <= mods.len(),
            mods@ == col.records(),
            line_texts(lines@) == mod_lines(views(mods@.take(i as int))),
        decreases mods.len() - i,
    {
        let line = list_line(&mods[i]);
        proof {
            assert(line_texts(lines@.push(line)) =~= line_texts(lines@).push(line@));
            assert(mod_lines(views(mods@.take(i + 1))) =~= mod_lines(
                views(mods@.take(i as int)),
            ).push(mod_line(mods@[i as int]@)));
        }
        lines.push(line);
        i = i + 1;
    }
    proof {
        assert(mods@.take(mods@.len() as int) == mods@);
    }
    lines
}

/// What the formatting of a string for debugging writes for the text `s`: the text
/// between double quotes, with its special characters escaped.
pub uninterp spec fn debug_text(s: Seq<char>) -> Seq<char>;

/// Formats `s` with `{:?}`, as `Debug` for `str` writes it.
#[verifier::external_body]
fn debug_string(s: &str) -> (r: String)
    ensures
        r@ == debug_text(s@),
{
    format!("{:?}", s)
}

/// The line that offers the file named `file` at position `position` for choice; the
/// positions that are shown start at 1.
pub open spec fn option_line(position: nat, file: Seq<char>) -> Seq<char> {
    "["@ + decimal(position + 1) + "] "@ + debug_text(file)
}

/// The lines that offer the file variants of `page` for choice, one for each, in
/// order. Where the page has more variants than can be numbered, the lines end before
/// the one whose number does not fit.
pub fn download_options(page: &GBModPage) -> (r: Vec<String>)
    ensures
        r@.len() <= page.files@.len(),
        page.files@.len() < usize::MAX ==> r@.len() == page.files@.len(),
        forall|i: int| 0 <= i < r@.len() ==> #[trigger] r@[i]@ == option_line(
            i as nat,
            page.files@[i].file@,
        ),
{
    let mut lines: Vec<String> = Vec::new();
    let mut i: usize = 0;
    while i < page.files.len() && i < usize::MAX
        invariant
            i <= page.files.len(),
            lines@.len() == i,
            forall|j: int| 0 <= j < i ==> #[trigger] lines@[j]@ == option_line(
                j as nat,
                page.files@[j].file@,
            ),
        decreases page.files.len() - i,
    {
        let mut line = String::from_str("[");
        push_decimal(&mut line, i + 1);
        line.append("] ");
        let shown = debug_string(page.files[i].file.as_str());
        line.append(shown.as_str());
        lines.push(line);
        i = i + 1;
    }
    lines
}

/// The position of the file variant that the number `choice` stands for, the numbers
/// starting at 1; `IndexOutOfRange` for the number 0.
pub fn chosen_index(choice: usize) -> (r: Result<usize, ModError>)
    ensures
        choice > 0 ==> r == Ok::<usize, ModError>((choice - 1) as usize),
        choice == 0 ==> r == Err::<usize, ModError>(ModError::IndexOutOfRange),
{
    if choice > 0 {
        Ok(choice - 1)
    } else {
        Err(ModError::IndexOutOfRange)
    }
}

/// Whether `c` is one of the digits `0` to `9`.
pub open spec fn is_digit(c: char) -> bool {
    '0' <= c && c <= '9'
}

/// The number that the decimal digits `digits` write.
pub open spec fn number(digits: Seq<char>) -> nat
    decreases digits.len(),
{
    if digits.len() == 0 {
        0
    } else {
        (number(digits.drop_last()) * 10 + (digits.last() as nat - '0' as nat)) as nat
    }
}

/// Whether `s` is made of digits alone.
pub open spec fn all_digits(s: Seq<char>) -> bool {
    forall|i: int| 0 <= i < s.len() ==> is_digit(#[trigger] s[i])
}

/// The number that the line `input` holds: decimal digits, with or without a plus
/// sign before them and whitespace around them. There is none where the line holds
/// anything else, no digit at all, or a number that is too large.
pub open spec fn chosen_number(input: Seq<char>) -> Option<usize> {
    let text = trimmed(input);
    let digits = if text.len() > 0 && text[0] == '+' {
        text.skip(1)
    } else {
        text
    };
    if digits.len() > 0 && all_digits(digits) && number(digits) <= usize::MAX {
        Some(number(digits) as usize)
    } else {
        None
    }
}

/// A number grows with every digit that is added to it.
pub proof fn lemma_number_grows(digits: Seq<char>, n: int)
    requires
        0 <= n <= digits.len(),
        all_digits(digits),
    ensures
        number(digits.take(n)) <= number(digits),
    decreases digits.len() - n,
{
    if n < digits.len() {
        lemma_number_grows(digits, n + 1);
        assert(digits.take(n + 1).drop_last() == digits.take(n));
        assert(is_digit(digits[n]));
        assert(digits.take(n + 1).last() == digits[n]);
    } else {
        assert(digits.take(n) == digits);
    }
}

/// The decimal numeral of a number is made of digits alone and writes that number.
pub proof fn lemma_number_of_decimal(n: nat)
    ensures
        all_digits(decimal(n)),
        number(decimal(n)) == n,
        decimal(n).len() > 0,
    decreases n,
{
    if n < 10 {
        assert(decimal(n).drop_last() =~= Seq::<char>::empty());
        assert(decimal(n).last() == digit_char(n));
        assert(digit_char(n) as nat - '0' as nat == n);
        assert(number(Seq::<char>::empty()) == 0);
    } else {
        lemma_number_of_decimal(n / 10);
        let front = decimal(n / 10);
        let whole = decimal(n);
        assert(whole.drop_last() =~= front);
        assert(whole.last() == digit_char(n % 10));
        assert(digit_char(n % 10) as nat - '0' as nat == n % 10);
        assert forall|i: int| 0 <= i < whole.len() implies is_digit(#[trigger] whole[i]) by {
            if i < front.len() {
                assert(whole[i] == front[i]);
            }
        }
    }
}

/// The number under which `download_options` offers the file variant at position
/// `position` is read back by `choose_num` as that number, one more than the position,
/// which `chosen_index` turns into the position again.
pub proof fn lemma_offered_number_is_read_back(position: nat)
    requires
        position < usize::MAX,
    ensures
        chosen_number(decimal(position + 1)) == Some((position + 1) as usize),
{
    let shown = decimal(position + 1);
    lemma_number_of_decimal(position + 1);
    assert(is_digit(shown[0]));
    assert(is_digit(shown[shown.len() - 1]));
    assert(shown.subrange(0, shown.len() as int) == shown);
    assert(trimmed(shown) == shown);
}

/// The number that the digits `digits` write, where they are digits alone and the
/// number is not too large.
fn digits_value(digits: &str) -> (r: Option<usize>)
    ensures
        r == if all_digits(digits@) && number(digits@) <= usize::MAX {
            Some(number(digits@) as usize)
        } else {
            None
        },
{
    let n = digits.unicode_len();
    let mut chars = digits.chars();
    let mut i: usize = 0;
    let mut value: usize = 0;
    assert(digits@.take(0) =~= Seq::<char>::empty());
    loop
        invariant
            0 <= i <= n,
            n == digits@.len(),
            chars.obeys_prophetic_iter_laws(),
            chars.remaining() == digits@.skip(i as int),
            all_digits(digits@.take(i as int)),
            value == number(digits@.take(i as int)),
        ensures
            i == n,
            all_digits(digits@),
            value == number(digits@),
        decreases n - i,
    {
        match chars.next() {
            None => {
                proof {
                    assert(digits@.take(n as int) == digits@);
                }
                break ;
            },
            Some(c) => {
                proof {
                    assert(digits@.skip(i as int)[0] == digits@[i as int]);
                    assert(digits@.skip(i as int).drop_first() == digits@.skip(i + 1));
                    assert(digits@.take(i + 1).drop_last() == digits@.take(i as int));
                    assert(digits@.take(i + 1).last() == c);
                }
                if !('0' <= c && c <= '9') {
                    return None;
                }
                let d: usize = (c as u8 - 48u8) as usize;
                if value > (usize::MAX - d) / 10 {
                    proof {
                        if all_digits(digits@) {
                            lemma_number_grows(digits@, i + 1);
                        }
                    }
                    return None;
                }
                value = value * 10 + d;
                proof {
                    assert forall|j: int| 0 <= j < i + 1 implies is_digit(
                        #[trigger] digits@.take(i + 1)[j],
                    ) by {
                        if j < i {
                            assert(digits@.take(i as int)[j] == digits@.take(i + 1)[j]);
                        }
                    }
                }
                i = i + 1;
            },
        }
    }
    Some(value)
}

/// Reads the number that the line `input` holds.
pub fn choose_num(input: &str) -> (r: Option<usize>)
    ensures
        r == chosen_number(input@),
{
    let (start, end) = solid_range(input);
    if start >= end {
        return None;
    }
    let text = char_range(input, start, end);
    let len = end - start;
    let digits = if text.as_str().get_char(0) == '+' {
        proof {
            assert(text@.subrange(1, len as int) == text@.skip(1));
        }
        char_range(text.as_str(), 1, len)
    } else {
        text
    };
    if digits.as_str().unicode_len() == 0 {
        None
    } else {
        digits_value(digits.as_str())
    }
}

} // verus!

use crate::error::ModError;
use crate::text::{is_blank, texts, trimmed};
use vstd::prelude::*;
use vstd::std_specs::iter::IteratorSpec;
use vstd::string::StringExecFns;

verus! {

broadcast use vstd::string::group_string_axioms;

/// The name of the directory that holds what the program keeps on disk.
pub const SUBDIR_NAME: &'static str = "ggmod";

/// The name of the file that holds the registry.
pub const REGISTRY_FN: &'static str = "registry.json";

/// What a registry without mods holds.
pub const EMPTY_REGISTRY: &'static str = "[]";

/// Whether a registry counts as empty, so that it stands for a collection without
/// mods and is not read any further: it is absent (`None`), or it holds nothing but
/// whitespace.
pub fn registry_is_empty(contents: Option<&str>) -> (r: bool)
    ensures
        r == match contents {
            Some(text) => trimmed(text@).len() == 0,
            None => true,
        },
{
    match contents {
        Some(text) => is_blank(text),
        None => true,
    }
}

/// The error that reports a missing registry, mod or path.
pub fn not_found() -> (e: ModError)
    ensures
        e == ModError::NotFound,
{
    ModError::NotFound
}

/// The position behind the last component among the first `n` characters of the path
/// `path`. Components are parted by `/`; slashes at the end, and components at the end
/// that are a single dot, do not count.
pub open spec fn name_end(path: Seq<char>, n: int) -> int
    decreases n,
{
    if n <= 0 {
        0
    } else if path[n - 1] == '/' {
        name_end(path, n - 1)
    } else if path[n - 1] == '.' && (n == 1 || path[n - 2] == '/') {
        name_end(path, n - 1)
    } else {
        n
    }
}

/// The position at which the component that ends behind position `n` of `path`
/// starts: behind the last slash before `n`, or at the start of the path.
pub open spec fn name_start(path: Seq<char>, n: int) -> int
    decreases n,
{
    if n <= 0 {
        0
    } else if path[n - 1] == '/' {
        n
    } else {
        name_start(path, n - 1)
    }
}

/// The position behind the file name of `path`, its last component.
pub open spec fn file_name_end(path: Seq<char>) -> int {
    name_end(path, path.len() as int)
}

/// The position at which the file name of `path`, its last component, starts.
pub open spec fn file_name_start(path: Seq<char>) -> int {
    name_start(path, file_name_end(path))
}

/// Whether `path` has a file name: a last component that is not `..`.
pub open spec fn has_file_name(path: Seq<char>) -> bool {
    let start = file_name_start(path);
    let end = file_name_end(path);
    end > 0 && !(end - start == 2 && path[start] == '.' && path[start + 1] == '.')
}

/// The position of the last dot of `path` from position `start` on and before
/// position `n`, or -1 when there is none.
pub open spec fn last_dot(path: Seq<char>, start: int, n: int) -> int
    decreases n - start,
{
    if n <= start {
        -1
    } else if path[n - 1] == '.' {
        n - 1
    } else {
        last_dot(path, start, n - 1)
    }
}

/// The position of the dot before the extension of `path`, or -1 when the path has no
/// extension. The extension is what follows the last dot of the file name, unless that
/// dot is the first character of the file name.
pub open spec fn extension_dot(path: Seq<char>) -> int {
    let dot = last_dot(path, file_name_start(path), file_name_end(path));
    if has_file_name(path) && dot > file_name_start(path) {
        dot
    } else {
        -1
    }
}

/// Whether `path` has an extension.
pub open spec fn has_extension(path: Seq<char>) -> bool {
    extension_dot(path) >= 0
}

/// The extension of `path`; empty when the path has none.
pub open spec fn extension(path: Seq<char>) -> Seq<char> {
    if has_extension(path) {
        path.subrange(extension_dot(path) + 1, file_name_end(path))
    } else {
        Seq::empty()
    }
}

/// The position behind the stem of the file name of `path`: before the dot of the
/// extension, or behind the file name where it has no extension.
pub open spec fn stem_end(path: Seq<char>) -> int {
    if has_extension(path) {
        extension_dot(path)
    } else {
        file_name_end(path)
    }
}

/// `path` with the extension of its file name set to `ext`: the path up to the end of
/// the file name's stem, with a dot and `ext` behind it unless `ext` is empty. A path
/// without a file name stays as it is.
pub open spec fn set_extension(path: Seq<char>, ext: Seq<char>) -> Seq<char> {
    if !has_file_name(path) {
        path
    } else if ext.len() == 0 {
        path.take(stem_end(path))
    } else {
        path.take(stem_end(path)) + seq!['.'] + ext
    }
}

/// `path` without as many characters at its end as its extension has.
pub open spec fn cut_extension(path: Seq<char>) -> Seq<char> {
    path.take(path.len() - extension(path).len())
}

/// `path` with its extension replaced by `ext`: as many characters as the extension
/// has are left out at the end of the path, and the extension of what is left is set
/// to `ext`. For a file name this puts `ext` in place of the extension, or behind the
/// name where it has none.
pub open spec fn with_extension(path: Seq<char>, ext: Seq<char>) -> Seq<char> {
    set_extension(cut_extension(path), ext)
}

/// `path` with its extension replaced by nothing: for a file name, the name without
/// its last dot and what follows it.
pub open spec fn stem(path: Seq<char>) -> Seq<char> {
    with_extension(path, Seq::empty())
}

/// The characters of `s`.
fn chars_of(s: &str) -> (r: Vec<char>)
    ensures
        r@ == s@,
{
    let mut out: Vec<char> = Vec::new();
    let mut chars = s.chars();
    let ghost mut i: int = 0;
    loop
        invariant
            0 <= i <= s@.len(),
            chars.obeys_prophetic_iter_laws(),
            chars.remaining() == s@.skip(i),
            out@ == s@.take(i),
        ensures
            out@ == s@,
        decreases s@.len() - i,
    {
        match chars.next() {
            None => {
                proof {
                    assert(s@.take(s@.len() as int) == s@);
                }
                break ;
            },
            Some(c) => {
                proof {
                    assert(s@.skip(i)[0] == s@[i]);
                    assert(s@.skip(i).drop_first() == s@.skip(i + 1));
                    assert(s@.take(i + 1) == s@.take(i).push(c));
                    i = i + 1;
                }
                out.push(c);
            },
        }
    }
    out
}

/// The text made of the characters of `chars` from position `from` up to position
/// `to`.
fn text_of(chars: &Vec<char>, from: usize, to: usize) -> (r: String)
    requires
        from <= to <= chars@.len(),
    ensures
        r@ == chars@.subrange(from as int, to as int),
{
    let mut out = String::new();
    let mut i: usize = from;
    while i < to
        invariant
            from <= i <= to <= chars@.len(),
            out@ == chars@.subrange(from as int, i as int),
        decreases to - i,
    {
        out.push(chars[i]);
        proof {
            assert(chars@.subrange(from as int, i + 1) == chars@.subrange(
                from as int,
                i as int,
            ).push(chars@[i as int]));
        }
        i = i + 1;
    }
    out
}

/// Where the parts of a path lie.
struct Parts {
    /// Whether the path has a file name.
    named: bool,
    /// The position behind the file name.
    end: usize,
    /// The position of the dot before the extension, if the path has one.
    dot: Option<usize>,
}

/// Finds the file name and the extension of the path `path`.
fn parts_of(path: &Vec<char>) -> (r: Parts)
    ensures
        r.named == has_file_name(path@),
        r.end == file_name_end(path@),
        r.end <= path@.len(),
        match r.dot {
            Some(dot) => dot == extension_dot(path@) && dot < r.end,
            None => !has_extension(path@),
        },
{
    let mut end: usize = path.len();
    while end > 0 && (path[end - 1] == '/' || (path[end - 1] == '.' && (end == 1
        || path[end - 2] == '/')))
        invariant
            end <= path@.len(),
            file_name_end(path@) == name_end(path@, end as int),
        decreases end,
    {
        end = end - 1;
    }
    let mut start: usize = end;
    while start > 0 && path[start - 1] != '/'
        invariant
            start <= end,
            end <= path@.len(),
            name_start(path@, end as int) == name_start(path@, start as int),
        decreases start,
    {
        start = start - 1;
    }
    let named = end > 0 && !(end - start == 2 && path[start] == '.' && path[start + 1] == '.');
    let mut at: usize = end;
    while at > start && path[at - 1] != '.'
        invariant
            start <= at <= end,
            end <= path@.len(),
            last_dot(path@, start as int, end as int) == last_dot(path@, start as int, at as int),
        decreases at,
    {
        at = at - 1;
    }
    let dot = if at > start {
        Some(at - 1)
    } else {
        None
    };
    let dot = match dot {
        Some(d) => if named && d > start {
            Some(d)
        } else {
            None
        },
        None => None,
    };
    Parts { named, end, dot }
}

/// Whether the path `name` has an extension.
pub fn name_has_extension(name: &str) -> (r: bool)
    ensures
        r == has_extension(name@),
{
    let chars = chars_of(name);
    parts_of(&chars).dot.is_some()
}

/// The extension of the path `name`; empty when the path has none.
pub fn name_extension(name: &str) -> (r: String)
    ensures
        r@ == extension(name@),
{
    let chars = chars_of(name);
    let parts = parts_of(&chars);
    match parts.dot {
        Some(dot) => text_of(&chars, dot + 1, parts.end),
        None => String::new(),
    }
}

/// The path `path` with the extension of its file name set to `ext`.
fn set_extension_of(path: &Vec<char>, ext: &str) -> (r: String)
    ensures
        r@ == set_extension(path@, ext@),
{
    let parts = parts_of(path);
    if !parts.named {
        proof {
            assert(path@.subrange(0, path@.len() as int) == path@);
        }
        text_of(path, 0, path.len())
    } else {
        let upto = match parts.dot {
            Some(dot) => dot,
            None => parts.end,
        };
        proof {
            assert(path@.subrange(0, upto as int) == path@.take(upto as int));
        }
        let mut out = text_of(path, 0, upto);
        if !ext.is_empty() {
            out.push('.');
            out.append(ext);
        }
        out
    }
}

/// The path `name` with its extension replaced by `ext`.
pub fn name_with_extension(name: &str, ext: &str) -> (r: String)
    ensures
        r@ == with_extension(name@, ext@),
{
    let mut chars = chars_of(name);
    let parts = parts_of(&chars);
    let keep = match parts.dot {
        Some(dot) => chars.len() - (parts.end - dot - 1),
        None => chars.len(),
    };
    proof {
        assert(name@.subrange(0, keep as int) == name@.take(keep as int));
    }
    chars.truncate(keep);
    set_extension_of(&chars, ext)
}

/// The path `name` with its extension replaced by nothing: for a file name, the name
/// without its last dot and what follows it.
pub fn name_stem(name: &str) -> (r: String)
    ensures
        r@ == stem(name@),
{
    proof {
        reveal_strlit("");
        assert(""@ =~= Seq::<char>::empty());
    }
    name_with_extension(name, "")
}

/// The name of the directory, below the program's data directory, that holds what was
/// downloaded.
pub const DOWNLOADS_DIR: &'static str = "downloads";

/// The name of the game's signature file.
pub const SIG_FILE: &'static str = "pakchunk0-WindowsNoEditor.sig";

/// The directories that lead from the root of Steam to the game's mod directory.
pub open spec fn ggst_components() -> Seq<Seq<char>> {
    seq![
        "steamapps"@,
        "common"@,
        "GUILTY GEAR STRIVE"@,
        "RED"@,
        "Content"@,
        "Paks"@,
        "~mods"@,
    ]
}

/// The directories that lead from the root of Steam to the game's mod directory.
pub fn ggst_path() -> (r: Vec<&'static str>)
    ensures
        texts(r@) == ggst_components(),
{
    let mut v: Vec<&'static str> = Vec::new();
    v.push("steamapps");
    v.push("common");
    v.push("GUILTY GEAR STRIVE");
    v.push("RED");
    v.push("Content");
    v.push("Paks");
    v.push("~mods");
    proof {
        assert(texts(v@) =~= ggst_components());
    }
    v
}

/// The path from the root of Steam to the game's signature file, which lies beside
/// the game's mod directory.
pub fn game_sig_file() -> (r: Vec<&'static str>)
    ensures
        texts(r@) == ggst_components().drop_last().push(SIG_FILE@),
{
    let mut v = ggst_path();
    v.pop();
    v.push(SIG_FILE);
    proof {
        assert(texts(v@) =~= ggst_components().drop_last().push(SIG_FILE@));
    }
    v
}

/// The position of the last `true` among the first `n` of `found`, or -1 when there
/// is none.
pub open spec fn last_found(found: Seq<bool>, n: int) -> int
    decreases n,
{
    if n <= 0 {
        -1
    } else if found[n - 1] {
        n - 1
    } else {
        last_found(found, n - 1)
    }
}

/// Which of the places where Steam may be installed is taken as its root: the last of
/// them that exists, `found` telling of each place in turn whether it does. Where none
/// exists the result is `NotFound`.
pub fn steam_root(found: &Vec<bool>) -> (r: Result<usize, ModError>)
    ensures
        match r {
            Ok(i) => i == last_found(found@, found@.len() as int),
            Err(e) => e == ModError::NotFound && last_found(found@, found@.len() as int) == -1,
        },
{
    let mut i: usize = found.len();
    while i > 0
        invariant
            i <= found.len(),
            last_found(found@, found@.len() as int) == last_found(found@, i as int),
        decreases i,
    {
        if found[i - 1] {
            return Ok(i - 1);
        }
        i = i - 1;
    }
    Err(ModError::NotFound)
}

/// The position of the first of `names`, not before `from`, whose extension is `ext`,
/// or -1 when there is none.
pub open spec fn first_with_extension(names: Seq<Seq<char>>, ext: Seq<char>, from: int) -> int
    decreases names.len() - from,
{
    if from < 0 || from >= names.len() {
        -1
    } else if has_extension(names[from]) && extension(names[from]) == ext {
        from
    } else {
        first_with_extension(names, ext, from + 1)
    }
}

/// What is to be done about the signature file of a directory of mod files.
#[derive(Debug)]
pub enum SigFileAction {
    /// Nothing: the directory holds a signature file.
    Keep,
    /// Copy the game's signature file into the directory under the name `target`.
    Copy { target: String },
    /// Nothing, though the directory holds no signature file: it holds no mod file to
    /// sign.
    Missing,
}

/// What is to be done about the signature file of a directory that holds the files
/// `names`: nothing where one of them has the extension `sig`; else the game's
/// signature file is copied beside the first file with the extension `pak`, under that
/// file's name with the extension `sig`; and nothing where there is no such file.
pub fn ensure_sig_file(names: &Vec<String>) -> (r: SigFileAction)
    ensures
        match r {
            SigFileAction::Keep => first_with_extension(string_texts(names@), "sig"@, 0) >= 0,
            SigFileAction::Copy { target } => first_with_extension(
                string_texts(names@),
                "sig"@,
                0,
            ) == -1 && first_with_extension(string_texts(names@), "pak"@, 0) >= 0 && target@
                == with_extension(
                string_texts(names@)[first_with_extension(string_texts(names@), "pak"@, 0)],
                "sig"@,
            ),
            SigFileAction::Missing => first_with_extension(string_texts(names@), "sig"@, 0) == -1
                && first_with_extension(string_texts(names@), "pak"@, 0) == -1,
        },
{
    match find_extension(names, "sig") {
        Some(_) => SigFileAction::Keep,
        None => match find_extension(names, "pak") {
            Some(i) => SigFileAction::Copy {
                target: name_with_extension(names[i].as_str(), "sig"),
            },
            None => SigFileAction::Missing,
        },
    }
}

/// The texts that the strings of `names` hold.
pub open spec fn string_texts(names: Seq<String>) -> Seq<Seq<char>> {
    names.map_values(|name: String| name@)
}

/// The position of the first of `names` whose extension is `ext`.
fn find_extension(names: &Vec<String>, ext: &str) -> (r: Option<usize>)
    ensures
        match r {
            Some(i) => i == first_with_extension(string_texts(names@), ext@, 0) && i < names@.len(),
            None => first_with_extension(string_texts(names@), ext@, 0) == -1,
        },
{
    let wanted = String::from_str(ext);
    let mut i: usize = 0;
    while i < names.len()
        invariant
            i <= names.len(),
            wanted@ == ext@,
            first_with_extension(string_texts(names@), ext@, 0) == first_with_extension(
                string_texts(names@),
                ext@,
                i as int,
            ),
        decreases names.len() - i,
    {
        assert(string_texts(names@)[i as int] == names@[i as int]@);
        if name_has_extension(names[i].as_str()) && name_extension(names[i].as_str()) == wanted {
            return Some(i);
        }
        i = i + 1;
    }
    None
}

} // verus!

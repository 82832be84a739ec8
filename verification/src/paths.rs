//! Paths, as platforms write them: file names, extensions, and joining.

use vstd::prelude::*;
use crate::strings;

verus! {

/// The platforms, by the way in which they write paths.
#[derive(Clone, Copy, Debug, PartialEq, Eq, Structural)]
pub enum Platform {
    /// Components are separated by slashes.
    Unix,
    /// Components are separated by slashes or backslashes. A path can begin with a prefix: a
    /// drive (`C:`), a share (`\\server\share`), a device (`\\.\name`), or a verbatim prefix
    /// (`\\?\C:`, `\\?\UNC\server\share`, `\\?\name`).
    Windows,
}

/// What a platform itself writes between two components.
pub open spec fn separator(platform: Platform) -> char {
    match platform {
        Platform::Unix => '/',
        Platform::Windows => '\\',
    }
}

/// How components are told apart.
#[derive(Clone, Copy, Debug, PartialEq, Eq, Structural)]
pub enum Syntax {
    Unix,
    Windows,
    /// That of a path with a verbatim prefix: only backslashes separate, and `.` is a component
    /// like any other.
    Verbatim,
}

/// The one or two characters that separate components.
pub open spec fn separators(syntax: Syntax) -> (char, char) {
    match syntax {
        Syntax::Unix => ('/', '/'),
        Syntax::Windows => ('/', '\\'),
        Syntax::Verbatim => ('\\', '\\'),
    }
}

pub open spec fn is_separator(c: char, syntax: Syntax) -> bool {
    c == separators(syntax).0 || c == separators(syntax).1
}

/// The syntax of the paths of a platform that have no verbatim prefix.
pub open spec fn plain_syntax(platform: Platform) -> Syntax {
    match platform {
        Platform::Unix => Syntax::Unix,
        Platform::Windows => Syntax::Windows,
    }
}

/// Whether a path begins with `\\?\`.
pub open spec fn is_verbatim(path: Seq<char>) -> bool {
    path.len() >= 4 && path[0] == '\\' && path[1] == '\\' && path[2] == '?' && path[3] == '\\'
}

/// The syntax of a path.
pub open spec fn syntax_of(path: Seq<char>, platform: Platform) -> Syntax {
    if platform == Platform::Windows && is_verbatim(path) {
        Syntax::Verbatim
    } else {
        plain_syntax(platform)
    }
}

/// The ASCII letters.
pub open spec fn is_letter(c: char) -> bool {
    'A' <= c <= 'Z' || 'a' <= c <= 'z'
}

/// Whether a drive stands at `at`.
pub open spec fn has_drive(path: Seq<char>, at: int) -> bool {
    at + 1 < path.len() && is_letter(path[at]) && path[at + 1] == ':'
}

/// The end of the component that starts at `from`.
pub open spec fn component_end(path: Seq<char>, from: int, syntax: Syntax) -> int
    decreases path.len() - from,
{
    if 0 <= from < path.len() && !is_separator(path[from], syntax) {
        component_end(path, from + 1, syntax)
    } else {
        from
    }
}

/// The end of the share whose server starts at `from`, or of the server if no share follows.
pub open spec fn share_end(path: Seq<char>, from: int, syntax: Syntax) -> int {
    let server_end = component_end(path, from, syntax);
    let end = component_end(path, server_end + 1, syntax);
    if server_end + 1 < end {
        end
    } else {
        server_end
    }
}

/// Whether a path begins with `\\?\UNC\`. The last of these characters may be a slash.
pub open spec fn is_verbatim_share(path: Seq<char>) -> bool {
    is_verbatim(path) && path.len() >= 8 && path[4] == 'U' && path[5] == 'N' && path[6] == 'C'
        && is_separator(path[7], Syntax::Windows)
}

/// The length of the prefix of a path that begins with `\\?\`.
pub open spec fn verbatim_prefix_len(path: Seq<char>) -> int {
    if is_verbatim_share(path) {
        share_end(path, 8, Syntax::Verbatim)
    } else if has_drive(path, 4) && (path.len() == 6 || is_separator(path[6], Syntax::Windows)) {
        6
    } else {
        component_end(path, 4, Syntax::Verbatim)
    }
}

/// The length of the prefix of a path that does not begin with `\\?\`, on Windows.
pub open spec fn plain_prefix_len(path: Seq<char>) -> int {
    let syntax = Syntax::Windows;
    if path.len() >= 2 && is_separator(path[0], syntax) && is_separator(path[1], syntax) {
        if path.len() >= 4 && path[2] == '.' && is_separator(path[3], syntax) {
            component_end(path, 4, syntax)
        } else if 2 < component_end(path, 2, syntax) < share_end(path, 2, syntax) {
            share_end(path, 2, syntax)
        } else {
            0
        }
    } else if has_drive(path, 0) {
        2
    } else {
        0
    }
}

/// The length of the prefix of a path.
pub open spec fn prefix_len(path: Seq<char>, platform: Platform) -> int {
    match syntax_of(path, platform) {
        Syntax::Unix => 0,
        Syntax::Windows => plain_prefix_len(path),
        Syntax::Verbatim => verbatim_prefix_len(path),
    }
}

/// Whether a separator follows the prefix of a path.
pub open spec fn has_root(path: Seq<char>, platform: Platform) -> bool {
    let prefix = prefix_len(path, platform);
    prefix < path.len() && is_separator(path[prefix], plain_syntax(platform))
}

/// Where a path begins behind its prefix and its root.
pub open spec fn body_start(path: Seq<char>, platform: Platform) -> int {
    prefix_len(path, platform) + if has_root(path, platform) {
        1int
    } else {
        0
    }
}

/// The index of the last `a` or `b` in `text`; -1 if there is none.
pub open spec fn last_index(text: Seq<char>, a: char, b: char) -> int
    decreases text.len(),
{
    if text.len() == 0 {
        -1
    } else if text.last() == a || text.last() == b {
        text.len() - 1
    } else {
        last_index(text.drop_last(), a, b)
    }
}

/// The components `.` and `..`, which name no file.
pub open spec fn is_dots(name: Seq<char>) -> bool {
    ||| name.len() == 1 && name[0] == '.'
    ||| name.len() == 2 && name[0] == '.' && name[1] == '.'
}

/// The last component of what follows the prefix and the root of a path, if that component is a
/// name. Separators behind it do not count, nor, in the plain syntaxes, do `.` components.
pub open spec fn last_name(body: Seq<char>, syntax: Syntax) -> Option<Seq<char>>
    decreases body.len(),
{
    if body.len() == 0 {
        None
    } else if is_separator(body.last(), syntax) {
        last_name(body.drop_last(), syntax)
    } else if syntax != Syntax::Verbatim && body.len() >= 2 && body.last() == '.' && is_separator(
        body[body.len() - 2],
        syntax,
    ) {
        last_name(body.take(body.len() - 2), syntax)
    } else {
        let name = body.skip(last_index(body, separators(syntax).0, separators(syntax).1) + 1);
        if is_dots(name) {
            None
        } else {
            Some(name)
        }
    }
}

/// The name of the file that a path leads to.
pub open spec fn file_name(path: Seq<char>, platform: Platform) -> Option<Seq<char>> {
    last_name(path.skip(body_start(path, platform)), syntax_of(path, platform))
}

/// What stands behind the last dot of a file name; nothing if there is no dot in it but perhaps
/// its first character.
pub open spec fn suffix(name: Seq<char>) -> Seq<char> {
    if last_index(name, '.', '.') <= 0 {
        seq![]
    } else {
        name.skip(last_index(name, '.', '.') + 1)
    }
}

/// The extension of the file that a path leads to; nothing if the path leads to no file name.
pub open spec fn extension(path: Seq<char>, platform: Platform) -> Seq<char> {
    match file_name(path, platform) {
        None => seq![],
        Some(name) => suffix(name),
    }
}

/// The components of a text, but for the empty ones.
pub open spec fn parts(text: Seq<char>, syntax: Syntax) -> Seq<Seq<char>>
    decreases text.len(),
{
    if text.len() == 0 {
        seq![]
    } else {
        let before = text.drop_last();
        let done = parts(before, syntax);
        if is_separator(text.last(), syntax) {
            done
        } else if before.len() == 0 || is_separator(before.last(), syntax) {
            done.push(seq![text.last()])
        } else {
            done.drop_last().push(done.last().push(text.last()))
        }
    }
}

/// Where one step leads from the components `at`: `.` stays, `..` goes up where there is a name
/// to go up from, and a name goes down.
pub open spec fn stepped(at: Seq<Seq<char>>, step: Seq<char>) -> Seq<Seq<char>> {
    if !is_dots(step) {
        at.push(step)
    } else if step.len() == 2 && at.len() > 0 && !is_dots(at.last()) {
        at.drop_last()
    } else {
        at
    }
}

/// Where several steps lead from the components `at`.
pub open spec fn followed(at: Seq<Seq<char>>, steps: Seq<Seq<char>>) -> Seq<Seq<char>>
    decreases steps.len(),
{
    if steps.len() == 0 {
        at
    } else {
        stepped(followed(at, steps.drop_last()), steps.last())
    }
}

/// The path of the components `at` below a prefix.
pub open spec fn below(prefix: Seq<char>, at: Seq<Seq<char>>) -> Seq<char>
    decreases at.len(),
{
    if at.len() == 0 {
        prefix
    } else {
        below(prefix, at.drop_last()).push('\\') + at.last()
    }
}

/// The path that `name`, which has no prefix and is not empty, leads to from the directory `dir`,
/// which has a verbatim prefix. Such a path takes `.` and `..` literally, so that the components
/// of the name are followed one by one.
pub open spec fn verbatim_path_in(dir: Seq<char>, name: Seq<char>) -> Seq<char> {
    let platform = Platform::Windows;
    let prefix = dir.take(prefix_len(dir, platform));
    let from_root = has_root(name, platform);
    let start = if from_root {
        seq![]
    } else {
        parts(dir.skip(body_start(dir, platform)), Syntax::Verbatim)
    };
    let at = followed(start, parts(name, Syntax::Windows));
    if at.len() == 0 && (from_root || has_root(dir, platform)) {
        prefix.push('\\')
    } else {
        below(prefix, at)
    }
}

/// The path that `name` leads to from the directory `dir`. A name with a prefix of its own
/// stands for itself; one that begins with a separator starts at the root of what `dir` is on.
pub open spec fn path_in(dir: Seq<char>, name: Seq<char>, platform: Platform) -> Seq<char> {
    if prefix_len(name, platform) > 0 {
        name
    } else if syntax_of(dir, platform) == Syntax::Verbatim && name.len() > 0 {
        verbatim_path_in(dir, name)
    } else if has_root(name, platform) {
        dir.take(prefix_len(dir, platform)) + name
    } else if dir.len() == 0 || is_separator(dir.last(), plain_syntax(platform)) || (dir.len() == 2
        && prefix_len(dir, platform) == 2) {
        dir + name
    } else {
        dir.push(separator(platform)) + name
    }
}

/// Reads `std::path::MAIN_SEPARATOR_STR`, which depends on the platform: nothing is promised of it.
#[verifier::external_body]
fn main_separator() -> (separator: &'static str) {
    std::path::MAIN_SEPARATOR_STR
}

/// The platform that the program runs on, by its main separator.
pub fn current_platform() -> (platform: Platform) {
    platform_of(main_separator())
}

/// The platform whose main separator is `separator`.
pub fn platform_of(separator: &str) -> (platform: Platform)
    ensures
        platform == if separator@ == "\\"@ {
            Platform::Windows
        } else {
            Platform::Unix
        },
{
    if strings::same_text(separator, "\\") {
        Platform::Windows
    } else {
        Platform::Unix
    }
}

fn separates(c: char, syntax: Syntax) -> (yes: bool)
    ensures
        yes == is_separator(c, syntax),
{
    match syntax {
        Syntax::Unix => c == '/',
        Syntax::Windows => c == '/' || c == '\\',
        Syntax::Verbatim => c == '\\',
    }
}

fn plain_syntax_on(platform: Platform) -> (syntax: Syntax)
    ensures
        syntax == plain_syntax(platform),
{
    match platform {
        Platform::Unix => Syntax::Unix,
        Platform::Windows => Syntax::Windows,
    }
}

fn find_syntax(chars: &Vec<char>, platform: Platform) -> (syntax: Syntax)
    ensures
        syntax == syntax_of(chars@, platform),
{
    if platform == Platform::Windows && chars.len() >= 4 && chars[0] == '\\' && chars[1] == '\\'
        && chars[2] == '?' && chars[3] == '\\' {
        Syntax::Verbatim
    } else {
        plain_syntax_on(platform)
    }
}

fn drive_at(chars: &Vec<char>, at: usize) -> (yes: bool)
    requires
        at <= chars@.len(),
    ensures
        yes == has_drive(chars@, at as int),
{
    if chars.len() - at < 2 {
        return false;
    }
    let c = chars[at];
    ('A' <= c && c <= 'Z' || 'a' <= c && c <= 'z') && chars[at + 1] == ':'
}

/// Finds the end of a component, see [`component_end`].
fn end_of_component(chars: &Vec<char>, from: usize, syntax: Syntax) -> (end: usize)
    requires
        from <= chars@.len(),
    ensures
        end == component_end(chars@, from as int, syntax),
        from <= end <= chars@.len(),
        end == chars@.len() || is_separator(chars@[end as int], syntax),
{
    let mut end: usize = from;
    while end < chars.len() && !separates(chars[end], syntax)
        invariant
            from <= end <= chars@.len(),
            component_end(chars@, from as int, syntax) == component_end(
                chars@,
                end as int,
                syntax,
            ),
        decreases chars@.len() - end,
    {
        end = end + 1;
    }
    end
}

/// Finds the end of a share, see [`share_end`].
fn end_of_share(chars: &Vec<char>, from: usize, syntax: Syntax) -> (end: usize)
    requires
        from <= chars@.len(),
    ensures
        end == share_end(chars@, from as int, syntax),
        from <= end <= chars@.len(),
{
    let server_end = end_of_component(chars, from, syntax);
    if server_end < chars.len() {
        let end = end_of_component(chars, server_end + 1, syntax);
        if server_end + 1 < end {
            return end;
        }
    }
    server_end
}

/// Measures the prefix of a path, see [`prefix_len`].
fn prefix_length(chars: &Vec<char>, platform: Platform) -> (len: usize)
    ensures
        len == prefix_len(chars@, platform),
        len <= chars@.len(),
{
    match find_syntax(chars, platform) {
        Syntax::Unix => 0,
        Syntax::Windows => {
            let syntax = Syntax::Windows;
            if chars.len() >= 2 && separates(chars[0], syntax) && separates(chars[1], syntax) {
                if chars.len() >= 4 && chars[2] == '.' && separates(chars[3], syntax) {
                    return end_of_component(chars, 4, syntax);
                }
                let server_end = end_of_component(chars, 2, syntax);
                let share_end = end_of_share(chars, 2, syntax);
                if 2 < server_end && server_end < share_end {
                    share_end
                } else {
                    0
                }
            } else if drive_at(chars, 0) {
                2
            } else {
                0
            }
        },
        Syntax::Verbatim => {
            if chars.len() >= 8 && chars[4] == 'U' && chars[5] == 'N' && chars[6] == 'C'
                && separates(chars[7], Syntax::Windows) {
                end_of_share(chars, 8, Syntax::Verbatim)
            } else if drive_at(chars, 4) && (chars.len() == 6 || separates(
                chars[6],
                Syntax::Windows,
            )) {
                6
            } else {
                end_of_component(chars, 4, Syntax::Verbatim)
            }
        },
    }
}

fn is_rooted(chars: &Vec<char>, prefix: usize, platform: Platform) -> (yes: bool)
    requires
        prefix == prefix_len(chars@, platform),
    ensures
        yes == has_root(chars@, platform),
{
    prefix < chars.len() && separates(chars[prefix], plain_syntax_on(platform))
}

proof fn lemma_last_index(text: Seq<char>, a: char, b: char, i: int)
    requires
        -1 <= i < text.len(),
        i >= 0 ==> text[i] == a || text[i] == b,
        forall|j: int| i < j < text.len() ==> text[j] != a && text[j] != b,
    ensures
        last_index(text, a, b) == i,
    decreases text.len(),
{
    if text.len() > 0 && i < text.len() - 1 {
        lemma_last_index(text.drop_last(), a, b, i);
    }
}

/// Finds the last `a` or `b` among the characters from `from` to `to`: the index behind it, or
/// `from`.
fn behind_last(chars: &Vec<char>, from: usize, to: usize, a: char, b: char) -> (start: usize)
    requires
        from <= to <= chars@.len(),
    ensures
        from <= start <= to,
        start == from + last_index(chars@.subrange(from as int, to as int), a, b) + 1,
{
    let ghost part = chars@.subrange(from as int, to as int);
    let mut start: usize = to;
    while start > from
        invariant
            from <= start <= to <= chars@.len(),
            part == chars@.subrange(from as int, to as int),
            forall|j: int| start - from <= j < part.len() ==> part[j] != a && part[j] != b,
        decreases start,
    {
        if chars[start - 1] == a || chars[start - 1] == b {
            proof {
                lemma_last_index(part, a, b, start - from - 1);
            }
            return start;
        }
        assert(part[start - from - 1] != a && part[start - from - 1] != b);
        start = start - 1;
    }
    proof {
        lemma_last_index(part, a, b, -1);
    }
    start
}

/// The suffix of the last name in what stands in a path from `body` on, see [`last_name`].
fn suffix_of(path: &str, body: usize, syntax: Syntax) -> (ext: String)
    requires
        body <= path@.len(),
    ensures
        ext@ == match last_name(path@.skip(body as int), syntax) {
            None => seq![],
            Some(name) => suffix(name),
        },
{
    let chars = strings::chars_of(path);
    let mut to: usize = chars.len();
    assert(path@.subrange(body as int, to as int) =~= path@.skip(body as int));
    while to > body && (separates(chars[to - 1], syntax) || (syntax != Syntax::Verbatim && to - body
        >= 2 && chars[to - 1] == '.' && separates(chars[to - 2], syntax)))
        invariant
            chars@ == path@,
            body <= to <= chars@.len(),
            last_name(path@.subrange(body as int, to as int), syntax) == last_name(
                path@.skip(body as int),
                syntax,
            ),
        decreases to,
    {
        let ghost part = path@.subrange(body as int, to as int);
        if separates(chars[to - 1], syntax) {
            assert(part.drop_last() =~= path@.subrange(body as int, to - 1));
            to = to - 1;
        } else {
            assert(part.take(part.len() - 2) =~= path@.subrange(body as int, to - 2));
            to = to - 2;
        }
    }
    if to == body {
        return String::new();
    }
    let (a, b) = match syntax {
        Syntax::Unix => ('/', '/'),
        Syntax::Windows => ('/', '\\'),
        Syntax::Verbatim => ('\\', '\\'),
    };
    let from = behind_last(&chars, body, to, a, b);
    let ghost name = path@.subrange(from as int, to as int);
    assert(path@.subrange(body as int, to as int).skip(from - body) =~= name);
    if to - from == 1 && chars[from] == '.' {
        assert(is_dots(name));
        return String::new();
    }
    if to - from == 2 && chars[from] == '.' && chars[from + 1] == '.' {
        assert(is_dots(name));
        return String::new();
    }
    assert(!is_dots(name));
    let start = behind_last(&chars, from, to, '.', '.');
    if start - from <= 1 {
        return String::new();
    }
    assert(path@.subrange(start as int, to as int) =~= suffix(name));
    path.substring_char(start, to).to_string()
}

/// The extension of the file that a path leads to, see [`extension`].
pub fn extension_of(path: &str, platform: Platform) -> (ext: String)
    ensures
        ext@ == extension(path@, platform),
{
    let chars = strings::chars_of(path);
    let prefix = prefix_length(&chars, platform);
    let body: usize = if is_rooted(&chars, prefix, platform) {
        prefix + 1
    } else {
        prefix
    };
    suffix_of(path, body, find_syntax(&chars, platform))
}

/// Splits what stands in a text from `from` on, see [`parts`].
fn parts_of(text: &str, from: usize, syntax: Syntax) -> (found: Vec<String>)
    requires
        from <= text@.len(),
    ensures
        found.deep_view() == parts(text@.skip(from as int), syntax),
{
    let chars = strings::chars_of(text);
    let mut found: Vec<String> = Vec::new();
    let mut start: usize = from;
    let mut i: usize = from;
    assert(found.deep_view() =~= parts(text@.subrange(from as int, i as int), syntax));
    while i < chars.len()
        invariant
            chars@ == text@,
            from <= start <= i <= chars@.len(),
            start == i <==> (i == from || is_separator(chars@[i - 1], syntax)),
            parts(text@.subrange(from as int, i as int), syntax) == if start < i {
                found.deep_view().push(text@.subrange(start as int, i as int))
            } else {
                found.deep_view()
            },
        decreases chars@.len() - i,
    {
        let ghost next = text@.subrange(from as int, i + 1);
        assert(next.drop_last() =~= text@.subrange(from as int, i as int));
        let ghost before = found.deep_view();
        if separates(chars[i], syntax) {
            if start < i {
                found.push(text.substring_char(start, i).to_string());
                assert(found.deep_view() =~= before.push(text@.subrange(start as int, i as int)));
            }
            start = i + 1;
        } else {
            let ghost piece = text@.subrange(start as int, i as int);
            assert(piece.push(text@[i as int]) =~= text@.subrange(start as int, i + 1));
            if start < i {
                assert(before.push(piece).drop_last() =~= before);
            } else {
                assert(seq![text@[i as int]] =~= text@.subrange(start as int, i + 1));
            }
        }
        i = i + 1;
    }
    assert(text@.subrange(from as int, i as int) =~= text@.skip(from as int));
    if start < i {
        let ghost before = found.deep_view();
        found.push(text.substring_char(start, i).to_string());
        assert(found.deep_view() =~= before.push(text@.subrange(start as int, i as int)));
    }
    found
}

fn names_nothing(name: &str) -> (yes: bool)
    ensures
        yes == is_dots(name@),
{
    proof {
        reveal_strlit(".");
        reveal_strlit("..");
        assert(is_dots(name@) ==> name@ =~= "."@ || name@ =~= ".."@);
    }
    strings::same_text(name, ".") || strings::same_text(name, "..")
}

/// Follows the components of a name, see [`followed`].
fn follow(start: Vec<String>, steps: &Vec<String>) -> (at: Vec<String>)
    ensures
        at.deep_view() == followed(start.deep_view(), steps.deep_view()),
{
    let mut at = start;
    let ghost views = steps.deep_view();
    let mut i: usize = 0;
    assert(views.take(0) =~= seq![]);
    while i < steps.len()
        invariant
            i <= steps@.len(),
            views == steps.deep_view(),
            at.deep_view() == followed(start.deep_view(), views.take(i as int)),
        decreases steps@.len() - i,
    {
        let step = steps[i].as_str();
        let ghost before = at.deep_view();
        assert(step@ == views[i as int]);
        assert(views.take(i + 1).drop_last() =~= views.take(i as int));
        let len: usize = at.len();
        if !names_nothing(step) {
            at.push(step.to_string());
            assert(at.deep_view() =~= before.push(step@));
        } else if step.unicode_len() == 2 && len > 0 && !names_nothing(at[len - 1].as_str()) {
            assert(before.last() == at@.last()@);
            at.pop();
            assert(at.deep_view() =~= before.drop_last());
        } else {
            assert(len > 0 ==> before.last() == at@.last()@);
        }
        i = i + 1;
    }
    assert(views.take(i as int) =~= views);
    at
}

/// Writes components below a prefix, see [`below`].
fn path_below(prefix: &str, at: &Vec<String>) -> (path: String)
    ensures
        path@ == below(prefix@, at.deep_view()),
{
    proof {
        reveal_strlit("\\");
    }
    let mut path = prefix.to_string();
    let ghost views = at.deep_view();
    let mut i: usize = 0;
    while i < at.len()
        invariant
            i <= at@.len(),
            views == at.deep_view(),
            "\\"@ =~= seq!['\\'],
            path@ == below(prefix@, views.take(i as int)),
        decreases at@.len() - i,
    {
        assert(views.take(i + 1).drop_last() =~= views.take(i as int));
        let ghost before = path@;
        path.append("\\");
        assert(path@ =~= before.push('\\'));
        path.append(at[i].as_str());
        i = i + 1;
    }
    assert(views.take(i as int) =~= views);
    path
}

/// Joins a directory and a name, see [`path_in`].
pub fn join_path(dir: &str, name: &str, platform: Platform) -> (path: String)
    ensures
        path@ == path_in(dir@, name@, platform),
{
    proof {
        reveal_strlit("/");
        reveal_strlit("\\");
    }
    let dir_chars = strings::chars_of(dir);
    let name_chars = strings::chars_of(name);
    let name_prefix = prefix_length(&name_chars, platform);
    if name_prefix > 0 {
        return name.to_string();
    }
    let len: usize = dir_chars.len();
    let prefix = prefix_length(&dir_chars, platform);
    let from_root = is_rooted(&name_chars, name_prefix, platform);
    assert(dir@.subrange(0, prefix as int) =~= dir@.take(prefix as int));
    if find_syntax(&dir_chars, platform) == Syntax::Verbatim && name_chars.len() > 0 {
        let dir_rooted = is_rooted(&dir_chars, prefix, platform);
        let body: usize = if dir_rooted {
            prefix + 1
        } else {
            prefix
        };
        let start: Vec<String> = if from_root {
            Vec::new()
        } else {
            parts_of(dir, body, Syntax::Verbatim)
        };
        assert(from_root ==> start.deep_view() =~= seq![]);
        assert(name@.skip(0) =~= name@);
        let at = follow(start, &parts_of(name, 0, Syntax::Windows));
        if at.len() == 0 && (from_root || dir_rooted) {
            let path = strings::joined(dir.substring_char(0, prefix), "\\");
            assert(path@ =~= dir@.take(prefix as int).push('\\'));
            return path;
        }
        return path_below(dir.substring_char(0, prefix), &at);
    }
    if from_root {
        return strings::joined(dir.substring_char(0, prefix), name);
    }
    if len == 0 || separates(dir_chars[len - 1], plain_syntax_on(platform)) || (len == 2 && prefix
        == 2) {
        return strings::joined(dir, name);
    }
    let separator = match platform {
        Platform::Unix => "/",
        Platform::Windows => "\\",
    };
    let folder = strings::joined(dir, separator);
    assert(folder@ =~= dir@.push(self::separator(platform)));
    strings::joined(folder.as_str(), name)
}

pub(crate) proof fn lemma_nothing_behind_last_index(text: Seq<char>, a: char, b: char)
    ensures
        -1 <= last_index(text, a, b) < text.len(),
        last_index(text, a, b) >= 0 ==> text[last_index(text, a, b)] == a || text[last_index(
            text,
            a,
            b,
        )] == b,
        forall|j: int|
            last_index(text, a, b) < j < text.len() ==> #[trigger] text[j] != a && text[j] != b,
    decreases text.len(),
{
    if text.len() > 0 && text.last() != a && text.last() != b {
        let rest = text.drop_last();
        lemma_nothing_behind_last_index(rest, a, b);
        assert forall|j: int| last_index(text, a, b) < j < text.len() implies #[trigger] text[j]
            != a && text[j] != b by {
            if j < rest.len() {
                assert(rest[j] == text[j]);
            }
        }
    }
}

pub(crate) proof fn lemma_component_end(path: Seq<char>, from: int, syntax: Syntax)
    requires
        0 <= from,
    ensures
        from <= component_end(path, from, syntax),
        from >= path.len() ==> component_end(path, from, syntax) == from,
        from <= path.len() ==> component_end(path, from, syntax) <= path.len(),
        component_end(path, from, syntax) < path.len() ==> is_separator(
            path[component_end(path, from, syntax)],
            syntax,
        ),
    decreases path.len() - from,
{
    if from < path.len() && !is_separator(path[from], syntax) {
        lemma_component_end(path, from + 1, syntax);
    }
}

/// A prefix lies inside its path; a verbatim one is all of it, or a separator follows.
pub(crate) proof fn lemma_prefix_is_inside(path: Seq<char>, platform: Platform)
    ensures
        0 <= prefix_len(path, platform) <= body_start(path, platform) <= path.len(),
        syntax_of(path, platform) == Syntax::Verbatim ==> prefix_len(path, platform) >= 4 && (
        prefix_len(path, platform) == path.len() || has_root(path, platform)),
        platform == Platform::Windows && is_verbatim_share(path) && prefix_len(path, platform)
            < path.len() ==> path[prefix_len(path, platform)] == '\\',
{
    let plain = Syntax::Windows;
    let verbatim = Syntax::Verbatim;
    lemma_component_end(path, 2, plain);
    lemma_component_end(path, component_end(path, 2, plain) + 1, plain);
    lemma_component_end(path, 4, plain);
    lemma_component_end(path, 4, verbatim);
    lemma_component_end(path, 8, verbatim);
    lemma_component_end(path, component_end(path, 8, verbatim) + 1, verbatim);
}

/// What lies behind a separator of a verbatim path decides on its last name, if anything does.
pub(crate) proof fn lemma_last_name_behind(body: Seq<char>, separator: int, named: int)
    requires
        0 <= separator < named < body.len(),
        body[separator] == '\\',
        body[named] != '\\',
    ensures
        last_name(body, Syntax::Verbatim) == last_name(
            body.skip(separator + 1),
            Syntax::Verbatim,
        ),
    decreases body.len(),
{
    let rest = body.skip(separator + 1);
    if body.last() == '\\' {
        lemma_last_name_behind(body.drop_last(), separator, named);
        assert(rest.drop_last() =~= body.drop_last().skip(separator + 1));
    } else {
        let i = last_index(body, '\\', '\\');
        lemma_nothing_behind_last_index(body, '\\', '\\');
        assert(i >= separator);
        assert(i > separator ==> rest[i - separator - 1] == body[i]);
        lemma_last_index(rest, '\\', '\\', i - separator - 1);
        assert(rest.skip(i - separator) =~= body.skip(i + 1));
    }
}

/// A component that names a file or a directory and holds no colon.
pub open spec fn is_plain_name(name: Seq<char>) -> bool {
    &&& name.len() > 0
    &&& !is_dots(name)
    &&& forall|i: int|
        0 <= i < name.len() ==> #[trigger] name[i] != '/' && name[i] != '\\' && name[i] != ':'
}

/// The name at the end of a text is the last of its parts, or the only one.
proof fn lemma_last_part(text: Seq<char>, name: Seq<char>, syntax: Syntax)
    requires
        0 < name.len() <= text.len(),
        text.skip(text.len() - name.len()) == name,
        text.len() == name.len() || is_separator(text[text.len() - name.len() - 1], syntax),
        forall|i: int| 0 <= i < name.len() ==> !is_separator(#[trigger] name[i], syntax),
    ensures
        parts(text, syntax).len() > 0,
        parts(text, syntax).last() == name,
        text == name ==> parts(text, syntax).len() == 1,
    decreases name.len(),
{
    let before = text.drop_last();
    assert(text.last() == name.last());
    if name.len() == 1 {
        assert(seq![text.last()] =~= name);
        if text == name {
            assert(before =~= seq![]);
        }
    } else {
        let shorter = name.drop_last();
        assert(before.skip(before.len() - shorter.len()) =~= shorter);
        assert(before.last() == name[name.len() - 2]);
        lemma_last_part(before, shorter, syntax);
        assert(shorter.push(text.last()) =~= name);
    }
}

proof fn lemma_plain_name_is_relative(name: Seq<char>, platform: Platform)
    requires
        is_plain_name(name),
    ensures
        prefix_len(name, platform) == 0,
        !has_root(name, platform),
        parts(name, Syntax::Windows) == seq![name],
{
    assert(name.skip(0) =~= name);
    lemma_last_part(name, name, Syntax::Windows);
    assert(parts(name, Syntax::Windows) =~= seq![name]);
}

/// In a verbatim directory a name is one more component.
proof fn lemma_name_in_verbatim(dir: Seq<char>, name: Seq<char>)
    requires
        is_verbatim(dir),
        is_plain_name(name),
    ensures
        path_in(dir, name, Platform::Windows) == below(
            dir.take(prefix_len(dir, Platform::Windows)),
            parts(dir.skip(body_start(dir, Platform::Windows)), Syntax::Verbatim),
        ).push('\\') + name,
{
    let platform = Platform::Windows;
    lemma_plain_name_is_relative(name, platform);
    let start = parts(dir.skip(body_start(dir, platform)), Syntax::Verbatim);
    let steps = seq![name];
    assert(steps.drop_last() =~= seq![]);
    assert(followed(start, steps.drop_last()) == start);
    assert(followed(start, steps) == start.push(name));
    assert(start.push(name).drop_last() =~= start);
}

/// A path ends in the plain name that was joined to it; `above` is what stands in front.
pub(crate) proof fn lemma_name_is_joined(
    dir: Seq<char>,
    name: Seq<char>,
    platform: Platform,
) -> (above: Seq<char>)
    requires
        is_plain_name(name),
    ensures
        path_in(dir, name, platform) == above + name,
        syntax_of(above + name, platform) == Syntax::Verbatim ==> above.len() > 0 && above.last()
            == '\\',
{
    lemma_plain_name_is_relative(name, platform);
    if syntax_of(dir, platform) == Syntax::Verbatim {
        lemma_name_in_verbatim(dir, name);
        below(
            dir.take(prefix_len(dir, platform)),
            parts(dir.skip(body_start(dir, platform)), Syntax::Verbatim),
        ).push('\\')
    } else if path_in(dir, name, platform) == dir + name {
        if is_verbatim(dir + name) && !is_verbatim(dir) {
            let i = dir.len() as int;
            assert(i < 4 ==> (dir + name)[i] == name[0]);
        }
        dir
    } else {
        dir.push(separator(platform))
    }
}

/// A plain name stays in a path to which another is joined.
pub(crate) proof fn lemma_name_is_kept(
    above: Seq<char>,
    name: Seq<char>,
    next: Seq<char>,
    platform: Platform,
) -> (start: Seq<char>)
    requires
        is_plain_name(name),
        is_plain_name(next),
        syntax_of(above + name, platform) == Syntax::Verbatim ==> above.len() > 0 && above.last()
            == '\\',
    ensures
        path_in(above + name, next, platform) == (start + name).push(separator(platform)) + next,
{
    let folder = above + name;
    lemma_plain_name_is_relative(next, platform);
    lemma_prefix_is_inside(folder, platform);
    assert(folder.last() == name.last());
    if syntax_of(folder, platform) == Syntax::Verbatim {
        let prefix = prefix_len(folder, platform);
        let body = folder.skip(body_start(folder, platform));
        lemma_name_in_verbatim(folder, next);
        if prefix == folder.len() {
            assert(body =~= seq![]);
            assert(folder.take(prefix) =~= folder);
            above
        } else {
            assert(prefix < above.len()) by {
                if prefix >= above.len() {
                    assert(folder[prefix] == name[prefix - above.len()]);
                }
            }
            assert(body.skip(body.len() - name.len()) =~= name);
            if body.len() > name.len() {
                assert(body[body.len() - name.len() - 1] == above.last());
            }
            lemma_last_part(body, name, Syntax::Verbatim);
            below(folder.take(prefix), parts(body, Syntax::Verbatim).drop_last()).push('\\')
        }
    } else {
        above
    }
}

proof fn lemma_last_name_is_plain(body: Seq<char>, syntax: Syntax)
    ensures
        last_name(body, syntax) matches Some(name) ==> forall|i: int|
            0 <= i < name.len() ==> !is_separator(#[trigger] name[i], syntax),
    decreases body.len(),
{
    if body.len() > 0 {
        if is_separator(body.last(), syntax) {
            lemma_last_name_is_plain(body.drop_last(), syntax);
        } else if syntax != Syntax::Verbatim && body.len() >= 2 && body.last() == '.'
            && is_separator(body[body.len() - 2], syntax) {
            lemma_last_name_is_plain(body.take(body.len() - 2), syntax);
        } else {
            lemma_nothing_behind_last_index(body, separators(syntax).0, separators(syntax).1);
        }
    }
}

/// An extension holds neither a dot nor a separator.
pub proof fn law_extension_is_plain(path: Seq<char>, platform: Platform)
    ensures
        forall|i: int|
            0 <= i < extension(path, platform).len() ==> #[trigger] extension(path, platform)[i]
                != '.' && !is_separator(
                extension(path, platform)[i],
                syntax_of(path, platform),
            ),
{
    let syntax = syntax_of(path, platform);
    lemma_last_name_is_plain(path.skip(body_start(path, platform)), syntax);
    if let Some(name) = file_name(path, platform) {
        lemma_nothing_behind_last_index(name, '.', '.');
        let start = last_index(name, '.', '.') + 1;
        if start > 1 {
            assert forall|i: int| 0 <= i < extension(path, platform).len() implies #[trigger]
                extension(path, platform)[i] != '.' && !is_separator(
                extension(path, platform)[i],
                syntax,
            ) by {
                assert(extension(path, platform)[i] == name[start + i]);
            }
        }
    }
}

/// Whether all platforms read a path alike: it holds no backslash and no colon, and does not
/// begin with two slashes.
pub open spec fn is_portable(path: Seq<char>) -> bool {
    &&& forall|i: int| 0 <= i < path.len() ==> #[trigger] path[i] != '\\' && path[i] != ':'
    &&& !(path.len() >= 2 && path[0] == '/' && path[1] == '/')
}

proof fn lemma_last_index_without_backslash(text: Seq<char>)
    requires
        forall|i: int| 0 <= i < text.len() ==> #[trigger] text[i] != '\\',
    ensures
        last_index(text, '/', '\\') == last_index(text, '/', '/'),
    decreases text.len(),
{
    if text.len() > 0 {
        lemma_last_index_without_backslash(text.drop_last());
    }
}

proof fn lemma_last_name_without_backslash(body: Seq<char>)
    requires
        forall|i: int| 0 <= i < body.len() ==> #[trigger] body[i] != '\\',
    ensures
        last_name(body, Syntax::Windows) == last_name(body, Syntax::Unix),
    decreases body.len(),
{
    if body.len() > 0 {
        lemma_last_index_without_backslash(body);
        lemma_last_name_without_backslash(body.drop_last());
        if body.len() >= 2 {
            lemma_last_name_without_backslash(body.take(body.len() - 2));
        }
    }
}

/// The extension of a portable path does not depend on the platform.
pub proof fn law_portable_paths_have_one_extension(path: Seq<char>, platform: Platform)
    requires
        is_portable(path),
    ensures
        extension(path, platform) == extension(path, Platform::Unix),
{
    assert(prefix_len(path, platform) == 0);
    assert(has_root(path, platform) == has_root(path, Platform::Unix));
    lemma_last_name_without_backslash(path.skip(body_start(path, platform)));
}

/// A component that names a file or a directory on a platform. On Windows it holds no colon.
pub open spec fn is_name_on(name: Seq<char>, platform: Platform) -> bool {
    &&& name.len() > 0
    &&& !is_dots(name)
    &&& forall|i: int| 0 <= i < name.len() ==> #[trigger] name[i] != '/'
    &&& platform is Windows ==> forall|i: int|
        0 <= i < name.len() ==> #[trigger] name[i] != '\\' && name[i] != ':'
}

/// A name at the end of a path is its last name.
proof fn lemma_last_name_at_end(
    body: Seq<char>,
    name: Seq<char>,
    syntax: Syntax,
    platform: Platform,
)
    requires
        is_name_on(name, platform),
        platform is Unix ==> syntax == Syntax::Unix,
        body.len() >= name.len(),
        body.skip(body.len() - name.len()) == name,
        body.len() == name.len() || is_separator(body[body.len() - name.len() - 1], syntax),
    ensures
        last_name(body, syntax) == Some(name),
{
    let start = body.len() - name.len();
    let (a, b) = separators(syntax);
    assert forall|j: int| start <= j < body.len() implies !is_separator(
        #[trigger] body[j],
        syntax,
    ) by {
        assert(name[j - start] == body[j]);
    }
    assert(body.last() == name.last());
    if name.len() == 1 {
        assert(name[0] != '.');
    } else {
        assert(body[body.len() - 2] == name[name.len() - 2]);
    }
    lemma_last_index(body, a, b, start - 1);
}

proof fn lemma_name_is_relative(name: Seq<char>, platform: Platform)
    requires
        is_name_on(name, platform),
    ensures
        prefix_len(name, platform) == 0,
        !has_root(name, platform),
        file_name(name, platform) == Some(name),
{
    assert(name.skip(0) =~= name);
    lemma_last_name_at_end(name, name, syntax_of(name, platform), platform);
}

/// A file is called the same in whatever directory it lies, whichever separator stands between:
/// the directory has no influence on the name, unless the platform takes the name as part of a
/// drive, a share or a device.
pub proof fn law_directory_is_no_part_of_the_name(
    dir: Seq<char>,
    between: char,
    name: Seq<char>,
    platform: Platform,
)
    requires
        is_name_on(name, platform),
        is_separator(between, syntax_of(dir.push(between) + name, platform)),
        prefix_len(dir.push(between) + name, platform) <= dir.len(),
    ensures
        file_name(dir.push(between) + name, platform) == Some(name),
        file_name(name, platform) == Some(name),
        extension(dir.push(between) + name, platform) == extension(name, platform),
{
    let path = dir.push(between) + name;
    let start = body_start(path, platform);
    let body = path.skip(start);
    lemma_prefix_is_inside(path, platform);
    assert(body.skip(body.len() - name.len()) =~= name);
    if body.len() > name.len() {
        assert(body[body.len() - name.len() - 1] == between);
    }
    lemma_last_name_at_end(body, name, syntax_of(path, platform), platform);
    lemma_name_is_relative(name, platform);
}

/// A drive in front of a name is no part of it.
pub proof fn law_drive_is_no_part_of_the_name(drive: char, name: Seq<char>)
    requires
        is_letter(drive),
        is_name_on(name, Platform::Windows),
    ensures
        file_name(seq![drive, ':'] + name, Platform::Windows) == Some(name),
        extension(seq![drive, ':'] + name, Platform::Windows) == extension(
            name,
            Platform::Windows,
        ),
{
    let path = seq![drive, ':'] + name;
    assert(path[0] == drive && path[1] == ':' && path[2] == name[0]);
    assert(path.skip(2) =~= name);
    assert(name.skip(0) =~= name);
    lemma_last_name_at_end(name, name, Syntax::Windows, Platform::Windows);
    lemma_name_is_relative(name, Platform::Windows);
}

/// A slash behind a path makes no difference to its extension on Unix, and neither does a `.`
/// component.
pub proof fn law_trailing_slashes_do_not_matter(path: Seq<char>)
    ensures
        extension(path.push('/'), Platform::Unix) == extension(path, Platform::Unix),
        path.len() > 0 ==> extension(path + seq!['/', '.'], Platform::Unix) == extension(
            path,
            Platform::Unix,
        ),
{
    let platform = Platform::Unix;
    let slashed = path.push('/');
    let dotted = path + seq!['/', '.'];
    if path.len() == 0 {
        assert(slashed.skip(1) =~= seq![]);
        assert(path.skip(0) =~= seq![]);
    } else {
        let start = body_start(path, platform);
        let body = path.skip(start);
        assert(slashed[0] == path[0] && dotted[0] == path[0]);
        assert(slashed.skip(start).drop_last() =~= body);
        let end = dotted.skip(start);
        assert(end.last() == '.' && end[end.len() - 2] == '/');
        assert(end.take(end.len() - 2) =~= body);
    }
}

/// The extension of a name is what stands behind its last dot, if something stands in front of
/// that dot.
pub proof fn law_extension_is_behind_the_last_dot(
    stem: Seq<char>,
    ext: Seq<char>,
    platform: Platform,
)
    requires
        stem.len() > 0,
        is_name_on(stem.push('.') + ext, platform),
        forall|i: int| 0 <= i < ext.len() ==> #[trigger] ext[i] != '.',
    ensures
        extension(stem.push('.') + ext, platform) == ext,
{
    let name = stem.push('.') + ext;
    lemma_name_is_relative(name, platform);
    assert forall|j: int| stem.len() < j < name.len() implies #[trigger] name[j] != '.' by {
        assert(name[j] == ext[j - stem.len() - 1]);
    }
    lemma_last_index(name, '.', '.', stem.len() as int);
    assert(name.skip(stem.len() as int + 1) =~= ext);
}

/// A name without a dot behind its first character has no extension.
pub proof fn law_names_without_extension(name: Seq<char>, platform: Platform)
    requires
        is_name_on(name, platform),
        forall|i: int| 0 < i < name.len() ==> #[trigger] name[i] != '.',
    ensures
        extension(name, platform).len() == 0,
{
    lemma_name_is_relative(name, platform);
    lemma_last_index(
        name,
        '.',
        '.',
        if name[0] == '.' {
            0
        } else {
            -1
        },
    );
}

/// A name is joined to a directory with the platform's separator between them, which is left out
/// where there is no directory, where it stands there already, and behind a bare drive.
pub proof fn law_names_are_joined(dir: Seq<char>, name: Seq<char>, platform: Platform)
    requires
        is_name_on(name, platform),
        platform is Windows ==> !is_verbatim(dir),
    ensures
        ({
            let joined = path_in(dir, name, platform);
            let ends_open = {
                ||| dir.len() == 0
                ||| dir.last() == '/'
                ||| platform is Windows && dir.last() == '\\'
                ||| platform is Windows && dir.len() == 2 && is_letter(dir[0]) && dir[1] == ':'
            };
            &&& ends_open ==> joined == dir + name
            &&& !ends_open && platform is Unix ==> joined == dir.push('/') + name
            &&& !ends_open && platform is Windows ==> joined == dir.push('\\') + name
        }),
{
    lemma_name_is_relative(name, platform);
    lemma_prefix_is_inside(dir, platform);
    if platform is Windows && dir.len() == 2 {
        lemma_component_end(dir, 2, Syntax::Windows);
        lemma_component_end(dir, component_end(dir, 2, Syntax::Windows) + 1, Syntax::Windows);
    }
}

/// A name that begins with a slash is joined to nothing on Unix.
pub proof fn law_absolute_names_stand_for_themselves(dir: Seq<char>, name: Seq<char>)
    requires
        name.len() > 0,
        name[0] == '/',
    ensures
        path_in(dir, name, Platform::Unix) == name,
{
    assert(dir.take(0) + name =~= name);
}

/// A path that ends in `.` or `..` has no extension on Unix, unless a file stands in front of the
/// `.`.
pub proof fn law_dots_have_no_extension(dir: Seq<char>)
    ensures
        extension(dir.push('/') + seq!['.', '.'], Platform::Unix).len() == 0,
        extension(seq!['.', '.'], Platform::Unix).len() == 0,
        extension(seq!['.'], Platform::Unix).len() == 0,
        extension(seq!['/', '.'], Platform::Unix).len() == 0,
        extension(seq![], Platform::Unix).len() == 0,
{
    let unix = Syntax::Unix;
    let dots = seq!['.', '.'];
    let path = dir.push('/') + dots;
    let start = body_start(path, Platform::Unix);
    let body = path.skip(start);
    assert(path[path.len() - 1] == '.' && path[path.len() - 2] == '.');
    assert(path[dir.len() as int] == '/');
    assert(body.last() == '.' && body[body.len() - 2] == '.');
    lemma_last_index(body, '/', '/', body.len() - 3);
    assert(is_dots(body.skip(body.len() - 2)));
    assert(dots.skip(0) =~= dots);
    lemma_last_index(dots, '/', '/', -1);
    let dot = seq!['.'];
    assert(dot.skip(0) =~= dot);
    lemma_last_index(dot, '/', '/', -1);
    assert(seq!['/', '.'].skip(1) =~= dot);
    assert(Seq::<char>::empty().skip(0) =~= seq![]);
}

proof fn lemma_component_ends_at(path: Seq<char>, from: int, to: int, syntax: Syntax)
    requires
        0 <= from <= to <= path.len(),
        forall|i: int| from <= i < to ==> !is_separator(#[trigger] path[i], syntax),
        to == path.len() || is_separator(path[to], syntax),
    ensures
        component_end(path, from, syntax) == to,
    decreases to - from,
{
    if from < to {
        lemma_component_ends_at(path, from + 1, to, syntax);
    }
}

/// A path that begins neither with two separators nor with a drive has no prefix; a drive is a
/// prefix of two characters, whatever follows. On Unix there are no prefixes.
pub proof fn law_ordinary_prefixes(path: Seq<char>)
    ensures
        prefix_len(path, Platform::Unix) == 0,
        path.len() >= 2 && is_letter(path[0]) && path[1] == ':' ==> prefix_len(
            path,
            Platform::Windows,
        ) == 2,
        path.len() < 2 ==> prefix_len(path, Platform::Windows) == 0,
        path.len() >= 2 && !(is_letter(path[0]) && path[1] == ':') && !((path[0] == '/' || path[0]
            == '\\') && (path[1] == '/' || path[1] == '\\')) ==> prefix_len(
            path,
            Platform::Windows,
        ) == 0,
{
}

/// What a component holds on Windows: something, and no separator.
pub open spec fn is_component(text: Seq<char>) -> bool {
    &&& text.len() > 0
    &&& forall|i: int| 0 <= i < text.len() ==> #[trigger] text[i] != '/' && text[i] != '\\'
}

/// A share and its server are the prefix of a path on it.
pub proof fn law_share_is_a_prefix(server: Seq<char>, share: Seq<char>, rest: Seq<char>)
    requires
        is_component(server),
        is_component(share),
        server != seq!['.'],
        server != seq!['?'],
        rest.len() == 0 || rest[0] == '/' || rest[0] == '\\',
    ensures
        prefix_len(
            seq!['\\', '\\'] + server + seq!['\\'] + share + rest,
            Platform::Windows,
        ) == 3 + server.len() + share.len(),
{
    let path = seq!['\\', '\\'] + server + seq!['\\'] + share + rest;
    let server_end = 2 + server.len() as int;
    let end = server_end + 1 + share.len();
    let syntax = Syntax::Windows;
    assert(path[0] == '\\' && path[1] == '\\' && path[server_end] == '\\');
    assert forall|i: int| 2 <= i < server_end implies !is_separator(
        #[trigger] path[i],
        syntax,
    ) by {
        assert(path[i] == server[i - 2]);
    }
    assert forall|i: int| server_end < i < end implies !is_separator(#[trigger] path[i], syntax) by {
        assert(path[i] == share[i - server_end - 1]);
    }
    if rest.len() > 0 {
        assert(path[end] == rest[0]);
    }
    lemma_component_ends_at(path, 2, server_end, syntax);
    lemma_component_ends_at(path, server_end + 1, end, syntax);
    assert(path[2] == server[0]);
    if server.len() == 1 {
        assert(path[3] == '\\');
        assert(server[0] != '.') by {
            assert(server[0] == '.' ==> server =~= seq!['.']);
        }
        assert(server[0] != '?') by {
            assert(server[0] == '?' ==> server =~= seq!['?']);
        }
    } else {
        assert(path[3] == server[1]);
    }
}

/// A verbatim drive, a verbatim share and any other verbatim name are the prefix of a path behind
/// them.
pub proof fn law_verbatim_prefixes(
    drive: char,
    server: Seq<char>,
    share: Seq<char>,
    rest: Seq<char>,
)
    requires
        is_letter(drive),
        is_component(server),
        is_component(share),
        rest.len() == 0 || rest[0] == '\\',
    ensures
        ({
            let verbatim = seq!['\\', '\\', '?', '\\'];
            &&& prefix_len(verbatim + seq![drive, ':'] + rest, Platform::Windows) == 6
            &&& prefix_len(
                verbatim + seq!['U', 'N', 'C', '\\'] + server + seq!['\\'] + share + rest,
                Platform::Windows,
            ) == 9 + server.len() + share.len()
            &&& rest.len() == 0 || share != seq!['U', 'N', 'C'] ==> prefix_len(
                verbatim + share + rest,
                Platform::Windows,
            ) == 4 + share.len()
        }),
{
    let verbatim = seq!['\\', '\\', '?', '\\'];
    let syntax = Syntax::Verbatim;
    let on_drive = verbatim + seq![drive, ':'] + rest;
    assert(on_drive[0] == '\\' && on_drive[1] == '\\' && on_drive[2] == '?' && on_drive[3] == '\\');
    assert(on_drive[4] == drive && on_drive[5] == ':');
    if rest.len() > 0 {
        assert(on_drive[6] == rest[0]);
    }
    let on_share = verbatim + seq!['U', 'N', 'C', '\\'] + server + seq!['\\'] + share + rest;
    let server_end = 8 + server.len() as int;
    let end = server_end + 1 + share.len();
    assert(on_share[0] == '\\' && on_share[1] == '\\' && on_share[2] == '?' && on_share[3] == '\\');
    assert(on_share[4] == 'U' && on_share[5] == 'N' && on_share[6] == 'C' && on_share[7] == '\\');
    assert(on_share[server_end] == '\\');
    assert forall|i: int| 8 <= i < server_end implies !is_separator(
        #[trigger] on_share[i],
        syntax,
    ) by {
        assert(on_share[i] == server[i - 8]);
    }
    assert forall|i: int| server_end < i < end implies !is_separator(
        #[trigger] on_share[i],
        syntax,
    ) by {
        assert(on_share[i] == share[i - server_end - 1]);
    }
    if rest.len() > 0 {
        assert(on_share[end] == rest[0]);
    }
    lemma_component_ends_at(on_share, 8, server_end, syntax);
    lemma_component_ends_at(on_share, server_end + 1, end, syntax);
    if rest.len() == 0 || share != seq!['U', 'N', 'C'] {
        let named = verbatim + share + rest;
        let name_end = 4 + share.len() as int;
        assert(named[0] == '\\' && named[1] == '\\' && named[2] == '?' && named[3] == '\\');
        assert forall|i: int| 4 <= i < name_end implies named[i] == share[i - 4] && !is_separator(
            #[trigger] named[i],
            Syntax::Windows,
        ) by {
            assert(named[i] == share[i - 4]);
        }
        if rest.len() > 0 {
            assert(named[name_end] == rest[0]);
        }
        lemma_component_ends_at(named, 4, name_end, syntax);
        if is_verbatim_share(named) {
            assert(name_end <= 7);
            assert(name_end == 7) by {
                if name_end < 7 {
                    assert(rest.len() > 0);
                    assert(named[name_end] == '\\');
                }
            }
            assert(share =~= seq!['U', 'N', 'C']);
        }
    }
}

/// A leading backslash makes no difference to the parts of a verbatim path.
proof fn lemma_parts_behind_root(rest: Seq<char>)
    requires
        rest.len() > 0,
        rest[0] == '\\',
    ensures
        parts(rest, Syntax::Verbatim) == parts(rest.skip(1), Syntax::Verbatim),
    decreases rest.len(),
{
    reveal_with_fuel(parts, 2);
    let body = rest.skip(1);
    if rest.len() > 1 {
        lemma_parts_behind_root(rest.drop_last());
        assert(rest.drop_last().skip(1) =~= body.drop_last());
    } else {
        assert(rest.drop_last() =~= seq![]);
        assert(body =~= seq![]);
    }
}

/// The parts of a tidy verbatim path, written below its prefix, are the path.
proof fn lemma_parts_below(prefix: Seq<char>, rest: Seq<char>)
    requires
        rest.len() > 0 ==> rest[0] == '\\' && rest.last() != '\\',
        forall|i: int| 0 <= i < rest.len() - 1 && #[trigger] rest[i] == '\\' ==> rest[i + 1] != '\\',
    ensures
        below(prefix, parts(rest, Syntax::Verbatim)) == prefix + rest,
    decreases rest.len(),
{
    let verbatim = Syntax::Verbatim;
    if rest.len() == 0 {
        assert(prefix + rest =~= prefix);
    } else {
        let before = rest.drop_last();
        let done = parts(before, verbatim);
        if before.last() == '\\' {
            let shorter = before.drop_last();
            assert(before[before.len() - 1] == rest[rest.len() - 2]);
            assert(done == parts(shorter, verbatim));
            if shorter.len() > 0 {
                assert(shorter.last() == rest[rest.len() - 3]);
                assert(rest[rest.len() - 3] == '\\' ==> rest[rest.len() - 2] != '\\');
            }
            assert forall|i: int|
                0 <= i < shorter.len() - 1 && #[trigger] shorter[i] == '\\' implies shorter[i + 1]
                != '\\' by {
                assert(shorter[i] == rest[i]);
            }
            lemma_parts_below(prefix, shorter);
            assert(done.push(seq![rest.last()]).drop_last() =~= done);
            assert((prefix + shorter).push('\\') + seq![rest.last()] =~= prefix + rest);
        } else {
            assert forall|i: int|
                0 <= i < before.len() - 1 && #[trigger] before[i] == '\\' implies before[i + 1]
                != '\\' by {
                assert(before[i] == rest[i]);
            }
            lemma_parts_below(prefix, before);
            assert(done.len() > 0) by {
                if done.len() == 0 {
                    assert(below(prefix, done) == prefix);
                    assert((prefix + before).len() > prefix.len());
                }
            }
            let now = done.drop_last().push(done.last().push(rest.last()));
            assert(now.drop_last() =~= done.drop_last());
            let above = below(prefix, done.drop_last()).push('\\');
            assert(above + done.last().push(rest.last()) =~= (above + done.last()).push(
                rest.last(),
            ));
            assert((prefix + before).push(rest.last()) =~= prefix + rest);
        }
    }
}

/// A name is joined to a tidy verbatim directory, one without empty components, with a backslash
/// between them.
pub proof fn law_names_are_joined_to_verbatim_directories(dir: Seq<char>, name: Seq<char>)
    requires
        is_verbatim(dir),
        is_plain_name(name),
        ({
            let prefix = prefix_len(dir, Platform::Windows);
            &&& prefix < dir.len() ==> dir[prefix] == '\\' && dir.last() != '\\'
            &&& forall|i: int|
                prefix <= i < dir.len() - 1 && #[trigger] dir[i] == '\\' ==> dir[i + 1] != '\\'
        }),
    ensures
        path_in(dir, name, Platform::Windows) == dir.push('\\') + name,
{
    let platform = Platform::Windows;
    let prefix = prefix_len(dir, platform);
    let rest = dir.skip(prefix);
    lemma_prefix_is_inside(dir, platform);
    lemma_name_in_verbatim(dir, name);
    assert forall|i: int| 0 <= i < rest.len() - 1 && #[trigger] rest[i] == '\\' implies rest[i + 1]
        != '\\' by {
        assert(rest[i] == dir[prefix + i]);
    }
    lemma_parts_below(dir.take(prefix), rest);
    assert(dir.take(prefix) + rest =~= dir);
    if prefix < dir.len() {
        lemma_parts_behind_root(rest);
        assert(rest.skip(1) =~= dir.skip(prefix + 1));
    }
}

/// From the components of a verbatim directory, a name goes down, `..` goes up again, and `.`
/// stays.
pub proof fn law_going_down_and_up(at: Seq<Seq<char>>, name: Seq<char>)
    requires
        is_plain_name(name),
    ensures
        followed(at, seq![name]) == at.push(name),
        followed(at, seq![name, seq!['.', '.']]) == at,
        followed(at, seq![seq!['.']]) == at,
{
    reveal_with_fuel(followed, 3);
    let up = seq!['.', '.'];
    assert(seq![name].drop_last() =~= seq![]);
    assert(seq![name, up].drop_last() =~= seq![name]);
    assert(seq![seq!['.']].drop_last() =~= seq![]);
    assert(is_dots(up));
    assert(is_dots(seq!['.']));
    assert(at.push(name).drop_last() =~= at);
}

} // verus!

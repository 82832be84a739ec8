//! Files: what kind of media a file is by its name, and where the credentials and the log are kept.

use vstd::prelude::*;
use crate::letters;
use crate::paths;
use crate::paths::{Platform, Syntax};
use crate::strings;

verus! {

/// How a file is sent.
#[derive(Clone, Copy, Debug, PartialEq, Eq, Structural)]
pub enum FileKind {
    Image,
    Video,
    File,
}

/// The extensions, in lower case, of the files that are sent as images.
pub open spec fn is_image_extension(ext: Seq<char>) -> bool {
    ||| ext == "png"@
    ||| ext == "jpg"@
    ||| ext == "jpeg"@
    ||| ext == "gif"@
    ||| ext == "webp"@
    ||| ext == "bmp"@
    ||| ext == "svg"@
}

/// The extensions, in lower case, of the files that are sent as videos.
pub open spec fn is_video_extension(ext: Seq<char>) -> bool {
    ||| ext == "mp4"@
    ||| ext == "mov"@
    ||| ext == "webm"@
    ||| ext == "mkv"@
    ||| ext == "avi"@
}

/// The kind of a file with the extension `ext`, in lower case.
pub open spec fn kind_of_extension(ext: Seq<char>) -> FileKind {
    if is_image_extension(ext) {
        FileKind::Image
    } else if is_video_extension(ext) {
        FileKind::Video
    } else {
        FileKind::File
    }
}

/// The kind of a file, by the extension of its name.
pub open spec fn file_kind(filename: Seq<char>, platform: Platform) -> FileKind {
    kind_of_extension(letters::lower_case(paths::extension(filename, platform)))
}

/// What a kind is called.
pub open spec fn kind_name(kind: FileKind) -> Seq<char> {
    match kind {
        FileKind::Image => "image"@,
        FileKind::Video => "video"@,
        FileKind::File => "file"@,
    }
}

/// The kind of a file with the extension `ext`, given in lower case.
pub fn kind_by_extension(ext: &str) -> (kind: FileKind)
    ensures
        kind == kind_of_extension(ext@),
{
    if strings::same_text(ext, "png") || strings::same_text(ext, "jpg") || strings::same_text(
        ext,
        "jpeg",
    ) || strings::same_text(ext, "gif") || strings::same_text(ext, "webp") || strings::same_text(
        ext,
        "bmp",
    ) || strings::same_text(ext, "svg") {
        FileKind::Image
    } else if strings::same_text(ext, "mp4") || strings::same_text(ext, "mov")
        || strings::same_text(ext, "webm") || strings::same_text(ext, "mkv") || strings::same_text(
        ext,
        "avi",
    ) {
        FileKind::Video
    } else {
        FileKind::File
    }
}

/// The kind of a file, by its name on a platform, see [`file_kind`].
pub fn kind_by_name(filename: &str, platform: Platform) -> (kind: FileKind)
    ensures
        kind == file_kind(filename@, platform),
{
    let ext = letters::lower_case_of(paths::extension_of(filename, platform).as_str());
    kind_by_extension(ext.as_str())
}

/// What kind of media a file is, by its name: `image`, `video` or `file`. The name is read as
/// the platform reads paths, which makes no difference to a portable name.
pub fn categorize_by_extension(filename: &str) -> (category: &'static str)
    ensures
        exists|platform: Platform|
            category@ == kind_name(#[trigger] file_kind(filename@, platform)),
        paths::is_portable(filename@) ==> category@ == kind_name(
            file_kind(filename@, Platform::Unix),
        ),
{
    let platform = paths::current_platform();
    proof {
        if paths::is_portable(filename@) {
            paths::law_portable_paths_have_one_extension(filename@, platform);
        }
    }
    match kind_by_name(filename, platform) {
        FileKind::Image => "image",
        FileKind::Video => "video",
        FileKind::File => "file",
    }
}

/// The directory to start from: the home directory, or the working directory if there is none.
pub open spec fn base_dir(home: Option<Seq<char>>) -> Seq<char> {
    match home {
        Some(home) => home,
        None => "."@,
    }
}

fn base_dir_of(home: Option<String>) -> (dir: String)
    ensures
        dir@ == base_dir(home.deep_view()),
{
    match home {
        Some(home) => home,
        None => ".".to_string(),
    }
}

/// Where the credentials are kept by default, under a home directory.
pub open spec fn cred_path_under(home: Option<Seq<char>>, platform: Platform) -> Seq<char> {
    let folder = paths::path_in(base_dir(home), ".wechatbot"@, platform);
    paths::path_in(folder, "credentials.json"@, platform)
}

/// Calls `dirs_next::home_dir`. The home directory depends on the environment: nothing is
/// promised of it. Characters that are not Unicode come out as U+FFFD.
#[verifier::external_body]
fn home_dir() -> (home: Option<String>) {
    dirs_next::home_dir().map(|home| home.to_string_lossy().to_string())
}

/// Where the credentials are kept under a given home directory, see [`cred_path_under`].
pub fn cred_path_in(home: Option<String>, platform: Platform) -> (path: String)
    ensures
        path@ == cred_path_under(home.deep_view(), platform),
{
    let dir = base_dir_of(home);
    let folder = paths::join_path(dir.as_str(), ".wechatbot", platform);
    paths::join_path(folder.as_str(), "credentials.json", platform)
}

/// Where the credentials are kept by default on a platform, for the user that runs the program.
pub fn cred_path_on(platform: Platform) -> (path: String)
    ensures
        exists|home: Option<Seq<char>>| path@ == #[trigger] cred_path_under(home, platform),
{
    cred_path_in(home_dir(), platform)
}

/// Where the credentials are kept by default, for the user that runs the program, on the
/// platform that it runs on.
pub fn default_cred_path() -> (path: String)
    ensures
        exists|home: Option<Seq<char>>, platform: Platform|
            path@ == #[trigger] cred_path_under(home, platform),
{
    cred_path_on(paths::current_platform())
}

/// What is written to the credentials file: the credentials as JSON, and a line break.
pub fn credentials_file(json: &str) -> (contents: String)
    ensures
        contents@ == json@ + "\n"@,
{
    strings::joined(json, "\n")
}

/// Where a log file on the user's desktop is, under a home directory.
pub open spec fn desktop_log_path(
    home: Option<Seq<char>>,
    filename: Seq<char>,
    platform: Platform,
) -> Seq<char> {
    paths::path_in(paths::path_in(base_dir(home), "Desktop"@, platform), filename, platform)
}

/// Where a log file on the user's desktop is, see [`desktop_log_path`].
pub fn desktop_log_path_in(home: Option<String>, filename: &str, platform: Platform) -> (path:
    String)
    ensures
        path@ == desktop_log_path(home.deep_view(), filename@, platform),
{
    let dir = base_dir_of(home);
    let desktop = paths::join_path(dir.as_str(), "Desktop", platform);
    paths::join_path(desktop.as_str(), filename, platform)
}

/// The default path of the credentials ends in the names of their folder and their file, with
/// the platform's separator between.
pub proof fn law_cred_path_ends_in_its_names(home: Option<Seq<char>>, platform: Platform)
    ensures
        exists|start: Seq<char>|
            cred_path_under(home, platform) == #[trigger] (start + ".wechatbot"@).push(
                paths::separator(platform),
            ) + "credentials.json"@,
{
    reveal_strlit(".wechatbot");
    reveal_strlit("credentials.json");
    let folder = ".wechatbot"@;
    let file = "credentials.json"@;
    assert(paths::is_plain_name(folder));
    assert(paths::is_plain_name(file));
    let above = paths::lemma_name_is_joined(base_dir(home), folder, platform);
    let start = paths::lemma_name_is_kept(above, folder, file, platform);
    assert(cred_path_under(home, platform) == (start + folder).push(paths::separator(platform))
        + file);
}

proof fn lemma_same_component_end(a: Seq<char>, b: Seq<char>, from: int, syntax: Syntax)
    requires
        letters::same_but_case(a, b),
    ensures
        paths::component_end(a, from, syntax) == paths::component_end(b, from, syntax),
    decreases a.len() - from,
{
    letters::lemma_same_len(a, b);
    if 0 <= from < a.len() {
        letters::lemma_same_char(a, b, from);
        lemma_same_component_end(a, b, from + 1, syntax);
    }
}

proof fn lemma_same_share_end(a: Seq<char>, b: Seq<char>, from: int, syntax: Syntax)
    requires
        letters::same_but_case(a, b),
    ensures
        paths::share_end(a, from, syntax) == paths::share_end(b, from, syntax),
{
    lemma_same_component_end(a, b, from, syntax);
    lemma_same_component_end(a, b, paths::component_end(a, from, syntax) + 1, syntax);
}

/// The case of letters has no influence on the syntax of a path, nor on its prefix but for the
/// `UNC` of a verbatim share.
proof fn lemma_same_prefix(a: Seq<char>, b: Seq<char>, platform: Platform)
    requires
        letters::same_but_case(a, b),
    ensures
        paths::syntax_of(a, platform) == paths::syntax_of(b, platform),
        paths::syntax_of(a, platform) != Syntax::Verbatim || paths::is_verbatim_share(a)
            == paths::is_verbatim_share(b) ==> {
            &&& paths::prefix_len(a, platform) == paths::prefix_len(b, platform)
            &&& paths::body_start(a, platform) == paths::body_start(b, platform)
        },
{
    letters::lemma_same_len(a, b);
    assert forall|i: int| 0 <= i < a.len() implies {
        &&& paths::is_letter(#[trigger] a[i]) == paths::is_letter(b[i])
        &&& !paths::is_letter(a[i]) ==> a[i] == b[i]
    } by {
        letters::lemma_same_char(a, b, i);
    }
    lemma_same_component_end(a, b, 2, Syntax::Windows);
    lemma_same_component_end(a, b, 4, Syntax::Windows);
    lemma_same_component_end(a, b, 4, Syntax::Verbatim);
    lemma_same_share_end(a, b, 2, Syntax::Windows);
    lemma_same_share_end(a, b, 8, Syntax::Verbatim);
    paths::lemma_prefix_is_inside(a, platform);
    paths::lemma_prefix_is_inside(b, platform);
}

proof fn lemma_same_last_name(a: Seq<char>, b: Seq<char>, syntax: Syntax)
    requires
        letters::same_but_case(a, b),
    ensures
        match (paths::last_name(a, syntax), paths::last_name(b, syntax)) {
            (Some(name), Some(other)) => letters::same_but_case(name, other),
            (None, None) => true,
            _ => false,
        },
    decreases a.len(),
{
    letters::lemma_same_len(a, b);
    if a.len() > 0 {
        letters::lemma_same_char(a, b, a.len() - 1);
        if paths::is_separator(a.last(), syntax) {
            letters::lemma_same_part(a, b, 0, a.len() - 1);
            lemma_same_last_name(a.drop_last(), b.drop_last(), syntax);
        } else {
            if a.len() >= 2 {
                letters::lemma_same_char(a, b, a.len() - 2);
            }
            if syntax != Syntax::Verbatim && a.len() >= 2 && a.last() == '.'
                && paths::is_separator(a[a.len() - 2], syntax) {
                letters::lemma_same_part(a, b, 0, a.len() - 2);
                lemma_same_last_name(a.take(a.len() - 2), b.take(a.len() - 2), syntax);
            } else {
                let (x, y) = paths::separators(syntax);
                letters::lemma_same_last_index(a, b, x, y);
                paths::lemma_nothing_behind_last_index(a.drop_last(), x, y);
                let start = paths::last_index(a, x, y) + 1;
                letters::lemma_same_part(a, b, start, a.len() as int);
                let name = a.skip(start);
                let other = b.skip(start);
                letters::lemma_same_char(name, other, 0);
                if name.len() > 1 {
                    letters::lemma_same_char(name, other, 1);
                }
            }
        }
    }
}

/// Whether a path names a verbatim share and nothing on it.
pub open spec fn is_whole_verbatim_share(path: Seq<char>, platform: Platform) -> bool {
    &&& platform == Platform::Windows
    &&& paths::is_verbatim_share(path)
    &&& forall|i: int|
        paths::prefix_len(path, platform) <= i < path.len() ==> #[trigger] path[i] == '\\'
}

/// What lies on a verbatim share has the same name where the `UNC` in front of it is not
/// recognised.
proof fn lemma_name_on_share(a: Seq<char>, b: Seq<char>)
    requires
        letters::same_but_case(a, b),
        paths::is_verbatim_share(a),
        !paths::is_verbatim_share(b),
        !is_whole_verbatim_share(a, Platform::Windows),
    ensures
        paths::file_name(b, Platform::Windows) == paths::last_name(
            b.skip(paths::body_start(a, Platform::Windows)),
            Syntax::Verbatim,
        ),
{
    let windows = Platform::Windows;
    let verbatim = Syntax::Verbatim;
    letters::lemma_same_len(a, b);
    assert forall|i: int| 0 <= i < a.len() implies {
        &&& paths::is_letter(#[trigger] a[i]) == paths::is_letter(b[i])
        &&& !paths::is_letter(a[i]) ==> a[i] == b[i]
    } by {
        letters::lemma_same_char(a, b, i);
    }
    paths::lemma_prefix_is_inside(a, windows);
    paths::lemma_prefix_is_inside(b, windows);
    let prefix = paths::prefix_len(a, windows);
    let start = paths::body_start(b, windows);
    let named = choose|i: int| prefix <= i < a.len() && #[trigger] a[i] != '\\';
    assert(a[prefix] == '\\' && b[prefix] == '\\');
    assert(b[named] != '\\');
    // The prefix of `b` ends in front of the server or behind it.
    assert(paths::component_end(b, 4, verbatim) == if b[7] == '\\' {
        7
    } else {
        paths::component_end(b, 8, verbatim)
    }) by {
        reveal_with_fuel(paths::component_end, 5);
    }
    lemma_same_component_end(a, b, 8, verbatim);
    paths::lemma_component_end(a, 8, verbatim);
    paths::lemma_component_end(a, paths::component_end(a, 8, verbatim) + 1, verbatim);
    assert(start <= prefix + 1);
    let body = b.skip(start);
    if start <= prefix {
        assert(body[prefix - start] == '\\');
        assert(body[named - start] != '\\');
        paths::lemma_last_name_behind(body, prefix - start, named - start);
        assert(body.skip(prefix - start + 1) =~= b.skip(prefix + 1));
    }
}

proof fn lemma_same_file_name(a: Seq<char>, b: Seq<char>, platform: Platform)
    requires
        letters::same_but_case(a, b),
        is_whole_verbatim_share(a, platform) == is_whole_verbatim_share(b, platform),
    ensures
        match (paths::file_name(a, platform), paths::file_name(b, platform)) {
            (Some(name), Some(other)) => letters::same_but_case(name, other),
            (None, None) => true,
            _ => false,
        },
{
    letters::lemma_same_len(a, b);
    lemma_same_prefix(a, b, platform);
    paths::lemma_prefix_is_inside(a, platform);
    paths::lemma_prefix_is_inside(b, platform);
    let syntax = paths::syntax_of(a, platform);
    let start = if paths::is_verbatim_share(b) && !paths::is_verbatim_share(a) {
        paths::body_start(b, platform)
    } else {
        paths::body_start(a, platform)
    };
    if syntax == Syntax::Verbatim {
        if paths::is_verbatim_share(a) && !paths::is_verbatim_share(b) {
            lemma_name_on_share(a, b);
        } else if paths::is_verbatim_share(b) && !paths::is_verbatim_share(a) {
            lemma_name_on_share(b, a);
        }
    }
    letters::lemma_same_part(a, b, start, a.len() as int);
    lemma_same_last_name(a.skip(start), b.skip(start), syntax);
}

/// Whether letters are large or small makes no difference to what kind of media a file is: two
/// names that differ only in the case of ASCII letters are of the same kind. Only of the name of
/// a whole verbatim share it matters that its `UNC` is in capitals: both names are one, or none
/// is.
pub proof fn law_case_does_not_matter(a: Seq<char>, b: Seq<char>, platform: Platform)
    requires
        letters::same_but_case(a, b),
        is_whole_verbatim_share(a, platform) == is_whole_verbatim_share(b, platform),
    ensures
        file_kind(a, platform) == file_kind(b, platform),
{
    lemma_same_file_name(a, b, platform);
    if let (Some(name), Some(other)) = (
        paths::file_name(a, platform),
        paths::file_name(b, platform),
    ) {
        letters::lemma_same_len(name, other);
        letters::lemma_same_last_index(name, other, '.', '.');
        paths::lemma_nothing_behind_last_index(name, '.', '.');
        letters::lemma_same_part(
            name,
            other,
            paths::last_index(name, '.', '.') + 1,
            name.len() as int,
        );
    }
    assert(letters::same_but_case(
        paths::extension(a, platform),
        paths::extension(b, platform),
    ));
}

/// A file is of the same kind whether its name is given as it is, in capitals or in small
/// letters, unless it names a whole verbatim share in capitals.
pub proof fn law_capitals_and_small_letters(filename: Seq<char>, platform: Platform)
    requires
        !is_whole_verbatim_share(letters::ascii_uppered(filename), platform),
    ensures
        file_kind(letters::ascii_uppered(filename), platform) == file_kind(filename, platform),
        file_kind(letters::ascii_lowered(filename), platform) == file_kind(filename, platform),
{
    let upper = letters::ascii_uppered(filename);
    let lower = letters::ascii_lowered(filename);
    assert(letters::ascii_lowered(upper) =~= lower);
    assert(letters::ascii_lowered(lower) =~= lower);
    assert(!paths::is_verbatim_share(lower));
    if is_whole_verbatim_share(filename, platform) {
        lemma_same_prefix(filename, upper, platform);
        assert(is_whole_verbatim_share(upper, platform)) by {
            assert(upper[4] == 'U' && upper[5] == 'N' && upper[6] == 'C');
            assert forall|i: int|
                paths::prefix_len(upper, platform) <= i < upper.len() implies #[trigger] upper[i]
                == '\\' by {
                paths::lemma_prefix_is_inside(filename, platform);
                assert(filename[i] == '\\');
            }
        }
    }
    law_case_does_not_matter(upper, filename, platform);
    law_case_does_not_matter(lower, filename, platform);
}

/// A file is an image or a video if its extension, in lower case, is one of these, and a plain
/// file otherwise.
pub proof fn law_kind_is_that_of_the_extension(
    stem: Seq<char>,
    ext: Seq<char>,
    platform: Platform,
)
    requires
        stem.len() > 0,
        paths::is_name_on(stem.push('.') + ext, platform),
        forall|i: int| 0 <= i < ext.len() ==> #[trigger] ext[i] != '.',
    ensures
        ({
            let kind = file_kind(stem.push('.') + ext, platform);
            let lower = letters::lower_case(ext);
            &&& kind is Image <==> lower == "png"@ || lower == "jpg"@ || lower == "jpeg"@ || lower
                == "gif"@ || lower == "webp"@ || lower == "bmp"@ || lower == "svg"@
            &&& kind is Video <==> lower == "mp4"@ || lower == "mov"@ || lower == "webm"@ || lower
                == "mkv"@ || lower == "avi"@
        }),
{
    paths::law_extension_is_behind_the_last_dot(stem, ext, platform);
    lemma_extensions_differ(letters::lower_case(ext));
}

proof fn lemma_extensions_differ(ext: Seq<char>)
    ensures
        !(is_image_extension(ext) && is_video_extension(ext)),
        ext.len() == 0 ==> !is_image_extension(ext) && !is_video_extension(ext),
{
    reveal_strlit("png");
    reveal_strlit("jpg");
    reveal_strlit("jpeg");
    reveal_strlit("gif");
    reveal_strlit("webp");
    reveal_strlit("bmp");
    reveal_strlit("svg");
    reveal_strlit("mp4");
    reveal_strlit("mov");
    reveal_strlit("webm");
    reveal_strlit("mkv");
    reveal_strlit("avi");
    assert("png"@[0] == 'p' && "jpg"@[0] == 'j' && "gif"@[0] == 'g' && "bmp"@[0] == 'b'
        && "svg"@[0] == 's');
    assert("mp4"@[0] == 'm' && "mov"@[0] == 'm' && "mkv"@[0] == 'm' && "avi"@[0] == 'a');
    assert("jpeg"@[0] == 'j' && "webp"@[3] == 'p' && "webm"@[3] == 'm');
    assert("png"@.len() == 3 && "jpg"@.len() == 3 && "gif"@.len() == 3 && "bmp"@.len() == 3
        && "svg"@.len() == 3 && "mp4"@.len() == 3 && "mov"@.len() == 3 && "mkv"@.len() == 3
        && "avi"@.len() == 3);
    assert("jpeg"@.len() == 4 && "webp"@.len() == 4 && "webm"@.len() == 4);
}

/// A file without an extension is a plain file, and so is one whose name begins with its only
/// dot.
pub proof fn law_no_extension_means_a_plain_file(name: Seq<char>, platform: Platform)
    requires
        paths::is_name_on(name, platform),
        forall|i: int| 0 < i < name.len() ==> #[trigger] name[i] != '.',
    ensures
        file_kind(name, platform) is File,
{
    paths::law_names_without_extension(name, platform);
    let ext = paths::extension(name, platform);
    assert(letters::ascii_lowered(ext) =~= seq![]);
    assert(letters::lower_case(ext) =~= seq![]);
    lemma_extensions_differ(letters::lower_case(ext));
}

/// A file is of the same kind in whatever directory it lies.
pub proof fn law_directory_does_not_matter(
    dir: Seq<char>,
    between: char,
    name: Seq<char>,
    platform: Platform,
)
    requires
        paths::is_name_on(name, platform),
        paths::is_separator(between, paths::syntax_of(dir.push(between) + name, platform)),
        paths::prefix_len(dir.push(between) + name, platform) <= dir.len(),
    ensures
        file_kind(dir.push(between) + name, platform) == file_kind(name, platform),
{
    paths::law_directory_is_no_part_of_the_name(dir, between, name, platform);
}

/// What the kinds are called.
pub proof fn law_names_of_kinds(kind: FileKind)
    ensures
        kind is Image ==> kind_name(kind) == "image"@,
        kind is Video ==> kind_name(kind) == "video"@,
        kind is File ==> kind_name(kind) == "file"@,
{
}

/// The credentials are kept in `.wechatbot/credentials.json` under the home directory, or under
/// the working directory if there is none.
pub proof fn law_cred_path_is_under_home(home: Option<Seq<char>>, platform: Platform)
    requires
        platform is Windows && home is Some ==> home->0.len() > 3 && !paths::is_verbatim(home->0),
    ensures
        ({
            let path = cred_path_under(home, platform);
            let dir = home->0;
            let slash = dir.len() == 0 || dir.last() == '/';
            &&& platform is Unix && home is None ==> path == "./.wechatbot/credentials.json"@
            &&& platform is Windows && home is None ==> path
                == ".\\.wechatbot\\credentials.json"@
            &&& platform is Unix && home is Some && slash ==> path == dir
                + ".wechatbot/credentials.json"@
            &&& platform is Unix && home is Some && !slash ==> path == dir
                + "/.wechatbot/credentials.json"@
            &&& platform is Windows && home is Some && (slash || dir.last() == '\\') ==> path
                == dir + ".wechatbot\\credentials.json"@
            &&& platform is Windows && home is Some && !slash && dir.last() != '\\' ==> path
                == dir + "\\.wechatbot\\credentials.json"@
        }),
{
    reveal_strlit(".");
    reveal_strlit(".wechatbot");
    reveal_strlit("credentials.json");
    reveal_strlit("./.wechatbot/credentials.json");
    reveal_strlit(".\\.wechatbot\\credentials.json");
    reveal_strlit(".wechatbot/credentials.json");
    reveal_strlit("/.wechatbot/credentials.json");
    reveal_strlit(".wechatbot\\credentials.json");
    reveal_strlit("\\.wechatbot\\credentials.json");
    let dir = base_dir(home);
    let folder = ".wechatbot"@;
    let file = "credentials.json"@;
    assert(paths::is_name_on(folder, platform));
    assert(paths::is_name_on(file, platform));
    paths::law_names_are_joined(dir, folder, platform);
    let inner = paths::path_in(dir, folder, platform);
    assert(inner.last() == 't' && inner.len() > 2);
    if platform is Windows {
        assert(!paths::is_verbatim(inner)) by {
            if dir.len() > 3 {
                assert(inner[0] == dir[0] && inner[1] == dir[1] && inner[2] == dir[2] && inner[3]
                    == dir[3]);
            } else {
                assert(inner[0] == '.');
            }
        }
    }
    paths::law_names_are_joined(inner, file, platform);
    let path = cred_path_under(home, platform);
    if home is None {
        assert(platform is Unix ==> path =~= "./.wechatbot/credentials.json"@);
        assert(platform is Windows ==> path =~= ".\\.wechatbot\\credentials.json"@);
    } else {
        assert(platform is Unix && (dir.len() == 0 || dir.last() == '/') ==> path =~= dir
            + ".wechatbot/credentials.json"@);
        assert(platform is Unix && !(dir.len() == 0 || dir.last() == '/') ==> path =~= dir
            + "/.wechatbot/credentials.json"@);
        assert(platform is Windows && (dir.last() == '/' || dir.last() == '\\') ==> path =~= dir
            + ".wechatbot\\credentials.json"@);
        assert(platform is Windows && !(dir.last() == '/' || dir.last() == '\\') ==> path =~= dir
            + "\\.wechatbot\\credentials.json"@);
    }
}

/// The log lies on the desktop of the home directory.
pub proof fn law_log_lies_on_the_desktop(home: Seq<char>, filename: Seq<char>)
    requires
        home.len() > 0,
        home.last() != '/',
        paths::is_name_on(filename, Platform::Unix),
    ensures
        desktop_log_path(Some(home), filename, Platform::Unix) == home + "/Desktop/"@ + filename,
{
    reveal_strlit("Desktop");
    reveal_strlit("/Desktop/");
    let desktop = "Desktop"@;
    assert(paths::is_name_on(desktop, Platform::Unix));
    paths::law_names_are_joined(home, desktop, Platform::Unix);
    let folder = paths::path_in(home, desktop, Platform::Unix);
    assert(folder.last() == 'p');
    paths::law_names_are_joined(folder, filename, Platform::Unix);
    assert(desktop_log_path(Some(home), filename, Platform::Unix) =~= home + "/Desktop/"@
        + filename);
}

} // verus!

use std::path::Path;
use wechatbot::files::{
    categorize_by_extension, cred_path_in, cred_path_on, credentials_file, default_cred_path,
    desktop_log_path_in, kind_by_extension, kind_by_name, FileKind,
};
use wechatbot::letters::{lower_case_of, to_ascii_lower};
use wechatbot::paths::{current_platform, extension_of, join_path, platform_of, Platform};
use wechatbot::strings::{is_whitespace, trim};

#[test]
fn default_cred_path_not_empty() {
    let path = default_cred_path();
    assert!(!path.is_empty());
    assert!(path.contains(".wechatbot"));
    assert!(path.contains("credentials.json"));
}

#[test]
fn default_cred_path_is_in_the_home_directory() {
    let expected = dirs_next::home_dir()
        .unwrap_or_else(|| ".".into())
        .join(".wechatbot")
        .join("credentials.json");
    assert_eq!(Path::new(&default_cred_path()), expected);
}

#[test]
fn the_platform_is_that_of_the_separator() {
    assert_eq!(platform_of("/"), Platform::Unix);
    assert_eq!(platform_of("\\"), Platform::Windows);
    assert_eq!(current_platform(), platform_of(std::path::MAIN_SEPARATOR_STR));
    assert_eq!(default_cred_path(), cred_path_on(current_platform()));
}

#[test]
fn cred_path_under_given_homes() {
    let unix = |home: &str| cred_path_in(Some(home.to_string()), Platform::Unix);
    assert_eq!(unix("/home/alice"), "/home/alice/.wechatbot/credentials.json");
    assert_eq!(unix("/home/alice/"), "/home/alice/.wechatbot/credentials.json");
    assert_eq!(unix(""), ".wechatbot/credentials.json");
    assert_eq!(cred_path_in(None, Platform::Unix), "./.wechatbot/credentials.json");
    let windows = |home: &str| cred_path_in(Some(home.to_string()), Platform::Windows);
    assert_eq!(windows("C:\\Users\\A"), "C:\\Users\\A\\.wechatbot\\credentials.json");
    assert_eq!(windows("C:\\Users\\A\\"), "C:\\Users\\A\\.wechatbot\\credentials.json");
    assert_eq!(windows("C:/"), "C:/.wechatbot\\credentials.json");
    assert_eq!(windows("C:"), "C:.wechatbot\\credentials.json");
    assert_eq!(windows("\\\\?\\C:\\A\\"), "\\\\?\\C:\\A\\.wechatbot\\credentials.json");
    assert_eq!(
        windows("\\\\?\\UNC\\server"),
        "\\\\?\\UNC\\server\\.wechatbot\\credentials.json"
    );
    assert_eq!(windows("\\\\?"), "\\\\?\\.wechatbot\\credentials.json");
    assert_eq!(cred_path_in(None, Platform::Windows), ".\\.wechatbot\\credentials.json");
}

#[test]
fn desktop_log_paths() {
    let home = || Some("/home/alice".to_string());
    assert_eq!(
        desktop_log_path_in(home(), "rust.log", Platform::Unix),
        "/home/alice/Desktop/rust.log"
    );
    assert_eq!(desktop_log_path_in(None, "rust.log", Platform::Unix), "./Desktop/rust.log");
    assert_eq!(
        desktop_log_path_in(Some("C:\\Users\\A".to_string()), "rust.log", Platform::Windows),
        "C:\\Users\\A\\Desktop\\rust.log"
    );
    assert_eq!(desktop_log_path_in(home(), "/tmp/x.log", Platform::Unix), "/tmp/x.log");
}

#[test]
fn joining_is_that_of_paths() {
    let parts = ["", ".", "/", "a", "a/", "/a", "a/b", "//", "C:", "C:\\", "a\\", "\\a", "日本"];
    for dir in parts {
        for name in parts {
            let expected = Path::new(dir).join(name);
            assert_eq!(join_path(dir, name, Platform::Unix), expected.to_str().unwrap());
        }
    }
}

#[test]
fn joining_on_windows() {
    let join = |dir: &str, name: &str| join_path(dir, name, Platform::Windows);
    assert_eq!(join("C:\\a", "b"), "C:\\a\\b");
    assert_eq!(join("C:\\a", "\\b"), "C:\\b");
    assert_eq!(join("\\\\server\\share\\a", "\\b"), "\\\\server\\share\\b");
    assert_eq!(join("C:\\a", "D:b"), "D:b");
    assert_eq!(join("C:\\a", "D:\\b"), "D:\\b");
    assert_eq!(join("\\\\server\\share", "b"), "\\\\server\\share\\b");
    assert_eq!(join("\\\\.\\foo\\bar", "\\baz"), "\\\\.\\foo\\baz");
}

#[test]
fn joining_below_verbatim_prefixes() {
    let join = |dir: &str, name: &str| join_path(dir, name, Platform::Windows);
    assert_eq!(join(r"\\?\C:\bar", "../foo"), r"\\?\C:\foo");
    assert_eq!(join(r"\\?\C:\bar", "../../foo"), r"\\?\C:\foo");
    assert_eq!(join(r"\\?\C:\", "../foo"), r"\\?\C:\foo");
    assert_eq!(join(r"\\?\C:", "D:\\foo/./"), "D:\\foo/./");
    assert_eq!(join(r"\\?\C:", r"\\?\D:\foo\.\"), r"\\?\D:\foo\.\");
    assert_eq!(join(r"\\?\A:\x\y", "/foo"), r"\\?\A:\foo");
    assert_eq!(join(r"\\?\A:\x\y", "/"), r"\\?\A:\");
    assert_eq!(join(r"\\?\A:\x", ".."), r"\\?\A:\");
    assert_eq!(join(r"\\?\A:", ".."), r"\\?\A:");
    assert_eq!(join(r"\\?\A:", r"..\foo\."), r"\\?\A:\foo");
    assert_eq!(join(r"\\?\A:\x\y", r".\foo\."), r"\\?\A:\x\y\foo");
    assert_eq!(join(r"\\?\A:\x\y", ""), r"\\?\A:\x\y\");
    assert_eq!(join(r"\\?\A:\x\\.\..", "a/b"), r"\\?\A:\x\.\..\a\b");
    assert_eq!(join(r"\\?\A:\x\..", "../a"), r"\\?\A:\x\..\a");
    assert_eq!(join(r"\\?\C:/x", "y"), r"\\?\C:\x\y");
    assert_eq!(join(r"\\?\UNC\server\share", "b"), r"\\?\UNC\server\share\b");
    assert_eq!(join(r"\\?\pictures\a", r"\b"), r"\\?\pictures\b");
}

#[test]
fn categorize_image_extensions() {
    assert_eq!(categorize_by_extension("photo.png"), "image");
    assert_eq!(categorize_by_extension("photo.JPG"), "image");
    assert_eq!(categorize_by_extension("anim.gif"), "image");
    assert_eq!(categorize_by_extension("pic.webp"), "image");
}

#[test]
fn categorize_video_extensions() {
    assert_eq!(categorize_by_extension("clip.mp4"), "video");
    assert_eq!(categorize_by_extension("clip.MOV"), "video");
    assert_eq!(categorize_by_extension("movie.webm"), "video");
}

#[test]
fn categorize_file_extensions() {
    assert_eq!(categorize_by_extension("report.pdf"), "file");
    assert_eq!(categorize_by_extension("data.csv"), "file");
    assert_eq!(categorize_by_extension("noext"), "file");
}

#[test]
fn every_known_extension() {
    for ext in ["png", "jpg", "jpeg", "gif", "webp", "bmp", "svg"] {
        assert_eq!(kind_by_extension(ext), FileKind::Image);
        assert_eq!(kind_by_name(&format!("x.{}", ext.to_uppercase()), Platform::Unix), FileKind::Image);
    }
    for ext in ["mp4", "mov", "webm", "mkv", "avi"] {
        assert_eq!(kind_by_extension(ext), FileKind::Video);
        assert_eq!(kind_by_name(&format!("x.{}", ext.to_uppercase()), Platform::Unix), FileKind::Video);
    }
    for ext in ["", "PNG", "pn", "pngx", "txt"] {
        assert_eq!(kind_by_extension(ext), FileKind::File);
    }
}

#[test]
fn lower_case_goes_beyond_ascii() {
    // The Kelvin sign is a capital of `k`.
    assert_eq!(categorize_by_extension("clip.m\u{212a}v"), "video");
}

#[test]
fn lower_case_is_that_of_unicode() {
    assert_eq!(lower_case_of("ÀB"), "àb");
    for text in ["", "PNG", "ΑΣ", "ΑΣA", "ΑΣa", "AΣ", "aΣ", "AΣ.", "aΣ.B", "ΣA", "İI", "ẞS"] {
        assert_eq!(lower_case_of(text), text.to_lowercase());
    }
    for code in 0..=0x10ffffu32 {
        if let Some(c) = char::from_u32(code) {
            let text = format!("A{c}Z{c}Σ{c}Q");
            assert_eq!(lower_case_of(&text), text.to_lowercase(), "{:?}", c);
        }
    }
}

#[test]
fn case_does_not_matter() {
    let names = ["photo.Png", "CLIP.mOv", "Report.pdf", "noExt", "ü.JpEg", "x.m\u{212a}V", "c:.Png"];
    for name in names {
        for platform in [Platform::Unix, Platform::Windows] {
            let kind = kind_by_name(name, platform);
            assert_eq!(kind_by_name(&name.to_ascii_uppercase(), platform), kind);
            assert_eq!(kind_by_name(&name.to_ascii_lowercase(), platform), kind);
        }
    }
    assert_eq!(categorize_by_extension("PHOTO.PNG"), categorize_by_extension("photo.png"));
}

#[test]
fn extensions_are_those_of_paths() {
    let names = [
        "", ".", "..", "/", "//", "a", "a.b", "a.b.c", ".a", ".a.b", "a.", "a..", "..a", "...",
        "..a.b", "d/a.png", "d.e/a", "d.e/", "d.e//", "d.e/.", "d.e/./", "d.e/..", "./", "./.",
        "/.", "/..", "d/.hidden", "d/.hidden.png", "a.png/b", "a b.c d", "日本.語", "x.日本",
        "/a.png/././", "a/../b.png/", "a.png/..", "dir/.", ".png", "x..png",
    ];
    for name in names {
        let expected = Path::new(name).extension().and_then(|e| e.to_str()).unwrap_or("");
        assert_eq!(extension_of(name, Platform::Unix), expected, "extension of {:?}", name);
        // None of these names has a backslash, a colon or a share.
        assert_eq!(extension_of(name, Platform::Windows), expected, "extension of {:?}", name);
    }
}

#[test]
fn extensions_on_windows() {
    let ext = |path: &str| extension_of(path, Platform::Windows);
    assert_eq!(ext("dir\\.png"), "");
    assert_eq!(ext("photo.png\\"), "png");
    assert_eq!(ext("d.e\\a/b.png"), "png");
    assert_eq!(ext("d.e\\a"), "");
    assert_eq!(ext("a.png\\."), "png");
    assert_eq!(ext("a.png\\.."), "");
    assert_eq!(ext("C:.png"), "");
    assert_eq!(ext("C:a.png"), "png");
    assert_eq!(ext("1:.png"), "png");
    assert_eq!(ext("\\\\server\\share.png"), "");
    assert_eq!(ext("\\\\server\\share\\a.png"), "png");
    assert_eq!(ext("\\\\server.png"), "png");
    assert_eq!(ext(r"\\.\COM42.png"), "");
    assert_eq!(ext(r"//./COM42/x.png"), "png");
    assert_eq!(ext(r"\\.\\x.png"), "png");
    let on = |path: &str, platform| kind_by_name(path, platform);
    assert_eq!(on("dir\\.png", Platform::Windows), FileKind::File);
    assert_eq!(on("dir\\.png", Platform::Unix), FileKind::Image);
    assert_eq!(on("photo.png\\", Platform::Windows), FileKind::Image);
    assert_eq!(on("photo.png\\", Platform::Unix), FileKind::File);
}

#[test]
fn extensions_behind_verbatim_prefixes() {
    let ext = |path: &str| extension_of(path, Platform::Windows);
    assert_eq!(ext(r"\\?\UNC\server\share.png"), "");
    assert_eq!(ext(r"\\?\UNC\server\share.png\"), "");
    assert_eq!(ext(r"\\?\UNC\server.png"), "");
    assert_eq!(ext(r"\\?\UNC\server\share\x.png"), "png");
    assert_eq!(ext(r"\\?\UNC/server\share.png"), "");
    assert_eq!(ext(r"\\?\unc\server\share.png"), "png");
    assert_eq!(ext(r"\\?\C:\x.png"), "png");
    assert_eq!(ext(r"\\?\C:\x.png\"), "png");
    assert_eq!(ext(r"\\?\C:\x.png\."), "");
    assert_eq!(ext(r"\\?\C:\x.png\.."), "");
    assert_eq!(ext(r"\\?\C:\a/.png"), "png");
    assert_eq!(ext(r"\\?\C:/.png"), "");
    assert_eq!(ext(r"\\?\C:x.png"), "");
    assert_eq!(ext(r"\\?\x.png"), "");
    assert_eq!(ext(r"\\?\pictures\x.png"), "png");
    assert_eq!(ext(r"//?/x.png"), "");
    assert_eq!(ext(r"\\?/C:/x.png\."), "png");
    let kind = |path: &str| kind_by_name(path, Platform::Windows);
    assert_eq!(kind(r"\\?\UNC\server\share.png"), FileKind::File);
    // On a share the case of `UNC` makes no difference.
    assert_eq!(kind(r"\\?\UNC\server\share\x.png"), FileKind::Image);
    assert_eq!(kind(r"\\?\unc\server\share\x.PNG"), FileKind::Image);
}

#[test]
fn ascii_letters_become_small() {
    let text: String = (0..=0x2ffu32).filter_map(char::from_u32).collect();
    assert_eq!(to_ascii_lower(&text), text.to_ascii_lowercase());
    for text in ["", "ABCXYZ", "abcxyz", "@[`{", "aÀBéC日D"] {
        assert_eq!(to_ascii_lower(text), text.to_ascii_lowercase());
    }
}

#[test]
fn white_space_is_that_of_unicode() {
    for code in 0..=0x10ffffu32 {
        if let Some(c) = char::from_u32(code) {
            assert_eq!(is_whitespace(c), c.is_whitespace(), "{:?}", c);
        }
    }
}

#[test]
fn trimming() {
    for text in ["", " ", "a", " a", "a ", "\t a b\r\n", "\u{3000}x\u{85}", " \u{a0}\n ", "日 本 "] {
        assert_eq!(trim(text), text.trim());
    }
}

#[test]
fn credentials_file_ends_in_a_line_break() {
    assert_eq!(credentials_file("{}"), "{}\n");
}

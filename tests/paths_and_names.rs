use hack_installer::emulator::emulator_launch;
use hack_installer::paths::{expand_tilde, file_extension, file_stem, join_path, last_segment_of};
use hack_installer::source::{derive_name, is_remote, resolve_hack};
use hack_installer::validate::{
    validate_directory_path, validate_file_path, validate_name, validate_url, PathKind,
};

#[test]
fn tilde_alone_is_home() {
    assert_eq!(expand_tilde("~", Some("/home/ann")), "/home/ann");
}

#[test]
fn tilde_path_is_under_home() {
    assert_eq!(expand_tilde("~/roms/a.sfc", Some("/home/ann")), "/home/ann/roms/a.sfc");
    assert_eq!(expand_tilde("~//roms", Some("/home/ann/")), "/home/ann/roms");
    assert_eq!(expand_tilde("~\\roms", Some("/home/ann")), "/home/ann/roms");
    assert_eq!(expand_tilde("~/", Some("/home/ann")), "/home/ann");
}

#[test]
fn tilde_without_home_is_kept() {
    assert_eq!(expand_tilde("~/roms", None), "~/roms");
    assert_eq!(expand_tilde("~", None), "~");
}

#[test]
fn other_paths_are_kept() {
    assert_eq!(expand_tilde("/srv/roms", Some("/home/ann")), "/srv/roms");
    assert_eq!(expand_tilde("~bob/roms", Some("/home/ann")), "~bob/roms");
    assert_eq!(expand_tilde("", Some("/home/ann")), "");
}

#[test]
fn stems_and_extensions() {
    assert_eq!(file_stem("super-hack.zip"), Some("super-hack".to_string()));
    assert_eq!(file_stem("a.tar.gz"), Some("a.tar".to_string()));
    assert_eq!(file_stem(".hidden"), Some(".hidden".to_string()));
    assert_eq!(file_stem("plain"), Some("plain".to_string()));
    assert_eq!(file_stem(""), None);
    assert_eq!(file_stem(".."), None);
    assert_eq!(file_extension("patch1.bps"), Some("bps".to_string()));
    assert_eq!(file_extension(".bps"), None);
    assert_eq!(file_extension("noext"), None);
    assert_eq!(last_segment_of("a/b/c.zip"), "c.zip");
    assert_eq!(join_path("/games", "x"), "/games/x");
    assert_eq!(join_path("/games/", "x"), "/games/x");
}

#[test]
fn name_with_reserved_character_is_refused() {
    for c in ['"', '*', '/', ':', '<', '>', '?', '\\', '|'] {
        let name = format!("my{}hack", c);
        assert_eq!(
            validate_name(&name),
            Err(format!("Name cannot contain character \"{}\"", c))
        );
    }
}

#[test]
fn first_reserved_character_is_named() {
    assert_eq!(validate_name("a|b:c"), Err("Name cannot contain character \"|\"".to_string()));
}

#[test]
fn empty_name_is_refused() {
    assert_eq!(validate_name(""), Err("No name has been specified".to_string()));
    assert_eq!(validate_name("Super Hack 2"), Ok(()));
}

#[test]
fn url_must_not_be_empty() {
    assert_eq!(validate_url(""), Err("No URL has been specified".to_string()));
    assert_eq!(validate_url("not even a url"), Ok(()));
}

#[test]
fn directory_checks() {
    let home = Some("/home/ann");
    assert_eq!(
        validate_directory_path("", home, PathKind::Missing),
        Err("No directory has been specified".to_string())
    );
    assert_eq!(
        validate_directory_path("~/x", home, PathKind::Missing),
        Err("Directory doesn't exist".to_string())
    );
    assert_eq!(
        validate_directory_path("~/x", home, PathKind::Unreadable),
        Err("This is not a valid path".to_string())
    );
    assert_eq!(
        validate_directory_path("~/x", home, PathKind::File),
        Err("This is not a directory".to_string())
    );
    assert_eq!(validate_directory_path("~/x", home, PathKind::Directory), Ok(()));
}

#[test]
fn file_checks() {
    assert_eq!(
        validate_file_path("", None, PathKind::Missing),
        Err("No file has been specified".to_string())
    );
    assert_eq!(
        validate_file_path("/a", None, PathKind::Missing),
        Err("File doesn't exist".to_string())
    );
    assert_eq!(
        validate_file_path("/a", None, PathKind::Directory),
        Err("This is not a file".to_string())
    );
    assert_eq!(validate_file_path("/a", None, PathKind::File), Ok(()));
}

#[test]
fn remote_source_name_drops_query() {
    let r = resolve_hack(
        "/games",
        "",
        "https://example.com/hacks/super-hack.zip?token=abc",
        Some("/home/ann"),
    );
    assert_eq!(r.name, "super-hack");
    assert_eq!(r.install_directory, "/games/super-hack");
    assert!(r.remote);
}

#[test]
fn local_source_name_is_stem() {
    let r = resolve_hack("~/games", "  ", "~/downloads/myhack.zip", Some("/home/ann"));
    assert_eq!(r.name, "myhack");
    assert_eq!(r.install_directory, "/home/ann/games/myhack");
    assert!(!r.remote);
    assert_eq!(derive_name("~/downloads/myhack.zip", None), "myhack");
}

#[test]
fn given_name_is_used_verbatim() {
    let r = resolve_hack("/games", " My Hack ", "http://x.org/a.zip", None);
    assert_eq!(r.name, " My Hack ");
    assert_eq!(r.install_directory, "/games/ My Hack ");
}

#[test]
fn nameless_source_falls_back() {
    assert_eq!(derive_name("https://example.com/", None), "hack");
    assert_eq!(derive_name("http://example.com/..?x=1", None), "hack");
}

#[test]
fn remote_detection() {
    assert!(is_remote("http://a"));
    assert!(is_remote("https://a"));
    assert!(!is_remote("ftp://a"));
    assert!(!is_remote("HTTP://a"));
    assert!(!is_remote("/tmp/http://a"));
}

#[test]
fn emulator_arguments_are_split_and_substituted() {
    let l = emulator_launch("/roms/a.sfc", "/bin/emu", "-f '%1' --title \"x y\"").unwrap();
    assert_eq!(l.program, "/bin/emu");
    assert_eq!(l.args, vec!["-f", "/roms/a.sfc", "--title", "x y"]);
    let l = emulator_launch("/roms/a.sfc", "/bin/emu", "").unwrap();
    assert!(l.args.is_empty());
}

#[test]
fn emulator_arguments_with_open_quote_fail() {
    assert_eq!(
        emulator_launch("/roms/a.sfc", "/bin/emu", "-f \"%1").err(),
        Some("Failed to parse emulator arguments".to_string())
    );
}

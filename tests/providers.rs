use powerline::distrobox::append_container;
use powerline::flatcwd::append_cwd;
use powerline::keyenv::{join_keys, key_list};
use powerline::locate::{ancestor_dirs, find_git_dir, parent_dir};
use powerline::{Color, Distrobox, DistroboxScheme, FlatCwd, FlatCwdScheme, KeyEnv, KeyEnvScheme, Powerline};

fn fg(n: u8) -> String {
    format!("\x1b[38;5;{}m", n)
}

fn bg(n: u8) -> String {
    format!("\x1b[48;5;{}m", n)
}

fn cwd_scheme() -> FlatCwdScheme {
    FlatCwdScheme {
        cwd_fg: Color(1),
        path_fg: Color(2),
        path_bg: Color(3),
        home_fg: Color(4),
        home_bg: Color(5),
        separator_fg: Color(6),
    }
}

#[test]
fn locator_finds_nearest_marked_ancestor() {
    let marked = vec!["/a".to_string()];
    assert_eq!(find_git_dir("/a/b/c", &marked), Some("/a".to_string()));
    assert_eq!(find_git_dir("/x/y", &marked), None);
    assert_eq!(find_git_dir("/x/y", &Vec::new()), None);
    let both = vec!["/a".to_string(), "/a/b".to_string()];
    assert_eq!(find_git_dir("/a/b/c", &both), Some("/a/b".to_string()));
    let root = vec!["/".to_string()];
    assert_eq!(find_git_dir("/x/y", &root), Some("/".to_string()));
}

#[test]
fn parents_and_ancestors() {
    assert_eq!(parent_dir("/a/b/c"), Some("/a/b".to_string()));
    assert_eq!(parent_dir("/a"), Some("/".to_string()));
    assert_eq!(parent_dir("/"), None);
    assert_eq!(parent_dir(""), None);
    assert_eq!(parent_dir("a"), Some(String::new()));
    assert_eq!(
        ancestor_dirs("/a/b/c"),
        vec!["/a/b/c".to_string(), "/a/b".to_string(), "/a".to_string(), "/".to_string()]
    );
}

#[test]
fn key_list_marks_each_word() {
    assert_eq!(key_list("alpha  beta\tgamma"), "\u{1F511}alpha \u{1F511}beta \u{1F511}gamma");
    assert_eq!(key_list("   "), "");
    assert_eq!(key_list("one"), "\u{1F511}one");
    assert_eq!(join_keys(&vec!["a b".to_string(), "c".to_string()]), "\u{1F511}a b \u{1F511}c");
}

#[test]
fn key_env_module_draws_one_segment() {
    let scheme = KeyEnvScheme { key_env_bg: Color(8), key_env_fg: Color(9) };
    let mut p = Powerline::new();
    p.add_module(KeyEnv::new(scheme, Some("k1 k2".to_string())));
    let expected = format!("{}{}\u{1F511}k1 \u{1F511}k2 \x1b[0m{} \x1b[0m", bg(8), fg(9), fg(8));
    assert_eq!(p.render(), expected);
    let mut q = Powerline::new();
    q.add_module(KeyEnv::new(scheme, None));
    assert_eq!(q.render(), "");
}

#[test]
fn container_segment_is_glyph_then_id() {
    let scheme = DistroboxScheme { distrobox_fg: Color(1), distrobox_bg: Color(2) };
    let mut p = Powerline::new();
    append_container(&mut p, "box", &scheme);
    let expected = format!(
        "{}{}\u{1F4E6}\u{FE0F}{}{} {}box \x1b[0m{} \x1b[0m",
        bg(2), fg(1), bg(2), fg(2), fg(1), fg(2)
    );
    assert_eq!(p.render(), expected);
    let mut q = Powerline::new();
    q.add_module(Distrobox::new(scheme, None));
    assert_eq!(q.render(), "");
}

#[test]
fn cwd_root_keeps_invisible_separator() {
    let mut p = Powerline::new();
    append_cwd(&mut p, "/", Some("/home/u"), &cwd_scheme());
    assert_eq!(p.render(), format!("{}{}/ \x1b[0m{} \x1b[0m", bg(3), fg(2), fg(3)));
}

#[test]
fn cwd_under_home_starts_with_tilde() {
    let mut p = Powerline::new();
    append_cwd(&mut p, "/home/u/src", Some("/home/u"), &cwd_scheme());
    assert_eq!(p.render(), format!("{}{}~/src \x1b[0m{}\u{E0B0}\x1b[0m", bg(5), fg(4), fg(5)));
}

#[test]
fn cwd_elsewhere_is_written_whole() {
    let mut p = Powerline::new();
    p.add_module(FlatCwd::new(cwd_scheme(), Some("/etc/x".to_string()), Some("/home/u".to_string())));
    assert_eq!(p.render(), format!("{}{}/etc/x \x1b[0m{}\u{E0B0}\x1b[0m", bg(3), fg(2), fg(3)));
    let mut q = Powerline::new();
    append_cwd(&mut q, "/etc/x", None, &cwd_scheme());
    assert_eq!(q.render(), p.render());
}

#[test]
fn cwd_unknown_draws_nothing() {
    let mut p = Powerline::new();
    p.add_module(FlatCwd::new(cwd_scheme(), None, Some("/home/u".to_string())));
    assert_eq!(p.render(), "");
}

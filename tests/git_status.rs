use powerline::git::{
    append_git_segments, assemble_stats, branch_label, count_label, duration_string, fetch_age_color,
    tally_statuses, CONFLICTED, INDEX_MODIFIED, INDEX_NEW, WT_MODIFIED, WT_NEW,
};
use powerline::{Color, Git, GitScheme, GitStats, Module, Powerline};

fn scheme() -> GitScheme {
    GitScheme {
        ahead_bg: Color(1),
        ahead_fg: Color(2),
        behind_bg: Color(3),
        behind_fg: Color(4),
        staged_bg: Color(5),
        staged_fg: Color(6),
        not_staged_bg: Color(7),
        not_staged_fg: Color(8),
        untracked_bg: Color(9),
        untracked_fg: Color(10),
        conflicted_bg: Color(11),
        conflicted_fg: Color(12),
        repo_clean_bg: Color(13),
        repo_clean_fg: Color(14),
        repo_dirty_bg: Color(15),
        repo_dirty_fg: Color(16),
        fetch_age_bg: Color(17),
        fetch_age_fg: Color(18),
        fetch_age_stale_fg: Color(19),
    }
}

fn stats(branch: &str) -> GitStats {
    GitStats {
        untracked: 0,
        conflicted: 0,
        non_staged: 0,
        ahead: 0,
        behind: 0,
        staged: 0,
        branch_name: branch.to_string(),
        fetch_head_age: None,
    }
}

fn fg(n: u8) -> String {
    format!("\x1b[38;5;{}m", n)
}

fn bg(n: u8) -> String {
    format!("\x1b[48;5;{}m", n)
}

#[test]
fn count_label_zero_one_many() {
    assert_eq!(count_label(0, '\u{2B06}'), None);
    assert_eq!(count_label(1, '\u{2B06}'), Some("\u{2B06}".to_string()));
    assert_eq!(count_label(2, '\u{2B06}'), Some("2\u{2B06}".to_string()));
    assert_eq!(count_label(4096, 'x'), Some("4096x".to_string()));
}

#[test]
fn duration_strings() {
    assert_eq!(duration_string(90), "1m");
    assert_eq!(duration_string(3700), "1h1m");
    assert_eq!(duration_string(86400), "1d0h0m");
    assert_eq!(duration_string(0), "");
    assert_eq!(duration_string(59), "");
    assert_eq!(duration_string(7 * 86400), "1w0d0h0m");
    assert_eq!(duration_string(8 * 86400 + 3661), "1w1d1h1m");
}

#[test]
fn fetch_age_thresholds() {
    let s = scheme();
    assert_eq!(fetch_age_color(3600, &s), None);
    assert_eq!(fetch_age_color(3601, &s), Some(s.fetch_age_fg));
    assert_eq!(fetch_age_color(12 * 3600, &s), Some(s.fetch_age_fg));
    assert_eq!(fetch_age_color(12 * 3600 + 1, &s), Some(s.fetch_age_stale_fg));
}

#[test]
fn dirty_predicate() {
    let clean = stats("main");
    assert!(!clean.is_dirty());
    let mut a = stats("main");
    a.untracked = 1;
    assert!(a.is_dirty());
    let mut b = stats("main");
    b.conflicted = 1;
    assert!(b.is_dirty());
    let mut c = stats("main");
    c.staged = 1;
    assert!(c.is_dirty());
    let mut d = stats("main");
    d.non_staged = 1;
    assert!(d.is_dirty());
    let mut e = stats("main");
    e.ahead = 3;
    e.behind = 3;
    assert!(!e.is_dirty());
}

#[test]
fn clean_repository_draws_branch_in_clean_palette() {
    let mut p = Powerline::new();
    append_git_segments(&mut p, &stats("main"), &scheme());
    let expected = format!("{}{}main \x1b[0m{} \x1b[0m", bg(13), fg(14), fg(13));
    assert_eq!(p.render(), expected);
}

#[test]
fn dirty_repository_draws_counts_in_order() {
    let mut s = stats("dev");
    s.ahead = 2;
    s.behind = 1;
    s.untracked = 3;
    let mut p = Powerline::new();
    append_git_segments(&mut p, &s, &scheme());
    let expected = format!(
        "{}{}dev {}{} {}2\u{2B06} {}{} {}\u{2B07} {}{} {}3\u{2753} \x1b[0m{} \x1b[0m",
        bg(15), fg(16),
        bg(1), fg(15), fg(2),
        bg(3), fg(1), fg(4),
        bg(9), fg(3), fg(10),
        fg(9)
    );
    assert_eq!(p.render(), expected);
}

#[test]
fn fetch_age_segment_shown_after_an_hour() {
    let mut s = stats("m");
    s.fetch_head_age = Some(3601);
    let mut p = Powerline::new();
    append_git_segments(&mut p, &s, &scheme());
    let expected = format!(
        "{}{}m {}{} {}1h0m\u{23F0} \x1b[0m{} \x1b[0m",
        bg(13), fg(14), bg(17), fg(13), fg(18), fg(17)
    );
    assert_eq!(p.render(), expected);

    let mut s = stats("m");
    s.fetch_head_age = Some(3600);
    let mut p = Powerline::new();
    append_git_segments(&mut p, &s, &scheme());
    assert_eq!(p.render(), format!("{}{}m \x1b[0m{} \x1b[0m", bg(13), fg(14), fg(13)));

    let mut s = stats("m");
    s.fetch_head_age = Some(12 * 3600 + 1);
    let mut p = Powerline::new();
    append_git_segments(&mut p, &s, &scheme());
    assert!(p.render().contains(&format!("{}12h0m\u{23F0} ", fg(19))));
}

#[test]
fn git_module_without_repository_draws_nothing() {
    let mut p = Powerline::new();
    p.add_module(Git::new(scheme(), None));
    assert_eq!(p.render(), "");
    let mut q = Powerline::new();
    q.add_module(Git::new(scheme(), Some(stats("main"))));
    assert!(q.render().contains("main "));
}

#[test]
fn tally_classifies_each_flag() {
    let statuses = vec![
        INDEX_NEW,
        INDEX_MODIFIED | WT_MODIFIED,
        WT_NEW,
        WT_NEW,
        CONFLICTED,
        0,
    ];
    let c = tally_statuses(&statuses);
    assert_eq!(c.staged, 2);
    assert_eq!(c.non_staged, 1);
    assert_eq!(c.untracked, 2);
    assert_eq!(c.conflicted, 1);
    let empty = tally_statuses(&Vec::new());
    assert_eq!((empty.staged, empty.non_staged, empty.untracked, empty.conflicted), (0, 0, 0, 0));
}

#[test]
fn branch_label_falls_back() {
    assert_eq!(branch_label(Some("main".to_string()), Some("abc1234".to_string())), "main");
    assert_eq!(branch_label(None, Some("abc1234".to_string())), "abc1234");
    assert_eq!(branch_label(None, None), "*");
}

#[test]
fn ahead_two_behind_one() {
    let s = assemble_stats(&vec![WT_MODIFIED], Some("main".to_string()), None, Some((2, 1)), Some(10));
    assert_eq!(s.ahead, 2);
    assert_eq!(s.behind, 1);
    assert_eq!(s.non_staged, 1);
    assert_eq!(s.branch_name, "main");
    assert_eq!(s.fetch_head_age, Some(10));
    let none = assemble_stats(&Vec::new(), None, None, None, None);
    assert_eq!((none.ahead, none.behind), (0, 0));
    assert_eq!(none.branch_name, "*");
    let big = assemble_stats(&Vec::new(), None, None, Some((usize::MAX, 5)), None);
    assert_eq!(big.ahead, u32::MAX);
}

#[test]
fn default_stats_are_clean() {
    let s = GitStats::default();
    assert!(!s.is_dirty());
    assert_eq!(s.branch_name, "");
    assert_eq!(s.fetch_head_age, None);
}

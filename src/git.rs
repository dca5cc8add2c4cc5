//! The version-control status provider: the status record, its presentation
//! as segments, and the tallies that build the record from per-file status
//! flags.

use vstd::prelude::*;
use crate::modules::Module;
use crate::powerline::{appended, lemma_appended_extends, Powerline, PowerlineView, Style};
use crate::terminal::{BgColor, Color, FgColor};
use crate::text::{decimal, push_char, push_decimal};

verus! {

/// Per-file status flag: new in the index.
pub const INDEX_NEW: u32 = 1;
/// Per-file status flag: modified in the index.
pub const INDEX_MODIFIED: u32 = 2;
/// Per-file status flag: deleted in the index.
pub const INDEX_DELETED: u32 = 4;
/// Per-file status flag: renamed in the index.
pub const INDEX_RENAMED: u32 = 8;
/// Per-file status flag: type changed in the index.
pub const INDEX_TYPECHANGE: u32 = 16;
/// Per-file status flag: new in the working tree (untracked).
pub const WT_NEW: u32 = 128;
/// Per-file status flag: modified in the working tree.
pub const WT_MODIFIED: u32 = 256;
/// Per-file status flag: deleted in the working tree.
pub const WT_DELETED: u32 = 512;
/// Per-file status flag: type changed in the working tree.
pub const WT_TYPECHANGE: u32 = 1024;
/// Per-file status flag: unresolved merge conflict.
pub const CONFLICTED: u32 = 32768;

/// Flags of which any one makes a file count as staged.
pub const STAGED_MASK: u32 = INDEX_NEW | INDEX_MODIFIED | INDEX_TYPECHANGE | INDEX_RENAMED | INDEX_DELETED;
/// Flags of which any one makes a file count as modified but not staged.
pub const UNSTAGED_MASK: u32 = WT_MODIFIED | WT_TYPECHANGE | WT_DELETED;

/// Glyph of the ahead count.
pub const AHEAD_GLYPH: char = '\u{2B06}';
/// Glyph of the behind count.
pub const BEHIND_GLYPH: char = '\u{2B07}';
/// Glyph of the staged count.
pub const STAGED_GLYPH: char = '\u{2714}';
/// Glyph of the unstaged count.
pub const NOT_STAGED_GLYPH: char = '\u{270E}';
/// Glyph of the untracked count.
pub const UNTRACKED_GLYPH: char = '\u{2753}';
/// Glyph of the conflicted count.
pub const CONFLICTED_GLYPH: char = '\u{273C}';
/// Glyph of the fetch age.
pub const FETCH_AGE_GLYPH: char = '\u{23F0}';

/// Seconds after the last fetch above which its age is shown.
pub const FETCH_AGE_SHOWN_AFTER: u64 = 3600;
/// Seconds after the last fetch above which its age is shown as stale.
pub const FETCH_AGE_STALE_AFTER: u64 = 43200;

/// The colours of the version-control segments.
#[derive(Clone, Copy, Debug, PartialEq, Eq, Structural)]
pub struct GitScheme {
    pub ahead_bg: Color,
    pub ahead_fg: Color,
    pub behind_bg: Color,
    pub behind_fg: Color,
    pub staged_bg: Color,
    pub staged_fg: Color,
    pub not_staged_bg: Color,
    pub not_staged_fg: Color,
    pub untracked_bg: Color,
    pub untracked_fg: Color,
    pub conflicted_bg: Color,
    pub conflicted_fg: Color,
    pub repo_clean_bg: Color,
    pub repo_clean_fg: Color,
    pub repo_dirty_bg: Color,
    pub repo_dirty_fg: Color,
    pub fetch_age_bg: Color,
    pub fetch_age_fg: Color,
    pub fetch_age_stale_fg: Color,
}

/// The state of a repository, as the prompt shows it.
pub struct GitStats {
    pub untracked: u32,
    pub conflicted: u32,
    pub non_staged: u32,
    pub ahead: u32,
    pub behind: u32,
    pub staged: u32,
    /// The current branch, or a short commit id when the head is detached.
    pub branch_name: String,
    /// Seconds since the last fetch, where known.
    pub fetch_head_age: Option<u64>,
}

/// Whether the working tree or the index holds any change.
pub open spec fn dirty(s: GitStats) -> bool {
    s.untracked + s.conflicted + s.staged + s.non_staged > 0
}

impl GitStats {
    /// Whether any file is untracked, conflicted, staged or modified.
    pub fn is_dirty(&self) -> (r: bool)
        ensures
            r == dirty(*self),
    {
        self.untracked > 0 || self.conflicted > 0 || self.staged > 0 || self.non_staged > 0
    }
}

/// `{value}{unit}`.
pub open spec fn field(value: nat, unit: char) -> Seq<char> {
    decimal(value).push(unit)
}

/// A compact age: weeks, days, hours and minutes (each a floor of the seconds
/// given, less the larger units), each written once it or a larger unit is
/// non-zero; seconds are never written.
pub open spec fn duration_text(secs: nat) -> Seq<char> {
    let minutes_total = secs / 60;
    let hours_total = minutes_total / 60;
    let days_total = hours_total / 24;
    let weeks = days_total / 7;
    let days = days_total % 7;
    let hours = hours_total % 24;
    let minutes = minutes_total % 60;
    (if weeks > 0 { field(weeks, 'w') } else { Seq::empty() })
    + (if weeks > 0 || days > 0 { field(days, 'd') } else { Seq::empty() })
    + (if weeks > 0 || days > 0 || hours > 0 { field(hours, 'h') } else { Seq::empty() })
    + (if weeks > 0 || days > 0 || hours > 0 || minutes > 0 { field(minutes, 'm') } else { Seq::empty() })
}

fn push_field(s: &mut String, value: u64, unit: char)
    ensures
        final(s)@ == old(s)@ + field(value as nat, unit),
{
    push_decimal(s, value);
    push_char(s, unit);
    assert(final(s)@ =~= old(s)@ + field(value as nat, unit));
}

/// The age of `secs` seconds, as weeks, days, hours and minutes.
pub fn duration_string(secs: u64) -> (r: String)
    ensures
        r@ == duration_text(secs as nat),
{
    let minutes_total = secs / 60;
    let hours_total = minutes_total / 60;
    let days_total = hours_total / 24;
    let weeks = days_total / 7;
    let days = days_total % 7;
    let hours = hours_total % 24;
    let minutes = minutes_total % 60;
    let mut timestr = String::new();
    if weeks > 0 {
        push_field(&mut timestr, weeks, 'w');
    }
    if weeks > 0 || days > 0 {
        push_field(&mut timestr, days, 'd');
    }
    if weeks > 0 || days > 0 || hours > 0 {
        push_field(&mut timestr, hours, 'h');
    }
    if weeks > 0 || days > 0 || hours > 0 || minutes > 0 {
        push_field(&mut timestr, minutes, 'm');
    }
    assert(timestr@ =~= duration_text(secs as nat));
    timestr
}

/// The label of a count: none for zero, the bare glyph for one, and
/// `{count}{glyph}` above one.
pub open spec fn count_text(count: nat, glyph: char) -> Option<Seq<char>> {
    if count == 0 {
        None
    } else if count == 1 {
        Some(seq![glyph])
    } else {
        Some(decimal(count).push(glyph))
    }
}

/// The label of a count, as `count_text` gives it.
pub fn count_label(count: u32, glyph: char) -> (r: Option<String>)
    ensures
        count_text(count as nat, glyph) == match r {
            Some(s) => Some(s@),
            None => None::<Seq<char>>,
        },
{
    if count == 0 {
        None
    } else {
        let mut s = String::new();
        if count > 1 {
            push_decimal(&mut s, count as u64);
        }
        push_char(&mut s, glyph);
        assert(count == 1 ==> s@ =~= seq![glyph]);
        assert(count > 1 ==> s@ =~= decimal(count as nat).push(glyph));
        Some(s)
    }
}

/// The text colour of the fetch-age segment: none up to an hour, the
/// fresh shade up to twelve hours, the stale shade beyond.
pub open spec fn fetch_age_fg(secs: nat, scheme: GitScheme) -> Option<Color> {
    if secs <= FETCH_AGE_SHOWN_AFTER {
        None
    } else if secs <= FETCH_AGE_STALE_AFTER {
        Some(scheme.fetch_age_fg)
    } else {
        Some(scheme.fetch_age_stale_fg)
    }
}

/// The text colour of the fetch-age segment, or none where it is not shown.
pub fn fetch_age_color(secs: u64, scheme: &GitScheme) -> (r: Option<Color>)
    ensures
        r == fetch_age_fg(secs as nat, *scheme),
{
    if secs <= FETCH_AGE_SHOWN_AFTER {
        None
    } else if secs <= FETCH_AGE_STALE_AFTER {
        Some(scheme.fetch_age_fg)
    } else {
        Some(scheme.fetch_age_stale_fg)
    }
}

/// The style of a segment with an invisible separator.
pub open spec fn simple_style(fg: Color, bg: Color) -> Style {
    Style { fg: FgColor(fg.0), bg: BgColor(bg.0), sep: ' ', sep_fg: FgColor(bg.0) }
}

/// The prompt after the spaced segments `segs`, appended in order.
pub open spec fn append_all(v: PowerlineView, segs: Seq<(Seq<char>, Style)>) -> PowerlineView
    decreases segs.len(),
{
    if segs.len() == 0 {
        v
    } else {
        let last = segs.last();
        appended(append_all(v, segs.drop_last()), last.1, last.0, true)
    }
}

/// One segment if there is a label, else none.
pub open spec fn optional_segment(label: Option<Seq<char>>, style: Style) -> Seq<(Seq<char>, Style)> {
    match label {
        Some(l) => seq![(l, style)],
        None => Seq::empty(),
    }
}

/// The branch segment, in the dirty palette when `dirty` holds.
pub open spec fn branch_segment(s: GitStats, scheme: GitScheme) -> (Seq<char>, Style) {
    if dirty(s) {
        (s.branch_name@, simple_style(scheme.repo_dirty_fg, scheme.repo_dirty_bg))
    } else {
        (s.branch_name@, simple_style(scheme.repo_clean_fg, scheme.repo_clean_bg))
    }
}

/// The fetch-age segment: the age and a clock, where the age is known and
/// over an hour.
pub open spec fn fetch_age_segment(s: GitStats, scheme: GitScheme) -> Seq<(Seq<char>, Style)> {
    match s.fetch_head_age {
        Some(age) => match fetch_age_fg(age as nat, scheme) {
            Some(fg) => seq![(duration_text(age as nat).push(FETCH_AGE_GLYPH), simple_style(fg, scheme.fetch_age_bg))],
            None => Seq::empty(),
        },
        None => Seq::empty(),
    }
}

/// The segments of a repository's state, in order: branch, ahead, behind,
/// staged, unstaged, untracked, conflicted, fetch age.
pub open spec fn git_segments(s: GitStats, scheme: GitScheme) -> Seq<(Seq<char>, Style)> {
    seq![branch_segment(s, scheme)]
    + optional_segment(count_text(s.ahead as nat, AHEAD_GLYPH), simple_style(scheme.ahead_fg, scheme.ahead_bg))
    + optional_segment(count_text(s.behind as nat, BEHIND_GLYPH), simple_style(scheme.behind_fg, scheme.behind_bg))
    + optional_segment(count_text(s.staged as nat, STAGED_GLYPH), simple_style(scheme.staged_fg, scheme.staged_bg))
    + optional_segment(count_text(s.non_staged as nat, NOT_STAGED_GLYPH), simple_style(scheme.not_staged_fg, scheme.not_staged_bg))
    + optional_segment(count_text(s.untracked as nat, UNTRACKED_GLYPH), simple_style(scheme.untracked_fg, scheme.untracked_bg))
    + optional_segment(count_text(s.conflicted as nat, CONFLICTED_GLYPH), simple_style(scheme.conflicted_fg, scheme.conflicted_bg))
    + fetch_age_segment(s, scheme)
}

proof fn lemma_append_all_push(v: PowerlineView, segs: Seq<(Seq<char>, Style)>, x: (Seq<char>, Style))
    ensures
        append_all(v, segs.push(x)) == appended(append_all(v, segs), x.1, x.0, true),
{
    assert(segs.push(x).drop_last() =~= segs);
}

proof fn lemma_append_all_optional(v: PowerlineView, segs: Seq<(Seq<char>, Style)>, label: Option<Seq<char>>, style: Style)
    ensures
        label is None ==> append_all(v, segs + optional_segment(label, style)) == append_all(v, segs),
        label matches Some(l) ==> append_all(v, segs + optional_segment(label, style)) == appended(append_all(v, segs), style, l, true),
{
    match label {
        Some(l) => {
            assert(segs + optional_segment(label, style) =~= segs.push((l, style)));
            lemma_append_all_push(v, segs, (l, style));
        },
        None => {
            assert(segs + optional_segment(label, style) =~= segs);
        },
    }
}

fn add_count(
    powerline: &mut Powerline,
    count: u32,
    glyph: char,
    fg: Color,
    bg: Color,
    Ghost(base): Ghost<PowerlineView>,
    Ghost(done): Ghost<Seq<(Seq<char>, Style)>>,
)
    requires
        old(powerline).wf(),
        old(powerline)@ == append_all(base, done),
    ensures
        final(powerline).wf(),
        final(powerline)@ == append_all(base, done + optional_segment(count_text(count as nat, glyph), simple_style(fg, bg))),
{
    let label = count_label(count, glyph);
    let style = Style::simple(fg, bg);
    proof {
        lemma_append_all_optional(base, done, count_text(count as nat, glyph), style);
    }
    if let Some(text) = label {
        powerline.add_segment(text.as_str(), style);
    }
}

/// Appends the segments of a repository's state: the branch in the clean or
/// dirty palette, one segment for each non-zero count, and the fetch age
/// where it is over an hour.
pub fn append_git_segments(powerline: &mut Powerline, stats: &GitStats, scheme: &GitScheme)
    requires
        old(powerline).wf(),
    ensures
        final(powerline).wf(),
        final(powerline)@ == append_all(old(powerline)@, git_segments(*stats, *scheme)),
{
    let ghost base = powerline@;
    let (branch_fg, branch_bg) = if stats.is_dirty() {
        (scheme.repo_dirty_fg, scheme.repo_dirty_bg)
    } else {
        (scheme.repo_clean_fg, scheme.repo_clean_bg)
    };
    powerline.add_segment(stats.branch_name.as_str(), Style::simple(branch_fg, branch_bg));
    let ghost done = seq![branch_segment(*stats, *scheme)];
    proof {
        lemma_append_all_push(base, Seq::empty(), branch_segment(*stats, *scheme));
        assert(Seq::<(Seq<char>, Style)>::empty().push(branch_segment(*stats, *scheme)) =~= done);
    }
    add_count(powerline, stats.ahead, AHEAD_GLYPH, scheme.ahead_fg, scheme.ahead_bg, Ghost(base), Ghost(done));
    let ghost done = done + optional_segment(count_text(stats.ahead as nat, AHEAD_GLYPH), simple_style(scheme.ahead_fg, scheme.ahead_bg));
    add_count(powerline, stats.behind, BEHIND_GLYPH, scheme.behind_fg, scheme.behind_bg, Ghost(base), Ghost(done));
    let ghost done = done + optional_segment(count_text(stats.behind as nat, BEHIND_GLYPH), simple_style(scheme.behind_fg, scheme.behind_bg));
    add_count(powerline, stats.staged, STAGED_GLYPH, scheme.staged_fg, scheme.staged_bg, Ghost(base), Ghost(done));
    let ghost done = done + optional_segment(count_text(stats.staged as nat, STAGED_GLYPH), simple_style(scheme.staged_fg, scheme.staged_bg));
    add_count(powerline, stats.non_staged, NOT_STAGED_GLYPH, scheme.not_staged_fg, scheme.not_staged_bg, Ghost(base), Ghost(done));
    let ghost done = done + optional_segment(count_text(stats.non_staged as nat, NOT_STAGED_GLYPH), simple_style(scheme.not_staged_fg, scheme.not_staged_bg));
    add_count(powerline, stats.untracked, UNTRACKED_GLYPH, scheme.untracked_fg, scheme.untracked_bg, Ghost(base), Ghost(done));
    let ghost done = done + optional_segment(count_text(stats.untracked as nat, UNTRACKED_GLYPH), simple_style(scheme.untracked_fg, scheme.untracked_bg));
    add_count(powerline, stats.conflicted, CONFLICTED_GLYPH, scheme.conflicted_fg, scheme.conflicted_bg, Ghost(base), Ghost(done));
    let ghost done = done + optional_segment(count_text(stats.conflicted as nat, CONFLICTED_GLYPH), simple_style(scheme.conflicted_fg, scheme.conflicted_bg));
    if let Some(age) = stats.fetch_head_age {
        if let Some(fg) = fetch_age_color(age, scheme) {
            let mut label = duration_string(age);
            push_char(&mut label, FETCH_AGE_GLYPH);
            let style = Style::simple(fg, scheme.fetch_age_bg);
            powerline.add_segment(label.as_str(), style);
            proof {
                lemma_append_all_push(base, done, (label@, style));
                assert(done + fetch_age_segment(*stats, *scheme) =~= done.push((label@, style)));
            }
        } else {
            assert(done + fetch_age_segment(*stats, *scheme) =~= done);
        }
    } else {
        assert(done + fetch_age_segment(*stats, *scheme) =~= done);
    }
    assert(git_segments(*stats, *scheme) =~= done + fetch_age_segment(*stats, *scheme));
}

/// The version-control provider: the state read for this prompt, if any, and
/// the colours to draw it in.
pub struct Git {
    scheme: GitScheme,
    stats: Option<GitStats>,
}

impl Git {
    /// A provider for `stats`; `None` stands for no repository, or one whose
    /// state could not be read, and draws nothing.
    pub fn new(scheme: GitScheme, stats: Option<GitStats>) -> (r: Git)
        ensures
            r.scheme() == scheme,
            r.stats() == stats,
    {
        Git { scheme, stats }
    }

    /// The colours.
    pub closed spec fn scheme(&self) -> GitScheme {
        self.scheme
    }

    /// The repository state.
    pub closed spec fn stats(&self) -> Option<GitStats> {
        self.stats
    }
}

impl Module for Git {
    /// The segments of the repository's state; nothing without one.
    open spec fn contributed(&self, v: PowerlineView) -> PowerlineView {
        match self.stats() {
            Some(st) => append_all(v, git_segments(st, self.scheme())),
            None => v,
        }
    }

    fn append_segments(&mut self, powerline: &mut Powerline) {
        if let Some(stats) = &self.stats {
            append_git_segments(powerline, stats, &self.scheme);
            proof {
                lemma_append_all_extends(old(powerline)@, git_segments(*stats, self.scheme));
            }
        } else {
            assert(old(powerline)@.text.is_prefix_of(powerline@.text)) by {
                assert(powerline@.text.subrange(0, powerline@.text.len() as int) =~= powerline@.text);
            }
        }
    }
}

/// Where the last fetch is known and over an hour old, the last segment is
/// its age and a clock, in the fresh shade up to twelve hours and the stale
/// shade beyond; otherwise no fetch-age segment is drawn.
pub proof fn lemma_fetch_age_segment(s: GitStats, scheme: GitScheme)
    ensures
        s.fetch_head_age matches Some(a) && a > FETCH_AGE_SHOWN_AFTER ==> git_segments(s, scheme).last() == (
            duration_text(s.fetch_head_age.unwrap() as nat).push(FETCH_AGE_GLYPH),
            simple_style(
                if s.fetch_head_age.unwrap() <= FETCH_AGE_STALE_AFTER { scheme.fetch_age_fg } else { scheme.fetch_age_stale_fg },
                scheme.fetch_age_bg,
            ),
        ),
        !(s.fetch_head_age matches Some(a) && a > FETCH_AGE_SHOWN_AFTER) ==> fetch_age_segment(s, scheme).len() == 0,
{
}

/// The age texts just past one hour and just past twelve hours.
pub proof fn lemma_hour_age_texts()
    ensures
        duration_text(3601) == seq!['1', 'h', '0', 'm'],
        duration_text(43201) == seq!['1', '2', 'h', '0', 'm'],
{
    assert(decimal(1) == seq!['1']);
    assert(decimal(0) == seq!['0']);
    assert(decimal(12) == decimal(1).push('2'));
    assert(duration_text(3601) =~= seq!['1', 'h', '0', 'm']);
    assert(duration_text(43201) =~= seq!['1', '2', 'h', '0', 'm']);
}

/// Appending segments keeps what was written before in front.
pub proof fn lemma_append_all_extends(v: PowerlineView, segs: Seq<(Seq<char>, Style)>)
    ensures
        v.text.is_prefix_of(append_all(v, segs).text),
    decreases segs.len(),
{
    if segs.len() == 0 {
        assert(v.text.subrange(0, v.text.len() as int) =~= v.text);
    } else {
        let last = segs.last();
        let w = append_all(v, segs.drop_last());
        lemma_append_all_extends(v, segs.drop_last());
        lemma_appended_extends(w, last.1, last.0, true);
        let z = append_all(v, segs).text;
        assert(z.subrange(0, v.text.len() as int) =~= w.text.subrange(0, v.text.len() as int));
    }
}

impl Default for GitStats {
    fn default() -> (r: GitStats)
        ensures
            r.untracked == 0 && r.conflicted == 0 && r.non_staged == 0,
            r.ahead == 0 && r.behind == 0 && r.staged == 0,
            r.branch_name@ == Seq::<char>::empty(),
            r.fetch_head_age.is_none(),
    {
        GitStats {
            untracked: 0,
            conflicted: 0,
            non_staged: 0,
            ahead: 0,
            behind: 0,
            staged: 0,
            branch_name: String::new(),
            fetch_head_age: None,
        }
    }
}

/// Whether a file's status flags count it as staged.
pub open spec fn is_staged(flags: u32) -> bool {
    flags & STAGED_MASK != 0
}

/// Whether a file's status flags count it as modified but not staged.
pub open spec fn is_not_staged(flags: u32) -> bool {
    flags & UNSTAGED_MASK != 0
}

/// Whether a file's status flags count it as untracked.
pub open spec fn is_untracked(flags: u32) -> bool {
    flags & WT_NEW != 0
}

/// Whether a file's status flags count it as conflicted.
pub open spec fn is_conflicted(flags: u32) -> bool {
    flags & CONFLICTED != 0
}

/// How many of `s` satisfy `p`.
pub open spec fn count_where(s: Seq<u32>, p: spec_fn(u32) -> bool) -> nat
    decreases s.len(),
{
    if s.len() == 0 {
        0
    } else {
        count_where(s.drop_last(), p) + if p(s.last()) { 1nat } else { 0nat }
    }
}

/// The four change counts of a repository.
#[derive(Clone, Copy, Debug, PartialEq, Eq, Structural)]
pub struct ChangeCounts {
    pub staged: u32,
    pub non_staged: u32,
    pub untracked: u32,
    pub conflicted: u32,
}

/// Counts the files of each kind, given each file's status flags. A file may
/// count in several kinds.
pub fn tally_statuses(statuses: &Vec<u32>) -> (r: ChangeCounts)
    requires
        statuses@.len() <= u32::MAX,
    ensures
        r.staged == count_where(statuses@, |f: u32| is_staged(f)),
        r.non_staged == count_where(statuses@, |f: u32| is_not_staged(f)),
        r.untracked == count_where(statuses@, |f: u32| is_untracked(f)),
        r.conflicted == count_where(statuses@, |f: u32| is_conflicted(f)),
{
    let mut r = ChangeCounts { staged: 0, non_staged: 0, untracked: 0, conflicted: 0 };
    let mut i: usize = 0;
    while i < statuses.len()
        invariant
            i <= statuses@.len() <= u32::MAX,
            r.staged <= i && r.non_staged <= i && r.untracked <= i && r.conflicted <= i,
            r.staged == count_where(statuses@.take(i as int), |f: u32| is_staged(f)),
            r.non_staged == count_where(statuses@.take(i as int), |f: u32| is_not_staged(f)),
            r.untracked == count_where(statuses@.take(i as int), |f: u32| is_untracked(f)),
            r.conflicted == count_where(statuses@.take(i as int), |f: u32| is_conflicted(f)),
        decreases statuses@.len() - i,
    {
        let flags = statuses[i];
        assert(statuses@.take(i + 1).drop_last() =~= statuses@.take(i as int));
        if flags & STAGED_MASK != 0 {
            r.staged = r.staged + 1;
        }
        if flags & UNSTAGED_MASK != 0 {
            r.non_staged = r.non_staged + 1;
        }
        if flags & WT_NEW != 0 {
            r.untracked = r.untracked + 1;
        }
        if flags & CONFLICTED != 0 {
            r.conflicted = r.conflicted + 1;
        }
        i = i + 1;
    }
    assert(statuses@.take(i as int) =~= statuses@);
    r
}

/// The branch label: the current local branch; failing that, the short id of
/// the head commit; failing that, `*`.
pub open spec fn branch_text(local: Option<Seq<char>>, head_short_id: Option<Seq<char>>) -> Seq<char> {
    match local {
        Some(b) => b,
        None => match head_short_id {
            Some(h) => h,
            None => seq!['*'],
        },
    }
}

/// The branch label, as `branch_text` gives it.
pub fn branch_label(local: Option<String>, head_short_id: Option<String>) -> (r: String)
    ensures
        r@ == branch_text(
            match local { Some(b) => Some(b@), None => None::<Seq<char>> },
            match head_short_id { Some(h) => Some(h@), None => None::<Seq<char>> },
        ),
{
    match local {
        Some(b) => b,
        None => match head_short_id {
            Some(h) => h,
            None => {
                let mut s = String::new();
                push_char(&mut s, '*');
                assert(s@ =~= seq!['*']);
                s
            },
        },
    }
}

/// A commit distance as a count, saturating at the largest count.
pub open spec fn capped(n: nat) -> u32 {
    if n <= u32::MAX { n as u32 } else { u32::MAX }
}

fn cap_count(n: usize) -> (r: u32)
    ensures
        r == capped(n as nat),
{
    if n <= u32::MAX as usize { n as u32 } else { u32::MAX }
}

/// The status record of a repository, from each file's status flags, the
/// current local branch (if any), the short id of the head commit (if any),
/// the commits ahead of and behind the upstream (if one is configured), and
/// the seconds since the last fetch (if known).
pub fn assemble_stats(
    statuses: &Vec<u32>,
    local_branch: Option<String>,
    head_short_id: Option<String>,
    ahead_behind: Option<(usize, usize)>,
    fetch_head_age: Option<u64>,
) -> (r: GitStats)
    requires
        statuses@.len() <= u32::MAX,
    ensures
        r.staged == count_where(statuses@, |f: u32| is_staged(f)),
        r.non_staged == count_where(statuses@, |f: u32| is_not_staged(f)),
        r.untracked == count_where(statuses@, |f: u32| is_untracked(f)),
        r.conflicted == count_where(statuses@, |f: u32| is_conflicted(f)),
        r.ahead == match ahead_behind { Some(ab) => capped(ab.0 as nat), None => 0u32 },
        r.behind == match ahead_behind { Some(ab) => capped(ab.1 as nat), None => 0u32 },
        r.branch_name@ == branch_text(
            match local_branch { Some(b) => Some(b@), None => None::<Seq<char>> },
            match head_short_id { Some(h) => Some(h@), None => None::<Seq<char>> },
        ),
        r.fetch_head_age == fetch_head_age,
{
    let counts = tally_statuses(statuses);
    let (ahead, behind) = match ahead_behind {
        Some((a, b)) => (cap_count(a), cap_count(b)),
        None => (0, 0),
    };
    GitStats {
        untracked: counts.untracked,
        conflicted: counts.conflicted,
        non_staged: counts.non_staged,
        ahead,
        behind,
        staged: counts.staged,
        branch_name: branch_label(local_branch, head_short_id),
        fetch_head_age,
    }
}

/// The branch segment is drawn in the dirty palette exactly when some file
/// is untracked, conflicted, staged or modified, and in the clean palette
/// when all four counts are zero.
pub proof fn lemma_branch_palette(s: GitStats, scheme: GitScheme)
    ensures
        git_segments(s, scheme)[0].0 == s.branch_name@,
        (s.untracked == 0 && s.conflicted == 0 && s.staged == 0 && s.non_staged == 0)
            ==> git_segments(s, scheme)[0].1 == simple_style(scheme.repo_clean_fg, scheme.repo_clean_bg),
        (s.untracked > 0 || s.conflicted > 0 || s.staged > 0 || s.non_staged > 0)
            ==> git_segments(s, scheme)[0].1 == simple_style(scheme.repo_dirty_fg, scheme.repo_dirty_bg),
{
}

} // verus!

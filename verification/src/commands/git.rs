//! What the worktree's files look like to the version-control backend: their
//! states, and their changes as patches.

use vstd::prelude::*;
use vstd::string::*;
use crate::error::{failure, outcome, AppError, ErrorKind, ErrorView};
use crate::host::{
    git, git_command, CommandLine, CommandLineView, CommandOutcome, CommandOutcomeView,
    HostAction, HostActionView, HostReply, HostReplyView, Progress, ProgressView,
};
use crate::models::git::{DiffOutput, DiffView, FileState, FileStatusView, GitFileStatus};
use crate::ordering::{
    in_order, is_ordered, is_total_preorder, lemma_bytes_le_total, lemma_bytes_le_transitive,
    lemma_in_order_sorts, lemma_inserted, text_at_most, text_le,
};
use crate::text::{
    lines_of, non_empty, option_text, same_text, split_lines, texts, trim_text, trimmed,
};
use vstd::utf8::encode_utf8;

verus! {

/// What the backend says of one file: which changes are in the index, which
/// are in the working directory, and whether the file is in conflict.
#[derive(Clone, Copy, Debug, PartialEq, Eq, Structural)]
pub struct StatusFlags {
    pub index_new: bool,
    pub index_modified: bool,
    pub index_deleted: bool,
    pub index_renamed: bool,
    pub index_typechange: bool,
    pub wt_new: bool,
    pub wt_modified: bool,
    pub wt_deleted: bool,
    pub wt_renamed: bool,
    pub wt_typechange: bool,
    pub conflicted: bool,
}

impl StatusFlags {
    /// What is staged of the file. Of several changes the first of new,
    /// modified, deleted, renamed and changed in type counts.
    pub open spec fn staged_state(self) -> FileState {
        if self.index_new {
            FileState::Added
        } else if self.index_modified {
            FileState::Modified
        } else if self.index_deleted {
            FileState::Deleted
        } else if self.index_renamed {
            FileState::Renamed
        } else if self.index_typechange {
            FileState::Typechange
        } else {
            FileState::Unmodified
        }
    }

    /// What is not staged of the file. Of several changes the first of new,
    /// modified, deleted, renamed, changed in type and in conflict counts.
    pub open spec fn unstaged_state(self) -> FileState {
        if self.wt_new {
            FileState::Untracked
        } else if self.wt_modified {
            FileState::Modified
        } else if self.wt_deleted {
            FileState::Deleted
        } else if self.wt_renamed {
            FileState::Renamed
        } else if self.wt_typechange {
            FileState::Typechange
        } else if self.conflicted {
            FileState::Conflicted
        } else {
            FileState::Unmodified
        }
    }

    /// Whether anything at all happened to the file.
    pub open spec fn is_changed(self) -> bool {
        self.staged_state() != FileState::Unmodified || self.unstaged_state()
            != FileState::Unmodified
    }

    /// What is staged of the file.
    pub fn staged(&self) -> (state: FileState)
        ensures
            state == self.staged_state(),
    {
        if self.index_new {
            FileState::Added
        } else if self.index_modified {
            FileState::Modified
        } else if self.index_deleted {
            FileState::Deleted
        } else if self.index_renamed {
            FileState::Renamed
        } else if self.index_typechange {
            FileState::Typechange
        } else {
            FileState::Unmodified
        }
    }

    /// What is not staged of the file.
    pub fn unstaged(&self) -> (state: FileState)
        ensures
            state == self.unstaged_state(),
    {
        if self.wt_new {
            FileState::Untracked
        } else if self.wt_modified {
            FileState::Modified
        } else if self.wt_deleted {
            FileState::Deleted
        } else if self.wt_renamed {
            FileState::Renamed
        } else if self.wt_typechange {
            FileState::Typechange
        } else if self.conflicted {
            FileState::Conflicted
        } else {
            FileState::Unmodified
        }
    }
}

/// One file as the backend reports it: its path, empty where the path is not
/// valid text, and what happened to it.
#[derive(Debug)]
pub struct StatusEntry {
    pub path: String,
    pub flags: StatusFlags,
}

/// The mathematical value of a [`StatusEntry`].
pub struct StatusEntryView {
    pub path: Seq<char>,
    pub flags: StatusFlags,
}

impl View for StatusEntry {
    type V = StatusEntryView;

    open spec fn view(&self) -> StatusEntryView {
        StatusEntryView { path: self.path@, flags: self.flags }
    }
}

/// The reported files of a list, each by its value.
pub open spec fn status_entry_views(list: Seq<StatusEntry>) -> Seq<StatusEntryView> {
    list.map_values(|e: StatusEntry| e@)
}

/// The states of the files of a list, each by its value.
pub open spec fn status_views(list: Seq<GitFileStatus>) -> Seq<FileStatusView> {
    list.map_values(|s: GitFileStatus| s@)
}

/// The state of a reported file.
pub open spec fn status_of(entry: StatusEntryView) -> FileStatusView {
    FileStatusView {
        path: entry.path,
        staged: entry.flags.staged_state(),
        unstaged: entry.flags.unstaged_state(),
    }
}

/// The states of the files that anything happened to, in the order of the report.
pub open spec fn changed_statuses(entries: Seq<StatusEntryView>) -> Seq<FileStatusView> {
    entries.filter(|e: StatusEntryView| e.flags.is_changed()).map_values(
        |e: StatusEntryView| status_of(e),
    )
}

/// The states of the files of a worktree that anything happened to, from the
/// backend's report of all its files.
pub fn git_status(entries: &Vec<StatusEntry>) -> (statuses: Vec<GitFileStatus>)
    ensures
        status_views(statuses@) == changed_statuses(status_entry_views(entries@)),
{
    let ghost all = status_entry_views(entries@);
    let ghost wanted = |e: StatusEntryView| e.flags.is_changed();
    let mut statuses: Vec<GitFileStatus> = Vec::new();
    let mut i: usize = 0;
    proof {
        reveal(Seq::filter);
        assert(status_views(statuses@) =~= changed_statuses(all.take(0)));
    }
    while i < entries.len()
        invariant
            i <= entries.len(),
            all == status_entry_views(entries@),
            wanted == |e: StatusEntryView| e.flags.is_changed(),
            status_views(statuses@) == changed_statuses(all.take(i as int)),
        decreases entries.len() - i,
    {
        proof {
            all.take(i as int).lemma_filter_push(all[i as int], wanted);
            assert(all.take(i + 1) =~= all.take(i as int).push(all[i as int]));
        }
        let staged = entries[i].flags.staged();
        let unstaged = entries[i].flags.unstaged();
        if staged != FileState::Unmodified || unstaged != FileState::Unmodified {
            let ghost before = status_views(statuses@);
            statuses.push(GitFileStatus { path: entries[i].path.clone(), staged, unstaged });
            assert(status_views(statuses@) =~= before.push(status_of(all[i as int])));
            assert(changed_statuses(all.take(i + 1)) =~= before.push(status_of(all[i as int])));
        } else {
            assert(changed_statuses(all.take(i + 1)) =~= changed_statuses(all.take(i as int)));
        }
        i += 1;
    }
    assert(all.take(i as int) =~= all);
    statuses
}

/// One line of a patch: the mark in front of it, and its text.
#[derive(Debug)]
pub struct DiffLine {
    pub origin: char,
    pub content: String,
}

/// The mathematical value of a [`DiffLine`].
pub struct DiffLineView {
    pub origin: char,
    pub content: Seq<char>,
}

impl View for DiffLine {
    type V = DiffLineView;

    open spec fn view(&self) -> DiffLineView {
        DiffLineView { origin: self.origin, content: self.content@ }
    }
}

/// The lines of a list, each by its value.
pub open spec fn line_views(lines: Seq<DiffLine>) -> Seq<DiffLineView> {
    lines.map_values(|l: DiffLine| l@)
}

/// A line as it is written into a patch: the mark of an added, a removed or an
/// unchanged line stands in front of the text, any other mark is left out.
pub open spec fn rendered_line(line: DiffLineView) -> Seq<char> {
    if line.origin == '+' || line.origin == '-' || line.origin == ' ' {
        seq![line.origin] + line.content
    } else {
        line.content
    }
}

/// The lines written one after the other.
pub open spec fn rendered(lines: Seq<DiffLineView>) -> Seq<char>
    decreases lines.len(),
{
    if lines.len() == 0 {
        Seq::empty()
    } else {
        rendered(lines.drop_last()) + rendered_line(lines.last())
    }
}

/// Writes the lines of a patch one after the other.
pub fn render_diff(lines: &Vec<DiffLine>) -> (text: String)
    ensures
        text@ == rendered(line_views(lines@)),
{
    let ghost all = line_views(lines@);
    let mut text = String::new();
    let mut i: usize = 0;
    proof {
        reveal_strlit("+");
        reveal_strlit("-");
        reveal_strlit(" ");
        assert(text@ =~= rendered(all.take(0)));
    }
    while i < lines.len()
        invariant
            i <= lines.len(),
            all == line_views(lines@),
            text@ == rendered(all.take(i as int)),
            "+"@ == seq!['+'],
            "-"@ == seq!['-'],
            " "@ == seq![' '],
        decreases lines.len() - i,
    {
        let ghost before = text@;
        let origin = lines[i].origin;
        if origin == '+' {
            text.append("+");
        } else if origin == '-' {
            text.append("-");
        } else if origin == ' ' {
            text.append(" ");
        }
        text.append(lines[i].content.as_str());
        proof {
            assert(all.take(i + 1).drop_last() =~= all.take(i as int));
            assert(text@ =~= before + rendered_line(all[i as int]));
        }
        i += 1;
    }
    assert(all.take(i as int) =~= all);
    text
}

/// The changes of some files as the backend computed them: how many files
/// changed, and the lines of the patch.
#[derive(Debug)]
pub struct Patch {
    pub files_changed: usize,
    pub lines: Vec<DiffLine>,
}

/// The mathematical value of a [`Patch`].
pub struct PatchView {
    pub files_changed: usize,
    pub lines: Seq<DiffLineView>,
}

impl View for Patch {
    type V = PatchView;

    open spec fn view(&self) -> PatchView {
        PatchView { files_changed: self.files_changed, lines: line_views(self.lines@) }
    }
}

/// The changes of the whole worktree that are not staged, as one patch.
pub fn git_diff(unstaged: &Patch) -> (text: String)
    ensures
        text@ == rendered(unstaged@.lines),
{
    render_diff(&unstaged.lines)
}

/// Whether the staged changes of a file have to be looked at: where none of
/// its changes are unstaged.
pub fn wants_staged(unstaged: &Patch) -> (wanted: bool)
    ensures
        wanted == (unstaged@.files_changed == 0),
{
    unstaged.files_changed == 0
}

/// The changes of one file: those that are not staged, or the staged ones
/// where there are no others.
pub open spec fn file_diff(file_path: Seq<char>, unstaged: PatchView, staged: PatchView) -> DiffView {
    DiffView {
        file_path,
        diff_text: if unstaged.files_changed == 0 {
            rendered(staged.lines)
        } else {
            rendered(unstaged.lines)
        },
    }
}

/// The changes of the file at `file_path`. `staged` counts only where
/// `unstaged` holds no changed file.
pub fn git_diff_file(file_path: String, unstaged: &Patch, staged: &Patch) -> (diff: DiffOutput)
    ensures
        diff@ == file_diff(file_path@, unstaged@, staged@),
{
    let diff_text = if wants_staged(unstaged) {
        render_diff(&staged.lines)
    } else {
        render_diff(&unstaged.lines)
    };
    DiffOutput { file_path, diff_text }
}

/// The two patches of one file.
#[derive(Debug)]
pub struct FileChange {
    pub path: String,
    pub unstaged: Patch,
    pub staged: Patch,
}

/// The mathematical value of a [`FileChange`].
pub struct FileChangeView {
    pub path: Seq<char>,
    pub unstaged: PatchView,
    pub staged: PatchView,
}

impl View for FileChange {
    type V = FileChangeView;

    open spec fn view(&self) -> FileChangeView {
        FileChangeView { path: self.path@, unstaged: self.unstaged@, staged: self.staged@ }
    }
}

/// The changes of a list, each by its value.
pub open spec fn change_views(list: Seq<FileChange>) -> Seq<FileChangeView> {
    list.map_values(|c: FileChange| c@)
}

/// The patches of a list, each by its value.
pub open spec fn diff_views(list: Seq<DiffOutput>) -> Seq<DiffView> {
    list.map_values(|d: DiffOutput| d@)
}

/// The line that parts the staged changes of a file from the others.
pub open spec fn staged_heading() -> Seq<char> {
    "\n--- Staged changes ---\n"@
}

/// Both patches of a file in one text: the unstaged changes, then the staged
/// ones under their heading. A patch without a changed file is left out, and
/// so is the heading where only staged changes are shown.
pub open spec fn combined(change: FileChangeView) -> DiffView {
    let first = if change.unstaged.files_changed > 0 {
        rendered(change.unstaged.lines)
    } else {
        Seq::empty()
    };
    let second = if change.staged.files_changed > 0 {
        (if change.unstaged.files_changed > 0 {
            staged_heading()
        } else {
            Seq::empty()
        }) + rendered(change.staged.lines)
    } else {
        Seq::empty()
    };
    DiffView { file_path: change.path, diff_text: first + second }
}

/// The patches that show something, in the order of the changes.
pub open spec fn shown_diffs(changes: Seq<FileChangeView>) -> Seq<DiffView> {
    changes.map_values(|c: FileChangeView| combined(c)).filter(
        |d: DiffView| d.diff_text.len() > 0,
    )
}

/// The order of patches: by the path of their file.
pub open spec fn path_order() -> spec_fn(DiffView, DiffView) -> bool {
    |a: DiffView, b: DiffView| text_le(a.file_path, b.file_path)
}

/// The order by path compares any two patches, and carries over from one
/// patch to a third by way of a second.
pub proof fn lemma_path_order_is_total()
    ensures
        is_total_preorder(path_order()),
{
    let le = path_order();
    assert forall|a: DiffView, b: DiffView| #[trigger] le(a, b) || le(b, a) by {
        lemma_bytes_le_total(encode_utf8(a.file_path), encode_utf8(b.file_path));
    }
    assert forall|a: DiffView, b: DiffView, c: DiffView| #[trigger] le(a, b) && #[trigger] le(
        b,
        c,
    ) implies le(a, c) by {
        lemma_bytes_le_transitive(
            encode_utf8(a.file_path),
            encode_utf8(b.file_path),
            encode_utf8(c.file_path),
        );
    }
}

/// The changes of all files are listed by path, each patch that shows
/// something once.
pub proof fn lemma_diffs_are_ordered(changes: Seq<FileChangeView>)
    ensures
        is_ordered(in_order(shown_diffs(changes), path_order()), path_order()),
        in_order(shown_diffs(changes), path_order()).to_multiset() == shown_diffs(
            changes,
        ).to_multiset(),
{
    lemma_path_order_is_total();
    lemma_in_order_sorts(shown_diffs(changes), path_order());
}

fn combine(change: &FileChange) -> (diff: DiffOutput)
    ensures
        diff@ == combined(change@),
{
    let mut text = String::new();
    if change.unstaged.files_changed > 0 {
        text.append(render_diff(&change.unstaged.lines).as_str());
    }
    if change.staged.files_changed > 0 {
        if change.unstaged.files_changed > 0 {
            text.append("\n--- Staged changes ---\n");
        }
        text.append(render_diff(&change.staged.lines).as_str());
    }
    assert(text@ =~= combined(change@).diff_text);
    DiffOutput { file_path: change.path.clone(), diff_text: text }
}

/// Puts patches into the order of their paths.
pub fn sort_diffs(diffs: &Vec<DiffOutput>) -> (sorted: Vec<DiffOutput>)
    ensures
        diff_views(sorted@) == in_order(diff_views(diffs@), path_order()),
{
    let ghost all = diff_views(diffs@);
    let mut sorted: Vec<DiffOutput> = Vec::new();
    let mut i: usize = 0;
    assert(diff_views(sorted@) =~= in_order(all.take(0), path_order()));
    while i < diffs.len()
        invariant
            i <= diffs.len(),
            all == diff_views(diffs@),
            diff_views(sorted@) == in_order(all.take(i as int), path_order()),
        decreases diffs.len() - i,
    {
        let diff = diffs[i].clone();
        let ghost before = diff_views(sorted@);
        let mut place: usize = sorted.len();
        while place > 0 && !text_at_most(
            sorted[place - 1].file_path.as_str(),
            diff.file_path.as_str(),
        )
            invariant
                place <= sorted@.len(),
                before == diff_views(sorted@),
                forall|j: int| place <= j < before.len() ==> !path_order()(before[j], diff@),
            decreases place,
        {
            place -= 1;
        }
        proof {
            lemma_inserted(before, diff@, path_order(), place as int);
            assert(all.take(i + 1).drop_last() =~= all.take(i as int));
        }
        sorted.insert(place, diff);
        assert(diff_views(sorted@) =~= before.insert(place as int, all[i as int]));
        i += 1;
    }
    assert(all.take(i as int) =~= all);
    sorted
}

/// The changes of all files of a worktree, staged or not: one patch for each
/// file that shows something, by path.
pub fn git_diff_all(changes: &Vec<FileChange>) -> (diffs: Vec<DiffOutput>)
    ensures
        diff_views(diffs@) == in_order(shown_diffs(change_views(changes@)), path_order()),
{
    let ghost all = change_views(changes@);
    let ghost combine_all = |c: FileChangeView| combined(c);
    let ghost wanted = |d: DiffView| d.diff_text.len() > 0;
    let mut shown: Vec<DiffOutput> = Vec::new();
    let mut i: usize = 0;
    proof {
        reveal(Seq::filter);
        assert(diff_views(shown@) =~= shown_diffs(all.take(0)));
    }
    while i < changes.len()
        invariant
            i <= changes.len(),
            all == change_views(changes@),
            combine_all == |c: FileChangeView| combined(c),
            wanted == |d: DiffView| d.diff_text.len() > 0,
            diff_views(shown@) == shown_diffs(all.take(i as int)),
        decreases changes.len() - i,
    {
        let diff = combine(&changes[i]);
        proof {
            let seen = all.take(i as int).map_values(combine_all);
            seen.lemma_filter_push(combined(all[i as int]), wanted);
            assert(all.take(i + 1).map_values(combine_all) =~= seen.push(combined(all[i as int])));
        }
        if !diff.diff_text.as_str().is_empty() {
            let ghost before = diff_views(shown@);
            shown.push(diff);
            assert(diff_views(shown@) =~= before.push(combined(all[i as int])));
        }
        i += 1;
    }
    assert(all.take(i as int) =~= all);
    sort_diffs(&shown)
}

/// The paths that a list of changes names: for each change the new path and
/// the old one, where it has them.
pub open spec fn named_paths(deltas: Seq<(Option<Seq<char>>, Option<Seq<char>>)>) -> Seq<Seq<char>>
    decreases deltas.len(),
{
    if deltas.len() == 0 {
        Seq::empty()
    } else {
        let rest = named_paths(deltas.drop_last());
        let with_new = match deltas.last().0 {
            Some(path) => rest.push(path),
            None => rest,
        };
        match deltas.last().1 {
            Some(path) => with_new.push(path),
            None => with_new,
        }
    }
}

/// The new and the old path of each change of a list.
pub open spec fn delta_views(deltas: Seq<(Option<String>, Option<String>)>) -> Seq<
    (Option<Seq<char>>, Option<Seq<char>>),
> {
    deltas.map_values(|d: (Option<String>, Option<String>)| (option_text(d.0), option_text(d.1)))
}

fn contains_text(list: &Vec<String>, text: &str) -> (found: bool)
    ensures
        found == texts(list@).contains(text@),
{
    let mut i: usize = 0;
    while i < list.len()
        invariant
            i <= list.len(),
            forall|j: int| 0 <= j < i ==> texts(list@)[j] != text@,
        decreases list.len() - i,
    {
        if same_text(list[i].as_str(), text) {
            assert(texts(list@)[i as int] == text@);
            return true;
        }
        i += 1;
    }
    false
}

fn add_path(paths: &mut Vec<String>, path: &Option<String>, Ghost(named): Ghost<Seq<Seq<char>>>)
    requires
        texts(old(paths)@).no_duplicates(),
        texts(old(paths)@).to_set() == named.to_set(),
    ensures
        texts(final(paths)@).no_duplicates(),
        texts(final(paths)@).to_set() == (match path {
            Some(p) => named.push(p@),
            None => named,
        }).to_set(),
{
    match path {
        Some(p) => {
            let ghost before = texts(paths@);
            if !contains_text(paths, p.as_str()) {
                paths.push(p.clone());
                assert(texts(paths@) =~= before.push(p@));
                assert(texts(paths@).to_set() =~= named.push(p@).to_set()) by {
                    assert forall|t: Seq<char>| texts(paths@).contains(t) <==> named.push(
                        p@,
                    ).contains(t) by {
                        if texts(paths@).contains(t) {
                            let k = choose|k: int| 0 <= k < paths@.len() && texts(paths@)[k] == t;
                            if k < before.len() {
                                assert(before.contains(t));
                                assert(named.to_set().contains(t));
                                let m = choose|m: int| 0 <= m < named.len() && named[m] == t;
                                assert(named.push(p@)[m] == t);
                            } else {
                                assert(named.push(p@)[named.len() as int] == t);
                            }
                        }
                        if named.push(p@).contains(t) {
                            let m = choose|m: int| 0 <= m < named.len() + 1 && named.push(p@)[m] == t;
                            if m < named.len() {
                                assert(named.contains(t));
                                assert(before.to_set().contains(t));
                                let k = choose|k: int| 0 <= k < before.len() && before[k] == t;
                                assert(texts(paths@)[k] == t);
                            } else {
                                assert(texts(paths@)[before.len() as int] == t);
                            }
                        }
                    }
                }
            } else {
                assert(texts(paths@).to_set() =~= named.push(p@).to_set()) by {
                    assert forall|t: Seq<char>| before.contains(t) <==> named.push(p@).contains(
                        t,
                    ) by {
                        if before.contains(t) {
                            assert(named.to_set().contains(t));
                            let m = choose|m: int| 0 <= m < named.len() && named[m] == t;
                            assert(named.push(p@)[m] == t);
                        }
                        if named.push(p@).contains(t) {
                            let m = choose|m: int| 0 <= m < named.len() + 1 && named.push(p@)[m] == t;
                            if m < named.len() {
                                assert(named.contains(t));
                                assert(before.to_set().contains(t));
                            }
                        }
                    }
                }
            }
        },
        None => {},
    }
}

/// The files that changed, from the changes that are not staged and the
/// staged ones: each path that a change names, once.
pub fn changed_files(
    unstaged: &Vec<(Option<String>, Option<String>)>,
    staged: &Vec<(Option<String>, Option<String>)>,
) -> (paths: Vec<String>)
    ensures
        texts(paths@).no_duplicates(),
        texts(paths@).to_set() == (named_paths(delta_views(unstaged@)) + named_paths(
            delta_views(staged@),
        )).to_set(),
{
    let mut paths: Vec<String> = Vec::new();
    let ghost first = delta_views(unstaged@);
    let ghost second = delta_views(staged@);
    let mut i: usize = 0;
    assert(texts(paths@).to_set() =~= named_paths(first.take(0)).to_set());
    while i < unstaged.len()
        invariant
            i <= unstaged.len(),
            first == delta_views(unstaged@),
            texts(paths@).no_duplicates(),
            texts(paths@).to_set() == named_paths(first.take(i as int)).to_set(),
        decreases unstaged.len() - i,
    {
        let ghost seen = named_paths(first.take(i as int));
        proof {
            assert(first.take(i + 1).drop_last() =~= first.take(i as int));
        }
        add_path(&mut paths, &unstaged[i].0, Ghost(seen));
        let ghost with_new = match first[i as int].0 {
            Some(p) => seen.push(p),
            None => seen,
        };
        add_path(&mut paths, &unstaged[i].1, Ghost(with_new));
        i += 1;
    }
    assert(first.take(i as int) =~= first);
    let ghost base = named_paths(first);
    let mut k: usize = 0;
    assert(base + named_paths(second.take(0)) =~= base);
    while k < staged.len()
        invariant
            k <= staged.len(),
            second == delta_views(staged@),
            texts(paths@).no_duplicates(),
            texts(paths@).to_set() == (base + named_paths(second.take(k as int))).to_set(),
        decreases staged.len() - k,
    {
        let ghost seen = named_paths(second.take(k as int));
        proof {
            assert(second.take(k + 1).drop_last() =~= second.take(k as int));
        }
        add_path(&mut paths, &staged[k].0, Ghost(base + seen));
        let ghost with_new = match second[k as int].0 {
            Some(p) => seen.push(p),
            None => seen,
        };
        proof {
            match second[k as int].0 {
                Some(p) => {
                    assert((base + seen).push(p) =~= base + with_new);
                },
                None => {},
            }
        }
        add_path(&mut paths, &staged[k].1, Ghost(base + with_new));
        proof {
            match second[k as int].1 {
                Some(p) => {
                    assert((base + with_new).push(p) =~= base + with_new.push(p));
                },
                None => {},
            }
        }
        k += 1;
    }
    assert(second.take(k as int) =~= second);
    paths
}

/// The command that pushes the branch of the worktree to its upstream.
pub fn push_command(worktree_path: &str) -> (command: CommandLine)
    ensures
        command@ == git(worktree_path@, seq!["push"@]),
{
    let mut args: Vec<String> = Vec::new();
    args.push(String::from_str("push"));
    assert(texts(args@) =~= seq!["push"@]);
    git_command(worktree_path, args)
}

/// What the run of the push means: done, or the error that the backend gave.
pub open spec fn pushed(ran: CommandOutcomeView) -> Result<(), ErrorView> {
    match ran {
        CommandOutcomeView::NotStarted(why) => Err(
            failure(ErrorKind::VcsOperationFailed, "Failed to run git push: "@, why),
        ),
        CommandOutcomeView::Exited { success, stdout, stderr } => if success {
            Ok(())
        } else {
            Err(failure(ErrorKind::VcsOperationFailed, "git push failed: "@, stderr))
        },
    }
}

/// Says what the run of the push command means.
pub fn git_push(ran: &CommandOutcome) -> (done: Result<(), AppError>)
    ensures
        outcome(done) == pushed(ran@),
{
    match ran {
        CommandOutcome::NotStarted(why) => Err(
            AppError::with_detail(
                ErrorKind::VcsOperationFailed,
                "Failed to run git push: ",
                why.as_str(),
            ),
        ),
        CommandOutcome::Exited { success, stdout, stderr } => {
            if *success {
                Ok(())
            } else {
                Err(
                    AppError::with_detail(
                        ErrorKind::VcsOperationFailed,
                        "git push failed: ",
                        stderr.as_str(),
                    ),
                )
            }
        },
    }
}

/// The command that prints the file at `file_path` as it is at `ref_name`.
pub fn show_command(worktree_path: &str, file_path: &str, ref_name: &str) -> (command: CommandLine)
    ensures
        command@ == git(worktree_path@, seq!["show"@, ref_name@ + seq![':'] + file_path@]),
{
    proof {
        reveal_strlit(":");
    }
    let mut target = String::from_str(ref_name);
    target.append(":");
    target.append(file_path);
    assert(":"@ =~= seq![':']);
    let mut args: Vec<String> = Vec::new();
    args.push(String::from_str("show"));
    args.push(target);
    assert(texts(args@) =~= seq!["show"@, ref_name@ + seq![':'] + file_path@]);
    git_command(worktree_path, args)
}

/// The content of a file at a commit, from the run of the command that prints
/// it: what was printed, or nothing where the backend refused, as it does for
/// a file that the commit does not hold.
pub open spec fn content_at_ref(ran: CommandOutcomeView) -> Result<Seq<char>, ErrorView> {
    match ran {
        CommandOutcomeView::NotStarted(why) => Err(
            failure(ErrorKind::VcsOperationFailed, "Failed to run git show: "@, why),
        ),
        CommandOutcomeView::Exited { success, stdout, stderr } => if success {
            Ok(stdout)
        } else {
            Ok(Seq::empty())
        },
    }
}

/// Says what the run of the command that prints a file at a commit means.
pub fn git_file_content(ran: &CommandOutcome) -> (content: Result<String, AppError>)
    ensures
        outcome(content) == content_at_ref(ran@),
{
    match ran {
        CommandOutcome::NotStarted(why) => Err(
            AppError::with_detail(
                ErrorKind::VcsOperationFailed,
                "Failed to run git show: ",
                why.as_str(),
            ),
        ),
        CommandOutcome::Exited { success, stdout, stderr } => {
            if *success {
                Ok(stdout.clone())
            } else {
                Ok(String::new())
            }
        },
    }
}

/// A list of patches.
#[derive(Debug)]
pub struct DiffList {
    pub diffs: Vec<DiffOutput>,
}

impl View for DiffList {
    type V = Seq<DiffView>;

    open spec fn view(&self) -> Seq<DiffView> {
        diff_views(self.diffs@)
    }
}

/// The range of commits from where the branch left `base_branch` to `HEAD`.
pub open spec fn since_base(base_branch: Seq<char>) -> Seq<char> {
    base_branch + "...HEAD"@
}

/// The names of the files that a list of names holds, one to a line: each
/// line without the white space at its ends, but for the lines that are then empty.
pub open spec fn changed_names(printed: Seq<char>) -> Seq<Seq<char>> {
    non_empty(lines_of(printed).map_values(|line: Seq<char>| trimmed(line)))
}

/// Reads the names of the files out of a list of names, one to a line.
pub fn parse_names(printed: &str) -> (names: Vec<String>)
    ensures
        texts(names@) == changed_names(printed@),
{
    let lines = split_lines(printed);
    let ghost all = texts(lines@).map_values(|line: Seq<char>| trimmed(line));
    let ghost filled = |t: Seq<char>| t.len() > 0;
    let mut names: Vec<String> = Vec::new();
    let mut i: usize = 0;
    proof {
        reveal(Seq::filter);
        assert(texts(names@) =~= non_empty(all.take(0)));
    }
    while i < lines.len()
        invariant
            i <= lines.len(),
            all == texts(lines@).map_values(|line: Seq<char>| trimmed(line)),
            filled == |t: Seq<char>| t.len() > 0,
            texts(names@) == non_empty(all.take(i as int)),
        decreases lines.len() - i,
    {
        proof {
            all.take(i as int).lemma_filter_push(all[i as int], filled);
            assert(all.take(i + 1) =~= all.take(i as int).push(all[i as int]));
        }
        let name = trim_text(lines[i].as_str());
        if !name.as_str().is_empty() {
            let ghost before = texts(names@);
            names.push(name);
            assert(texts(names@) =~= before.push(all[i as int]));
        }
        i += 1;
    }
    assert(all.take(i as int) =~= all);
    names
}

/// Where the comparison of a branch with its base stands.
#[derive(Clone, Copy, Debug, PartialEq, Eq, Structural)]
pub enum BaseDiffStage {
    /// Asked the backend for the names of the files that changed.
    ListNames,
    /// Asked the backend for the changes of one file.
    DiffFile,
}

/// The comparison of a branch with its base, under way.
#[derive(Debug)]
pub struct BaseDiff {
    pub worktree_path: String,
    pub base_branch: String,
    pub stage: BaseDiffStage,
    /// The files that changed, once they are known.
    pub names: Vec<String>,
    /// How many of the files have been looked at.
    pub cursor: usize,
    /// The patches of the files that have been looked at.
    pub found: Vec<DiffOutput>,
}

/// The mathematical value of a [`BaseDiff`].
pub struct BaseDiffView {
    pub worktree_path: Seq<char>,
    pub base_branch: Seq<char>,
    pub stage: BaseDiffStage,
    pub names: Seq<Seq<char>>,
    pub cursor: usize,
    pub found: Seq<DiffView>,
}

impl View for BaseDiff {
    type V = BaseDiffView;

    open spec fn view(&self) -> BaseDiffView {
        BaseDiffView {
            worktree_path: self.worktree_path@,
            base_branch: self.base_branch@,
            stage: self.stage,
            names: texts(self.names@),
            cursor: self.cursor,
            found: diff_views(self.found@),
        }
    }
}

impl BaseDiffView {
    /// The command that lists the names of the files that changed.
    pub open spec fn names_command(self) -> CommandLineView {
        git(self.worktree_path, seq!["diff"@, "--name-only"@, since_base(self.base_branch)])
    }

    /// The command that shows the changes of the file `name`.
    pub open spec fn file_command(self, name: Seq<char>) -> CommandLineView {
        git(self.worktree_path, seq!["diff"@, since_base(self.base_branch), "--"@, name])
    }

    /// The action whose reply the comparison waits for.
    pub open spec fn awaited(self) -> HostActionView {
        match self.stage {
            BaseDiffStage::ListNames => HostActionView::Run(self.names_command()),
            BaseDiffStage::DiffFile => HostActionView::Run(
                self.file_command(
                    if self.cursor < self.names.len() {
                        self.names[self.cursor as int]
                    } else {
                        Seq::empty()
                    },
                ),
            ),
        }
    }

    /// The look at the next file, or the end where every file has been looked at.
    pub open spec fn next(self) -> ProgressView<BaseDiffView, Seq<DiffView>> {
        if self.cursor < self.names.len() {
            let machine = BaseDiffView { stage: BaseDiffStage::DiffFile, ..self };
            ProgressView::Continue(machine, machine.awaited())
        } else {
            ProgressView::Done(Ok(self.found))
        }
    }

    /// What the comparison does on a reply.
    ///
    /// The names of the files that changed since the base are read first; the
    /// backend has to succeed at that. Then the changes of each file are
    /// asked for in turn, and kept where the backend prints any, however it
    /// exits. A reply of another kind than the one awaited changes nothing.
    pub open spec fn advance(self, reply: HostReplyView) -> ProgressView<
        BaseDiffView,
        Seq<DiffView>,
    > {
        match (self.stage, reply) {
            (
                BaseDiffStage::ListNames,
                HostReplyView::Ran(CommandOutcomeView::NotStarted(why)),
            ) => ProgressView::Done(
                Err(failure(ErrorKind::VcsOperationFailed, "Failed to run git diff: "@, why)),
            ),
            (
                BaseDiffStage::ListNames,
                HostReplyView::Ran(CommandOutcomeView::Exited { success, stdout, stderr }),
            ) => if success {
                (BaseDiffView { names: changed_names(stdout), cursor: 0, ..self }).next()
            } else {
                ProgressView::Done(
                    Err(failure(ErrorKind::VcsOperationFailed, "git diff failed: "@, stderr)),
                )
            },
            (
                BaseDiffStage::DiffFile,
                HostReplyView::Ran(CommandOutcomeView::NotStarted(why)),
            ) => ProgressView::Done(
                Err(failure(ErrorKind::VcsOperationFailed, "Failed to get file diff: "@, why)),
            ),
            (
                BaseDiffStage::DiffFile,
                HostReplyView::Ran(CommandOutcomeView::Exited { success, stdout, stderr }),
            ) => if self.cursor < self.names.len() {
                (BaseDiffView {
                    cursor: (self.cursor + 1) as usize,
                    found: if stdout.len() > 0 {
                        self.found.push(
                            DiffView { file_path: self.names[self.cursor as int], diff_text: stdout },
                        )
                    } else {
                        self.found
                    },
                    ..self
                }).next()
            } else {
                ProgressView::Done(Ok(self.found))
            },
            _ => ProgressView::Continue(self, self.awaited()),
        }
    }
}

fn diff_failure(prefix: &str, why: &String) -> (next: Progress<BaseDiff, DiffList>)
    ensures
        next@ == ProgressView::<BaseDiffView, Seq<DiffView>>::Done(
            Err(failure(ErrorKind::VcsOperationFailed, prefix@, why@)),
        ),
{
    Progress::Done(Err(AppError::with_detail(ErrorKind::VcsOperationFailed, prefix, why.as_str())))
}

impl BaseDiff {
    /// The action whose reply the comparison waits for.
    pub fn awaited(&self) -> (action: HostAction)
        ensures
            action@ == self@.awaited(),
    {
        let range = String::from_str(self.base_branch.as_str()).concat("...HEAD");
        let mut args: Vec<String> = Vec::new();
        args.push(String::from_str("diff"));
        match self.stage {
            BaseDiffStage::ListNames => {
                args.push(String::from_str("--name-only"));
                args.push(range);
                assert(texts(args@) =~= self@.names_command().args);
            },
            BaseDiffStage::DiffFile => {
                args.push(range);
                args.push(String::from_str("--"));
                if self.cursor < self.names.len() {
                    args.push(self.names[self.cursor].clone());
                    assert(texts(args@) =~= self@.file_command(
                        self@.names[self.cursor as int],
                    ).args);
                } else {
                    args.push(String::new());
                    assert(texts(args@) =~= self@.file_command(Seq::empty()).args);
                }
            },
        }
        HostAction::Run(git_command(self.worktree_path.as_str(), args))
    }

    fn next(self) -> (next: Progress<BaseDiff, DiffList>)
        ensures
            next@ == self@.next(),
    {
        if self.cursor < self.names.len() {
            let machine = BaseDiff { stage: BaseDiffStage::DiffFile, ..self };
            let action = machine.awaited();
            Progress::Continue(machine, action)
        } else {
            Progress::Done(Ok(DiffList { diffs: self.found }))
        }
    }

    /// Takes the host's reply and says how the comparison goes on.
    pub fn advance(self, reply: &HostReply) -> (next: Progress<BaseDiff, DiffList>)
        ensures
            next@ == self@.advance(reply@),
    {
        match (self.stage, reply) {
            (BaseDiffStage::ListNames, HostReply::Ran(CommandOutcome::NotStarted(why))) => {
                diff_failure("Failed to run git diff: ", why)
            },
            (
                BaseDiffStage::ListNames,
                HostReply::Ran(CommandOutcome::Exited { success, stdout, stderr }),
            ) => {
                if *success {
                    let machine = BaseDiff {
                        names: parse_names(stdout.as_str()),
                        cursor: 0,
                        ..self
                    };
                    machine.next()
                } else {
                    diff_failure("git diff failed: ", stderr)
                }
            },
            (BaseDiffStage::DiffFile, HostReply::Ran(CommandOutcome::NotStarted(why))) => {
                diff_failure("Failed to get file diff: ", why)
            },
            (
                BaseDiffStage::DiffFile,
                HostReply::Ran(CommandOutcome::Exited { success, stdout, stderr }),
            ) => {
                if self.cursor < self.names.len() {
                    let mut machine = self;
                    if !stdout.as_str().is_empty() {
                        let ghost before = diff_views(machine.found@);
                        let diff = DiffOutput {
                            file_path: machine.names[machine.cursor].clone(),
                            diff_text: stdout.clone(),
                        };
                        machine.found.push(diff);
                        assert(diff_views(machine.found@) =~= before.push(
                            DiffView {
                                file_path: texts(machine.names@)[machine.cursor as int],
                                diff_text: stdout@,
                            },
                        ));
                    }
                    machine.cursor = machine.cursor + 1;
                    machine.next()
                } else {
                    Progress::Done(Ok(DiffList { diffs: self.found }))
                }
            },
            _ => {
                let action = self.awaited();
                Progress::Continue(self, action)
            },
        }
    }
}

/// Starts the comparison of the branch of the worktree at `worktree_path`
/// with the branch `base_branch` that it came from.
pub fn git_diff_base(worktree_path: String, base_branch: String) -> (started: Progress<
    BaseDiff,
    DiffList,
>)
    ensures
        started@ == ({
            let machine = BaseDiffView {
                worktree_path: worktree_path@,
                base_branch: base_branch@,
                stage: BaseDiffStage::ListNames,
                names: Seq::empty(),
                cursor: 0,
                found: Seq::empty(),
            };
            ProgressView::<BaseDiffView, Seq<DiffView>>::Continue(machine, machine.awaited())
        }),
{
    let machine = BaseDiff {
        worktree_path,
        base_branch,
        stage: BaseDiffStage::ListNames,
        names: Vec::new(),
        cursor: 0,
        found: Vec::new(),
    };
    assert(machine@.names =~= Seq::empty());
    assert(machine@.found =~= Seq::empty());
    let action = machine.awaited();
    Progress::Continue(machine, action)
}

} // verus!

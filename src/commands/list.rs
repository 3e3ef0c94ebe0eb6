//! The `list` command: managed worktrees from the store merged with the ones
//! that only git knows, with their git status, as a table or porcelain lines.
use vstd::prelude::*;

use super::{git_err, store_err, CommandError};
use crate::git::GitWorktreeEntry;
use crate::output::porcelain::{format_porcelain, PorcelainRecord};
use crate::output::table::Table;
use crate::state::{Database, Worktree};
use crate::text::{append_str, decimal, join, push_char, u64_to_decimal};

verus! {

/// One row of the listing.
#[derive(Debug)]
pub struct ListEntry {
    pub name: String,
    pub branch: String,
    pub path: String,
    pub base_branch: Option<String>,
    /// Whether the store tracks it.
    pub managed: bool,
    pub tags: Vec<String>,
}

/// The git status of a worktree.
#[derive(Debug, Clone, Copy)]
pub struct GitStatus {
    pub ahead: Option<usize>,
    pub behind: Option<usize>,
    pub dirty: usize,
}

/// One worktree as the machine-readable listings show it.
#[derive(Debug)]
pub struct WorktreeJson {
    pub name: String,
    pub branch: String,
    pub path: String,
    pub status: String,
    pub ahead: Option<usize>,
    pub behind: Option<usize>,
    pub dirty: usize,
    pub managed: bool,
    pub tags: Vec<String>,
}

/// `+a/-b` when both counts are known, else `-`.
pub open spec fn ahead_behind_text(ahead: Option<usize>, behind: Option<usize>) -> Seq<char> {
    match (ahead, behind) {
        (Some(a), Some(b)) => seq!['+'] + decimal(a as nat) + seq!['/', '-'] + decimal(b as nat),
        _ => seq!['-'],
    }
}

/// `clean` for no dirty path, else `~` and the count.
pub open spec fn dirty_text(dirty: usize) -> Seq<char> {
    if dirty == 0 {
        "clean"@
    } else {
        seq!['~'] + decimal(dirty as nat)
    }
}

/// Ahead/behind as shown in the table.
pub fn format_ahead_behind(ahead: Option<usize>, behind: Option<usize>) -> (r: String)
    ensures
        r@ == ahead_behind_text(ahead, behind),
{
    match (ahead, behind) {
        (Some(a), Some(b)) => {
            let mut s = String::new();
            push_char(&mut s, '+');
            let da = u64_to_decimal(a as u64);
            append_str(&mut s, da.as_str());
            push_char(&mut s, '/');
            push_char(&mut s, '-');
            let db = u64_to_decimal(b as u64);
            append_str(&mut s, db.as_str());
            assert(s@ =~= ahead_behind_text(ahead, behind));
            s
        },
        _ => {
            let mut s = String::new();
            push_char(&mut s, '-');
            assert(s@ =~= seq!['-']);
            s
        },
    }
}

/// The dirty count as shown in the table.
pub fn format_dirty(dirty: usize) -> (r: String)
    ensures
        r@ == dirty_text(dirty),
{
    if dirty == 0 {
        String::from_str("clean")
    } else {
        let mut s = String::new();
        push_char(&mut s, '~');
        let d = u64_to_decimal(dirty as u64);
        append_str(&mut s, d.as_str());
        assert(s@ =~= dirty_text(dirty));
        s
    }
}

/// The machine-readable form of an entry with its status.
pub fn build_worktree_json(entry: &ListEntry, status: GitStatus) -> (r: WorktreeJson)
    ensures
        r.name == entry.name && r.branch == entry.branch && r.path == entry.path,
        r.status@ == dirty_text(status.dirty),
        r.ahead == status.ahead && r.behind == status.behind && r.dirty == status.dirty,
        r.managed == entry.managed,
        r.tags@ == entry.tags@,
{
    WorktreeJson {
        name: entry.name.clone(),
        branch: entry.branch.clone(),
        path: entry.path.clone(),
        status: format_dirty(status.dirty),
        ahead: status.ahead,
        behind: status.behind,
        dirty: status.dirty,
        managed: entry.managed,
        tags: crate::config::copy_strings(&entry.tags),
    }
}

/// A count as a porcelain field: the number, or `-` when unknown.
pub open spec fn count_field(c: Option<usize>) -> Seq<char> {
    match c {
        Some(v) => decimal(v as nat),
        None => seq!['-'],
    }
}

fn count_text(c: Option<usize>) -> (r: String)
    ensures
        r@ == count_field(c),
{
    match c {
        Some(v) => u64_to_decimal(v as u64),
        None => {
            let mut s = String::new();
            push_char(&mut s, '-');
            assert(s@ =~= seq!['-']);
            s
        },
    }
}

fn bool_text(b: bool) -> (r: String)
    ensures
        r@ == (if b { "true"@ } else { "false"@ }),
{
    if b { String::from_str("true") } else { String::from_str("false") }
}

/// The porcelain fields of a listed worktree, in order.
pub open spec fn worktree_fields(w: WorktreeJson) -> Seq<Seq<char>> {
    seq![w.name@, w.branch@, w.path@, w.status@, count_field(w.ahead), count_field(w.behind), decimal(w.dirty as nat),
        if w.managed { "true"@ } else { "false"@ }]
}

impl WorktreeJson {
    /// The fields `name:branch:path:status:ahead:behind:dirty:managed`.
    pub fn fields(&self) -> (r: Vec<String>)
        ensures
            crate::text::views(r@) == worktree_fields(*self),
    {
        let mut v: Vec<String> = Vec::new();
        v.push(self.name.clone());
        v.push(self.branch.clone());
        v.push(self.path.clone());
        v.push(self.status.clone());
        v.push(count_text(self.ahead));
        v.push(count_text(self.behind));
        v.push(u64_to_decimal(self.dirty as u64));
        v.push(bool_text(self.managed));
        assert(crate::text::views(v@) =~= worktree_fields(*self));
        v
    }
}

impl PorcelainRecord for WorktreeJson {
    fn porcelain_fields(&self) -> Vec<String> {
        self.fields()
    }
}

/// An unmanaged entry made from what git reports of a worktree.
pub open spec fn from_git(g: GitWorktreeEntry, e: ListEntry) -> bool {
    &&& e.name == g.name
    &&& e.branch@ == (match g.branch {
        Some(b) => b@,
        None => Seq::<char>::empty(),
    })
    &&& e.path == g.path
    &&& e.base_branch is None
    &&& !e.managed
    &&& e.tags@.len() == 0
}

/// The worktree is not among the managed ones, by canonical path.
pub open spec fn unmanaged_in(g: GitWorktreeEntry, managed_paths: Seq<Seq<char>>) -> bool {
    !managed_paths.contains(g.path@)
}

fn contains_text(list: &Vec<String>, s: &String) -> (r: bool)
    ensures
        r == crate::text::views(list@).contains(s@),
{
    let mut i: usize = 0;
    while i < list.len()
        invariant
            i <= list@.len(),
            forall|k: int| 0 <= k < i ==> (#[trigger] list@[k])@ != s@,
        decreases list@.len() - i,
    {
        if list[i].eq(s) {
            assert(crate::text::views(list@)[i as int] == s@);
            return true;
        }
        i = i + 1;
    }
    proof {
        if crate::text::views(list@).contains(s@) {
            let k = choose|k: int| 0 <= k < list@.len() && crate::text::views(list@)[k] == s@;
            assert(list@[k]@ == s@);
        }
    }
    false
}

/// The listing: the managed entries first, in their order, then an unmanaged
/// entry for each git worktree whose path is not among `managed_paths`, in
/// git's order.
pub fn merge_entries(managed: Vec<ListEntry>, git: Vec<GitWorktreeEntry>, managed_paths: &Vec<String>) -> (r: Vec<ListEntry>)
    ensures
        r@.take(managed@.len() as int) == managed@,
        r@.len() == managed@.len() + git@.filter(|g: GitWorktreeEntry| unmanaged_in(g, crate::text::views(managed_paths@))).len(),
        forall|k: int| 0 <= k < r@.len() - managed@.len() ==> from_git(
            git@.filter(|g: GitWorktreeEntry| unmanaged_in(g, crate::text::views(managed_paths@)))[k],
            #[trigger] r@[managed@.len() + k],
        ),
{
    let ghost paths = crate::text::views(managed_paths@);
    let ghost pred = |g: GitWorktreeEntry| unmanaged_in(g, paths);
    let m = managed.len();
    let mut out = managed;
    let ghost first = out@;
    let mut i: usize = 0;
    while i < git.len()
        invariant
            i <= git@.len(),
            m == first.len(),
            paths == crate::text::views(managed_paths@),
            pred == (|g: GitWorktreeEntry| unmanaged_in(g, paths)),
            out@.take(m as int) == first,
            out@.len() == m + git@.take(i as int).filter(pred).len(),
            forall|k: int| 0 <= k < out@.len() - m ==> from_git(git@.take(i as int).filter(pred)[k], #[trigger] out@[m + k]),
        decreases git@.len() - i,
    {
        reveal(Seq::filter);
        assert(git@.take(i as int + 1).drop_last() =~= git@.take(i as int));
        let g = &git[i];
        if !contains_text(managed_paths, &g.path) {
            let branch = match &g.branch {
                Some(b) => b.clone(),
                None => String::new(),
            };
            let ghost before = out@;
            out.push(ListEntry { name: g.name.clone(), branch, path: g.path.clone(), base_branch: None, managed: false, tags: Vec::new() });
            assert(out@.take(m as int) =~= before.take(m as int));
        }
        i = i + 1;
    }
    assert(git@.take(git@.len() as int) =~= git@);
    out
}

/// The git status of an entry: ahead/behind against its reference (unknown
/// when there is none or it cannot be read), and its dirty count (zero when
/// it cannot be read).
pub fn compute_git_status(repo_path: &str, entry: &ListEntry) -> (r: GitStatus)
    ensures
        (r.ahead is Some) <==> (r.behind is Some),
{
    let base = match &entry.base_branch {
        Some(b) => Some(b.as_str()),
        None => None,
    };
    let (ahead, behind) = match crate::git::ahead_behind(repo_path, entry.branch.as_str(), base) {
        Ok(Some((a, b))) => (Some(a), Some(b)),
        _ => (None, None),
    };
    let dirty = match crate::git::dirty_count(entry.path.as_str()) {
        Ok(n) => n,
        Err(_) => 0,
    };
    GitStatus { ahead, behind, dirty }
}

fn managed_entry(db: &Database, wt: &Worktree) -> (r: ListEntry)
    ensures
        r.name == wt.name && r.branch == wt.branch && r.path == wt.path && r.base_branch == wt.base_branch && r.managed,
{
    let tags = match db.list_tags(wt.id) {
        Ok(t) => t,
        Err(_) => Vec::new(),
    };
    ListEntry {
        name: wt.name.clone(),
        branch: wt.branch.clone(),
        path: wt.path.clone(),
        base_branch: match &wt.base_branch {
            Some(b) => Some(b.clone()),
            None => None,
        },
        managed: true,
        tags,
    }
}

/// The repository root at `cwd` and its listing: the store's live worktrees
/// (only those tagged `tag` when given, and then nothing else), followed by
/// the worktrees that only git knows.
pub fn fetch_all_worktrees(cwd: &str, db: &Database, tag: Option<&str>) -> (r: Result<(String, Vec<ListEntry>), CommandError>)
    ensures
        (tag is Some) ==> (r matches Ok((_, entries)) ==> forall|i: int| 0 <= i < entries@.len() ==> (#[trigger] entries@[i]).managed),
{
    let info = git_err(crate::git::discover_repo(cwd))?;
    let worktrees: Vec<Worktree> = match store_err(db.get_repo_by_path(info.path.as_str()))? {
        Some(repo) => match tag {
            Some(t) => store_err(db.list_worktrees_by_tag(repo.id, t))?,
            None => store_err(db.list_worktrees(repo.id))?,
        },
        None => Vec::new(),
    };
    let mut managed: Vec<ListEntry> = Vec::new();
    let mut paths: Vec<String> = Vec::new();
    let mut i: usize = 0;
    while i < worktrees.len()
        invariant
            i <= worktrees@.len(),
            managed@.len() == i,
            forall|k: int| 0 <= k < managed@.len() ==> (#[trigger] managed@[k]).managed,
        decreases worktrees@.len() - i,
    {
        managed.push(managed_entry(db, &worktrees[i]));
        match crate::git::canonical_path(worktrees[i].path.as_str()) {
            Some(p) => paths.push(p),
            None => {},
        }
        i = i + 1;
    }
    if tag.is_some() {
        return Ok((info.path, managed));
    }
    let git = match crate::git::list_worktrees(info.path.as_str()) {
        Ok(g) => g,
        Err(_) => Vec::new(),
    };
    let entries = merge_entries(managed, git, &paths);
    Ok((info.path, entries))
}

/// The text shown when there is nothing to list.
pub const EMPTY_LISTING: &'static str = "No worktrees. Use `trench create` to get started.\n";

/// The listing as an aligned table, unmanaged rows dimmed, lines no wider than
/// `max_width` when given.
pub fn render_table(cwd: &str, db: &Database, tag: Option<&str>, max_width: Option<usize>) -> (r: Result<String, CommandError>)
{
    let (repo_path, entries) = fetch_all_worktrees(cwd, db, tag)?;
    if entries.len() == 0 {
        return Ok(String::from_str(EMPTY_LISTING));
    }
    let mut headers: Vec<&str> = Vec::new();
    headers.push("Name");
    headers.push("Branch");
    headers.push("Path");
    headers.push("Status");
    headers.push("Ahead/Behind");
    headers.push("Tags");
    let mut table = Table::new(headers);
    let mut unmanaged: Vec<bool> = Vec::new();
    let mut i: usize = 0;
    while i < entries.len()
        invariant
            i <= entries@.len(),
            table.wf(),
        decreases entries@.len() - i,
    {
        let entry = &entries[i];
        let status = compute_git_status(repo_path.as_str(), entry);
        let mut display = entry.name.clone();
        if !entry.managed {
            append_str(&mut display, " [unmanaged]");
        }
        let dirty = format_dirty(status.dirty);
        let ahead_behind = format_ahead_behind(status.ahead, status.behind);
        let tags = join(&entry.tags, ", ");
        let mut cells: Vec<&str> = Vec::new();
        cells.push(display.as_str());
        cells.push(entry.branch.as_str());
        cells.push(entry.path.as_str());
        cells.push(dirty.as_str());
        cells.push(ahead_behind.as_str());
        cells.push(tags.as_str());
        table = table.row(cells);
        unmanaged.push(!entry.managed);
        i = i + 1;
    }
    match max_width {
        Some(w) => {
            table = table.max_width(w);
        },
        None => {},
    }
    let lines = table.render_lines();
    let mut out = String::new();
    let mut k: usize = 0;
    while k < lines.len()
        invariant
            k <= lines@.len(),
        decreases lines@.len() - k,
    {
        let dim = k >= 1 && k - 1 < unmanaged.len() && unmanaged[k - 1];
        if dim {
            append_str(&mut out, "\u{1b}[2m");
            append_str(&mut out, lines[k].as_str());
            append_str(&mut out, "\u{1b}[0m");
        } else {
            append_str(&mut out, lines[k].as_str());
        }
        push_char(&mut out, '\n');
        k = k + 1;
    }
    Ok(out)
}

/// The listing's machine-readable items.
pub fn collect_worktree_json(cwd: &str, db: &Database, tag: Option<&str>) -> (r: Result<Vec<WorktreeJson>, CommandError>)
{
    let (repo_path, entries) = fetch_all_worktrees(cwd, db, tag)?;
    let mut items: Vec<WorktreeJson> = Vec::new();
    let mut i: usize = 0;
    while i < entries.len()
        invariant
            i <= entries@.len(),
        decreases entries@.len() - i,
    {
        let status = compute_git_status(repo_path.as_str(), &entries[i]);
        items.push(build_worktree_json(&entries[i], status));
        i = i + 1;
    }
    Ok(items)
}

/// The listing as porcelain lines `name:branch:path:status:ahead:behind:dirty:managed`.
pub fn execute_porcelain(cwd: &str, db: &Database, tag: Option<&str>) -> (r: Result<String, CommandError>)
{
    let items = collect_worktree_json(cwd, db, tag)?;
    Ok(format_porcelain(items.as_slice()))
}

} // verus!

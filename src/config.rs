//! Configuration values and their resolution: command-line overrides win over
//! the project file, which wins over the global file, which wins over defaults.
use vstd::prelude::*;

use crate::paths::DEFAULT_WORKTREE_TEMPLATE;

verus! {

/// One lifecycle hook: files to copy, commands to run, a script, a time budget.
#[derive(Debug, Default, PartialEq, Clone)]
pub struct HookDef {
    pub copy: Option<Vec<String>>,
    pub run: Option<Vec<String>>,
    pub shell: Option<String>,
    pub timeout_secs: Option<u64>,
}

/// The hooks of the six lifecycle events.
#[derive(Debug, Default, PartialEq, Clone)]
pub struct HooksConfig {
    pub pre_create: Option<HookDef>,
    pub post_create: Option<HookDef>,
    pub pre_sync: Option<HookDef>,
    pub post_sync: Option<HookDef>,
    pub pre_remove: Option<HookDef>,
    pub post_remove: Option<HookDef>,
}

/// The global configuration file's content.
#[derive(Debug, Default, PartialEq)]
pub struct GlobalConfig {
    pub ui: Option<UiConfig>,
    pub git: Option<GitConfig>,
    pub worktrees: Option<WorktreesConfig>,
    pub hooks: Option<HooksConfig>,
}

/// The project configuration file's content.
#[derive(Debug, Default, PartialEq)]
pub struct ProjectConfig {
    pub ui: Option<UiConfig>,
    pub git: Option<GitConfig>,
    pub worktrees: Option<WorktreesConfig>,
    pub hooks: Option<HooksConfig>,
}

#[derive(Debug, Default, PartialEq)]
pub struct UiConfig {
    pub theme: Option<String>,
    pub date_format: Option<String>,
    pub show_ahead_behind: Option<bool>,
    pub show_dirty_count: Option<bool>,
}

#[derive(Debug, Default, PartialEq)]
pub struct GitConfig {
    pub default_base: Option<String>,
    pub auto_prune: Option<bool>,
    pub fetch_on_open: Option<bool>,
}

#[derive(Debug, Default, PartialEq)]
pub struct WorktreesConfig {
    pub root: Option<String>,
    pub scan: Option<Vec<String>>,
}

/// Overrides given on the command line; they take precedence over every file.
#[derive(Debug, Default)]
pub struct CliConfigOverrides {
    pub default_base: Option<String>,
    pub worktree_root: Option<String>,
}

#[derive(Debug, PartialEq)]
pub struct ResolvedConfig {
    pub ui: ResolvedUiConfig,
    pub git: ResolvedGitConfig,
    pub worktrees: ResolvedWorktreesConfig,
    pub hooks: Option<HooksConfig>,
}

#[derive(Debug, PartialEq)]
pub struct ResolvedUiConfig {
    pub theme: String,
    pub date_format: String,
    pub show_ahead_behind: bool,
    pub show_dirty_count: bool,
}

#[derive(Debug, PartialEq)]
pub struct ResolvedGitConfig {
    pub default_base: String,
    pub auto_prune: bool,
    pub fetch_on_open: bool,
}

#[derive(Debug, PartialEq)]
pub struct ResolvedWorktreesConfig {
    pub root: String,
    pub scan: Vec<String>,
}

pub const DEFAULT_THEME: &'static str = "default";

pub const DEFAULT_DATE_FORMAT: &'static str = "%Y-%m-%d %H:%M";

pub const DEFAULT_BASE_BRANCH: &'static str = "main";

impl Default for ResolvedUiConfig {
    fn default() -> (r: Self)
        ensures
            r.theme@ == DEFAULT_THEME@,
            r.date_format@ == DEFAULT_DATE_FORMAT@,
            r.show_ahead_behind,
            r.show_dirty_count,
    {
        ResolvedUiConfig {
            theme: String::from_str(DEFAULT_THEME),
            date_format: String::from_str(DEFAULT_DATE_FORMAT),
            show_ahead_behind: true,
            show_dirty_count: true,
        }
    }
}

impl Default for ResolvedGitConfig {
    fn default() -> (r: Self)
        ensures
            r.default_base@ == DEFAULT_BASE_BRANCH@,
            !r.auto_prune,
            r.fetch_on_open,
    {
        ResolvedGitConfig {
            default_base: String::from_str(DEFAULT_BASE_BRANCH),
            auto_prune: false,
            fetch_on_open: true,
        }
    }
}

impl Default for ResolvedWorktreesConfig {
    fn default() -> (r: Self)
        ensures
            r.root@ == DEFAULT_WORKTREE_TEMPLATE@,
            r.scan@.len() == 0,
    {
        ResolvedWorktreesConfig { root: String::from_str(DEFAULT_WORKTREE_TEMPLATE), scan: Vec::new() }
    }
}

/// `a` when it is set, else `b`.
pub open spec fn first_set<T>(a: Option<T>, b: Option<T>) -> Option<T> {
    if a is Some {
        a
    } else {
        b
    }
}

/// The text of `o`, or `d` when it is unset.
pub open spec fn text_or(o: Option<String>, d: Seq<char>) -> Seq<char> {
    match o {
        Some(s) => s@,
        None => d,
    }
}

/// The value of `o`, or `d` when it is unset.
pub open spec fn flag_or(o: Option<bool>, d: bool) -> bool {
    match o {
        Some(b) => b,
        None => d,
    }
}

/// The views of an optional list of strings.
pub open spec fn list_view(o: Option<Vec<String>>) -> Option<Seq<String>> {
    match o {
        Some(v) => Some(v@),
        None => None,
    }
}

/// Two optional hooks carry the same settings.
pub open spec fn same_hook(a: Option<HookDef>, b: Option<HookDef>) -> bool {
    match (a, b) {
        (Some(x), Some(y)) => list_view(x.copy) == list_view(y.copy) && list_view(x.run) == list_view(
            y.run,
        ) && x.shell == y.shell && x.timeout_secs == y.timeout_secs,
        (None, None) => true,
        _ => false,
    }
}

/// Two hook configurations carry the same settings for every event.
pub open spec fn same_hooks(a: HooksConfig, b: HooksConfig) -> bool {
    same_hook(a.pre_create, b.pre_create) && same_hook(a.post_create, b.post_create) && same_hook(
        a.pre_sync,
        b.pre_sync,
    ) && same_hook(a.post_sync, b.post_sync) && same_hook(a.pre_remove, b.pre_remove) && same_hook(
        a.post_remove,
        b.post_remove,
    )
}

/// Two optional hook configurations carry the same settings.
pub open spec fn same_opt_hooks(a: Option<HooksConfig>, b: Option<HooksConfig>) -> bool {
    match (a, b) {
        (Some(x), Some(y)) => same_hooks(x, y),
        (None, None) => true,
        _ => false,
    }
}

/// A copy of a list of strings.
pub fn copy_strings(v: &Vec<String>) -> (r: Vec<String>)
    ensures
        r@ == v@,
{
    let mut out: Vec<String> = Vec::new();
    let mut i: usize = 0;
    while i < v.len()
        invariant
            i <= v@.len(),
            out@ == v@.take(i as int),
        decreases v@.len() - i,
    {
        out.push(v[i].clone());
        assert(v@.take(i as int + 1) =~= v@.take(i as int).push(v@[i as int]));
        i = i + 1;
    }
    assert(v@.take(v@.len() as int) =~= v@);
    out
}

fn copy_opt_strings(o: &Option<Vec<String>>) -> (r: Option<Vec<String>>)
    ensures
        list_view(r) == list_view(*o),
{
    match o {
        Some(v) => Some(copy_strings(v)),
        None => None,
    }
}

fn copy_opt_text(o: &Option<String>) -> (r: Option<String>)
    ensures
        r == *o,
{
    match o {
        Some(s) => Some(s.clone()),
        None => None,
    }
}

impl HookDef {
    /// A copy of this hook with the same settings.
    pub fn duplicate(&self) -> (r: HookDef)
        ensures
            same_hook(Some(r), Some(*self)),
    {
        HookDef {
            copy: copy_opt_strings(&self.copy),
            run: copy_opt_strings(&self.run),
            shell: copy_opt_text(&self.shell),
            timeout_secs: self.timeout_secs,
        }
    }
}

fn copy_opt_hook(o: &Option<HookDef>) -> (r: Option<HookDef>)
    ensures
        same_hook(r, *o),
{
    match o {
        Some(h) => Some(h.duplicate()),
        None => None,
    }
}

impl HooksConfig {
    /// A copy of this configuration with the same settings.
    pub fn duplicate(&self) -> (r: HooksConfig)
        ensures
            same_hooks(r, *self),
    {
        HooksConfig {
            pre_create: copy_opt_hook(&self.pre_create),
            post_create: copy_opt_hook(&self.post_create),
            pre_sync: copy_opt_hook(&self.pre_sync),
            post_sync: copy_opt_hook(&self.post_sync),
            pre_remove: copy_opt_hook(&self.pre_remove),
            post_remove: copy_opt_hook(&self.post_remove),
        }
    }
}

fn pick_text(a: &Option<String>, b: &Option<String>, d: &str) -> (r: String)
    ensures
        r@ == text_or(first_set(*a, *b), d@),
{
    match a {
        Some(s) => s.clone(),
        None => match b {
            Some(s) => s.clone(),
            None => String::from_str(d),
        },
    }
}

fn pick_flag(a: Option<bool>, b: Option<bool>, d: bool) -> (r: bool)
    ensures
        r == flag_or(first_set(a, b), d),
{
    match a {
        Some(x) => x,
        None => match b {
            Some(x) => x,
            None => d,
        },
    }
}

/// The project's `[ui]` section, if any.
pub open spec fn project_ui(p: Option<&ProjectConfig>) -> Option<UiConfig> {
    match p {
        Some(c) => c.ui,
        None => None,
    }
}

/// The project's `[git]` section, if any.
pub open spec fn project_git(p: Option<&ProjectConfig>) -> Option<GitConfig> {
    match p {
        Some(c) => c.git,
        None => None,
    }
}

/// The project's `[worktrees]` section, if any.
pub open spec fn project_worktrees(p: Option<&ProjectConfig>) -> Option<WorktreesConfig> {
    match p {
        Some(c) => c.worktrees,
        None => None,
    }
}

/// The project's `[hooks]` section, if any.
pub open spec fn project_hooks(p: Option<&ProjectConfig>) -> Option<HooksConfig> {
    match p {
        Some(c) => c.hooks,
        None => None,
    }
}

pub open spec fn ui_theme(u: Option<UiConfig>) -> Option<String> {
    match u {
        Some(x) => x.theme,
        None => None,
    }
}

pub open spec fn ui_date_format(u: Option<UiConfig>) -> Option<String> {
    match u {
        Some(x) => x.date_format,
        None => None,
    }
}

pub open spec fn ui_ahead_behind(u: Option<UiConfig>) -> Option<bool> {
    match u {
        Some(x) => x.show_ahead_behind,
        None => None,
    }
}

pub open spec fn ui_dirty_count(u: Option<UiConfig>) -> Option<bool> {
    match u {
        Some(x) => x.show_dirty_count,
        None => None,
    }
}

pub open spec fn git_default_base(g: Option<GitConfig>) -> Option<String> {
    match g {
        Some(x) => x.default_base,
        None => None,
    }
}

pub open spec fn git_auto_prune(g: Option<GitConfig>) -> Option<bool> {
    match g {
        Some(x) => x.auto_prune,
        None => None,
    }
}

pub open spec fn git_fetch_on_open(g: Option<GitConfig>) -> Option<bool> {
    match g {
        Some(x) => x.fetch_on_open,
        None => None,
    }
}

pub open spec fn worktrees_root(w: Option<WorktreesConfig>) -> Option<String> {
    match w {
        Some(x) => x.root,
        None => None,
    }
}

pub open spec fn worktrees_scan(w: Option<WorktreesConfig>) -> Option<Vec<String>> {
    match w {
        Some(x) => x.scan,
        None => None,
    }
}

pub open spec fn cli_default_base(c: Option<&CliConfigOverrides>) -> Option<String> {
    match c {
        Some(x) => x.default_base,
        None => None,
    }
}

pub open spec fn cli_worktree_root(c: Option<&CliConfigOverrides>) -> Option<String> {
    match c {
        Some(x) => x.worktree_root,
        None => None,
    }
}

fn ui_fields(u: &Option<UiConfig>) -> (r: (Option<String>, Option<String>, Option<bool>, Option<bool>))
    ensures
        r.0 == ui_theme(*u),
        r.1 == ui_date_format(*u),
        r.2 == ui_ahead_behind(*u),
        r.3 == ui_dirty_count(*u),
{
    match u {
        Some(x) => (copy_opt_text(&x.theme), copy_opt_text(&x.date_format), x.show_ahead_behind, x.show_dirty_count),
        None => (None, None, None, None),
    }
}

fn git_fields(g: &Option<GitConfig>) -> (r: (Option<String>, Option<bool>, Option<bool>))
    ensures
        r.0 == git_default_base(*g),
        r.1 == git_auto_prune(*g),
        r.2 == git_fetch_on_open(*g),
{
    match g {
        Some(x) => (copy_opt_text(&x.default_base), x.auto_prune, x.fetch_on_open),
        None => (None, None, None),
    }
}

fn worktrees_fields(w: &Option<WorktreesConfig>) -> (r: (Option<String>, Option<Vec<String>>))
    ensures
        r.0 == worktrees_root(*w),
        list_view(r.1) == list_view(worktrees_scan(*w)),
{
    match w {
        Some(x) => (copy_opt_text(&x.root), copy_opt_strings(&x.scan)),
        None => (None, None),
    }
}

/// Resolve configuration: the command line wins over the project file, which
/// wins over the global file, which wins over the defaults, field by field.
/// Hooks are taken whole: the project's when it has any, else the global ones.
pub fn resolve_config(
    cli: Option<&CliConfigOverrides>,
    project: Option<&ProjectConfig>,
    global: &GlobalConfig,
) -> (r: ResolvedConfig)
    ensures
        r.ui.theme@ == text_or(first_set(ui_theme(project_ui(project)), ui_theme(global.ui)), DEFAULT_THEME@),
        r.ui.date_format@ == text_or(
            first_set(ui_date_format(project_ui(project)), ui_date_format(global.ui)),
            DEFAULT_DATE_FORMAT@,
        ),
        r.ui.show_ahead_behind == flag_or(
            first_set(ui_ahead_behind(project_ui(project)), ui_ahead_behind(global.ui)),
            true,
        ),
        r.ui.show_dirty_count == flag_or(
            first_set(ui_dirty_count(project_ui(project)), ui_dirty_count(global.ui)),
            true,
        ),
        r.git.default_base@ == text_or(
            first_set(
                cli_default_base(cli),
                first_set(git_default_base(project_git(project)), git_default_base(global.git)),
            ),
            DEFAULT_BASE_BRANCH@,
        ),
        r.git.auto_prune == flag_or(
            first_set(git_auto_prune(project_git(project)), git_auto_prune(global.git)),
            false,
        ),
        r.git.fetch_on_open == flag_or(
            first_set(git_fetch_on_open(project_git(project)), git_fetch_on_open(global.git)),
            true,
        ),
        r.worktrees.root@ == text_or(
            first_set(
                cli_worktree_root(cli),
                first_set(worktrees_root(project_worktrees(project)), worktrees_root(global.worktrees)),
            ),
            DEFAULT_WORKTREE_TEMPLATE@,
        ),
        Some(r.worktrees.scan@) == first_set(
            first_set(
                list_view(worktrees_scan(project_worktrees(project))),
                list_view(worktrees_scan(global.worktrees)),
            ),
            Some(Seq::<String>::empty()),
        ),
        same_opt_hooks(r.hooks, first_set(project_hooks(project), global.hooks)),
{
    let no_ui: Option<UiConfig> = None;
    let no_git: Option<GitConfig> = None;
    let no_worktrees: Option<WorktreesConfig> = None;
    let p_ui = match project {
        Some(p) => ui_fields(&p.ui),
        None => ui_fields(&no_ui),
    };
    let p_git = match project {
        Some(p) => git_fields(&p.git),
        None => git_fields(&no_git),
    };
    let p_wt = match project {
        Some(p) => worktrees_fields(&p.worktrees),
        None => worktrees_fields(&no_worktrees),
    };
    let g_ui = ui_fields(&global.ui);
    let g_git = git_fields(&global.git);
    let g_wt = worktrees_fields(&global.worktrees);
    let (cli_base, cli_root) = match cli {
        Some(c) => (copy_opt_text(&c.default_base), copy_opt_text(&c.worktree_root)),
        None => (None, None),
    };

    let hooks = match project {
        Some(p) if p.hooks.is_some() => copy_opt_hooks(&p.hooks),
        _ => copy_opt_hooks(&global.hooks),
    };

    let base_from_files = match p_git.0 {
        Some(b) => Some(b),
        None => g_git.0,
    };
    let root_from_files = match p_wt.0 {
        Some(b) => Some(b),
        None => g_wt.0,
    };
    let scan = match p_wt.1 {
        Some(v) => v,
        None => match g_wt.1 {
            Some(v) => v,
            None => Vec::new(),
        },
    };
    proof {
        assert(scan@ =~= first_set(
            first_set(
                list_view(worktrees_scan(project_worktrees(project))),
                list_view(worktrees_scan(global.worktrees)),
            ),
            Some(Seq::<String>::empty()),
        )->Some_0);
    }

    ResolvedConfig {
        ui: ResolvedUiConfig {
            theme: pick_text(&p_ui.0, &g_ui.0, DEFAULT_THEME),
            date_format: pick_text(&p_ui.1, &g_ui.1, DEFAULT_DATE_FORMAT),
            show_ahead_behind: pick_flag(p_ui.2, g_ui.2, true),
            show_dirty_count: pick_flag(p_ui.3, g_ui.3, true),
        },
        git: ResolvedGitConfig {
            default_base: pick_text(&cli_base, &base_from_files, DEFAULT_BASE_BRANCH),
            auto_prune: pick_flag(p_git.1, g_git.1, false),
            fetch_on_open: pick_flag(p_git.2, g_git.2, true),
        },
        worktrees: ResolvedWorktreesConfig {
            root: pick_text(&cli_root, &root_from_files, DEFAULT_WORKTREE_TEMPLATE),
            scan,
        },
        hooks,
    }
}

fn copy_opt_hooks(o: &Option<HooksConfig>) -> (r: Option<HooksConfig>)
    ensures
        same_opt_hooks(r, *o),
{
    match o {
        Some(h) => Some(h.duplicate()),
        None => None,
    }
}

} // verus!

//! Naming of worktree directories.
use vstd::prelude::*;

use crate::text::{chars_of, push_char, string_from_range};

verus! {

/// The default template of a worktree's path below the worktree root.
pub const DEFAULT_WORKTREE_TEMPLATE: &'static str = "{{ repo }}/{{ branch | sanitize }}";

/// `s` with every `..` (read left to right, without overlap) replaced by `-`.
pub open spec fn replace_double_dots(s: Seq<char>) -> Seq<char>
    decreases s.len(),
{
    if s.len() == 0 {
        Seq::empty()
    } else if s.len() >= 2 && s[0] == '.' && s[1] == '.' {
        seq!['-'] + replace_double_dots(s.skip(2))
    } else {
        seq![s[0]] + replace_double_dots(s.skip(1))
    }
}

/// Characters that become a dash in a directory name.
pub open spec fn is_separator(c: char) -> bool {
    c == '/' || c == '@' || c == ' ' || c == '-'
}

/// `s` with each separator turned into `-` and each run of dashes collapsed to one.
pub open spec fn collapse_separators(s: Seq<char>) -> Seq<char>
    decreases s.len(),
{
    if s.len() == 0 {
        Seq::empty()
    } else {
        let r = collapse_separators(s.drop_last());
        if is_separator(s.last()) {
            if r.len() > 0 && r.last() == '-' {
                r
            } else {
                r.push('-')
            }
        } else {
            r.push(s.last())
        }
    }
}

/// `s` without its leading dashes.
pub open spec fn trim_leading_dashes(s: Seq<char>) -> Seq<char>
    decreases s.len(),
{
    if s.len() > 0 && s[0] == '-' {
        trim_leading_dashes(s.skip(1))
    } else {
        s
    }
}

/// `s` without its trailing dashes.
pub open spec fn trim_trailing_dashes(s: Seq<char>) -> Seq<char>
    decreases s.len(),
{
    if s.len() > 0 && s.last() == '-' {
        trim_trailing_dashes(s.drop_last())
    } else {
        s
    }
}

/// The directory name that a branch name maps to.
pub open spec fn sanitized(branch: Seq<char>) -> Seq<char> {
    trim_trailing_dashes(trim_leading_dashes(collapse_separators(replace_double_dots(branch))))
}

fn replace_dots_pass(s: &Vec<char>) -> (r: Vec<char>)
    ensures
        r@ == replace_double_dots(s@),
{
    let n = s.len();
    let mut out: Vec<char> = Vec::new();
    let mut i: usize = 0;
    assert(s@.subrange(0, n as int) =~= s@);
    assert(out@ + replace_double_dots(s@) =~= replace_double_dots(s@));
    while i < n
        invariant
            n == s@.len(),
            i <= n,
            replace_double_dots(s@) == out@ + replace_double_dots(s@.subrange(i as int, n as int)),
        decreases n - i,
    {
        let ghost rest = s@.subrange(i as int, n as int);
        if i + 1 < n && s[i] == '.' && s[i + 1] == '.' {
            assert(rest.skip(2) =~= s@.subrange(i as int + 2, n as int));
            out.push('-');
            assert(out@ + replace_double_dots(s@.subrange(i as int + 2, n as int)) =~= out@.drop_last() + (
            seq!['-'] + replace_double_dots(rest.skip(2))));
            i = i + 2;
        } else {
            assert(rest.skip(1) =~= s@.subrange(i as int + 1, n as int));
            out.push(s[i]);
            assert(out@ + replace_double_dots(s@.subrange(i as int + 1, n as int)) =~= out@.drop_last() + (
            seq![rest[0]] + replace_double_dots(rest.skip(1))));
            i = i + 1;
        }
    }
    assert(out@ + replace_double_dots(s@.subrange(n as int, n as int)) =~= out@);
    out
}

fn collapse_pass(s: &Vec<char>) -> (r: Vec<char>)
    ensures
        r@ == collapse_separators(s@),
{
    let n = s.len();
    let mut out: Vec<char> = Vec::new();
    let mut i: usize = 0;
    while i < n
        invariant
            n == s@.len(),
            i <= n,
            out@ == collapse_separators(s@.take(i as int)),
        decreases n - i,
    {
        assert(s@.take(i as int + 1).drop_last() =~= s@.take(i as int));
        let c = s[i];
        if c == '/' || c == '@' || c == ' ' || c == '-' {
            let len = out.len();
            if len == 0 || out[len - 1] != '-' {
                out.push('-');
            }
        } else {
            out.push(c);
        }
        i = i + 1;
    }
    assert(s@.take(n as int) =~= s@);
    out
}

/// Sanitize a branch name for use as a directory name: `..` becomes `-`;
/// `/`, `@` and spaces become `-`; runs of dashes collapse to one; leading
/// and trailing dashes are dropped; single dots stay.
pub fn sanitize_branch(branch: &str) -> (r: String)
    ensures
        r@ == sanitized(branch@),
{
    let chars = chars_of(branch);
    let replaced = replace_dots_pass(&chars);
    let collapsed = collapse_pass(&replaced);
    let n = collapsed.len();
    let mut start: usize = 0;
    assert(collapsed@.subrange(0, n as int) =~= collapsed@);
    while start < n && collapsed[start] == '-'
        invariant
            n == collapsed@.len(),
            start <= n,
            trim_leading_dashes(collapsed@) == trim_leading_dashes(collapsed@.subrange(start as int, n as int)),
        decreases n - start,
    {
        assert(collapsed@.subrange(start as int, n as int).skip(1) =~= collapsed@.subrange(start as int + 1, n as int));
        start = start + 1;
    }
    assert(trim_leading_dashes(collapsed@) == collapsed@.subrange(start as int, n as int));
    let mut end: usize = n;
    while end > start && collapsed[end - 1] == '-'
        invariant
            n == collapsed@.len(),
            start <= end <= n,
            trim_trailing_dashes(collapsed@.subrange(start as int, n as int)) == trim_trailing_dashes(collapsed@.subrange(start as int, end as int)),
        decreases end - start,
    {
        assert(collapsed@.subrange(start as int, end as int).drop_last() =~= collapsed@.subrange(start as int, end as int - 1));
        end = end - 1;
    }
    string_from_range(&collapsed, start, end)
}

#[verifier::external_type_specification]
#[verifier::external_body]
pub struct ExTemplateError(minijinja::Error);

/// What the path template renders to, for a repository name and a branch,
/// with the `sanitize` filter bound to `sanitize_branch`.
pub uninterp spec fn rendered_path(template: Seq<char>, repo: Seq<char>, branch: Seq<char>) -> Seq<char>;

/// Relies on `minijinja::Environment::render_str`: renders the template with
/// `repo` and `branch` set and the `sanitize` filter bound to `sanitize_branch`.
#[verifier::external_body]
fn render_template(template: &str, repo: &str, branch: &str) -> (r: Result<String, minijinja::Error>)
    ensures
        r matches Ok(s) ==> s@ == rendered_path(template@, repo@, branch@),
{
    let mut env = minijinja::Environment::new();
    env.add_filter("sanitize", |s: String| sanitize_branch(&s));
    let mut ctx = std::collections::BTreeMap::new();
    ctx.insert(String::from("repo"), repo.to_string());
    ctx.insert(String::from("branch"), branch.to_string());
    env.render_str(template, ctx)
}

/// Render a worktree path template (relative to the worktree root) for a
/// repository name and a branch; a malformed template is an error.
pub fn render_worktree_path(template: &str, repo: &str, branch: &str) -> (r: Result<String, minijinja::Error>)
    ensures
        r matches Ok(s) ==> s@ == rendered_path(template@, repo@, branch@),
{
    render_template(template, repo, branch)
}

/// `rel` below `root`: `rel` itself when absolute, else the two joined by one `/`.
pub open spec fn joined_path(root: Seq<char>, rel: Seq<char>) -> Seq<char> {
    if rel.len() > 0 && rel[0] == '/' {
        rel
    } else if root.len() == 0 {
        rel
    } else if root.last() == '/' {
        root + rel
    } else {
        root + seq!['/'] + rel
    }
}

/// `rel` below `root`, as `Path::join` forms it.
pub fn join_path(root: &str, rel: &str) -> (r: String)
    ensures
        r@ == joined_path(root@, rel@),
{
    let rel_chars = chars_of(rel);
    if rel_chars.len() > 0 && rel_chars[0] == '/' {
        return String::from_str(rel);
    }
    let root_chars = chars_of(root);
    let n = root_chars.len();
    if n == 0 {
        return String::from_str(rel);
    }
    let mut s = String::from_str(root);
    if root_chars[n - 1] != '/' {
        push_char(&mut s, '/');
    }
    crate::text::append_str(&mut s, rel);
    s
}

} // verus!

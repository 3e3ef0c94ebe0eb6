//! The `tag` command: parsing of `+name` / `-name` arguments and applying them.
use vstd::prelude::*;

use super::{git_err, store_err, CommandError};
use crate::state::Database;
use crate::text::{append_str, chars_of, join, string_from_range};

verus! {

/// One tag operation.
#[derive(Debug, PartialEq)]
pub enum TagOp {
    Add(String),
    Remove(String),
}

/// The operation an argument asks for: `+name` adds, `-name` removes;
/// `None` for anything else or an empty name.
pub open spec fn tag_op_of(arg: Seq<char>) -> Option<(bool, Seq<char>)> {
    if arg.len() > 1 && arg[0] == '+' {
        Some((true, arg.skip(1)))
    } else if arg.len() > 1 && arg[0] == '-' {
        Some((false, arg.skip(1)))
    } else {
        None
    }
}

/// The argument has a sign but no name.
pub open spec fn bare_sign(arg: Seq<char>) -> bool {
    arg.len() == 1 && (arg[0] == '+' || arg[0] == '-')
}

/// The operation matches what the argument asks for.
pub open spec fn op_matches(op: TagOp, arg: Seq<char>) -> bool {
    match op {
        TagOp::Add(n) => tag_op_of(arg) == Some((true, n@)),
        TagOp::Remove(n) => tag_op_of(arg) == Some((false, n@)),
    }
}

/// Parse tag arguments, in order; the first bad one is the error.
pub fn parse_tag_args(args: &Vec<String>) -> (r: Result<Vec<TagOp>, CommandError>)
    ensures
        match r {
            Ok(ops) => ops@.len() == args@.len() && forall|i: int| 0 <= i < args@.len() ==> op_matches(#[trigger] ops@[i], args@[i]@),
            Err(CommandError::EmptyTagName { arg }) => exists|i: int| 0 <= i < args@.len() && arg@ == (#[trigger] args@[i])@ && bare_sign(arg@)
                && forall|j: int| 0 <= j < i ==> tag_op_of(#[trigger] args@[j]@) is Some,
            Err(CommandError::InvalidTagArgument { arg }) => exists|i: int| 0 <= i < args@.len() && arg@ == (#[trigger] args@[i])@
                && tag_op_of(arg@) is None && !bare_sign(arg@) && forall|j: int| 0 <= j < i ==> tag_op_of(#[trigger] args@[j]@) is Some,
            Err(_) => false,
        },
{
    let mut ops: Vec<TagOp> = Vec::new();
    let mut i: usize = 0;
    while i < args.len()
        invariant
            i <= args@.len(),
            ops@.len() == i,
            forall|k: int| 0 <= k < i ==> op_matches(#[trigger] ops@[k], args@[k]@),
            forall|k: int| 0 <= k < i ==> tag_op_of(#[trigger] args@[k]@) is Some,
        decreases args@.len() - i,
    {
        let arg = &args[i];
        let chars = chars_of(arg.as_str());
        let n = chars.len();
        if n > 0 && (chars[0] == '+' || chars[0] == '-') {
            if n == 1 {
                return Err(CommandError::EmptyTagName { arg: arg.clone() });
            }
            let name = string_from_range(&chars, 1, n);
            assert(name@ =~= arg@.skip(1));
            if chars[0] == '+' {
                ops.push(TagOp::Add(name));
            } else {
                ops.push(TagOp::Remove(name));
            }
        } else {
            return Err(CommandError::InvalidTagArgument { arg: arg.clone() });
        }
        i = i + 1;
    }
    Ok(ops)
}

/// Show or change the tags of a worktree of the repository at `cwd`: with no
/// argument, list them; else apply the operations in order and list the
/// result. Returns the text to show.
pub fn execute(identifier: &str, tags: &Vec<String>, cwd: &str, db: &Database) -> (r: Result<String, CommandError>)
    ensures
        r matches Err(CommandError::WorktreeNotFound { identifier: x }) ==> x@ == identifier@,
{
    let info = git_err(crate::git::discover_repo(cwd))?;
    let repo = match store_err(db.get_repo_by_path(info.path.as_str()))? {
        Some(repo) => repo,
        None => {
            return Err(CommandError::RepoNotTracked { path: info.path });
        },
    };
    let wt = match store_err(db.find_worktree_by_identifier(repo.id, identifier))? {
        Some(wt) => wt,
        None => {
            return Err(CommandError::WorktreeNotFound { identifier: String::from_str(identifier) });
        },
    };
    if tags.len() == 0 {
        let current = store_err(db.list_tags(wt.id))?;
        if current.len() == 0 {
            let mut s = String::from_str("No tags on worktree '");
            append_str(&mut s, wt.name.as_str());
            append_str(&mut s, "'.\n");
            return Ok(s);
        }
        let mut s = join(&current, ", ");
        append_str(&mut s, "\n");
        return Ok(s);
    }
    let ops = parse_tag_args(tags)?;
    let mut i: usize = 0;
    while i < ops.len()
        invariant
            i <= ops@.len(),
        decreases ops@.len() - i,
    {
        match &ops[i] {
            TagOp::Add(name) => store_err(db.add_tag(wt.id, name.as_str()))?,
            TagOp::Remove(name) => store_err(db.remove_tag(wt.id, name.as_str()))?,
        }
        i = i + 1;
    }
    let current = store_err(db.list_tags(wt.id))?;
    if current.len() == 0 {
        let mut s = String::from_str("All tags removed from worktree '");
        append_str(&mut s, wt.name.as_str());
        append_str(&mut s, "'.\n");
        Ok(s)
    } else {
        let mut s = String::from_str("Tags on '");
        append_str(&mut s, wt.name.as_str());
        append_str(&mut s, "': ");
        let list = join(&current, ", ");
        append_str(&mut s, list.as_str());
        append_str(&mut s, "\n");
        Ok(s)
    }
}

} // verus!

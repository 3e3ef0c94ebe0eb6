//! The copy step of a hook: which files of the source tree are copied.
//! Patterns are globs; one that starts with `!` excludes what it matches.
use vstd::prelude::*;

verus! {

#[verifier::external_type_specification]
#[verifier::external_body]
pub struct ExGlobSet(globset::GlobSet);

#[verifier::external_type_specification]
#[verifier::external_body]
pub struct ExGlobSetBuilder(globset::GlobSetBuilder);

#[verifier::external_type_specification]
#[verifier::external_body]
pub struct ExGlobError(globset::Error);

/// Whether `Glob::new` accepts a pattern.
pub uninterp spec fn glob_accepts(pattern: Seq<char>) -> bool;

/// Whether the glob of a pattern matches a path.
pub uninterp spec fn glob_matches(pattern: Seq<char>, path: Seq<char>) -> bool;

/// The patterns added to a set builder, in order.
pub uninterp spec fn builder_patterns(b: globset::GlobSetBuilder) -> Seq<Seq<char>>;

/// The patterns that a set was built from, in order.
pub uninterp spec fn set_patterns(s: globset::GlobSet) -> Seq<Seq<char>>;

/// Relies on `GlobSetBuilder::new`: a builder with no pattern.
#[verifier::external_body]
fn new_builder() -> (r: globset::GlobSetBuilder)
    ensures
        builder_patterns(r) == Seq::<Seq<char>>::empty(),
{
    globset::GlobSetBuilder::new()
}

/// Relies on `Glob::new`, which fails on a malformed pattern, and on
/// `GlobSetBuilder::add`, which appends the glob to the builder's patterns.
#[verifier::external_body]
fn add_pattern(b: &mut globset::GlobSetBuilder, pattern: &str) -> (r: Result<(), globset::Error>)
    ensures
        (r is Ok) <==> glob_accepts(pattern@),
        (r is Ok) ==> builder_patterns(*final(b)) == builder_patterns(*old(b)).push(pattern@),
        (r is Err) ==> builder_patterns(*final(b)) == builder_patterns(*old(b)),
{
    let glob = globset::Glob::new(pattern)?;
    b.add(glob);
    Ok(())
}

/// Relies on `GlobSetBuilder::build`: on success the set holds the builder's patterns.
#[verifier::external_body]
fn build_set(b: &globset::GlobSetBuilder) -> (r: Result<globset::GlobSet, globset::Error>)
    ensures
        r matches Ok(s) ==> set_patterns(s) == builder_patterns(*b),
{
    b.build()
}

/// Relies on `GlobSet::is_match`: true when any glob of the set matches the path.
#[verifier::external_body]
fn set_matches(s: &globset::GlobSet, path: &str) -> (r: bool)
    ensures
        r == any_matches(set_patterns(*s), path@),
        forall|i: int| 0 <= i < set_patterns(*s).len() && glob_matches(#[trigger] set_patterns(*s)[i], path@) ==> r,
{
    s.is_match(path)
}

/// A pattern that excludes what it matches.
pub open spec fn is_exclusion(p: Seq<char>) -> bool {
    p.len() > 0 && p[0] == '!'
}

/// The including patterns, in order.
pub open spec fn include_patterns(ps: Seq<Seq<char>>) -> Seq<Seq<char>>
    decreases ps.len(),
{
    if ps.len() == 0 {
        Seq::empty()
    } else if is_exclusion(ps.last()) {
        include_patterns(ps.drop_last())
    } else {
        include_patterns(ps.drop_last()).push(ps.last())
    }
}

/// The excluding patterns without their `!`, in order.
pub open spec fn exclude_patterns(ps: Seq<Seq<char>>) -> Seq<Seq<char>>
    decreases ps.len(),
{
    if ps.len() == 0 {
        Seq::empty()
    } else if is_exclusion(ps.last()) {
        exclude_patterns(ps.drop_last()).push(ps.last().skip(1))
    } else {
        exclude_patterns(ps.drop_last())
    }
}

/// Some pattern of `ps` matches `path`.
pub open spec fn any_matches(ps: Seq<Seq<char>>, path: Seq<char>) -> bool {
    exists|i: int| 0 <= i < ps.len() && glob_matches(#[trigger] ps[i], path)
}

/// A file is copied when an including pattern matches its relative path and
/// no excluding pattern does.
pub open spec fn copy_wanted(patterns: Seq<Seq<char>>, path: Seq<char>) -> bool {
    any_matches(include_patterns(patterns), path) && !any_matches(exclude_patterns(patterns), path)
}

/// The glob text of a pattern: without the `!` of an exclusion.
pub open spec fn glob_text(p: Seq<char>) -> Seq<char> {
    if is_exclusion(p) {
        p.skip(1)
    } else {
        p
    }
}

/// An including pattern followed by an excluding one: a file is copied exactly
/// when the first glob matches it and the second does not.
pub proof fn include_then_exclude(inc: Seq<char>, exc: Seq<char>, path: Seq<char>)
    requires
        !is_exclusion(inc),
    ensures
        copy_wanted(seq![inc, seq!['!'] + exc], path) == (glob_matches(inc, path) && !glob_matches(exc, path)),
{
    let ps = seq![inc, seq!['!'] + exc];
    assert(ps.drop_last() =~= seq![inc]);
    assert(seq![inc].drop_last() =~= Seq::<Seq<char>>::empty());
    assert((seq!['!'] + exc).skip(1) =~= exc);
    assert(ps.last() == seq!['!'] + exc);
    assert(is_exclusion(ps.last()));
    assert(seq![inc].last() == inc);
    assert(include_patterns(seq![inc].drop_last()) =~= Seq::<Seq<char>>::empty());
    assert(include_patterns(seq![inc]) =~= seq![inc]);
    assert(include_patterns(ps) =~= seq![inc]);
    assert(exclude_patterns(seq![inc].drop_last()) =~= Seq::<Seq<char>>::empty());
    assert(exclude_patterns(seq![inc]) =~= Seq::<Seq<char>>::empty());
    assert(exclude_patterns(ps) =~= seq![exc]);
    if any_matches(seq![inc], path) {
        let i = choose|i: int| 0 <= i < seq![inc].len() && glob_matches(#[trigger] seq![inc][i], path);
        assert(i == 0);
    }
    if glob_matches(inc, path) {
        assert(glob_matches(seq![inc][0], path));
    }
    if any_matches(seq![exc], path) {
        let i = choose|i: int| 0 <= i < seq![exc].len() && glob_matches(#[trigger] seq![exc][i], path);
        assert(i == 0);
    }
    if glob_matches(exc, path) {
        assert(glob_matches(seq![exc][0], path));
    }
}

/// With the patterns `.env*` and `!.env.example`, of `.env`, `.env.local` and
/// `.env.example` exactly the first two are copied, given what the two globs
/// match of those names.
pub proof fn env_files_example(files: Seq<String>)
    requires
        files.len() == 3,
        files[0]@ == ".env"@,
        files[1]@ == ".env.local"@,
        files[2]@ == ".env.example"@,
        glob_matches(".env*"@, ".env"@),
        glob_matches(".env*"@, ".env.local"@),
        glob_matches(".env.example"@, ".env.example"@),
        !glob_matches(".env.example"@, ".env"@),
        !glob_matches(".env.example"@, ".env.local"@),
    ensures
        files.filter(|f: String| copy_wanted(seq![".env*"@, "!.env.example"@], f@)) == seq![files[0], files[1]],
{
    reveal_strlit(".env*");
    reveal_strlit("!.env.example");
    reveal_strlit(".env.example");
    let pats = seq![".env*"@, "!.env.example"@];
    assert("!.env.example"@ =~= seq!['!'] + ".env.example"@);
    assert(!is_exclusion(".env*"@));
    include_then_exclude(".env*"@, ".env.example"@, ".env"@);
    include_then_exclude(".env*"@, ".env.example"@, ".env.local"@);
    include_then_exclude(".env*"@, ".env.example"@, ".env.example"@);
    let pred = |f: String| copy_wanted(pats, f@);
    assert(pred(files[0]));
    assert(pred(files[1]));
    assert(!pred(files[2]));
    reveal(Seq::filter);
    let f0 = files.drop_last().drop_last();
    let f1 = files.drop_last();
    assert(f0.drop_last() =~= Seq::<String>::empty());
    assert(f0.drop_last().filter(pred) =~= Seq::<String>::empty());
    assert(f0.last() == files[0]);
    assert(f0.filter(pred) =~= seq![files[0]]);
    assert(f1.drop_last() =~= f0);
    assert(f1.last() == files[1]);
    assert(f1.filter(pred) =~= seq![files[0], files[1]]);
    assert(files.last() == files[2]);
    assert(files.filter(pred) =~= seq![files[0], files[1]]);
}

/// Why the copy rules could not be compiled.
#[derive(Debug)]
pub enum CopyError {
    /// A pattern that is no valid glob.
    InvalidGlob { pattern: String, source: globset::Error },
    /// The globs could not be combined into a set.
    SetBuild { source: globset::Error },
}

impl CopyError {
    /// A one-line description of the failure.
    pub fn message(&self) -> (r: String)
        ensures
            match *self {
                CopyError::InvalidGlob { pattern, .. } => r@ == "invalid glob: "@ + pattern@,
                CopyError::SetBuild { .. } => r@ == "failed to build glob set"@,
            },
    {
        match self {
            CopyError::InvalidGlob { pattern, .. } => {
                let mut s = String::from_str("invalid glob: ");
                crate::text::append_str(&mut s, pattern.as_str());
                s
            },
            CopyError::SetBuild { .. } => String::from_str("failed to build glob set"),
        }
    }
}

/// The compiled include and exclude sets of a copy step, built once.
pub struct CopyRules {
    includes: globset::GlobSet,
    excludes: globset::GlobSet,
    patterns: Ghost<Seq<Seq<char>>>,
}

impl CopyRules {
    /// The patterns the rules were compiled from.
    pub closed spec fn patterns(&self) -> Seq<Seq<char>> {
        self.patterns@
    }

    pub closed spec fn wf(&self) -> bool {
        &&& set_patterns(self.includes) == include_patterns(self.patterns@)
        &&& set_patterns(self.excludes) == exclude_patterns(self.patterns@)
    }

    /// Compile `patterns` into an include set and an exclude set.
    pub fn compile(patterns: &Vec<String>) -> (r: Result<CopyRules, CopyError>)
        ensures
            match r {
                Ok(rules) => rules.wf() && rules.patterns() == crate::text::views(patterns@)
                    && forall|i: int| 0 <= i < patterns@.len() ==> glob_accepts(glob_text(#[trigger] patterns@[i]@)),
                Err(CopyError::InvalidGlob { pattern, .. }) => exists|i: int|
                    0 <= i < patterns@.len() && pattern@ == glob_text(#[trigger] patterns@[i]@)
                        && !glob_accepts(pattern@),
                Err(CopyError::SetBuild { .. }) => true,
            },
    {
        let ghost pats = crate::text::views(patterns@);
        let mut inc = new_builder();
        let mut exc = new_builder();
        let mut i: usize = 0;
        while i < patterns.len()
            invariant
                i <= patterns@.len(),
                pats == crate::text::views(patterns@),
                builder_patterns(inc) == include_patterns(pats.take(i as int)),
                builder_patterns(exc) == exclude_patterns(pats.take(i as int)),
                forall|j: int| 0 <= j < i ==> glob_accepts(glob_text(#[trigger] patterns@[j]@)),
            decreases patterns@.len() - i,
        {
            let p = patterns[i].as_str();
            assert(pats.take(i as int + 1).drop_last() =~= pats.take(i as int));
            assert(pats.take(i as int + 1).last() == p@);
            let chars = crate::text::chars_of(p);
            if chars.len() > 0 && chars[0] == '!' {
                let rest = crate::text::string_from_range(&chars, 1, chars.len());
                assert(rest@ =~= p@.skip(1));
                match add_pattern(&mut exc, rest.as_str()) {
                    Ok(()) => {},
                    Err(e) => {
                        return Err(CopyError::InvalidGlob { pattern: rest, source: e });
                    },
                }
            } else {
                match add_pattern(&mut inc, p) {
                    Ok(()) => {},
                    Err(e) => {
                        return Err(CopyError::InvalidGlob { pattern: String::from_str(p), source: e });
                    },
                }
            }
            i = i + 1;
        }
        assert(pats.take(patterns@.len() as int) =~= pats);
        let includes = match build_set(&inc) {
            Ok(s) => s,
            Err(e) => {
                return Err(CopyError::SetBuild { source: e });
            },
        };
        let excludes = match build_set(&exc) {
            Ok(s) => s,
            Err(e) => {
                return Err(CopyError::SetBuild { source: e });
            },
        };
        Ok(CopyRules { includes, excludes, patterns: Ghost(pats) })
    }

    /// Whether the file at `relative` (to the source root) is to be copied.
    pub fn wants(&self, relative: &str) -> (r: bool)
        requires
            self.wf(),
        ensures
            r == copy_wanted(self.patterns(), relative@),
    {
        set_matches(&self.includes, relative) && !set_matches(&self.excludes, relative)
    }

    /// The paths of `files` that are to be copied, in order.
    pub fn select(&self, files: &Vec<String>) -> (r: Vec<String>)
        requires
            self.wf(),
        ensures
            r@ == files@.filter(|f: String| copy_wanted(self.patterns(), f@)),
    {
        let ghost pred = |f: String| copy_wanted(self.patterns(), f@);
        let mut out: Vec<String> = Vec::new();
        let mut i: usize = 0;
        while i < files.len()
            invariant
                i <= files@.len(),
                self.wf(),
                pred == (|f: String| copy_wanted(self.patterns(), f@)),
                out@ == files@.take(i as int).filter(pred),
            decreases files@.len() - i,
        {
            reveal(Seq::filter);
            assert(files@.take(i as int + 1).drop_last() =~= files@.take(i as int));
            if self.wants(files[i].as_str()) {
                out.push(files[i].clone());
            }
            i = i + 1;
        }
        assert(files@.take(files@.len() as int) =~= files@);
        out
    }
}

/// What the walk of the source tree does with one directory entry.
#[derive(Debug, Clone, Copy, PartialEq, Eq, Structural)]
pub enum EntryAction {
    /// Leave it alone.
    Skip,
    /// Walk into it.
    Descend,
    /// Copy it.
    Copy,
}

/// The kind of a directory entry, read without following links.
#[derive(Debug, Clone, Copy, PartialEq, Eq, Structural)]
pub enum EntryKind {
    Symlink,
    Directory,
    File,
    Other,
}

/// What to do with an entry: a link is never followed nor copied, a directory
/// is walked, a regular file is copied when the rules want it.
pub fn entry_action(kind: EntryKind, wanted: bool) -> (r: EntryAction)
    ensures
        kind == EntryKind::Symlink ==> r == EntryAction::Skip,
        kind == EntryKind::Directory ==> r == EntryAction::Descend,
        kind == EntryKind::File ==> r == (if wanted { EntryAction::Copy } else { EntryAction::Skip }),
        kind == EntryKind::Other ==> r == EntryAction::Skip,
{
    match kind {
        EntryKind::Symlink => EntryAction::Skip,
        EntryKind::Directory => EntryAction::Descend,
        EntryKind::File => if wanted { EntryAction::Copy } else { EntryAction::Skip },
        EntryKind::Other => EntryAction::Skip,
    }
}

/// A file that the copy step copied.
#[derive(Debug, Clone)]
pub struct CopiedFile {
    /// Its path relative to the source root.
    pub name: String,
    /// Where it was copied from.
    pub source: String,
    /// Where it was copied to.
    pub destination: String,
}

/// The files that the copy step copied.
#[derive(Debug, Clone)]
pub struct CopyResult {
    pub copied: Vec<CopiedFile>,
}

} // verus!

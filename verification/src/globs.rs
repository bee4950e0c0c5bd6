//! Include/exclude glob matching.
//!
//! A list of glob pattern strings is compiled into a [`CompiledMatcher`];
//! a path is relevant when the include matcher accepts it and the exclude
//! matcher does not. Compilation and matching are done by the `globset`
//! crate behind trusted wrappers; everything around the calls is verified.

use vstd::prelude::*;

verus! {

// ---------------------------------------------------------------------------
// Trusted view of the globset crate.
// ---------------------------------------------------------------------------

/// A single compiled glob pattern, opaque here.
#[verifier::external_type_specification]
#[verifier::external_body]
pub struct ExGlob(globset::Glob);

/// An under-construction set of globs, opaque here.
#[verifier::external_type_specification]
#[verifier::external_body]
pub struct ExGlobSetBuilder(globset::GlobSetBuilder);

/// A built set of globs matched together, opaque here.
#[verifier::external_type_specification]
#[verifier::external_body]
pub struct ExGlobSet(globset::GlobSet);

/// The crate's error value, carried through for reporting, opaque here.
#[verifier::external_type_specification]
#[verifier::external_body]
pub struct ExGlobError(globset::Error);

/// Whether `globset::Glob::new` accepts the pattern: glob parsing is a pure
/// function of the pattern string alone, per compile target (the crate's
/// default backslash-escape option differs between targets, so a pattern
/// holding `\` may parse differently on another one).
pub uninterp spec fn glob_valid(pattern: Seq<char>) -> bool;

/// The pattern string a `globset::Glob` was built from.
pub uninterp spec fn glob_pat(g: globset::Glob) -> Seq<char>;

/// The patterns added to a `globset::GlobSetBuilder` so far, in order.
pub uninterp spec fn builder_pats(b: globset::GlobSetBuilder) -> Seq<Seq<char>>;

/// The patterns a built `globset::GlobSet` holds, in order.
pub uninterp spec fn globset_pats(s: globset::GlobSet) -> Seq<Seq<char>>;

/// Whether one glob pattern matches a path given in normalized
/// (forward-slash separated) form. Glob matching is a pure function of the
/// pattern and the path, per compile target (see [`glob_valid`]): the
/// crate's separator normalization is the identity on normalized paths.
pub uninterp spec fn glob_match(pattern: Seq<char>, path: Seq<char>) -> bool;

/// Whether `globset::GlobSetBuilder::build` succeeds on this pattern list:
/// its only failure paths are the regex assemblies of the set's own
/// generated regexes under a fixed size limit, so success is a function of
/// the patterns alone, per compile target (see [`glob_valid`]).
pub uninterp spec fn build_ok(pats: Seq<Seq<char>>) -> bool;

/// Whether any pattern of a compiled set matches the path.
pub open spec fn set_match(pats: Seq<Seq<char>>, path: Seq<char>) -> bool {
    exists|i: int| 0 <= i < pats.len() && glob_match(#[trigger] pats[i], path)
}

/// Relies on globset::Glob::new: parses the pattern and fails exactly when
/// the pattern is syntactically invalid; the returned glob represents that
/// pattern.
#[verifier::external_body]
fn glob_new(pattern: &str) -> (r: Result<globset::Glob, globset::Error>)
    ensures
        (r is Ok) == glob_valid(pattern@),
        r matches Ok(g) ==> glob_pat(g) == pattern@,
{
    globset::Glob::new(pattern)
}

/// Relies on globset::GlobSetBuilder::new: starts from an empty pattern
/// list.
#[verifier::external_body]
fn builder_new() -> (r: globset::GlobSetBuilder)
    ensures
        builder_pats(r) == Seq::<Seq<char>>::empty(),
{
    globset::GlobSetBuilder::new()
}

/// Relies on globset::GlobSetBuilder::add: appends one glob to the
/// builder's pattern list.
#[verifier::external_body]
fn builder_add(b: &mut globset::GlobSetBuilder, g: globset::Glob)
    ensures
        builder_pats(*final(b)) == builder_pats(*old(b)).push(glob_pat(g)),
{
    b.add(g);
}

/// Relies on globset::GlobSetBuilder::build: on success the set holds
/// exactly the patterns added to the builder, in order. Its failure path is
/// the final regex assembly, deterministic in the patterns, so success is
/// exactly `build_ok` of them.
#[verifier::external_body]
fn builder_build(b: &globset::GlobSetBuilder) -> (r: Result<
    globset::GlobSet,
    globset::Error,
>)
    ensures
        (r is Ok) == build_ok(builder_pats(*b)),
        r matches Ok(s) ==> globset_pats(s) == builder_pats(*b),
{
    b.build()
}

/// Relies on globset::GlobSet::is_match: returns true if any glob in the
/// set matches the path given.
#[verifier::external_body]
fn set_is_match(s: &globset::GlobSet, path: &str) -> (r: bool)
    ensures
        r == (exists|i: int|
            0 <= i < globset_pats(*s).len() && glob_match(#[trigger] globset_pats(*s)[i], path@)),
{
    s.is_match(path)
}

// ---------------------------------------------------------------------------
// Verified matcher.
// ---------------------------------------------------------------------------

/// The views of a sequence of pattern strings.
pub open spec fn str_views(pats: Seq<String>) -> Seq<Seq<char>> {
    pats.map_values(|p: String| p@)
}

/// Whether every pattern of the list is a valid glob.
pub open spec fn all_valid(pats: Seq<Seq<char>>) -> bool {
    forall|i: int| 0 <= i < pats.len() ==> glob_valid(#[trigger] pats[i])
}

/// Whether `pattern` is the first syntactically invalid pattern of the list.
pub open spec fn first_invalid_of(pats: Seq<Seq<char>>, pattern: Seq<char>) -> bool {
    exists|i: int|
        0 <= i < pats.len() && !glob_valid(#[trigger] pats[i]) && pattern == pats[i] && (forall|
            j: int,
        | 0 <= j < i ==> glob_valid(#[trigger] pats[j]))
}

/// Why a pattern list failed to compile.
#[derive(Debug)]
pub enum CompileError {
    /// A pattern was syntactically invalid; `pattern` is the first such
    /// pattern of the list.
    Pattern { pattern: String, err: globset::Error },
    /// Every pattern was valid but the matcher's final assembly failed.
    Build { err: globset::Error },
}

/// A compiled, immutable glob set. Its view is the sequence of pattern
/// strings it was compiled from.
pub struct CompiledMatcher {
    set: globset::GlobSet,
}

impl View for CompiledMatcher {
    type V = Seq<Seq<char>>;

    closed spec fn view(&self) -> Seq<Seq<char>> {
        globset_pats(self.set)
    }
}

/// Compiles a list of glob patterns into one matcher. Fails with
/// `CompileError::Pattern` exactly when some pattern is invalid, naming the
/// first offending pattern; on a list of valid patterns, succeeds exactly
/// when the set's final assembly does.
pub fn compile(patterns: &Vec<String>) -> (r: Result<CompiledMatcher, CompileError>)
    ensures
        r matches Ok(m) ==> m@ == str_views(patterns@) && all_valid(str_views(patterns@))
            && build_ok(str_views(patterns@)),
        r matches Err(e) ==> match e {
            CompileError::Pattern { pattern, err } => !all_valid(str_views(patterns@))
                && first_invalid_of(str_views(patterns@), pattern@),
            CompileError::Build { err } => all_valid(str_views(patterns@)) && !build_ok(
                str_views(patterns@),
            ),
        },
        !all_valid(str_views(patterns@)) ==> (r matches Err(e) && e matches CompileError::Pattern {
            ..
        }),
        all_valid(str_views(patterns@)) ==> ((r is Ok) == build_ok(str_views(patterns@))),
{
    let mut builder = builder_new();
    let mut k: usize = 0;
    while k < patterns.len()
        invariant
            k <= patterns@.len(),
            builder_pats(builder) =~= str_views(patterns@.take(k as int)),
            forall|j: int| 0 <= j < k ==> glob_valid(#[trigger] patterns@[j]@),
        decreases patterns@.len() - k,
    {
        match glob_new(patterns[k].as_str()) {
            Ok(g) => {
                builder_add(&mut builder, g);
                proof {
                    assert(patterns@.take(k + 1).drop_last() =~= patterns@.take(k as int));
                    assert(str_views(patterns@.take(k + 1)) =~= str_views(
                        patterns@.take(k as int),
                    ).push(patterns@[k as int]@));
                }
            },
            Err(e) => {
                proof {
                    assert(str_views(patterns@)[k as int] == patterns@[k as int]@);
                    assert forall|j: int| 0 <= j < k implies glob_valid(
                        str_views(patterns@)[j],
                    ) by {
                        assert(str_views(patterns@)[j] == patterns@[j]@);
                    }
                    assert(first_invalid_of(str_views(patterns@), patterns@[k as int]@));
                }
                return Err(CompileError::Pattern { pattern: patterns[k].clone(), err: e });
            },
        }
        k += 1;
    }
    proof {
        assert(patterns@.take(patterns@.len() as int) =~= patterns@);
        assert(all_valid(str_views(patterns@)));
    }
    match builder_build(&builder) {
        Ok(s) => Ok(CompiledMatcher { set: s }),
        Err(e) => Err(CompileError::Build { err: e }),
    }
}

impl CompiledMatcher {
    /// Tests a normalized path against the compiled set: true iff any of
    /// the compiled patterns matches it. Never fails, for any path.
    pub fn is_match(&self, path: &str) -> (r: bool)
        ensures
            r == set_match(self@, path@),
    {
        set_is_match(&self.set, path)
    }
}

/// A path is relevant when the watch matcher accepts it and the ignore
/// matcher does not.
pub open spec fn relevant(watch: Seq<Seq<char>>, ignore: Seq<Seq<char>>, path: Seq<char>) -> bool {
    set_match(watch, path) && !set_match(ignore, path)
}

/// Tests a path against a watch matcher and an ignore matcher.
pub fn is_relevant(watch: &CompiledMatcher, ignore: &CompiledMatcher, path: &str) -> (r: bool)
    ensures
        r == relevant(watch@, ignore@, path@),
{
    watch.is_match(path) && !ignore.is_match(path)
}

/// The filtering step of the event pipeline: scans a coalesced batch of
/// paths and returns the index of the first relevant one, for display; the
/// batch triggers exactly one run when some path is relevant, none
/// otherwise, however many relevant paths it holds.
pub fn first_relevant(batch: &Vec<String>, watch: &CompiledMatcher, ignore: &CompiledMatcher) -> (r:
    Option<usize>)
    ensures
        r matches Some(i) ==> i < batch@.len() && relevant(watch@, ignore@, batch@[i as int]@) && (
        forall|j: int| 0 <= j < i ==> !relevant(watch@, ignore@, #[trigger] batch@[j]@)),
        r is None ==> (forall|j: int|
            0 <= j < batch@.len() ==> !relevant(watch@, ignore@, #[trigger] batch@[j]@)),
{
    let mut k: usize = 0;
    while k < batch.len()
        invariant
            k <= batch@.len(),
            forall|j: int| 0 <= j < k ==> !relevant(watch@, ignore@, #[trigger] batch@[j]@),
        decreases batch@.len() - k,
    {
        if is_relevant(watch, ignore, batch[k].as_str()) {
            return Some(k);
        }
        k += 1;
    }
    None
}

/// Ignore dominance: a path the ignore matcher accepts is never relevant,
/// whatever the watch matcher says.
pub proof fn lemma_ignore_dominates(watch: Seq<Seq<char>>, ignore: Seq<Seq<char>>, path: Seq<char>)
    requires
        set_match(ignore, path),
    ensures
        !relevant(watch, ignore, path),
{
}

} // verus!

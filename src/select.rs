use vstd::prelude::*;
use crate::error::ErrorKind;

verus! {

#[verifier::external_type_specification]
#[verifier::external_body]
pub struct ExGitignoreBuilder(ignore::gitignore::GitignoreBuilder);

#[verifier::external_type_specification]
#[verifier::external_body]
pub struct ExGitignore(ignore::gitignore::Gitignore);

/// What the last pattern that matches a path, or one of its parents, says.
#[derive(Clone, Copy, Debug, PartialEq, Eq, Structural)]
pub enum Verdict {
    /// No pattern matches.
    Unmatched,
    /// The last matching pattern excludes the path.
    Ignored,
    /// The last matching pattern is a `!` pattern that includes it again.
    Whitelisted,
}

/// The globs a gitignore builder holds so far, each as the line it kept.
pub uninterp spec fn builder_lines(b: ignore::gitignore::GitignoreBuilder) -> Seq<Seq<char>>;

/// The lines a gitignore matcher was built from.
pub uninterp spec fn matcher_lines(g: ignore::gitignore::Gitignore) -> Seq<Seq<char>>;

/// Whether the ignore crate accepts a kept line as a gitignore glob.
pub uninterp spec fn line_accepted(line: Seq<char>) -> bool;

/// Whether the ignore crate can build a matcher from accepted lines.
pub uninterp spec fn lines_build(lines: Seq<Seq<char>>) -> bool;

/// What a matcher built from `lines`, rooted at `.`, says of a file path or
/// any of its parents.
pub uninterp spec fn gitignore_verdict(lines: Seq<Seq<char>>, path: Seq<char>) -> Verdict;

/// Relies on `GitignoreBuilder::new`: a builder rooted at `.` holds no
/// line yet.
#[verifier::external_body]
fn new_builder() -> (r: ignore::gitignore::GitignoreBuilder)
    ensures
        builder_lines(r) == Seq::<Seq<char>>::empty(),
{
    ignore::gitignore::GitignoreBuilder::new(".")
}

/// The characters `char::is_whitespace` accepts: Unicode `White_Space`.
pub open spec fn is_white_space(c: char) -> bool {
    ('\u{9}' <= c && c <= '\u{d}') || c == ' ' || c == '\u{85}' || c == '\u{a0}' || c == '\u{1680}'
        || ('\u{2000}' <= c && c <= '\u{200a}') || c == '\u{2028}' || c == '\u{2029}' || c
        == '\u{202f}' || c == '\u{205f}' || c == '\u{3000}'
}

/// The line without its trailing white space, as `str::trim_end` leaves it.
pub open spec fn trim_end(l: Seq<char>) -> Seq<char>
    decreases l.len(),
{
    if l.len() > 0 && is_white_space(l.last()) {
        trim_end(l.drop_last())
    } else {
        l
    }
}

/// What a gitignore builder keeps of a line: nothing of a comment (a line
/// that starts with `#`) or of a line that is blank once its trailing white
/// space is trimmed; else the line, trimmed unless it ends in `\ `.
pub open spec fn kept_line(l: Seq<char>) -> Option<Seq<char>> {
    if l.len() > 0 && l[0] == '#' {
        None
    } else {
        let t = if l.len() >= 2 && l[l.len() - 2] == '\\' && l[l.len() - 1] == ' ' {
            l
        } else {
            trim_end(l)
        };
        if t.len() == 0 {
            None
        } else {
            Some(t)
        }
    }
}

/// The builder takes the line: nothing is kept of it, or what is kept is a
/// glob.
pub open spec fn pattern_ok(l: Seq<char>) -> bool {
    match kept_line(l) {
        Some(k) => line_accepted(k),
        None => true,
    }
}

/// What a builder keeps of the lines, in order.
pub open spec fn kept_lines(ls: Seq<Seq<char>>) -> Seq<Seq<char>>
    decreases ls.len(),
{
    if ls.len() == 0 {
        Seq::empty()
    } else {
        match kept_line(ls.last()) {
            Some(k) => kept_lines(ls.drop_last()).push(k),
            None => kept_lines(ls.drop_last()),
        }
    }
}

/// Relies on `GitignoreBuilder::add_line`: a comment or blank line is taken
/// and adds nothing; any other line is trimmed as [`kept_line`] says and
/// added when it is a glob, else refused with nothing added. The error is
/// passed on as its `Display` text.
#[verifier::external_body]
fn add_line(b: &mut ignore::gitignore::GitignoreBuilder, line: &str) -> (r: Result<(), String>)
    ensures
        r is Ok <==> match kept_line(line@) {
            Some(k) => line_accepted(k),
            None => true,
        },
        r is Ok ==> builder_lines(*final(b)) == match kept_line(line@) {
            Some(k) => builder_lines(*old(b)).push(k),
            None => builder_lines(*old(b)),
        },
        r is Err ==> builder_lines(*final(b)) == builder_lines(*old(b)),
{
    b.add_line(None, line).map(|_| ()).map_err(|e| e.to_string())
}

/// Relies on `GitignoreBuilder::build`: the matcher holds the lines added.
/// The error is passed on as its `Display` text.
#[verifier::external_body]
fn build(b: &ignore::gitignore::GitignoreBuilder) -> (r: Result<ignore::gitignore::Gitignore, String>)
    ensures
        r is Ok <==> lines_build(builder_lines(*b)),
        r is Ok ==> matcher_lines(r->Ok_0) == builder_lines(*b),
{
    b.build().map_err(|e| e.to_string())
}

/// A path that the matcher can take: not rooted, also after a leading `./`
/// is taken off, since `matched_path_or_any_parents` panics on such a path.
pub open spec fn relative_path(p: Seq<char>) -> bool {
    !(p.len() > 0 && p[0] == '/') && !(p.len() > 2 && p[0] == '.' && p[1] == '/' && p[2] == '/')
}

/// Relies on `Gitignore::matched_path_or_any_parents` for a file: the
/// verdict of the last pattern that matches the path or one of its parents.
#[verifier::external_body]
fn verdict(g: &ignore::gitignore::Gitignore, path: &str) -> (r: Verdict)
    requires
        relative_path(path@),
    ensures
        r == gitignore_verdict(matcher_lines(*g), path@),
        matcher_lines(*g).len() == 0 ==> r == Verdict::Unmatched,
{
    match g.matched_path_or_any_parents(path, false) {
        ignore::Match::None => Verdict::Unmatched,
        ignore::Match::Ignore(_) => Verdict::Ignored,
        ignore::Match::Whitelist(_) => Verdict::Whitelisted,
    }
}

pub open spec fn pattern_lines(patterns: Seq<&str>) -> Seq<Seq<char>> {
    patterns.map_values(|p: &str| p@)
}

/// The builder takes every pattern.
pub open spec fn patterns_ok(patterns: Seq<&str>) -> bool {
    forall|i: int| 0 <= i < patterns.len() ==> pattern_ok(#[trigger] patterns[i]@)
}

/// Ignore patterns in gitignore syntax, matched against case names.
pub struct Matches {
    ignores: ignore::gitignore::Gitignore,
}

impl Matches {
    /// The lines the patterns were built from.
    pub closed spec fn lines(&self) -> Seq<Seq<char>> {
        matcher_lines(self.ignores)
    }

    /// Builds the patterns. A pattern that is not a glob fails the whole
    /// selection with a selector error, before any case is looked at.
    pub fn new(patterns: &[&str]) -> (r: Result<Matches, crate::error::Error>)
        ensures
            r is Ok <==> patterns_ok(patterns@) && lines_build(kept_lines(pattern_lines(patterns@))),
            r is Ok ==> r->Ok_0.lines() == kept_lines(pattern_lines(patterns@)),
            r is Err ==> r->Err_0.spec_kind() == ErrorKind::Selector,
    {
        let mut builder = new_builder();
        let mut i: usize = 0;
        while i < patterns.len()
            invariant
                i <= patterns@.len(),
                builder_lines(builder) == kept_lines(pattern_lines(patterns@.take(i as int))),
                forall|k: int| 0 <= k < i ==> pattern_ok(#[trigger] patterns@[k]@),
            decreases patterns.len() - i,
        {
            match add_line(&mut builder, patterns[i]) {
                Ok(()) => {},
                Err(e) => {
                    assert(!pattern_ok(patterns@[i as int]@));
                    return Err(crate::error::Error::with_kind(ErrorKind::Selector, e));
                },
            }
            assert(pattern_lines(patterns@.take(i + 1)) =~= pattern_lines(patterns@.take(i as int)).push(
                patterns@[i as int]@,
            ));
            assert(pattern_lines(patterns@.take(i + 1)).drop_last() == pattern_lines(
                patterns@.take(i as int),
            ));
            assert(pattern_lines(patterns@.take(i + 1)).last() == patterns@[i as int]@);
            i = i + 1;
        }
        assert(patterns@.take(i as int) =~= patterns@);
        match build(&builder) {
            Ok(ignores) => Ok(Matches { ignores }),
            Err(e) => Err(crate::error::Error::with_kind(ErrorKind::Selector, e)),
        }
    }

    /// What the patterns say of a path.
    pub fn verdict(&self, path: &str) -> (r: Verdict)
        requires
            relative_path(path@),
        ensures
            r == gitignore_verdict(self.lines(), path@),
            self.lines().len() == 0 ==> r == Verdict::Unmatched,
    {
        verdict(&self.ignores, path)
    }

    /// Whether a case runs: no pattern matches it, or the last one that does
    /// includes it again.
    pub fn matched(&self, path: &str) -> (r: bool)
        requires
            relative_path(path@),
        ensures
            r == !(gitignore_verdict(self.lines(), path@) is Ignored),
            self.lines().len() == 0 ==> r,
    {
        match verdict(&self.ignores, path) {
            Verdict::Unmatched => true,
            Verdict::Whitelisted => true,
            Verdict::Ignored => false,
        }
    }
}

} // verus!

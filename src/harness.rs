use vstd::prelude::*;
use crate::corpus::{
    invalid, invalid_cases_of, invalid_indices, string_views, valid, valid_cases_of, valid_indices,
    expected_path, file_index_from, invalid_layout, pairs_complete, valid_layout, version, version_names, Corpus, CorpusFile,
    Invalid, Valid,
};
use crate::error::{Error, ErrorKind};
use crate::select::{
    gitignore_verdict, kept_lines, lines_build, pattern_lines, patterns_ok, relative_path, Matches,
};
use crate::text::same_text;
use crate::verify::Decoder;

verus! {

/// A case is in the version's allow-list, or no version was chosen.
pub open spec fn allowed(versioned: Option<Seq<Seq<char>>>, name: Seq<char>) -> bool {
    match versioned {
        Some(names) => names.contains(name),
        None => true,
    }
}

/// No ignore pattern excludes the case, or there are none.
pub open spec fn kept(lines: Option<Seq<Seq<char>>>, name: Seq<char>) -> bool {
    match lines {
        Some(l) => !(gitignore_verdict(l, name) is Ignored),
        None => true,
    }
}

pub open spec fn matches_lines(m: Option<Matches>) -> Option<Seq<Seq<char>>> {
    match m {
        Some(x) => Some(x.lines()),
        None => None,
    }
}

fn contains_name(names: &Vec<String>, name: &str) -> (r: bool)
    ensures
        r == string_views(names@).contains(name@),
{
    let mut i: usize = 0;
    while i < names.len()
        invariant
            i <= names.len(),
            forall|k: int| 0 <= k < i ==> names@[k]@ != name@,
        decreases names.len() - i,
    {
        if same_text(names[i].as_str(), name) {
            assert(string_views(names@)[i as int] == name@);
            return true;
        }
        i = i + 1;
    }
    assert forall|k: int| 0 <= k < string_views(names@).len() implies string_views(names@)[k]
        != name@ by {
        assert(string_views(names@)[k] == names@[k]@);
    }
    false
}

fn kept_exec(matches: &Option<Matches>, name: &str) -> (r: bool)
    requires
        relative_path(name@),
    ensures
        r == kept(matches_lines(*matches), name@),
{
    match matches {
        Some(m) => m.matched(name),
        None => true,
    }
}

fn relative_path_exec(p: &str) -> (r: bool)
    ensures
        r == relative_path(p@),
{
    let n = p.unicode_len();
    if n > 0 && p.get_char(0) == '/' {
        return false;
    }
    if n > 2 && p.get_char(0) == '.' && p.get_char(1) == '/' && p.get_char(2) == '/' {
        return false;
    }
    true
}

fn name_error(name: &str) -> (r: Error)
    ensures
        r.spec_kind() == ErrorKind::Corpus,
{
    let mut message = String::from_str("a case name must be a relative path: ");
    message.append(name);
    Error::with_kind(ErrorKind::Corpus, message)
}

pub open spec fn version_view(versioned: Option<Vec<String>>) -> Option<Seq<Seq<char>>> {
    match versioned {
        Some(v) => Some(string_views(v@)),
        None => None,
    }
}

/// Every case name is a relative path.
pub open spec fn names_relative(names: Seq<Seq<char>>) -> bool {
    forall|k: int| 0 <= k < names.len() ==> relative_path(#[trigger] names[k])
}

pub open spec fn valid_names(cases: Seq<Valid>) -> Seq<Seq<char>> {
    cases.map_values(|c: Valid| c.name@)
}

pub open spec fn invalid_names(cases: Seq<Invalid>) -> Seq<Seq<char>> {
    cases.map_values(|c: Invalid| c.name@)
}

/// The run-or-skip marks of a list of cases: the case at `k` is `names[k]`,
/// skipped unless the version allows it (for corpus cases) and no pattern
/// excludes it.
pub open spec fn marked(
    names: Seq<Seq<char>>,
    ignored: Seq<bool>,
    versioned: Option<Seq<Seq<char>>>,
    lines: Option<Seq<Seq<char>>>,
    from_corpus: bool,
) -> bool {
    &&& ignored.len() == names.len()
    &&& forall|k: int|
        0 <= k < names.len() ==> #[trigger] ignored[k] == !((!from_corpus || allowed(
            versioned,
            names[k],
        )) && kept(lines, names[k]))
}

/// The marks of a list of cases, or a corpus error where a name is not a
/// relative path.
fn mark(
    names: &Vec<String>,
    versioned: &Option<Vec<String>>,
    matches: &Option<Matches>,
    from_corpus: bool,
) -> (r: Result<Vec<bool>, Error>)
    ensures
        r is Ok <==> names_relative(string_views(names@)),
        r is Ok ==> marked(
            string_views(names@),
            r->Ok_0@,
            version_view(*versioned),
            matches_lines(*matches),
            from_corpus,
        ),
        r is Err ==> r->Err_0.spec_kind() == ErrorKind::Corpus,
{
    let mut out: Vec<bool> = Vec::new();
    let mut i: usize = 0;
    while i < names.len()
        invariant
            i <= names.len(),
            out@.len() == i,
            forall|k: int| 0 <= k < i ==> relative_path(#[trigger] names@[k]@),
            forall|k: int|
                0 <= k < i ==> #[trigger] out@[k] == !((!from_corpus || allowed(
                    version_view(*versioned),
                    names@[k]@,
                )) && kept(matches_lines(*matches), names@[k]@)),
        decreases names.len() - i,
    {
        let name = names[i].as_str();
        if !relative_path_exec(name) {
            assert(string_views(names@)[i as int] == names@[i as int]@);
            return Err(name_error(name));
        }
        let in_version = match versioned {
            Some(v) => contains_name(v, name),
            None => true,
        };
        let runs = (!from_corpus || in_version) && kept_exec(matches, name);
        out.push(!runs);
        i = i + 1;
    }
    assert forall|k: int| 0 <= k < string_views(names@).len() implies relative_path(
        #[trigger] string_views(names@)[k],
    ) by {
        assert(string_views(names@)[k] == names@[k]@);
    }
    assert forall|k: int| 0 <= k < string_views(names@).len() implies #[trigger] out@[k] == !((
    !from_corpus || allowed(version_view(*versioned), string_views(names@)[k])) && kept(
        matches_lines(*matches),
        string_views(names@)[k],
    )) by {
        assert(string_views(names@)[k] == names@[k]@);
    }
    Ok(out)
}

fn names_of_valid(cases: &Vec<Valid>) -> (r: Vec<String>)
    ensures
        string_views(r@) == valid_names(cases@),
{
    let mut out: Vec<String> = Vec::new();
    let mut i: usize = 0;
    while i < cases.len()
        invariant
            i <= cases.len(),
            out@.len() == i,
            forall|k: int| 0 <= k < i ==> (#[trigger] out@[k])@ == cases@[k].name@,
        decreases cases.len() - i,
    {
        out.push(cases[i].name.clone());
        i = i + 1;
    }
    assert forall|k: int| 0 <= k < cases@.len() implies #[trigger] string_views(out@)[k]
        == valid_names(cases@)[k] by {
        assert(out@[k]@ == cases@[k].name@);
    }
    assert(string_views(out@) =~= valid_names(cases@));
    out
}

fn names_of_invalid(cases: &Vec<Invalid>) -> (r: Vec<String>)
    ensures
        string_views(r@) == invalid_names(cases@),
{
    let mut out: Vec<String> = Vec::new();
    let mut i: usize = 0;
    while i < cases.len()
        invariant
            i <= cases.len(),
            out@.len() == i,
            forall|k: int| 0 <= k < i ==> (#[trigger] out@[k])@ == cases@[k].name@,
        decreases cases.len() - i,
    {
        out.push(cases[i].name.clone());
        i = i + 1;
    }
    assert forall|k: int| 0 <= k < cases@.len() implies #[trigger] string_views(out@)[k]
        == invalid_names(cases@)[k] by {
        assert(out@[k]@ == cases@[k].name@);
    }
    assert(string_views(out@) =~= invalid_names(cases@));
    out
}

/// The corpus can be run: every valid document has its expected encoding,
/// both groups are laid out as expected, and every case name is a relative
/// path.
pub open spec fn corpus_runnable(files: Seq<CorpusFile>) -> bool {
    &&& pairs_complete(files)
    &&& valid_layout(files)
    &&& invalid_layout(files)
    &&& names_relative(valid_case_names(files))
    &&& names_relative(invalid_case_names(files))
}

proof fn lemma_case_names(files: Seq<CorpusFile>, v: Seq<Valid>, i: Seq<Invalid>)
    requires
        valid_cases_of(files, v),
        invalid_cases_of(files, i),
    ensures
        valid_names(v) == valid_case_names(files),
        invalid_names(i) == invalid_case_names(files),
{
    assert(valid_names(v) =~= valid_case_names(files));
    assert(invalid_names(i) =~= invalid_case_names(files));
}

/// What a run does: the cases in the order they are reported, each marked
/// to run or to be skipped.
pub struct Plan {
    pub valid: Vec<Valid>,
    pub valid_ignored: Vec<bool>,
    pub invalid: Vec<Invalid>,
    pub invalid_ignored: Vec<bool>,
}

/// Plans a run over the corpus and the added cases.
///
/// The valid cases of the corpus come first, then the added valid cases;
/// likewise for the invalid ones. A corpus case runs when the chosen version
/// lists it, or no version is chosen, and no ignore pattern excludes it; an
/// added case runs whatever the version, unless a pattern excludes it.
pub fn plan(
    corpus: &Corpus,
    version_tag: &Option<String>,
    matches: &Option<Matches>,
    custom_valid: &Vec<Valid>,
    custom_invalid: &Vec<Invalid>,
) -> (r: Result<Plan, Error>)
    ensures
        r is Ok ==> {
            let p = r->Ok_0;
            let versioned = match version_tag {
                Some(t) => Some(version_names(corpus.files@, t@)),
                None => None,
            };
            let lines = matches_lines(*matches);
            let nv = valid_indices(corpus.files@).len() as int;
            let ni = invalid_indices(corpus.files@).len() as int;
            &&& p.valid@.len() == nv + custom_valid@.len()
            &&& p.invalid@.len() == ni + custom_invalid@.len()
            &&& marked(valid_names(p.valid@).take(nv), p.valid_ignored@.take(nv), versioned, lines, true)
            &&& marked(valid_names(p.valid@).skip(nv), p.valid_ignored@.skip(nv), versioned, lines, false)
            &&& valid_cases_of(corpus.files@, p.valid@.take(nv))
            &&& valid_names(p.valid@).skip(nv) == valid_names(custom_valid@)
            &&& marked(invalid_names(p.invalid@).take(ni), p.invalid_ignored@.take(ni), versioned, lines, true)
            &&& marked(invalid_names(p.invalid@).skip(ni), p.invalid_ignored@.skip(ni), versioned, lines, false)
            &&& invalid_cases_of(corpus.files@, p.invalid@.take(ni))
            &&& invalid_names(p.invalid@).skip(ni) == invalid_names(custom_invalid@)
        },
        r is Ok <==> corpus_runnable(corpus.files@) && names_relative(valid_names(custom_valid@))
            && names_relative(invalid_names(custom_invalid@)),
        r is Err ==> r->Err_0.spec_kind() == ErrorKind::Corpus,
{
    let versioned: Option<Vec<String>> = match version_tag {
        Some(t) => Some(version(corpus, t.as_str())),
        None => None,
    };
    let mut valid_cases = valid(corpus)?;
    let mut invalid_cases = invalid(corpus)?;
    proof {
        lemma_case_names(corpus.files@, valid_cases@, invalid_cases@);
    }
    let mut valid_ignored = mark(&names_of_valid(&valid_cases), &versioned, matches, true)?;
    let mut extra_valid_ignored = mark(&names_of_valid(custom_valid), &versioned, matches, false)?;
    let mut invalid_ignored = mark(&names_of_invalid(&invalid_cases), &versioned, matches, true)?;
    let mut extra_invalid_ignored = mark(
        &names_of_invalid(custom_invalid),
        &versioned,
        matches,
        false,
    )?;
    let ghost corpus_valid = valid_cases@;
    let ghost corpus_invalid = invalid_cases@;
    let mut extra_valid = copy_valid(custom_valid);
    let mut extra_invalid = copy_invalid(custom_invalid);
    valid_cases.append(&mut extra_valid);
    valid_ignored.append(&mut extra_valid_ignored);
    invalid_cases.append(&mut extra_invalid);
    invalid_ignored.append(&mut extra_invalid_ignored);
    proof {
        let nv = corpus_valid.len() as int;
        let ni = corpus_invalid.len() as int;
        assert(valid_names(valid_cases@).take(nv) =~= valid_names(corpus_valid));
        assert(valid_names(valid_cases@).skip(nv) =~= valid_names(custom_valid@));
        assert(valid_cases@.take(nv) =~= corpus_valid);
        assert(invalid_cases@.take(ni) =~= corpus_invalid);
        assert(invalid_names(invalid_cases@).take(ni) =~= invalid_names(corpus_invalid));
        assert(invalid_names(invalid_cases@).skip(ni) =~= invalid_names(custom_invalid@));
    }
    Ok(
        Plan {
            valid: valid_cases,
            valid_ignored,
            invalid: invalid_cases,
            invalid_ignored,
        },
    )
}

fn copy_valid(cases: &Vec<Valid>) -> (r: Vec<Valid>)
    ensures
        valid_names(r@) == valid_names(cases@),
        forall|k: int|
            0 <= k < cases@.len() ==> (#[trigger] r@[k]).fixture@ == cases@[k].fixture@
                && r@[k].expected@ == cases@[k].expected@,
{
    let mut out: Vec<Valid> = Vec::new();
    let mut i: usize = 0;
    while i < cases.len()
        invariant
            i <= cases.len(),
            out@.len() == i,
            forall|k: int|
                0 <= k < i ==> (#[trigger] out@[k]).name@ == cases@[k].name@ && out@[k].fixture@
                    == cases@[k].fixture@ && out@[k].expected@ == cases@[k].expected@,
        decreases cases.len() - i,
    {
        out.push(cases[i].borrow());
        i = i + 1;
    }
    assert(valid_names(out@) =~= valid_names(cases@));
    out
}

fn copy_invalid(cases: &Vec<Invalid>) -> (r: Vec<Invalid>)
    ensures
        invalid_names(r@) == invalid_names(cases@),
        forall|k: int|
            0 <= k < cases@.len() ==> (#[trigger] r@[k]).fixture@ == cases@[k].fixture@,
{
    let mut out: Vec<Invalid> = Vec::new();
    let mut i: usize = 0;
    while i < cases.len()
        invariant
            i <= cases.len(),
            out@.len() == i,
            forall|k: int|
                0 <= k < i ==> (#[trigger] out@[k]).name@ == cases@[k].name@ && out@[k].fixture@
                    == cases@[k].fixture@,
        decreases cases.len() - i,
    {
        out.push(cases[i].borrow());
        i = i + 1;
    }
    assert(invalid_names(out@) =~= invalid_names(cases@));
    out
}

/// Runs decoder compliance cases: those of the corpus, restricted to a spec
/// version when one is chosen, and any added ones, less those that the
/// ignore patterns exclude.
pub struct DecoderHarness<D> {
    decoder: D,
    matches: Option<Matches>,
    version: Option<String>,
    custom_valid: Vec<Valid>,
    custom_invalid: Vec<Invalid>,
    snapshot_root: Option<String>,
}

impl<D> DecoderHarness<D> {
    pub closed spec fn spec_matches(&self) -> Option<Seq<Seq<char>>> {
        matches_lines(self.matches)
    }

    pub closed spec fn spec_version(&self) -> Option<Seq<char>> {
        match self.version {
            Some(v) => Some(v@),
            None => None,
        }
    }

    pub closed spec fn spec_custom_valid(&self) -> Seq<Seq<char>> {
        valid_names(self.custom_valid@)
    }

    pub closed spec fn spec_custom_invalid(&self) -> Seq<Seq<char>> {
        invalid_names(self.custom_invalid@)
    }

    pub closed spec fn spec_snapshot_root(&self) -> Option<Seq<char>> {
        match self.snapshot_root {
            Some(v) => Some(v@),
            None => None,
        }
    }

    pub fn new(decoder: D) -> (r: DecoderHarness<D>)
        ensures
            r.spec_matches() is None,
            r.spec_version() is None,
            r.spec_custom_valid() == Seq::<Seq<char>>::empty(),
            r.spec_custom_invalid() == Seq::<Seq<char>>::empty(),
            r.spec_snapshot_root() is None,
    {
        let r = DecoderHarness {
            decoder,
            matches: None,
            version: None,
            custom_valid: Vec::new(),
            custom_invalid: Vec::new(),
            snapshot_root: None,
        };
        assert(valid_names(r.custom_valid@) =~= Seq::<Seq<char>>::empty());
        assert(invalid_names(r.custom_invalid@) =~= Seq::<Seq<char>>::empty());
        r
    }

    /// Sets the ignore patterns; a malformed one leaves the harness as it
    /// was and fails with a selector error.
    pub fn ignore(&mut self, patterns: &[&str]) -> (r: Result<(), Error>)
        ensures
            r is Ok <==> patterns_ok(patterns@) && lines_build(kept_lines(pattern_lines(patterns@))),
            r is Ok ==> final(self).spec_matches() == Some(kept_lines(pattern_lines(patterns@))),
            r is Err ==> r->Err_0.spec_kind() == ErrorKind::Selector && final(self).spec_matches()
                == old(self).spec_matches(),
            final(self).spec_version() == old(self).spec_version(),
            final(self).spec_custom_valid() == old(self).spec_custom_valid(),
            final(self).spec_custom_invalid() == old(self).spec_custom_invalid(),
    {
        let m = Matches::new(patterns)?;
        self.matches = Some(m);
        Ok(())
    }

    /// Restricts the corpus to the cases of a spec version.
    pub fn version(&mut self, version: &str)
        ensures
            final(self).spec_version() == Some(version@),
            final(self).spec_matches() == old(self).spec_matches(),
            final(self).spec_custom_valid() == old(self).spec_custom_valid(),
            final(self).spec_custom_invalid() == old(self).spec_custom_invalid(),
    {
        self.version = Some(version.to_owned());
    }

    /// Adds valid cases, which run whatever the version.
    pub fn extend_valid(&mut self, cases: Vec<Valid>)
        ensures
            final(self).spec_custom_valid() == old(self).spec_custom_valid() + valid_names(cases@),
            final(self).spec_version() == old(self).spec_version(),
            final(self).spec_matches() == old(self).spec_matches(),
            final(self).spec_custom_invalid() == old(self).spec_custom_invalid(),
    {
        let mut cases = cases;
        let ghost before = self.custom_valid@;
        let ghost added = cases@;
        self.custom_valid.append(&mut cases);
        assert(valid_names(before + added) =~= valid_names(before) + valid_names(added));
    }

    /// Adds invalid cases, which run whatever the version.
    pub fn extend_invalid(&mut self, cases: Vec<Invalid>)
        ensures
            final(self).spec_custom_invalid() == old(self).spec_custom_invalid() + invalid_names(
                cases@,
            ),
            final(self).spec_version() == old(self).spec_version(),
            final(self).spec_matches() == old(self).spec_matches(),
            final(self).spec_custom_valid() == old(self).spec_custom_valid(),
    {
        let mut cases = cases;
        let ghost before = self.custom_invalid@;
        let ghost added = cases@;
        self.custom_invalid.append(&mut cases);
        assert(invalid_names(before + added) =~= invalid_names(before) + invalid_names(added));
    }

    /// Sets the directory of the reference texts that the errors of invalid
    /// cases are compared with.
    pub fn snapshot_root(&mut self, root: &str)
        ensures
            final(self).spec_snapshot_root() == Some(root@),
            final(self).spec_version() == old(self).spec_version(),
            final(self).spec_matches() == old(self).spec_matches(),
    {
        self.snapshot_root = Some(root.to_owned());
    }

    pub fn decoder(&self) -> &D {
        &self.decoder
    }

    pub fn snapshot_dir(&self) -> (r: Option<&str>)
        ensures
            match r {
                Some(t) => self.spec_snapshot_root() == Some(t@),
                None => self.spec_snapshot_root() is None,
            },
    {
        match &self.snapshot_root {
            Some(t) => Some(t.as_str()),
            None => None,
        }
    }

    /// The cases of a run over the corpus, each marked to run or be skipped.
    pub fn plan(&self, corpus: &Corpus) -> (r: Result<Plan, Error>)
        ensures
            r is Ok ==> {
                let p = r->Ok_0;
                let versioned = match self.spec_version() {
                    Some(t) => Some(version_names(corpus.files@, t)),
                    None => None,
                };
                let lines = self.spec_matches();
                let nv = valid_indices(corpus.files@).len() as int;
                let ni = invalid_indices(corpus.files@).len() as int;
                &&& valid_cases_of(corpus.files@, p.valid@.take(nv))
                &&& marked(valid_names(p.valid@).take(nv), p.valid_ignored@.take(nv), versioned, lines, true)
                &&& valid_names(p.valid@).skip(nv) == self.spec_custom_valid()
                &&& marked(valid_names(p.valid@).skip(nv), p.valid_ignored@.skip(nv), versioned, lines, false)
                &&& invalid_cases_of(corpus.files@, p.invalid@.take(ni))
                &&& marked(invalid_names(p.invalid@).take(ni), p.invalid_ignored@.take(ni), versioned, lines, true)
                &&& invalid_names(p.invalid@).skip(ni) == self.spec_custom_invalid()
                &&& marked(invalid_names(p.invalid@).skip(ni), p.invalid_ignored@.skip(ni), versioned, lines, false)
            },
            r is Ok <==> corpus_runnable(corpus.files@) && names_relative(self.spec_custom_valid())
                && names_relative(self.spec_custom_invalid()),
            r is Err ==> r->Err_0.spec_kind() == ErrorKind::Corpus,
    {
        plan(corpus, &self.version, &self.matches, &self.custom_valid, &self.custom_invalid)
    }
}

/// Runs encoder compliance cases: each valid case is encoded and decoded
/// back with a decoder that already passed its own cases.
pub struct EncoderHarness<E, D> {
    encoder: E,
    fixture: D,
    matches: Option<Matches>,
    version: Option<String>,
    custom_valid: Vec<Valid>,
}

impl<E, D> EncoderHarness<E, D> {
    pub closed spec fn spec_matches(&self) -> Option<Seq<Seq<char>>> {
        matches_lines(self.matches)
    }

    pub closed spec fn spec_version(&self) -> Option<Seq<char>> {
        match self.version {
            Some(v) => Some(v@),
            None => None,
        }
    }

    pub closed spec fn spec_custom_valid(&self) -> Seq<Seq<char>> {
        valid_names(self.custom_valid@)
    }

    pub fn new(encoder: E, fixture: D) -> (r: EncoderHarness<E, D>)
        ensures
            r.spec_matches() is None,
            r.spec_version() is None,
            r.spec_custom_valid() == Seq::<Seq<char>>::empty(),
    {
        let r = EncoderHarness { encoder, fixture, matches: None, version: None, custom_valid: Vec::new() };
        assert(valid_names(r.custom_valid@) =~= Seq::<Seq<char>>::empty());
        r
    }

    /// Sets the ignore patterns; a malformed one leaves the harness as it
    /// was and fails with a selector error.
    pub fn ignore(&mut self, patterns: &[&str]) -> (r: Result<(), Error>)
        ensures
            r is Ok <==> patterns_ok(patterns@) && lines_build(kept_lines(pattern_lines(patterns@))),
            r is Ok ==> final(self).spec_matches() == Some(kept_lines(pattern_lines(patterns@))),
            r is Err ==> r->Err_0.spec_kind() == ErrorKind::Selector && final(self).spec_matches()
                == old(self).spec_matches(),
            final(self).spec_version() == old(self).spec_version(),
            final(self).spec_custom_valid() == old(self).spec_custom_valid(),
    {
        let m = Matches::new(patterns)?;
        self.matches = Some(m);
        Ok(())
    }

    /// Restricts the corpus to the cases of a spec version.
    pub fn version(&mut self, version: &str)
        ensures
            final(self).spec_version() == Some(version@),
            final(self).spec_matches() == old(self).spec_matches(),
            final(self).spec_custom_valid() == old(self).spec_custom_valid(),
    {
        self.version = Some(version.to_owned());
    }

    /// Adds valid cases, which run whatever the version.
    pub fn extend_valid(&mut self, cases: Vec<Valid>)
        ensures
            final(self).spec_custom_valid() == old(self).spec_custom_valid() + valid_names(cases@),
            final(self).spec_version() == old(self).spec_version(),
            final(self).spec_matches() == old(self).spec_matches(),
    {
        let mut cases = cases;
        let ghost before = self.custom_valid@;
        let ghost added = cases@;
        self.custom_valid.append(&mut cases);
        assert(valid_names(before + added) =~= valid_names(before) + valid_names(added));
    }

    pub fn encoder(&self) -> &E {
        &self.encoder
    }

    pub fn fixture(&self) -> &D {
        &self.fixture
    }

    /// The valid cases of a run over the corpus, each marked to run or be
    /// skipped; the plan holds no invalid case.
    pub fn plan(&self, corpus: &Corpus) -> (r: Result<Plan, Error>)
        ensures
            r is Ok ==> {
                let p = r->Ok_0;
                let versioned = match self.spec_version() {
                    Some(t) => Some(version_names(corpus.files@, t)),
                    None => None,
                };
                let lines = self.spec_matches();
                let nv = valid_indices(corpus.files@).len() as int;
                &&& valid_cases_of(corpus.files@, p.valid@.take(nv))
                &&& marked(valid_names(p.valid@).take(nv), p.valid_ignored@.take(nv), versioned, lines, true)
                &&& valid_names(p.valid@).skip(nv) == self.spec_custom_valid()
                &&& marked(valid_names(p.valid@).skip(nv), p.valid_ignored@.skip(nv), versioned, lines, false)
                &&& p.invalid@.len() == 0
            },
            r is Ok <==> corpus_runnable(corpus.files@) && names_relative(self.spec_custom_valid()),
            r is Err ==> r->Err_0.spec_kind() == ErrorKind::Corpus,
    {
        let none: Vec<Invalid> = Vec::new();
        assert(invalid_names(none@) =~= Seq::<Seq<char>>::empty());
        let mut p = plan(corpus, &self.version, &self.matches, &self.custom_valid, &none)?;
        p.invalid = Vec::new();
        p.invalid_ignored = Vec::new();
        Ok(p)
    }
}

/// The outcome of a run: how many cases passed and how many failed.
/// Skipped cases are in neither count.
pub struct Tally {
    pub passed: usize,
    pub failed: usize,
}

impl Tally {
    /// A run succeeds when no case that ran failed.
    pub fn succeeded(&self) -> (r: bool)
        ensures
            r == (self.failed == 0),
    {
        self.failed == 0
    }
}

/// How many cases passed: `Some(true)` is a pass, `Some(false)` a failure,
/// `None` a skipped case.
pub open spec fn count_passed(outcomes: Seq<Option<bool>>) -> nat
    decreases outcomes.len(),
{
    if outcomes.len() == 0 {
        0
    } else {
        count_passed(outcomes.drop_last()) + if outcomes.last() == Some(true) {
            1nat
        } else {
            0nat
        }
    }
}

/// How many cases failed.
pub open spec fn count_failed(outcomes: Seq<Option<bool>>) -> nat
    decreases outcomes.len(),
{
    if outcomes.len() == 0 {
        0
    } else {
        count_failed(outcomes.drop_last()) + if outcomes.last() == Some(false) {
            1nat
        } else {
            0nat
        }
    }
}

proof fn lemma_counts_bounded(outcomes: Seq<Option<bool>>)
    ensures
        count_passed(outcomes) + count_failed(outcomes) <= outcomes.len(),
    decreases outcomes.len(),
{
    if outcomes.len() > 0 {
        lemma_counts_bounded(outcomes.drop_last());
    }
}

/// Counts the passed and failed cases of a run.
pub fn tally(outcomes: &Vec<Option<bool>>) -> (r: Tally)
    ensures
        r.passed == count_passed(outcomes@),
        r.failed == count_failed(outcomes@),
{
    let mut passed: usize = 0;
    let mut failed: usize = 0;
    let mut i: usize = 0;
    while i < outcomes.len()
        invariant
            i <= outcomes.len(),
            passed == count_passed(outcomes@.take(i as int)),
            failed == count_failed(outcomes@.take(i as int)),
        decreases outcomes.len() - i,
    {
        proof {
            assert(outcomes@.take(i + 1).drop_last() =~= outcomes@.take(i as int));
            lemma_counts_bounded(outcomes@.take(i + 1));
        }
        match outcomes[i] {
            Some(true) => {
                passed = passed + 1;
            },
            Some(false) => {
                failed = failed + 1;
            },
            None => {},
        }
        i = i + 1;
    }
    assert(outcomes@.take(outcomes.len() as int) =~= outcomes@);
    Tally { passed, failed }
}

/// The names of the valid cases of a corpus, in its order.
pub open spec fn valid_case_names(files: Seq<CorpusFile>) -> Seq<Seq<char>> {
    valid_indices(files).map_values(|i: int| files[i].path@)
}

/// The names of the invalid cases of a corpus, in its order.
pub open spec fn invalid_case_names(files: Seq<CorpusFile>) -> Seq<Seq<char>> {
    invalid_indices(files).map_values(|i: int| files[i].path@)
}

/// The document and the expected encoding of the valid case at `k`.
pub open spec fn valid_case_files(files: Seq<CorpusFile>, k: int) -> (Seq<u8>, Seq<u8>) {
    let f = files[valid_indices(files)[k]];
    (f.contents@, files[file_index_from(files, expected_path(f.path@), 0)->0].contents@)
}

/// Whether the patterns exclude a case.
pub open spec fn excluded(lines: Seq<Seq<char>>, name: Seq<char>) -> bool {
    gitignore_verdict(lines, name) is Ignored
}

fn all_relative(names: &Vec<String>) -> (r: bool)
    ensures
        r == names_relative(string_views(names@)),
{
    let mut i: usize = 0;
    while i < names.len()
        invariant
            i <= names.len(),
            forall|k: int| 0 <= k < i ==> relative_path(#[trigger] names@[k]@),
        decreases names.len() - i,
    {
        if !relative_path_exec(names[i].as_str()) {
            assert(string_views(names@)[i as int] == names@[i as int]@);
            return false;
        }
        i = i + 1;
    }
    assert forall|k: int| 0 <= k < string_views(names@).len() implies relative_path(
        #[trigger] string_views(names@)[k],
    ) by {
        assert(string_views(names@)[k] == names@[k]@);
    }
    true
}

/// Runs every valid and invalid case of the corpus that the patterns let
/// run against a decoder, and counts the cases that passed and failed.
///
/// The corpus is checked before any case runs. Each case that runs is
/// handed with its own document (and expected encoding) to the decoder's
/// verification once; a valid case passes when `verify_valid_case`
/// succeeds, an invalid one when `verify_invalid_case` does.
pub fn verify_decoder<D: Decoder>(bin: &D, matches: &Matches, corpus: &Corpus) -> (r: Result<
    Tally,
    Error,
>)
    ensures
        r is Ok <==> corpus_runnable(corpus.files@) && valid_indices(corpus.files@).len()
            + invalid_indices(corpus.files@).len() <= usize::MAX,
        r is Err ==> r->Err_0.spec_kind() == ErrorKind::Corpus,
        r is Ok ==> exists|outcomes: Seq<Option<bool>>|
            #![trigger count_passed(outcomes)]
            {
                let files = corpus.files@;
                let lines = matches.lines();
                let nv = valid_indices(files).len() as int;
                &&& outcomes.len() == nv + invalid_indices(files).len()
                &&& r->Ok_0.passed == count_passed(outcomes)
                &&& r->Ok_0.failed == count_failed(outcomes)
                &&& forall|k: int|
                    0 <= k < nv ==> if excluded(lines, valid_case_names(files)[k]) {
                        #[trigger] outcomes[k] is None
                    } else {
                        outcomes[k] is Some && exists|a: &[u8], b: &[u8], res: Result<(), Error>|
                            #![trigger call_ensures(D::verify_valid_case, (bin, a, b), res)]
                            (a@, b@) == valid_case_files(files, k) && call_ensures(
                                D::verify_valid_case,
                                (bin, a, b),
                                res,
                            ) && outcomes[k]->0 == res is Ok
                    }
                &&& forall|k: int|
                    0 <= k < invalid_indices(files).len() ==> if excluded(
                        lines,
                        invalid_case_names(files)[k],
                    ) {
                        #[trigger] outcomes[nv + k] is None
                    } else {
                        outcomes[nv + k] is Some && exists|a: &[u8], res: Result<Error, Error>|
                            #![trigger call_ensures(D::verify_invalid_case, (bin, a), res)]
                            a@ == files[invalid_indices(files)[k]].contents@ && call_ensures(
                                D::verify_invalid_case,
                                (bin, a),
                                res,
                            ) && outcomes[nv + k]->0 == res is Ok
                    }
            },
{
    let valid_cases = valid(corpus)?;
    let invalid_cases = invalid(corpus)?;
    proof {
        lemma_case_names(corpus.files@, valid_cases@, invalid_cases@);
    }
    if !all_relative(&names_of_valid(&valid_cases)) {
        return Err(name_error("a valid case"));
    }
    if !all_relative(&names_of_invalid(&invalid_cases)) {
        return Err(name_error("an invalid case"));
    }
    if valid_cases.len() > usize::MAX - invalid_cases.len() {
        return Err(Error::with_kind(ErrorKind::Corpus, String::from_str("too many cases to count")));
    }
    let ghost files = corpus.files@;
    let ghost lines = matches.lines();
    let ghost nv = valid_cases@.len() as int;
    let mut outcomes: Vec<Option<bool>> = Vec::new();
    let mut i: usize = 0;
    while i < valid_cases.len()
        invariant
            i <= valid_cases.len(),
            outcomes@.len() == i,
            files == corpus.files@,
            lines == matches.lines(),
            valid_cases_of(files, valid_cases@),
            valid_names(valid_cases@) == valid_case_names(files),
            names_relative(valid_case_names(files)),
            forall|k: int|
                0 <= k < i ==> if excluded(lines, valid_case_names(files)[k]) {
                    #[trigger] outcomes@[k] is None
                } else {
                    outcomes@[k] is Some && exists|a: &[u8], b: &[u8], res: Result<(), Error>|
                        #![trigger call_ensures(D::verify_valid_case, (bin, a, b), res)]
                        (a@, b@) == valid_case_files(files, k) && call_ensures(
                            D::verify_valid_case,
                            (bin, a, b),
                            res,
                        ) && outcomes@[k]->0 == res is Ok
                },
        decreases valid_cases.len() - i,
    {
        let case = &valid_cases[i];
        assert(valid_names(valid_cases@)[i as int] == case.name@);
        assert(valid_case_files(files, i as int) == (case.fixture@, case.expected@));
        assert(relative_path(valid_case_names(files)[i as int]));
        let ghost before = outcomes@;
        if matches.matched(case.name.as_str()) {
            let res = bin.verify_valid_case(case.fixture.as_slice(), case.expected.as_slice());
            outcomes.push(Some(res.is_ok()));
        } else {
            outcomes.push(None);
        }
        assert(forall|k: int| 0 <= k < i ==> outcomes@[k] == before[k]);
        i = i + 1;
    }
    let mut j: usize = 0;
    while j < invalid_cases.len()
        invariant
            j <= invalid_cases.len(),
            outcomes@.len() == nv + j,
            nv == valid_indices(files).len(),
            files == corpus.files@,
            lines == matches.lines(),
            invalid_cases_of(files, invalid_cases@),
            invalid_names(invalid_cases@) == invalid_case_names(files),
            names_relative(invalid_case_names(files)),
            forall|k: int|
                0 <= k < nv ==> if excluded(lines, valid_case_names(files)[k]) {
                    #[trigger] outcomes@[k] is None
                } else {
                    outcomes@[k] is Some && exists|a: &[u8], b: &[u8], res: Result<(), Error>|
                        #![trigger call_ensures(D::verify_valid_case, (bin, a, b), res)]
                        (a@, b@) == valid_case_files(files, k) && call_ensures(
                            D::verify_valid_case,
                            (bin, a, b),
                            res,
                        ) && outcomes@[k]->0 == res is Ok
                },
            forall|k: int|
                0 <= k < j ==> if excluded(lines, invalid_case_names(files)[k]) {
                    #[trigger] outcomes@[nv + k] is None
                } else {
                    outcomes@[nv + k] is Some && exists|a: &[u8], res: Result<Error, Error>|
                        #![trigger call_ensures(D::verify_invalid_case, (bin, a), res)]
                        a@ == files[invalid_indices(files)[k]].contents@ && call_ensures(
                            D::verify_invalid_case,
                            (bin, a),
                            res,
                        ) && outcomes@[nv + k]->0 == res is Ok
                },
        decreases invalid_cases.len() - j,
    {
        let case = &invalid_cases[j];
        assert(invalid_names(invalid_cases@)[j as int] == case.name@);
        assert(files[invalid_indices(files)[j as int]].contents@ == case.fixture@);
        assert(relative_path(invalid_case_names(files)[j as int]));
        let ghost before = outcomes@;
        if matches.matched(case.name.as_str()) {
            let res = bin.verify_invalid_case(case.fixture.as_slice());
            outcomes.push(Some(res.is_ok()));
        } else {
            outcomes.push(None);
        }
        assert(forall|k: int| 0 <= k < nv + j ==> outcomes@[k] == before[k]);
        j = j + 1;
    }
    let r = tally(&outcomes);
    assert(count_passed(outcomes@) == r.passed);
    Ok(r)
}

} // verus!

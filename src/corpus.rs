use vstd::prelude::*;
use vstd::utf8::{decode_utf8, valid_utf8};
use crate::error::{Error, ErrorKind};
use crate::text::{
    has_char, has_prefix, has_suffix, same_text, text_lines, text_lines_spec, utf8_text,
};

verus! {

/// One file of the corpus: its path relative to the corpus root, with `/`
/// between directories, and its contents.
pub struct CorpusFile {
    pub path: String,
    pub contents: Vec<u8>,
}

/// The corpus, read once before any case runs: the `valid` and `invalid`
/// groups of cases, and at the root one `files-toml-<version>` index per
/// version, listing the names of the cases of that version.
pub struct Corpus {
    pub files: Vec<CorpusFile>,
}

fn copy_bytes(b: &Vec<u8>) -> (r: Vec<u8>)
    ensures
        r@ == b@,
{
    let mut out: Vec<u8> = Vec::new();
    let mut i: usize = 0;
    while i < b.len()
        invariant
            i <= b.len(),
            out@ == b@.take(i as int),
        decreases b.len() - i,
    {
        out.push(b[i]);
        assert(b@.take(i + 1) =~= b@.take(i as int).push(b@[i as int]));
        i = i + 1;
    }
    assert(b@.take(b.len() as int) =~= b@);
    out
}

/// A valid case: a document and the canonical encoding of the value it
/// holds.
pub struct Valid {
    pub name: String,
    pub fixture: Vec<u8>,
    pub expected: Vec<u8>,
}

impl Valid {
    /// A copy of the case.
    pub fn borrow(&self) -> (r: Valid)
        ensures
            r.name@ == self.name@,
            r.fixture@ == self.fixture@,
            r.expected@ == self.expected@,
    {
        Valid {
            name: self.name.clone(),
            fixture: copy_bytes(&self.fixture),
            expected: copy_bytes(&self.expected),
        }
    }

    pub fn name(&self) -> (r: &str)
        ensures
            r@ == self.name@,
    {
        self.name.as_str()
    }

    pub fn fixture(&self) -> (r: &[u8])
        ensures
            r@ == self.fixture@,
    {
        self.fixture.as_slice()
    }

    pub fn expected(&self) -> (r: &[u8])
        ensures
            r@ == self.expected@,
    {
        self.expected.as_slice()
    }
}

/// An invalid case: a document that a decoder must reject.
pub struct Invalid {
    pub name: String,
    pub fixture: Vec<u8>,
}

impl Invalid {
    /// A copy of the case.
    pub fn borrow(&self) -> (r: Invalid)
        ensures
            r.name@ == self.name@,
            r.fixture@ == self.fixture@,
    {
        Invalid { name: self.name.clone(), fixture: copy_bytes(&self.fixture) }
    }

    pub fn name(&self) -> (r: &str)
        ensures
            r@ == self.name@,
    {
        self.name.as_str()
    }

    pub fn fixture(&self) -> (r: &[u8])
        ensures
            r@ == self.fixture@,
    {
        self.fixture.as_slice()
    }
}

pub open spec fn starts_with(s: Seq<char>, p: Seq<char>) -> bool {
    p.len() <= s.len() && s.take(p.len() as int) == p
}

pub open spec fn ends_with(s: Seq<char>, p: Seq<char>) -> bool {
    p.len() <= s.len() && s.skip(s.len() - p.len()) == p
}

/// The document of a valid case: a `.toml` file in the `valid` group.
pub open spec fn is_valid_document(p: Seq<char>) -> bool {
    starts_with(p, "valid/"@) && ends_with(p, ".toml"@)
}

/// The file beside a valid document that holds its expected encoding.
pub open spec fn expected_path(p: Seq<char>) -> Seq<char> {
    p.take(p.len() - 5) + ".json"@
}

/// The document of an invalid case: a file in the `invalid` group.
pub open spec fn is_invalid_document(p: Seq<char>) -> bool {
    starts_with(p, "invalid/"@)
}

/// The first file from `j` on with the path `p`.
pub open spec fn file_index_from(files: Seq<CorpusFile>, p: Seq<char>, j: int) -> Option<int>
    decreases files.len() - j,
{
    if j < 0 || j >= files.len() {
        None
    } else if files[j].path@ == p {
        Some(j)
    } else {
        file_index_from(files, p, j + 1)
    }
}

/// The indices, below `i`, of the files that satisfy `keep`, in order.
pub open spec fn indices_upto(files: Seq<CorpusFile>, keep: spec_fn(CorpusFile) -> bool, i: int) -> Seq<int>
    decreases i,
{
    if i <= 0 || i > files.len() {
        Seq::empty()
    } else if keep(files[i - 1]) {
        indices_upto(files, keep, i - 1).push(i - 1)
    } else {
        indices_upto(files, keep, i - 1)
    }
}

pub open spec fn valid_indices(files: Seq<CorpusFile>) -> Seq<int> {
    indices_upto(files, |f: CorpusFile| is_valid_document(f.path@), files.len() as int)
}

pub open spec fn invalid_indices(files: Seq<CorpusFile>) -> Seq<int> {
    indices_upto(files, |f: CorpusFile| is_invalid_document(f.path@), files.len() as int)
}

/// The name of the index of a version's cases.
pub open spec fn version_index_name(ver: Seq<char>) -> Seq<char> {
    "files-toml-"@ + ver
}

/// A version index: a file at the root whose name starts with
/// `files-toml-`, holding UTF-8 text.
pub open spec fn is_version_index(f: CorpusFile) -> bool {
    starts_with(f.path@, "files-toml-"@) && !f.path@.contains('/') && valid_utf8(f.contents@)
}

pub open spec fn version_indices(files: Seq<CorpusFile>) -> Seq<int> {
    indices_upto(files, |f: CorpusFile| is_version_index(f), files.len() as int)
}

/// The lines of a file, or none where it is not UTF-8.
pub open spec fn file_lines(f: CorpusFile) -> Seq<Seq<char>> {
    if valid_utf8(f.contents@) {
        text_lines_spec(decode_utf8(f.contents@))
    } else {
        Seq::empty()
    }
}

/// The names of the cases of a version: the lines of its index, or none
/// where there is no such index.
pub open spec fn version_names(files: Seq<CorpusFile>, ver: Seq<char>) -> Seq<Seq<char>> {
    match file_index_from(files, version_index_name(ver), 0) {
        Some(i) => file_lines(files[i]),
        None => Seq::empty(),
    }
}

pub open spec fn string_views(v: Seq<String>) -> Seq<Seq<char>> {
    v.map_values(|s: String| s@)
}

/// The valid cases listed are those of the corpus, in its order: each
/// document with the contents of its expected encoding.
pub open spec fn valid_cases_of(files: Seq<CorpusFile>, cases: Seq<Valid>) -> bool {
    let idx = valid_indices(files);
    &&& cases.len() == idx.len()
    &&& forall|k: int|
        0 <= k < idx.len() ==> {
            let f = files[idx[k]];
            &&& (#[trigger] cases[k]).name@ == f.path@
            &&& cases[k].fixture@ == f.contents@
            &&& cases[k].expected@ == files[file_index_from(
                files,
                expected_path(f.path@),
                0,
            )->0].contents@
        }
}

/// The invalid cases listed are those of the corpus, in its order.
pub open spec fn invalid_cases_of(files: Seq<CorpusFile>, cases: Seq<Invalid>) -> bool {
    let idx = invalid_indices(files);
    &&& cases.len() == idx.len()
    &&& forall|k: int|
        0 <= k < idx.len() ==> (#[trigger] cases[k]).name@ == files[idx[k]].path@
            && cases[k].fixture@ == files[idx[k]].contents@
}

/// How many `/` a path holds.
pub open spec fn slash_count(p: Seq<char>) -> nat
    decreases p.len(),
{
    if p.len() == 0 {
        0
    } else {
        slash_count(p.drop_last()) + if p.last() == '/' {
            1nat
        } else {
            0nat
        }
    }
}

/// The `valid` group holds files at its root and in subdirectories, but no
/// deeper.
pub open spec fn valid_layout(files: Seq<CorpusFile>) -> bool {
    forall|i: int|
        0 <= i < files.len() && starts_with(#[trigger] files[i].path@, "valid/"@) ==> slash_count(
            files[i].path@,
        ) <= 2
}

/// The `invalid` group holds files only in its subdirectories, and none
/// deeper.
pub open spec fn invalid_layout(files: Seq<CorpusFile>) -> bool {
    forall|i: int|
        0 <= i < files.len() && starts_with(#[trigger] files[i].path@, "invalid/"@) ==> slash_count(
            files[i].path@,
        ) == 2
}

/// Every valid document has its expected encoding beside it.
pub open spec fn pairs_complete(files: Seq<CorpusFile>) -> bool {
    forall|i: int|
        0 <= i < files.len() && is_valid_document(#[trigger] files[i].path@) ==> file_index_from(
            files,
            expected_path(files[i].path@),
            0,
        ) is Some
}

fn find_file(files: &Vec<CorpusFile>, p: &str) -> (r: Option<usize>)
    ensures
        match r {
            Some(j) => j < files.len() && file_index_from(files@, p@, 0) == Some(j as int),
            None => file_index_from(files@, p@, 0) is None,
        },
{
    let mut j: usize = 0;
    while j < files.len()
        invariant
            j <= files.len(),
            file_index_from(files@, p@, 0) == file_index_from(files@, p@, j as int),
        decreases files.len() - j,
    {
        if same_text(files[j].path.as_str(), p) {
            return Some(j);
        }
        j = j + 1;
    }
    None
}

fn slash_count_exec(p: &str) -> (r: usize)
    ensures
        r == slash_count(p@),
{
    let n = p.unicode_len();
    let mut count: usize = 0;
    let mut i: usize = 0;
    while i < n
        invariant
            n == p@.len(),
            i <= n,
            count == slash_count(p@.take(i as int)),
            count <= i,
        decreases n - i,
    {
        assert(p@.take(i + 1).drop_last() =~= p@.take(i as int));
        if p.get_char(i) == '/' {
            count = count + 1;
        }
        i = i + 1;
    }
    assert(p@.take(n as int) =~= p@);
    count
}

fn layout_error(path: &str) -> (r: Error)
    ensures
        r.spec_kind() == ErrorKind::Corpus,
{
    let mut message = String::from_str("a case lies too deep or outside a group directory: ");
    message.append(path);
    Error::with_kind(ErrorKind::Corpus, message)
}

fn is_valid_document_exec(p: &str) -> (r: bool)
    ensures
        r == is_valid_document(p@),
{
    has_prefix(p, "valid/") && has_suffix(p, ".toml")
}

fn expected_path_exec(p: &str) -> (r: String)
    requires
        is_valid_document(p@),
    ensures
        r@ == expected_path(p@),
{
    proof {
        reveal_strlit(".toml");
    }
    let n = p.unicode_len();
    let stem = p.substring_char(0, n - 5);
    let mut out = String::from_str(stem);
    out.append(".json");
    out
}

/// The indices of the files, below `i + 1`, that satisfy `keep`.
proof fn lemma_indices_next(files: Seq<CorpusFile>, keep: spec_fn(CorpusFile) -> bool, i: int)
    requires
        0 <= i < files.len(),
    ensures
        indices_upto(files, keep, i + 1) == if keep(files[i]) {
            indices_upto(files, keep, i).push(i)
        } else {
            indices_upto(files, keep, i)
        },
{
}

/// Returns all valid cases; a document without its expected encoding, or a
/// file nested deeper than one subdirectory, is a corpus error.
pub fn valid(corpus: &Corpus) -> (r: Result<Vec<Valid>, Error>)
    ensures
        r is Ok <==> pairs_complete(corpus.files@) && valid_layout(corpus.files@),
        r is Ok ==> valid_cases_of(corpus.files@, r->Ok_0@),
        r is Err ==> r->Err_0.spec_kind() == ErrorKind::Corpus,
{
    let files = &corpus.files;
    let ghost keep = |f: CorpusFile| is_valid_document(f.path@);
    let mut cases: Vec<Valid> = Vec::new();
    let mut i: usize = 0;
    while i < files.len()
        invariant
            i <= files.len(),
            files == &corpus.files,
            keep == (|f: CorpusFile| is_valid_document(f.path@)),
            cases@.len() == indices_upto(files@, keep, i as int).len(),
            forall|k: int|
                0 <= k < cases@.len() ==> {
                    let f = files@[indices_upto(files@, keep, i as int)[k]];
                    &&& (#[trigger] cases@[k]).name@ == f.path@
                    &&& cases@[k].fixture@ == f.contents@
                    &&& cases@[k].expected@ == files@[file_index_from(
                        files@,
                        expected_path(f.path@),
                        0,
                    )->0].contents@
                },
            forall|k: int|
                0 <= k < i && is_valid_document(#[trigger] files@[k].path@) ==> file_index_from(
                    files@,
                    expected_path(files@[k].path@),
                    0,
                ) is Some,
            forall|k: int|
                0 <= k < i && starts_with(#[trigger] files@[k].path@, "valid/"@) ==> slash_count(
                    files@[k].path@,
                ) <= 2,
        decreases files.len() - i,
    {
        proof {
            lemma_indices_next(files@, keep, i as int);
        }
        let path = files[i].path.as_str();
        if has_prefix(path, "valid/") && slash_count_exec(path) > 2 {
            return Err(layout_error(path));
        }
        if is_valid_document_exec(path) {
            let json = expected_path_exec(path);
            match find_file(files, json.as_str()) {
                Some(j) => {
                    let case = Valid {
                        name: files[i].path.clone(),
                        fixture: copy_bytes(&files[i].contents),
                        expected: copy_bytes(&files[j].contents),
                    };
                    cases.push(case);
                },
                None => {
                    let mut message = String::from_str("no expected encoding beside ");
                    message.append(path);
                    return Err(Error::with_kind(ErrorKind::Corpus, message));
                },
            }
        }
        i = i + 1;
    }
    Ok(cases)
}

/// Returns all invalid cases; a file at the root of the group or nested
/// deeper than one subdirectory is a corpus error.
pub fn invalid(corpus: &Corpus) -> (r: Result<Vec<Invalid>, Error>)
    ensures
        r is Ok <==> invalid_layout(corpus.files@),
        r is Ok ==> invalid_cases_of(corpus.files@, r->Ok_0@),
        r is Err ==> r->Err_0.spec_kind() == ErrorKind::Corpus,
{
    let files = &corpus.files;
    let ghost keep = |f: CorpusFile| is_invalid_document(f.path@);
    let mut cases: Vec<Invalid> = Vec::new();
    let mut i: usize = 0;
    while i < files.len()
        invariant
            i <= files.len(),
            files == &corpus.files,
            keep == (|f: CorpusFile| is_invalid_document(f.path@)),
            cases@.len() == indices_upto(files@, keep, i as int).len(),
            forall|k: int|
                0 <= k < cases@.len() ==> (#[trigger] cases@[k]).name@ == files@[indices_upto(
                    files@,
                    keep,
                    i as int,
                )[k]].path@ && cases@[k].fixture@ == files@[indices_upto(
                    files@,
                    keep,
                    i as int,
                )[k]].contents@,
            forall|k: int|
                0 <= k < i && starts_with(#[trigger] files@[k].path@, "invalid/"@) ==> slash_count(
                    files@[k].path@,
                ) == 2,
        decreases files.len() - i,
    {
        proof {
            lemma_indices_next(files@, keep, i as int);
        }
        if has_prefix(files[i].path.as_str(), "invalid/") {
            if slash_count_exec(files[i].path.as_str()) != 2 {
                return Err(layout_error(files[i].path.as_str()));
            }
            let case = Invalid {
                name: files[i].path.clone(),
                fixture: copy_bytes(&files[i].contents),
            };
            cases.push(case);
        }
        i = i + 1;
    }
    Ok(cases)
}

fn lines_of_file(f: &CorpusFile) -> (r: Vec<String>)
    ensures
        string_views(r@) == file_lines(*f),
{
    match utf8_text(copy_bytes(&f.contents)) {
        Some(text) => text_lines(text.as_str()),
        None => Vec::new(),
    }
}

/// Returns the names of the cases of a spec version, none where the corpus
/// has no index for it.
pub fn version(corpus: &Corpus, ver: &str) -> (r: Vec<String>)
    ensures
        string_views(r@) == version_names(corpus.files@, ver@),
{
    let mut name = String::from_str("files-toml-");
    name.append(ver);
    match find_file(&corpus.files, name.as_str()) {
        Some(i) => lines_of_file(&corpus.files[i]),
        None => Vec::new(),
    }
}

/// A spec version with the names of its cases.
pub struct VersionCases {
    pub version: String,
    pub cases: Vec<String>,
}

/// The versions listed are those of the corpus's version indices, in its
/// order, each with the lines of its index.
pub open spec fn versions_of(files: Seq<CorpusFile>, out: Seq<VersionCases>) -> bool {
    let idx = version_indices(files);
    &&& out.len() == idx.len()
    &&& forall|k: int|
        0 <= k < idx.len() ==> (#[trigger] out[k]).version@ == files[idx[k]].path@.skip(11)
            && string_views(out[k].cases@) == file_lines(files[idx[k]])
}

/// Returns all spec versions of the corpus with the names of their cases.
pub fn versions(corpus: &Corpus) -> (r: Vec<VersionCases>)
    ensures
        versions_of(corpus.files@, r@),
{
    proof {
        reveal_strlit("files-toml-");
    }
    let files = &corpus.files;
    let ghost keep = |f: CorpusFile| is_version_index(f);
    let mut out: Vec<VersionCases> = Vec::new();
    let mut i: usize = 0;
    while i < files.len()
        invariant
            i <= files.len(),
            files == &corpus.files,
            keep == (|f: CorpusFile| is_version_index(f)),
            "files-toml-"@.len() == 11,
            out@.len() == indices_upto(files@, keep, i as int).len(),
            forall|k: int|
                0 <= k < out@.len() ==> (#[trigger] out@[k]).version@ == files@[indices_upto(
                    files@,
                    keep,
                    i as int,
                )[k]].path@.skip(11) && string_views(out@[k].cases@) == file_lines(
                    files@[indices_upto(files@, keep, i as int)[k]],
                ),
        decreases files.len() - i,
    {
        proof {
            lemma_indices_next(files@, keep, i as int);
        }
        let path = files[i].path.as_str();
        if has_prefix(path, "files-toml-") && !has_char(path, '/') {
            match utf8_text(copy_bytes(&files[i].contents)) {
                Some(text) => {
                    let n = path.unicode_len();
                    let version = String::from_str(path.substring_char(11, n));
                    let cases = text_lines(text.as_str());
                    out.push(VersionCases { version, cases });
                },
                None => {},
            }
        }
        i = i + 1;
    }
    out
}

} // verus!

//! Local files for the source files that the debug information names.
use vstd::prelude::*;

use crate::session::DebugSession;
use crate::text::same_text;

verus! {

/// A source file with the local file that stands for it, if any.
#[derive(Debug)]
pub struct MappedFile {
    pub source: String,
    pub local: Option<String>,
}

/// The source files whose local files were looked up.
#[derive(Debug)]
pub struct SourceMap {
    files: Vec<MappedFile>,
}

/// Where a source file is looked for.
#[derive(Clone, Copy, Debug, PartialEq, Eq, Structural)]
pub enum ProbePath {
    /// Under its own path, which is absolute.
    Own,
    /// Under its path as it follows the base of relative paths.
    JoinedToBase,
}

/// What is known about a source file.
#[derive(Debug)]
pub enum Lookup {
    /// It does not name a file.
    Invalid,
    /// It was looked up before.
    Known(Option<String>),
    /// It is to be looked up, under this path.
    Unknown(ProbePath),
}

/// What the file system tells about a local file: its name in the file system, where it could be
/// found out, and whether a file of that name is there.
#[derive(Debug)]
pub struct LocalFile {
    pub fs_path: Option<String>,
    pub is_file: bool,
}

spec fn files_map(s: Seq<MappedFile>) -> Map<Seq<char>, Option<Seq<char>>>
    decreases s.len(),
{
    if s.len() == 0 {
        Map::empty()
    } else {
        files_map(s.drop_last()).insert(s.last().source@, s.last().local.deep_view())
    }
}

spec fn sources_distinct(s: Seq<MappedFile>) -> bool {
    forall|i: int, j: int|
        0 <= i < j < s.len() ==> (#[trigger] s[i]).source@ != (#[trigger] s[j]).source@
}

proof fn lemma_files_at(s: Seq<MappedFile>, i: int)
    requires
        sources_distinct(s),
        0 <= i < s.len(),
    ensures
        files_map(s).contains_key(s[i].source@),
        files_map(s)[s[i].source@] == s[i].local.deep_view(),
    decreases s.len(),
{
    if i < s.len() - 1 {
        assert(s.drop_last()[i] == s[i]);
        assert forall|a: int, b: int| 0 <= a < b < s.drop_last().len() implies (
        #[trigger] s.drop_last()[a]).source@ != (#[trigger] s.drop_last()[b]).source@ by {
            assert(s.drop_last()[a] == s[a]);
            assert(s.drop_last()[b] == s[b]);
        }
        lemma_files_at(s.drop_last(), i);
        assert(s[i].source@ != s[s.len() - 1].source@);
    }
}

proof fn lemma_files_absent(s: Seq<MappedFile>, k: Seq<char>)
    requires
        forall|i: int| 0 <= i < s.len() ==> (#[trigger] s[i]).source@ != k,
    ensures
        !files_map(s).contains_key(k),
    decreases s.len(),
{
    if s.len() > 0 {
        assert forall|i: int| 0 <= i < s.drop_last().len() implies (
        #[trigger] s.drop_last()[i]).source@ != k by {
            assert(s.drop_last()[i] == s[i]);
        }
        lemma_files_absent(s.drop_last(), k);
        assert(s[s.len() - 1].source@ != k);
    }
}

/// The local file for a source file. A file that is missing is suppressed if so wanted.
pub open spec fn local_for(path: Seq<char>, probe: LocalFile, suppress_missing: bool) -> Option<
    Seq<char>,
> {
    if probe.fs_path is Some && probe.is_file {
        Some(probe.fs_path->0@)
    } else if suppress_missing {
        None
    } else {
        Some(path)
    }
}

/// Whether `r` is what is known about a source file. A relative path is looked up from the base of
/// relative paths, so that what is looked up is absolute.
pub open spec fn looked_up(
    known: Map<Seq<char>, Option<Seq<char>>>,
    valid: bool,
    relative: bool,
    source: Seq<char>,
    r: Lookup,
) -> bool {
    match r {
        Lookup::Invalid => !valid,
        Lookup::Known(local) => {
            &&& valid
            &&& known.contains_key(source)
            &&& local.deep_view() == known[source]
        },
        Lookup::Unknown(path) => {
            &&& valid
            &&& !known.contains_key(source)
            &&& path == if relative {
                ProbePath::JoinedToBase
            } else {
                ProbePath::Own
            }
        },
    }
}

/// Whether `local` is the local file for a source file that was not known, and `after` the session
/// `s` once it is settled.
pub open spec fn file_settled(
    s: DebugSession,
    source: Seq<char>,
    path: Seq<char>,
    probe: LocalFile,
    after: DebugSession,
    local: Option<Seq<char>>,
) -> bool {
    &&& local == local_for(path, probe, s.suppress_missing_files)
    &&& after.source_map@ == s.source_map@.insert(source, local)
    &&& after == (DebugSession { source_map: after.source_map, ..s })
}

impl View for SourceMap {
    type V = Map<Seq<char>, Option<Seq<char>>>;

    closed spec fn view(&self) -> Map<Seq<char>, Option<Seq<char>>> {
        files_map(self.files@)
    }
}

impl SourceMap {
    /// Every source file is held once.
    pub closed spec fn wf(&self) -> bool {
        sources_distinct(self.files@)
    }

    /// A map in which nothing was looked up.
    pub fn new() -> (m: SourceMap)
        ensures
            m.wf(),
            m@ == Map::<Seq<char>, Option<Seq<char>>>::empty(),
    {
        SourceMap { files: Vec::new() }
    }

    /// What is known about a source file. `valid` tells whether it names a file at all, and
    /// `relative` whether its path is relative. Source files are told apart by their text, so
    /// `source` is written anew from the components of the path: two ways to write one path give
    /// one text.
    pub fn lookup(&self, valid: bool, relative: bool, source: &str) -> (r: Lookup)
        requires
            self.wf(),
        ensures
            looked_up(self@, valid, relative, source@, r),
    {
        if !valid {
            return Lookup::Invalid;
        }
        let mut i: usize = 0;
        while i < self.files.len()
            invariant
                i <= self.files@.len(),
                self.wf(),
                valid,
                forall|j: int| 0 <= j < i ==> (#[trigger] self.files@[j]).source@ != source@,
            decreases self.files@.len() - i,
        {
            if same_text(self.files[i].source.as_str(), source) {
                proof {
                    lemma_files_at(self.files@, i as int);
                }
                let local: Option<String> = match &self.files[i].local {
                    Some(s) => Some(s.clone()),
                    None => None,
                };
                return Lookup::Known(local);
            }
            i = i + 1;
        }
        proof {
            lemma_files_absent(self.files@, source@);
        }
        Lookup::Unknown(if relative { ProbePath::JoinedToBase } else { ProbePath::Own })
    }

    /// Finds the local file for a source file that was not looked up before, and remembers it.
    /// `path` is the path under which it was to be looked up, and `probe` what the file system tells
    /// of it.
    pub fn resolve(
        &mut self,
        source: &str,
        path: &str,
        probe: &LocalFile,
        suppress_missing: bool,
    ) -> (r: Option<String>)
        requires
            old(self).wf(),
            !old(self)@.contains_key(source@),
        ensures
            final(self).wf(),
            r.deep_view() == local_for(path@, *probe, suppress_missing),
            final(self)@ == old(self)@.insert(source@, r.deep_view()),
    {
        let local: Option<String> = match &probe.fs_path {
            Some(fs_path) => {
                if probe.is_file {
                    Some(fs_path.clone())
                } else if suppress_missing {
                    None
                } else {
                    Some(path.to_owned())
                }
            },
            None => {
                if suppress_missing {
                    None
                } else {
                    Some(path.to_owned())
                }
            },
        };
        let copy: Option<String> = match &local {
            Some(s) => Some(s.clone()),
            None => None,
        };
        let entry = MappedFile { source: source.to_owned(), local: copy };
        proof {
            let s = self.files@;
            assert(s.push(entry).drop_last() =~= s);
            assert forall|i: int, j: int| 0 <= i < j < s.push(entry).len() implies (
            #[trigger] s.push(entry)[i]).source@ != (#[trigger] s.push(entry)[j]).source@ by {
                if j == s.len() {
                    lemma_files_at(s, i);
                }
            }
        }
        self.files.push(entry);
        local
    }
}

impl DebugSession {
    /// The local file for a source file, as far as it is known. `valid` tells whether the debugger
    /// names a file at all, `relative` whether its path is relative, and `source` is written from
    /// the components of the path.
    pub fn map_filespec_to_local(&self, valid: bool, relative: bool, source: &str) -> (r: Lookup)
        requires
            self.source_map.wf(),
        ensures
            looked_up(self.source_map@, valid, relative, source@, r),
    {
        self.source_map.lookup(valid, relative, source)
    }

    /// Settles the local file for a source file that was not known. `path` is the path under which
    /// it was to be looked up, normalised, and `probe` what the file system tells of it.
    pub fn filespec_probed(&mut self, source: &str, path: &str, probe: &LocalFile) -> (r: Option<
        String,
    >)
        requires
            old(self).source_map.wf(),
            !old(self).source_map@.contains_key(source@),
        ensures
            final(self).source_map.wf(),
            file_settled(*old(self), source@, path@, *probe, *final(self), r.deep_view()),
    {
        self.source_map.resolve(source, path, probe, self.suppress_missing_files)
    }
}

/// What was settled for a source file stays settled, whatever other files are looked up later, and
/// settling it changes nothing about other files.
pub proof fn law_settled_files_stay_settled(
    known: Map<Seq<char>, Option<Seq<char>>>,
    source: Seq<char>,
    local: Option<Seq<char>>,
    other: Seq<char>,
    other_local: Option<Seq<char>>,
)
    requires
        source != other,
    ensures
        ({
            let settled = known.insert(source, local);
            let later = settled.insert(other, other_local);
            &&& later.contains_key(source)
            &&& later[source] == local
            &&& settled.contains_key(other) == known.contains_key(other)
            &&& known.contains_key(other) ==> settled[other] == known[other]
        }),
{
}

/// A missing file is shown under its own path if it is not suppressed, and else not at all. A file
/// that is there is shown in either case.
pub proof fn law_only_missing_files_are_suppressed(path: Seq<char>, probe: LocalFile)
    ensures
        probe.fs_path is Some && probe.is_file ==> local_for(path, probe, true) == local_for(
            path,
            probe,
            false,
        ),
        !(probe.fs_path is Some && probe.is_file) ==> local_for(path, probe, true) is None
            && local_for(path, probe, false) == Some(path),
{
}

/// A file that is there stands for the source file under its name in the file system, whether or not
/// missing files are suppressed. Without such a name it counts as missing.
pub proof fn law_files_go_by_their_name_in_the_file_system(
    path: Seq<char>,
    probe: LocalFile,
    suppress_missing: bool,
)
    ensures
        probe.is_file ==> (probe.fs_path matches Some(name) ==> local_for(
            path,
            probe,
            suppress_missing,
        ) == Some(name@)),
        !probe.is_file || probe.fs_path is None ==> (local_for(path, probe, suppress_missing)
            is None <==> suppress_missing),
{
}

/// A lookup fails just where no file is named. Else it gives what was settled, if anything was. What
/// was not is to be looked for, under the source file's own path just where that is absolute.
pub proof fn law_lookups_tell_what_is_known(
    known: Map<Seq<char>, Option<Seq<char>>>,
    valid: bool,
    relative: bool,
    source: Seq<char>,
    r: Lookup,
)
    requires
        looked_up(known, valid, relative, source, r),
    ensures
        r is Invalid <==> !valid,
        r is Known <==> valid && known.contains_key(source),
        r is Unknown <==> valid && !known.contains_key(source),
        r matches Lookup::Known(local) ==> local.deep_view() == known[source],
        r matches Lookup::Unknown(path) ==> (path is Own <==> !relative),
{
}

/// A source file that is settled is found by the next lookup, with the local file that was settled.
/// Other files, and all else of the session, stay as they are. Missing files are suppressed as the
/// session says.
pub proof fn law_settled_files_are_found(
    s: DebugSession,
    source: Seq<char>,
    path: Seq<char>,
    probe: LocalFile,
    after: DebugSession,
    local: Option<Seq<char>>,
    relative: bool,
    r: Lookup,
    other: Seq<char>,
)
    requires
        file_settled(s, source, path, probe, after, local),
        looked_up(after.source_map@, true, relative, source, r),
        other != source,
    ensures
        r matches Lookup::Known(found) && found.deep_view() == local,
        after.source_map@.contains_key(other) == s.source_map@.contains_key(other),
        s.source_map@.contains_key(other) ==> after.source_map@[other] == s.source_map@[other],
        after == (DebugSession { source_map: after.source_map, ..s }),
        probe.is_file && probe.fs_path is Some ==> local == Some(probe.fs_path->0@),
        !(probe.is_file && probe.fs_path is Some) && s.suppress_missing_files ==> local is None,
        !(probe.is_file && probe.fs_path is Some) && !s.suppress_missing_files ==> local == Some(
            path,
        ),
{
}

}

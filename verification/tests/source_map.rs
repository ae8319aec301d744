use debug_session::session::DebugSession;
use debug_session::source_map::{LocalFile, Lookup, ProbePath, SourceMap};

fn there(path: &str) -> LocalFile {
    LocalFile { fs_path: Some(path.to_string()), is_file: true }
}

fn missing() -> LocalFile {
    LocalFile { fs_path: None, is_file: false }
}

fn known(l: Lookup) -> Option<String> {
    match l {
        Lookup::Known(local) => local,
        _ => panic!("not known: {:?}", l),
    }
}

#[test]
fn files_are_found_under_their_own_name() {
    let mut m = SourceMap::new();
    assert!(matches!(m.lookup(false, false, "a.c"), Lookup::Invalid));
    assert!(matches!(m.lookup(true, false, "a.c"), Lookup::Unknown(ProbePath::Own)));
    assert_eq!(m.resolve("a.c", "/w/a.c", &there("/W/A.c"), true).as_deref(), Some("/W/A.c"));
    assert_eq!(known(m.lookup(true, false, "a.c")).as_deref(), Some("/W/A.c"));
    assert!(matches!(m.lookup(false, false, "a.c"), Lookup::Invalid));
}

#[test]
fn missing_files_are_suppressed_if_wanted() {
    let mut m = SourceMap::new();
    assert_eq!(m.resolve("a.c", "/w/a.c", &missing(), true), None);
    assert_eq!(m.resolve("b.c", "/w/b.c", &missing(), false).as_deref(), Some("/w/b.c"));
    let directory = LocalFile { fs_path: Some("/W/c".to_string()), is_file: false };
    assert_eq!(m.resolve("c", "/w/c", &directory, true), None);
    assert_eq!(m.resolve("d", "/w/d", &directory, false).as_deref(), Some("/w/d"));
}

#[test]
fn answers_are_remembered() {
    let mut m = SourceMap::new();
    m.resolve("a.c", "/w/a.c", &missing(), true);
    m.resolve("b.c", "/w/b.c", &there("/w/b.c"), true);
    assert_eq!(known(m.lookup(true, false, "a.c")), None);
    assert_eq!(known(m.lookup(true, false, "b.c")).as_deref(), Some("/w/b.c"));
    assert!(matches!(m.lookup(true, false, "c.c"), Lookup::Unknown(ProbePath::Own)));
}

#[test]
fn sessions_go_by_their_setting() {
    let mut s = DebugSession::new(false);
    assert!(matches!(s.map_filespec_to_local(true, false, "a.c"), Lookup::Unknown(ProbePath::Own)));
    assert_eq!(s.filespec_probed("a.c", "/w/a.c", &missing()), None);
    s.suppress_missing_files = false;
    assert_eq!(s.filespec_probed("b.c", "/w/b.c", &missing()).as_deref(), Some("/w/b.c"));
    // What was settled stays settled.
    assert_eq!(known(s.map_filespec_to_local(true, false, "a.c")), None);
}

#[test]
fn relative_paths_follow_the_base() {
    let s = DebugSession::new(false);
    assert!(matches!(
        s.map_filespec_to_local(true, true, "a.c"),
        Lookup::Unknown(ProbePath::JoinedToBase)
    ));
    assert!(matches!(
        s.map_filespec_to_local(true, false, "/a.c"),
        Lookup::Unknown(ProbePath::Own)
    ));
    assert!(matches!(s.map_filespec_to_local(false, true, ""), Lookup::Invalid));
}

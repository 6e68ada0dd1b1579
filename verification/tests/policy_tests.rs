use https_proxy::policy::decide;
use https_proxy::policy::join_under;
use https_proxy::policy::Mirror;
use https_proxy::policy::MirrorDecision;

fn mirror(extensions: Vec<&str>, location: &str) -> Mirror {
    Mirror {
        name: "test".to_owned(),
        extensions: extensions.into_iter().map(|e| e.to_owned()).collect(),
        location: location.to_owned(),
    }
}

#[test]
fn extension_filter_saves_matching_archive() {
    let m = mirror(vec!["gz"], "/root");
    match decide(&m, "/data/archive.tar.gz") {
        MirrorDecision::Save { directory, file_name } => {
            assert_eq!(directory, "/root/data/");
            assert_eq!(file_name, "archive.tar.gz");
        }
        MirrorDecision::Skip => panic!("expected a save decision"),
    }
}

#[test]
fn extension_filter_skips_other_files() {
    let m = mirror(vec!["gz"], "/root");
    match decide(&m, "/data/readme.txt") {
        MirrorDecision::Skip => {}
        MirrorDecision::Save { .. } => panic!("expected a skip decision"),
    }
}

#[test]
fn containment_is_looser_than_suffix_match() {
    let m = mirror(vec!["ar"], "/root");
    match decide(&m, "/x/archive.tar") {
        MirrorDecision::Save { directory, file_name } => {
            assert_eq!(directory, "/root/x/");
            assert_eq!(file_name, "archive.tar");
        }
        MirrorDecision::Skip => panic!("expected a save decision"),
    }
}

#[test]
fn token_may_match_anywhere_in_the_segment() {
    let m = mirror(vec!["chi"], "/root");
    match decide(&m, "/data/archive.tar") {
        MirrorDecision::Save { file_name, .. } => assert_eq!(file_name, "archive.tar"),
        MirrorDecision::Skip => panic!("expected a save decision"),
    }
}

#[test]
fn path_without_dot_is_skipped() {
    let m = mirror(vec!["gz"], "/root");
    assert!(matches!(decide(&m, "/data/archive"), MirrorDecision::Skip));
}

#[test]
fn segment_ending_in_its_dot_is_filename_like() {
    let m = mirror(vec!["f"], "/root");
    match decide(&m, "/a/f.") {
        MirrorDecision::Save { directory, file_name } => {
            assert_eq!(directory, "/root/a/");
            assert_eq!(file_name, "f.");
        }
        MirrorDecision::Skip => panic!("expected a save decision"),
    }
}

#[test]
fn hidden_file_is_filename_like() {
    let m = mirror(vec!["gz"], "/root");
    match decide(&m, "/data/.gz") {
        MirrorDecision::Save { directory, file_name } => {
            assert_eq!(directory, "/root/data/");
            assert_eq!(file_name, ".gz");
        }
        MirrorDecision::Skip => panic!("expected a save decision"),
    }
}

#[test]
fn bare_root_path_is_skipped() {
    let m = mirror(vec!["gz"], "/root");
    assert!(matches!(decide(&m, "/"), MirrorDecision::Skip));
}

#[test]
fn dotless_trailing_run_is_skipped_despite_dotted_directory() {
    // The segment is the trailing run of non-separator characters; a
    // dot in an earlier directory name does not make it filename-like.
    let m = mirror(vec!["a"], "/root");
    assert!(matches!(decide(&m, "/a.b/c"), MirrorDecision::Skip));
    let m = mirror(vec!["b"], "/root");
    assert!(matches!(decide(&m, "/x/a.b/cd"), MirrorDecision::Skip));
}

#[test]
fn location_with_trailing_separator_gets_no_second_one() {
    let m = mirror(vec!["gz"], "/root/");
    match decide(&m, "/data/archive.tar.gz") {
        MirrorDecision::Save { directory, .. } => assert_eq!(directory, "/root/data/"),
        MirrorDecision::Skip => panic!("expected a save decision"),
    }
}

#[test]
fn top_level_file_has_empty_relative_part() {
    let m = mirror(vec!["gz"], "/root");
    match decide(&m, "/archive.tar.gz") {
        MirrorDecision::Save { directory, file_name } => {
            assert_eq!(directory, "/root/");
            assert_eq!(file_name, "archive.tar.gz");
        }
        MirrorDecision::Skip => panic!("expected a save decision"),
    }
}

#[test]
fn join_under_inserts_separator_only_when_needed() {
    assert_eq!(join_under("/a", "b"), "/a/b");
    assert_eq!(join_under("/a/", "b"), "/a/b");
    assert_eq!(join_under("", "b"), "/b");
}

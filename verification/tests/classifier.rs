use skip_icloud_sync::location::{
    advance, check_cloud_folder, check_pwd_is_in_icloud, hint_in, mirror_from, mirror_path, Hint,
    LocateError, Query, Reply, CLOUD_MARKER, CLOUD_ROOT,
};
use skip_icloud_sync::run::{exit_status, stages};

const HOME: &str = "/Users/x";

#[test]
fn the_marker_is_the_lowercase_of_the_cloud_root_s_last_segment() {
    assert_eq!(CLOUD_MARKER, "com~apple~clouddocs");
    assert_eq!(CLOUD_ROOT, "Library/Mobile Documents/com~apple~CloudDocs");
    assert!(CLOUD_ROOT.to_lowercase().ends_with(CLOUD_MARKER));
}

#[test]
fn a_path_inside_the_synced_tree_is_settled_at_once() {
    let cwd = "/Users/x/Library/Mobile Documents/com~apple~CloudDocs/proj";
    assert_eq!(check_pwd_is_in_icloud(cwd, Some(HOME)), Ok(Query::Settled(true)));
}

#[test]
fn the_marker_counts_in_any_casing() {
    for marker in ["com~apple~clouddocs", "COM~APPLE~CLOUDDOCS", "Com~Apple~CloudDocs", "cOM~aPPLE~cLOUDdOCS"] {
        let cwd = format!("/Users/x/Library/Mobile Documents/{marker}/proj");
        assert_eq!(check_pwd_is_in_icloud(&cwd, Some(HOME)), Ok(Query::Settled(true)), "{cwd}");
    }
}

#[test]
fn the_marker_needs_no_home_directory() {
    assert_eq!(check_pwd_is_in_icloud("/mnt/com~apple~CloudDocs/Desktop", None), Ok(Query::Settled(true)));
}

#[test]
fn the_marker_wins_over_a_mirrored_folder() {
    let cwd = "/Users/x/Library/Mobile Documents/com~apple~CloudDocs/Documents/proj";
    assert_eq!(check_pwd_is_in_icloud(cwd, Some("/elsewhere")), Ok(Query::Settled(true)));
}

#[test]
fn a_desktop_path_asks_for_its_mirror() {
    assert_eq!(
        check_pwd_is_in_icloud("/Users/x/Desktop/proj", Some(HOME)),
        Ok(Query::Mirror("/Users/x/Library/Mobile Documents/com~apple~CloudDocs/Desktop/proj".to_string()))
    );
}

#[test]
fn a_documents_path_asks_for_its_mirror() {
    assert_eq!(
        check_pwd_is_in_icloud("/Users/x/DOCUMENTS/a/b", Some(HOME)),
        Ok(Query::Mirror("/Users/x/Library/Mobile Documents/com~apple~CloudDocs/DOCUMENTS/a/b".to_string()))
    );
}

#[test]
fn a_mirrored_folder_without_a_home_directory_fails() {
    assert_eq!(check_pwd_is_in_icloud("/Users/x/Desktop/proj", None), Err(LocateError::NoHome));
    assert_eq!(check_cloud_folder("/Users/x/Desktop/proj", None), Err(LocateError::NoHome));
}

#[test]
fn a_mirrored_folder_outside_the_home_directory_fails() {
    assert_eq!(
        check_pwd_is_in_icloud("/srv/documents/proj", Some(HOME)),
        Err(LocateError::OutsideHome)
    );
    assert_eq!(check_cloud_folder("/srv/documents/proj", Some(HOME)), Err(LocateError::OutsideHome));
}

#[test]
fn each_error_has_its_words() {
    assert_eq!(LocateError::NoHome.message(), "Unable to get home directory");
    assert_eq!(LocateError::OutsideHome.message(), "prefix not found");
}

#[test]
fn a_sibling_whose_name_begins_alike_is_outside() {
    assert_eq!(check_cloud_folder("/Users/xy/Desktop", Some(HOME)), Err(LocateError::OutsideHome));
}

#[test]
fn any_other_path_goes_to_the_operator() {
    assert_eq!(check_pwd_is_in_icloud("/Users/x/code/proj", Some(HOME)), Ok(Query::Operator));
    assert_eq!(check_pwd_is_in_icloud("/tmp/work", None), Ok(Query::Operator));
    assert_eq!(check_pwd_is_in_icloud("", None), Ok(Query::Operator));
}

#[test]
fn the_mirror_of_the_home_directory_is_the_cloud_root() {
    assert_eq!(
        check_cloud_folder("/Users/x", Some(HOME)),
        Ok("/Users/x/Library/Mobile Documents/com~apple~CloudDocs/".to_string())
    );
}

#[test]
fn the_mirror_agrees_with_the_standard_library() {
    for (cwd, home) in [
        ("/Users/x/Desktop/proj", "/Users/x"),
        ("/Users/x/Desktop/proj", "/Users/x/"),
        ("/Users/x//Documents/./a", "/Users/x"),
        ("/Users/x", "/Users/x"),
        ("/home/u/documents", "/"),
    ] {
        let wanted = std::path::Path::new(home)
            .join("Library/Mobile Documents/com~apple~CloudDocs")
            .join(std::path::Path::new(cwd).strip_prefix(home).unwrap());
        assert_eq!(
            check_cloud_folder(cwd, Some(home)),
            Ok(wanted.to_str().unwrap().to_string()),
            "{cwd} {home}"
        );
    }
}

#[test]
fn mirror_path_roots_the_rest_under_the_cloud_root() {
    assert_eq!(
        mirror_path("/Users/x", "Desktop/proj"),
        "/Users/x/Library/Mobile Documents/com~apple~CloudDocs/Desktop/proj"
    );
    assert_eq!(
        mirror_path("/Users/x/", "Documents"),
        "/Users/x/Library/Mobile Documents/com~apple~CloudDocs/Documents"
    );
}

#[test]
fn mirror_from_fails_without_a_rest() {
    assert_eq!(mirror_from(HOME, None), Err(LocateError::OutsideHome));
    assert_eq!(
        mirror_from(HOME, Some("Desktop".to_string())),
        Ok("/Users/x/Library/Mobile Documents/com~apple~CloudDocs/Desktop".to_string())
    );
}

#[test]
fn hints_are_read_from_lowercase_text() {
    assert_eq!(hint_in("/users/x/library/mobile documents/com~apple~clouddocs/p"), Hint::Marker);
    assert_eq!(hint_in("/users/x/desktop/p"), Hint::Mirrored);
    assert_eq!(hint_in("/users/x/documents"), Hint::Mirrored);
    assert_eq!(hint_in("/users/x/my-documents-old"), Hint::Mirrored);
    assert_eq!(hint_in("/users/x/desktop/com~apple~clouddocs"), Hint::Marker);
    assert_eq!(hint_in("/users/x/code"), Hint::Nothing);
    assert_eq!(hint_in("/Users/x/Desktop"), Hint::Nothing);
    assert_eq!(hint_in(""), Hint::Nothing);
}

#[test]
fn a_mirror_that_exists_settles_the_directory_as_synced() {
    let pending = Query::Mirror("/m".to_string());
    assert_eq!(advance(pending, Reply::Exists(true)), Query::Settled(true));
}

#[test]
fn a_mirror_that_is_missing_goes_to_the_operator() {
    let pending = Query::Mirror("/m".to_string());
    assert_eq!(advance(pending, Reply::Exists(false)), Query::Operator);
}

#[test]
fn the_operator_s_answer_is_the_finding() {
    assert_eq!(advance(Query::Operator, Reply::Answer(true)), Query::Settled(true));
    assert_eq!(advance(Query::Operator, Reply::Answer(false)), Query::Settled(false));
}

#[test]
fn a_finding_stays() {
    for synced in [true, false] {
        for reply in [Reply::Exists(true), Reply::Exists(false), Reply::Answer(true), Reply::Answer(false)] {
            assert_eq!(advance(Query::Settled(synced), reply), Query::Settled(synced));
        }
    }
}

#[test]
fn a_reply_to_another_question_changes_nothing() {
    assert_eq!(advance(Query::Operator, Reply::Exists(true)), Query::Operator);
    assert_eq!(
        advance(Query::Mirror("/m".to_string()), Reply::Answer(true)),
        Query::Mirror("/m".to_string())
    );
}

#[test]
fn a_declined_confirmation_ends_the_run_with_status_one() {
    let first = check_pwd_is_in_icloud("/Users/x/code/proj", Some(HOME)).unwrap();
    assert_eq!(first, Query::Operator);
    let last = advance(first, Reply::Answer(false));
    assert_eq!(last, Query::Settled(false));
    assert!(stages(false, false).is_empty());
    assert!(stages(false, true).is_empty());
    assert_eq!(exit_status(false), 1);
}

#[test]
fn a_missing_mirror_and_a_declined_confirmation_end_the_run() {
    let first = check_pwd_is_in_icloud("/Users/x/Desktop/proj", Some(HOME)).unwrap();
    let second = advance(first, Reply::Exists(false));
    assert_eq!(second, Query::Operator);
    assert_eq!(advance(second, Reply::Answer(false)), Query::Settled(false));
}

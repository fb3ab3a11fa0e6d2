use skip_icloud_sync::gitignore::{add_gitignore, ignore_names, IgnoreUpdate};
use skip_icloud_sync::location::{check_pwd_is_in_icloud, Query};
use skip_icloud_sync::paths::Targets;
use skip_icloud_sync::relocate::{create_nosync_folder, create_symlink, Relocation};
use skip_icloud_sync::run::{exit_status, stages, Stage};

#[test]
fn a_run_inside_the_synced_tree() {
    let cwd = "/Users/x/Library/Mobile Documents/com~apple~CloudDocs/proj";
    let folder = "node_modules";
    assert_eq!(check_pwd_is_in_icloud(cwd, Some("/Users/x")), Ok(Query::Settled(true)));
    let targets = Targets::new(cwd, folder);
    let mut original_exists = true;
    let mut nosync_exists = false;
    let mut link: Option<(String, String)> = None;
    let mut ignore_file = String::new();
    for stage in stages(true, false) {
        match stage {
            Stage::Relocate => match create_nosync_folder(original_exists, nosync_exists) {
                Relocation::Keep => {}
                Relocation::Rename => {
                    original_exists = false;
                    nosync_exists = true;
                }
                Relocation::Create => nosync_exists = true,
            },
            Stage::Link => {
                let plan = create_symlink(&targets, original_exists);
                assert!(!plan.clear_original);
                assert!(plan.offer_reinstall);
                link = Some((targets.original().to_string(), targets.nosync().to_string()));
            }
            Stage::Ignore => {
                for name in ignore_names(folder) {
                    if let IgnoreUpdate::Append(lines) = add_gitignore(&ignore_file, &name) {
                        ignore_file.push_str(&lines);
                    }
                }
            }
        }
    }
    assert!(nosync_exists);
    assert_eq!(
        link,
        Some((format!("{cwd}/node_modules"), format!("{cwd}/node_modules.nosync")))
    );
    assert!(ignore_file.lines().any(|line| line == "node_modules*"));
    assert!(ignore_file.lines().any(|line| line == "node_modules.nosync*"));
    assert_eq!(exit_status(true), 0);
}

#[test]
fn a_run_on_a_folder_that_does_not_exist_yet() {
    let targets = Targets::new("/Users/x/Desktop/proj", "node_modules");
    assert_eq!(create_nosync_folder(false, false), Relocation::Create);
    let plan = create_symlink(&targets, false);
    assert!(!plan.clear_original);
    assert_eq!(targets.nosync(), "/Users/x/Desktop/proj/node_modules.nosync");
}

#[test]
fn a_second_run_keeps_the_nosync_directory_and_renews_the_link() {
    let targets = Targets::new("/Users/x/Desktop/proj", "node_modules");
    assert_eq!(create_nosync_folder(true, true), Relocation::Keep);
    assert!(create_symlink(&targets, true).clear_original);
}

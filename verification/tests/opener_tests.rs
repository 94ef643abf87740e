use yt_dlp_x::opener::{
    check_directory, command_outcome, expand_user_path, open_directory_target,
    open_in_file_manager, OpenError,
};
use yt_dlp_x::platform::Platform;

#[test]
fn tilde_expansion_resolves_against_home() {
    let home = Some(String::from("/home/dev"));
    assert_eq!(expand_user_path("~", &home, Platform::Linux).unwrap(), "/home/dev");
    assert_eq!(expand_user_path("~/media", &home, Platform::Linux).unwrap(), "/home/dev/media");
    assert_eq!(expand_user_path("~\\media", &home, Platform::Windows).unwrap(), "/home/dev\\media");
    assert_eq!(expand_user_path("/abs/path", &home, Platform::Linux).unwrap(), "/abs/path");
    assert_eq!(expand_user_path("~stranger", &home, Platform::Linux).unwrap(), "~stranger");
}

#[test]
fn tilde_without_home_fails() {
    assert!(matches!(
        expand_user_path("~", &None, Platform::Linux),
        Err(OpenError::HomeNotFound)
    ));
    assert!(matches!(
        expand_user_path("~/x", &None, Platform::Linux),
        Err(OpenError::HomeNotFound)
    ));
}

#[test]
fn blank_open_requests_are_rejected_first() {
    assert!(matches!(
        open_directory_target("   ", &None, Platform::Linux),
        Err(OpenError::EmptyPath)
    ));
    let home = Some(String::from("/home/dev"));
    assert_eq!(
        open_directory_target("  ~/d  ", &home, Platform::Linux).unwrap(),
        "/home/dev/d"
    );
}

#[test]
fn directory_checks_reject_missing_and_non_directories() {
    assert!(check_directory(true, true).is_ok());
    assert!(matches!(check_directory(false, false), Err(OpenError::PathMissing)));
    assert!(matches!(check_directory(true, false), Err(OpenError::NotADirectory)));
}

#[test]
fn each_platform_names_its_file_manager() {
    let path = String::from("/media/out");
    let (prog, args) = open_in_file_manager(Platform::MacOs, &path, true).unwrap();
    assert_eq!(prog, "open");
    assert_eq!(args, vec![String::from("/media/out")]);
    let (prog, args) = open_in_file_manager(Platform::Linux, &path, true).unwrap();
    assert_eq!(prog, "xdg-open");
    assert_eq!(args, vec![String::from("/media/out")]);
    let (prog, args) = open_in_file_manager(Platform::Windows, &path, true).unwrap();
    assert_eq!(prog, "explorer");
    assert_eq!(args, vec![String::from("/media/out")]);
    let (_, args) = open_in_file_manager(Platform::Windows, &path, false).unwrap();
    assert_eq!(args, vec![String::from("/select,/media/out")]);
    assert!(matches!(
        open_in_file_manager(Platform::Other, &path, true),
        Err(OpenError::Unsupported)
    ));
}

#[test]
fn command_outcomes_carry_the_exit_code() {
    assert!(command_outcome(true, Some(0)).is_ok());
    let err = command_outcome(false, Some(3)).unwrap_err();
    assert!(matches!(err, OpenError::CommandFailed(Some(3))));
    assert_eq!(err.message(), "the file manager exited with code 3");
    let unknown = command_outcome(false, None).unwrap_err();
    assert_eq!(unknown.message(), "the file manager exited with code unknown");
}

use yt_dlp_x::path_search::{
    candidate_directories, candidate_files, first_existing, locate_macos_binary, SearchEnv,
};

fn empty_env() -> SearchEnv {
    SearchEnv {
        path_var: None,
        etc_paths: None,
        paths_d: Vec::new(),
        home_dir: None,
        pipx_bin_dir: None,
    }
}

#[test]
fn search_path_entries_come_first_and_are_deduplicated() {
    let env = SearchEnv {
        path_var: Some(String::from("/usr/local/bin:/custom/bin:/usr/local/bin")),
        ..empty_env()
    };
    let dirs = candidate_directories(&env);
    assert_eq!(dirs[0], "/usr/local/bin");
    assert_eq!(dirs[1], "/custom/bin");
    assert_eq!(dirs.iter().filter(|d| d.as_str() == "/usr/local/bin").count(), 1);
}

#[test]
fn config_file_lines_are_trimmed_and_blanks_skipped() {
    let env = SearchEnv {
        etc_paths: Some(String::from("  /etc/first  \n\n/etc/second\n")),
        paths_d: vec![String::from("/pkg/bin\n  \n"), String::from("/etc/first\n/pkg/other")],
        ..empty_env()
    };
    let dirs = candidate_directories(&env);
    assert_eq!(dirs[0], "/etc/first");
    assert_eq!(dirs[1], "/etc/second");
    assert_eq!(dirs[2], "/pkg/bin");
    assert_eq!(dirs[3], "/pkg/other");
    assert_eq!(dirs.iter().filter(|d| d.as_str() == "/etc/first").count(), 1);
}

#[test]
fn well_known_prefixes_are_always_searched() {
    let dirs = candidate_directories(&empty_env());
    assert_eq!(dirs[0], "/opt/homebrew/bin");
    assert!(dirs.iter().any(|d| d == "/usr/local/bin"));
    assert!(dirs.iter().any(|d| d == "/sbin"));
}

#[test]
fn home_and_pipx_directories_come_last() {
    let env = SearchEnv {
        home_dir: Some(String::from("/Users/dev")),
        pipx_bin_dir: Some(String::from("/Users/dev/.pipx/bin")),
        ..empty_env()
    };
    let dirs = candidate_directories(&env);
    assert!(dirs.iter().any(|d| d == "/Users/dev/bin"));
    assert!(dirs.iter().any(|d| d == "/Users/dev/.local/bin"));
    assert!(dirs.iter().any(|d| d == "/Users/dev/Library/Python/3.12/bin"));
    assert_eq!(dirs.last().unwrap(), "/Users/dev/.pipx/bin");
}

#[test]
fn candidate_files_cross_directories_with_names() {
    let env = SearchEnv { path_var: Some(String::from("/one")), ..empty_env() };
    let names = vec![String::from("ffmpeg"), String::from("ffprobe")];
    let files = candidate_files(&env, &names);
    assert_eq!(files[0], "/one/ffmpeg");
    assert_eq!(files[1], "/one/ffprobe");
    assert_eq!(files[2], "/opt/homebrew/bin/ffmpeg");
}

#[test]
fn first_existing_picks_the_first_probe_hit() {
    let files = vec![String::from("/a/x"), String::from("/b/x"), String::from("/c/x")];
    assert_eq!(first_existing(&files, &vec![false, true, true]).as_deref(), Some("/b/x"));
    assert_eq!(first_existing(&files, &vec![true, false, false]).as_deref(), Some("/a/x"));
    assert!(first_existing(&files, &vec![false, false, false]).is_none());
}

#[test]
fn locate_returns_the_first_existing_candidate() {
    let env = SearchEnv { path_var: Some(String::from("/one:/two")), ..empty_env() };
    let names = vec![String::from("yt-dlp")];
    let files = candidate_files(&env, &names);
    let mut exists = vec![false; files.len()];
    exists[1] = true;
    let found = locate_macos_binary(&env, &names, &exists).unwrap();
    assert_eq!(found, "/two/yt-dlp");
    let none = locate_macos_binary(&env, &names, &vec![false; files.len()]);
    assert!(none.is_none());
}

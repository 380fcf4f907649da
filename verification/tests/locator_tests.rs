use sidecar::locator::{candidate_paths, first_present, generic_name, locate, qualified_name};
use sidecar::platform::{Arch, Os, Platform};

fn linux() -> Platform {
    Platform::new(Arch::X86_64, Os::Linux)
}

fn windows() -> Platform {
    Platform::new(Arch::X86_64, Os::Windows)
}

fn names(paths: &[&str]) -> Vec<String> {
    paths.iter().map(|p| p.to_string()).collect()
}

#[test]
fn file_names_on_linux() {
    assert_eq!(qualified_name("backend", linux()), "backend-x86_64-unknown-linux-gnu");
    assert_eq!(generic_name("backend", linux()), "backend");
}

#[test]
fn file_names_on_windows() {
    assert_eq!(qualified_name("backend", windows()), "backend-x86_64-pc-windows-msvc.exe");
    assert_eq!(generic_name("backend", windows()), "backend.exe");
}

#[test]
fn candidates_on_linux_in_priority_order() {
    let paths = candidate_paths(Some("/opt/app"), "eve-flipper-backend", linux());
    assert_eq!(
        paths,
        names(&[
            "/opt/app/binaries/eve-flipper-backend-x86_64-unknown-linux-gnu",
            "/opt/app/eve-flipper-backend-x86_64-unknown-linux-gnu",
            "/opt/app/binaries/eve-flipper-backend",
            "/opt/app/eve-flipper-backend",
        ])
    );
}

#[test]
fn candidates_on_windows_in_priority_order() {
    let paths = candidate_paths(Some("C:\\Apps\\Flipper"), "eve-flipper-backend", windows());
    assert_eq!(
        paths,
        names(&[
            "C:\\Apps\\Flipper\\binaries\\eve-flipper-backend-x86_64-pc-windows-msvc.exe",
            "C:\\Apps\\Flipper\\eve-flipper-backend-x86_64-pc-windows-msvc.exe",
            "C:\\Apps\\Flipper\\binaries\\eve-flipper-backend.exe",
            "C:\\Apps\\Flipper\\eve-flipper-backend.exe",
        ])
    );
}

#[test]
fn candidates_on_arm_mac() {
    let paths = candidate_paths(
        Some("/Applications/Flipper.app/Contents/MacOS"),
        "backend",
        Platform::new(Arch::Aarch64, Os::MacOs),
    );
    assert_eq!(
        paths,
        names(&[
            "/Applications/Flipper.app/Contents/MacOS/binaries/backend-aarch64-apple-darwin",
            "/Applications/Flipper.app/Contents/MacOS/backend-aarch64-apple-darwin",
            "/Applications/Flipper.app/Contents/MacOS/binaries/backend",
            "/Applications/Flipper.app/Contents/MacOS/backend",
        ])
    );
}

#[test]
fn candidates_on_an_unknown_platform_keep_the_generic_name() {
    let paths = candidate_paths(Some("/srv"), "backend", Platform::new(Arch::Other, Os::Other));
    assert_eq!(
        paths,
        names(&[
            "/srv/binaries/backend-unknown",
            "/srv/backend-unknown",
            "/srv/binaries/backend",
            "/srv/backend",
        ])
    );
}

#[test]
fn candidates_do_not_depend_on_earlier_calls() {
    let first = candidate_paths(Some("/opt/app"), "backend", linux());
    let second = candidate_paths(Some("/opt/app"), "backend", linux());
    assert_eq!(first, second);
    assert_eq!(first.len(), 4);
}

#[test]
fn no_candidates_without_a_launcher_directory() {
    assert!(candidate_paths(None, "backend", linux()).is_empty());
    assert!(candidate_paths(None, "backend", windows()).is_empty());
}

#[test]
fn first_match_wins() {
    let paths = candidate_paths(Some("/opt/app"), "backend", linux());
    let found = locate(&paths, &vec![true, false, true, false]);
    assert_eq!(found, Some("/opt/app/binaries/backend-x86_64-unknown-linux-gnu".to_string()));
}

#[test]
fn all_present_gives_the_most_specific() {
    let paths = candidate_paths(Some("/opt/app"), "backend", linux());
    assert_eq!(locate(&paths, &vec![true, true, true, true]), Some(paths[0].clone()));
}

#[test]
fn each_single_candidate_is_found() {
    let paths = candidate_paths(Some("/opt/app"), "backend", linux());
    for i in 0..4 {
        let mut present = vec![false; 4];
        present[i] = true;
        assert_eq!(locate(&paths, &present), Some(paths[i].clone()));
    }
}

#[test]
fn later_candidates_do_not_displace_an_earlier_one() {
    let paths = candidate_paths(Some("/opt/app"), "backend", linux());
    assert_eq!(locate(&paths, &vec![false, true, true, true]), Some(paths[1].clone()));
    assert_eq!(locate(&paths, &vec![false, false, true, true]), Some(paths[2].clone()));
    assert_eq!(
        locate(&paths, &vec![false, false, false, true]),
        Some("/opt/app/backend".to_string())
    );
}

#[test]
fn nothing_present_is_not_found() {
    let paths = candidate_paths(Some("/opt/app"), "backend", linux());
    assert_eq!(locate(&paths, &vec![false, false, false, false]), None);
}

#[test]
fn no_directory_is_not_found() {
    let paths = candidate_paths(None, "backend", linux());
    assert_eq!(locate(&paths, &vec![]), None);
    assert_eq!(locate(&paths, &vec![true, true, true, true]), None);
}

#[test]
fn a_candidate_without_a_flag_counts_as_missing() {
    let paths = candidate_paths(Some("/opt/app"), "backend", linux());
    assert_eq!(locate(&paths, &vec![]), None);
    assert_eq!(locate(&paths, &vec![false, false]), None);
    assert_eq!(locate(&paths, &vec![false, true]), Some(paths[1].clone()));
}

#[test]
fn a_flag_without_a_candidate_is_ignored() {
    let paths = names(&["/a", "/b"]);
    assert_eq!(locate(&paths, &vec![false, false, true]), None);
    assert_eq!(locate(&paths, &vec![false, true, true]), Some("/b".to_string()));
}

#[test]
fn first_present_is_the_least_index() {
    assert_eq!(first_present(&vec![]), None);
    assert_eq!(first_present(&vec![false, false, false]), None);
    assert_eq!(first_present(&vec![true]), Some(0));
    assert_eq!(first_present(&vec![false, true, true]), Some(1));
    assert_eq!(first_present(&vec![false, false, false, true]), Some(3));
}

//! Platform naming, entry iteration, and embedded-library placement.

use zip4j::cursor::ZipEntryIterator;
use zip4j::loader::{get_library_path, initialize, join_path, plan_library_load,
    prepend_search_path, search_path_separator, search_path_var};
use zip4j::loader::ensure_initialized;
use zip4j::platform::{get_current_platform, TargetArch, TargetLibc, TargetOs};
use zip4j::ZipError;

use TargetArch as A;
use TargetLibc as L;
use TargetOs as O;

#[test]
fn platform_names_cover_the_shipped_variants() {
    assert_eq!(get_current_platform(O::Windows, A::X86_64, L::Other), "windows-x86_64");
    assert_eq!(get_current_platform(O::Linux, A::X86_64, L::Gnu), "linux-x86_64");
    assert_eq!(get_current_platform(O::Linux, A::X86_64, L::Musl), "linux-x86_64-musl");
    assert_eq!(get_current_platform(O::Linux, A::Aarch64, L::Gnu), "linux-aarch64");
    assert_eq!(get_current_platform(O::Linux, A::Aarch64, L::Musl), "linux-aarch64");
    assert_eq!(get_current_platform(O::MacOs, A::X86_64, L::Other), "darwin-x86_64");
    assert_eq!(get_current_platform(O::MacOs, A::Aarch64, L::Other), "darwin-aarch64");
    // Targets without a shipped variant fall back to "unknown".
    assert_eq!(get_current_platform(O::Windows, A::Aarch64, L::Other), "unknown");
    assert_eq!(get_current_platform(O::Linux, A::X86_64, L::Other), "unknown");
    assert_eq!(get_current_platform(O::Other, A::X86_64, L::Gnu), "unknown");
}

#[test]
fn iteration_yields_each_index_once_in_order() {
    let mut it = ZipEntryIterator::new(3);
    assert_eq!(it.len(), 3);
    assert_eq!(it.size_hint(), (3, Some(3)));
    assert_eq!(it.next_index(), Some(0));
    assert_eq!(it.next_index(), Some(1));
    assert_eq!(it.len(), 1);
    assert_eq!(it.next_index(), Some(2));
    assert_eq!(it.next_index(), None);
    assert_eq!(it.next_index(), None);
    assert_eq!(it.len(), 0);
    assert_eq!(it.size_hint(), (0, Some(0)));

    let mut empty = ZipEntryIterator::new(0);
    assert_eq!(empty.next_index(), None);
}

#[test]
fn paths_join_and_search_paths_prepend() {
    assert_eq!(join_path("/opt/lib", "/", "libzip.so"), "/opt/lib/libzip.so");
    assert_eq!(prepend_search_path("/tmp/x", ":", ""), "/tmp/x");
    assert_eq!(prepend_search_path("/tmp/x", ":", "/usr/lib"), "/tmp/x:/usr/lib");
    assert_eq!(prepend_search_path("C:\\t", ";", "C:\\w"), "C:\\t;C:\\w");
}

#[test]
fn each_os_has_its_loader_variable_and_separator() {
    assert_eq!(search_path_var(TargetOs::Windows), Some("PATH"));
    assert_eq!(search_path_var(TargetOs::Linux), Some("LD_LIBRARY_PATH"));
    assert_eq!(search_path_var(TargetOs::MacOs), Some("DYLD_LIBRARY_PATH"));
    assert_eq!(search_path_var(TargetOs::Other), None);
    assert_eq!(search_path_separator(TargetOs::Windows), ";");
    assert_eq!(search_path_separator(TargetOs::Linux), ":");
}

#[test]
fn the_load_plan_prefers_the_executable_directory() {
    let loc = plan_library_load(true, "linux-x86_64", Some("/app"), true, "/tmp/t", "/",
        "libzip.so")
        .unwrap();
    assert_eq!(get_library_path(&loc), "/app/libzip.so");
    assert!(!loc.uses_temp_dir);
}

#[test]
fn the_load_plan_falls_back_to_the_temporary_directory() {
    let loc = plan_library_load(true, "linux-x86_64", Some("/app"), false, "/tmp/t", "/",
        "libzip.so")
        .unwrap();
    assert_eq!(get_library_path(&loc), "/tmp/t/libzip.so");
    assert!(loc.uses_temp_dir);
}

#[test]
fn the_load_plan_reports_its_two_failures() {
    match plan_library_load(false, "sparc-solaris", Some("/app"), true, "/tmp/t", "/", "l.so") {
        Err(ZipError::Unknown(m)) => {
            assert_eq!(m, "No embedded library found for platform: sparc-solaris");
        }
        other => panic!("wrong result: {:?}", other),
    }
    match plan_library_load(true, "linux-x86_64", None, true, "/tmp/t", "/", "l.so") {
        Err(ZipError::Unknown(m)) => assert_eq!(m, "Failed to get executable directory"),
        other => panic!("wrong result: {:?}", other),
    }
}

#[test]
fn loader_initialization_always_succeeds_without_a_payload() {
    assert!(initialize().is_ok());
    assert!(ensure_initialized().is_ok());
}

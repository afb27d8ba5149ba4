use overlay_engine::install::{
    accept_location, after_first_try, after_try, check_registry_values, check_values, is_within,
    non_empty_registry_value, normalized_path_string, path_has_case_insensitive_prefix,
    ConnectStep, InstallError, PathFacts,
};
use overlay_engine::wide::{text_of_value, units_for, wide_null};

#[test]
fn rejects_core_exe_outside_install_dir() {
    // No canonical path stands for a file that is not there.
    let result = check_registry_values(r"C:\Windows", r"C:\Windows\System32\core-server.exe")
        .result
        .and_then(|paths| accept_location(Some(paths.install_dir), None, None));
    assert!(result.is_err());
    let outside = accept_location(
        Some(r"C:\Windows\System32".to_string()),
        Some(r"C:\Windows\core-server.exe".to_string()),
        None,
    );
    assert_eq!(outside.err(), Some(InstallError::ProgramOutside));
}

#[test]
fn rejects_wrong_core_file_name() {
    let result = check_registry_values(r"C:\Windows", r"C:\Windows\System32\cmd.exe");
    assert!(result.result.is_err());
}

#[test]
fn case_insensitive_prefix_respects_directory_boundary() {
    assert!(path_has_case_insensitive_prefix(
        r"C:\Apps\Overlay\core-server.exe",
        r"c:\apps\overlay"
    ));
    assert!(!path_has_case_insensitive_prefix(
        r"C:\Apps\Overlay2\core-server.exe",
        r"c:\apps\overlay"
    ));
}

fn facts(exe_name: Option<&str>) -> PathFacts {
    PathFacts {
        dir_absolute: true,
        exe_absolute: true,
        exe_name: exe_name.map(|s| s.to_string()),
    }
}

#[test]
fn registry_values_are_checked_in_order() {
    let check = |dir: &str, exe: &str, f: PathFacts| check_values(dir, exe, &f).err();
    let good = || facts(Some("Core-Server.EXE"));
    assert_eq!(check(" ", "", good()), Some(InstallError::NoDirectory));
    assert_eq!(check("d", "\t", good()), Some(InstallError::NoProgram));
    let relative = PathFacts { dir_absolute: false, ..good() };
    assert_eq!(check("d", "e", relative), Some(InstallError::DirectoryNotAbsolute));
    let relative = PathFacts { exe_absolute: false, ..good() };
    assert_eq!(check("d", "e", relative), Some(InstallError::ProgramNotAbsolute));
    assert_eq!(check("d", "e", facts(Some("cmd.exe"))), Some(InstallError::OtherProgram));
    assert_eq!(check("d", "e", facts(None)), Some(InstallError::OtherProgram));
    let paths = check_values(" d ", "\u{3000}e", &good()).unwrap();
    assert_eq!((paths.install_dir.as_str(), paths.core_exe.as_str()), ("d", "e"));
}

#[test]
fn relative_registry_values_are_refused() {
    assert_eq!(
        check_registry_values("dir", "dir/core-server.exe").result.err(),
        Some(InstallError::DirectoryNotAbsolute)
    );
    assert_eq!(check_registry_values("", "x").result.err(), Some(InstallError::NoDirectory));
    assert_eq!(check_registry_values("x", " ").result.err(), Some(InstallError::NoProgram));
}

#[test]
fn absolute_registry_values_are_accepted() {
    let dir = std::path::Path::new(if cfg_windows() { "C:\\Core" } else { "/core" });
    let exe = dir.join("CORE-SERVER.exe");
    let paths = check_registry_values(
        &format!(" {} ", dir.display()),
        &format!("{}\n", exe.display()),
    );
    assert!(paths.dir_absolute.holds() && paths.exe_absolute.holds());
    assert_eq!(paths.exe_name.get(), Some("CORE-SERVER.exe"));
    let paths = paths.result.unwrap();
    assert_eq!(paths.install_dir, dir.display().to_string());
    assert_eq!(paths.core_exe, exe.display().to_string());
    let (dir, exe) = (dir.display().to_string(), dir.join("x").display().to_string());
    let other = check_registry_values(&dir, &exe);
    assert_eq!(other.result.err(), Some(InstallError::OtherProgram));
}

fn cfg_windows() -> bool {
    std::path::MAIN_SEPARATOR == '\\'
}

#[test]
fn locations_need_both_paths_and_one_within_the_other() {
    let some = |s: &str| Some(s.to_string());
    assert_eq!(
        accept_location(None, some("e"), None).err(),
        Some(InstallError::DirectoryMissing)
    );
    assert_eq!(
        accept_location(some("d"), None, None).err(),
        Some(InstallError::ProgramMissing)
    );
    assert_eq!(
        accept_location(some("C:\\A"), some("C:\\AB\\core-server.exe"), None).err(),
        Some(InstallError::ProgramOutside)
    );
    let found =
        accept_location(some("C:\\A\\"), some("c:/a/core-server.exe"), some(" 1.2 ")).unwrap();
    assert_eq!(found.install_dir, "C:\\A\\");
    assert_eq!(found.core_exe, "c:/a/core-server.exe");
    assert_eq!(found.version.as_deref(), Some("1.2"));
    let bare = accept_location(some("C:\\A"), some("C:\\A\\x"), some("  ")).unwrap();
    assert_eq!(bare.version, None);
}

#[test]
fn paths_are_compared_without_case_and_separator() {
    assert_eq!(normalized_path_string("C:/Apps/ÄB//"), "c:\\apps\\äb");
    assert!(is_within("c:\\a\\b", "c:\\a"));
    assert!(is_within("c:\\a", "c:\\a"));
    assert!(!is_within("c:\\ab", "c:\\a"));
    assert!(!is_within("c:", "c:\\a"));
    assert_eq!(non_empty_registry_value("  x "), Some("x"));
    assert_eq!(non_empty_registry_value(" "), None);
}

#[test]
fn connecting_depends_on_what_went_wrong() {
    assert_eq!(after_first_try(Some(231)), ConnectStep::Wait);
    assert_eq!(after_first_try(Some(2)), ConnectStep::StartCore);
    assert_eq!(after_first_try(Some(3)), ConnectStep::StartCore);
    assert_eq!(after_first_try(Some(5)), ConnectStep::Fail);
    assert_eq!(after_first_try(None), ConnectStep::Fail);
    assert_eq!(after_try(Some(231), true), ConnectStep::Retry);
    assert_eq!(after_try(Some(3), true), ConnectStep::Retry);
    assert_eq!(after_try(Some(231), false), ConnectStep::Fail);
    assert_eq!(after_try(Some(5), true), ConnectStep::Fail);
}

#[test]
fn wide_text_reads_back() {
    let text = "aä\u{FFFF}\u{1F600}z";
    let wide = wide_null(text);
    let expected: Vec<u16> = text.encode_utf16().chain(std::iter::once(0)).collect();
    assert_eq!(wide, expected);
    let bytes = (wide.len() * 2) as u32;
    assert_eq!(text_of_value(&wide, bytes).as_deref(), Some(text));
    assert_eq!(text_of_value(&wide, 2).as_deref(), Some("a"));
    assert_eq!(text_of_value(&wide, 0).as_deref(), Some(""));
    assert_eq!(text_of_value(&[0xD800, 0], 4), None);
    assert_eq!(units_for(7), 4);
    assert_eq!(units_for(8), 4);
    assert_eq!(units_for(u32::MAX), 0x8000_0000);
}

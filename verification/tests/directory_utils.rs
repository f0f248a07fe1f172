use invoice_pilot::directory_utils::{Ancestor, DirectoryProbes, DirectoryUtils, PathProbe};

fn probe(path: &str) -> PathProbe {
    let path = std::path::Path::new(path);
    PathProbe { exists: path.exists(), is_directory: path.is_dir() }
}

fn probes_of_this_process(dir_utils: &DirectoryUtils) -> DirectoryProbes {
    let working = std::path::Path::new(".")
        .canonicalize()
        .ok()
        .and_then(|d| d.to_str().map(|s| s.to_string()));
    DirectoryProbes {
        executable_directory: None,
        working_directory: dir_utils.get_working_directory(working.as_deref()),
        documents_directory: None,
        home_directory: dir_utils.get_home_directory(&None, &None),
    }
}

#[test]
fn test_directory_utils_creation() {
    let _dir_utils = DirectoryUtils::new();
    assert!(true);
}

#[test]
fn test_get_current_directory() {
    let dir_utils = DirectoryUtils::new();
    let probes = probes_of_this_process(&dir_utils);
    match dir_utils.get_current_directory(&probes) {
        Ok(dir) => {
            assert!(!dir.is_empty());
            assert!(dir_utils.is_directory_valid(probe(&dir)));
        }
        Err(e) => {
            panic!("无法获取目录: {}", e);
        }
    }
}

#[test]
fn test_path_normalization() {
    let dir_utils = DirectoryUtils::new();
    let windows_path = "C:\\Users\\Documents\\test";
    let normalized = dir_utils.normalize_path(windows_path);
    assert_eq!(normalized, "C:/Users/Documents/test");
}

#[test]
fn current_directory_prefers_the_executable_directory() {
    let dir_utils = DirectoryUtils::new();
    let probes = DirectoryProbes {
        executable_directory: Some("/opt/app".to_string()),
        working_directory: Some("/work".to_string()),
        documents_directory: Some("/home/u/Documents".to_string()),
        home_directory: Ok("/home/u".to_string()),
    };
    assert_eq!(dir_utils.get_current_directory(&probes), Ok("/opt/app".to_string()));
}

#[test]
fn current_directory_skips_a_build_directory() {
    let dir_utils = DirectoryUtils::new();
    let probes = DirectoryProbes {
        executable_directory: None,
        working_directory: Some("/work/project/target/debug".to_string()),
        documents_directory: Some("/home/u/Documents".to_string()),
        home_directory: Ok("/home/u".to_string()),
    };
    assert_eq!(dir_utils.get_current_directory(&probes), Ok("/home/u/Documents".to_string()));
    let probes = DirectoryProbes {
        executable_directory: None,
        working_directory: Some("/work/project/target/release/deps".to_string()),
        documents_directory: None,
        home_directory: Ok("/home/u".to_string()),
    };
    assert_eq!(dir_utils.get_current_directory(&probes), Ok("/home/u".to_string()));
}

#[test]
fn current_directory_takes_the_working_directory() {
    let dir_utils = DirectoryUtils::new();
    let probes = DirectoryProbes {
        executable_directory: None,
        working_directory: Some("/work/invoices".to_string()),
        documents_directory: Some("/home/u/Documents".to_string()),
        home_directory: Ok("/home/u".to_string()),
    };
    assert_eq!(dir_utils.get_current_directory(&probes), Ok("/work/invoices".to_string()));
}

#[test]
fn current_directory_reports_the_missing_home() {
    let dir_utils = DirectoryUtils::new();
    let probes = DirectoryProbes {
        executable_directory: None,
        working_directory: None,
        documents_directory: None,
        home_directory: Err("无法获取用户主目录".to_string()),
    };
    assert_eq!(dir_utils.get_current_directory(&probes), Err("无法获取用户主目录".to_string()));
}

#[test]
fn working_directory_is_not_the_root() {
    let dir_utils = DirectoryUtils::new();
    assert_eq!(dir_utils.get_working_directory(Some("/")), None);
    assert_eq!(dir_utils.get_working_directory(Some("/srv")), Some("/srv".to_string()));
    assert_eq!(dir_utils.get_working_directory(None), None);
}

#[test]
fn home_directory_falls_back() {
    let dir_utils = DirectoryUtils::new();
    let home = Some("/home/u".to_string());
    let profile = Some("C:\\Users\\u".to_string());
    assert_eq!(dir_utils.get_home_directory(&home, &profile), Ok("/home/u".to_string()));
    assert_eq!(dir_utils.get_home_directory(&None, &profile), Ok("C:\\Users\\u".to_string()));
    assert_eq!(dir_utils.get_home_directory(&None, &None), Ok("/Users".to_string()));
}

#[test]
fn documents_path_is_under_home() {
    let dir_utils = DirectoryUtils::new();
    assert_eq!(dir_utils.documents_path("/home/u", '/'), "/home/u/Documents");
    assert_eq!(dir_utils.documents_path("C:\\Users\\u", '\\'), "C:\\Users\\u\\Documents");
}

#[test]
fn directory_is_valid_only_if_it_exists_and_is_a_directory() {
    let dir_utils = DirectoryUtils::new();
    assert!(dir_utils.is_directory_valid(PathProbe { exists: true, is_directory: true }));
    assert!(!dir_utils.is_directory_valid(PathProbe { exists: true, is_directory: false }));
    assert!(!dir_utils.is_directory_valid(PathProbe { exists: false, is_directory: false }));
}

#[test]
fn parent_directory_of_a_path() {
    let dir_utils = DirectoryUtils::new();
    assert_eq!(dir_utils.get_parent_directory("/a/b/c"), Some("/a/b".to_string()));
    assert_eq!(dir_utils.get_parent_directory("a"), Some("".to_string()));
    assert_eq!(dir_utils.get_parent_directory("/"), None);
    assert_eq!(dir_utils.get_parent_directory(""), None);
}

#[test]
fn app_bundle_parent_is_found() {
    let dir_utils = DirectoryUtils::new();
    assert_eq!(
        dir_utils.find_app_parent_directory("/Applications/Tools/Pilot.app/Contents/MacOS"),
        Some("/Applications/Tools".to_string())
    );
    assert_eq!(dir_utils.find_app_parent_directory("/usr/local/bin"), None);
    assert_eq!(dir_utils.find_app_parent_directory("Pilot.app/Contents/MacOS"), Some("".to_string()));
}

#[test]
fn project_root_is_the_first_marked_ancestor() {
    let dir_utils = DirectoryUtils::new();
    let ancestors = vec![
        Ancestor { path: "/p/src-tauri/target".to_string(), has_package_json: false, has_cargo_toml: false },
        Ancestor { path: "/p/src-tauri".to_string(), has_package_json: false, has_cargo_toml: true },
        Ancestor { path: "/p".to_string(), has_package_json: true, has_cargo_toml: false },
        Ancestor { path: "/".to_string(), has_package_json: true, has_cargo_toml: true },
    ];
    assert_eq!(dir_utils.find_project_root(&ancestors), Some("/p".to_string()));
    let ancestors = vec![
        Ancestor { path: "/q/target".to_string(), has_package_json: false, has_cargo_toml: false },
        Ancestor { path: "/q".to_string(), has_package_json: false, has_cargo_toml: true },
    ];
    assert_eq!(dir_utils.find_project_root(&ancestors), Some("/q".to_string()));
    let ancestors = vec![
        Ancestor { path: "/".to_string(), has_package_json: false, has_cargo_toml: true },
    ];
    assert_eq!(dir_utils.find_project_root(&ancestors), None);
    assert_eq!(dir_utils.find_project_root(&Vec::new()), None);
}

#[test]
fn executable_directory_by_kind_of_installation() {
    let dir_utils = DirectoryUtils::new();
    let none: Vec<Ancestor> = Vec::new();
    assert_eq!(
        dir_utils.get_executable_directory("/Applications/Pilot.app/Contents/MacOS", &none),
        Some("/Applications".to_string())
    );
    assert_eq!(dir_utils.get_executable_directory("/usr/local/bin", &none), Some("/usr/local/bin".to_string()));
    let ancestors = vec![
        Ancestor { path: "/p/src-tauri/target".to_string(), has_package_json: false, has_cargo_toml: false },
        Ancestor { path: "/p/src-tauri".to_string(), has_package_json: false, has_cargo_toml: true },
        Ancestor { path: "/p".to_string(), has_package_json: true, has_cargo_toml: false },
    ];
    assert_eq!(
        dir_utils.get_executable_directory("/p/src-tauri/target/debug", &ancestors),
        Some("/p".to_string())
    );
    assert_eq!(
        dir_utils.get_executable_directory("/p/src-tauri/target/release", &none),
        Some("/p/src-tauri/target/release".to_string())
    );
}

#[test]
fn normalization_keeps_other_characters() {
    let dir_utils = DirectoryUtils::new();
    assert_eq!(dir_utils.normalize_path(""), "");
    assert_eq!(dir_utils.normalize_path("/already/normal"), "/already/normal");
    assert_eq!(dir_utils.normalize_path("发票\\2024\\一月"), "发票/2024/一月");
}

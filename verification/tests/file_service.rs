use invoice_pilot::file_service::{
    has_pdf_extension, is_taken, DirectoryListing, FileMetadata, FileService, ListedEntry,
    RenameProgress, RenameStep,
};
use invoice_pilot::filename::{candidate_name, file_extension, file_stem};
use invoice_pilot::types::Timestamp;

fn chars(s: &str) -> Vec<char> {
    s.chars().collect()
}

fn text(v: Vec<char>) -> String {
    v.into_iter().collect()
}

fn names(list: &[&str]) -> Vec<String> {
    list.iter().map(|n| n.to_string()).collect()
}

fn fresh() -> RenameProgress {
    RenameProgress {
        source_exists: None,
        destination_exists: None,
        parent_exists: None,
        parent_created: None,
        renamed: None,
    }
}

#[test]
fn acceptable_names() {
    let service = FileService::new();
    assert!(service.validate_filename("317.60元_发票.pdf"));
    assert!(service.validate_filename("a"));
    assert!(service.validate_filename(" a "));
    assert!(service.validate_filename(&"x".repeat(255)));
    assert!(service.validate_filename(&"元".repeat(255)));
}

#[test]
fn names_with_forbidden_characters_are_rejected() {
    let service = FileService::new();
    for c in ['<', '>', ':', '"', '|', '?', '*', '\\', '/'] {
        assert!(!service.validate_filename(&format!("a{}b.pdf", c)), "{}", c);
    }
}

#[test]
fn empty_blank_and_long_names_are_rejected() {
    let service = FileService::new();
    assert!(!service.validate_filename(""));
    assert!(!service.validate_filename("   "));
    assert!(!service.validate_filename("\t\n"));
    assert!(!service.validate_filename("\u{3000}\u{a0}"));
    assert!(!service.validate_filename(&"x".repeat(256)));
}

#[test]
fn forbidden_characters_become_underscores() {
    let service = FileService::new();
    assert_eq!(service.sanitize_filename("a<b>c:d\"e|f?g*h\\i/j.pdf"), "a_b_c_d_e_f_g_h_i_j.pdf");
    assert_eq!(service.sanitize_filename("plain.pdf"), "plain.pdf");
    assert_eq!(service.sanitize_filename(""), "");
}

#[test]
fn long_names_are_cut_and_marked() {
    let service = FileService::new();
    let long = "y".repeat(300);
    let safe = service.sanitize_filename(&long);
    assert_eq!(safe.chars().count(), 255);
    assert_eq!(safe, format!("{}...", "y".repeat(252)));
    let exact = "z".repeat(255);
    assert_eq!(service.sanitize_filename(&exact), exact);
    let slashes = "/".repeat(256);
    assert_eq!(service.sanitize_filename(&slashes), format!("{}...", "_".repeat(252)));
    assert!(service.validate_filename(&service.sanitize_filename(&long)));
}

#[test]
fn free_name_is_kept() {
    let service = FileService::new();
    assert_eq!(service.resolve_filename_conflict(&names(&[]), "a.pdf"), "a.pdf");
    assert_eq!(service.resolve_filename_conflict(&names(&["b.pdf", "a_1.pdf"]), "a.pdf"), "a.pdf");
}

#[test]
fn taken_name_gets_the_first_free_number() {
    let service = FileService::new();
    assert_eq!(service.resolve_filename_conflict(&names(&["a.pdf"]), "a.pdf"), "a_1.pdf");
    assert_eq!(
        service.resolve_filename_conflict(&names(&["a.pdf", "a_1.pdf", "a_2.pdf", "a_4.pdf"]), "a.pdf"),
        "a_3.pdf"
    );
    assert_eq!(
        service.resolve_filename_conflict(&names(&["100.00元_发票.pdf"]), "100.00元_发票.pdf"),
        "100.00元_发票_1.pdf"
    );
}

#[test]
fn taken_name_without_extension_gets_the_number_at_its_end() {
    let service = FileService::new();
    assert_eq!(service.resolve_filename_conflict(&names(&["a"]), "a"), "a_1");
    assert_eq!(service.resolve_filename_conflict(&names(&[".x", ".x_1"]), ".x"), ".x_2");
    assert_eq!(service.resolve_filename_conflict(&names(&[""]), ""), "_1");
    assert_eq!(service.resolve_filename_conflict(&names(&["a."]), "a."), "a_1.");
}

#[test]
fn name_with_a_directory_is_numbered_by_its_final_component() {
    let service = FileService::new();
    assert_eq!(text(candidate_name("sub/a.pdf", 0)), "sub/a.pdf");
    assert_eq!(text(candidate_name("sub/a.pdf", 2)), "a_2.pdf");
    assert_eq!(text(candidate_name("sub/a", 2)), "sub/a_2");
    assert_eq!(text(candidate_name("sub/..", 2)), "sub/.._2");
    assert_eq!(service.resolve_filename_conflict(&names(&["sub/a.pdf"]), "sub/a.pdf"), "a_1.pdf");
    assert_eq!(
        service.resolve_filename_conflict(&names(&["sub/a.pdf", "a_1.pdf"]), "sub/a.pdf"),
        "a_2.pdf"
    );
    assert_eq!(service.resolve_filename_conflict(&names(&["sub/a"]), "sub/a"), "sub/a_1");
}

#[test]
fn resolved_name_is_never_in_the_directory() {
    let service = FileService::new();
    let mut existing = names(&["n.pdf"]);
    for k in 1..40 {
        existing.push(format!("n_{}.pdf", k));
    }
    let free = service.resolve_filename_conflict(&existing, "n.pdf");
    assert_eq!(free, "n_40.pdf");
    assert!(!is_taken(&existing, &free));
    existing.push(free);
    assert_eq!(service.resolve_filename_conflict(&existing, "n.pdf"), "n_41.pdf");
}

#[test]
fn candidates_are_numbered_before_the_extension() {
    assert_eq!(text(candidate_name("a.pdf", 0)), "a.pdf");
    assert_eq!(text(candidate_name("a.pdf", 1)), "a_1.pdf");
    assert_eq!(text(candidate_name("a.pdf", 120)), "a_120.pdf");
    assert_eq!(text(candidate_name("a", 3)), "a_3");
    assert_eq!(text(candidate_name("..", 3)), ".._3");
    assert_eq!(text(candidate_name("a.pdf", 1 << 64)), "a_18446744073709551616.pdf");
}

#[test]
fn stem_and_extension_of_a_name() {
    assert_eq!(file_stem(&chars("a.pdf")), Some(chars("a")));
    assert_eq!(file_extension(&chars("a.pdf")), Some(chars("pdf")));
    assert_eq!(file_stem(&chars("a")), Some(chars("a")));
    assert_eq!(file_extension(&chars("a")), None);
    assert_eq!(file_stem(&chars(".a")), Some(chars(".a")));
    assert_eq!(file_extension(&chars(".a")), None);
    assert_eq!(file_stem(&chars("")), None);
    assert_eq!(file_extension(&chars("")), None);
    assert_eq!(file_stem(&chars(".")), None);
    assert_eq!(file_stem(&chars("..")), None);
    assert_eq!(file_extension(&chars("a.")), Some(chars("")));
}

#[test]
fn directory_of_a_file() {
    let service = FileService::new();
    assert_eq!(service.get_directory_path("/scan/in/a.pdf"), Some("/scan/in".to_string()));
    assert_eq!(service.get_directory_path("a.pdf"), Some("".to_string()));
    assert_eq!(service.get_directory_path("/"), None);
}

#[test]
fn rename_probes_the_source_first() {
    let service = FileService::new();
    assert!(matches!(service.rename_file("/d/new.pdf", &fresh()), RenameStep::ProbeSource));
}

#[test]
fn rename_fails_where_the_source_is_missing() {
    let service = FileService::new();
    let mut progress = fresh();
    progress.source_exists = Some(false);
    match service.rename_file("/d/new.pdf", &progress) {
        RenameStep::Finished(Err(reason)) => assert_eq!(reason, "源文件不存在"),
        other => panic!("{:?}", other),
    }
    progress.destination_exists = Some(true);
    match service.rename_file("/d/new.pdf", &progress) {
        RenameStep::Finished(Err(reason)) => assert_eq!(reason, "源文件不存在"),
        other => panic!("{:?}", other),
    }
}

#[test]
fn rename_never_overwrites_an_existing_destination() {
    let service = FileService::new();
    let mut progress = fresh();
    progress.source_exists = Some(true);
    assert!(matches!(service.rename_file("/d/new.pdf", &progress), RenameStep::ProbeDestination));
    progress.destination_exists = Some(true);
    match service.rename_file("/d/new.pdf", &progress) {
        RenameStep::Finished(Err(reason)) => assert_eq!(reason, "目标文件已存在"),
        other => panic!("{:?}", other),
    }
    progress.parent_exists = Some(true);
    progress.renamed = Some(Ok(()));
    match service.rename_file("/d/new.pdf", &progress) {
        RenameStep::Finished(Err(reason)) => assert_eq!(reason, "目标文件已存在"),
        other => panic!("{:?}", other),
    }
}

#[test]
fn rename_creates_a_missing_directory_first() {
    let service = FileService::new();
    let mut progress = fresh();
    progress.source_exists = Some(true);
    progress.destination_exists = Some(false);
    match service.rename_file("/d/sub/new.pdf", &progress) {
        RenameStep::ProbeParent(directory) => assert_eq!(directory, "/d/sub"),
        other => panic!("{:?}", other),
    }
    progress.parent_exists = Some(false);
    match service.rename_file("/d/sub/new.pdf", &progress) {
        RenameStep::CreateParent(directory) => assert_eq!(directory, "/d/sub"),
        other => panic!("{:?}", other),
    }
    progress.parent_created = Some(Ok(()));
    assert!(matches!(service.rename_file("/d/sub/new.pdf", &progress), RenameStep::Rename));
    progress.renamed = Some(Ok(()));
    assert!(matches!(service.rename_file("/d/sub/new.pdf", &progress), RenameStep::Finished(Ok(()))));
}

#[test]
fn rename_reports_why_the_directory_could_not_be_created() {
    let service = FileService::new();
    let mut progress = fresh();
    progress.source_exists = Some(true);
    progress.destination_exists = Some(false);
    progress.parent_exists = Some(false);
    progress.parent_created = Some(Err("permission denied".to_string()));
    match service.rename_file("/d/sub/new.pdf", &progress) {
        RenameStep::Finished(Err(reason)) => assert_eq!(reason, "无法创建目录: permission denied"),
        other => panic!("{:?}", other),
    }
}

#[test]
fn rename_reports_why_it_failed() {
    let service = FileService::new();
    let mut progress = fresh();
    progress.source_exists = Some(true);
    progress.destination_exists = Some(false);
    progress.parent_exists = Some(true);
    assert!(matches!(service.rename_file("/d/new.pdf", &progress), RenameStep::Rename));
    progress.renamed = Some(Err("cross-device link".to_string()));
    match service.rename_file("/d/new.pdf", &progress) {
        RenameStep::Finished(Err(reason)) => assert_eq!(reason, "重命名失败: cross-device link"),
        other => panic!("{:?}", other),
    }
}

#[test]
fn rename_without_a_directory_goes_straight_on() {
    let service = FileService::new();
    let mut progress = fresh();
    progress.source_exists = Some(true);
    progress.destination_exists = Some(false);
    assert!(matches!(service.rename_file("/", &progress), RenameStep::Rename));
}

#[test]
fn pdf_extension_in_any_case() {
    assert!(has_pdf_extension("/scan/a.pdf"));
    assert!(has_pdf_extension("/scan/a.PDF"));
    assert!(has_pdf_extension("a.b.Pdf"));
    assert!(!has_pdf_extension("/scan/a.pdfx"));
    assert!(!has_pdf_extension("/scan/a.txt"));
    assert!(!has_pdf_extension("/scan/pdf"));
    assert!(!has_pdf_extension("/scan/.pdf"));
    assert!(!has_pdf_extension("/scan.pdf/a"));
    assert!(!has_pdf_extension(""));
}

fn metadata(size: u64, seconds: i64) -> Result<FileMetadata, String> {
    Ok(FileMetadata { size, modified: Ok(Timestamp { seconds, nanoseconds: 5 }) })
}

#[test]
fn record_of_a_document() {
    let service = FileService::new();
    let file = service.create_pdf_file_info("/scan/in\\a.pdf", &metadata(2048, 1_700_000_000)).unwrap();
    assert_eq!(file.id, "_scan_in_a.pdf");
    assert_eq!(file.name, "in\\a.pdf");
    assert_eq!(file.path, "/scan/in\\a.pdf");
    assert_eq!(file.size, 2048);
    assert_eq!(file.modified, Timestamp { seconds: 1_700_000_000, nanoseconds: 5 });
    assert_eq!(file.amount, None);
    assert_eq!(file.suggested_name, None);
    let unnamed = service.create_pdf_file_info("/", &metadata(1, 1)).unwrap();
    assert_eq!(unnamed.name, "unknown.pdf");
    assert_eq!(unnamed.id, "_");
}

#[test]
fn record_fails_without_metadata() {
    let service = FileService::new();
    let failed = service.create_pdf_file_info("/scan/a.pdf", &Err("gone".to_string()));
    assert_eq!(failed.unwrap_err(), "无法获取文件信息: gone");
    let no_time = Ok(FileMetadata { size: 1, modified: Err("unsupported".to_string()) });
    let failed = service.create_pdf_file_info("/scan/a.pdf", &no_time);
    assert_eq!(failed.unwrap_err(), "无法获取修改时间: unsupported");
}

#[test]
fn scan_keeps_pdf_files_in_order() {
    let service = FileService::new();
    let entry = |path: &str, is_file: bool, metadata: Result<FileMetadata, String>| ListedEntry {
        path: path.to_string(),
        is_file,
        metadata,
    };
    let listing = DirectoryListing::Entries(vec![
        entry("/scan/b.pdf", true, metadata(1, 1)),
        entry("/scan/notes.txt", true, metadata(2, 2)),
        entry("/scan/dir.pdf", false, metadata(3, 3)),
        entry("/scan/broken.pdf", true, Err("io".to_string())),
        entry("/scan/A.PDF", true, metadata(4, 4)),
    ]);
    let found = service.scan_directory(&listing).unwrap();
    let paths: Vec<&str> = found.iter().map(|f| f.path.as_str()).collect();
    assert_eq!(paths, vec!["/scan/b.pdf", "/scan/A.PDF"]);
    assert_eq!(found[1].name, "A.PDF");
    assert_eq!(found[1].size, 4);
    assert_eq!(service.scan_directory(&DirectoryListing::Entries(Vec::new())).unwrap().len(), 0);
}

#[test]
fn scan_fails_without_a_directory() {
    let service = FileService::new();
    assert_eq!(service.scan_directory(&DirectoryListing::Missing).unwrap_err(), "目录不存在");
    assert_eq!(service.scan_directory(&DirectoryListing::NotADirectory).unwrap_err(), "路径不是目录");
}

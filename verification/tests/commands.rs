use invoice_pilot::amount::Amount;
use invoice_pilot::commands::{
    execute_rename, next_operation, preview_rename, scan_pdf_files, PreviewSource, RenameOutcome,
    ScannedDocument,
};
use invoice_pilot::file_service::{FileService, RenameProgress, RenameStep};
use invoice_pilot::pdf_service::PdfParser;
use invoice_pilot::types::{PdfFile, RenameOperation, Timestamp};

fn file(name: &str) -> PdfFile {
    PdfFile {
        id: format!("_scan_{}", name),
        name: name.to_string(),
        path: format!("/scan/{}", name),
        size: 10,
        modified: Timestamp { seconds: 1, nanoseconds: 2 },
        amount: None,
        suggested_name: None,
    }
}

fn names(list: &[&str]) -> Vec<String> {
    list.iter().map(|n| n.to_string()).collect()
}

/// Carries one rename out against a list of paths that stands for the disk.
fn rename_on(disk: &mut Vec<String>, operation: &RenameOperation) -> Result<(), String> {
    let service = FileService::new();
    let mut progress = RenameProgress {
        source_exists: None,
        destination_exists: None,
        parent_exists: None,
        parent_created: None,
        renamed: None,
    };
    loop {
        match service.rename_file(&operation.new_path, &progress) {
            RenameStep::ProbeSource => {
                progress.source_exists = Some(disk.contains(&operation.old_path));
            }
            RenameStep::ProbeDestination => {
                progress.destination_exists = Some(disk.contains(&operation.new_path));
            }
            RenameStep::ProbeParent(_) => {
                progress.parent_exists = Some(true);
            }
            RenameStep::CreateParent(_) => {
                progress.parent_created = Some(Ok(()));
            }
            RenameStep::Rename => {
                disk.retain(|p| p != &operation.old_path);
                disk.push(operation.new_path.clone());
                progress.renamed = Some(Ok(()));
            }
            RenameStep::Finished(result) => return result,
        }
    }
}

fn run_batch(disk: &mut Vec<String>, operations: &Vec<RenameOperation>) -> Vec<RenameOutcome> {
    let mut outcomes = Vec::new();
    while let Some(next) = next_operation(operations, &outcomes) {
        let operation = &operations[next];
        outcomes.push(RenameOutcome {
            old_path: operation.old_path.clone(),
            result: rename_on(disk, operation),
        });
    }
    outcomes
}

fn operation(old_path: &str, new_path: &str) -> RenameOperation {
    RenameOperation { old_path: old_path.to_string(), new_path: new_path.to_string(), amount: None }
}

#[test]
fn batch_with_one_missing_source_and_one_valid_pair() {
    let mut disk = names(&["/scan/b.pdf"]);
    let operations = vec![
        operation("/scan/missing.pdf", "/scan/1.00元_发票.pdf"),
        operation("/scan/b.pdf", "/scan/2.00元_发票.pdf"),
    ];
    let result = execute_rename(&run_batch(&mut disk, &operations));
    assert_eq!(result.success, false);
    assert_eq!(result.processed_files, 2);
    assert_eq!(result.failed_files, vec!["/scan/missing.pdf: 源文件不存在"]);
    assert_eq!(result.message, "成功重命名 1 个文件，失败 1 个文件");
    assert_eq!(disk, names(&["/scan/2.00元_发票.pdf"]));
}

#[test]
fn batch_keeps_an_existing_destination() {
    let mut disk = names(&["/scan/a.pdf", "/scan/taken.pdf", "/scan/c.pdf"]);
    let operations = vec![
        operation("/scan/a.pdf", "/scan/taken.pdf"),
        operation("/scan/c.pdf", "/scan/d.pdf"),
    ];
    let result = execute_rename(&run_batch(&mut disk, &operations));
    assert_eq!(result.success, false);
    assert_eq!(result.processed_files, 2);
    assert_eq!(result.failed_files, vec!["/scan/a.pdf: 目标文件已存在"]);
    assert_eq!(disk, names(&["/scan/a.pdf", "/scan/taken.pdf", "/scan/d.pdf"]));
}

#[test]
fn batch_without_failures_succeeds() {
    let outcomes = vec![
        RenameOutcome { old_path: "/a".to_string(), result: Ok(()) },
        RenameOutcome { old_path: "/b".to_string(), result: Ok(()) },
    ];
    let result = execute_rename(&outcomes);
    assert!(result.success);
    assert_eq!(result.processed_files, 2);
    assert!(result.failed_files.is_empty());
    assert_eq!(result.message, "成功重命名 2 个文件");
}

#[test]
fn empty_batch_succeeds() {
    let result = execute_rename(&Vec::new());
    assert!(result.success);
    assert_eq!(result.processed_files, 0);
    assert_eq!(result.message, "成功重命名 0 个文件");
}

#[test]
fn failures_are_listed_in_the_order_of_the_batch() {
    let outcomes = vec![
        RenameOutcome { old_path: "/a".to_string(), result: Err("x".to_string()) },
        RenameOutcome { old_path: "/b".to_string(), result: Ok(()) },
        RenameOutcome { old_path: "/c".to_string(), result: Err("重命名失败: y".to_string()) },
    ];
    let result = execute_rename(&outcomes);
    assert!(!result.success);
    assert_eq!(result.processed_files, 3);
    assert_eq!(result.failed_files, vec!["/a: x", "/c: 重命名失败: y"]);
    assert_eq!(result.message, "成功重命名 1 个文件，失败 2 个文件");
}

#[test]
fn scan_suggests_names_that_are_free() {
    let documents = vec![
        ScannedDocument { file: file("a.pdf"), text: Ok("价税合计 ¥100.00".to_string()) },
        ScannedDocument { file: file("b.pdf"), text: Ok("合计 ¥100.00".to_string()) },
        ScannedDocument { file: file("c.pdf"), text: Err("not a pdf".to_string()) },
        ScannedDocument { file: file("d.pdf"), text: Ok("nothing".to_string()) },
        ScannedDocument { file: file("e.pdf"), text: Ok("¥200.00".to_string()) },
    ];
    let existing = names(&["a.pdf", "b.pdf", "c.pdf", "d.pdf", "e.pdf", "100.00元_发票.pdf", "200.00元_发票.pdf"]);
    let files = scan_pdf_files(&documents, &existing);
    let suggested: Vec<&str> = files.iter().map(|f| f.suggested_name.as_deref().unwrap()).collect();
    assert_eq!(
        suggested,
        vec![
            "100.00元_发票_1.pdf",
            "100.00元_发票_2.pdf",
            "未知金额_发票.pdf",
            "未知金额_发票_2.pdf",
            "200.00元_发票_1.pdf",
        ]
    );
    let amounts: Vec<Option<Amount>> = files.iter().map(|f| f.amount).collect();
    assert_eq!(
        amounts,
        vec![Some(Amount { cents: 10000 }), Some(Amount { cents: 10000 }), None, None, Some(Amount { cents: 20000 })]
    );
    for (found, given) in files.iter().zip(documents.iter()) {
        assert_eq!(found.id, given.file.id);
        assert_eq!(found.name, given.file.name);
        assert_eq!(found.path, given.file.path);
        assert_eq!(found.size, given.file.size);
        assert_eq!(found.modified, given.file.modified);
    }
}

#[test]
fn scan_does_not_reserve_names_between_entries() {
    let documents = vec![
        ScannedDocument { file: file("a.pdf"), text: Ok("¥1.00".to_string()) },
        ScannedDocument { file: file("b.pdf"), text: Ok("¥1.00".to_string()) },
    ];
    let existing = names(&["1.00元_发票.pdf", "1.00元_发票_2.pdf"]);
    let files = scan_pdf_files(&documents, &existing);
    assert_eq!(files[0].suggested_name.as_deref(), Some("1.00元_发票_1.pdf"));
    assert_eq!(files[1].suggested_name.as_deref(), Some("1.00元_发票_2_1.pdf"));
    let existing = names(&["1.00元_发票.pdf", "1.00元_发票_2.pdf", "1.00元_发票_1.pdf"]);
    let files = scan_pdf_files(&documents, &existing);
    assert_eq!(files[0].suggested_name.as_deref(), Some("1.00元_发票_3.pdf"));
    assert_eq!(files[1].suggested_name.as_deref(), Some("1.00元_发票_2_1.pdf"));
}

#[test]
fn batch_goes_on_after_a_failure() {
    let operations = vec![operation("/a", "/x"), operation("/b", "/y"), operation("/c", "/z")];
    let mut outcomes: Vec<RenameOutcome> = Vec::new();
    assert_eq!(next_operation(&operations, &outcomes), Some(0));
    outcomes.push(RenameOutcome { old_path: "/a".to_string(), result: Err("源文件不存在".to_string()) });
    assert_eq!(next_operation(&operations, &outcomes), Some(1));
    outcomes.push(RenameOutcome { old_path: "/b".to_string(), result: Err("目标文件已存在".to_string()) });
    assert_eq!(next_operation(&operations, &outcomes), Some(2));
    outcomes.push(RenameOutcome { old_path: "/c".to_string(), result: Ok(()) });
    assert_eq!(next_operation(&operations, &outcomes), None);
    assert_eq!(next_operation(&Vec::new(), &Vec::new()), None);
}

#[test]
fn document_without_text_is_named_as_of_unknown_amount() {
    let mut known = file("a.pdf");
    known.amount = Some(Amount { cents: 500 });
    let documents = vec![ScannedDocument { file: known, text: Err("not a pdf".to_string()) }];
    let files = scan_pdf_files(&documents, &Vec::new());
    assert_eq!(files[0].amount, None);
    assert_eq!(files[0].suggested_name.as_deref(), Some("未知金额_发票.pdf"));
}

#[test]
fn scan_of_nothing() {
    assert!(scan_pdf_files(&Vec::new(), &Vec::new()).is_empty());
}

#[test]
fn previews_leave_out_documents_without_record() {
    let sources = vec![
        PreviewSource { info: Ok(file("a.pdf")), text: Ok("价税合计 ¥317.60".to_string()) },
        PreviewSource { info: Err("无法获取文件信息: gone".to_string()), text: Ok("¥1.00".to_string()) },
        PreviewSource { info: Ok(file("c.pdf")), text: Err("PDF解析失败: broken".to_string()) },
    ];
    let previews = preview_rename(&sources);
    assert_eq!(previews.len(), 2);
    assert_eq!(previews[0].original_name, "a.pdf");
    assert_eq!(previews[0].suggested_name, "317.60元_发票.pdf");
    assert_eq!(previews[0].amount, Some(Amount { cents: 31760 }));
    assert_eq!(previews[1].original_name, "c.pdf");
    assert_eq!(previews[1].suggested_name, "未知金额_发票.pdf");
    assert_eq!(previews[1].amount, None);
}

#[test]
fn analysis_of_a_document() {
    let parser = PdfParser::new();
    let info = parser.analyze_pdf("/scan/in/a.pdf", &Ok("价税合计 ¥317.60".to_string())).unwrap();
    assert_eq!(info.amount, Some(Amount { cents: 31760 }));
    assert_eq!(info.original_filename, "a.pdf");
    assert_eq!(info.suggested_filename, "317.60元_发票.pdf");
    let info = parser.analyze_pdf("/", &Ok("no amount".to_string())).unwrap();
    assert_eq!(info.amount, None);
    assert_eq!(info.original_filename, "unknown.pdf");
    assert_eq!(info.suggested_filename, "未知金额_发票.pdf");
}

#[test]
fn analysis_fails_with_the_extraction() {
    let parser = PdfParser::new();
    let failed = parser.analyze_pdf("/scan/a.pdf", &Err("bad xref".to_string()));
    assert_eq!(failed.unwrap_err(), "PDF解析失败: bad xref");
    assert_eq!(
        parser.extract_text_from_pdf(&Err("bad xref".to_string())),
        Err("PDF解析失败: bad xref".to_string())
    );
    assert_eq!(parser.extract_text_from_pdf(&Ok("text".to_string())), Ok("text".to_string()));
}

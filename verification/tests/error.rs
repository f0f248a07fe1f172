use invoice_pilot::error::{AppError, AppResult, ErrorContext, ErrorKind, IoFailure};

fn all() -> Vec<(AppError, ErrorKind, &'static str, &'static str, &'static str, bool)> {
    vec![
        (AppError::pdf_parse_error("m"), ErrorKind::PdfParse, "PDF_PARSE_ERROR", "PDF解析错误: m", "无法解析PDF文件，请检查文件是否损坏", false),
        (AppError::amount_extraction_error("m"), ErrorKind::AmountExtraction, "AMOUNT_EXTRACTION_ERROR", "金额提取错误: m", "无法从PDF中提取金额信息", false),
        (AppError::file_system_error("m"), ErrorKind::FileSystem, "FILE_SYSTEM_ERROR", "文件系统错误: m", "文件操作失败，请检查文件权限", true),
        (AppError::naming_error("m"), ErrorKind::Naming, "NAMING_ERROR", "命名错误: m", "文件命名失败，请检查文件名格式", true),
        (AppError::permission_error("m"), ErrorKind::Permission, "PERMISSION_ERROR", "权限错误: m", "没有足够的权限执行此操作", false),
        (AppError::io_error("m"), ErrorKind::Io, "IO_ERROR", "IO错误: m", "输入输出操作失败", true),
        (AppError::validation_error("m"), ErrorKind::Validation, "VALIDATION_ERROR", "验证错误: m", "数据验证失败", false),
        (AppError::unknown_error("m"), ErrorKind::Unknown, "UNKNOWN_ERROR", "未知错误: m", "发生未知错误", false),
    ]
}

#[test]
fn each_kind_has_its_code_text_and_mark() {
    for (error, kind, code, shown, user, retry) in all() {
        assert_eq!(error.kind(), kind);
        assert_eq!(error.message(), "m");
        assert_eq!(error.error_code(), code);
        assert_eq!(error.to_string(), shown);
        assert_eq!(error.user_message(), user);
        assert_eq!(error.is_retryable(), retry);
    }
}

#[test]
fn constructors_make_the_variant_they_name() {
    assert!(matches!(AppError::pdf_parse_error("x"), AppError::PdfParseError(m) if m == "x"));
    assert!(matches!(AppError::amount_extraction_error("x"), AppError::AmountExtractionError(m) if m == "x"));
    assert!(matches!(AppError::file_system_error("x"), AppError::FileSystemError(m) if m == "x"));
    assert!(matches!(AppError::naming_error("x"), AppError::NamingError(m) if m == "x"));
    assert!(matches!(AppError::permission_error("x"), AppError::PermissionError(m) if m == "x"));
    assert!(matches!(AppError::io_error("x"), AppError::IoError(m) if m == "x"));
    assert!(matches!(AppError::validation_error("x"), AppError::ValidationError(m) if m == "x"));
    assert!(matches!(AppError::unknown_error("x"), AppError::UnknownError(m) if m == "x"));
}

#[test]
fn failures_of_input_and_output_are_sorted() {
    assert!(matches!(
        AppError::from_io(IoFailure::PermissionDenied, "denied"),
        AppError::PermissionError(m) if m == "权限不足: denied"
    ));
    assert!(matches!(
        AppError::from_io(IoFailure::NotFound, "no such file"),
        AppError::FileSystemError(m) if m == "文件不存在: no such file"
    ));
    assert!(matches!(
        AppError::from_io(IoFailure::AlreadyExists, "exists"),
        AppError::FileSystemError(m) if m == "文件已存在: exists"
    ));
    assert!(matches!(
        AppError::from_io(IoFailure::Other, "broken pipe"),
        AppError::IoError(m) if m == "IO错误: broken pipe"
    ));
}

#[test]
fn failures_of_outside_work_become_errors() {
    assert!(matches!(
        AppError::from_pdf_extraction("bad header"),
        AppError::PdfParseError(m) if m == "PDF解析错误: bad header"
    ));
    assert!(matches!(
        AppError::from_pattern("unclosed group"),
        AppError::ValidationError(m) if m == "正则表达式错误: unclosed group"
    ));
}

#[test]
fn context_is_put_before_the_error() {
    let failed: AppResult<u8> = Err(AppError::io_error("disk full"));
    assert!(matches!(
        failed.with_context("saving"),
        Err(AppError::UnknownError(m)) if m == "saving: IO错误: disk full"
    ));
    let failed: AppResult<u8> = Err(AppError::validation_error("bad"));
    assert!(matches!(
        failed.with_pdf_context("reading a.pdf"),
        Err(AppError::PdfParseError(m)) if m == "reading a.pdf: 验证错误: bad"
    ));
    let failed: AppResult<u8> = Err(AppError::unknown_error(""));
    assert!(matches!(
        failed.with_file_context(""),
        Err(AppError::FileSystemError(m)) if m == ": 未知错误: "
    ));
}

#[test]
fn context_leaves_a_success_alone() {
    let fine: AppResult<u8> = Ok(7);
    assert!(matches!(fine.with_context("c"), Ok(7)));
    let fine: AppResult<u8> = Ok(8);
    assert!(matches!(fine.with_pdf_context("c"), Ok(8)));
    let fine: AppResult<u8> = Ok(9);
    assert!(matches!(fine.with_file_context("c"), Ok(9)));
}

//! The errors of the application: eight kinds, each with a message, a
//! code, a text for the user and a mark that says whether trying again can
//! help.

use vstd::prelude::*;
use crate::text::{chars_of, push_all, string_of, with_reason};

verus! {

/// An error of the application, with its message.
#[derive(Debug, Clone)]
pub enum AppError {
    /// The document could not be read as a PDF.
    PdfParseError(String),
    /// No amount could be taken from the document.
    AmountExtractionError(String),
    /// An operation on the file system failed.
    FileSystemError(String),
    /// A name could not be made.
    NamingError(String),
    /// A permission is missing.
    PermissionError(String),
    /// Reading or writing failed.
    IoError(String),
    /// A value is not acceptable.
    ValidationError(String),
    /// Anything else.
    UnknownError(String),
}

/// The result of an operation of the application.
pub type AppResult<T> = Result<T, AppError>;

/// The kinds of input and output failure that the application tells
/// apart.
#[derive(Clone, Copy, Debug, PartialEq, Eq, Structural)]
pub enum IoFailure {
    PermissionDenied,
    NotFound,
    AlreadyExists,
    Other,
}

/// The kind of an error, without its message.
#[derive(Clone, Copy, Debug, PartialEq, Eq, Structural)]
pub enum ErrorKind {
    PdfParse,
    AmountExtraction,
    FileSystem,
    Naming,
    Permission,
    Io,
    Validation,
    Unknown,
}

/// The message that an error carries.
pub open spec fn message_of(error: AppError) -> Seq<char> {
    match error {
        AppError::PdfParseError(m) => m@,
        AppError::AmountExtractionError(m) => m@,
        AppError::FileSystemError(m) => m@,
        AppError::NamingError(m) => m@,
        AppError::PermissionError(m) => m@,
        AppError::IoError(m) => m@,
        AppError::ValidationError(m) => m@,
        AppError::UnknownError(m) => m@,
    }
}

/// The kind of an error.
pub open spec fn kind_of(error: AppError) -> ErrorKind {
    match error {
        AppError::PdfParseError(_) => ErrorKind::PdfParse,
        AppError::AmountExtractionError(_) => ErrorKind::AmountExtraction,
        AppError::FileSystemError(_) => ErrorKind::FileSystem,
        AppError::NamingError(_) => ErrorKind::Naming,
        AppError::PermissionError(_) => ErrorKind::Permission,
        AppError::IoError(_) => ErrorKind::Io,
        AppError::ValidationError(_) => ErrorKind::Validation,
        AppError::UnknownError(_) => ErrorKind::Unknown,
    }
}

/// What precedes the message when an error of this kind is shown.
pub open spec fn label_of(kind: ErrorKind) -> Seq<char> {
    match kind {
        ErrorKind::PdfParse => "PDF解析错误: "@,
        ErrorKind::AmountExtraction => "金额提取错误: "@,
        ErrorKind::FileSystem => "文件系统错误: "@,
        ErrorKind::Naming => "命名错误: "@,
        ErrorKind::Permission => "权限错误: "@,
        ErrorKind::Io => "IO错误: "@,
        ErrorKind::Validation => "验证错误: "@,
        ErrorKind::Unknown => "未知错误: "@,
    }
}

/// The code of a kind of error.
pub open spec fn code_of(kind: ErrorKind) -> Seq<char> {
    match kind {
        ErrorKind::PdfParse => "PDF_PARSE_ERROR"@,
        ErrorKind::AmountExtraction => "AMOUNT_EXTRACTION_ERROR"@,
        ErrorKind::FileSystem => "FILE_SYSTEM_ERROR"@,
        ErrorKind::Naming => "NAMING_ERROR"@,
        ErrorKind::Permission => "PERMISSION_ERROR"@,
        ErrorKind::Io => "IO_ERROR"@,
        ErrorKind::Validation => "VALIDATION_ERROR"@,
        ErrorKind::Unknown => "UNKNOWN_ERROR"@,
    }
}

/// What the user is told of a kind of error.
pub open spec fn user_text_of(kind: ErrorKind) -> Seq<char> {
    match kind {
        ErrorKind::PdfParse => "无法解析PDF文件，请检查文件是否损坏"@,
        ErrorKind::AmountExtraction => "无法从PDF中提取金额信息"@,
        ErrorKind::FileSystem => "文件操作失败，请检查文件权限"@,
        ErrorKind::Naming => "文件命名失败，请检查文件名格式"@,
        ErrorKind::Permission => "没有足够的权限执行此操作"@,
        ErrorKind::Io => "输入输出操作失败"@,
        ErrorKind::Validation => "数据验证失败"@,
        ErrorKind::Unknown => "发生未知错误"@,
    }
}

/// Whether trying again can help with a kind of error: it can with
/// failures of the file system, of naming and of input and output.
pub open spec fn retryable(kind: ErrorKind) -> bool {
    kind == ErrorKind::FileSystem || kind == ErrorKind::Naming || kind == ErrorKind::Io
}

/// An error as it is shown: the label of its kind and its message.
pub open spec fn shown(error: AppError) -> Seq<char> {
    label_of(kind_of(error)) + message_of(error)
}

/// The error that a failure of input or output becomes: a missing
/// permission is a permission error, a file that is missing or exists
/// already is a file system error, anything else an I/O error. The message
/// says which, and then what the failure said of itself.
pub open spec fn io_error_of(failure: IoFailure, detail: Seq<char>) -> (ErrorKind, Seq<char>) {
    match failure {
        IoFailure::PermissionDenied => (ErrorKind::Permission, "权限不足: "@ + detail),
        IoFailure::NotFound => (ErrorKind::FileSystem, "文件不存在: "@ + detail),
        IoFailure::AlreadyExists => (ErrorKind::FileSystem, "文件已存在: "@ + detail),
        IoFailure::Other => (ErrorKind::Io, "IO错误: "@ + detail),
    }
}

/// A string with the given text.
fn owned(text: &str) -> (out: String)
    ensures
        out@ == text@,
{
    string_of(&chars_of(text))
}

impl AppError {
    pub fn pdf_parse_error(msg: &str) -> (error: AppError)
        ensures
            kind_of(error) == ErrorKind::PdfParse,
            message_of(error) == msg@,
    {
        AppError::PdfParseError(owned(msg))
    }

    pub fn amount_extraction_error(msg: &str) -> (error: AppError)
        ensures
            kind_of(error) == ErrorKind::AmountExtraction,
            message_of(error) == msg@,
    {
        AppError::AmountExtractionError(owned(msg))
    }

    pub fn file_system_error(msg: &str) -> (error: AppError)
        ensures
            kind_of(error) == ErrorKind::FileSystem,
            message_of(error) == msg@,
    {
        AppError::FileSystemError(owned(msg))
    }

    pub fn naming_error(msg: &str) -> (error: AppError)
        ensures
            kind_of(error) == ErrorKind::Naming,
            message_of(error) == msg@,
    {
        AppError::NamingError(owned(msg))
    }

    pub fn permission_error(msg: &str) -> (error: AppError)
        ensures
            kind_of(error) == ErrorKind::Permission,
            message_of(error) == msg@,
    {
        AppError::PermissionError(owned(msg))
    }

    pub fn io_error(msg: &str) -> (error: AppError)
        ensures
            kind_of(error) == ErrorKind::Io,
            message_of(error) == msg@,
    {
        AppError::IoError(owned(msg))
    }

    pub fn validation_error(msg: &str) -> (error: AppError)
        ensures
            kind_of(error) == ErrorKind::Validation,
            message_of(error) == msg@,
    {
        AppError::ValidationError(owned(msg))
    }

    pub fn unknown_error(msg: &str) -> (error: AppError)
        ensures
            kind_of(error) == ErrorKind::Unknown,
            message_of(error) == msg@,
    {
        AppError::UnknownError(owned(msg))
    }

    /// The kind of this error.
    pub fn kind(&self) -> (kind: ErrorKind)
        ensures
            kind == kind_of(*self),
    {
        match self {
            AppError::PdfParseError(_) => ErrorKind::PdfParse,
            AppError::AmountExtractionError(_) => ErrorKind::AmountExtraction,
            AppError::FileSystemError(_) => ErrorKind::FileSystem,
            AppError::NamingError(_) => ErrorKind::Naming,
            AppError::PermissionError(_) => ErrorKind::Permission,
            AppError::IoError(_) => ErrorKind::Io,
            AppError::ValidationError(_) => ErrorKind::Validation,
            AppError::UnknownError(_) => ErrorKind::Unknown,
        }
    }

    /// The message of this error.
    pub fn message(&self) -> (msg: &str)
        ensures
            msg@ == message_of(*self),
    {
        match self {
            AppError::PdfParseError(m) => m.as_str(),
            AppError::AmountExtractionError(m) => m.as_str(),
            AppError::FileSystemError(m) => m.as_str(),
            AppError::NamingError(m) => m.as_str(),
            AppError::PermissionError(m) => m.as_str(),
            AppError::IoError(m) => m.as_str(),
            AppError::ValidationError(m) => m.as_str(),
            AppError::UnknownError(m) => m.as_str(),
        }
    }

    /// The code of this error.
    pub fn error_code(&self) -> (code: &'static str)
        ensures
            code@ == code_of(kind_of(*self)),
    {
        match self {
            AppError::PdfParseError(_) => "PDF_PARSE_ERROR",
            AppError::AmountExtractionError(_) => "AMOUNT_EXTRACTION_ERROR",
            AppError::FileSystemError(_) => "FILE_SYSTEM_ERROR",
            AppError::NamingError(_) => "NAMING_ERROR",
            AppError::PermissionError(_) => "PERMISSION_ERROR",
            AppError::IoError(_) => "IO_ERROR",
            AppError::ValidationError(_) => "VALIDATION_ERROR",
            AppError::UnknownError(_) => "UNKNOWN_ERROR",
        }
    }

    /// What the user is told of this error.
    pub fn user_message(&self) -> (text: String)
        ensures
            text@ == user_text_of(kind_of(*self)),
    {
        match self {
            AppError::PdfParseError(_) => owned(
                "无法解析PDF文件，请检查文件是否损坏",
            ),
            AppError::AmountExtractionError(_) => owned("无法从PDF中提取金额信息"),
            AppError::FileSystemError(_) => owned("文件操作失败，请检查文件权限"),
            AppError::NamingError(_) => owned("文件命名失败，请检查文件名格式"),
            AppError::PermissionError(_) => owned("没有足够的权限执行此操作"),
            AppError::IoError(_) => owned("输入输出操作失败"),
            AppError::ValidationError(_) => owned("数据验证失败"),
            AppError::UnknownError(_) => owned("发生未知错误"),
        }
    }

    /// Whether trying again can help.
    pub fn is_retryable(&self) -> (retry: bool)
        ensures
            retry == retryable(kind_of(*self)),
    {
        match self {
            AppError::PdfParseError(_) => false,
            AppError::AmountExtractionError(_) => false,
            AppError::FileSystemError(_) => true,
            AppError::NamingError(_) => true,
            AppError::PermissionError(_) => false,
            AppError::IoError(_) => true,
            AppError::ValidationError(_) => false,
            AppError::UnknownError(_) => false,
        }
    }

    /// This error as it is shown: the label of its kind and its message.
    pub fn to_string(&self) -> (text: String)
        ensures
            text@ == shown(*self),
    {
        let label = match self {
            AppError::PdfParseError(_) => "PDF解析错误: ",
            AppError::AmountExtractionError(_) => "金额提取错误: ",
            AppError::FileSystemError(_) => "文件系统错误: ",
            AppError::NamingError(_) => "命名错误: ",
            AppError::PermissionError(_) => "权限错误: ",
            AppError::IoError(_) => "IO错误: ",
            AppError::ValidationError(_) => "验证错误: ",
            AppError::UnknownError(_) => "未知错误: ",
        };
        with_reason(label, self.message())
    }

    /// The error for a failure of input or output of the given kind that
    /// describes itself as `detail`.
    pub fn from_io(failure: IoFailure, detail: &str) -> (error: AppError)
        ensures
            (kind_of(error), message_of(error)) == io_error_of(failure, detail@),
    {
        match failure {
            IoFailure::PermissionDenied => AppError::PermissionError(
                with_reason("权限不足: ", detail),
            ),
            IoFailure::NotFound => AppError::FileSystemError(
                with_reason("文件不存在: ", detail),
            ),
            IoFailure::AlreadyExists => AppError::FileSystemError(
                with_reason("文件已存在: ", detail),
            ),
            IoFailure::Other => AppError::IoError(with_reason("IO错误: ", detail)),
        }
    }

    /// The error for a failure to extract the text of a PDF that
    /// describes itself as `detail`.
    pub fn from_pdf_extraction(detail: &str) -> (error: AppError)
        ensures
            kind_of(error) == ErrorKind::PdfParse,
            message_of(error) == "PDF解析错误: "@ + detail@,
    {
        AppError::PdfParseError(with_reason("PDF解析错误: ", detail))
    }

    /// The error for a pattern that is no regular expression, where the
    /// failure describes itself as `detail`.
    pub fn from_pattern(detail: &str) -> (error: AppError)
        ensures
            kind_of(error) == ErrorKind::Validation,
            message_of(error) == "正则表达式错误: "@ + detail@,
    {
        AppError::ValidationError(with_reason("正则表达式错误: ", detail))
    }
}

/// The message of an error put behind a context: `<context>: <error as
/// shown>`.
pub open spec fn in_context(context: Seq<char>, error: AppError) -> Seq<char> {
    context + seq![':', ' '] + shown(error)
}

/// Builds the message of an error put behind a context.
fn contextual_message(context: &str, error: &AppError) -> (out: String)
    ensures
        out@ == in_context(context@, *error),
{
    let mut out = chars_of(context);
    out.push(':');
    out.push(' ');
    push_all(&mut out, &chars_of(error.to_string().as_str()));
    assert(out@ =~= in_context(context@, *error));
    string_of(&out)
}

/// Puts the error of a result behind a context. A success passes through.
pub trait ErrorContext<T> {
    /// The error becomes an unknown error.
    fn with_context(self, context: &str) -> AppResult<T>;

    /// The error becomes a PDF error.
    fn with_pdf_context(self, context: &str) -> AppResult<T>;

    /// The error becomes a file system error.
    fn with_file_context(self, context: &str) -> AppResult<T>;
}

impl<T> ErrorContext<T> for Result<T, AppError> {
    fn with_context(self, context: &str) -> (out: AppResult<T>)
        ensures
            match self {
                Ok(value) => out == Ok::<T, AppError>(value),
                Err(error) => out matches Err(wrapped) && kind_of(wrapped) == ErrorKind::Unknown
                    && message_of(wrapped) == in_context(context@, error),
            },
    {
        match self {
            Ok(value) => Ok(value),
            Err(error) => Err(AppError::UnknownError(contextual_message(context, &error))),
        }
    }

    fn with_pdf_context(self, context: &str) -> (out: AppResult<T>)
        ensures
            match self {
                Ok(value) => out == Ok::<T, AppError>(value),
                Err(error) => out matches Err(wrapped) && kind_of(wrapped) == ErrorKind::PdfParse
                    && message_of(wrapped) == in_context(context@, error),
            },
    {
        match self {
            Ok(value) => Ok(value),
            Err(error) => Err(AppError::PdfParseError(contextual_message(context, &error))),
        }
    }

    fn with_file_context(self, context: &str) -> (out: AppResult<T>)
        ensures
            match self {
                Ok(value) => out == Ok::<T, AppError>(value),
                Err(error) => out matches Err(wrapped) && kind_of(wrapped) == ErrorKind::FileSystem
                    && message_of(wrapped) == in_context(context@, error),
            },
    {
        match self {
            Ok(value) => Ok(value),
            Err(error) => Err(AppError::FileSystemError(contextual_message(context, &error))),
        }
    }
}

} // verus!

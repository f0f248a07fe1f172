//! The records that pass between the scanner, the analyser and the renamer,
//! each with the mathematical value that contracts speak of.

use vstd::prelude::*;
use crate::amount::Amount;
use crate::text::optional_view;
use crate::text::string_views;

verus! {

/// A point in time: seconds since the Unix epoch, and the nanoseconds
/// within that second.
#[derive(Clone, Copy, Debug, PartialEq, Eq, Structural)]
pub struct Timestamp {
    pub seconds: i64,
    pub nanoseconds: u32,
}

/// A document found in a scanned directory.
#[derive(Debug)]
pub struct PdfFile {
    pub id: String,
    pub name: String,
    pub path: String,
    pub size: u64,
    pub modified: Timestamp,
    pub amount: Option<Amount>,
    pub suggested_name: Option<String>,
}

/// The value of a `PdfFile`.
pub struct PdfFileView {
    pub id: Seq<char>,
    pub name: Seq<char>,
    pub path: Seq<char>,
    pub size: u64,
    pub modified: Timestamp,
    pub amount: Option<Amount>,
    pub suggested_name: Option<Seq<char>>,
}

impl View for PdfFile {
    type V = PdfFileView;

    open spec fn view(&self) -> PdfFileView {
        PdfFileView {
            id: self.id@,
            name: self.name@,
            path: self.path@,
            size: self.size,
            modified: self.modified,
            amount: self.amount,
            suggested_name: optional_view(self.suggested_name),
        }
    }
}

/// The values of a list of documents, in order.
pub open spec fn file_views(files: Seq<PdfFile>) -> Seq<PdfFileView> {
    Seq::new(files.len(), |i: int| files[i]@)
}

/// What the analysis of one document found.
#[derive(Debug)]
pub struct InvoiceInfo {
    pub amount: Option<Amount>,
    pub original_filename: String,
    pub suggested_filename: String,
}

/// The value of an `InvoiceInfo`.
pub struct InvoiceInfoView {
    pub amount: Option<Amount>,
    pub original_filename: Seq<char>,
    pub suggested_filename: Seq<char>,
}

impl View for InvoiceInfo {
    type V = InvoiceInfoView;

    open spec fn view(&self) -> InvoiceInfoView {
        InvoiceInfoView {
            amount: self.amount,
            original_filename: self.original_filename@,
            suggested_filename: self.suggested_filename@,
        }
    }
}

/// A proposed new name for one document, for the user to confirm.
#[derive(Debug)]
pub struct RenamePreview {
    pub original_name: String,
    pub suggested_name: String,
    pub amount: Option<Amount>,
}

/// The value of a `RenamePreview`.
pub struct RenamePreviewView {
    pub original_name: Seq<char>,
    pub suggested_name: Seq<char>,
    pub amount: Option<Amount>,
}

impl View for RenamePreview {
    type V = RenamePreviewView;

    open spec fn view(&self) -> RenamePreviewView {
        RenamePreviewView {
            original_name: self.original_name@,
            suggested_name: self.suggested_name@,
            amount: self.amount,
        }
    }
}

/// The values of a list of previews, in order.
pub open spec fn preview_views(previews: Seq<RenamePreview>) -> Seq<RenamePreviewView> {
    Seq::new(previews.len(), |i: int| previews[i]@)
}

/// One rename to carry out.
#[derive(Debug)]
pub struct RenameOperation {
    pub old_path: String,
    pub new_path: String,
    pub amount: Option<Amount>,
}

/// The outcome of a batch of renames: whether all succeeded, a summary,
/// how many were attempted, and a line `<path>: <reason>` for each that
/// failed, in the order of the batch.
#[derive(Debug)]
pub struct RenameResult {
    pub success: bool,
    pub message: String,
    pub processed_files: usize,
    pub failed_files: Vec<String>,
}

/// The value of a `RenameResult`.
pub struct RenameResultView {
    pub success: bool,
    pub message: Seq<char>,
    pub processed_files: usize,
    pub failed_files: Seq<Seq<char>>,
}

impl RenameResultView {
    /// The parts of an outcome agree: the batch succeeded exactly if
    /// nothing failed, and no more failed than were attempted.
    pub open spec fn is_consistent(self) -> bool {
        self.success == (self.failed_files.len() == 0) && self.failed_files.len()
            <= self.processed_files
    }
}

impl View for RenameResult {
    type V = RenameResultView;

    open spec fn view(&self) -> RenameResultView {
        RenameResultView {
            success: self.success,
            message: self.message@,
            processed_files: self.processed_files,
            failed_files: string_views(self.failed_files@),
        }
    }
}

} // verus!

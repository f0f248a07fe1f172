//! The operations offered to the command layer, on plain values: what a
//! scan of a directory suggests, the previews for a list of documents, and
//! the summary of a batch of renames. Reading files and renaming them is
//! the caller's part; what was read and how each rename went comes in as
//! arguments.

use vstd::prelude::*;
use crate::amount::Amount;
use crate::file_service::resolves_to;
use crate::naming_engine::{resolved_batch, suggested_name, NamingEngine};
use crate::numeral::{decimal, decimal_digits};
use crate::pdf_service::{extracted_amount, PdfParser};
use crate::text::{chars_of, push_all, string_of, string_views};
use crate::types::{
    preview_views, PdfFile, RenameOperation, RenamePreview, RenamePreviewView, RenameResult,
    RenameResultView,
};

verus! {

/// A scanned document with the outcome of extracting its text.
#[derive(Debug)]
pub struct ScannedDocument {
    pub file: PdfFile,
    pub text: Result<String, String>,
}

/// A document to preview: the outcome of making its record, and the
/// outcome of extracting its text.
#[derive(Debug)]
pub struct PreviewSource {
    pub info: Result<PdfFile, String>,
    pub text: Result<String, String>,
}

/// How one rename of a batch went.
#[derive(Debug)]
pub struct RenameOutcome {
    pub old_path: String,
    pub result: Result<(), String>,
}

/// The amount of a scanned document after its analysis: what its text
/// holds, or none where its text could not be had. Such a document is
/// named as one of unknown amount.
pub open spec fn analysed_amount(document: ScannedDocument) -> Option<Amount> {
    match document.text {
        Ok(text) => extracted_amount(text@),
        Err(_) => None,
    }
}

/// The names that the analysis suggests for the documents, in order.
pub open spec fn analysed_names(documents: Seq<ScannedDocument>) -> Seq<Seq<char>> {
    Seq::new(documents.len(), |i: int| suggested_name(analysed_amount(documents[i])))
}

/// The amount shown in a preview: what the text holds, or none where the
/// text could not be had.
pub open spec fn previewed_amount(source: PreviewSource) -> Option<Amount> {
    match source.text {
        Ok(text) => extracted_amount(text@),
        Err(_) => None,
    }
}

/// The previews for a list of documents, in order. A document whose record
/// could not be made has none.
pub open spec fn previews_of(sources: Seq<PreviewSource>) -> Seq<RenamePreviewView>
    decreases sources.len(),
{
    if sources.len() == 0 {
        Seq::empty()
    } else {
        let before = previews_of(sources.drop_last());
        let source = sources.last();
        match source.info {
            Ok(file) => before.push(
                RenamePreviewView {
                    original_name: file.name@,
                    suggested_name: suggested_name(previewed_amount(source)),
                    amount: previewed_amount(source),
                },
            ),
            Err(_) => before,
        }
    }
}

/// The line that reports a failed rename: `<path>: <reason>`.
pub open spec fn failure_line(path: Seq<char>, reason: Seq<char>) -> Seq<char> {
    path + seq![':', ' '] + reason
}

/// The lines for the renames that failed, in the order of the batch.
pub open spec fn failure_lines(outcomes: Seq<RenameOutcome>) -> Seq<Seq<char>>
    decreases outcomes.len(),
{
    if outcomes.len() == 0 {
        Seq::empty()
    } else {
        let before = failure_lines(outcomes.drop_last());
        match outcomes.last().result {
            Ok(_) => before,
            Err(reason) => before.push(failure_line(outcomes.last().old_path@, reason@)),
        }
    }
}

/// How many of the renames succeeded.
pub open spec fn success_count(outcomes: Seq<RenameOutcome>) -> nat
    decreases outcomes.len(),
{
    if outcomes.len() == 0 {
        0
    } else {
        success_count(outcomes.drop_last()) + match outcomes.last().result {
            Ok(_) => 1nat,
            Err(_) => 0nat,
        }
    }
}

/// What opens the summary of a batch.
pub const SUMMARY_RENAMED: &'static str = "成功重命名 ";

/// What closes the summary of a batch.
pub const SUMMARY_FILES: &'static str = " 个文件";

/// What stands between the two counts of a summary.
pub const SUMMARY_FAILED: &'static str = " 个文件，失败 ";

/// The summary of a batch in which `succeeded` renames went well and
/// `failed` did not.
pub open spec fn summary(succeeded: nat, failed: nat) -> Seq<char> {
    if failed == 0 {
        SUMMARY_RENAMED@ + decimal(succeeded) + SUMMARY_FILES@
    } else {
        SUMMARY_RENAMED@ + decimal(succeeded) + SUMMARY_FAILED@ + decimal(failed) + SUMMARY_FILES@
    }
}

/// The outcome of a batch: it succeeded if no rename failed, every rename
/// counts as attempted, and each failure has its line.
pub open spec fn batch_result(outcomes: Seq<RenameOutcome>) -> RenameResultView {
    RenameResultView {
        success: failure_lines(outcomes).len() == 0,
        message: summary(success_count(outcomes), failure_lines(outcomes).len()),
        processed_files: outcomes.len() as usize,
        failed_files: failure_lines(outcomes),
    }
}

/// Every rename of a batch either succeeded or has its line.
pub proof fn lemma_every_rename_counted(outcomes: Seq<RenameOutcome>)
    ensures
        success_count(outcomes) + failure_lines(outcomes).len() == outcomes.len(),
    decreases outcomes.len(),
{
    if outcomes.len() > 0 {
        lemma_every_rename_counted(outcomes.drop_last());
    }
}

/// What a scan suggests. Each document gets the amount that its text
/// holds, or none where its text could not be had; the names that the
/// amounts suggest go through the batch pass and then, each by itself,
/// through the directory pass against `existing`, the names that the
/// directory holds. Everything else in a record stays.
pub fn scan_pdf_files(documents: &Vec<ScannedDocument>, existing: &Vec<String>) -> (files: Vec<
    PdfFile,
>)
    ensures
        files.len() == documents.len(),
        forall|i: int|
            0 <= i < documents.len() ==> {
                let file = #[trigger] files@[i];
                let given = documents@[i].file;
                &&& file.id@ == given.id@
                &&& file.name@ == given.name@
                &&& file.path@ == given.path@
                &&& file.size == given.size
                &&& file.modified == given.modified
                &&& file.amount == analysed_amount(documents@[i])
                &&& file.suggested_name matches Some(name) && resolves_to(
                    string_views(existing@),
                    resolved_batch(analysed_names(documents@))[i],
                    name@,
                )
            },
{
    let parser = PdfParser::new();
    let engine = NamingEngine::new();
    let mut analysed: Vec<PdfFile> = Vec::new();
    let mut i: usize = 0;
    while i < documents.len()
        invariant
            i <= documents.len(),
            analysed.len() == i,
            forall|j: int|
                0 <= j < i ==> {
                    let file = #[trigger] analysed@[j];
                    let given = documents@[j].file;
                    &&& file.id@ == given.id@
                    &&& file.name@ == given.name@
                    &&& file.path@ == given.path@
                    &&& file.size == given.size
                    &&& file.modified == given.modified
                    &&& file.amount == analysed_amount(documents@[j])
                },
        decreases documents.len() - i,
    {
        let document = &documents[i];
        let amount = match &document.text {
            Ok(text) => parser.extract_amount_from_text(text.as_str()),
            Err(_) => None,
        };
        analysed.push(
            PdfFile {
                id: document.file.id.clone(),
                name: document.file.name.clone(),
                path: document.file.path.clone(),
                size: document.file.size,
                modified: document.file.modified,
                amount,
                suggested_name: None,
            },
        );
        i += 1;
    }
    let batch = engine.resolve_naming_conflicts(analysed.as_slice());
    assert(crate::naming_engine::suggested_names(analysed@) =~= analysed_names(documents@));
    let free = engine.resolve_directory_conflicts(existing, batch.as_slice());
    let ghost names = resolved_batch(analysed_names(documents@));
    assert(batch.len() == documents.len()) by {
        assert(string_views(batch@).len() == names.len());
    }
    let mut files: Vec<PdfFile> = Vec::new();
    let mut i: usize = 0;
    while i < analysed.len()
        invariant
            i <= analysed.len(),
            analysed.len() == documents.len(),
            free.len() == documents.len(),
            batch.len() == documents.len(),
            names == resolved_batch(analysed_names(documents@)),
            string_views(batch@) == names,
            files.len() == i,
            forall|j: int|
                0 <= j < documents.len() ==> {
                    let file = #[trigger] analysed@[j];
                    let given = documents@[j].file;
                    &&& file.id@ == given.id@
                    &&& file.name@ == given.name@
                    &&& file.path@ == given.path@
                    &&& file.size == given.size
                    &&& file.modified == given.modified
                    &&& file.amount == analysed_amount(documents@[j])
                },
            forall|j: int|
                0 <= j < documents.len() ==> resolves_to(
                    string_views(existing@),
                    batch@[j]@,
                    (#[trigger] free@[j])@,
                ),
            forall|j: int|
                0 <= j < i ==> {
                    let file = #[trigger] files@[j];
                    let given = documents@[j].file;
                    &&& file.id@ == given.id@
                    &&& file.name@ == given.name@
                    &&& file.path@ == given.path@
                    &&& file.size == given.size
                    &&& file.modified == given.modified
                    &&& file.amount == analysed_amount(documents@[j])
                    &&& file.suggested_name matches Some(name) && resolves_to(
                        string_views(existing@),
                        names[j],
                        name@,
                    )
                },
        decreases analysed.len() - i,
    {
        let file = &analysed[i];
        proof {
            assert(string_views(batch@)[i as int] == batch@[i as int]@);
            assert(resolves_to(string_views(existing@), batch@[i as int]@, free@[i as int]@));
        }
        files.push(
            PdfFile {
                id: file.id.clone(),
                name: file.name.clone(),
                path: file.path.clone(),
                size: file.size,
                modified: file.modified,
                amount: file.amount,
                suggested_name: Some(free[i].clone()),
            },
        );
        i += 1;
    }
    files
}

/// The previews for a list of documents: for each whose record could be
/// made, its present name, the amount that its text holds, if any, and the
/// name that the amount suggests.
pub fn preview_rename(sources: &Vec<PreviewSource>) -> (previews: Vec<RenamePreview>)
    ensures
        preview_views(previews@) == previews_of(sources@),
{
    let parser = PdfParser::new();
    let engine = NamingEngine::new();
    let mut previews: Vec<RenamePreview> = Vec::new();
    let mut i: usize = 0;
    while i < sources.len()
        invariant
            i <= sources.len(),
            preview_views(previews@) == previews_of(sources@.take(i as int)),
        decreases sources.len() - i,
    {
        proof {
            assert(sources@.take(i + 1).drop_last() =~= sources@.take(i as int));
            assert(sources@.take(i + 1).last() == sources@[i as int]);
        }
        let source = &sources[i];
        match &source.info {
            Ok(file) => {
                let amount = match &source.text {
                    Ok(text) => parser.extract_amount_from_text(text.as_str()),
                    Err(_) => None,
                };
                let preview = RenamePreview {
                    original_name: file.name.clone(),
                    suggested_name: engine.suggest(amount),
                    amount,
                };
                proof {
                    assert(preview_views(previews@.push(preview)) =~= preview_views(
                        previews@,
                    ).push(preview@));
                }
                previews.push(preview);
            },
            Err(_) => {},
        }
        i += 1;
    }
    assert(sources@.take(sources.len() as int) =~= sources@);
    previews
}

/// Which operation of a batch to attempt next, given how those attempted
/// so far went: the next in order, whatever became of those before it,
/// until every one has been attempted.
pub fn next_operation(
    operations: &Vec<RenameOperation>,
    outcomes: &Vec<RenameOutcome>,
) -> (next: Option<usize>)
    ensures
        next == if outcomes.len() < operations.len() {
            Some(outcomes.len())
        } else {
            None
        },
{
    if outcomes.len() < operations.len() {
        Some(outcomes.len())
    } else {
        None
    }
}

/// The outcome of a batch of renames, from how each went.
pub fn execute_rename(outcomes: &Vec<RenameOutcome>) -> (result: RenameResult)
    ensures
        result@ == batch_result(outcomes@),
        result@.is_consistent(),
{
    let mut succeeded: usize = 0;
    let mut failed_files: Vec<String> = Vec::new();
    let mut i: usize = 0;
    while i < outcomes.len()
        invariant
            i <= outcomes.len(),
            succeeded == success_count(outcomes@.take(i as int)),
            string_views(failed_files@) == failure_lines(outcomes@.take(i as int)),
            succeeded + failed_files.len() == i,
        decreases outcomes.len() - i,
    {
        proof {
            assert(outcomes@.take(i + 1).drop_last() =~= outcomes@.take(i as int));
            assert(outcomes@.take(i + 1).last() == outcomes@[i as int]);
        }
        let outcome = &outcomes[i];
        match &outcome.result {
            Ok(_) => {
                succeeded += 1;
            },
            Err(reason) => {
                let mut line = chars_of(outcome.old_path.as_str());
                line.push(':');
                line.push(' ');
                push_all(&mut line, &chars_of(reason.as_str()));
                let line = string_of(&line);
                proof {
                    assert(line@ =~= failure_line(outcome.old_path@, reason@));
                    assert(string_views(failed_files@.push(line)) =~= string_views(
                        failed_files@,
                    ).push(line@));
                }
                failed_files.push(line);
            },
        }
        i += 1;
    }
    assert(outcomes@.take(outcomes.len() as int) =~= outcomes@);
    let success = failed_files.len() == 0;
    let mut message = chars_of(SUMMARY_RENAMED);
    push_all(&mut message, &decimal_digits(succeeded as u64));
    if !success {
        push_all(&mut message, &chars_of(SUMMARY_FAILED));
        push_all(&mut message, &decimal_digits(failed_files.len() as u64));
    }
    push_all(&mut message, &chars_of(SUMMARY_FILES));
    assert(message@ =~= summary(succeeded as nat, failed_files.len() as nat));
    RenameResult {
        success,
        message: string_of(&message),
        processed_files: succeeded + failed_files.len(),
        failed_files,
    }
}

} // verus!

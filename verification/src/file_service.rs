//! File names on disk: which are acceptable, how one is made acceptable,
//! how a name is kept from colliding with what a directory holds, and the
//! steps of a rename that never overwrites.

use vstd::prelude::*;
use crate::filename::{
    candidate, candidate_name, extension_of_path, lemma_free_candidate_within_bound,
    path_extension,
};
use crate::numeral::{spells, spells_word};
use crate::path::{final_component, last_component, parent_directory, parent_of};
use crate::text::{
    chars_of, is_blank, only_whitespace, optional_view, prefix_of, replace_char, string_of,
    string_views, with_reason, with_replaced,
};
use crate::types::{file_views, PdfFile, PdfFileView, Timestamp};

verus! {

/// A character that no file name may hold.
pub open spec fn is_forbidden(c: char) -> bool {
    c == '<' || c == '>' || c == ':' || c == '"' || c == '|' || c == '?' || c == '*' || c == '\\'
        || c == '/'
}

/// No character of `name` is forbidden.
pub open spec fn free_of_forbidden(name: Seq<char>) -> bool {
    forall|i: int| 0 <= i < name.len() ==> !is_forbidden(#[trigger] name[i])
}

/// The longest acceptable file name, in characters.
pub const MAX_NAME_LENGTH: usize = 255;

/// An acceptable file name: no forbidden character, at most 255
/// characters, and not empty or all white space.
pub open spec fn is_valid_filename(name: Seq<char>) -> bool {
    free_of_forbidden(name) && name.len() <= MAX_NAME_LENGTH && !is_blank(name)
}

/// `name` with every forbidden character turned into an underscore.
pub open spec fn cleaned(name: Seq<char>) -> Seq<char> {
    Seq::new(
        name.len(),
        |i: int|
            if is_forbidden(name[i]) {
                '_'
            } else {
                name[i]
            },
    )
}

/// The safe form of a name: forbidden characters become underscores, and a
/// name of more than 255 characters is cut to 252 and ends in three points.
pub open spec fn sanitized(name: Seq<char>) -> Seq<char> {
    if cleaned(name).len() > MAX_NAME_LENGTH {
        cleaned(name).take(252) + seq!['.', '.', '.']
    } else {
        cleaned(name)
    }
}

/// `k` is the number of the first name to try in place of `name` that is
/// not among `existing`.
pub open spec fn is_first_free(existing: Seq<Seq<char>>, name: Seq<char>, k: nat) -> bool {
    &&& !existing.contains(candidate(name, k))
    &&& forall|j: nat| j < k ==> existing.contains(#[trigger] candidate(name, j))
}

/// `free` is the name that the directory pass gives `name`: the first of
/// the names to try that is not among `existing`. It is the name itself or
/// one of the first `existing.len() + 1` numbered names.
pub open spec fn resolves_to(existing: Seq<Seq<char>>, name: Seq<char>, free: Seq<char>) -> bool {
    exists|k: nat|
        k <= existing.len() + 1 && is_first_free(existing, name, k) && free == candidate(name, k)
}

/// The directory pass is a function: a name and a directory listing leave
/// one answer only, and the directory does not hold it.
pub proof fn lemma_resolves_to_one_free_name(
    existing: Seq<Seq<char>>,
    name: Seq<char>,
    a: Seq<char>,
    b: Seq<char>,
)
    requires
        resolves_to(existing, name, a),
        resolves_to(existing, name, b),
    ensures
        a == b,
        !existing.contains(a),
{
    let j = choose|k: nat|
        k <= existing.len() + 1 && is_first_free(existing, name, k) && a == candidate(name, k);
    let k = choose|k: nat|
        k <= existing.len() + 1 && is_first_free(existing, name, k) && b == candidate(name, k);
    if j < k {
        assert(existing.contains(candidate(name, j)));
    }
    if k < j {
        assert(existing.contains(candidate(name, k)));
    }
}

/// The safe form of a name is free of forbidden characters and of
/// acceptable length; making it safe again changes nothing.
pub proof fn lemma_sanitized_is_safe(name: Seq<char>)
    ensures
        free_of_forbidden(sanitized(name)),
        sanitized(name).len() <= MAX_NAME_LENGTH,
        sanitized(sanitized(name)) == sanitized(name),
{
    let s = sanitized(name);
    assert(cleaned(s) =~= s);
}

/// Whether `c` may not stand in a file name.
pub fn is_forbidden_char(c: char) -> (r: bool)
    ensures
        r == is_forbidden(c),
{
    c == '<' || c == '>' || c == ':' || c == '"' || c == '|' || c == '?' || c == '*' || c == '\\'
        || c == '/'
}

/// Whether `name` is among `existing`.
pub fn is_taken(existing: &Vec<String>, name: &String) -> (r: bool)
    ensures
        r == string_views(existing@).contains(name@),
{
    let mut i: usize = 0;
    while i < existing.len()
        invariant
            i <= existing.len(),
            forall|k: int| 0 <= k < i ==> string_views(existing@)[k] != name@,
        decreases existing.len() - i,
    {
        assert(string_views(existing@)[i as int] == existing@[i as int]@);
        if existing[i] == *name {
            return true;
        }
        i += 1;
    }
    false
}

/// What is known so far of one rename: what each probe found and how each
/// action went. `None` stands for a probe not yet made or an action not
/// yet taken.
#[derive(Debug)]
pub struct RenameProgress {
    pub source_exists: Option<bool>,
    pub destination_exists: Option<bool>,
    pub parent_exists: Option<bool>,
    pub parent_created: Option<Result<(), String>>,
    pub renamed: Option<Result<(), String>>,
}

/// What to do next for one rename.
#[derive(Debug)]
pub enum RenameStep {
    /// Find out whether the source exists.
    ProbeSource,
    /// Find out whether the destination exists.
    ProbeDestination,
    /// Find out whether this directory, which is to hold the destination,
    /// exists.
    ProbeParent(String),
    /// Create this directory and those above it.
    CreateParent(String),
    /// Rename the source to the destination.
    Rename,
    /// Nothing more: the rename succeeded, or failed for this reason.
    Finished(Result<(), String>),
}

/// The value of a `RenameStep`.
pub enum RenameStepView {
    ProbeSource,
    ProbeDestination,
    ProbeParent(Seq<char>),
    CreateParent(Seq<char>),
    Rename,
    Succeeded,
    Failed(Seq<char>),
}

impl View for RenameStep {
    type V = RenameStepView;

    open spec fn view(&self) -> RenameStepView {
        match self {
            RenameStep::ProbeSource => RenameStepView::ProbeSource,
            RenameStep::ProbeDestination => RenameStepView::ProbeDestination,
            RenameStep::ProbeParent(directory) => RenameStepView::ProbeParent(directory@),
            RenameStep::CreateParent(directory) => RenameStepView::CreateParent(directory@),
            RenameStep::Rename => RenameStepView::Rename,
            RenameStep::Finished(Ok(_)) => RenameStepView::Succeeded,
            RenameStep::Finished(Err(reason)) => RenameStepView::Failed(reason@),
        }
    }
}

/// The reason given where the source of a rename does not exist.
pub const SOURCE_MISSING: &'static str = "源文件不存在";

/// The reason given where the destination of a rename exists already.
pub const DESTINATION_EXISTS: &'static str = "目标文件已存在";

/// What precedes the reason where the destination's directory could not be
/// created.
pub const CANNOT_CREATE_DIRECTORY: &'static str = "无法创建目录: ";

/// What precedes the reason where the rename itself failed.
pub const RENAME_FAILED: &'static str = "重命名失败: ";

/// The step that the destination's directory asks for, if any: none where
/// the destination has no directory, where the directory exists, or where
/// it has been created.
pub open spec fn parent_step(parent: Option<Seq<char>>, progress: RenameProgress) -> Option<
    RenameStepView,
> {
    match parent {
        None => None,
        Some(directory) => match progress.parent_exists {
            None => Some(RenameStepView::ProbeParent(directory)),
            Some(true) => None,
            Some(false) => match progress.parent_created {
                None => Some(RenameStepView::CreateParent(directory)),
                Some(Ok(_)) => None,
                Some(Err(reason)) => Some(
                    RenameStepView::Failed(CANNOT_CREATE_DIRECTORY@ + reason@),
                ),
            },
        },
    }
}

/// The next step of a rename whose destination has the directory `parent`.
/// The source is probed first, then the destination; only where the source
/// exists and the destination does not is anything changed on disk.
pub open spec fn next_step(parent: Option<Seq<char>>, progress: RenameProgress) -> RenameStepView {
    match progress.source_exists {
        None => RenameStepView::ProbeSource,
        Some(false) => RenameStepView::Failed(SOURCE_MISSING@),
        Some(true) => match progress.destination_exists {
            None => RenameStepView::ProbeDestination,
            Some(true) => RenameStepView::Failed(DESTINATION_EXISTS@),
            Some(false) => match parent_step(parent, progress) {
                Some(step) => step,
                None => match progress.renamed {
                    None => RenameStepView::Rename,
                    Some(Ok(_)) => RenameStepView::Succeeded,
                    Some(Err(reason)) => RenameStepView::Failed(RENAME_FAILED@ + reason@),
                },
            },
        },
    }
}

/// A rename never overwrites. Once the destination is known to exist, the
/// next step is a failure, with the reason "destination exists" where the
/// source is there; and nothing is created or renamed unless the source is
/// known to exist and the destination is known not to.
pub proof fn lemma_rename_never_overwrites(parent: Option<Seq<char>>, progress: RenameProgress)
    ensures
        progress.destination_exists == Some(true) ==> next_step(parent, progress)
            is Failed || next_step(parent, progress) is ProbeSource,
        progress.destination_exists == Some(true) && progress.source_exists == Some(true)
            ==> next_step(parent, progress) == RenameStepView::Failed(DESTINATION_EXISTS@),
        next_step(parent, progress) is Rename || next_step(parent, progress) is CreateParent
            ==> progress.source_exists == Some(true) && progress.destination_exists == Some(
            false,
        ),
{
}

/// What the file system told of one file.
#[derive(Debug)]
pub struct FileMetadata {
    pub size: u64,
    pub modified: Result<Timestamp, String>,
}

/// One entry of a directory, as listed.
#[derive(Debug)]
pub struct ListedEntry {
    pub path: String,
    pub is_file: bool,
    pub metadata: Result<FileMetadata, String>,
}

/// What a look at a directory gave.
#[derive(Debug)]
pub enum DirectoryListing {
    /// Nothing is there under that path.
    Missing,
    /// Something is there, but no directory.
    NotADirectory,
    /// The entries directly in the directory.
    Entries(Vec<ListedEntry>),
}

/// The error where nothing is there under the path to scan.
pub const DIRECTORY_MISSING: &'static str = "目录不存在";

/// The error where the path to scan is no directory.
pub const NOT_A_DIRECTORY: &'static str = "路径不是目录";

/// What precedes the reason where a file's metadata could not be had.
pub const NO_METADATA: &'static str = "无法获取文件信息: ";

/// What precedes the reason where a file's time of modification could not
/// be had.
pub const NO_MODIFICATION_TIME: &'static str = "无法获取修改时间: ";

/// The name given to a document whose path has no final component.
pub const UNNAMED_DOCUMENT: &'static str = "unknown.pdf";

/// The identifier of a document: its path with every separator turned
/// into an underscore.
pub open spec fn identifier_of(path: Seq<char>) -> Seq<char> {
    with_replaced(with_replaced(path, '/', '_'), '\\', '_')
}

/// The name of the document at `path`.
pub open spec fn document_name(path: Seq<char>) -> Seq<char> {
    match final_component(path) {
        Some(name) => name,
        None => UNNAMED_DOCUMENT@,
    }
}

/// The record of the document at `path`, or why there is none.
pub open spec fn file_info(path: Seq<char>, metadata: Result<FileMetadata, String>) -> Result<
    PdfFileView,
    Seq<char>,
> {
    match metadata {
        Err(reason) => Err(NO_METADATA@ + reason@),
        Ok(m) => match m.modified {
            Err(reason) => Err(NO_MODIFICATION_TIME@ + reason@),
            Ok(time) => Ok(
                PdfFileView {
                    id: identifier_of(path),
                    name: document_name(path),
                    path: path,
                    size: m.size,
                    modified: time,
                    amount: None,
                    suggested_name: None,
                },
            ),
        },
    }
}

/// A path whose final component has the extension `pdf`, in any case.
pub open spec fn is_pdf_path(path: Seq<char>) -> bool {
    match path_extension(path) {
        Some(extension) => spells(extension, seq!['p', 'd', 'f']),
        None => false,
    }
}

/// The records of the PDF files among the entries, in order. An entry
/// that is no file, has another extension or has no record is passed over.
pub open spec fn scanned(entries: Seq<ListedEntry>) -> Seq<PdfFileView>
    decreases entries.len(),
{
    if entries.len() == 0 {
        Seq::empty()
    } else {
        let before = scanned(entries.drop_last());
        let entry = entries.last();
        if entry.is_file && is_pdf_path(entry.path@) {
            match file_info(entry.path@, entry.metadata) {
                Ok(file) => before.push(file),
                Err(_) => before,
            }
        } else {
            before
        }
    }
}

/// Whether the final component of `path` has the extension `pdf`.
pub fn has_pdf_extension(path: &str) -> (r: bool)
    ensures
        r == is_pdf_path(path@),
{
    match extension_of_path(path) {
        Some(extension) => {
            let pdf: Vec<char> = vec!['p', 'd', 'f'];
            assert(extension@.skip(0) =~= extension@);
            assert(pdf@ =~= seq!['p', 'd', 'f']);
            spells_word(&extension, 0, &pdf)
        },
        None => false,
    }
}

/// The file service. It holds no state.
pub struct FileService;

impl FileService {
    pub fn new() -> FileService {
        FileService
    }

    /// Whether `filename` is an acceptable file name.
    pub fn validate_filename(&self, filename: &str) -> (valid: bool)
        ensures
            valid == is_valid_filename(filename@),
    {
        let name = chars_of(filename);
        let mut i: usize = 0;
        while i < name.len()
            invariant
                i <= name.len(),
                name@ == filename@,
                forall|k: int| 0 <= k < i ==> !is_forbidden(#[trigger] name@[k]),
            decreases name.len() - i,
        {
            if is_forbidden_char(name[i]) {
                return false;
            }
            i += 1;
        }
        if name.len() > MAX_NAME_LENGTH {
            return false;
        }
        !only_whitespace(&name)
    }

    /// The safe form of `filename`.
    pub fn sanitize_filename(&self, filename: &str) -> (safe: String)
        ensures
            safe@ == sanitized(filename@),
    {
        let name = chars_of(filename);
        let mut out: Vec<char> = Vec::new();
        let mut i: usize = 0;
        while i < name.len()
            invariant
                i <= name.len(),
                name@ == filename@,
                out@ == cleaned(name@).take(i as int),
            decreases name.len() - i,
        {
            if is_forbidden_char(name[i]) {
                out.push('_');
            } else {
                out.push(name[i]);
            }
            assert(out@ =~= cleaned(name@).take(i + 1));
            i += 1;
        }
        assert(out@ =~= cleaned(name@));
        if out.len() > MAX_NAME_LENGTH {
            let mut cut = prefix_of(&out, 252);
            cut.push('.');
            cut.push('.');
            cut.push('.');
            assert(cut@ =~= sanitized(filename@));
            string_of(&cut)
        } else {
            string_of(&out)
        }
    }

    /// A name for `filename` that is not among `existing`, the names that
    /// the target directory holds. The name itself is kept where it is
    /// free; else the names with `_1`, `_2`, ... are tried in turn and the
    /// first free one is the answer. Besides the name itself, at most
    /// `existing.len() + 1` numbered names are tried.
    pub fn resolve_filename_conflict(
        &self,
        existing: &Vec<String>,
        filename: &str,
    ) -> (free: String)
        ensures
            !string_views(existing@).contains(free@),
            resolves_to(string_views(existing@), filename@, free@),
    {
        let ghost taken = string_views(existing@);
        let mut k: u128 = 0;
        let mut current = string_of(&candidate_name(filename, 0));
        loop
            invariant
                k <= existing.len() + 1,
                taken == string_views(existing@),
                current@ == candidate(filename@, k as nat),
                forall|j: nat| j < k ==> taken.contains(#[trigger] candidate(filename@, j)),
            decreases existing.len() + 1 - k,
        {
            if !is_taken(existing, &current) {
                assert(is_first_free(taken, filename@, k as nat));
                return current;
            }
            proof {
                assert forall|j: nat| 1 <= j <= k implies taken.contains(
                    #[trigger] candidate(filename@, j),
                ) by {
                    if j == k {
                    }
                }
                lemma_free_candidate_within_bound(taken, filename@, k as nat);
            }
            k += 1;
            current = string_of(&candidate_name(filename, k));
        }
    }

    /// The directory that holds `file_path`.
    pub fn get_directory_path(&self, file_path: &str) -> (directory: Option<String>)
        ensures
            optional_view(directory) == parent_of(file_path@),
    {
        parent_directory(file_path)
    }

    /// The next step of the rename to `new_path`, given what is known so
    /// far. The caller carries the step out, notes the outcome in
    /// `progress` and asks again, until the step is `Finished`.
    pub fn rename_file(&self, new_path: &str, progress: &RenameProgress) -> (step: RenameStep)
        ensures
            step@ == next_step(parent_of(new_path@), *progress),
    {
        match progress.source_exists {
            None => {
                return RenameStep::ProbeSource;
            },
            Some(false) => {
                return RenameStep::Finished(Err(string_of(&chars_of(SOURCE_MISSING))));
            },
            Some(true) => {},
        }
        match progress.destination_exists {
            None => {
                return RenameStep::ProbeDestination;
            },
            Some(true) => {
                return RenameStep::Finished(Err(string_of(&chars_of(DESTINATION_EXISTS))));
            },
            Some(false) => {},
        }
        match parent_directory(new_path) {
            Some(directory) => {
                match progress.parent_exists {
                    None => {
                        return RenameStep::ProbeParent(directory);
                    },
                    Some(true) => {},
                    Some(false) => {
                        match &progress.parent_created {
                            None => {
                                return RenameStep::CreateParent(directory);
                            },
                            Some(Ok(_)) => {},
                            Some(Err(reason)) => {
                                return RenameStep::Finished(
                                    Err(with_reason(CANNOT_CREATE_DIRECTORY, reason.as_str())),
                                );
                            },
                        }
                    },
                }
            },
            None => {},
        }
        match &progress.renamed {
            None => RenameStep::Rename,
            Some(Ok(_)) => RenameStep::Finished(Ok(())),
            Some(Err(reason)) => RenameStep::Finished(
                Err(with_reason(RENAME_FAILED, reason.as_str())),
            ),
        }
    }

    /// The record of the document at `path`, from what the file system
    /// told of it, or the reason why it told nothing.
    pub fn create_pdf_file_info(
        &self,
        path: &str,
        metadata: &Result<FileMetadata, String>,
    ) -> (info: Result<PdfFile, String>)
        ensures
            match info {
                Ok(file) => file_info(path@, *metadata) == Ok::<PdfFileView, Seq<char>>(file@),
                Err(reason) => file_info(path@, *metadata) == Err::<PdfFileView, Seq<char>>(
                    reason@,
                ),
            },
    {
        let facts = match metadata {
            Ok(facts) => facts,
            Err(reason) => {
                return Err(with_reason(NO_METADATA, reason.as_str()));
            },
        };
        let name = match last_component(path) {
            Some(name) => name,
            None => string_of(&chars_of(UNNAMED_DOCUMENT)),
        };
        let modified = match &facts.modified {
            Ok(time) => *time,
            Err(reason) => {
                return Err(with_reason(NO_MODIFICATION_TIME, reason.as_str()));
            },
        };
        let id = replace_char(&replace_char(&chars_of(path), '/', '_'), '\\', '_');
        Ok(
            PdfFile {
                id: string_of(&id),
                name,
                path: string_of(&chars_of(path)),
                size: facts.size,
                modified,
                amount: None,
                suggested_name: None,
            },
        )
    }

    /// The PDF files of a directory, from what a look at it gave: an
    /// error where it is missing or no directory, else a record for each
    /// entry that is a file with the extension `pdf`, in the order of the
    /// listing. An entry whose record cannot be made is passed over.
    pub fn scan_directory(&self, listing: &DirectoryListing) -> (files: Result<
        Vec<PdfFile>,
        String,
    >)
        ensures
            match files {
                Ok(found) => listing matches DirectoryListing::Entries(entries) && file_views(
                    found@,
                ) == scanned(entries@),
                Err(reason) => (listing is Missing && reason@ == DIRECTORY_MISSING@) || (listing
                    is NotADirectory && reason@ == NOT_A_DIRECTORY@),
            },
    {
        let entries = match listing {
            DirectoryListing::Missing => {
                return Err(string_of(&chars_of(DIRECTORY_MISSING)));
            },
            DirectoryListing::NotADirectory => {
                return Err(string_of(&chars_of(NOT_A_DIRECTORY)));
            },
            DirectoryListing::Entries(entries) => entries,
        };
        let mut found: Vec<PdfFile> = Vec::new();
        let mut i: usize = 0;
        while i < entries.len()
            invariant
                i <= entries.len(),
                file_views(found@) == scanned(entries@.take(i as int)),
            decreases entries.len() - i,
        {
            proof {
                assert(entries@.take(i + 1).drop_last() =~= entries@.take(i as int));
                assert(entries@.take(i + 1).last() == entries@[i as int]);
            }
            let entry = &entries[i];
            if entry.is_file && has_pdf_extension(entry.path.as_str()) {
                match self.create_pdf_file_info(entry.path.as_str(), &entry.metadata) {
                    Ok(file) => {
                        proof {
                            assert(file_views(found@.push(file)) =~= file_views(found@).push(
                                file@,
                            ));
                        }
                        found.push(file);
                    },
                    Err(_) => {},
                }
            }
            i += 1;
        }
        assert(entries@.take(entries.len() as int) =~= entries@);
        Ok(found)
    }
}

} // verus!

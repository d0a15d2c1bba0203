//! The file access gateway: turns what the filesystem said about a read or a
//! write into the outcome of the operation.
//!
//! The caller performs the read or the write and hands in what the operating
//! system answered: the content or the confirmation, or the reason of the
//! failure. Nothing of a file is kept after the call.

use vstd::prelude::*;
use crate::error::{CoreError, ErrorView};

verus! {

/// The outcome of a file operation that succeeded, with the path it concerns.
#[derive(Debug, Clone, PartialEq, Eq)]
pub enum FileOperationResult {
    /// The full content of the file at `path`.
    Content { path: String, content: String },
    /// The file at `path` now holds what was written.
    Written { path: String },
}

/// Mathematical model of a [`FileOperationResult`].
pub enum FileView {
    Content { path: Seq<char>, content: Seq<char> },
    Written { path: Seq<char> },
}

impl View for FileOperationResult {
    type V = FileView;

    open spec fn view(&self) -> FileView {
        match *self {
            FileOperationResult::Content { path, content } => FileView::Content {
                path: path@,
                content: content@,
            },
            FileOperationResult::Written { path } => FileView::Written { path: path@ },
        }
    }
}

/// Model of the result of a gateway operation.
pub open spec fn file_result_view(result: Result<FileOperationResult, CoreError>) -> Result<
    FileView,
    ErrorView,
> {
    match result {
        Ok(done) => Ok(done@),
        Err(error) => Err(error@),
    }
}

/// Model of what the filesystem answered to a read.
pub open spec fn read_answer_view(answer: Result<String, String>) -> Result<Seq<char>, Seq<char>> {
    match answer {
        Ok(content) => Ok(content@),
        Err(reason) => Err(reason@),
    }
}

/// Model of what the filesystem answered to a write.
pub open spec fn write_answer_view(answer: Result<(), String>) -> Result<(), Seq<char>> {
    match answer {
        Ok(_) => Ok(()),
        Err(reason) => Err(reason@),
    }
}

/// The outcome of reading `path`: the content exactly as the filesystem gave
/// it, or a read error with the path and the reason.
pub open spec fn read_model(path: Seq<char>, answer: Result<Seq<char>, Seq<char>>) -> Result<
    FileView,
    ErrorView,
> {
    match answer {
        Ok(content) => Ok(FileView::Content { path, content }),
        Err(reason) => Err(ErrorView::FileRead { path, reason }),
    }
}

/// The outcome of writing `path`: the confirmation, or a write error with the
/// path and the reason.
pub open spec fn write_model(path: Seq<char>, answer: Result<(), Seq<char>>) -> Result<
    FileView,
    ErrorView,
> {
    match answer {
        Ok(_) => Ok(FileView::Written { path }),
        Err(reason) => Err(ErrorView::FileWrite { path, reason }),
    }
}

/// The outcome of reading the file at `path`, given the filesystem's answer.
/// A missing or unreadable file is a read error, never anything else.
pub fn read(path: String, answer: Result<String, String>) -> (result: Result<
    FileOperationResult,
    CoreError,
>)
    ensures
        file_result_view(result) == read_model(path@, read_answer_view(answer)),
{
    match answer {
        Ok(content) => Ok(FileOperationResult::Content { path, content }),
        Err(reason) => Err(CoreError::FileRead { path, reason }),
    }
}

/// The outcome of replacing or creating the file at `path`, given the
/// filesystem's answer.
pub fn write(path: String, answer: Result<(), String>) -> (result: Result<
    FileOperationResult,
    CoreError,
>)
    ensures
        file_result_view(result) == write_model(path@, write_answer_view(answer)),
{
    match answer {
        Ok(_) => Ok(FileOperationResult::Written { path }),
        Err(reason) => Err(CoreError::FileWrite { path, reason }),
    }
}

} // verus!

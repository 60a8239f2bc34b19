//! Text controller: the facade a text editor uses over a file.
//!
//! Plain text files are read and written through the file manager; module files belong to
//! the module controller. The controller decides which request a read or a write makes; the
//! caller sends it and hands the answer back to the editor.

use vstd::prelude::*;

use crate::module_controller::{module_file_path, Data};

verus! {

/// A notification from the text controller.
#[derive(Clone, Debug, PartialEq, Eq)]
pub enum Notification {
    /// File contents needs to be set to the following due to synchronization with external state.
    SetNewContent(String),
}

/// The file a text controller handles: a plain text file at a path, or a module.
#[derive(Clone, Debug, PartialEq, Eq)]
pub enum FileHandle {
    PlainText { path: String },
    Module { controller: Data },
}

/// A request to the file manager.
#[derive(Clone, Debug, PartialEq, Eq)]
pub enum FileRequest {
    /// Read the whole file at `path`.
    Read { path: String },
    /// Replace the contents of the file at `path` with `content`.
    Write { path: String, content: String },
}

/// Whether `file` is a plain text file.
pub open spec fn is_plain_text(file: FileHandle) -> bool {
    file is PlainText
}

/// The path of the file behind `file`.
pub open spec fn file_path(file: FileHandle) -> Seq<char> {
    match file {
        FileHandle::PlainText { path } => path@,
        FileHandle::Module { controller } => module_file_path(controller.loc.0@),
    }
}

/// A text controller.
#[derive(Clone, Debug)]
pub struct Handle {
    file: FileHandle,
}

impl Handle {
    /// The file this controller handles.
    pub closed spec fn file(&self) -> FileHandle {
        self.file
    }

    fn new(file: FileHandle) -> (r: Handle)
        ensures
            r.file() == file,
    {
        Handle { file }
    }

    /// Create controller managing plain text file.
    pub fn new_for_plain_test(path: String) -> (r: Handle)
        ensures
            r.file() == (FileHandle::PlainText { path }),
    {
        Handle::new(FileHandle::PlainText { path })
    }

    /// Create controller managing Luna module file.
    pub fn new_for_module(controller: Data) -> (r: Handle)
        ensures
            r.file() == (FileHandle::Module { controller }),
    {
        Handle::new(FileHandle::Module { controller })
    }

    /// Whether this controller handles a plain text file.
    pub fn handles_plain_text(&self) -> (r: bool)
        ensures
            r == is_plain_text(self.file()),
    {
        match &self.file {
            FileHandle::PlainText { .. } => true,
            FileHandle::Module { .. } => false,
        }
    }

    /// The request that reads the file's content. Only plain text files are read this way.
    pub fn read_content(&self) -> (r: FileRequest)
        requires
            is_plain_text(self.file()),
        ensures
            self.file() matches FileHandle::PlainText { path } && r == (FileRequest::Read { path }),
    {
        match &self.file {
            FileHandle::PlainText { path } => FileRequest::Read { path: path.clone() },
            FileHandle::Module { .. } => unreached(),
        }
    }

    /// The request that stores `content` to the file. Only plain text files are written this
    /// way.
    pub fn store_content(&self, content: String) -> (r: FileRequest)
        requires
            is_plain_text(self.file()),
        ensures
            self.file() matches FileHandle::PlainText { path } && r == (FileRequest::Write {
                path,
                content,
            }),
    {
        match &self.file {
            FileHandle::PlainText { path } => FileRequest::Write { path: path.clone(), content },
            FileHandle::Module { .. } => unreached(),
        }
    }

    /// Get clone of file path handled by this controller.
    pub fn file_path_clone(&self) -> (r: String)
        ensures
            r@ == file_path(self.file()),
    {
        match &self.file {
            FileHandle::PlainText { path } => path.clone(),
            FileHandle::Module { controller } => controller.loc.to_path(),
        }
    }
}

} // verus!

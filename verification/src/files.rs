//! Files chosen for upload and the kinds of document the service accepts.

use vstd::prelude::*;

verus! {

/// The kinds of document and content the service handles.
#[derive(PartialEq, Eq, Structural)]
pub enum MimeType {
    ApplicationPdf,
    TextMarkdown,
    ImagePng,
    ImageJpeg,
}

/// A local file resolved for upload, with the id it will be stored under.
pub struct UploadFile {
    pub path: String,
    pub doc_id: String,
    pub size: u64,
    pub mime_type: MimeType,
}

impl Clone for MimeType {
    fn clone(&self) -> (r: Self)
        ensures
            r == *self,
    {
        match self {
            MimeType::ApplicationPdf => MimeType::ApplicationPdf,
            MimeType::TextMarkdown => MimeType::TextMarkdown,
            MimeType::ImagePng => MimeType::ImagePng,
            MimeType::ImageJpeg => MimeType::ImageJpeg,
        }
    }
}

impl Clone for UploadFile {
    fn clone(&self) -> (r: Self)
        ensures
            r == *self,
    {
        UploadFile {
            path: self.path.clone(),
            doc_id: self.doc_id.clone(),
            size: self.size,
            mime_type: self.mime_type.clone(),
        }
    }
}

/// The total size of `files`, in bytes.
pub open spec fn total_size(files: Seq<UploadFile>) -> nat
    decreases files.len(),
{
    if files.len() == 0 {
        0
    } else {
        total_size(files.drop_last()) + files.last().size as nat
    }
}

} // verus!

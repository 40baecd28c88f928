//! File uploads: the upload form and the naming and MIME-type decisions
//! made when one is prepared from a file on disk. Reading the file's
//! metadata and detecting its type happen outside; their outcomes are
//! handed in, and everything decided from them here is verified.

use std::collections::HashMap;

use vstd::prelude::*;
use vstd::string::*;

use crate::naming::{snake_case_of, to_snake_lower_cased_allow_start_with_digits};

verus! {

/// What file-type detection reported: a known MIME type, a readable file
/// of unknown type, or a detection failure.
pub enum MimeDetection {
    Known(String),
    Unknown,
    Failed,
}

/// The MIME type an upload carries for a detection outcome: unknown
/// types fall back to the generic byte stream, a failed detection leaves
/// it unset.
pub open spec fn mime_of(d: MimeDetection) -> Option<Seq<char>> {
    match d {
        MimeDetection::Known(m) => Some(m@),
        MimeDetection::Unknown => Some("application/octet-stream"@),
        MimeDetection::Failed => None,
    }
}

/// A file upload form: where the file lives locally, what it is called
/// remotely, and its attributes. File timestamps are epoch milliseconds.
#[derive(Debug, Clone)]
pub struct FileUpload {
    pub external_id: String,
    pub file_path: String,
    pub path: Option<String>,
    pub name: String,
    pub metadata: Option<HashMap<String, String>>,
    pub description: Option<String>,
    pub source: Option<String>,
    pub data_set_id: Option<u64>,
    pub mime_type: Option<String>,
    pub related_resources: Option<Vec<u64>>,
    pub source_date_created: Option<i64>,
    pub source_last_updated: Option<i64>,
}

impl FileUpload {
    /// Assembles an upload from what was read off the file system: the
    /// external id is the snake-cased file name, and the MIME type
    /// follows the detection outcome.
    pub fn from_parts(
        file_path: &str,
        file_name: &str,
        detected: MimeDetection,
        source_date_created: Option<i64>,
        source_last_updated: Option<i64>,
    ) -> (r: FileUpload)
        ensures
            r.external_id@ == snake_case_of(file_name@),
            r.file_path@ == file_path@,
            r.name@ == file_name@,
            r.path is None,
            r.metadata is None,
            r.description is None,
            r.source is None,
            r.data_set_id is None,
            (match mime_of(detected) {
                Some(m) => r.mime_type is Some && r.mime_type->0@ == m,
                None => r.mime_type is None,
            }),
            r.related_resources is None,
            r.source_date_created == source_date_created,
            r.source_last_updated == source_last_updated,
    {
        let mime_type = match detected {
            MimeDetection::Known(m) => Some(m),
            MimeDetection::Unknown => Some(String::from_str("application/octet-stream")),
            MimeDetection::Failed => None,
        };
        FileUpload {
            external_id: to_snake_lower_cased_allow_start_with_digits(file_name),
            file_path: file_path.to_owned(),
            path: None,
            name: file_name.to_owned(),
            metadata: None,
            description: None,
            source: None,
            data_set_id: None,
            mime_type,
            related_resources: None,
            source_date_created,
            source_last_updated,
        }
    }

    pub fn set_external_id(&mut self, external_id: String)
        ensures
            *final(self) == (FileUpload { external_id, ..*old(self) }),
    {
        self.external_id = external_id;
    }

    pub fn set_file_name(&mut self, file_name: String)
        ensures
            *final(self) == (FileUpload { name: file_name, ..*old(self) }),
    {
        self.name = file_name;
    }

    pub fn set_destination_path(&mut self, destination_path: String)
        ensures
            *final(self) == (FileUpload { path: Some(destination_path), ..*old(self) }),
    {
        self.path = Some(destination_path);
    }

    pub fn set_metadata(&mut self, metadata: HashMap<String, String>)
        ensures
            *final(self) == (FileUpload { metadata: Some(metadata), ..*old(self) }),
    {
        self.metadata = Some(metadata);
    }

    pub fn set_description(&mut self, description: String)
        ensures
            *final(self) == (FileUpload { description: Some(description), ..*old(self) }),
    {
        self.description = Some(description);
    }

    pub fn set_source(&mut self, source: String)
        ensures
            *final(self) == (FileUpload { source: Some(source), ..*old(self) }),
    {
        self.source = Some(source);
    }

    pub fn set_data_set_id(&mut self, data_set_id: u64)
        ensures
            *final(self) == (FileUpload { data_set_id: Some(data_set_id), ..*old(self) }),
    {
        self.data_set_id = Some(data_set_id);
    }

    pub fn set_mime_type(&mut self, mime_type: String)
        ensures
            *final(self) == (FileUpload { mime_type: Some(mime_type), ..*old(self) }),
    {
        self.mime_type = Some(mime_type);
    }
}

} // verus!

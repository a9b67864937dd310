//! The closed set of failures that the library reports, each with the
//! context it arose from.

use vstd::prelude::*;
use crate::text::{concat2, concat3};

verus! {

/// The broad class of a failure.
#[derive(Debug, Clone, Copy, PartialEq, Eq, Structural)]
pub enum ErrorClass {
    /// The configuration is incomplete.
    Configuration,
    /// What the operator asked for cannot be done; nothing was touched yet.
    Input,
    /// The backup could not be unpacked.
    Extraction,
}

/// A failure of a restore, of the preset store or of the configuration.
#[derive(Debug, Clone, PartialEq, Eq)]
pub enum RestoreError {
    /// A credential that the connection needs is not set.
    MissingCredential { variable: String },
    /// The backup is neither a directory nor an archive of a known format.
    UnsupportedFormat { extension: String },
    /// The preset asked for is not in the store.
    PresetNotFound { name: String },
    /// The preset to remove is not in the store.
    PresetDoesNotExist { name: String },
    /// The archive, or one of its entries, cannot be read.
    CorruptArchive { detail: String },
    /// A table dump cannot be decompressed.
    CorruptDump { file: String, detail: String },
}

/// A `RestoreError` as plain values. The words of an underlying error are
/// left out: they are those of the code that found it.
pub enum ErrorView {
    MissingCredential { variable: Seq<char> },
    UnsupportedFormat { extension: Seq<char> },
    PresetNotFound { name: Seq<char> },
    PresetDoesNotExist { name: Seq<char> },
    CorruptArchive,
    CorruptDump { file: Seq<char> },
}

impl View for RestoreError {
    type V = ErrorView;

    open spec fn view(&self) -> ErrorView {
        match self {
            RestoreError::MissingCredential { variable } => ErrorView::MissingCredential {
                variable: variable@,
            },
            RestoreError::UnsupportedFormat { extension } => ErrorView::UnsupportedFormat {
                extension: extension@,
            },
            RestoreError::PresetNotFound { name } => ErrorView::PresetNotFound { name: name@ },
            RestoreError::PresetDoesNotExist { name } => ErrorView::PresetDoesNotExist {
                name: name@,
            },
            RestoreError::CorruptArchive { .. } => ErrorView::CorruptArchive,
            RestoreError::CorruptDump { file, .. } => ErrorView::CorruptDump { file: file@ },
        }
    }
}

impl RestoreError {
    /// The class of this failure.
    pub open spec fn class_of(self) -> ErrorClass {
        match self {
            RestoreError::MissingCredential { .. } => ErrorClass::Configuration,
            RestoreError::UnsupportedFormat { .. } => ErrorClass::Input,
            RestoreError::PresetNotFound { .. } => ErrorClass::Input,
            RestoreError::PresetDoesNotExist { .. } => ErrorClass::Input,
            RestoreError::CorruptArchive { .. } => ErrorClass::Extraction,
            RestoreError::CorruptDump { .. } => ErrorClass::Extraction,
        }
    }

    /// The text shown to the operator for this failure.
    pub open spec fn message_of(self) -> Seq<char> {
        match self {
            RestoreError::MissingCredential { variable } => variable@ + " is not set"@,
            RestoreError::UnsupportedFormat { extension } => "Unsupported backup format: "@
                + extension@,
            RestoreError::PresetNotFound { name } => "Preset '"@ + name@ + "' not found"@,
            RestoreError::PresetDoesNotExist { name } => "Preset '"@ + name@ + "' does not exist"@,
            RestoreError::CorruptArchive { detail } => "Cannot read the archive: "@ + detail@,
            RestoreError::CorruptDump { file, detail } => "Cannot decompress "@ + file@ + ": "@
                + detail@,
        }
    }

    /// The class of this failure.
    pub fn class(&self) -> (c: ErrorClass)
        ensures
            c == self.class_of(),
    {
        match self {
            RestoreError::MissingCredential { .. } => ErrorClass::Configuration,
            RestoreError::UnsupportedFormat { .. } => ErrorClass::Input,
            RestoreError::PresetNotFound { .. } => ErrorClass::Input,
            RestoreError::PresetDoesNotExist { .. } => ErrorClass::Input,
            RestoreError::CorruptArchive { .. } => ErrorClass::Extraction,
            RestoreError::CorruptDump { .. } => ErrorClass::Extraction,
        }
    }

    /// The text shown to the operator for this failure.
    pub fn message(&self) -> (m: String)
        ensures
            m@ == self.message_of(),
    {
        match self {
            RestoreError::MissingCredential { variable } => concat2(
                variable.as_str(),
                " is not set",
            ),
            RestoreError::UnsupportedFormat { extension } => concat2(
                "Unsupported backup format: ",
                extension.as_str(),
            ),
            RestoreError::PresetNotFound { name } => concat3(
                "Preset '",
                name.as_str(),
                "' not found",
            ),
            RestoreError::PresetDoesNotExist { name } => concat3(
                "Preset '",
                name.as_str(),
                "' does not exist",
            ),
            RestoreError::CorruptArchive { detail } => concat2(
                "Cannot read the archive: ",
                detail.as_str(),
            ),
            RestoreError::CorruptDump { file, detail } => {
                let head = concat3("Cannot decompress ", file.as_str(), ": ");
                concat2(head.as_str(), detail.as_str())
            },
        }
    }
}

} // verus!

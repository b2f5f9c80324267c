//! Report items for unexpected modifications and other conditions.
//!
//! Drift conditions are not errors: an operation that finds one
//! completes successfully and returns the discrepancy as a report
//! event. Only the kind of an event and the path it carries matter
//! here; rendering is the caller's concern.

use vstd::prelude::*;

use crate::paths::{FilePath, FilePathV};

verus! {

/// A report item that may represent unexpected file system
/// modification or another concerning situation.
pub enum ReportItem {
    /// The file exists (unexpectedly) and is not tolerated.
    FileAlreadyTracked { path: FilePath },
    /// The file is missing (unexpectedly) from the database.
    FileNotTracked { path: FilePath },
    /// The file contents have changed.
    FileContentChanged { path: FilePath },
    /// The filename is not supported.
    FileNameNotSupported { path: FilePath },
    /// The file is (now) a directory.
    FileIsDirectory { path: FilePath },
}

/// The kind of discrepancy a report item signals.
#[derive(Clone, Copy, PartialEq, Eq, Structural, Debug)]
pub enum ReportKind {
    AlreadyTracked,
    NotTracked,
    ContentChanged,
    NameNotSupported,
    IsDirectory,
}

/// Mathematical model of a [`ReportItem`]: its kind and the path it
/// carries.
#[verifier::ext_equal]
pub struct ReportItemV {
    pub kind: ReportKind,
    pub path: FilePathV,
}

impl ReportItem {
    pub open spec fn view(&self) -> ReportItemV {
        match self {
            ReportItem::FileAlreadyTracked { path } => ReportItemV {
                kind: ReportKind::AlreadyTracked,
                path: path@,
            },
            ReportItem::FileNotTracked { path } => ReportItemV {
                kind: ReportKind::NotTracked,
                path: path@,
            },
            ReportItem::FileContentChanged { path } => ReportItemV {
                kind: ReportKind::ContentChanged,
                path: path@,
            },
            ReportItem::FileNameNotSupported { path } => ReportItemV {
                kind: ReportKind::NameNotSupported,
                path: path@,
            },
            ReportItem::FileIsDirectory { path } => ReportItemV {
                kind: ReportKind::IsDirectory,
                path: path@,
            },
        }
    }

    /// The kind of discrepancy this item signals.
    pub fn kind(&self) -> (r: ReportKind)
        ensures
            r == self@.kind,
    {
        match self {
            ReportItem::FileAlreadyTracked { path: _ } => ReportKind::AlreadyTracked,
            ReportItem::FileNotTracked { path: _ } => ReportKind::NotTracked,
            ReportItem::FileContentChanged { path: _ } => ReportKind::ContentChanged,
            ReportItem::FileNameNotSupported { path: _ } => ReportKind::NameNotSupported,
            ReportItem::FileIsDirectory { path: _ } => ReportKind::IsDirectory,
        }
    }

    /// The path this item reports on.
    pub fn reported_path(&self) -> (r: &FilePath)
        ensures
            r@ == self@.path,
    {
        match self {
            ReportItem::FileAlreadyTracked { path } => path,
            ReportItem::FileNotTracked { path } => path,
            ReportItem::FileContentChanged { path } => path,
            ReportItem::FileNameNotSupported { path } => path,
            ReportItem::FileIsDirectory { path } => path,
        }
    }

    /// Build the item of a given kind carrying the given path.
    pub fn of_kind(kind: ReportKind, path: FilePath) -> (r: ReportItem)
        ensures
            r@ == (ReportItemV { kind, path: path@ }),
    {
        match kind {
            ReportKind::AlreadyTracked => ReportItem::FileAlreadyTracked { path },
            ReportKind::NotTracked => ReportItem::FileNotTracked { path },
            ReportKind::ContentChanged => ReportItem::FileContentChanged { path },
            ReportKind::NameNotSupported => ReportItem::FileNameNotSupported { path },
            ReportKind::IsDirectory => ReportItem::FileIsDirectory { path },
        }
    }
}

/// The report sequence that tags each kind with the path it is about.
pub open spec fn tagged(kinds: Seq<ReportKind>, path: FilePathV) -> Seq<ReportItemV> {
    kinds.map_values(|k: ReportKind| ReportItemV { kind: k, path: path })
}

} // verus!

//! The failures the library reports: credential resolution that found no
//! usable signing key, a pipeline stage whose outside work failed, and
//! version inheritance that could not be completed.

use vstd::prelude::*;

use crate::pipeline::{spec_stage_label, stage_label, Stage};

verus! {

/// One failure of the library, with the context its reporter needs.
#[derive(Clone, Debug)]
pub enum Error {
    /// No explicit signing configuration was found for the named profile
    /// (upper-cased, `-` replaced by `_`), and no fallback was allowed.
    MissingReleaseKey(String),
    /// The external tool a pipeline stage ran exited non-zero; its captured
    /// standard-error text is kept verbatim.
    ToolInvocationFailed { stage: Stage, stderr: String },
    /// A filesystem step of a pipeline stage failed.
    Filesystem { stage: Stage, message: String },
    /// The package version is inherited but no workspace manifest exists.
    InheritanceMissingWorkspace,
    /// The workspace manifest lacks the named field the package inherits.
    WorkspaceMissingInheritedField(String),
    /// `workspace = false` is not a meaningful inheritance declaration.
    InheritedFalse,
}

/// The mathematical shape of an [`Error`], with text as character sequences.
pub ghost enum ErrorView {
    MissingReleaseKey(Seq<char>),
    ToolInvocationFailed { stage: Stage, stderr: Seq<char> },
    Filesystem { stage: Stage, message: Seq<char> },
    InheritanceMissingWorkspace,
    WorkspaceMissingInheritedField(Seq<char>),
    InheritedFalse,
}

/// The one-line account of an error, with the failing tool's captured
/// diagnostic text kept verbatim after the stage prefix.
pub open spec fn spec_error_message(e: ErrorView) -> Seq<char> {
    match e {
        ErrorView::MissingReleaseKey(name) => "missing release key for profile "@ + name,
        ErrorView::ToolInvocationFailed { stage, stderr } => "stage `"@ + spec_stage_label(stage)
            + "` failed: "@ + stderr,
        ErrorView::Filesystem { stage, message } => "stage `"@ + spec_stage_label(stage) + "`: "@
            + message,
        ErrorView::InheritanceMissingWorkspace => "the package inherits its version but no workspace manifest exists"@,
        ErrorView::WorkspaceMissingInheritedField(field) => "the workspace manifest is missing `"@
            + field + "`"@,
        ErrorView::InheritedFalse => "`workspace = false` is not a meaningful inheritance declaration"@,
    }
}

impl Error {
    /// The one-line account of this error.
    pub fn message(&self) -> (r: String)
        ensures
            r@ == spec_error_message(self@),
    {
        match self {
            Error::MissingReleaseKey(name) => String::from_str(
                "missing release key for profile ",
            ).concat(name.as_str()),
            Error::ToolInvocationFailed { stage, stderr } => String::from_str("stage `").concat(
                stage_label(*stage).as_str(),
            ).concat("` failed: ").concat(stderr.as_str()),
            Error::Filesystem { stage, message } => String::from_str("stage `").concat(
                stage_label(*stage).as_str(),
            ).concat("`: ").concat(message.as_str()),
            Error::InheritanceMissingWorkspace => String::from_str(
                "the package inherits its version but no workspace manifest exists",
            ),
            Error::WorkspaceMissingInheritedField(field) => String::from_str(
                "the workspace manifest is missing `",
            ).concat(field.as_str()).concat("`"),
            Error::InheritedFalse => String::from_str(
                "`workspace = false` is not a meaningful inheritance declaration",
            ),
        }
    }
}

impl View for Error {
    type V = ErrorView;

    open spec fn view(&self) -> ErrorView {
        match self {
            Error::MissingReleaseKey(name) => ErrorView::MissingReleaseKey(name@),
            Error::ToolInvocationFailed { stage, stderr } => ErrorView::ToolInvocationFailed {
                stage: *stage,
                stderr: stderr@,
            },
            Error::Filesystem { stage, message } => ErrorView::Filesystem {
                stage: *stage,
                message: message@,
            },
            Error::InheritanceMissingWorkspace => ErrorView::InheritanceMissingWorkspace,
            Error::WorkspaceMissingInheritedField(field) => ErrorView::WorkspaceMissingInheritedField(
                field@,
            ),
            Error::InheritedFalse => ErrorView::InheritedFalse,
        }
    }
}

} // verus!

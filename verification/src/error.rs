//! The ways an upgrade run can fail, and how each is worded.

use vstd::prelude::*;
use vstd::string::*;

verus! {

/// How the rebuild tool ended: its exit code, where it exited on its own,
/// and the status as the platform words it.
#[derive(Debug, Clone, PartialEq, Eq)]
pub struct ExitReport {
    pub code: Option<i32>,
    pub text: String,
}

/// An `ExitReport` with its text as a sequence of characters.
pub struct ExitReportView {
    pub code: Option<i32>,
    pub text: Seq<char>,
}

impl ExitReportView {
    /// The tool exited on its own with code zero.
    pub open spec fn success(self) -> bool {
        self.code == Some(0i32)
    }
}

impl View for ExitReport {
    type V = ExitReportView;

    open spec fn view(&self) -> ExitReportView {
        ExitReportView { code: self.code, text: self.text@ }
    }
}

impl ExitReport {
    /// Whether the tool reported success.
    pub fn success(&self) -> (r: bool)
        ensures
            r == self@.success(),
    {
        match self.code {
            Some(code) => code == 0,
            None => false,
        }
    }
}

/// Why a run ended without completing. Each cause is kept as the text of
/// the underlying failure.
#[derive(Debug, Clone, PartialEq, Eq)]
pub enum NixosUpgradeError {
    /// The connectivity probe itself failed.
    NetworkCheck(String),
    /// The probe worked and found no connectivity.
    NetworkUnavailable,
    /// A tool of the run could not be started.
    NixosRebuild(String),
    /// The rebuild tool ran and reported failure.
    NixosRebuildFailed(ExitReport),
    /// The configuration file exists and could not be read.
    ConfigRead(String),
    /// The configuration file does not hold a configuration.
    ConfigParse(String),
}

/// A `NixosUpgradeError` with its texts as sequences of characters.
pub enum ErrorView {
    NetworkCheck(Seq<char>),
    NetworkUnavailable,
    NixosRebuild(Seq<char>),
    NixosRebuildFailed(ExitReportView),
    ConfigRead(Seq<char>),
    ConfigParse(Seq<char>),
}

impl View for NixosUpgradeError {
    type V = ErrorView;

    open spec fn view(&self) -> ErrorView {
        match self {
            NixosUpgradeError::NetworkCheck(cause) => ErrorView::NetworkCheck(cause@),
            NixosUpgradeError::NetworkUnavailable => ErrorView::NetworkUnavailable,
            NixosUpgradeError::NixosRebuild(cause) => ErrorView::NixosRebuild(cause@),
            NixosUpgradeError::NixosRebuildFailed(report) => ErrorView::NixosRebuildFailed(
                report@,
            ),
            NixosUpgradeError::ConfigRead(cause) => ErrorView::ConfigRead(cause@),
            NixosUpgradeError::ConfigParse(cause) => ErrorView::ConfigParse(cause@),
        }
    }
}

impl ErrorView {
    /// The line shown for this error: its kind, then its cause where it has one.
    pub open spec fn message(self) -> Seq<char> {
        match self {
            ErrorView::NetworkCheck(cause) => "Failed to check network connectivity: "@ + cause,
            ErrorView::NetworkUnavailable => "Network is not available"@,
            ErrorView::NixosRebuild(cause) => "Failed to execute nixos-rebuild: "@ + cause,
            ErrorView::NixosRebuildFailed(report) => "nixos-rebuild failed with exit code: "@
                + report.text,
            ErrorView::ConfigRead(cause) => "Failed to read config file: "@ + cause,
            ErrorView::ConfigParse(cause) => "Failed to parse config file: "@ + cause,
        }
    }
}

impl NixosUpgradeError {
    /// The line shown for this error.
    pub fn message(&self) -> (line: String)
        ensures
            line@ == self@.message(),
    {
        match self {
            NixosUpgradeError::NetworkCheck(cause) => String::from_str(
                "Failed to check network connectivity: ",
            ).concat(cause.as_str()),
            NixosUpgradeError::NetworkUnavailable => String::from_str("Network is not available"),
            NixosUpgradeError::NixosRebuild(cause) => String::from_str(
                "Failed to execute nixos-rebuild: ",
            ).concat(cause.as_str()),
            NixosUpgradeError::NixosRebuildFailed(report) => String::from_str(
                "nixos-rebuild failed with exit code: ",
            ).concat(report.text.as_str()),
            NixosUpgradeError::ConfigRead(cause) => String::from_str(
                "Failed to read config file: ",
            ).concat(cause.as_str()),
            NixosUpgradeError::ConfigParse(cause) => String::from_str(
                "Failed to parse config file: ",
            ).concat(cause.as_str()),
        }
    }
}

} // verus!

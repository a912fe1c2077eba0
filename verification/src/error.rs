//! Error types.

use vstd::prelude::*;
use vstd::string::StringExecFns;

use crate::text;

verus! {

/// Which system error a failed device access reported.
#[derive(Debug, Clone, Copy, PartialEq, Eq, Structural)]
pub enum IoKind {
    PermissionDenied,
    NotFound,
    Other,
}

/// A failed device access: its kind and the system's words for it.
#[derive(Debug, Clone)]
pub struct IoFailure {
    pub kind: IoKind,
    pub message: String,
}

/// All errors that can occur in hid-rgb-ctl.
#[derive(Debug, Clone)]
#[allow(inconsistent_fields)]
pub enum Error {
    /// Permission denied accessing a hidraw device.
    PermissionDenied { path: String },
    /// The hidraw device does not exist.
    DeviceNotFound { path: String },
    /// A required HID report type is missing from the device descriptor.
    MissingReport { report_name: String },
    /// The `auto` command was used on a non-LampArray device.
    NoAutonomousMode,
    /// The `set-lamp` command was used on a non-LampArray device.
    NoMultiUpdate,
    /// The channels of an LED device lie in an Input report, which the host cannot send.
    UnsupportedReportType,
    /// A report came back shorter than its layout.
    TruncatedReport { report_name: &'static str, expected: usize, got: usize },
    /// A device answered for another lamp than the one asked for.
    LampIdMismatch { expected: u16, got: u16 },
    /// A lamp ID at or above the device's lamp count.
    LampIdOutOfRange { lamp_id: u16, lamp_count: u16 },
    /// A lamp ID that occurs twice in one update.
    DuplicateLampId { lamp_id: u16 },
    /// Invalid subcommand or argument.
    InvalidArgument(String),
    /// A failed device access.
    Io(IoFailure),
    /// What the command line parser had to object.
    Arg(String),
}

/// An `IoFailure` with its text as a sequence of characters.
pub struct IoFailureView {
    pub kind: IoKind,
    pub message: Seq<char>,
}

/// An `Error` with its texts as sequences of characters.
#[allow(inconsistent_fields)]
pub enum ErrorView {
    PermissionDenied { path: Seq<char> },
    DeviceNotFound { path: Seq<char> },
    MissingReport { report_name: Seq<char> },
    NoAutonomousMode,
    NoMultiUpdate,
    UnsupportedReportType,
    TruncatedReport { report_name: Seq<char>, expected: nat, got: nat },
    LampIdMismatch { expected: u16, got: u16 },
    LampIdOutOfRange { lamp_id: u16, lamp_count: u16 },
    DuplicateLampId { lamp_id: u16 },
    InvalidArgument(Seq<char>),
    Io(IoFailureView),
    Arg(Seq<char>),
}

impl View for IoFailure {
    type V = IoFailureView;

    open spec fn view(&self) -> IoFailureView {
        IoFailureView { kind: self.kind, message: self.message@ }
    }
}

impl View for Error {
    type V = ErrorView;

    open spec fn view(&self) -> ErrorView {
        match self {
            Error::PermissionDenied { path } => ErrorView::PermissionDenied { path: path@ },
            Error::DeviceNotFound { path } => ErrorView::DeviceNotFound { path: path@ },
            Error::MissingReport { report_name } => ErrorView::MissingReport {
                report_name: report_name@,
            },
            Error::NoAutonomousMode => ErrorView::NoAutonomousMode,
            Error::NoMultiUpdate => ErrorView::NoMultiUpdate,
            Error::UnsupportedReportType => ErrorView::UnsupportedReportType,
            Error::TruncatedReport { report_name, expected, got } => ErrorView::TruncatedReport {
                report_name: report_name@,
                expected: *expected as nat,
                got: *got as nat,
            },
            Error::LampIdMismatch { expected, got } => ErrorView::LampIdMismatch {
                expected: *expected,
                got: *got,
            },
            Error::LampIdOutOfRange { lamp_id, lamp_count } => ErrorView::LampIdOutOfRange {
                lamp_id: *lamp_id,
                lamp_count: *lamp_count,
            },
            Error::DuplicateLampId { lamp_id } => ErrorView::DuplicateLampId { lamp_id: *lamp_id },
            Error::InvalidArgument(text) => ErrorView::InvalidArgument(text@),
            Error::Io(failure) => ErrorView::Io(failure@),
            Error::Arg(text) => ErrorView::Arg(text@),
        }
    }
}

impl ErrorView {
    /// What an error says.
    pub open spec fn message(self) -> Seq<char> {
        match self {
            ErrorView::PermissionDenied { path } => "Permission denied on "@ + path,
            ErrorView::DeviceNotFound { path } => "Device not found: "@ + path,
            ErrorView::MissingReport { report_name } => "Device has no '"@ + report_name
                + "' report"@,
            ErrorView::NoAutonomousMode =>
                "This device does not support autonomous mode. Only LampArray (Usage Page 0x59) devices have this feature."@,
            ErrorView::NoMultiUpdate =>
                "Per-lamp color control requires a LampArray device (Usage Page 0x59) with a LampMultiUpdateReport."@,
            ErrorView::UnsupportedReportType =>
                "The RGB channels of this device are in an Input report, which cannot be sent."@,
            ErrorView::TruncatedReport { report_name, expected, got } => "Truncated "@
                + report_name + " report: expected "@ + text::decimal(expected) + " bytes, got "@
                + text::decimal(got),
            ErrorView::LampIdMismatch { expected, got } => "Device answered for lamp "@
                + text::decimal(got as nat) + " instead of lamp "@ + text::decimal(
                expected as nat,
            ),
            ErrorView::LampIdOutOfRange { lamp_id, lamp_count } => "Lamp ID "@ + text::decimal(
                lamp_id as nat,
            ) + " is out of range: the device has "@ + text::decimal(lamp_count as nat)
                + " lamp(s)"@,
            ErrorView::DuplicateLampId { lamp_id } => "Lamp ID "@ + text::decimal(lamp_id as nat)
                + " occurs more than once"@,
            ErrorView::InvalidArgument(text) => text,
            ErrorView::Io(failure) => failure.message,
            ErrorView::Arg(text) => text,
        }
    }
}

impl Error {
    /// What the error says.
    pub fn message(&self) -> (message: String)
        ensures
            message@ == self@.message(),
    {
        match self {
            Error::PermissionDenied { path } => "Permission denied on ".to_string().concat(
                path.as_str(),
            ),
            Error::DeviceNotFound { path } => "Device not found: ".to_string().concat(
                path.as_str(),
            ),
            Error::MissingReport { report_name } => "Device has no '".to_string().concat(
                report_name.as_str(),
            ).concat("' report"),
            Error::NoAutonomousMode =>
                "This device does not support autonomous mode. Only LampArray (Usage Page 0x59) devices have this feature.".to_string(),
            Error::NoMultiUpdate =>
                "Per-lamp color control requires a LampArray device (Usage Page 0x59) with a LampMultiUpdateReport.".to_string(),
            Error::UnsupportedReportType =>
                "The RGB channels of this device are in an Input report, which cannot be sent.".to_string(),
            Error::TruncatedReport { report_name, expected, got } => "Truncated ".to_string().concat(
                report_name,
            ).concat(" report: expected ").concat(
                text::decimal_text(*expected as u64).as_str(),
            ).concat(" bytes, got ").concat(text::decimal_text(*got as u64).as_str()),
            Error::LampIdMismatch { expected, got } =>
                "Device answered for lamp ".to_string().concat(
                text::decimal_text(*got as u64).as_str(),
            ).concat(" instead of lamp ").concat(text::decimal_text(*expected as u64).as_str()),
            Error::LampIdOutOfRange { lamp_id, lamp_count } => "Lamp ID ".to_string().concat(
                text::decimal_text(*lamp_id as u64).as_str(),
            ).concat(" is out of range: the device has ").concat(
                text::decimal_text(*lamp_count as u64).as_str(),
            ).concat(" lamp(s)"),
            Error::DuplicateLampId { lamp_id } => "Lamp ID ".to_string().concat(
                text::decimal_text(*lamp_id as u64).as_str(),
            ).concat(" occurs more than once"),
            Error::InvalidArgument(text) => text.clone(),
            Error::Io(failure) => failure.message.clone(),
            Error::Arg(text) => text.clone(),
        }
    }
}

} // verus!

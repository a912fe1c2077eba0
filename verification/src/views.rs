//! Contracts speak of values through their mathematical views. A view holds what the value holds,
//! field by field, no more and no less.

use vstd::prelude::*;

use crate::cli::args::{Args, Command, CommandView, Invocation, InvocationView, Word};
use crate::cli::command::{Lengths, Step, StepView};
use crate::cli::lexer::{Token, TokenView};
use crate::cli::{args, command, lexer};
use crate::descriptor::discovery::HidrawEntry;
use crate::descriptor::{
    discovery, order, DeviceInfo, DeviceInfoView, LampArrayInfo, LedRgbInfo,
};
use crate::device::lamp::LampArrayAttributes;
use crate::device::led_rgb::LedRgbAttributes;
use crate::device::multi_update::LampColor;
use crate::device::session::{Goal, GoalView, Outcome, OutcomeView, Request, RequestView};
use crate::device::{led_rgb, session};
use crate::error::{Error, ErrorView, IoFailure, IoFailureView};
use crate::text;

verus! {

/// Errors, and failures of device accesses.
pub proof fn views_of_errors(e: Error, failure: IoFailure)
    ensures
        failure@.kind == failure.kind && failure@.message == failure.message@,
        match e {
            Error::PermissionDenied { path } => e@ == (ErrorView::PermissionDenied { path: path@ }),
            Error::DeviceNotFound { path } => e@ == (ErrorView::DeviceNotFound { path: path@ }),
            Error::MissingReport { report_name } => e@ == (ErrorView::MissingReport {
                report_name: report_name@,
            }),
            Error::NoAutonomousMode => e@ is NoAutonomousMode,
            Error::NoMultiUpdate => e@ is NoMultiUpdate,
            Error::UnsupportedReportType => e@ is UnsupportedReportType,
            Error::TruncatedReport { report_name, expected, got } => e@ == (
            ErrorView::TruncatedReport {
                report_name: report_name@,
                expected: expected as nat,
                got: got as nat,
            }),
            Error::LampIdMismatch { expected, got } => e@ == (ErrorView::LampIdMismatch {
                expected,
                got,
            }),
            Error::LampIdOutOfRange { lamp_id, lamp_count } => e@ == (ErrorView::LampIdOutOfRange {
                lamp_id,
                lamp_count,
            }),
            Error::DuplicateLampId { lamp_id } => e@ == (ErrorView::DuplicateLampId { lamp_id }),
            Error::InvalidArgument(text) => e@ == ErrorView::InvalidArgument(text@),
            Error::Io(failure) => e@ == ErrorView::Io(
                IoFailureView { kind: failure.kind, message: failure.message@ },
            ),
            Error::Arg(text) => e@ == ErrorView::Arg(text@),
        },
{
}

/// Devices as they are found, and the entries that they are found in.
pub proof fn views_of_devices(
    array: LampArrayInfo,
    led: LedRgbInfo,
    device: DeviceInfo,
    entry: HidrawEntry,
)
    ensures
        array@.hidraw_path == array.hidraw_path@,
        array@.name == array.name@,
        array@.reports == array.reports,
        led@.hidraw_path == led.hidraw_path@,
        led@.name == led.name@,
        led@.report_id == led.report_id,
        led@.report_size == led.report_size,
        led@.red_offset == led.red_offset,
        led@.green_offset == led.green_offset,
        led@.blue_offset == led.blue_offset,
        led@.intensity_offset == led.intensity_offset,
        led@.channel_size == led.channel_size,
        led@.report_type == led.report_type,
        led@.red_logical_max == led.red_logical_max,
        led@.green_logical_max == led.green_logical_max,
        led@.blue_logical_max == led.blue_logical_max,
        led@.intensity_logical_max == led.intensity_logical_max,
        match device {
            DeviceInfo::LampArray(info) => {
                &&& device@ == DeviceInfoView::LampArray(info@)
                &&& device@.hidraw_path() == info.hidraw_path@
                &&& device@.name() == info.name@
            },
            DeviceInfo::LedRgb(info) => {
                &&& device@ == DeviceInfoView::LedRgb(info@)
                &&& device@.hidraw_path() == info.hidraw_path@
                &&& device@.name() == info.name@
            },
        },
        entry@.name == entry.name@,
        match entry.descriptor {
            Some(bytes) => entry@.descriptor == Some(bytes@),
            None => entry@.descriptor is None,
        },
        match entry.uevent {
            Some(text) => entry@.uevent == Some(text@),
            None => entry@.uevent is None,
        },
{
}

/// What devices say of themselves.
pub proof fn views_of_attributes(a: LampArrayAttributes, led: LedRgbAttributes)
    ensures
        a@.lamp_count == a.lamp_count,
        a@.width_um == a.width_um,
        a@.height_um == a.height_um,
        a@.depth_um == a.depth_um,
        a@.kind == a.kind,
        a@.kind_name == a.kind_name@,
        a@.min_update_interval_us == a.min_update_interval_us,
        led@.name == led.name@,
        led@.path == led.path@,
        led@.protocol == led.protocol@,
        led@.report_id == led.report_id,
        led@.channel_size == led.channel_size,
        led@.has_intensity == led.has_intensity,
{
}

/// Device accesses, what they are for and what they bring.
pub proof fn views_of_conversations(
    request: Request,
    goal: Goal,
    outcome: Outcome,
    reply: Result<Vec<u8>, IoFailure>,
    result: Result<Outcome, Error>,
    sent: Result<(), Error>,
)
    ensures
        match request {
            Request::Open { path } => request@ == (RequestView::Open { path: path@ }),
            Request::GetFeature { report_id, size } => request@ == (RequestView::GetFeature {
                report_id,
                size: size as nat,
            }),
            Request::SetFeature { data } => request@ == (RequestView::SetFeature { data: data@ }),
            Request::WriteOutput { data } => request@ == (RequestView::WriteOutput { data: data@ }),
        },
        match goal {
            Goal::Attributes => goal@ is Attributes,
            Goal::Lamp { index } => goal@ == (GoalView::Lamp { index }),
            Goal::Everything => goal@ is Everything,
            Goal::Autonomous { enabled } => goal@ == (GoalView::Autonomous { enabled }),
            Goal::Color { red, green, blue, intensity } => goal@ == (GoalView::Color {
                red,
                green,
                blue,
                intensity,
            }),
            Goal::LampColors { colors } => goal@ == (GoalView::LampColors { colors: colors@ }),
        },
        match outcome {
            Outcome::Done => outcome@ is Done,
            Outcome::Attributes(a) => outcome@ == OutcomeView::Attributes(a@),
            Outcome::Lamp(lamp) => outcome@ == OutcomeView::Lamp(lamp),
            Outcome::Everything(a, lamps) => outcome@ == OutcomeView::Everything(a@, lamps@),
        },
        match reply {
            Ok(data) => session::reply_view(reply) == Ok::<Seq<u8>, IoFailureView>(data@),
            Err(failure) => session::reply_view(reply) == Err::<Seq<u8>, IoFailureView>(failure@),
        },
        match result {
            Ok(o) => session::result_view(result) == Ok::<OutcomeView, ErrorView>(o@),
            Err(e) => session::result_view(result) == Err::<OutcomeView, ErrorView>(e@),
        },
        match sent {
            Ok(_) => led_rgb::sent_view(sent) is Ok,
            Err(e) => led_rgb::sent_view(sent) == Err::<(), ErrorView>(e@),
        },
{
}

/// Lists, element by element.
pub proof fn views_of_lists(
    texts: Seq<String>,
    lamps: Seq<(u16, String)>,
    lengths: Seq<Lengths>,
    entries: Seq<HidrawEntry>,
    devices: Seq<DeviceInfo>,
    refs: Seq<&HidrawEntry>,
    i: int,
)
    ensures
        text::texts_view(texts).len() == texts.len(),
        0 <= i < texts.len() ==> text::texts_view(texts)[i] == texts[i]@,
        args::lamps_view(lamps).len() == lamps.len(),
        0 <= i < lamps.len() ==> args::lamps_view(lamps)[i] == (lamps[i].0, lamps[i].1@),
        command::lengths_view(lengths).len() == lengths.len(),
        0 <= i < lengths.len() ==> {
            &&& command::lengths_view(lengths)[i] == lengths[i]@
            &&& lengths[i]@.x == lengths[i].x@
            &&& lengths[i]@.y == lengths[i].y@
            &&& lengths[i]@.z == lengths[i].z@
        },
        discovery::entries_view(entries).len() == entries.len(),
        0 <= i < entries.len() ==> discovery::entries_view(entries)[i] == entries[i]@,
        discovery::devices_view(devices).len() == devices.len(),
        0 <= i < devices.len() ==> discovery::devices_view(devices)[i] == devices[i]@,
        order::refs_view(refs).len() == refs.len(),
        0 <= i < refs.len() ==> order::refs_view(refs)[i] == refs[i]@,
{
}

/// Elements of a command line, and what it asks for.
pub proof fn views_of_command_lines(
    token: Token,
    asked: Command,
    invocation: Invocation,
    text: Option<String>,
)
    ensures
        match token {
            Token::Short(c) => token@ == TokenView::Short(c),
            Token::Long(name) => token@ == TokenView::Long(name@),
            Token::Value(raw) => token@ == TokenView::Value(raw),
        },
        match asked {
            Command::List => asked@ is List,
            Command::Get => asked@ is Get,
            Command::SetColor { color, intensity } => asked@ == (CommandView::SetColor {
                color: text::texts_view(color@),
                intensity,
            }),
            Command::SetLamp { lamps, intensity } => asked@ == (CommandView::SetLamp {
                lamps: args::lamps_view(lamps@),
                intensity,
            }),
            Command::Auto { state } => asked@ == (CommandView::Auto { state: state@ }),
        },
        match invocation {
            Invocation::Version => invocation@ is Version,
            Invocation::Help => invocation@ is Help,
            Invocation::Run(Args { path, command }) => invocation@ == (InvocationView::Run {
                path: match path {
                    Some(p) => Some(p@),
                    None => None,
                },
                command: match command {
                    Some(c) => Some(c@),
                    None => None,
                },
            }),
        },
        match text {
            Some(s) => lexer::text_view(text) == Some(s@),
            None => lexer::text_view(text) is None,
        },
{
}

/// What reading a command line, or a part of it, returns.
pub proof fn views_of_readings(
    text: Result<String, Error>,
    lamp: Result<(u16, String), Error>,
    byte: Result<u8, Error>,
    set: Result<(Vec<String>, u8), Error>,
    set_lamp: Result<(Vec<(u16, String)>, u8), Error>,
    word: Result<Word, Error>,
    asked: Result<Command, Error>,
    invocation: Result<Invocation, Error>,
)
    ensures
        args::text_result(text) == match text {
            Ok(s) => Ok::<Seq<char>, ErrorView>(s@),
            Err(e) => Err::<Seq<char>, ErrorView>(e@),
        },
        args::lamp_result(lamp) == match lamp {
            Ok((id, s)) => Ok::<(u16, Seq<char>), ErrorView>((id, s@)),
            Err(e) => Err::<(u16, Seq<char>), ErrorView>(e@),
        },
        args::byte_result(byte) == match byte {
            Ok(v) => Ok::<u8, ErrorView>(v),
            Err(e) => Err::<u8, ErrorView>(e@),
        },
        args::set_result(set) == match set {
            Ok((color, intensity)) => Ok::<(Seq<Seq<char>>, u8), ErrorView>(
                (text::texts_view(color@), intensity),
            ),
            Err(e) => Err::<(Seq<Seq<char>>, u8), ErrorView>(e@),
        },
        args::set_lamp_result(set_lamp) == match set_lamp {
            Ok((lamps, intensity)) => Ok::<(Seq<(u16, Seq<char>)>, u8), ErrorView>(
                (args::lamps_view(lamps@), intensity),
            ),
            Err(e) => Err::<(Seq<(u16, Seq<char>)>, u8), ErrorView>(e@),
        },
        args::word_result(word) == match word {
            Ok(w) => Ok::<Word, ErrorView>(w),
            Err(e) => Err::<Word, ErrorView>(e@),
        },
        args::command_result(asked) == match asked {
            Ok(c) => Ok::<CommandView, ErrorView>(c@),
            Err(e) => Err::<CommandView, ErrorView>(e@),
        },
        args::invocation_result(invocation) == match invocation {
            Ok(i) => Ok::<InvocationView, ErrorView>(i@),
            Err(e) => Err::<InvocationView, ErrorView>(e@),
        },
{
}

/// What is to be done for a command, and the colors of lamps.
pub proof fn views_of_steps(
    step: Step<'_>,
    color: Result<LampColor, Error>,
    colors: Result<Vec<LampColor>, Error>,
)
    ensures
        match step {
            Step::Print { lines } => step@ == (StepView::Print { lines: text::texts_view(lines@) }),
            Step::Complain { lines } => step@ == (StepView::Complain {
                lines: text::texts_view(lines@),
            }),
            Step::Refuse { error } => step@ == (StepView::Refuse { error: error@ }),
            Step::ShowLamps { info } => step@ == (StepView::ShowLamps { info: info@ }),
            Step::SetLamps { info, red, green, blue, intensity } => step@ == (StepView::SetLamps {
                info: info@,
                red,
                green,
                blue,
                intensity,
            }),
            Step::SetLed { info, red, green, blue, intensity } => step@ == (StepView::SetLed {
                info: info@,
                red,
                green,
                blue,
                intensity,
            }),
            Step::SetEach { info, colors } => step@ == (StepView::SetEach {
                info: info@,
                colors: colors@,
            }),
            Step::Switch { info, enabled } => step@ == (StepView::Switch { info: info@, enabled }),
        },
        command::lamp_color_result(color) == match color {
            Ok(c) => Ok::<LampColor, ErrorView>(c),
            Err(e) => Err::<LampColor, ErrorView>(e@),
        },
        command::lamp_colors_result(colors) == match colors {
            Ok(c) => Ok::<Seq<LampColor>, ErrorView>(c@),
            Err(e) => Err::<Seq<LampColor>, ErrorView>(e@),
        },
{
}

} // verus!

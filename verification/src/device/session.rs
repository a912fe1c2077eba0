//! Conversations with a LampArray device.
//!
//! Every operation on a LampArray is a conversation: the host sends or reads reports, and what
//! comes back decides how it goes on. A [`LampArraySession`] holds the state of one conversation.
//! It says which device access is due, takes what the access returned, and ends with an outcome.
//! It performs no access itself.

use vstd::prelude::*;

use crate::descriptor::{LampArrayReports, LampReport, ReportInfo};
use crate::device::lamp;
use crate::device::lamp::{LampArrayAttributes, LampArrayAttributesView, LampAttributes};
use crate::device::multi_update;
use crate::device::multi_update::LampColor;
use crate::device::scale;
use crate::device::update;
use crate::device::update::Channel;
use crate::error::{Error, ErrorView, IoFailure, IoFailureView, IoKind};

verus! {

/// One device access.
#[derive(Debug, Clone)]
pub enum Request {
    /// Open the device for reading and writing.
    Open { path: String },
    /// Read a Feature report of `size` data bytes (HIDIOCGFEATURE).
    GetFeature { report_id: u8, size: usize },
    /// Write a Feature report (HIDIOCSFEATURE).
    SetFeature { data: Vec<u8> },
    /// Write an Output report.
    WriteOutput { data: Vec<u8> },
}

/// `Request` over mathematical values.
pub enum RequestView {
    Open { path: Seq<char> },
    GetFeature { report_id: u8, size: nat },
    SetFeature { data: Seq<u8> },
    WriteOutput { data: Seq<u8> },
}

impl View for Request {
    type V = RequestView;

    open spec fn view(&self) -> RequestView {
        match self {
            Request::Open { path } => RequestView::Open { path: path@ },
            Request::GetFeature { report_id, size } => RequestView::GetFeature {
                report_id: *report_id,
                size: *size as nat,
            },
            Request::SetFeature { data } => RequestView::SetFeature { data: data@ },
            Request::WriteOutput { data } => RequestView::WriteOutput { data: data@ },
        }
    }
}

/// What a device access returned, over mathematical values: the bytes that were read, which are
/// of no interest except after `GetFeature`, or the failure.
pub open spec fn reply_view(reply: Result<Vec<u8>, IoFailure>) -> Result<Seq<u8>, IoFailureView> {
    match reply {
        Ok(data) => Ok(data@),
        Err(failure) => Err(failure@),
    }
}

/// What a conversation is for.
#[derive(Debug, Clone)]
pub enum Goal {
    /// Read the device's attributes.
    Attributes,
    /// Read the attributes of one lamp.
    Lamp { index: u16 },
    /// Read the attributes of the device and of all its lamps.
    Everything,
    /// Turn AutonomousMode on or off.
    Autonomous { enabled: bool },
    /// Set all lamps to one color.
    Color { red: u8, green: u8, blue: u8, intensity: u8 },
    /// Set individual lamps to individual colors.
    LampColors { colors: Vec<LampColor> },
}

/// `Goal` over mathematical values.
pub enum GoalView {
    Attributes,
    Lamp { index: u16 },
    Everything,
    Autonomous { enabled: bool },
    Color { red: u8, green: u8, blue: u8, intensity: u8 },
    LampColors { colors: Seq<LampColor> },
}

impl View for Goal {
    type V = GoalView;

    open spec fn view(&self) -> GoalView {
        match self {
            Goal::Attributes => GoalView::Attributes,
            Goal::Lamp { index } => GoalView::Lamp { index: *index },
            Goal::Everything => GoalView::Everything,
            Goal::Autonomous { enabled } => GoalView::Autonomous { enabled: *enabled },
            Goal::Color { red, green, blue, intensity } => GoalView::Color {
                red: *red,
                green: *green,
                blue: *blue,
                intensity: *intensity,
            },
            Goal::LampColors { colors } => GoalView::LampColors { colors: colors@ },
        }
    }
}

/// What a conversation brought.
#[derive(Debug, Clone)]
pub enum Outcome {
    /// The device took everything.
    Done,
    Attributes(LampArrayAttributes),
    Lamp(LampAttributes),
    Everything(LampArrayAttributes, Vec<LampAttributes>),
}

/// `Outcome` over mathematical values.
pub enum OutcomeView {
    Done,
    Attributes(LampArrayAttributesView),
    Lamp(LampAttributes),
    Everything(LampArrayAttributesView, Seq<LampAttributes>),
}

impl View for Outcome {
    type V = OutcomeView;

    open spec fn view(&self) -> OutcomeView {
        match self {
            Outcome::Done => OutcomeView::Done,
            Outcome::Attributes(a) => OutcomeView::Attributes(a@),
            Outcome::Lamp(lamp) => OutcomeView::Lamp(*lamp),
            Outcome::Everything(a, lamps) => OutcomeView::Everything(a@, lamps@),
        }
    }
}

/// The result of a conversation over mathematical values.
pub open spec fn result_view(r: Result<Outcome, Error>) -> Result<OutcomeView, ErrorView> {
    match r {
        Ok(outcome) => Ok(outcome@),
        Err(e) => Err(e@),
    }
}

/// How far a conversation has come: the access that is due, or its end.
#[derive(Debug)]
enum Phase {
    Opening,
    SwitchingMode { enabled: bool },
    ReadingAttributes,
    RequestingLamp { index: u16 },
    ReadingLamp { index: u16 },
    RequestingLamps { attributes: LampArrayAttributes },
    ReadingLamps { attributes: LampArrayAttributes, lamps: Vec<LampAttributes> },
    SendingRange { last: u16, red: u8, green: u8, blue: u8, intensity: u8 },
    SendingBatch { colors: Vec<LampColor>, sent: usize },
    Finished(Result<Outcome, Error>),
}

/// `Phase` over mathematical values.
#[allow(inconsistent_fields)]
pub enum PhaseView {
    Opening,
    SwitchingMode { enabled: bool },
    ReadingAttributes,
    RequestingLamp { index: u16 },
    ReadingLamp { index: u16 },
    RequestingLamps { attributes: LampArrayAttributesView },
    ReadingLamps { attributes: LampArrayAttributesView, lamps: Seq<LampAttributes> },
    SendingRange { last: u16, red: u8, green: u8, blue: u8, intensity: u8 },
    SendingBatch { colors: Seq<LampColor>, sent: nat },
    Finished(Result<OutcomeView, ErrorView>),
}

impl View for Phase {
    type V = PhaseView;

    closed spec fn view(&self) -> PhaseView {
        match self {
            Phase::Opening => PhaseView::Opening,
            Phase::SwitchingMode { enabled } => PhaseView::SwitchingMode { enabled: *enabled },
            Phase::ReadingAttributes => PhaseView::ReadingAttributes,
            Phase::RequestingLamp { index } => PhaseView::RequestingLamp { index: *index },
            Phase::ReadingLamp { index } => PhaseView::ReadingLamp { index: *index },
            Phase::RequestingLamps { attributes } => PhaseView::RequestingLamps {
                attributes: attributes@,
            },
            Phase::ReadingLamps { attributes, lamps } => PhaseView::ReadingLamps {
                attributes: attributes@,
                lamps: lamps@,
            },
            Phase::SendingRange { last, red, green, blue, intensity } => PhaseView::SendingRange {
                last: *last,
                red: *red,
                green: *green,
                blue: *blue,
                intensity: *intensity,
            },
            Phase::SendingBatch { colors, sent } => PhaseView::SendingBatch {
                colors: colors@,
                sent: *sent as nat,
            },
            Phase::Finished(r) => PhaseView::Finished(result_view(*r)),
        }
    }
}

/// What stays the same during a conversation.
#[derive(Debug)]
struct Setup {
    path: String,
    reports: LampArrayReports,
    goal: Goal,
}

/// The state of a conversation with a LampArray device.
#[derive(Debug)]
pub struct LampArraySession {
    setup: Setup,
    phase: Phase,
}

/// What stays the same during a conversation, over mathematical values.
pub struct SetupView {
    pub path: Seq<char>,
    pub reports: LampArrayReports,
    pub goal: GoalView,
}

/// The state of a conversation over mathematical values.
pub struct SessionView {
    pub setup: SetupView,
    pub phase: PhaseView,
}

impl View for Setup {
    type V = SetupView;

    closed spec fn view(&self) -> SetupView {
        SetupView { path: self.path@, reports: self.reports, goal: self.goal@ }
    }
}

impl View for LampArraySession {
    type V = SessionView;

    closed spec fn view(&self) -> SessionView {
        SessionView { setup: self.setup@, phase: self.phase@ }
    }
}

/// The error for a device that cannot be opened.
pub open spec fn open_failure(path: Seq<char>, failure: IoFailureView) -> ErrorView {
    match failure.kind {
        IoKind::PermissionDenied => ErrorView::PermissionDenied { path },
        IoKind::NotFound => ErrorView::DeviceNotFound { path },
        IoKind::Other => ErrorView::Io(failure),
    }
}

/// The error for a device that cannot be opened.
pub fn open_error(path: &str, failure: IoFailure) -> (e: Error)
    ensures
        e@ == open_failure(path@, failure@),
{
    match failure.kind {
        IoKind::PermissionDenied => Error::PermissionDenied { path: path.to_string() },
        IoKind::NotFound => Error::DeviceNotFound { path: path.to_string() },
        IoKind::Other => Error::Io(failure),
    }
}

/// The name under which a multi-update report without room for a lamp is missed.
pub open spec fn no_slots() -> ErrorView {
    ErrorView::MissingReport { report_name: "multi_update (invalid size)"@ }
}

/// The end of a conversation that lacks a report.
pub open spec fn missing(report: LampReport) -> PhaseView {
    PhaseView::Finished(Err(ErrorView::MissingReport { report_name: report.spec_name() }))
}

/// The successful end of a conversation.
pub open spec fn finished(outcome: OutcomeView) -> PhaseView {
    PhaseView::Finished(Ok(outcome))
}

/// The end of a conversation with an error.
pub open spec fn failed(e: ErrorView) -> PhaseView {
    PhaseView::Finished(Err(e))
}

impl PhaseView {
    /// The report that the access due in this phase needs, if it needs one.
    pub open spec fn report(self) -> Option<LampReport> {
        match self {
            PhaseView::Opening => None,
            PhaseView::SwitchingMode { .. } => Some(LampReport::Control),
            PhaseView::ReadingAttributes => Some(LampReport::Attributes),
            PhaseView::RequestingLamp { .. } => Some(LampReport::AttrRequest),
            PhaseView::ReadingLamp { .. } => Some(LampReport::AttrResponse),
            PhaseView::RequestingLamps { .. } => Some(LampReport::AttrRequest),
            PhaseView::ReadingLamps { .. } => Some(LampReport::AttrResponse),
            PhaseView::SendingRange { .. } => Some(LampReport::RangeUpdate),
            PhaseView::SendingBatch { .. } => Some(LampReport::MultiUpdate),
            PhaseView::Finished(_) => None,
        }
    }
}

impl SetupView {
    /// A phase that needs `report`, or the end where the device does not have it.
    pub open spec fn enter(self, report: LampReport, phase: PhaseView) -> PhaseView {
        if self.reports.spec_get(report) is Some {
            phase
        } else {
            missing(report)
        }
    }

    /// The number of lamps that one multi-update report has room for.
    pub open spec fn slots(self) -> nat {
        match self.reports.multi_update {
            Some(info) => multi_update::slots_in(info.size as nat),
            None => 0,
        }
    }

    /// Where a conversation starts. Updates look for their report before the device is opened,
    /// and an update of no lamps is done at once.
    pub open spec fn start(self) -> PhaseView {
        match self.goal {
            GoalView::Color { .. } => self.enter(LampReport::RangeUpdate, PhaseView::Opening),
            GoalView::LampColors { colors } => if colors.len() == 0 {
                finished(OutcomeView::Done)
            } else if self.reports.multi_update is None {
                missing(LampReport::MultiUpdate)
            } else if self.slots() == 0 {
                failed(no_slots())
            } else {
                PhaseView::Opening
            },
            _ => PhaseView::Opening,
        }
    }

    /// After the device was opened. Updates first turn AutonomousMode off, where the device has
    /// such a mode.
    pub open spec fn opened(self) -> PhaseView {
        match self.goal {
            GoalView::Attributes => self.enter(
                LampReport::Attributes,
                PhaseView::ReadingAttributes,
            ),
            GoalView::Everything => self.enter(
                LampReport::Attributes,
                PhaseView::ReadingAttributes,
            ),
            GoalView::Lamp { index } => self.enter(
                LampReport::AttrRequest,
                PhaseView::RequestingLamp { index },
            ),
            GoalView::Autonomous { enabled } => self.enter(
                LampReport::Control,
                PhaseView::SwitchingMode { enabled },
            ),
            _ => self.try_switch(false),
        }
    }

    /// Switches the mode where the device has a LampArrayControlReport, and goes on without where
    /// it has none (Section 26.10.1: "If this field is absent, it means no autonomous mode is
    /// supported.").
    pub open spec fn try_switch(self, enabled: bool) -> PhaseView {
        if self.reports.control is Some {
            PhaseView::SwitchingMode { enabled }
        } else {
            self.switched()
        }
    }

    /// After the mode was switched.
    pub open spec fn switched(self) -> PhaseView {
        if self.goal is Autonomous {
            finished(OutcomeView::Done)
        } else {
            self.enter(LampReport::Attributes, PhaseView::ReadingAttributes)
        }
    }

    /// After the device's attributes were read.
    pub open spec fn attributes_read(self, attributes: LampArrayAttributesView) -> PhaseView {
        if self.goal is Attributes {
            finished(OutcomeView::Attributes(attributes))
        } else if attributes.lamp_count == 0 {
            self.surveyed(attributes, Seq::empty())
        } else {
            self.enter(LampReport::AttrRequest, PhaseView::RequestingLamps { attributes })
        }
    }

    /// After one of the lamps was read, in the sequence of all lamps. Each answer has to be for
    /// the lamp whose turn it is.
    pub open spec fn lamp_read(
        self,
        attributes: LampArrayAttributesView,
        lamps: Seq<LampAttributes>,
        lamp: LampAttributes,
    ) -> PhaseView {
        if lamp.lamp_id != lamps.len() {
            failed(
                ErrorView::LampIdMismatch { expected: lamps.len() as u16, got: lamp.lamp_id },
            )
        } else if lamps.len() + 1 < attributes.lamp_count {
            PhaseView::ReadingLamps { attributes, lamps: lamps.push(lamp) }
        } else {
            self.surveyed(attributes, lamps.push(lamp))
        }
    }

    /// After the device and all its lamps were read.
    pub open spec fn surveyed(
        self,
        attributes: LampArrayAttributesView,
        lamps: Seq<LampAttributes>,
    ) -> PhaseView {
        match self.goal {
            GoalView::Color { red, green, blue, intensity } => if attributes.lamp_count == 0 {
                finished(OutcomeView::Done)
            } else {
                PhaseView::SendingRange {
                    last: (attributes.lamp_count - 1) as u16,
                    red: scale::scaled(red, update::level_limit(lamps, Channel::Red)),
                    green: scale::scaled(green, update::level_limit(lamps, Channel::Green)),
                    blue: scale::scaled(blue, update::level_limit(lamps, Channel::Blue)),
                    intensity: scale::scaled(
                        intensity,
                        update::level_limit(lamps, Channel::Intensity),
                    ),
                }
            },
            GoalView::LampColors { colors } => match update::id_error(
                colors,
                attributes.lamp_count,
            ) {
                Some(e) => failed(e),
                None => PhaseView::SendingBatch {
                    colors: update::scaled_colors(colors, lamps),
                    sent: 0,
                },
            },
            _ => finished(OutcomeView::Everything(attributes, lamps)),
        }
    }

    /// After a batch was sent.
    pub open spec fn batch_sent(self, colors: Seq<LampColor>, sent: nat) -> PhaseView {
        if sent + 1 < multi_update::batch_count(colors.len(), self.slots()) {
            PhaseView::SendingBatch { colors, sent: sent + 1 }
        } else {
            finished(OutcomeView::Done)
        }
    }

    /// After a successful access.
    pub open spec fn answered(self, phase: PhaseView, data: Seq<u8>) -> PhaseView {
        match phase {
            PhaseView::Opening => self.opened(),
            PhaseView::SwitchingMode { .. } => self.switched(),
            PhaseView::ReadingAttributes => match lamp::attributes_response(data) {
                Ok(attributes) => self.attributes_read(attributes),
                Err(e) => failed(e),
            },
            PhaseView::RequestingLamp { index } => self.enter(
                LampReport::AttrResponse,
                PhaseView::ReadingLamp { index },
            ),
            PhaseView::ReadingLamp { index } => match lamp::lamp_response(data) {
                Ok(lamp) => if lamp.lamp_id == index {
                    finished(OutcomeView::Lamp(lamp))
                } else {
                    failed(ErrorView::LampIdMismatch { expected: index, got: lamp.lamp_id })
                },
                Err(e) => failed(e),
            },
            PhaseView::RequestingLamps { attributes } => self.enter(
                LampReport::AttrResponse,
                PhaseView::ReadingLamps { attributes, lamps: Seq::empty() },
            ),
            PhaseView::ReadingLamps { attributes, lamps } => match lamp::lamp_response(data) {
                Ok(lamp) => self.lamp_read(attributes, lamps, lamp),
                Err(e) => failed(e),
            },
            PhaseView::SendingRange { .. } => finished(OutcomeView::Done),
            PhaseView::SendingBatch { colors, sent } => self.batch_sent(colors, sent),
            PhaseView::Finished(r) => PhaseView::Finished(r),
        }
    }

    /// After a failed access: the conversation is over.
    pub open spec fn refused(self, phase: PhaseView, failure: IoFailureView) -> PhaseView {
        match phase {
            PhaseView::Finished(r) => PhaseView::Finished(r),
            PhaseView::Opening => failed(open_failure(self.path, failure)),
            _ => failed(ErrorView::Io(failure)),
        }
    }
}

impl SessionView {
    /// The state after an access returned.
    pub open spec fn step(self, reply: Result<Seq<u8>, IoFailureView>) -> SessionView {
        SessionView {
            setup: self.setup,
            phase: match reply {
                Ok(data) => self.setup.answered(self.phase, data),
                Err(failure) => self.setup.refused(self.phase, failure),
            },
        }
    }

    /// The information on the report that the access due needs.
    pub open spec fn report_info(self) -> ReportInfo {
        self.setup.reports.spec_get(self.phase.report()->0)->0
    }

    /// Whether the report to be sent is declared long enough for its fields, and not longer than
    /// memory can hold.
    pub open spec fn fits(self) -> bool {
        let size = self.report_info().size;
        match self.phase {
            PhaseView::SwitchingMode { .. } => 1 <= size < isize::MAX,
            PhaseView::RequestingLamp { .. } => 2 <= size < isize::MAX,
            PhaseView::RequestingLamps { .. } => size < isize::MAX,
            PhaseView::SendingRange { .. } => 9 <= size < isize::MAX,
            PhaseView::SendingBatch { .. } => size < isize::MAX,
            _ => true,
        }
    }

    /// The access that is due.
    pub open spec fn request(self) -> Option<RequestView> {
        let id = self.report_info().report_id;
        let size = self.report_info().size as nat;
        match self.phase {
            PhaseView::Opening => Some(RequestView::Open { path: self.setup.path }),
            PhaseView::SwitchingMode { enabled } => Some(
                RequestView::SetFeature { data: update::control_report(id, size, enabled) },
            ),
            PhaseView::ReadingAttributes => Some(RequestView::GetFeature { report_id: id, size }),
            PhaseView::RequestingLamp { index } => Some(
                RequestView::SetFeature { data: update::lamp_request(id, size, index) },
            ),
            PhaseView::ReadingLamp { .. } => Some(RequestView::GetFeature { report_id: id, size }),
            PhaseView::RequestingLamps { .. } => Some(
                RequestView::SetFeature { data: update::first_lamp_request(id, size) },
            ),
            PhaseView::ReadingLamps { .. } => Some(RequestView::GetFeature { report_id: id, size }),
            PhaseView::SendingRange { last, red, green, blue, intensity } => Some(
                RequestView::SetFeature {
                    data: update::range_report(id, size, last, red, green, blue, intensity),
                },
            ),
            PhaseView::SendingBatch { colors, sent } => Some(
                RequestView::SetFeature {
                    data: multi_update::update_reports(id, size, colors)[sent as int],
                },
            ),
            PhaseView::Finished(_) => None,
        }
    }

    /// What holds of every conversation at every point.
    pub open spec fn wf(self) -> bool {
        // The report for the access due is there.
        &&& self.phase.report() is Some ==> self.setup.reports.spec_get(
            self.phase.report()->0,
        ) is Some
        // An update under way has its report, with room for at least one lamp.
        &&& !(self.phase is Finished) ==> match self.setup.goal {
            GoalView::Color { .. } => self.setup.reports.range_update is Some,
            GoalView::LampColors { colors } => self.setup.slots() > 0 && colors.len() > 0,
            _ => true,
        }
        // The phase serves the goal.
        &&& match self.phase {
            PhaseView::Opening => true,
            PhaseView::SwitchingMode { enabled } => match self.setup.goal {
                GoalView::Autonomous { enabled: wanted } => enabled == wanted,
                GoalView::Color { .. } => !enabled,
                GoalView::LampColors { .. } => !enabled,
                _ => false,
            },
            PhaseView::ReadingAttributes => !(self.setup.goal is Lamp)
                && !(self.setup.goal is Autonomous),
            PhaseView::RequestingLamp { index } => self.setup.goal == (GoalView::Lamp { index }),
            PhaseView::ReadingLamp { index } => self.setup.goal == (GoalView::Lamp { index }),
            PhaseView::RequestingLamps { attributes } => {
                &&& self.setup.goal.needs_all_lamps()
                &&& attributes.lamp_count > 0
            },
            PhaseView::ReadingLamps { attributes, lamps } => {
                &&& self.setup.goal.needs_all_lamps()
                &&& lamps.len() < attributes.lamp_count
                &&& in_order(lamps)
            },
            PhaseView::SendingRange { .. } => self.setup.goal is Color,
            PhaseView::SendingBatch { colors, sent } => {
                &&& self.setup.goal is LampColors
                &&& colors.len() == self.setup.goal->colors.len()
                &&& sent < multi_update::batch_count(colors.len(), self.setup.slots())
            },
            PhaseView::Finished(Ok(OutcomeView::Done)) => match self.setup.goal {
                GoalView::Autonomous { .. } => true,
                GoalView::Color { .. } => true,
                GoalView::LampColors { .. } => true,
                _ => false,
            },
            PhaseView::Finished(Ok(OutcomeView::Attributes(_))) => self.setup.goal is Attributes,
            PhaseView::Finished(Ok(OutcomeView::Lamp(lamp))) => self.setup.goal == (
            GoalView::Lamp { index: lamp.lamp_id }),
            PhaseView::Finished(Ok(OutcomeView::Everything(attributes, lamps))) => {
                &&& self.setup.goal is Everything
                &&& lamps.len() == attributes.lamp_count
                &&& in_order(lamps)
            },
            PhaseView::Finished(Err(_)) => true,
        }
    }
}

impl GoalView {
    /// Whether the conversation reads all lamps.
    pub open spec fn needs_all_lamps(self) -> bool {
        self is Everything || self is Color || self is LampColors
    }
}

/// The lamps of a device in the order of their IDs, beginning with 0.
pub open spec fn in_order(lamps: Seq<LampAttributes>) -> bool {
    forall|i: int| 0 <= i < lamps.len() ==> (#[trigger] lamps[i]).lamp_id == i
}

/// The start of a conversation is well-formed.
pub proof fn start_wf(setup: SetupView)
    ensures
        (SessionView { setup, phase: setup.start() }).wf(),
{
}

proof fn surveyed_wf(
    setup: SetupView,
    attributes: LampArrayAttributesView,
    lamps: Seq<LampAttributes>,
)
    requires
        setup.goal.needs_all_lamps(),
        lamps.len() == attributes.lamp_count,
        in_order(lamps),
        match setup.goal {
            GoalView::Color { .. } => setup.reports.range_update is Some,
            GoalView::LampColors { colors } => setup.slots() > 0 && colors.len() > 0,
            _ => true,
        },
    ensures
        (SessionView { setup, phase: setup.surveyed(attributes, lamps) }).wf(),
{
    if let GoalView::LampColors { colors } = setup.goal {
        let slots = setup.slots();
        assert(0 < multi_update::batch_count(colors.len(), slots)) by (nonlinear_arith)
            requires
                slots > 0,
                colors.len() > 0,
                multi_update::batch_count(colors.len(), slots) == (colors.len() + slots - 1)
                    / slots as int,
        ;
    }
}

/// Whatever an access returns, the conversation stays well-formed.
pub proof fn step_wf(s: SessionView, reply: Result<Seq<u8>, IoFailureView>)
    requires
        s.wf(),
    ensures
        s.step(reply).wf(),
{
    if let Ok(data) = reply {
        match s.phase {
            PhaseView::ReadingAttributes => {
                if let Ok(attributes) = lamp::attributes_response(data) {
                    if attributes.lamp_count == 0 && !(s.setup.goal is Attributes) {
                        surveyed_wf(s.setup, attributes, Seq::empty());
                    }
                }
            },
            PhaseView::ReadingLamps { attributes, lamps } => {
                if let Ok(lamp) = lamp::lamp_response(data) {
                    if lamp.lamp_id == lamps.len() && lamps.len() + 1 == attributes.lamp_count {
                        surveyed_wf(s.setup, attributes, lamps.push(lamp));
                    }
                }
            },
            _ => {},
        }
    }
}

/// The start of a conversation with the device at `path`.
pub open spec fn conversation(
    path: Seq<char>,
    reports: LampArrayReports,
    goal: GoalView,
) -> SessionView {
    let setup = SetupView { path, reports, goal };
    SessionView { setup, phase: setup.start() }
}

/// The end of a conversation that lacks a report.
fn missing_report(report: LampReport) -> (phase: Phase)
    ensures
        phase@ == missing(report),
{
    Phase::Finished(Err(Error::MissingReport { report_name: report.name().to_string() }))
}

impl Setup {
    fn enter(&self, report: LampReport, phase: Phase) -> (r: Phase)
        ensures
            r@ == self@.enter(report, phase@),
    {
        if self.reports.get(report).is_some() {
            phase
        } else {
            missing_report(report)
        }
    }

    fn start(&self) -> (r: Phase)
        ensures
            r@ == self@.start(),
    {
        match &self.goal {
            Goal::Color { .. } => self.enter(LampReport::RangeUpdate, Phase::Opening),
            Goal::LampColors { colors } => {
                if colors.len() == 0 {
                    return Phase::Finished(Ok(Outcome::Done));
                }
                match self.reports.multi_update {
                    None => missing_report(LampReport::MultiUpdate),
                    Some(info) => if multi_update::slot_count(info.size) == 0 {
                        Phase::Finished(
                            Err(
                                Error::MissingReport {
                                    report_name: "multi_update (invalid size)".to_string(),
                                },
                            ),
                        )
                    } else {
                        Phase::Opening
                    },
                }
            },
            _ => Phase::Opening,
        }
    }

    fn opened(&self) -> (r: Phase)
        ensures
            r@ == self@.opened(),
    {
        match &self.goal {
            Goal::Attributes => self.enter(LampReport::Attributes, Phase::ReadingAttributes),
            Goal::Everything => self.enter(LampReport::Attributes, Phase::ReadingAttributes),
            Goal::Lamp { index } => self.enter(
                LampReport::AttrRequest,
                Phase::RequestingLamp { index: *index },
            ),
            Goal::Autonomous { enabled } => self.enter(
                LampReport::Control,
                Phase::SwitchingMode { enabled: *enabled },
            ),
            _ => self.try_switch(false),
        }
    }

    fn try_switch(&self, enabled: bool) -> (r: Phase)
        ensures
            r@ == self@.try_switch(enabled),
    {
        if self.reports.control.is_some() {
            Phase::SwitchingMode { enabled }
        } else {
            self.switched()
        }
    }

    fn switched(&self) -> (r: Phase)
        ensures
            r@ == self@.switched(),
    {
        match &self.goal {
            Goal::Autonomous { .. } => Phase::Finished(Ok(Outcome::Done)),
            _ => self.enter(LampReport::Attributes, Phase::ReadingAttributes),
        }
    }

    fn attributes_read(&self, attributes: LampArrayAttributes) -> (r: Phase)
        ensures
            r@ == self@.attributes_read(attributes@),
    {
        match &self.goal {
            Goal::Attributes => Phase::Finished(Ok(Outcome::Attributes(attributes))),
            _ => if attributes.lamp_count == 0 {
                self.surveyed(attributes, Vec::new())
            } else {
                self.enter(LampReport::AttrRequest, Phase::RequestingLamps { attributes })
            },
        }
    }

    fn lamp_read(
        &self,
        attributes: LampArrayAttributes,
        lamps: Vec<LampAttributes>,
        lamp: LampAttributes,
    ) -> (r: Phase)
        requires
            lamps@.len() < attributes.lamp_count,
        ensures
            r@ == self@.lamp_read(attributes@, lamps@, lamp),
    {
        let expected: u16 = lamps.len() as u16;
        if lamp.lamp_id != expected {
            return Phase::Finished(
                Err(Error::LampIdMismatch { expected, got: lamp.lamp_id }),
            );
        }
        let mut lamps: Vec<LampAttributes> = lamps;
        lamps.push(lamp);
        if lamps.len() < attributes.lamp_count as usize {
            Phase::ReadingLamps { attributes, lamps }
        } else {
            self.surveyed(attributes, lamps)
        }
    }

    fn surveyed(&self, attributes: LampArrayAttributes, lamps: Vec<LampAttributes>) -> (r: Phase)
        requires
            lamps@.len() == attributes.lamp_count,
        ensures
            r@ == self@.surveyed(attributes@, lamps@),
    {
        match &self.goal {
            Goal::Color { red, green, blue, intensity } => if attributes.lamp_count == 0 {
                Phase::Finished(Ok(Outcome::Done))
            } else {
                let (max_r, max_g, max_b, max_i) = update::color_limits(&lamps);
                Phase::SendingRange {
                    last: attributes.lamp_count - 1,
                    red: scale::scale_u8(*red, max_r),
                    green: scale::scale_u8(*green, max_g),
                    blue: scale::scale_u8(*blue, max_b),
                    intensity: scale::scale_u8(*intensity, max_i),
                }
            },
            Goal::LampColors { colors } => {
                match update::check_ids(colors, attributes.lamp_count) {
                    Err(e) => Phase::Finished(Err(e)),
                    Ok(_) => {
                        proof {
                            update::accepted_ids(colors@, attributes.lamp_count);
                        }
                        Phase::SendingBatch {
                            colors: update::scale_colors(colors, &lamps),
                            sent: 0,
                        }
                    },
                }
            },
            _ => Phase::Finished(Ok(Outcome::Everything(attributes, lamps))),
        }
    }

    fn batch_sent(&self, colors: Vec<LampColor>, sent: usize) -> (r: Phase)
        requires
            self@.slots() > 0,
            sent < multi_update::batch_count(colors@.len(), self@.slots()),
        ensures
            r@ == self@.batch_sent(colors@, sent as nat),
    {
        match self.reports.multi_update {
            Some(info) => {
                if multi_update::is_last_batch(colors.len(), multi_update::slot_count(info.size), sent) {
                    Phase::Finished(Ok(Outcome::Done))
                } else {
                    Phase::SendingBatch { colors, sent: sent + 1 }
                }
            },
            None => Phase::Finished(Ok(Outcome::Done)),
        }
    }
}

impl LampArraySession {
    #[verifier::type_invariant]
    spec fn inv(self) -> bool {
        self@.wf()
    }

    /// Starts a conversation with the device at `path`.
    pub fn begin(path: &str, reports: &LampArrayReports, goal: Goal) -> (s: LampArraySession)
        ensures
            s@ == conversation(path@, *reports, goal@),
    {
        let setup = Setup { path: path.to_string(), reports: *reports, goal };
        let phase = setup.start();
        proof {
            start_wf(setup@);
        }
        LampArraySession { setup, phase }
    }

    /// Whether the report to be sent is declared long enough for its fields.
    ///
    /// A report that is not cannot be built, and no request can be had in its phase.
    pub fn fits(&self) -> (b: bool)
        ensures
            b == self@.fits(),
    {
        proof {
            use_type_invariant(&*self);
        }
        let limit: usize = isize::MAX as usize;
        match &self.phase {
            Phase::SwitchingMode { .. } => match self.setup.reports.control {
                Some(info) => 1 <= info.size && info.size < limit,
                None => false,
            },
            Phase::RequestingLamp { .. } => match self.setup.reports.attr_request {
                Some(info) => 2 <= info.size && info.size < limit,
                None => false,
            },
            Phase::RequestingLamps { .. } => match self.setup.reports.attr_request {
                Some(info) => info.size < limit,
                None => false,
            },
            Phase::SendingRange { .. } => match self.setup.reports.range_update {
                Some(info) => 9 <= info.size && info.size < limit,
                None => false,
            },
            Phase::SendingBatch { .. } => match self.setup.reports.multi_update {
                Some(info) => info.size < limit,
                None => false,
            },
            _ => true,
        }
    }

    /// The access that is due, or `None` at the end of the conversation.
    pub fn request(&self) -> (r: Option<Request>)
        requires
            self@.fits(),
        ensures
            match r {
                Some(q) => self@.request() == Some(q@),
                None => self@.request() is None,
            },
    {
        proof {
            use_type_invariant(&*self);
        }
        let reports: LampArrayReports = self.setup.reports;
        match &self.phase {
            Phase::Opening => Some(Request::Open { path: self.setup.path.clone() }),
            Phase::SwitchingMode { enabled } => match reports.control {
                Some(info) => Some(
                    Request::SetFeature {
                        data: update::build_control_report(info.report_id, info.size, *enabled),
                    },
                ),
                None => None,
            },
            Phase::ReadingAttributes => match reports.attributes {
                Some(info) => Some(
                    Request::GetFeature { report_id: info.report_id, size: info.size },
                ),
                None => None,
            },
            Phase::RequestingLamp { index } => match reports.attr_request {
                Some(info) => Some(
                    Request::SetFeature {
                        data: update::build_lamp_request(info.report_id, info.size, *index),
                    },
                ),
                None => None,
            },
            Phase::ReadingLamp { .. } => match reports.attr_response {
                Some(info) => Some(
                    Request::GetFeature { report_id: info.report_id, size: info.size },
                ),
                None => None,
            },
            Phase::RequestingLamps { .. } => match reports.attr_request {
                Some(info) => Some(
                    Request::SetFeature {
                        data: update::build_first_lamp_request(info.report_id, info.size),
                    },
                ),
                None => None,
            },
            Phase::ReadingLamps { .. } => match reports.attr_response {
                Some(info) => Some(
                    Request::GetFeature { report_id: info.report_id, size: info.size },
                ),
                None => None,
            },
            Phase::SendingRange { last, red, green, blue, intensity } => match reports.range_update {
                Some(info) => Some(
                    Request::SetFeature {
                        data: update::build_range_report(
                            info.report_id,
                            info.size,
                            *last,
                            *red,
                            *green,
                            *blue,
                            *intensity,
                        ),
                    },
                ),
                None => None,
            },
            Phase::SendingBatch { colors, sent } => match reports.multi_update {
                Some(info) => Some(
                    Request::SetFeature {
                        data: multi_update::build_update_report(
                            info.report_id,
                            info.size,
                            colors,
                            *sent,
                        ),
                    },
                ),
                None => None,
            },
            Phase::Finished(_) => None,
        }
    }

    /// Goes on with what the access that was due returned: the bytes that were read, which
    /// matter after `GetFeature` alone, or the failure.
    pub fn resume(self, reply: Result<Vec<u8>, IoFailure>) -> (s: LampArraySession)
        ensures
            s@ == self@.step(reply_view(reply)),
    {
        proof {
            use_type_invariant(&self);
            step_wf(self@, reply_view(reply));
        }
        let LampArraySession { setup, phase } = self;
        let data: Vec<u8> = match reply {
            Ok(data) => data,
            Err(failure) => {
                let phase = match phase {
                    Phase::Finished(r) => Phase::Finished(r),
                    Phase::Opening => Phase::Finished(
                        Err(open_error(setup.path.as_str(), failure)),
                    ),
                    _ => Phase::Finished(Err(Error::Io(failure))),
                };
                return LampArraySession { setup, phase };
            },
        };
        let phase = match phase {
            Phase::Opening => setup.opened(),
            Phase::SwitchingMode { .. } => setup.switched(),
            Phase::ReadingAttributes => match lamp::parse_attributes(data.as_slice()) {
                Ok(attributes) => setup.attributes_read(attributes),
                Err(e) => Phase::Finished(Err(e)),
            },
            Phase::RequestingLamp { index } => setup.enter(
                LampReport::AttrResponse,
                Phase::ReadingLamp { index },
            ),
            Phase::ReadingLamp { index } => match lamp::parse_lamp_response(data.as_slice()) {
                Ok(lamp) => if lamp.lamp_id == index {
                    Phase::Finished(Ok(Outcome::Lamp(lamp)))
                } else {
                    Phase::Finished(
                        Err(Error::LampIdMismatch { expected: index, got: lamp.lamp_id }),
                    )
                },
                Err(e) => Phase::Finished(Err(e)),
            },
            Phase::RequestingLamps { attributes } => setup.enter(
                LampReport::AttrResponse,
                Phase::ReadingLamps { attributes, lamps: Vec::new() },
            ),
            Phase::ReadingLamps { attributes, lamps } => match lamp::parse_lamp_response(
                data.as_slice(),
            ) {
                Ok(lamp) => setup.lamp_read(attributes, lamps, lamp),
                Err(e) => Phase::Finished(Err(e)),
            },
            Phase::SendingRange { .. } => Phase::Finished(Ok(Outcome::Done)),
            Phase::SendingBatch { colors, sent } => setup.batch_sent(colors, sent),
            Phase::Finished(r) => Phase::Finished(r),
        };
        LampArraySession { setup, phase }
    }

    /// What the conversation brought, or `None` while it is not over.
    pub fn finish(self) -> (r: Option<Result<Outcome, Error>>)
        ensures
            match r {
                Some(result) => self@.phase == PhaseView::Finished(result_view(result)),
                None => !(self@.phase is Finished),
            },
    {
        match self.phase {
            Phase::Finished(r) => Some(r),
            _ => None,
        }
    }
}

} // verus!

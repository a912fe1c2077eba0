//! LED Page RGB devices.

use vstd::prelude::*;

use super::scale;
use super::session;
use super::session::{Request, RequestView};
use crate::bytes;
use crate::descriptor::discovery::HidrawEntryView;
use crate::descriptor::state::DescriptorState;
use crate::descriptor::{
    discovery, item, laws, state, DeviceInfoView, LampReport, LedRgbInfo, LedRgbInfoView,
    ReportType,
};
use crate::error::{Error, ErrorView, IoFailure, IoFailureView, IoKind};

verus! {

/// LED Page RGB device attributes (Section 11.7).
#[derive(Debug, Clone)]
pub struct LedRgbAttributes {
    pub name: String,
    pub path: String,
    pub protocol: &'static str,
    pub report_id: u8,
    pub channel_size: u32,
    pub has_intensity: bool,
}

/// `LedRgbAttributes` with its texts as sequences of characters.
pub struct LedRgbAttributesView {
    pub name: Seq<char>,
    pub path: Seq<char>,
    pub protocol: Seq<char>,
    pub report_id: u8,
    pub channel_size: u32,
    pub has_intensity: bool,
}

impl View for LedRgbAttributes {
    type V = LedRgbAttributesView;

    open spec fn view(&self) -> LedRgbAttributesView {
        LedRgbAttributesView {
            name: self.name@,
            path: self.path@,
            protocol: self.protocol@,
            report_id: self.report_id,
            channel_size: self.channel_size,
            has_intensity: self.has_intensity,
        }
    }
}

/// HID LED Page RGB LED (Usage Page 0x08, Section 11.7) control.
///
/// Uses the RGB LED collection (Usage 0x52) with individual channel controls:
///   - Red LED Channel (Usage 0x53)
///   - Blue LED Channel (Usage 0x54)  -- Note: spec order is R, B, G
///   - Green LED Channel (Usage 0x55)
///   - LED Intensity (Usage 0x56, optional)
///
/// Byte offsets are determined by descriptor parsing, not assumed.
pub struct LedRgbDevice<'a> {
    info: &'a LedRgbInfo,
}

impl View for LedRgbDevice<'_> {
    type V = LedRgbInfoView;

    closed spec fn view(&self) -> LedRgbInfoView {
        self.info@
    }
}

/// Whether all channels lie inside the report, and the report is not longer than memory can hold.
pub open spec fn channels_fit(info: LedRgbInfoView) -> bool {
    &&& info.report_size < isize::MAX
    &&& info.red_offset < info.report_size
    &&& info.blue_offset < info.report_size
    &&& info.green_offset < info.report_size
    &&& info.intensity_offset matches Some(offset) ==> offset < info.report_size
}

/// The largest intensity level: 255 where the descriptor gives none.
pub open spec fn intensity_max(info: LedRgbInfoView) -> u32 {
    match info.intensity_logical_max {
        Some(max) => max,
        None => 255,
    }
}

/// The report that sets an RGB LED: the report ID, and at the offset of each channel its value,
/// scaled to the channel's LogicalMaximum.
pub open spec fn led_report(
    info: LedRgbInfoView,
    red: u8,
    green: u8,
    blue: u8,
    intensity: u8,
) -> Seq<u8> {
    let colors = bytes::zeros((1 + info.report_size) as nat).update(0, info.report_id).update(
        1 + info.red_offset,
        scale::scaled(red, info.red_logical_max),
    ).update(1 + info.blue_offset, scale::scaled(blue, info.blue_logical_max)).update(
        1 + info.green_offset,
        scale::scaled(green, info.green_logical_max),
    );
    match info.intensity_offset {
        Some(offset) => colors.update(1 + offset, scale::scaled(intensity, intensity_max(info))),
        None => colors,
    }
}

/// How far the setting of a color has come.
#[derive(Debug)]
enum LedPhase {
    Opening,
    Opened,
    Finished(Result<(), Error>),
}

/// `LedPhase` over mathematical values.
pub enum LedPhaseView {
    /// The device is to be opened.
    Opening,
    /// The device is open, and the report is to be sent.
    Opened,
    Finished(Result<(), ErrorView>),
}

/// A result over mathematical values.
pub open spec fn sent_view(r: Result<(), Error>) -> Result<(), ErrorView> {
    match r {
        Ok(_) => Ok(()),
        Err(e) => Err(e@),
    }
}

impl View for LedPhase {
    type V = LedPhaseView;

    closed spec fn view(&self) -> LedPhaseView {
        match self {
            LedPhase::Opening => LedPhaseView::Opening,
            LedPhase::Opened => LedPhaseView::Opened,
            LedPhase::Finished(r) => LedPhaseView::Finished(sent_view(*r)),
        }
    }
}

/// The setting of an RGB LED to a color: it says which device access is due, takes what the access
/// returned, and ends with a result. It performs no access itself.
#[derive(Debug)]
pub struct LedRgbSession<'a> {
    info: &'a LedRgbInfo,
    red: u8,
    green: u8,
    blue: u8,
    intensity: u8,
    phase: LedPhase,
}

/// `LedRgbSession` over mathematical values.
pub struct LedSessionView {
    pub info: LedRgbInfoView,
    pub red: u8,
    pub green: u8,
    pub blue: u8,
    pub intensity: u8,
    pub phase: LedPhaseView,
}

impl View for LedRgbSession<'_> {
    type V = LedSessionView;

    closed spec fn view(&self) -> LedSessionView {
        LedSessionView {
            info: self.info@,
            red: self.red,
            green: self.green,
            blue: self.blue,
            intensity: self.intensity,
            phase: self.phase@,
        }
    }
}

impl LedSessionView {
    /// Whether the report that is due can be built.
    pub open spec fn fits(self) -> bool {
        self.phase is Opened ==> channels_fit(self.info)
    }

    /// The report to be sent.
    pub open spec fn report(self) -> Seq<u8> {
        led_report(self.info, self.red, self.green, self.blue, self.intensity)
    }

    /// The access that is due. A Feature report goes by ioctl, an Output report is written, and an
    /// Input report cannot be sent.
    pub open spec fn request(self) -> Option<RequestView> {
        match self.phase {
            LedPhaseView::Opening => Some(RequestView::Open { path: self.info.hidraw_path }),
            LedPhaseView::Opened => match self.info.report_type {
                ReportType::Feature => Some(RequestView::SetFeature { data: self.report() }),
                ReportType::Output => Some(RequestView::WriteOutput { data: self.report() }),
                ReportType::Input => None,
            },
            LedPhaseView::Finished(_) => None,
        }
    }

    /// How it ended, once no access is due.
    pub open spec fn result(self) -> Option<Result<(), ErrorView>> {
        match self.phase {
            LedPhaseView::Opened if self.info.report_type is Input => Some(
                Err(ErrorView::UnsupportedReportType),
            ),
            LedPhaseView::Finished(r) => Some(r),
            _ => None,
        }
    }

    /// After an access returned, if one was due.
    pub open spec fn step(self, reply: Result<Seq<u8>, IoFailureView>) -> LedSessionView {
        LedSessionView {
            phase: match (self.phase, reply) {
                (LedPhaseView::Opening, Ok(_)) => LedPhaseView::Opened,
                (LedPhaseView::Opening, Err(failure)) => LedPhaseView::Finished(
                    Err(session::open_failure(self.info.hidraw_path, failure)),
                ),
                (LedPhaseView::Opened, _) if self.info.report_type is Input => self.phase,
                (LedPhaseView::Opened, Ok(_)) => LedPhaseView::Finished(Ok(())),
                (LedPhaseView::Opened, Err(failure)) => LedPhaseView::Finished(
                    Err(ErrorView::Io(failure)),
                ),
                (LedPhaseView::Finished(_), _) => self.phase,
            },
            ..self
        }
    }
}

/// The start of the setting of a color.
pub open spec fn setting(
    info: LedRgbInfoView,
    red: u8,
    green: u8,
    blue: u8,
    intensity: u8,
) -> LedSessionView {
    LedSessionView { info, red, green, blue, intensity, phase: LedPhaseView::Opening }
}

impl<'a> LedRgbSession<'a> {
    /// Whether the report that is due can be built: its channels lie inside it.
    pub fn fits(&self) -> (b: bool)
        ensures
            b == self@.fits(),
    {
        match &self.phase {
            LedPhase::Opened => fits_report(self.info),
            _ => true,
        }
    }

    /// The access that is due, or `None` at the end.
    pub fn request(&self) -> (r: Option<Request>)
        requires
            self@.fits(),
        ensures
            match r {
                Some(q) => self@.request() == Some(q@),
                None => self@.request() is None,
            },
    {
        match &self.phase {
            LedPhase::Opening => Some(Request::Open { path: self.info.hidraw_path.clone() }),
            LedPhase::Opened => {
                let data: Vec<u8> = build_led_report(
                    self.info,
                    self.red,
                    self.green,
                    self.blue,
                    self.intensity,
                );
                match self.info.report_type {
                    ReportType::Feature => Some(Request::SetFeature { data }),
                    ReportType::Output => Some(Request::WriteOutput { data }),
                    ReportType::Input => None,
                }
            },
            LedPhase::Finished(_) => None,
        }
    }

    /// Goes on with what the access that was due returned.
    pub fn resume(self, reply: Result<Vec<u8>, IoFailure>) -> (s: LedRgbSession<'a>)
        ensures
            s@ == self@.step(session::reply_view(reply)),
    {
        let LedRgbSession { info, red, green, blue, intensity, phase } = self;
        let sendable: bool = match info.report_type {
            ReportType::Input => false,
            _ => true,
        };
        let phase: LedPhase = match (phase, reply) {
            (LedPhase::Opening, Ok(_)) => LedPhase::Opened,
            (LedPhase::Opening, Err(failure)) => LedPhase::Finished(
                Err(session::open_error(info.hidraw_path.as_str(), failure)),
            ),
            (LedPhase::Opened, Ok(_)) => if sendable {
                LedPhase::Finished(Ok(()))
            } else {
                LedPhase::Opened
            },
            (LedPhase::Opened, Err(failure)) => if sendable {
                LedPhase::Finished(Err(Error::Io(failure)))
            } else {
                LedPhase::Opened
            },
            (LedPhase::Finished(r), _) => LedPhase::Finished(r),
        };
        LedRgbSession { info, red, green, blue, intensity, phase }
    }

    /// How it ended, or `None` while an access is due.
    pub fn finish(self) -> (r: Option<Result<(), Error>>)
        requires
            self@.fits(),
        ensures
            match r {
                Some(result) => self@.result() == Some(sent_view(result)),
                None => self@.result() is None,
            },
    {
        match self.phase {
            LedPhase::Opening => None,
            LedPhase::Opened => match self.info.report_type {
                ReportType::Input => Some(Err(Error::UnsupportedReportType)),
                _ => None,
            },
            LedPhase::Finished(r) => Some(r),
        }
    }
}

/// Whether all channels lie inside the report.
fn fits_report(info: &LedRgbInfo) -> (b: bool)
    ensures
        b == channels_fit(info@),
{
    let size: usize = info.report_size;
    size < isize::MAX as usize && info.red_offset < size && info.blue_offset < size
        && info.green_offset < size && match info.intensity_offset {
        Some(offset) => offset < size,
        None => true,
    }
}

/// Builds the report that sets an RGB LED.
pub fn build_led_report(info: &LedRgbInfo, r: u8, g: u8, b: u8, intensity: u8) -> (buf: Vec<u8>)
    requires
        channels_fit(info@),
    ensures
        buf@ == led_report(info@, r, g, b, intensity),
{
    let mut buf: Vec<u8> = vec![0u8; info.report_size + 1];
    assert(buf@ =~= bytes::zeros((1 + info.report_size) as nat));
    buf[0] = info.report_id;

    // Scale color channels from 0-255 to each channel's LogicalMaximum.
    // When logical_max == 255 this is an identity transform.
    buf[1 + info.red_offset] = scale::scale_u8(r, info.red_logical_max);
    buf[1 + info.blue_offset] = scale::scale_u8(b, info.blue_logical_max);
    buf[1 + info.green_offset] = scale::scale_u8(g, info.green_logical_max);
    if let Some(off) = info.intensity_offset {
        let int_max: u32 = match info.intensity_logical_max {
            Some(max) => max,
            None => 255,
        };
        buf[1 + off] = scale::scale_u8(intensity, int_max);
    }
    buf
}

impl<'a> LedRgbDevice<'a> {
    pub fn new(info: &'a LedRgbInfo) -> (device: Self)
        ensures
            device@ == info@,
    {
        LedRgbDevice { info }
    }

    /// The device path (e.g. `/dev/hidraw0`).
    pub fn path(&self) -> (path: &str)
        ensures
            path@ == self@.hidraw_path,
    {
        self.info.hidraw_path.as_str()
    }

    /// The device name from sysfs.
    pub fn name(&self) -> (name: &str)
        ensures
            name@ == self@.name,
    {
        self.info.name.as_str()
    }

    /// Set RGB LED color.
    ///
    /// Maps arguments to the correct channel offsets parsed from the descriptor.
    /// Values are scaled from the caller's 0-255 range to the device's
    /// LogicalMaximum (e.g. 0-100 for intensity per Section 11.7).
    ///
    /// The report is sent via the appropriate mechanism for the report type
    /// parsed from the descriptor (Feature report via ioctl, Output report
    /// via write syscall).
    pub fn set_color(&self, r: u8, g: u8, b: u8, intensity: u8) -> (s: LedRgbSession<'a>)
        ensures
            s@ == setting(self@, r, g, b, intensity),
    {
        LedRgbSession {
            info: self.info,
            red: r,
            green: g,
            blue: b,
            intensity,
            phase: LedPhase::Opening,
        }
    }

    /// Return basic device info (LED Page has no LampArray-style attributes).
    pub fn get_attributes(&self) -> (attributes: LedRgbAttributes)
        ensures
            attributes@ == (LedRgbAttributesView {
                name: self@.name,
                path: self@.hidraw_path,
                protocol: "LED Page RGB (Usage Page 0x08, Section 11.7)"@,
                report_id: self@.report_id,
                channel_size: self@.channel_size,
                has_intensity: self@.intensity_offset is Some,
            }),
    {
        LedRgbAttributes {
            name: self.info.name.clone(),
            path: self.info.hidraw_path.clone(),
            protocol: "LED Page RGB (Usage Page 0x08, Section 11.7)",
            report_id: self.info.report_id,
            channel_size: self.info.channel_size,
            has_intensity: self.info.intensity_offset.is_some(),
        }
    }

    /// One-line summary for CLI listing.
    pub fn summary(&self) -> (summary: &'static str)
        ensures
            summary@ == "LED RGB"@,
    {
        "LED RGB"
    }
}

/// The channels lie in different bytes.
pub open spec fn channels_apart(info: LedRgbInfoView) -> bool {
    &&& info.red_offset != info.green_offset
    &&& info.red_offset != info.blue_offset
    &&& info.green_offset != info.blue_offset
    &&& info.intensity_offset matches Some(offset) ==> offset != info.red_offset && offset
        != info.green_offset && offset != info.blue_offset
}

/// Every channel finds its scaled value at its own offset, and every other byte of the report,
/// behind the report ID, is zero.
pub proof fn report_holds_all_channels(
    info: LedRgbInfoView,
    red: u8,
    green: u8,
    blue: u8,
    intensity: u8,
)
    requires
        channels_fit(info),
        channels_apart(info),
    ensures
        ({
            let report = led_report(info, red, green, blue, intensity);
            &&& report.len() == 1 + info.report_size
            &&& report[0] == info.report_id
            &&& report[1 + info.red_offset] == scale::scaled(red, info.red_logical_max)
            &&& report[1 + info.green_offset] == scale::scaled(green, info.green_logical_max)
            &&& report[1 + info.blue_offset] == scale::scaled(blue, info.blue_logical_max)
            &&& info.intensity_offset matches Some(offset) ==> report[1 + offset] == scale::scaled(
                intensity,
                intensity_max(info),
            )
            &&& forall|i: int|
                0 < i < report.len() && i != 1 + info.red_offset && i != 1 + info.green_offset && i
                    != 1 + info.blue_offset && !(info.intensity_offset matches Some(offset) && i
                    == 1 + offset) ==> report[i] == 0
        }),
{
}

/// On a device that accepts every access, a color is set by opening the device and sending one
/// report, in the way that its type asks for.
pub proof fn color_is_sent(info: LedRgbInfoView, red: u8, green: u8, blue: u8, intensity: u8)
    requires
        !(info.report_type is Input),
    ensures
        ({
            let start = setting(info, red, green, blue, intensity);
            let opened = start.step(Ok(Seq::empty()));
            let sent = opened.step(Ok(Seq::empty()));
            let report = led_report(info, red, green, blue, intensity);
            &&& start.request() == Some(RequestView::Open { path: info.hidraw_path })
            &&& opened.request() == if info.report_type is Feature {
                Some(RequestView::SetFeature { data: report })
            } else {
                Some(RequestView::WriteOutput { data: report })
            }
            &&& sent.request() is None
            &&& sent.result() == Some(Ok::<(), ErrorView>(()))
        }),
{
}

/// A device whose channels lie in an Input report is sent nothing.
pub proof fn input_reports_are_not_sent(
    info: LedRgbInfoView,
    red: u8,
    green: u8,
    blue: u8,
    intensity: u8,
    reply: Result<Seq<u8>, IoFailureView>,
)
    requires
        info.report_type is Input,
    ensures
        ({
            let opened = setting(info, red, green, blue, intensity).step(Ok(Seq::empty()));
            &&& opened.request() is None
            &&& opened.result() == Some(Err::<(), ErrorView>(ErrorView::UnsupportedReportType))
            &&& opened.step(reply) == opened
        }),
{
}

/// An access is due until there is a result, and no longer; a failed access ends it with an error.
pub proof fn setting_ends(s: LedSessionView, failure: IoFailureView)
    ensures
        s.request() is Some <==> s.result() is None,
        s.request() is Some ==> (s.step(Err(failure)).result() matches Some(r) && r is Err),
{
}

/// The channels of an LED RGB device that is found lie inside its report, wherever the data items of
/// its descriptor give every usage a field, in reports below 2^32 bits: its color can be set.
pub proof fn found_leds_fit(entry: HidrawEntryView, i: int)
    requires
        0 <= i < discovery::devices_of(entry).len(),
        entry.descriptor matches Some(desc) ==> laws::orderly(
            DescriptorState::initial(),
            item::items_from(desc, 0),
        ),
    ensures
        discovery::devices_of(entry)[i] matches DeviceInfoView::LedRgb(info) ==> channels_fit(info),
{
    discovery::devices_come_from_the_descriptor(entry, i);
    if let DeviceInfoView::LedRgb(info) = discovery::devices_of(entry)[i] {
        let found = state::parsed(entry.descriptor->0);
        let k = choose|k: int|
            0 <= k < found.builders().len() && discovery::devices_of(entry)[i]
                == discovery::led_rgb_device(
                discovery::device_path(entry.name),
                discovery::hid_name(entry.uevent),
                #[trigger] found.builders()[k],
            );
        laws::channels_lie_inside(entry.descriptor->0, k);
        laws::builders_are_complete(found);
        laws::sizes_are_bounded(
            found,
            LampReport::Control,
            found.builders()[k].report_id,
        );
    }
}

/// A value on the scale of 0 to 255 and the same value on the scale of 0 to `max`: the nearest step of
/// the other scale, never above it, and the value itself where that scale is no coarser.
pub open spec fn same_share(value: u8, sent: u8, max: u32) -> bool {
    &&& sent <= max
    &&& max >= 255 ==> sent == value
    &&& max < 255 ==> -255 < 2 * (255 * sent - value * max) < 255
}

proof fn scaled_is_the_same_share(value: u8, max: u32)
    ensures
        same_share(value, scale::scaled(value, max), max),
{
    scale::scaled_in_range(value, max);
    if max < 255 {
        scale::scaled_proportional(value, max);
    }
}

/// What an RGB LED reads out of its report: behind the report ID, every channel at its own offset, in
/// proportion to its LogicalMaximum and never above it. Where channels share a byte, intensity comes
/// before green, green before blue, and blue before red. All other bytes are zero, to the declared
/// size. An intensity without a maximum goes up to 255, and without a channel there is none.
pub proof fn leds_get_their_share(
    info: LedRgbInfoView,
    red: u8,
    green: u8,
    blue: u8,
    intensity: u8,
    i: int,
)
    requires
        channels_fit(info),
    ensures
        ({
            let r = led_report(info, red, green, blue, intensity);
            let at = info.intensity_offset;
            let max = match info.intensity_logical_max {
                Some(m) => m,
                None => 255,
            };
            &&& r.len() == info.report_size + 1
            &&& r[0] == info.report_id
            &&& at is Some ==> same_share(intensity, r[1 + at->0], max)
            &&& at != Some(info.green_offset) ==> same_share(
                green,
                r[1 + info.green_offset],
                info.green_logical_max,
            )
            &&& at != Some(info.blue_offset) && info.blue_offset != info.green_offset
                ==> same_share(blue, r[1 + info.blue_offset], info.blue_logical_max)
            &&& at != Some(info.red_offset) && info.red_offset != info.green_offset
                && info.red_offset != info.blue_offset ==> same_share(
                red,
                r[1 + info.red_offset],
                info.red_logical_max,
            )
            &&& 0 < i < r.len() && i != 1 + info.red_offset && i != 1 + info.green_offset && i != 1
                + info.blue_offset && !(at is Some && i == 1 + at->0) ==> r[i] == 0
        }),
{
    scaled_is_the_same_share(red, info.red_logical_max);
    scaled_is_the_same_share(green, info.green_logical_max);
    scaled_is_the_same_share(blue, info.blue_logical_max);
    scaled_is_the_same_share(intensity, intensity_max(info));
}

/// An LED device that cannot be opened says why, and one that does not take its report passes the
/// failure on.
pub proof fn led_failures_are_told(s: LedSessionView, failure: IoFailureView)
    ensures
        s.phase is Opening ==> s.step(Err(failure)).result() == Some(
            Err::<(), ErrorView>(
                match failure.kind {
                    IoKind::PermissionDenied => ErrorView::PermissionDenied {
                        path: s.info.hidraw_path,
                    },
                    IoKind::NotFound => ErrorView::DeviceNotFound { path: s.info.hidraw_path },
                    IoKind::Other => ErrorView::Io(failure),
                },
            ),
        ),
        s.phase is Opened && !(s.info.report_type is Input) ==> s.step(Err(failure)).result()
            == Some(Err::<(), ErrorView>(ErrorView::Io(failure))),
{
}

/// The report of an LED can be built exactly where all its channels lie inside it.
pub proof fn reports_with_their_channels_fit(s: LedSessionView)
    requires
        s.info.report_size < isize::MAX,
    ensures
        s.phase is Opened ==> (s.fits() <==> {
            &&& s.info.red_offset < s.info.report_size
            &&& s.info.green_offset < s.info.report_size
            &&& s.info.blue_offset < s.info.report_size
            &&& s.info.intensity_offset matches Some(o) ==> o < s.info.report_size
        }),
        !(s.phase is Opened) ==> s.fits(),
{
}

/// How the setting of a color goes on after an access that succeeded, whatever bytes came with it: an
/// open device is sent its report, and with the report sent it is done. The LED and its color stay
/// the same, and what is done stays as it is.
pub proof fn settings_go_on(
    s: LedSessionView,
    data: Seq<u8>,
    reply: Result<Seq<u8>, IoFailureView>,
)
    ensures
        ({
            let next = s.step(Ok(data));
            let report = led_report(s.info, s.red, s.green, s.blue, s.intensity);
            &&& s.step(reply).info == s.info
            &&& s.step(reply).red == s.red
            &&& s.step(reply).green == s.green
            &&& s.step(reply).blue == s.blue
            &&& s.step(reply).intensity == s.intensity
            &&& match s.phase {
                LedPhaseView::Opening => {
                    &&& s.request() == Some(RequestView::Open { path: s.info.hidraw_path })
                    &&& s.result() is None
                    &&& next.phase is Opened
                },
                LedPhaseView::Opened => match s.info.report_type {
                    ReportType::Feature => {
                        &&& s.request() == Some(RequestView::SetFeature { data: report })
                        &&& next.result() == Some(Ok::<(), ErrorView>(()))
                    },
                    ReportType::Output => {
                        &&& s.request() == Some(RequestView::WriteOutput { data: report })
                        &&& next.result() == Some(Ok::<(), ErrorView>(()))
                    },
                    ReportType::Input => {
                        &&& s.request() is None
                        &&& s.result() == Some(
                            Err::<(), ErrorView>(ErrorView::UnsupportedReportType),
                        )
                    },
                },
                LedPhaseView::Finished(r) => {
                    &&& s.request() is None
                    &&& s.result() == Some(r)
                    &&& s.step(reply) == s
                },
            }
        }),
{
}

} // verus!

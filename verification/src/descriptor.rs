//! HID report descriptors and the devices that they describe.
//!
//! Two kinds of devices are recognized:
//! - Usage Page 0x59 (Lighting and Illumination): HID LampArray protocol
//! - Usage Page 0x08 (LED Page) with Usage 0x52 (RGB LED): legacy RGB LED
//!
//! Reference: USB HID Usage Tables v1.4
//!   - Section 26: Lighting and Illumination Page (0x59)
//!   - Section 11.7: Multicolor (RGB) LED on LED Page (0x08)

pub mod discovery;
pub mod effects;
pub mod item;
pub mod laws;
pub mod order;
pub mod parser;
pub mod state;

use vstd::prelude::*;

verus! {

/// The type of a HID report (Feature, Output, or Input).
///
/// Determines how the report is communicated on Linux HIDRAW:
/// - Feature: via ioctl (HIDIOCSFEATURE / HIDIOCGFEATURE)
/// - Output: via write() syscall
/// - Input: via read() syscall
#[derive(Debug, Clone, Copy, PartialEq, Eq, Structural)]
pub enum ReportType {
    Feature,
    Output,
    Input,
}

/// Parsed HID report metadata.
#[derive(Debug, Clone, Copy, PartialEq, Eq, Structural)]
pub struct ReportInfo {
    pub report_id: u8,
    /// Total data bytes (excluding report ID byte).
    pub size: usize,
}

/// The reports of the LampArray protocol.
#[derive(Debug, Clone, Copy, PartialEq, Eq, Structural)]
pub enum LampReport {
    Attributes,
    AttrRequest,
    AttrResponse,
    MultiUpdate,
    RangeUpdate,
    Control,
}

/// Which reports of the LampArray protocol a device has.
#[derive(Debug, Clone, Copy, PartialEq, Eq, Structural)]
pub struct LampArrayReports {
    pub attributes: Option<ReportInfo>,
    pub attr_request: Option<ReportInfo>,
    pub attr_response: Option<ReportInfo>,
    pub multi_update: Option<ReportInfo>,
    pub range_update: Option<ReportInfo>,
    pub control: Option<ReportInfo>,
}

/// Device implementing HID LampArray (Usage Page 0x59).
///
/// Report IDs and sizes are parsed from the device's HID report descriptor,
/// not hardcoded, so this works with any compliant LampArray device.
#[derive(Debug, Clone)]
pub struct LampArrayInfo {
    pub hidraw_path: String,
    pub name: String,
    pub reports: LampArrayReports,
}

/// Device implementing LED Page RGB LED (Usage Page 0x08, Section 11.7).
///
/// The RGB LED collection (Usage 0x52) contains:
///   - Red LED Channel (Usage 0x53)
///   - Blue LED Channel (Usage 0x54)  -- Note: Blue before Green per spec
///   - Green LED Channel (Usage 0x55)
///   - LED Intensity (Usage 0x56, optional)
///
/// Byte offsets are parsed from the descriptor to handle any report layout.
#[derive(Debug, Clone)]
pub struct LedRgbInfo {
    pub hidraw_path: String,
    pub name: String,
    pub report_id: u8,
    /// Total data bytes (excluding report ID).
    pub report_size: usize,
    /// Byte offset of Red channel within report data.
    pub red_offset: usize,
    /// Byte offset of Blue channel.
    pub blue_offset: usize,
    /// Byte offset of Green channel.
    pub green_offset: usize,
    /// Byte offset of Intensity (None if absent).
    pub intensity_offset: Option<usize>,
    /// Bits per channel (typically 8).
    pub channel_size: u32,
    /// The HID report type (Feature or Output).
    pub report_type: ReportType,
    /// LogicalMaximum per color channel from the descriptor (typically 255).
    pub red_logical_max: u32,
    pub green_logical_max: u32,
    pub blue_logical_max: u32,
    /// LogicalMaximum of the Intensity channel (spec recommends 100).
    /// None if the device has no intensity channel.
    pub intensity_logical_max: Option<u32>,
}

/// Either a LampArray or LED RGB device info.
#[derive(Debug, Clone)]
pub enum DeviceInfo {
    LampArray(LampArrayInfo),
    LedRgb(LedRgbInfo),
}

/// `LampArrayInfo` with its texts as sequences of characters.
pub struct LampArrayInfoView {
    pub hidraw_path: Seq<char>,
    pub name: Seq<char>,
    pub reports: LampArrayReports,
}

/// `LedRgbInfo` with its texts as sequences of characters.
pub struct LedRgbInfoView {
    pub hidraw_path: Seq<char>,
    pub name: Seq<char>,
    pub report_id: u8,
    pub report_size: usize,
    pub red_offset: usize,
    pub blue_offset: usize,
    pub green_offset: usize,
    pub intensity_offset: Option<usize>,
    pub channel_size: u32,
    pub report_type: ReportType,
    pub red_logical_max: u32,
    pub green_logical_max: u32,
    pub blue_logical_max: u32,
    pub intensity_logical_max: Option<u32>,
}

/// `DeviceInfo` with its texts as sequences of characters.
pub enum DeviceInfoView {
    LampArray(LampArrayInfoView),
    LedRgb(LedRgbInfoView),
}

impl View for LampArrayInfo {
    type V = LampArrayInfoView;

    open spec fn view(&self) -> LampArrayInfoView {
        LampArrayInfoView {
            hidraw_path: self.hidraw_path@,
            name: self.name@,
            reports: self.reports,
        }
    }
}

impl View for LedRgbInfo {
    type V = LedRgbInfoView;

    open spec fn view(&self) -> LedRgbInfoView {
        LedRgbInfoView {
            hidraw_path: self.hidraw_path@,
            name: self.name@,
            report_id: self.report_id,
            report_size: self.report_size,
            red_offset: self.red_offset,
            blue_offset: self.blue_offset,
            green_offset: self.green_offset,
            intensity_offset: self.intensity_offset,
            channel_size: self.channel_size,
            report_type: self.report_type,
            red_logical_max: self.red_logical_max,
            green_logical_max: self.green_logical_max,
            blue_logical_max: self.blue_logical_max,
            intensity_logical_max: self.intensity_logical_max,
        }
    }
}

impl View for DeviceInfo {
    type V = DeviceInfoView;

    open spec fn view(&self) -> DeviceInfoView {
        match self {
            DeviceInfo::LampArray(info) => DeviceInfoView::LampArray(info@),
            DeviceInfo::LedRgb(info) => DeviceInfoView::LedRgb(info@),
        }
    }
}

impl DeviceInfoView {
    /// The hidraw device path.
    pub open spec fn hidraw_path(self) -> Seq<char> {
        match self {
            DeviceInfoView::LampArray(info) => info.hidraw_path,
            DeviceInfoView::LedRgb(info) => info.hidraw_path,
        }
    }

    /// The device name.
    pub open spec fn name(self) -> Seq<char> {
        match self {
            DeviceInfoView::LampArray(info) => info.name,
            DeviceInfoView::LedRgb(info) => info.name,
        }
    }
}

impl DeviceInfo {
    /// The hidraw device path (e.g. `/dev/hidraw0`).
    pub fn hidraw_path(&self) -> (path: &str)
        ensures
            path@ == self@.hidraw_path(),
    {
        match self {
            DeviceInfo::LampArray(info) => info.hidraw_path.as_str(),
            DeviceInfo::LedRgb(info) => info.hidraw_path.as_str(),
        }
    }

    /// The device name from sysfs.
    pub fn name(&self) -> (name: &str)
        ensures
            name@ == self@.name(),
    {
        match self {
            DeviceInfo::LampArray(info) => info.name.as_str(),
            DeviceInfo::LedRgb(info) => info.name.as_str(),
        }
    }
}

impl LampReport {
    /// The name of a report, as error messages give it.
    pub open spec fn spec_name(self) -> Seq<char> {
        match self {
            LampReport::Attributes => "attributes"@,
            LampReport::AttrRequest => "attr_request"@,
            LampReport::AttrResponse => "attr_response"@,
            LampReport::MultiUpdate => "multi_update"@,
            LampReport::RangeUpdate => "range_update"@,
            LampReport::Control => "control"@,
        }
    }

    /// The name of a report, as error messages give it.
    pub fn name(self) -> (name: &'static str)
        ensures
            name@ == self.spec_name(),
    {
        match self {
            LampReport::Attributes => "attributes",
            LampReport::AttrRequest => "attr_request",
            LampReport::AttrResponse => "attr_response",
            LampReport::MultiUpdate => "multi_update",
            LampReport::RangeUpdate => "range_update",
            LampReport::Control => "control",
        }
    }
}

impl LampArrayReports {
    /// The information on one report, if the device has it.
    pub open spec fn spec_get(self, report: LampReport) -> Option<ReportInfo> {
        match report {
            LampReport::Attributes => self.attributes,
            LampReport::AttrRequest => self.attr_request,
            LampReport::AttrResponse => self.attr_response,
            LampReport::MultiUpdate => self.multi_update,
            LampReport::RangeUpdate => self.range_update,
            LampReport::Control => self.control,
        }
    }

    /// The information on one report, if the device has it.
    pub fn get(&self, report: LampReport) -> (r: Option<ReportInfo>)
        ensures
            r == self.spec_get(report),
    {
        match report {
            LampReport::Attributes => self.attributes,
            LampReport::AttrRequest => self.attr_request,
            LampReport::AttrResponse => self.attr_response,
            LampReport::MultiUpdate => self.multi_update,
            LampReport::RangeUpdate => self.range_update,
            LampReport::Control => self.control,
        }
    }
}

} // verus!

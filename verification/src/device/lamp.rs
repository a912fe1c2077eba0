//! Attribute reports of a LampArray device and of its lamps (Sections 26.2 and 26.3).

use vstd::prelude::*;

use crate::bytes;
use crate::error::{Error, ErrorView};

verus! {

/// Attributes of a single lamp (Section 26.3).
#[derive(Debug, Clone, Copy, PartialEq, Eq, Structural)]
pub struct LampAttributes {
    pub lamp_id: u16,
    /// Position in micrometers.
    pub position_x_um: u32,
    pub position_y_um: u32,
    pub position_z_um: u32,
    /// Update latency in microseconds.
    pub update_latency_us: u32,
    pub lamp_purposes: u32,
    pub red_level_count: u8,
    pub green_level_count: u8,
    pub blue_level_count: u8,
    pub intensity_level_count: u8,
    pub is_programmable: bool,
    pub input_binding: u8,
}

/// LampArray device attributes (Section 26.2).
#[derive(Debug, Clone, Copy)]
pub struct LampArrayAttributes {
    pub lamp_count: u16,
    /// Bounding box in micrometers.
    pub width_um: u32,
    pub height_um: u32,
    pub depth_um: u32,
    pub kind: u32,
    pub kind_name: &'static str,
    pub min_update_interval_us: u32,
}

/// `LampArrayAttributes` with the name of the kind as a sequence of characters.
pub struct LampArrayAttributesView {
    pub lamp_count: u16,
    pub width_um: u32,
    pub height_um: u32,
    pub depth_um: u32,
    pub kind: u32,
    pub kind_name: Seq<char>,
    pub min_update_interval_us: u32,
}

impl View for LampArrayAttributes {
    type V = LampArrayAttributesView;

    open spec fn view(&self) -> LampArrayAttributesView {
        LampArrayAttributesView {
            lamp_count: self.lamp_count,
            width_um: self.width_um,
            height_um: self.height_um,
            depth_um: self.depth_um,
            kind: self.kind,
            kind_name: self.kind_name@,
            min_update_interval_us: self.min_update_interval_us,
        }
    }
}

/// The name of a LampArrayKind value (Section 26.2.1).
pub open spec fn kind_name(kind: u32) -> Seq<char> {
    if kind == 0 {
        "Undefined"@
    } else if kind == 1 {
        "Keyboard"@
    } else if kind == 2 {
        "Mouse"@
    } else if kind == 3 {
        "GameController"@
    } else if kind == 4 {
        "Peripheral"@
    } else if kind == 5 {
        "Scene"@
    } else if kind == 6 {
        "Notification"@
    } else if kind == 7 {
        "Chassis"@
    } else if kind == 8 {
        "Wearable"@
    } else if kind == 9 {
        "Furniture"@
    } else if kind == 10 {
        "Art"@
    } else if kind == 11 {
        "Headset"@
    } else if kind >= 0x100 {
        "Vendor-defined"@
    } else {
        "Reserved"@
    }
}

/// LampArrayKind values (Section 26.2.1).
pub fn lamp_array_kind_name(kind: u32) -> (name: &'static str)
    ensures
        name@ == kind_name(kind),
{
    match kind {
        0 => "Undefined",
        1 => "Keyboard",
        2 => "Mouse",
        3 => "GameController",
        4 => "Peripheral",
        5 => "Scene",
        6 => "Notification",
        7 => "Chassis",
        8 => "Wearable",
        9 => "Furniture",
        10 => "Art",
        11 => "Headset",
        _ => if kind >= 0x100 {
            "Vendor-defined"
        } else {
            "Reserved"
        },
    }
}

/// Bytes of a LampAttributesResponseReport: ReportId(1), LampId(2), position(12), latency(4),
/// purposes(4), level counts(4), IsProgrammable(1), InputBinding(1).
pub const LAMP_RESPONSE_LEN: usize = 29;

/// Bytes of a LampArrayAttributesReport: ReportId(1), LampCount(2), five 32-bit fields(20).
pub const ATTRIBUTES_LEN: usize = 23;

/// The lamp that a response report of full length describes.
pub open spec fn lamp_in(buf: Seq<u8>) -> LampAttributes {
    LampAttributes {
        lamp_id: bytes::le16(buf, 1),
        position_x_um: bytes::le32(buf, 3),
        position_y_um: bytes::le32(buf, 7),
        position_z_um: bytes::le32(buf, 11),
        update_latency_us: bytes::le32(buf, 15),
        lamp_purposes: bytes::le32(buf, 19),
        red_level_count: buf[23],
        green_level_count: buf[24],
        blue_level_count: buf[25],
        intensity_level_count: buf[26],
        is_programmable: buf[27] != 0,
        input_binding: buf[28],
    }
}

/// What a response report says, or how many bytes it lacks.
pub open spec fn lamp_response(buf: Seq<u8>) -> Result<LampAttributes, ErrorView> {
    if buf.len() < LAMP_RESPONSE_LEN {
        Err(
            ErrorView::TruncatedReport {
                report_name: "LampAttributesResponse"@,
                expected: LAMP_RESPONSE_LEN as nat,
                got: buf.len(),
            },
        )
    } else {
        Ok(lamp_in(buf))
    }
}

/// The device that an attributes report of full length describes.
pub open spec fn attributes_in(buf: Seq<u8>) -> LampArrayAttributesView {
    LampArrayAttributesView {
        lamp_count: bytes::le16(buf, 1),
        width_um: bytes::le32(buf, 3),
        height_um: bytes::le32(buf, 7),
        depth_um: bytes::le32(buf, 11),
        kind: bytes::le32(buf, 15),
        kind_name: kind_name(bytes::le32(buf, 15)),
        min_update_interval_us: bytes::le32(buf, 19),
    }
}

/// What an attributes report says, or how many bytes it lacks.
pub open spec fn attributes_response(buf: Seq<u8>) -> Result<LampArrayAttributesView, ErrorView> {
    if buf.len() < ATTRIBUTES_LEN {
        Err(
            ErrorView::TruncatedReport {
                report_name: "LampArrayAttributes"@,
                expected: ATTRIBUTES_LEN as nat,
                got: buf.len(),
            },
        )
    } else {
        Ok(attributes_in(buf))
    }
}

/// Parse a LampAttributesResponseReport buffer into [`LampAttributes`].
///
/// Layout (Section 26.3): `[ReportID, LampId(16), PosX(32), PosY(32), PosZ(32), Latency(32),
/// Purposes(32), RedCount(8), GreenCount(8), BlueCount(8), IntensityCount(8),
/// IsProgrammable(8), InputBinding(8)]`. Bytes beyond that are ignored.
pub fn parse_lamp_response(buf: &[u8]) -> (r: Result<LampAttributes, Error>)
    ensures
        match r {
            Ok(lamp) => lamp_response(buf@) == Ok::<LampAttributes, ErrorView>(lamp),
            Err(e) => lamp_response(buf@) == Err::<LampAttributes, ErrorView>(e@),
        },
{
    if buf.len() < LAMP_RESPONSE_LEN {
        return Err(
            Error::TruncatedReport {
                report_name: "LampAttributesResponse",
                expected: LAMP_RESPONSE_LEN,
                got: buf.len(),
            },
        );
    }
    Ok(
        LampAttributes {
            lamp_id: bytes::read_u16(buf, 1),
            position_x_um: bytes::read_u32(buf, 3),
            position_y_um: bytes::read_u32(buf, 7),
            position_z_um: bytes::read_u32(buf, 11),
            update_latency_us: bytes::read_u32(buf, 15),
            lamp_purposes: bytes::read_u32(buf, 19),
            red_level_count: buf[23],
            green_level_count: buf[24],
            blue_level_count: buf[25],
            intensity_level_count: buf[26],
            is_programmable: buf[27] != 0,
            input_binding: buf[28],
        },
    )
}

/// Parse a LampArrayAttributesReport buffer into [`LampArrayAttributes`].
///
/// Layout (Section 26.2): `[ReportID, LampCount(16), Width(32), Height(32), Depth(32), Kind(32),
/// MinInterval(32)]`. Bytes beyond that are ignored.
pub fn parse_attributes(buf: &[u8]) -> (r: Result<LampArrayAttributes, Error>)
    ensures
        match r {
            Ok(a) => attributes_response(buf@) == Ok::<LampArrayAttributesView, ErrorView>(a@),
            Err(e) => attributes_response(buf@) == Err::<LampArrayAttributesView, ErrorView>(e@),
        },
{
    if buf.len() < ATTRIBUTES_LEN {
        return Err(
            Error::TruncatedReport {
                report_name: "LampArrayAttributes",
                expected: ATTRIBUTES_LEN,
                got: buf.len(),
            },
        );
    }
    let kind: u32 = bytes::read_u32(buf, 15);
    Ok(
        LampArrayAttributes {
            lamp_count: bytes::read_u16(buf, 1),
            width_um: bytes::read_u32(buf, 3),
            height_um: bytes::read_u32(buf, 7),
            depth_um: bytes::read_u32(buf, 11),
            kind,
            kind_name: lamp_array_kind_name(kind),
            min_update_interval_us: bytes::read_u32(buf, 19),
        },
    )
}

/// What a device sends to describe a lamp: the report ID and the fields, low bytes first. Any byte
/// but 0 in the place of IsProgrammable means that the lamp is programmable.
pub open spec fn response_of(report_id: u8, lamp: LampAttributes, programmable: u8) -> Seq<u8> {
    seq![report_id] + bytes::two_bytes(lamp.lamp_id) + bytes::four_bytes(lamp.position_x_um)
        + bytes::four_bytes(lamp.position_y_um) + bytes::four_bytes(lamp.position_z_um)
        + bytes::four_bytes(lamp.update_latency_us) + bytes::four_bytes(lamp.lamp_purposes) + seq![
        lamp.red_level_count,
        lamp.green_level_count,
        lamp.blue_level_count,
        lamp.intensity_level_count,
        programmable,
        lamp.input_binding,
    ]
}

/// A lamp is known as its device describes it, whatever follows the fields in the report.
pub proof fn lamps_are_read_back(
    report_id: u8,
    lamp: LampAttributes,
    programmable: u8,
    tail: Seq<u8>,
)
    requires
        programmable != 0 <==> lamp.is_programmable,
    ensures
        lamp_response(response_of(report_id, lamp, programmable) + tail) == Ok::<
            LampAttributes,
            ErrorView,
        >(lamp),
{
    let b = response_of(report_id, lamp, programmable) + tail;
    assert(b.subrange(1, 3) =~= bytes::two_bytes(lamp.lamp_id));
    assert(b.subrange(3, 7) =~= bytes::four_bytes(lamp.position_x_um));
    assert(b.subrange(7, 11) =~= bytes::four_bytes(lamp.position_y_um));
    assert(b.subrange(11, 15) =~= bytes::four_bytes(lamp.position_z_um));
    assert(b.subrange(15, 19) =~= bytes::four_bytes(lamp.update_latency_us));
    assert(b.subrange(19, 23) =~= bytes::four_bytes(lamp.lamp_purposes));
    bytes::two_bytes_are_read_back(b, 1, lamp.lamp_id);
    bytes::four_bytes_are_read_back(b, 3, lamp.position_x_um);
    bytes::four_bytes_are_read_back(b, 7, lamp.position_y_um);
    bytes::four_bytes_are_read_back(b, 11, lamp.position_z_um);
    bytes::four_bytes_are_read_back(b, 15, lamp.update_latency_us);
    bytes::four_bytes_are_read_back(b, 19, lamp.lamp_purposes);
}

/// What a device sends to describe itself: the report ID and the fields, low bytes first.
pub open spec fn attributes_of(report_id: u8, a: LampArrayAttributesView) -> Seq<u8> {
    seq![report_id] + bytes::two_bytes(a.lamp_count) + bytes::four_bytes(a.width_um)
        + bytes::four_bytes(a.height_um) + bytes::four_bytes(a.depth_um) + bytes::four_bytes(a.kind)
        + bytes::four_bytes(a.min_update_interval_us)
}

/// A device is known as it describes itself, whatever follows the fields in the report.
pub proof fn attributes_are_read_back(report_id: u8, a: LampArrayAttributesView, tail: Seq<u8>)
    requires
        a.kind_name == kind_name(a.kind),
    ensures
        attributes_response(attributes_of(report_id, a) + tail) == Ok::<
            LampArrayAttributesView,
            ErrorView,
        >(a),
{
    let b = attributes_of(report_id, a) + tail;
    assert(b.subrange(1, 3) =~= bytes::two_bytes(a.lamp_count));
    assert(b.subrange(3, 7) =~= bytes::four_bytes(a.width_um));
    assert(b.subrange(7, 11) =~= bytes::four_bytes(a.height_um));
    assert(b.subrange(11, 15) =~= bytes::four_bytes(a.depth_um));
    assert(b.subrange(15, 19) =~= bytes::four_bytes(a.kind));
    assert(b.subrange(19, 23) =~= bytes::four_bytes(a.min_update_interval_us));
    bytes::two_bytes_are_read_back(b, 1, a.lamp_count);
    bytes::four_bytes_are_read_back(b, 3, a.width_um);
    bytes::four_bytes_are_read_back(b, 7, a.height_um);
    bytes::four_bytes_are_read_back(b, 11, a.depth_um);
    bytes::four_bytes_are_read_back(b, 15, a.kind);
    bytes::four_bytes_are_read_back(b, 19, a.min_update_interval_us);
}

/// Reports are taken exactly where they have all their bytes, 29 for a lamp and 23 for a device; a
/// shorter one is an error that says how many bytes came.
pub proof fn short_reports_are_refused(buf: Seq<u8>)
    ensures
        lamp_response(buf) is Ok <==> buf.len() >= 29,
        buf.len() < 29 ==> lamp_response(buf) == Err::<LampAttributes, ErrorView>(
            ErrorView::TruncatedReport {
                report_name: "LampAttributesResponse"@,
                expected: 29,
                got: buf.len(),
            },
        ),
        attributes_response(buf) is Ok <==> buf.len() >= 23,
        buf.len() < 23 ==> attributes_response(buf) == Err::<LampArrayAttributesView, ErrorView>(
            ErrorView::TruncatedReport {
                report_name: "LampArrayAttributes"@,
                expected: 23,
                got: buf.len(),
            },
        ),
{
}

/// The kinds below 12 have the names of the HID Usage Tables, those from 0x100 on are the vendor's,
/// and those between are reserved.
pub proof fn kinds_are_named(kind: u32)
    ensures
        ({
            let names = seq![
                "Undefined"@,
                "Keyboard"@,
                "Mouse"@,
                "GameController"@,
                "Peripheral"@,
                "Scene"@,
                "Notification"@,
                "Chassis"@,
                "Wearable"@,
                "Furniture"@,
                "Art"@,
                "Headset"@,
            ];
            kind_name(kind) == if kind < names.len() {
                names[kind as int]
            } else if kind < 0x100 {
                "Reserved"@
            } else {
                "Vendor-defined"@
            }
        }),
{
}

} // verus!

//! LampArray devices.

use vstd::prelude::*;

use super::multi_update::LampColor;
use super::session;
use super::session::{Goal, GoalView, LampArraySession};
use crate::descriptor::{LampArrayInfo, LampArrayInfoView};

verus! {

/// HID LampArray (Usage Page 0x59) control.
///
/// Implements the LampArray operation flow per HUT v1.4 Section 26.6:
/// interrogation -> disable autonomous -> update lamps -> (re-enable autonomous)
///
/// Report IDs and sizes come from descriptor parsing, not hardcoded.
///
/// Every operation is a conversation with the device, which a [`LampArraySession`] conducts.
pub struct LampArrayDevice<'a> {
    info: &'a LampArrayInfo,
}

impl View for LampArrayDevice<'_> {
    type V = LampArrayInfoView;

    closed spec fn view(&self) -> LampArrayInfoView {
        self.info@
    }
}

/// The one-line summary of a device with these update reports.
pub open spec fn summary_of(has_range: bool, has_multi: bool) -> Seq<char> {
    if has_range && has_multi {
        "LampArray (range+multi update)"@
    } else if has_range {
        "LampArray (range update)"@
    } else if has_multi {
        "LampArray (multi update)"@
    } else {
        "LampArray"@
    }
}

impl<'a> LampArrayDevice<'a> {
    pub fn new(info: &'a LampArrayInfo) -> (device: Self)
        ensures
            device@ == info@,
    {
        LampArrayDevice { info }
    }

    /// The device path (e.g. `/dev/hidraw0`).
    pub fn path(&self) -> (path: &str)
        ensures
            path@ == self@.hidraw_path,
    {
        self.info.hidraw_path.as_str()
    }

    /// The device name from sysfs.
    pub fn name(&self) -> (name: &str)
        ensures
            name@ == self@.name,
    {
        self.info.name.as_str()
    }

    /// Read LampArrayAttributesReport (Section 26.2).
    ///
    /// Returns lamp count, bounding box dimensions, device kind,
    /// and minimum update interval.
    pub fn get_attributes(&self) -> (s: LampArraySession)
        ensures
            s@ == session::conversation(self@.hidraw_path, self@.reports, GoalView::Attributes),
    {
        LampArraySession::begin(self.path(), &self.info.reports, Goal::Attributes)
    }

    /// Read attributes for a single lamp (Section 26.3).
    ///
    /// Sends LampAttributesRequestReport with the lamp index,
    /// then reads LampAttributesResponseReport.
    pub fn get_lamp(&self, index: u16) -> (s: LampArraySession)
        ensures
            s@ == session::conversation(
                self@.hidraw_path,
                self@.reports,
                GoalView::Lamp { index },
            ),
    {
        LampArraySession::begin(self.path(), &self.info.reports, Goal::Lamp { index })
    }

    /// Read attributes and all lamp info, with the device opened once.
    ///
    /// Uses the auto-increment mechanism (Section 26.8.2) to read all
    /// lamp attributes efficiently with a single request followed by
    /// sequential responses.
    pub fn get_attributes_and_lamps(&self) -> (s: LampArraySession)
        ensures
            s@ == session::conversation(self@.hidraw_path, self@.reports, GoalView::Everything),
    {
        LampArraySession::begin(self.path(), &self.info.reports, Goal::Everything)
    }

    /// Toggle AutonomousMode (Section 26.5, 26.10.1).
    ///
    /// When `true`: device controls lamps autonomously (built-in effects).
    /// When `false`: host has exclusive control, device ignores its own effects.
    /// Default device state is `true` (autonomous).
    pub fn set_autonomous(&self, enabled: bool) -> (s: LampArraySession)
        ensures
            s@ == session::conversation(
                self@.hidraw_path,
                self@.reports,
                GoalView::Autonomous { enabled },
            ),
    {
        LampArraySession::begin(self.path(), &self.info.reports, Goal::Autonomous { enabled })
    }

    /// Set all lamps to a uniform color.
    ///
    /// Disables autonomous mode, reads all lamp attributes, scales the
    /// RGBI values to the device's LevelCounts (Section 26.9), then sends
    /// a LampRangeUpdate covering all lamps with LampUpdateComplete=1.
    ///
    /// RGB values are scaled to the minimum LevelCount across all
    /// *Programmable* lamps in the range (FixedColor lamps' RGB channels
    /// are ignored by the device per Section 26.11.2). Intensity is scaled
    /// to the minimum IntensityLevelCount across *all* lamps.
    ///
    /// Note: Callers performing rapid sequential updates should respect
    /// the device's `min_update_interval_us` (from `get_attributes`)
    /// between calls. Per Section 26.11, the spec requires no more than
    /// one LampUpdateComplete per MinUpdateIntervalInMicroseconds.
    pub fn set_color(&self, r: u8, g: u8, b: u8, intensity: u8) -> (s: LampArraySession)
        ensures
            s@ == session::conversation(
                self@.hidraw_path,
                self@.reports,
                GoalView::Color { red: r, green: g, blue: b, intensity },
            ),
    {
        LampArraySession::begin(
            self.path(),
            &self.info.reports,
            Goal::Color { red: r, green: g, blue: b, intensity },
        )
    }

    /// Set individual lamp colors using LampMultiUpdateReport (Section 26.11.1).
    ///
    /// Before sending, the conversation:
    /// - Validates all LampIds are within the device's LampCount range
    ///   (Section 26.11.1: "Any LampId >= Device LampCount" is an error)
    /// - Rejects duplicate LampIds within a single call
    ///   (Section 26.11.1: "Identical LampId in multiple slots" is an error)
    /// - Scales RGBI values to each lamp's declared LevelCounts (Section 26.9)
    /// - Zeros RGB channels for FixedColor lamps (Section 26.11.1 best practice)
    ///
    /// Colors are batched into reports based on the device's slot count.
    /// Intermediate batches set LampUpdateComplete=0; the final batch sets
    /// LampUpdateComplete=1 so the device applies all updates atomically.
    ///
    /// Requires the device descriptor to have a `multi_update` report.
    ///
    /// Note: Callers performing rapid sequential updates should respect
    /// the device's `min_update_interval_us` (from `get_attributes`)
    /// between calls. Per Section 26.11, the spec requires no more than
    /// one LampUpdateComplete per MinUpdateIntervalInMicroseconds.
    pub fn set_lamp_colors(&self, colors: &[LampColor]) -> (s: LampArraySession)
        ensures
            s@ == session::conversation(
                self@.hidraw_path,
                self@.reports,
                GoalView::LampColors { colors: colors@ },
            ),
    {
        let mut copy: Vec<LampColor> = Vec::new();
        let mut i: usize = 0;
        while i < colors.len()
            invariant
                i <= colors@.len(),
                copy@ == colors@.take(i as int),
            decreases colors@.len() - i,
        {
            copy.push(colors[i]);
            i = i + 1;
        }
        assert(copy@ =~= colors@);
        LampArraySession::begin(
            self.path(),
            &self.info.reports,
            Goal::LampColors { colors: copy },
        )
    }

    /// One-line summary for CLI listing.
    ///
    /// Returns a static description based on descriptor info only: the device is not accessed.
    pub fn summary(&self) -> (summary: &'static str)
        ensures
            summary@ == summary_of(
                self@.reports.range_update is Some,
                self@.reports.multi_update is Some,
            ),
    {
        let has_range: bool = self.info.reports.range_update.is_some();
        let has_multi: bool = self.info.reports.multi_update.is_some();
        match (has_range, has_multi) {
            (true, true) => "LampArray (range+multi update)",
            (true, false) => "LampArray (range update)",
            (false, true) => "LampArray (multi update)",
            (false, false) => "LampArray",
        }
    }
}

} // verus!

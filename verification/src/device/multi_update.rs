//! The LampMultiUpdateReport: individual colors for individual lamps (Section 26.11.1).
//!
//! Layout, after the report ID: LampCount(8), LampUpdateFlags(8), one LampId(16) per slot, one
//! RGBI(8 x 4) per slot. A list of colors that does not fit into one report is cut into batches.

use vstd::prelude::*;

use crate::bytes;

verus! {

/// Per-lamp color specification for `LampArrayDevice::set_lamp_colors`.
#[derive(Debug, Clone, Copy, PartialEq, Eq, Structural)]
pub struct LampColor {
    pub lamp_id: u16,
    pub red: u8,
    pub green: u8,
    pub blue: u8,
    pub intensity: u8,
}

/// How many lamps one report of `size` data bytes has room for.
pub open spec fn slots_in(size: nat) -> nat {
    if size < 2 {
        0
    } else {
        ((size - 2) / 6) as nat
    }
}

/// One byte of a lamp's RGBI quadruple.
pub open spec fn channel_byte(c: LampColor, k: int) -> u8 {
    if k == 0 {
        c.red
    } else if k == 1 {
        c.green
    } else if k == 2 {
        c.blue
    } else {
        c.intensity
    }
}

/// Byte `k` of the LampId slots, counted from the first of them.
pub open spec fn id_slot_byte(batch: Seq<LampColor>, k: int) -> u8 {
    if k / 2 < batch.len() {
        if k % 2 == 0 {
            bytes::low_byte(batch[k / 2].lamp_id)
        } else {
            bytes::high_byte(batch[k / 2].lamp_id)
        }
    } else {
        0
    }
}

/// Byte `k` of the RGBI slots, counted from the first of them.
pub open spec fn color_slot_byte(batch: Seq<LampColor>, k: int) -> u8 {
    if k / 4 < batch.len() {
        channel_byte(batch[k / 4], k % 4)
    } else {
        0
    }
}

/// The report that carries `batch`, for a report declared with `size` data bytes.
///
/// The LampCount byte holds the low eight bits of the number of lamps.
#[verifier::opaque]
pub open spec fn batch_report(
    report_id: u8,
    size: nat,
    batch: Seq<LampColor>,
    is_last: bool,
) -> Seq<u8> {
    let slots = slots_in(size);
    Seq::new(
        size + 1,
        |k: int|
            if k == 0 {
                report_id
            } else if k == 1 {
                (batch.len() % 0x100) as u8
            } else if k == 2 {
                if is_last {
                    1u8
                } else {
                    0u8
                }
            } else if k < 3 + 2 * slots {
                id_slot_byte(batch, k - 3)
            } else if k < 3 + 6 * slots {
                color_slot_byte(batch, k - 3 - 2 * slots)
            } else {
                0u8
            },
    )
}

/// How many batches of at most `slots` entries a list of `len` entries makes.
pub open spec fn batch_count(len: nat, slots: nat) -> nat
    recommends
        slots > 0,
{
    ((len + slots - 1) / slots as int) as nat
}

/// Batch number `k` of a list cut into pieces of `slots` entries, the last one shorter.
pub open spec fn batch(colors: Seq<LampColor>, slots: nat, k: nat) -> Seq<LampColor> {
    let from = k * slots;
    let to = if from + slots < colors.len() {
        from + slots
    } else {
        colors.len()
    };
    colors.subrange(from as int, to as int)
}

/// All reports that bring `colors` to a device whose report has `size` data bytes: one per batch,
/// with LampUpdateComplete in the last one.
pub open spec fn update_reports(report_id: u8, size: nat, colors: Seq<LampColor>) -> Seq<Seq<u8>> {
    let slots = slots_in(size);
    let count = batch_count(colors.len(), slots);
    Seq::new(
        count,
        |k: int| batch_report(report_id, size, batch(colors, slots, k as nat), k + 1 == count),
    )
}

/// What a device reads out of one update report: as many slots as LampCount says.
pub open spec fn report_entries(report: Seq<u8>, size: nat) -> Seq<LampColor> {
    let colors = 3 + 2 * slots_in(size);
    Seq::new(
        report[1] as nat,
        |j: int|
            LampColor {
                lamp_id: bytes::le16(report, 3 + 2 * j),
                red: report[colors + 4 * j],
                green: report[colors + 4 * j + 1],
                blue: report[colors + 4 * j + 2],
                intensity: report[colors + 4 * j + 3],
            },
    )
}

/// What a device reads out of a list of update reports, in order.
pub open spec fn all_entries(reports: Seq<Seq<u8>>, size: nat) -> Seq<LampColor>
    decreases reports.len(),
{
    if reports.len() == 0 {
        Seq::empty()
    } else {
        all_entries(reports.drop_last(), size) + report_entries(reports.last(), size)
    }
}

/// LampUpdateComplete (bit 0 of LampUpdateFlags) of an update report.
pub open spec fn is_complete(report: Seq<u8>) -> bool {
    report[2] % 2 == 1
}

/// The number of slots in a report of `size` data bytes.
pub fn slot_count(size: usize) -> (n: usize)
    ensures
        n == slots_in(size as nat),
{
    size.saturating_sub(2) / 6
}

/// Builds the report for `colors[from..to]`.
pub fn build_batch_report(
    report_id: u8,
    size: usize,
    colors: &Vec<LampColor>,
    from: usize,
    to: usize,
    is_last: bool,
) -> (buf: Vec<u8>)
    requires
        size < isize::MAX,
        from <= to <= colors@.len(),
        to - from <= slots_in(size as nat),
        slots_in(size as nat) > 0,
    ensures
        buf@ == batch_report(
            report_id,
            size as nat,
            colors@.subrange(from as int, to as int),
            is_last,
        ),
{
    let slots: usize = slot_count(size);
    let n: usize = to - from;
    let ghost batch = colors@.subrange(from as int, to as int);
    let mut buf: Vec<u8> = vec![0u8; size + 1];
    buf[0] = report_id;
    buf[1] = (n % 0x100) as u8;
    buf[2] = if is_last {
        0x01
    } else {
        0x00
    };

    let ghost head = buf@;
    let mut j: usize = 0;
    while j < n
        invariant
            j <= n,
            n == to - from,
            from <= to <= colors@.len(),
            n <= slots,
            3 + 6 * slots <= size + 1,
            size < isize::MAX,
            batch == colors@.subrange(from as int, to as int),
            buf@.len() == size + 1,
            head.len() == size + 1,
            forall|k: int| 0 <= k < 3 ==> buf@[k] == head[k],
            forall|k: int| 3 <= k < 3 + 2 * j ==> buf@[k] == id_slot_byte(batch, k - 3),
            forall|k: int| 3 + 2 * j <= k < size + 1 ==> buf@[k] == 0,
        decreases n - j,
    {
        let id: u16 = colors[from + j].lamp_id;
        buf[3 + 2 * j] = (id % 0x100) as u8;
        buf[3 + 2 * j + 1] = (id / 0x100) as u8;
        assert(batch[j as int] == colors@[from + j]);
        j = j + 1;
    }

    let start: usize = 3 + 2 * slots;
    let ghost with_ids = buf@;
    let mut j: usize = 0;
    while j < n
        invariant
            j <= n,
            n == to - from,
            from <= to <= colors@.len(),
            n <= slots,
            start == 3 + 2 * slots,
            start + 4 * slots <= size + 1,
            size < isize::MAX,
            batch == colors@.subrange(from as int, to as int),
            buf@.len() == size + 1,
            with_ids.len() == size + 1,
            forall|k: int| 0 <= k < start ==> buf@[k] == with_ids[k],
            forall|k: int| start <= k < start + 4 * j ==> buf@[k] == color_slot_byte(batch, k - start),
            forall|k: int| start + 4 * j <= k < size + 1 ==> buf@[k] == 0,
        decreases n - j,
    {
        let c: LampColor = colors[from + j];
        let off: usize = start + 4 * j;
        buf[off] = c.red;
        buf[off + 1] = c.green;
        buf[off + 2] = c.blue;
        buf[off + 3] = c.intensity;
        assert(batch[j as int] == c);
        j = j + 1;
    }
    let ghost want = batch_report(report_id, size as nat, batch, is_last);
    reveal(batch_report);
    assert forall|k: int| 0 <= k < size + 1 implies buf@[k] == want[k] by {
        if k < 3 {
            assert(buf@[k] == with_ids[k] == head[k]);
        } else if k < 3 + 2 * slots {
            assert(buf@[k] == with_ids[k]);
        }
    }
    assert(buf@ =~= want);
    buf
}

/// Whether batch number `k` of a list of `len` entries is the last one.
pub fn is_last_batch(len: usize, slots: usize, k: usize) -> (b: bool)
    requires
        slots > 0,
        k < batch_count(len as nat, slots as nat),
    ensures
        b == (k + 1 == batch_count(len as nat, slots as nat)),
        k < len,
{
    proof {
        batch_bounds(len as nat, slots as nat, k as nat);
        assert(k <= k * slots) by (nonlinear_arith)
            requires
                k >= 0,
                slots > 0,
        ;
        assert((k + 1) * slots == k * slots + slots) by (nonlinear_arith);
    }
    len - k * slots <= slots
}

/// Builds update report number `k` of a list of colors.
pub fn build_update_report(report_id: u8, size: usize, colors: &Vec<LampColor>, k: usize) -> (buf:
    Vec<u8>)
    requires
        size < isize::MAX,
        slots_in(size as nat) > 0,
        k < batch_count(colors@.len(), slots_in(size as nat)),
    ensures
        buf@ == update_reports(report_id, size as nat, colors@)[k as int],
{
    let slots: usize = slot_count(size);
    let len: usize = colors.len();
    proof {
        batch_bounds(len as nat, slots as nat, k as nat);
    }
    let is_last: bool = is_last_batch(len, slots, k);
    let from: usize = k * slots;
    let to: usize = if len - from > slots {
        from + slots
    } else {
        len
    };
    build_batch_report(report_id, size, colors, from, to, is_last)
}

/// The batches before `count` are full and start inside the list; the last one ends with it.
proof fn batch_bounds(len: nat, slots: nat, k: nat)
    requires
        slots > 0,
        k < batch_count(len, slots),
    ensures
        k * slots < len,
        k + 1 < batch_count(len, slots) <==> (k + 1) * slots < len,
{
    let count = batch_count(len, slots);
    assert(k * slots < len && (k + 1 < count <==> (k + 1) * slots < len)) by (nonlinear_arith)
        requires
            slots > 0,
            k < count,
            count == (len + slots - 1) / slots as int,
    ;
}

/// The bytes of one lamp in an update report.
proof fn report_slot(report_id: u8, size: nat, lamps: Seq<LampColor>, is_last: bool, j: int)
    requires
        lamps.len() <= slots_in(size),
        0 <= j < lamps.len(),
    ensures
        ({
            let report = batch_report(report_id, size, lamps, is_last);
            let at = 3 + 2 * slots_in(size) + 4 * j;
            &&& report[3 + 2 * j] == bytes::low_byte(lamps[j].lamp_id)
            &&& report[3 + 2 * j + 1] == bytes::high_byte(lamps[j].lamp_id)
            &&& report[at] == lamps[j].red
            &&& report[at + 1] == lamps[j].green
            &&& report[at + 2] == lamps[j].blue
            &&& report[at + 3] == lamps[j].intensity
        }),
{
    reveal(batch_report);
    let slots = slots_in(size);
    assert(2 + 6 * slots <= size);
    assert((2 * j) / 2 == j && (2 * j) % 2 == 0);
    assert((2 * j + 1) / 2 == j && (2 * j + 1) % 2 == 1);
    assert((4 * j) / 4 == j && (4 * j) % 4 == 0);
    assert((4 * j + 1) / 4 == j && (4 * j + 1) % 4 == 1);
    assert((4 * j + 2) / 4 == j && (4 * j + 2) % 4 == 2);
    assert((4 * j + 3) / 4 == j && (4 * j + 3) % 4 == 3);
}

/// An update report gives back the batch that it was built from, as long as the number of lamps
/// fits into the LampCount byte.
pub proof fn report_gives_back_batch(
    report_id: u8,
    size: nat,
    lamps: Seq<LampColor>,
    is_last: bool,
)
    requires
        lamps.len() <= slots_in(size),
        lamps.len() <= 0xFF,
        slots_in(size) > 0,
    ensures
        report_entries(batch_report(report_id, size, lamps, is_last), size) == lamps,
        is_complete(batch_report(report_id, size, lamps, is_last)) == is_last,
{
    let report = batch_report(report_id, size, lamps, is_last);
    let entries = report_entries(report, size);
    assert(report[1] == lamps.len() && report[2] == if is_last { 1u8 } else { 0u8 }) by {
        reveal(batch_report);
    }
    assert(entries.len() == lamps.len());
    assert forall|j: int| 0 <= j < lamps.len() implies entries[j] == lamps[j] by {
        report_slot(report_id, size, lamps, is_last, j);
        bytes::le16_of_bytes(report, 3 + 2 * j, lamps[j].lamp_id);
    }
    assert(entries =~= lamps);
}

/// The first `n` reports carry the colors of the first `n` batches.
proof fn first_reports_carry(report_id: u8, size: nat, colors: Seq<LampColor>, n: nat)
    requires
        slots_in(size) > 0,
        slots_in(size) <= 0xFF || colors.len() <= 0xFF,
        n <= batch_count(colors.len(), slots_in(size)),
    ensures
        all_entries(update_reports(report_id, size, colors).take(n as int), size) == colors.take(
            if n * slots_in(size) < colors.len() {
                (n * slots_in(size)) as int
            } else {
                colors.len() as int
            },
        ),
    decreases n,
{
    let slots = slots_in(size);
    let reports = update_reports(report_id, size, colors);
    if n == 0 {
        assert(n * slots == 0) by (nonlinear_arith)
            requires
                n == 0,
        ;
        assert(colors.take(0) =~= Seq::empty());
        assert(reports.take(0) =~= Seq::empty());
    } else {
        let k = (n - 1) as nat;
        first_reports_carry(report_id, size, colors, k);
        batch_bounds(colors.len(), slots, k);
        let piece = batch(colors, slots, k);
        assert(n * slots == k * slots + slots) by (nonlinear_arith)
            requires
                n == k + 1,
        ;
        assert(piece.len() <= slots && piece.len() <= colors.len());
        assert(reports[k as int] == batch_report(report_id, size, piece, k + 1 == reports.len()));
        report_gives_back_batch(report_id, size, piece, k + 1 == reports.len());
        assert(reports.take(n as int).drop_last() =~= reports.take(k as int));
        assert(reports.take(n as int).last() == reports[k as int]);
        assert(colors.take((k * slots) as int) + piece =~= colors.take(
            if n * slots < colors.len() {
                (n * slots) as int
            } else {
                colors.len() as int
            },
        ));
    }
}

/// There is an update report unless the list of colors is empty, every report has the declared size,
/// and LampUpdateComplete is set in the last report and in no other: the device applies all updates
/// at once.
pub proof fn last_report_completes(report_id: u8, size: nat, colors: Seq<LampColor>)
    requires
        slots_in(size) > 0,
    ensures
        colors.len() > 0 ==> update_reports(report_id, size, colors).len() > 0,
        forall|k: int|
            #![trigger update_reports(report_id, size, colors)[k]]
            0 <= k < update_reports(report_id, size, colors).len() ==> {
                let report = update_reports(report_id, size, colors)[k];
                &&& report.len() == size + 1
                &&& report[0] == report_id
                &&& is_complete(report) <==> k == update_reports(report_id, size, colors).len() - 1
            },
{
    let slots = slots_in(size);
    let reports = update_reports(report_id, size, colors);
    let count = reports.len();
    assert(colors.len() > 0 ==> count > 0) by (nonlinear_arith)
        requires
            slots > 0,
            count == (colors.len() + slots - 1) / slots as int,
    ;
    assert forall|k: int| 0 <= k < count implies {
        let report = #[trigger] reports[k];
        &&& report.len() == size + 1
        &&& report[0] == report_id
        &&& is_complete(report) <==> k == count - 1
    } by {
        reveal(batch_report);
    }
}

/// Batching loses, adds and reorders nothing: what a device reads out of the update reports is
/// the list of colors.
///
/// This holds wherever the number of lamps in a report fits into the LampCount byte.
pub proof fn updates_carry_every_color(report_id: u8, size: nat, colors: Seq<LampColor>)
    requires
        slots_in(size) > 0,
        slots_in(size) <= 0xFF || colors.len() <= 0xFF,
    ensures
        all_entries(update_reports(report_id, size, colors), size) == colors,
{
    let slots = slots_in(size);
    let reports = update_reports(report_id, size, colors);
    let count = reports.len();
    first_reports_carry(report_id, size, colors, count);
    assert(reports.take(count as int) =~= reports);
    assert(count * slots >= colors.len()) by (nonlinear_arith)
        requires
            slots > 0,
            count == (colors.len() + slots - 1) / slots as int,
    ;
    assert(colors.take(colors.len() as int) =~= colors);
}

/// Where a color stands among the update reports: in report `c / slots`, where `slots` is a sixth of
/// the bytes behind LampCount and the flags, and there in slot `c % slots`. The slot holds the lamp ID
/// low byte first and, behind all IDs, red, green, blue and intensity.
pub proof fn every_color_has_its_slot(report_id: u8, size: nat, colors: Seq<LampColor>, c: int)
    requires
        size >= 8,
        0 <= c < colors.len(),
    ensures
        ({
            let slots = (size - 2) / 6;
            let reports = update_reports(report_id, size, colors);
            let r = reports[c / slots];
            let slot = c % slots;
            let rgbi = 3 + 2 * slots + 4 * slot;
            &&& 0 <= c / slots < reports.len()
            &&& r[3 + 2 * slot] + 0x100 * r[3 + 2 * slot + 1] == colors[c].lamp_id
            &&& r[rgbi] == colors[c].red
            &&& r[rgbi + 1] == colors[c].green
            &&& r[rgbi + 2] == colors[c].blue
            &&& r[rgbi + 3] == colors[c].intensity
        }),
{
    let slots = slots_in(size) as int;
    assert(slots == (size - 2) / 6 && slots > 0);
    let k = c / slots;
    let slot = c % slots;
    let len = colors.len() as int;
    let count = batch_count(colors.len(), slots as nat) as int;
    assert(c == k * slots + slot && 0 <= slot < slots && 0 <= k && k < count && k * slots
        <= c) by (nonlinear_arith)
        requires
            slots > 0,
            0 <= c < len,
            k == c / slots,
            slot == c % slots,
            count == (len + slots - 1) / slots,
    ;
    let lamps = batch(colors, slots as nat, k as nat);
    assert(k as nat * slots as nat == k * slots);
    assert(lamps[slot] == colors[c]);
    report_slot(report_id, size, lamps, k + 1 == count, slot);
}

/// How the colors are spread over the reports: every report but the last is full, the last has what
/// is left, and each says how many lamps it holds, in eight bits. Slots that are not used, and what
/// is left of a report behind the slots, are zero.
pub proof fn reports_are_filled_in_order(
    report_id: u8,
    size: nat,
    colors: Seq<LampColor>,
    k: int,
    b: int,
)
    requires
        size >= 8,
        0 <= k < update_reports(report_id, size, colors).len(),
    ensures
        ({
            let slots = (size - 2) / 6;
            let reports = update_reports(report_id, size, colors);
            let r = reports[k];
            let held = if k < reports.len() - 1 {
                slots
            } else {
                colors.len() - k * slots
            };
            &&& (reports.len() - 1) * slots < colors.len() <= reports.len() * slots
            &&& r.len() == size + 1
            &&& r[0] == report_id
            &&& r[1] == held % 0x100
            &&& r[2] == if k == reports.len() - 1 {
                1u8
            } else {
                0u8
            }
            &&& 3 + 2 * held <= b < 3 + 2 * slots ==> r[b] == 0
            &&& 3 + 2 * slots + 4 * held <= b < r.len() ==> r[b] == 0
        }),
{
    reveal(batch_report);
    let slots = slots_in(size) as int;
    assert(slots == (size - 2) / 6 && slots > 0);
    let len = colors.len() as int;
    let count = batch_count(colors.len(), slots as nat) as int;
    assert((count - 1) * slots < len <= count * slots) by (nonlinear_arith)
        requires
            slots > 0,
            len >= 0,
            count > 0,
            count == (len + slots - 1) / slots,
    ;
    batch_bounds(colors.len(), slots as nat, k as nat);
    assert((k + 1) * slots == k * slots + slots) by (nonlinear_arith);
    assert(k as nat * slots as nat == k * slots);
    if k == count - 1 {
        assert(k * slots == (count - 1) * slots);
    }
    let lamps = batch(colors, slots as nat, k as nat);
    let held = if k < count - 1 {
        slots
    } else {
        len - k * slots
    };
    assert(lamps.len() == held);
    if 3 + 2 * held <= b < 3 + 2 * slots {
        assert((b - 3) / 2 >= held);
    }
    if 3 + 2 * slots + 4 * held <= b < 3 + 6 * slots {
        assert((b - 3 - 2 * slots) / 4 >= held);
    }
}

/// A report has room for a lamp for every six bytes behind the first two.
pub proof fn slots_are_six_bytes(size: nat)
    ensures
        size < 8 ==> slots_in(size) == 0,
        size >= 8 ==> 2 + 6 * slots_in(size) <= size < 2 + 6 * (slots_in(size) + 1),
{
}

} // verus!

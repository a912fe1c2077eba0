//! Whole conversations with a LampArray device: what is sent, in which order, and how they end.

use vstd::prelude::*;

use crate::bytes;
use crate::descriptor::{LampArrayReports, LampReport};
use crate::device::lamp;
use crate::device::lamp::{LampArrayAttributesView, LampAttributes};
use crate::device::led_rgb;
use crate::device::multi_update;
use crate::device::multi_update::LampColor;
use crate::device::scale;
use crate::device::session;
use crate::device::session::{GoalView, OutcomeView, PhaseView, RequestView, SessionView, SetupView};
use crate::device::update;
use crate::device::update::Channel;
use crate::error::{ErrorView, IoFailureView, IoKind};

verus! {

/// The state after a list of accesses returned.
pub open spec fn play(s: SessionView, replies: Seq<Result<Seq<u8>, IoFailureView>>) -> SessionView
    decreases replies.len(),
{
    if replies.len() == 0 {
        s
    } else {
        play(s, replies.drop_last()).step(replies.last())
    }
}

/// The accesses that were made while a list of them returned.
pub open spec fn transcript(
    s: SessionView,
    replies: Seq<Result<Seq<u8>, IoFailureView>>,
) -> Seq<RequestView>
    decreases replies.len(),
{
    if replies.len() == 0 {
        Seq::empty()
    } else {
        let before = transcript(s, replies.drop_last());
        match play(s, replies.drop_last()).request() {
            Some(request) => before.push(request),
            None => before,
        }
    }
}

proof fn play_append(
    s: SessionView,
    a: Seq<Result<Seq<u8>, IoFailureView>>,
    b: Seq<Result<Seq<u8>, IoFailureView>>,
)
    ensures
        play(s, a + b) == play(play(s, a), b),
        transcript(s, a + b) == transcript(s, a) + transcript(play(s, a), b),
    decreases b.len(),
{
    if b.len() == 0 {
        assert(a + b =~= a);
        assert(transcript(s, a) + transcript(play(s, a), b) =~= transcript(s, a));
    } else {
        assert((a + b).drop_last() =~= a + b.drop_last());
        assert((a + b).last() == b.last());
        play_append(s, a, b.drop_last());
        assert(transcript(s, a + b) =~= transcript(s, a) + transcript(play(s, a), b));
    }
}

proof fn play_one(s: SessionView, reply: Result<Seq<u8>, IoFailureView>)
    ensures
        play(s, seq![reply]) == s.step(reply),
        transcript(s, seq![reply]) == match s.request() {
            Some(request) => seq![request],
            None => Seq::empty(),
        },
{
    let replies = seq![reply];
    assert(replies.drop_last() =~= Seq::empty());
    assert(play(s, replies.drop_last()) == s);
    assert(transcript(s, replies.drop_last()) == Seq::<RequestView>::empty());
    assert(transcript(s, replies) =~= match s.request() {
        Some(request) => seq![request],
        None => Seq::empty(),
    });
}

/// A conversation is well-formed at every point, whatever the device answers.
pub proof fn always_wf(
    path: Seq<char>,
    reports: LampArrayReports,
    goal: GoalView,
    replies: Seq<Result<Seq<u8>, IoFailureView>>,
)
    ensures
        play(session::conversation(path, reports, goal), replies).wf(),
        play(session::conversation(path, reports, goal), replies).setup == (SetupView {
            path,
            reports,
            goal,
        }),
    decreases replies.len(),
{
    if replies.len() == 0 {
        session::start_wf(SetupView { path, reports, goal });
    } else {
        always_wf(path, reports, goal, replies.drop_last());
        session::step_wf(
            play(session::conversation(path, reports, goal), replies.drop_last()),
            replies.last(),
        );
    }
}

/// The host takes an answer for the lamp it asked about and no other: where reading one lamp
/// succeeds, the lamp has the ID asked for; where reading all lamps succeeds, there are as many
/// as the device counts, and each stands at its own ID.
pub proof fn lamps_read_are_the_lamps_asked_for(
    path: Seq<char>,
    reports: LampArrayReports,
    goal: GoalView,
    replies: Seq<Result<Seq<u8>, IoFailureView>>,
)
    ensures
        match play(session::conversation(path, reports, goal), replies).phase {
            PhaseView::Finished(Ok(OutcomeView::Lamp(lamp))) => goal == (GoalView::Lamp {
                index: lamp.lamp_id,
            }),
            PhaseView::Finished(Ok(OutcomeView::Everything(attributes, lamps))) => {
                &&& lamps.len() == attributes.lamp_count
                &&& forall|i: int| 0 <= i < lamps.len() ==> (#[trigger] lamps[i]).lamp_id == i
            },
            _ => true,
        },
{
    always_wf(path, reports, goal, replies);
}

/// An upper bound of the accesses that are still to come.
pub open spec fn accesses_left(s: SessionView) -> nat {
    let updates = match s.setup.goal {
        GoalView::LampColors { colors } => 1 + multi_update::batch_count(
            colors.len(),
            s.setup.slots(),
        ),
        _ => 2,
    };
    match s.phase {
        PhaseView::Opening => 0x1_0003 + updates,
        PhaseView::SwitchingMode { .. } => 0x1_0002 + updates,
        PhaseView::ReadingAttributes => 0x1_0001 + updates,
        PhaseView::RequestingLamp { .. } => 2,
        PhaseView::ReadingLamp { .. } => 1,
        PhaseView::RequestingLamps { attributes } => (1 + attributes.lamp_count + updates) as nat,
        PhaseView::ReadingLamps { attributes, lamps } => (attributes.lamp_count - lamps.len()
            + updates) as nat,
        PhaseView::SendingRange { .. } => 1,
        PhaseView::SendingBatch { colors, sent } => (multi_update::batch_count(
            colors.len(),
            s.setup.slots(),
        ) - sent) as nat,
        PhaseView::Finished(_) => 0,
    }
}

/// Every conversation comes to an end: each access that returns, with success or without, leaves
/// fewer to come, and the conversation is over when none is left.
pub proof fn every_access_is_progress(s: SessionView, reply: Result<Seq<u8>, IoFailureView>)
    requires
        s.wf(),
    ensures
        s.phase is Finished <==> accesses_left(s) == 0,
        s.phase is Finished <==> s.request() is None,
        !(s.phase is Finished) ==> accesses_left(s.step(reply)) < accesses_left(s),
{
    session::step_wf(s, reply);
}

/// A failed access ends a conversation with an error: nothing is sent after it.
pub proof fn failure_ends_conversation(s: SessionView, failure: IoFailureView)
    requires
        !(s.phase is Finished),
    ensures
        s.step(Err(failure)).phase is Finished,
        s.step(Err(failure)).phase->Finished_0 is Err,
        s.step(Err(failure)).request() is None,
{
}

/// What is over stays over, with the result it had.
pub proof fn finished_stays(s: SessionView, reply: Result<Seq<u8>, IoFailureView>)
    requires
        s.phase is Finished,
    ensures
        s.step(reply) == s,
        s.request() is None,
{
}

/// Reports that are long enough for the fields the protocol gives them.
pub open spec fn roomy(reports: LampArrayReports) -> bool {
    &&& reports.control matches Some(info) ==> 1 <= info.size < isize::MAX
    &&& reports.attr_request matches Some(info) ==> 2 <= info.size < isize::MAX
    &&& reports.range_update matches Some(info) ==> 9 <= info.size < isize::MAX
    &&& reports.multi_update matches Some(info) ==> info.size < isize::MAX
}

/// Every report can be built for a device whose reports have room for the protocol's fields.
pub proof fn roomy_reports_fit(s: SessionView)
    requires
        s.wf(),
        roomy(s.setup.reports),
    ensures
        s.fits(),
{
}

/// A LampArray device as the host sees it: the attributes report that it returns, and the
/// response report of each lamp.
pub struct Answers {
    pub attributes: Seq<u8>,
    pub lamps: Seq<Seq<u8>>,
}

impl Answers {
    /// Full reports, with as many lamps as the attributes say, each under its own ID.
    pub open spec fn valid(self) -> bool {
        &&& self.attributes.len() >= lamp::ATTRIBUTES_LEN
        &&& bytes::le16(self.attributes, 1) == self.lamps.len()
        &&& forall|i: int|
            0 <= i < self.lamps.len() ==> {
                &&& (#[trigger] self.lamps[i]).len() >= lamp::LAMP_RESPONSE_LEN
                &&& bytes::le16(self.lamps[i], 1) == i
            }
    }

    /// The attributes of the device.
    pub open spec fn device(self) -> LampArrayAttributesView {
        lamp::attributes_in(self.attributes)
    }

    /// The attributes of the lamps.
    pub open spec fn lamp_list(self) -> Seq<LampAttributes> {
        self.lamps.map_values(|b: Seq<u8>| lamp::lamp_in(b))
    }

    /// What the device returns while the host reads its lamps.
    pub open spec fn lamp_replies(self) -> Seq<Result<Seq<u8>, IoFailureView>> {
        self.lamps.map_values(|b: Seq<u8>| Ok::<Seq<u8>, IoFailureView>(b))
    }

    /// What the device returns while the host opens it, turns AutonomousMode off (if it does),
    /// and reads everything.
    pub open spec fn survey_replies(self, switches: bool) -> Seq<Result<Seq<u8>, IoFailureView>> {
        accepted(
            if switches {
                2
            } else {
                1
            },
        ) + seq![Ok::<Seq<u8>, IoFailureView>(self.attributes)] + if self.lamps.len() == 0 {
            Seq::empty()
        } else {
            accepted(1) + self.lamp_replies()
        }
    }
}

/// The replies of a device that accepts `n` accesses.
pub open spec fn accepted(n: nat) -> Seq<Result<Seq<u8>, IoFailureView>> {
    Seq::new(n, |i: int| Ok(Seq::empty()))
}

/// Whether a conversation turns AutonomousMode off before it reads the device.
pub open spec fn switches(setup: SetupView) -> bool {
    (setup.goal is Color || setup.goal is LampColors) && setup.reports.control is Some
}

/// The accesses by which the host opens a device, turns AutonomousMode off (if it does), and
/// reads everything: one request for the lamps, and one response per lamp.
pub open spec fn survey_requests(setup: SetupView, lamp_count: nat) -> Seq<RequestView> {
    let control = setup.reports.control->0;
    let attributes = setup.reports.attributes->0;
    let request = setup.reports.attr_request->0;
    let response = setup.reports.attr_response->0;
    seq![RequestView::Open { path: setup.path }] + if switches(setup) {
        seq![
            RequestView::SetFeature {
                data: update::control_report(control.report_id, control.size as nat, false),
            },
        ]
    } else {
        Seq::empty()
    } + seq![
        RequestView::GetFeature { report_id: attributes.report_id, size: attributes.size as nat },
    ] + if lamp_count == 0 {
        Seq::empty()
    } else {
        seq![
            RequestView::SetFeature {
                data: update::first_lamp_request(request.report_id, request.size as nat),
            },
        ] + Seq::new(
            lamp_count,
            |i: int|
                RequestView::GetFeature {
                    report_id: response.report_id,
                    size: response.size as nat,
                },
        )
    }
}

/// A device whose lamps the host can read has the three attribute reports.
pub open spec fn readable(reports: LampArrayReports) -> bool {
    &&& reports.attributes is Some
    &&& reports.attr_request is Some
    &&& reports.attr_response is Some
}

proof fn lamps_read(setup: SetupView, answers: Answers, k: nat)
    requires
        answers.valid(),
        readable(setup.reports),
        0 < k <= answers.lamps.len(),
    ensures
        ({
            let s = SessionView {
                setup,
                phase: PhaseView::ReadingLamps {
                    attributes: answers.device(),
                    lamps: Seq::empty(),
                },
            };
            let response = setup.reports.attr_response->0;
            &&& play(s, answers.lamp_replies().take(k as int)).setup == setup
            &&& play(s, answers.lamp_replies().take(k as int)).phase == if k < answers.lamps.len() {
                PhaseView::ReadingLamps {
                    attributes: answers.device(),
                    lamps: answers.lamp_list().take(k as int),
                }
            } else {
                setup.surveyed(answers.device(), answers.lamp_list())
            }
            &&& transcript(s, answers.lamp_replies().take(k as int)) == Seq::new(
                k,
                |i: int|
                    RequestView::GetFeature {
                        report_id: response.report_id,
                        size: response.size as nat,
                    },
            )
        }),
    decreases k,
{
    let s = SessionView {
        setup,
        phase: PhaseView::ReadingLamps { attributes: answers.device(), lamps: Seq::empty() },
    };
    let j = (k - 1) as nat;
    let replies = answers.lamp_replies();
    let lamps = answers.lamp_list();
    assert(replies.take(k as int).drop_last() =~= replies.take(j as int));
    assert(replies.take(k as int).last() == Ok::<Seq<u8>, IoFailureView>(answers.lamps[j as int]));
    if j == 0 {
        assert(replies.take(0) =~= Seq::empty());
        assert(lamps.take(0) =~= Seq::empty());
        assert(transcript(s, replies.take(0)) == Seq::<RequestView>::empty());
    } else {
        lamps_read(setup, answers, j);
    }
    assert(answers.lamps[j as int].len() >= lamp::LAMP_RESPONSE_LEN);
    assert(lamps.take(j as int).push(lamps[j as int]) =~= lamps.take(k as int));
    assert(lamps.take(lamps.len() as int) =~= lamps);
    let response = setup.reports.attr_response->0;
    let read = RequestView::GetFeature {
        report_id: response.report_id,
        size: response.size as nat,
    };
    assert(transcript(s, replies.take(k as int)) =~= Seq::new(k, |i: int| read));
}

/// The host reads a device and its `n` lamps with one request and `n` responses, in the order of
/// the protocol, and then knows them as the device described them.
pub proof fn survey_reads_everything(setup: SetupView, answers: Answers)
    requires
        answers.valid(),
        readable(setup.reports),
        setup.goal.needs_all_lamps(),
        setup.start() is Opening,
    ensures
        ({
            let s = SessionView { setup, phase: setup.start() };
            let replies = answers.survey_replies(switches(setup));
            &&& play(s, replies).setup == setup
            &&& play(s, replies).phase == setup.surveyed(answers.device(), answers.lamp_list())
            &&& transcript(s, replies) == survey_requests(setup, answers.lamps.len())
        }),
{
    let ok = Ok::<Seq<u8>, IoFailureView>(Seq::empty());
    let s0 = SessionView { setup, phase: setup.start() };
    play_one(s0, ok);
    let s1 = s0.step(ok);
    let first = if switches(setup) {
        accepted(2)
    } else {
        accepted(1)
    };
    let opened = seq![RequestView::Open { path: setup.path }];
    let control = setup.reports.control->0;
    let switched = if switches(setup) {
        seq![
            RequestView::SetFeature {
                data: update::control_report(control.report_id, control.size as nat, false),
            },
        ]
    } else {
        Seq::empty()
    };
    let s2 = SessionView { setup, phase: PhaseView::ReadingAttributes };
    assert(play(s0, first) == s2 && transcript(s0, first) =~= opened + switched) by {
        if switches(setup) {
            play_one(s1, ok);
            play_append(s0, seq![ok], seq![ok]);
            assert(accepted(2) =~= seq![ok] + seq![ok]);
        } else {
            assert(accepted(1) =~= seq![ok]);
        }
    }
    let got = Ok::<Seq<u8>, IoFailureView>(answers.attributes);
    play_one(s2, got);
    play_append(s0, first, seq![got]);
    let s3 = s2.step(got);
    let so_far = first + seq![got];
    if answers.lamps.len() == 0 {
        assert(answers.lamp_list() =~= Seq::empty());
        assert(answers.survey_replies(switches(setup)) =~= so_far);
    } else {
        play_one(s3, ok);
        let s4 = s3.step(ok);
        let n = answers.lamps.len();
        lamps_read(setup, answers, n);
        assert(answers.lamp_replies().take(n as int) =~= answers.lamp_replies());
        assert(accepted(1) =~= seq![ok]);
        play_append(s3, seq![ok], answers.lamp_replies());
        play_append(s0, so_far, seq![ok] + answers.lamp_replies());
        assert(answers.survey_replies(switches(setup)) =~= so_far + (seq![ok]
            + answers.lamp_replies()));
    }
    assert(transcript(s0, answers.survey_replies(switches(setup))) =~= survey_requests(
        setup,
        answers.lamps.len(),
    ));
}

/// Reading everything gives what the device described.
pub proof fn everything_is_read(path: Seq<char>, reports: LampArrayReports, answers: Answers)
    requires
        answers.valid(),
        readable(reports),
    ensures
        ({
            let s = session::conversation(path, reports, GoalView::Everything);
            let replies = answers.survey_replies(false);
            &&& play(s, replies).phase == session::finished(
                OutcomeView::Everything(answers.device(), answers.lamp_list()),
            )
            &&& transcript(s, replies) == survey_requests(s.setup, answers.lamps.len())
        }),
{
    survey_reads_everything(SetupView { path, reports, goal: GoalView::Everything }, answers);
}

/// Setting one color: after the device was read, a single LampRangeUpdateReport covers all its
/// lamps, from 0 to the last, with each channel scaled to the smallest level count that takes
/// part. A device without lamps is sent nothing.
pub proof fn color_reaches_all_lamps(
    path: Seq<char>,
    reports: LampArrayReports,
    red: u8,
    green: u8,
    blue: u8,
    intensity: u8,
    answers: Answers,
)
    requires
        answers.valid(),
        readable(reports),
        reports.range_update is Some,
    ensures
        ({
            let s = session::conversation(
                path,
                reports,
                GoalView::Color { red, green, blue, intensity },
            );
            let lamps = answers.lamp_list();
            let range = reports.range_update->0;
            let reading = answers.survey_replies(reports.control is Some);
            let asked = survey_requests(s.setup, lamps.len());
            if lamps.len() == 0 {
                &&& play(s, reading).phase == session::finished(OutcomeView::Done)
                &&& transcript(s, reading) == asked
            } else {
                &&& play(s, reading + accepted(1)).phase == session::finished(OutcomeView::Done)
                &&& transcript(s, reading + accepted(1)) == asked.push(
                    RequestView::SetFeature {
                        data: update::range_report(
                            range.report_id,
                            range.size as nat,
                            (lamps.len() - 1) as u16,
                            scale::scaled(red, update::level_limit(lamps, Channel::Red)),
                            scale::scaled(green, update::level_limit(lamps, Channel::Green)),
                            scale::scaled(blue, update::level_limit(lamps, Channel::Blue)),
                            scale::scaled(
                                intensity,
                                update::level_limit(lamps, Channel::Intensity),
                            ),
                        ),
                    },
                )
            }
        }),
{
    let goal = GoalView::Color { red, green, blue, intensity };
    let setup = SetupView { path, reports, goal };
    let s = session::conversation(path, reports, goal);
    survey_reads_everything(setup, answers);
    if answers.lamps.len() > 0 {
        let reading = answers.survey_replies(reports.control is Some);
        let ok = Ok::<Seq<u8>, IoFailureView>(Seq::empty());
        assert(accepted(1) =~= seq![ok]);
        play_one(play(s, reading), ok);
        play_append(s, reading, accepted(1));
        assert(transcript(s, reading + accepted(1)) =~= survey_requests(
            setup,
            answers.lamps.len(),
        ).push(transcript(play(s, reading), accepted(1))[0]));
    }
}

/// The update reports as accesses.
pub open spec fn update_requests(report_id: u8, size: nat, colors: Seq<LampColor>) -> Seq<
    RequestView,
> {
    multi_update::update_reports(report_id, size, colors).map_values(
        |data: Seq<u8>| RequestView::SetFeature { data },
    )
}

proof fn batches_sent(setup: SetupView, colors: Seq<LampColor>, k: nat)
    requires
        setup.slots() > 0,
        0 < k <= multi_update::batch_count(colors.len(), setup.slots()),
    ensures
        ({
            let s = SessionView { setup, phase: PhaseView::SendingBatch { colors, sent: 0 } };
            let multi = setup.reports.multi_update->0;
            let count = multi_update::batch_count(colors.len(), setup.slots());
            &&& play(s, accepted(k)).setup == setup
            &&& play(s, accepted(k)).phase == if k < count {
                PhaseView::SendingBatch { colors, sent: k }
            } else {
                session::finished(OutcomeView::Done)
            }
            &&& transcript(s, accepted(k)) == update_requests(
                multi.report_id,
                multi.size as nat,
                colors,
            ).take(k as int)
        }),
    decreases k,
{
    let s = SessionView { setup, phase: PhaseView::SendingBatch { colors, sent: 0 } };
    let multi = setup.reports.multi_update->0;
    let j = (k - 1) as nat;
    assert(accepted(k).drop_last() =~= accepted(j));
    if j == 0 {
        assert(accepted(0) =~= Seq::empty());
        assert(transcript(s, accepted(0)) == Seq::<RequestView>::empty());
    } else {
        batches_sent(setup, colors, j);
    }
    assert(transcript(s, accepted(k)) =~= update_requests(
        multi.report_id,
        multi.size as nat,
        colors,
    ).take(k as int));
}

/// Setting individual colors, for lamps that the device has, each of them once: after the device
/// was read, the update reports bring every color, scaled to its own lamp.
pub proof fn lamp_colors_reach_their_lamps(
    path: Seq<char>,
    reports: LampArrayReports,
    colors: Seq<LampColor>,
    answers: Answers,
)
    requires
        answers.valid(),
        readable(reports),
        reports.multi_update is Some,
        multi_update::slots_in(reports.multi_update->0.size as nat) > 0,
        colors.len() > 0,
        update::id_error(colors, answers.lamps.len() as u16) is None,
    ensures
        ({
            let s = session::conversation(path, reports, GoalView::LampColors { colors });
            let multi = reports.multi_update->0;
            let scaled = update::scaled_colors(colors, answers.lamp_list());
            let updates = update_requests(multi.report_id, multi.size as nat, scaled);
            let replies = answers.survey_replies(reports.control is Some) + accepted(updates.len());
            &&& play(s, replies).phase == session::finished(OutcomeView::Done)
            &&& transcript(s, replies) == survey_requests(s.setup, answers.lamps.len()) + updates
        }),
{
    let goal = GoalView::LampColors { colors };
    let setup = SetupView { path, reports, goal };
    let s = session::conversation(path, reports, goal);
    let multi = reports.multi_update->0;
    let scaled = update::scaled_colors(colors, answers.lamp_list());
    let updates = update_requests(multi.report_id, multi.size as nat, scaled);
    survey_reads_everything(setup, answers);
    let reading = answers.survey_replies(reports.control is Some);
    session::start_wf(setup);
    always_wf(path, reports, goal, reading);
    let count = multi_update::batch_count(scaled.len(), setup.slots());
    assert(updates.len() == count);
    batches_sent(setup, scaled, count);
    assert(updates.take(count as int) =~= updates);
    play_append(s, reading, accepted(count));
}

/// Setting individual colors, with a lamp ID that the device does not have or with an ID in two
/// places: the error says which, and nothing is sent after the device was read.
pub proof fn bad_lamp_ids_are_refused(
    path: Seq<char>,
    reports: LampArrayReports,
    colors: Seq<LampColor>,
    answers: Answers,
    e: ErrorView,
)
    requires
        answers.valid(),
        readable(reports),
        reports.multi_update is Some,
        multi_update::slots_in(reports.multi_update->0.size as nat) > 0,
        colors.len() > 0,
        update::id_error(colors, answers.lamps.len() as u16) == Some(e),
    ensures
        ({
            let s = session::conversation(path, reports, GoalView::LampColors { colors });
            let reading = answers.survey_replies(reports.control is Some);
            &&& play(s, reading).phase == session::failed(e)
            &&& transcript(s, reading) == survey_requests(s.setup, answers.lamps.len())
            &&& play(s, reading).request() is None
        }),
{
    survey_reads_everything(
        SetupView { path, reports, goal: GoalView::LampColors { colors } },
        answers,
    );
}

/// Switching the mode: one LampArrayControlReport after the device was opened.
pub proof fn mode_is_switched(path: Seq<char>, reports: LampArrayReports, enabled: bool)
    requires
        reports.control is Some,
    ensures
        ({
            let s = session::conversation(path, reports, GoalView::Autonomous { enabled });
            let control = reports.control->0;
            &&& play(s, accepted(2)).phase == session::finished(OutcomeView::Done)
            &&& transcript(s, accepted(2)) == seq![
                RequestView::Open { path },
                RequestView::SetFeature {
                    data: update::control_report(control.report_id, control.size as nat, enabled),
                },
            ]
        }),
{
    let s = session::conversation(path, reports, GoalView::Autonomous { enabled });
    let ok = Ok::<Seq<u8>, IoFailureView>(Seq::empty());
    play_one(s, ok);
    play_one(s.step(ok), ok);
    play_append(s, seq![ok], seq![ok]);
    assert(accepted(2) =~= seq![ok] + seq![ok]);
    let control = reports.control->0;
    assert(transcript(s, accepted(2)) =~= seq![
        RequestView::Open { path },
        RequestView::SetFeature {
            data: update::control_report(control.report_id, control.size as nat, enabled),
        },
    ]);
}

/// The lenient switch of the mode, with which an update begins, against the strict one. Where the
/// device has a control report, both write the same report, both end with the same error if it
/// cannot be written, and if it can the strict one is done and the update goes on. Where the device
/// has none, the strict switch is an error, and the update goes on with nothing written.
pub proof fn lenient_switch_is_the_strict_one(
    path: Seq<char>,
    reports: LampArrayReports,
    goal: GoalView,
    enabled: bool,
    data: Seq<u8>,
    failure: IoFailureView,
)
    requires
        goal is Color || goal is LampColors,
    ensures
        ({
            let update = SetupView { path, reports, goal };
            let switch = SetupView { path, reports, goal: GoalView::Autonomous { enabled } };
            let lenient = SessionView { setup: update, phase: update.try_switch(enabled) };
            let strict = SessionView { setup: switch, phase: switch.opened() };
            &&& update.opened() == update.try_switch(false)
            &&& if reports.control is Some {
                &&& lenient.request() == strict.request()
                &&& lenient.fits() == strict.fits()
                &&& lenient.request() == Some(
                    RequestView::SetFeature {
                        data: update::control_report(
                            reports.control->0.report_id,
                            reports.control->0.size as nat,
                            enabled,
                        ),
                    },
                )
                &&& lenient.step(Err(failure)).phase == strict.step(Err(failure)).phase
                &&& lenient.step(Err(failure)).phase == session::failed(ErrorView::Io(failure))
                &&& strict.step(Ok(data)).phase == session::finished(OutcomeView::Done)
                &&& lenient.step(Ok(data)).phase == update.switched()
            } else {
                &&& strict.phase == session::failed(
                    ErrorView::MissingReport { report_name: "control"@ },
                )
                &&& lenient.phase == update.switched()
            }
            // What follows the switch writes nothing by itself: the device is read.
            &&& update.switched() == update.enter(
                LampReport::Attributes,
                PhaseView::ReadingAttributes,
            )
        }),
{
}

/// Reading one lamp: a request for it, and one response.
pub proof fn one_lamp_is_read(
    path: Seq<char>,
    reports: LampArrayReports,
    index: u16,
    response: Seq<u8>,
)
    requires
        reports.attr_request is Some,
        reports.attr_response is Some,
        response.len() >= lamp::LAMP_RESPONSE_LEN,
    ensures
        ({
            let s = session::conversation(path, reports, GoalView::Lamp { index });
            let request = reports.attr_request->0;
            let answer = reports.attr_response->0;
            let replies = accepted(2).push(Ok(response));
            &&& play(s, replies).phase == if bytes::le16(response, 1) == index {
                session::finished(OutcomeView::Lamp(lamp::lamp_in(response)))
            } else {
                session::failed(
                    ErrorView::LampIdMismatch { expected: index, got: bytes::le16(response, 1) },
                )
            }
            &&& transcript(s, replies) == seq![
                RequestView::Open { path },
                RequestView::SetFeature {
                    data: update::lamp_request(request.report_id, request.size as nat, index),
                },
                RequestView::GetFeature {
                    report_id: answer.report_id,
                    size: answer.size as nat,
                },
            ]
        }),
{
    let s = session::conversation(path, reports, GoalView::Lamp { index });
    let ok = Ok::<Seq<u8>, IoFailureView>(Seq::empty());
    let last = Ok::<Seq<u8>, IoFailureView>(response);
    play_one(s, ok);
    play_one(s.step(ok), ok);
    play_one(s.step(ok).step(ok), last);
    play_append(s, seq![ok], seq![ok]);
    play_append(s, seq![ok] + seq![ok], seq![last]);
    assert(accepted(2).push(last) =~= seq![ok] + seq![ok] + seq![last]);
    let request = reports.attr_request->0;
    let answer = reports.attr_response->0;
    assert(transcript(s, accepted(2).push(last)) =~= seq![
        RequestView::Open { path },
        RequestView::SetFeature {
            data: update::lamp_request(request.report_id, request.size as nat, index),
        },
        RequestView::GetFeature { report_id: answer.report_id, size: answer.size as nat },
    ]);
}

/// A device that cannot be opened says why; any later access that fails passes its failure on.
pub proof fn failures_are_told(s: SessionView, failure: IoFailureView)
    requires
        !(s.phase is Finished),
    ensures
        s.step(Err(failure)).phase == PhaseView::Finished(
            Err(
                if s.phase is Opening {
                    match failure.kind {
                        IoKind::PermissionDenied => ErrorView::PermissionDenied {
                            path: s.setup.path,
                        },
                        IoKind::NotFound => ErrorView::DeviceNotFound { path: s.setup.path },
                        IoKind::Other => ErrorView::Io(failure),
                    }
                } else {
                    ErrorView::Io(failure)
                },
            ),
        ),
{
}

/// An update whose report the device lacks, or whose report has no room for a lamp, is refused before
/// the device is opened, an update of no lamps is done before, and everything else begins by opening
/// the device.
pub proof fn updates_look_for_their_report(path: Seq<char>, reports: LampArrayReports, goal: GoalView)
    ensures
        ({
            let s = session::conversation(path, reports, goal);
            match goal {
                GoalView::Color { .. } => if reports.range_update is None {
                    s.phase == PhaseView::Finished(
                        Err(ErrorView::MissingReport { report_name: "range_update"@ }),
                    )
                } else {
                    s.request() == Some(RequestView::Open { path })
                },
                GoalView::LampColors { colors } => if colors.len() == 0 {
                    s.phase == PhaseView::Finished(Ok(OutcomeView::Done))
                } else if reports.multi_update is None {
                    s.phase == PhaseView::Finished(
                        Err(ErrorView::MissingReport { report_name: "multi_update"@ }),
                    )
                } else if reports.multi_update->0.size < 8 {
                    s.phase == PhaseView::Finished(
                        Err(
                            ErrorView::MissingReport {
                                report_name: "multi_update (invalid size)"@,
                            },
                        ),
                    )
                } else {
                    s.request() == Some(RequestView::Open { path })
                },
                _ => s.request() == Some(RequestView::Open { path }),
            }
        }),
{
    if let Some(info) = reports.multi_update {
        multi_update::slots_are_six_bytes(info.size as nat);
    }
}

/// Reading the device: a report that is cut short is an error; with the attributes alone wanted they
/// are the result; and otherwise the lamps are asked for, unless there are none.
pub proof fn device_reports_are_checked(s: SessionView, data: Seq<u8>)
    requires
        s.phase is ReadingAttributes,
    ensures
        ({
            let next = s.step(Ok(data));
            let count = data[1] + 0x100 * data[2];
            if data.len() < 23 {
                next.phase == PhaseView::Finished(
                    Err(
                        ErrorView::TruncatedReport {
                            report_name: "LampArrayAttributes"@,
                            expected: 23,
                            got: data.len(),
                        },
                    ),
                )
            } else if s.setup.goal is Attributes {
                next.phase == PhaseView::Finished(
                    Ok(OutcomeView::Attributes(lamp::attributes_in(data))),
                )
            } else if count > 0 && s.setup.reports.attr_request is None {
                next.phase == PhaseView::Finished(
                    Err(ErrorView::MissingReport { report_name: "attr_request"@ }),
                )
            } else if count > 0 {
                next.request() == Some(
                    RequestView::SetFeature {
                        data: update::first_lamp_request(
                            s.setup.reports.attr_request->0.report_id,
                            s.setup.reports.attr_request->0.size as nat,
                        ),
                    },
                )
            } else {
                &&& s.setup.goal is Color ==> next.phase == PhaseView::Finished(
                    Ok(OutcomeView::Done),
                )
                &&& s.setup.goal is Everything ==> next.phase == PhaseView::Finished(
                    Ok(OutcomeView::Everything(lamp::attributes_in(data), Seq::empty())),
                )
            }
        }),
{
    if data.len() >= 23 {
        bytes::two_bytes_are_read_back(data, 1, bytes::le16(data, 1));
    }
}

/// Reading the lamps: each report has to be complete and to be for the lamp whose turn it is, and
/// then joins the lamps that were read; as long as lamps are left, the next is read in the same way.
pub proof fn lamp_reports_are_checked(s: SessionView, data: Seq<u8>)
    requires
        s.phase is ReadingLamps,
        s.wf(),
    ensures
        ({
            let lamps = s.phase->ReadingLamps_lamps;
            let attributes = s.phase->ReadingLamps_attributes;
            let next = s.step(Ok(data));
            let id = data[1] + 0x100 * data[2];
            if data.len() < 29 {
                next.phase == PhaseView::Finished(
                    Err(
                        ErrorView::TruncatedReport {
                            report_name: "LampAttributesResponse"@,
                            expected: 29,
                            got: data.len(),
                        },
                    ),
                )
            } else if id != lamps.len() {
                next.phase == PhaseView::Finished(
                    Err(
                        ErrorView::LampIdMismatch {
                            expected: lamps.len() as u16,
                            got: id as u16,
                        },
                    ),
                )
            } else if lamps.len() + 1 < attributes.lamp_count {
                &&& next.phase == PhaseView::ReadingLamps {
                    attributes,
                    lamps: lamps.push(lamp::lamp_in(data)),
                }
                &&& next.request() == s.request()
            } else {
                s.setup.goal is Everything ==> next.phase == PhaseView::Finished(
                    Ok(OutcomeView::Everything(attributes, lamps.push(lamp::lamp_in(data)))),
                )
            }
        }),
{
    if data.len() >= 29 {
        bytes::two_bytes_are_read_back(data, 1, bytes::le16(data, 1));
    }
}

/// A uniform color as the lamps get it: the range report covers all lamps, and no channel is above the
/// levels of a lamp that takes part in it. The value is the same share of the smallest level count as
/// the color's value is of 255.
pub proof fn uniform_colors_are_in_proportion(
    setup: SetupView,
    attributes: LampArrayAttributesView,
    lamps: Seq<LampAttributes>,
    i: int,
)
    requires
        setup.goal is Color,
        setup.reports.range_update is Some,
        setup.reports.range_update->0.size >= 9,
        attributes.lamp_count == lamps.len(),
        0 <= i < lamps.len(),
    ensures
        ({
            let s = SessionView { setup, phase: setup.surveyed(attributes, lamps) };
            let goal = setup.goal;
            &&& s.request() matches Some(RequestView::SetFeature { data })
            &&& data[0] == setup.reports.range_update->0.report_id
            &&& data.len() == setup.reports.range_update->0.size + 1
            &&& data[1] == 1
            &&& data[2] + 0x100 * data[3] == 0
            &&& data[4] + 0x100 * data[5] == lamps.len() - 1
            &&& lamps[i].is_programmable ==> {
                &&& data[6] <= lamps[i].red_level_count
                &&& data[7] <= lamps[i].green_level_count
                &&& data[8] <= lamps[i].blue_level_count
            }
            &&& data[9] <= lamps[i].intensity_level_count
            &&& led_rgb::same_share(
                goal->Color_red,
                data[6],
                update::level_limit(lamps, Channel::Red),
            )
            &&& led_rgb::same_share(
                goal->Color_green,
                data[7],
                update::level_limit(lamps, Channel::Green),
            )
            &&& led_rgb::same_share(
                goal->Color_blue,
                data[8],
                update::level_limit(lamps, Channel::Blue),
            )
            &&& led_rgb::same_share(
                goal->Color_intensity,
                data[9],
                update::level_limit(lamps, Channel::Intensity),
            )
        }),
{
    let goal = setup.goal;
    update::limits_are_the_smallest_levels(lamps, i);
    let red = update::level_limit(lamps, Channel::Red);
    let green = update::level_limit(lamps, Channel::Green);
    let blue = update::level_limit(lamps, Channel::Blue);
    let intensity = update::level_limit(lamps, Channel::Intensity);
    scale::scaled_in_range(goal->Color_red, red);
    scale::scaled_in_range(goal->Color_green, green);
    scale::scaled_in_range(goal->Color_blue, blue);
    scale::scaled_in_range(goal->Color_intensity, intensity);
    if red < 255 {
        scale::scaled_proportional(goal->Color_red, red);
    }
    if green < 255 {
        scale::scaled_proportional(goal->Color_green, green);
    }
    if blue < 255 {
        scale::scaled_proportional(goal->Color_blue, blue);
    }
    if intensity < 255 {
        scale::scaled_proportional(goal->Color_intensity, intensity);
    }
}

/// Individual colors as the lamps get them: once the lamps are known, and no lamp is named that is not
/// there or twice, the reports that are sent one after the other are those of the scaled colors, and
/// the conversation is done when the last has been taken.
pub proof fn batches_follow_each_other(setup: SetupView, colors: Seq<LampColor>, sent: nat, data: Seq<u8>)
    requires
        setup.reports.multi_update is Some,
        setup.reports.multi_update->0.size >= 8,
        sent < multi_update::update_reports(
            setup.reports.multi_update->0.report_id,
            setup.reports.multi_update->0.size as nat,
            colors,
        ).len(),
    ensures
        ({
            let multi = setup.reports.multi_update->0;
            let reports = multi_update::update_reports(multi.report_id, multi.size as nat, colors);
            let s = SessionView { setup, phase: PhaseView::SendingBatch { colors, sent } };
            let next = s.step(Ok(data));
            &&& s.request() == Some(RequestView::SetFeature { data: reports[sent as int] })
            &&& if sent + 1 < reports.len() {
                next.request() == Some(RequestView::SetFeature { data: reports[sent as int + 1] })
            } else {
                next.phase == PhaseView::Finished(Ok(OutcomeView::Done))
            }
        }),
{
}

/// Every access goes by the report that it is for, under the ID and with the size that the device
/// declares: the mode by the control report, the attributes by theirs, requests for lamps by the
/// request report and their answers by the response report, and updates by the report for one range
/// or the one for many lamps.
pub proof fn accesses_go_by_their_reports(s: SessionView)
    ensures
        ({
            let r = s.setup.reports;
            match s.phase {
                PhaseView::Opening => s.request() == Some(RequestView::Open { path: s.setup.path }),
                PhaseView::SwitchingMode { enabled } => s.request() == Some(
                    RequestView::SetFeature {
                        data: update::control_report(
                            r.control->0.report_id,
                            r.control->0.size as nat,
                            enabled,
                        ),
                    },
                ),
                PhaseView::ReadingAttributes => s.request() == Some(
                    RequestView::GetFeature {
                        report_id: r.attributes->0.report_id,
                        size: r.attributes->0.size as nat,
                    },
                ),
                PhaseView::RequestingLamp { index } => s.request() == Some(
                    RequestView::SetFeature {
                        data: update::lamp_request(
                            r.attr_request->0.report_id,
                            r.attr_request->0.size as nat,
                            index,
                        ),
                    },
                ),
                PhaseView::RequestingLamps { .. } => s.request() == Some(
                    RequestView::SetFeature {
                        data: update::first_lamp_request(
                            r.attr_request->0.report_id,
                            r.attr_request->0.size as nat,
                        ),
                    },
                ),
                PhaseView::ReadingLamp { .. } => s.request() == Some(
                    RequestView::GetFeature {
                        report_id: r.attr_response->0.report_id,
                        size: r.attr_response->0.size as nat,
                    },
                ),
                PhaseView::ReadingLamps { .. } => s.request() == Some(
                    RequestView::GetFeature {
                        report_id: r.attr_response->0.report_id,
                        size: r.attr_response->0.size as nat,
                    },
                ),
                PhaseView::SendingRange { last, red, green, blue, intensity } => s.request()
                    == Some(
                    RequestView::SetFeature {
                        data: update::range_report(
                            r.range_update->0.report_id,
                            r.range_update->0.size as nat,
                            last,
                            red,
                            green,
                            blue,
                            intensity,
                        ),
                    },
                ),
                PhaseView::SendingBatch { colors, sent } => s.request() == Some(
                    RequestView::SetFeature {
                        data: multi_update::update_reports(
                            r.multi_update->0.report_id,
                            r.multi_update->0.size as nat,
                            colors,
                        )[sent as int],
                    },
                ),
                PhaseView::Finished(_) => s.request() is None,
            }
        }),
{
}

/// How a conversation goes on after an access that succeeded, whatever bytes came with it. What it is
/// about stays the same. An open device is read or switched, and before an update switched to the
/// host where it can be; a device that was switched for an update is read; a lamp that was asked for
/// is read; and a color that was sent is the end.
pub proof fn conversations_go_on(s: SessionView, data: Seq<u8>)
    ensures
        ({
            let next = s.step(Ok(data));
            let r = s.setup.reports;
            let no_attributes = PhaseView::Finished(
                Err(ErrorView::MissingReport { report_name: "attributes"@ }),
            );
            let no_response = PhaseView::Finished(
                Err(ErrorView::MissingReport { report_name: "attr_response"@ }),
            );
            let reading = if r.attributes is Some {
                PhaseView::ReadingAttributes
            } else {
                no_attributes
            };
            &&& next.setup == s.setup
            &&& match s.phase {
                PhaseView::Opening => match s.setup.goal {
                    GoalView::Attributes => next.phase == reading,
                    GoalView::Everything => next.phase == reading,
                    GoalView::Lamp { index } => next.phase == if r.attr_request is Some {
                        PhaseView::RequestingLamp { index }
                    } else {
                        PhaseView::Finished(
                            Err(ErrorView::MissingReport { report_name: "attr_request"@ }),
                        )
                    },
                    GoalView::Autonomous { enabled } => next.phase == if r.control is Some {
                        PhaseView::SwitchingMode { enabled }
                    } else {
                        PhaseView::Finished(
                            Err(ErrorView::MissingReport { report_name: "control"@ }),
                        )
                    },
                    _ => next.phase == if r.control is Some {
                        PhaseView::SwitchingMode { enabled: false }
                    } else {
                        reading
                    },
                },
                PhaseView::SwitchingMode { .. } => next.phase == if s.setup.goal is Autonomous {
                    PhaseView::Finished(Ok(OutcomeView::Done))
                } else {
                    reading
                },
                PhaseView::RequestingLamp { index } => next.phase == if r.attr_response is Some {
                    PhaseView::ReadingLamp { index }
                } else {
                    no_response
                },
                PhaseView::RequestingLamps { attributes } => next.phase == if r.attr_response
                    is Some {
                    PhaseView::ReadingLamps { attributes, lamps: Seq::empty() }
                } else {
                    no_response
                },
                PhaseView::SendingRange { .. } => next.phase == PhaseView::Finished(
                    Ok(OutcomeView::Done),
                ),
                PhaseView::Finished(_) => next == s,
                _ => true,
            }
        }),
{
}

/// Reading one lamp: its report has to be complete and to be for the lamp that was asked for.
pub proof fn a_single_lamp_report_is_checked(s: SessionView, data: Seq<u8>)
    requires
        s.phase is ReadingLamp,
    ensures
        ({
            let index = s.phase->ReadingLamp_index;
            let id = data[1] + 0x100 * data[2];
            s.step(Ok(data)).phase == PhaseView::Finished(
                if data.len() < 29 {
                    Err(
                        ErrorView::TruncatedReport {
                            report_name: "LampAttributesResponse"@,
                            expected: 29,
                            got: data.len(),
                        },
                    )
                } else if id != index {
                    Err(ErrorView::LampIdMismatch { expected: index, got: id as u16 })
                } else {
                    Ok(OutcomeView::Lamp(lamp::lamp_in(data)))
                },
            )
        }),
{
    if data.len() >= 29 {
        bytes::two_bytes_are_read_back(data, 1, bytes::le16(data, 1));
    }
}

/// The last lamp that is read, or a device without lamps, ends the reading: with everything wanted
/// that is the result, and an update is sent for what was read.
pub proof fn updates_follow_the_reading(s: SessionView, data: Seq<u8>)
    requires
        s.wf(),
    ensures
        s.phase matches PhaseView::ReadingLamps { attributes, lamps } ==> data.len() >= 29
            && data[1] + 0x100 * data[2] == lamps.len() && lamps.len() + 1
            == attributes.lamp_count ==> s.step(Ok(data)).phase == s.setup.surveyed(
            attributes,
            lamps.push(lamp::lamp_in(data)),
        ),
        s.phase is ReadingAttributes && !(s.setup.goal is Attributes) && data.len() >= 23
            && data[1] == 0 && data[2] == 0 ==> s.step(Ok(data)).phase == s.setup.surveyed(
            lamp::attributes_in(data),
            Seq::empty(),
        ),
{
    if data.len() >= 23 {
        bytes::two_bytes_are_read_back(data, 1, bytes::le16(data, 1));
    }
}

/// What is sent for individual colors once the lamps are known: nothing where a lamp is not there or
/// comes twice, and otherwise every color, scaled to its lamp, from the first report on.
pub proof fn individual_colors_are_checked_and_sent(
    setup: SetupView,
    attributes: LampArrayAttributesView,
    lamps: Seq<LampAttributes>,
)
    requires
        setup.goal is LampColors,
    ensures
        ({
            let colors = setup.goal->colors;
            setup.surveyed(attributes, lamps) == match update::id_error(
                colors,
                attributes.lamp_count,
            ) {
                Some(e) => PhaseView::Finished(Err(e)),
                None => PhaseView::SendingBatch {
                    colors: update::scaled_colors(colors, lamps),
                    sent: 0,
                },
            }
        }),
{
}

/// Which reports can be sent: those that have room for what they carry and that memory can hold. Reads
/// need no room, and neither does the request that starts the sequence of all lamps.
pub proof fn what_fits(s: SessionView)
    ensures
        ({
            let r = s.setup.reports;
            match s.phase {
                PhaseView::SwitchingMode { .. } => s.fits() <==> 1 <= r.control->0.size
                    < isize::MAX,
                PhaseView::RequestingLamp { .. } => s.fits() <==> 2 <= r.attr_request->0.size
                    < isize::MAX,
                PhaseView::RequestingLamps { .. } => s.fits() <==> r.attr_request->0.size
                    < isize::MAX,
                PhaseView::SendingRange { .. } => s.fits() <==> 9 <= r.range_update->0.size
                    < isize::MAX,
                PhaseView::SendingBatch { .. } => s.fits() <==> r.multi_update->0.size < isize::MAX,
                _ => s.fits(),
            }
        }),
{
}

} // verus!

//! Counters on how the UI is drawn, gathered between two lines of a log.

use vstd::prelude::*;

verus! {

/// Whether a switch is on that is given by the text of a setting.
pub fn switched_on(setting: Option<&str>) -> (on: bool)
    ensures
        on == (setting matches Some(text) && text@ == "1"@),
{
    proof {
        reveal_strlit("1");
    }
    match setting {
        Some(text) => {
            let on: bool = text.unicode_len() == 1 && text.get_char(0) == '1';
            proof {
                if on {
                    assert(text@ =~= "1"@);
                }
            }
            on
        },
        None => false,
    }
}

/// What the renderer says it repainted.
#[derive(Clone, Copy, Debug, PartialEq, Eq, Structural)]
pub enum Damage {
    /// The region that it reports.
    Region,
    /// Everything: it reports no region.
    Everything,
}

/// The counters of one logging interval.
#[derive(Clone, Copy, Debug, PartialEq, Eq, Structural)]
pub struct UiPerf {
    pub frames: u32,
    pub full_repaints: u32,
    pub draw_us_sum: u64,
    pub draw_us_max: u64,
}

/// A line of the log, and what to do with the damaged area of the frame.
#[derive(Clone, Copy, Debug, PartialEq, Eq, Structural)]
pub struct PerfOutcome {
    /// `Region`: the area of the region counts, and may be the largest so far.
    /// `Everything`: the largest area so far counts.
    pub area: Damage,
    /// The counters of the interval that ends with this frame, if it ends. The
    /// sum of the areas starts anew with them, the largest area stays.
    pub report: Option<UiPerf>,
}

impl UiPerf {
    /// The counters at the start of an interval.
    pub open spec fn zero() -> UiPerf {
        UiPerf { frames: 0, full_repaints: 0, draw_us_sum: 0, draw_us_max: 0 }
    }

    /// What holds of the counters at all times.
    pub open spec fn wf(self) -> bool {
        &&& self.full_repaints <= self.frames
        &&& self.draw_us_max <= self.draw_us_sum
        &&& self.draw_us_sum <= self.frames * self.draw_us_max
    }

    /// The counters have room for a frame that took `draw_us` to draw.
    pub open spec fn has_room(self, draw_us: u64) -> bool {
        self.frames < u32::MAX && self.draw_us_sum + draw_us <= u64::MAX
    }

    /// The counters with one more frame in them.
    pub open spec fn counted(self, draw_us: u64, damage: Damage) -> UiPerf {
        UiPerf {
            frames: (self.frames + 1) as u32,
            full_repaints: if damage is Everything {
                (self.full_repaints + 1) as u32
            } else {
                self.full_repaints
            },
            draw_us_sum: (self.draw_us_sum + draw_us) as u64,
            draw_us_max: if draw_us > self.draw_us_max {
                draw_us
            } else {
                self.draw_us_max
            },
        }
    }

    /// The counters once a frame was recorded `elapsed_secs` whole seconds
    /// after the last line of the log.
    pub open spec fn after(self, draw_us: u64, damage: Damage, elapsed_secs: u64) -> UiPerf {
        if elapsed_secs >= 1 {
            UiPerf::zero()
        } else {
            self.counted(draw_us, damage)
        }
    }

    /// What recording that frame yields.
    pub open spec fn outcome(
        self,
        draw_us: u64,
        damage: Damage,
        elapsed_secs: u64,
    ) -> PerfOutcome {
        PerfOutcome {
            area: damage,
            report: if elapsed_secs >= 1 {
                Some(self.counted(draw_us, damage))
            } else {
                None
            },
        }
    }

    /// Fresh counters where the setting asks for them.
    pub fn new_if_enabled(setting: Option<&str>) -> (perf: Option<UiPerf>)
        ensures
            perf == if setting matches Some(text) && text@ == "1"@ {
                Some(UiPerf::zero())
            } else {
                None
            },
            perf matches Some(counters) ==> counters.wf(),
    {
        if switched_on(setting) {
            Some(UiPerf { frames: 0, full_repaints: 0, draw_us_sum: 0, draw_us_max: 0 })
        } else {
            None
        }
    }

    /// Whether a frame that took `draw_us` to draw can be recorded.
    pub fn can_record(&self, draw_us: u64) -> (room: bool)
        ensures
            room == self.has_room(draw_us),
    {
        self.frames < u32::MAX && draw_us <= u64::MAX - self.draw_us_sum
    }

    /// Records a frame. A whole second after the last line of the log the
    /// interval ends: its counters come back and start anew.
    pub fn record(&mut self, draw_us: u64, damage: Damage, elapsed_secs: u64) -> (r: PerfOutcome)
        requires
            old(self).wf(),
            old(self).has_room(draw_us),
        ensures
            final(self).wf(),
            *final(self) == old(self).after(draw_us, damage, elapsed_secs),
            r == old(self).outcome(draw_us, damage, elapsed_secs),
            r.area == damage,
            r.report is Some <==> elapsed_secs >= 1,
            r.report matches Some(report) ==> report.frames == old(self).frames + 1
                && report.draw_us_sum == old(self).draw_us_sum + draw_us,
            final(self).frames == if elapsed_secs >= 1 {
                0
            } else {
                old(self).frames + 1
            },
    {
        proof {
            law_counters_stay_consistent(*self, draw_us, damage);
        }
        self.frames = self.frames + 1;
        self.draw_us_sum = self.draw_us_sum + draw_us;
        if draw_us > self.draw_us_max {
            self.draw_us_max = draw_us;
        }
        match damage {
            Damage::Region => {},
            Damage::Everything => {
                self.full_repaints = self.full_repaints + 1;
            },
        }
        if elapsed_secs >= 1 {
            let report = *self;
            *self = UiPerf { frames: 0, full_repaints: 0, draw_us_sum: 0, draw_us_max: 0 };
            PerfOutcome { area: damage, report: Some(report) }
        } else {
            PerfOutcome { area: damage, report: None }
        }
    }
}

/// In every interval the full repaints are among the frames, the slowest frame
/// took no longer than all of them and no less than their average, and an
/// interval that is reported has at least one frame to average over.
pub proof fn law_counters_stay_consistent(perf: UiPerf, draw_us: u64, damage: Damage)
    requires
        perf.wf(),
        perf.has_room(draw_us),
    ensures
        UiPerf::zero().wf(),
        perf.counted(draw_us, damage).wf(),
        perf.counted(draw_us, damage).frames >= 1,
{
    let next = perf.counted(draw_us, damage);
    let frames = perf.frames as int;
    let old_max = perf.draw_us_max as int;
    let new_max = next.draw_us_max as int;
    assert(frames * old_max <= frames * new_max) by (nonlinear_arith)
        requires
            0 <= frames,
            old_max <= new_max,
    ;
    assert((frames + 1) * new_max == frames * new_max + new_max) by (nonlinear_arith);
}

/// A frame as it is recorded.
pub struct Sample {
    pub draw_us: u64,
    pub damage: Damage,
}

/// The counters that start at zero, once these frames were recorded in turn
/// with no line of the log in between.
pub open spec fn gathered(samples: Seq<Sample>) -> UiPerf
    decreases samples.len(),
{
    if samples.len() == 0 {
        UiPerf::zero()
    } else {
        gathered(samples.drop_last()).counted(samples.last().draw_us, samples.last().damage)
    }
}

/// The time that it took to draw all of these frames.
pub open spec fn total_draw_us(samples: Seq<Sample>) -> nat
    decreases samples.len(),
{
    if samples.len() == 0 {
        0
    } else {
        total_draw_us(samples.drop_last()) + samples.last().draw_us as nat
    }
}

/// The frames among these that were painted all over.
pub open spec fn painted_all_over(samples: Seq<Sample>) -> Seq<Sample> {
    samples.filter(|sample: Sample| sample.damage is Everything)
}

/// A line of the log tells of the frames since the one before it: how many they
/// were, how many were painted all over, how long all of them took to draw and
/// how long the slowest.
pub proof fn law_report_tells_of_its_interval(samples: Seq<Sample>)
    requires
        samples.len() <= u32::MAX,
        total_draw_us(samples) <= u64::MAX,
    ensures
        gathered(samples).wf(),
        gathered(samples).frames == samples.len(),
        gathered(samples).full_repaints == painted_all_over(samples).len(),
        gathered(samples).draw_us_sum == total_draw_us(samples),
        forall|i: int|
            0 <= i < samples.len() ==> (#[trigger] samples[i]).draw_us <= gathered(
                samples,
            ).draw_us_max,
        samples.len() > 0 ==> exists|i: int|
            0 <= i < samples.len() && (#[trigger] samples[i]).draw_us == gathered(
                samples,
            ).draw_us_max,
    decreases samples.len(),
{
    reveal(Seq::filter);
    if samples.len() > 0 {
        let earlier = samples.drop_last();
        let last = samples.last();
        law_report_tells_of_its_interval(earlier);
        law_counters_stay_consistent(gathered(earlier), last.draw_us, last.damage);
        assert forall|i: int| 0 <= i < samples.len() implies (#[trigger] samples[i]).draw_us
            <= gathered(samples).draw_us_max by {
            if i < earlier.len() {
                assert(samples[i] == earlier[i]);
            }
        }
        if earlier.len() == 0 || last.draw_us > gathered(earlier).draw_us_max {
            assert(samples[samples.len() - 1].draw_us == gathered(samples).draw_us_max);
        } else {
            let i = choose|i: int|
                0 <= i < earlier.len() && (#[trigger] earlier[i]).draw_us == gathered(
                    earlier,
                ).draw_us_max;
            assert(samples[i].draw_us == gathered(samples).draw_us_max);
        }
    }
}

/// A record that was made, with the whole seconds since the last line of the log.
pub struct Record {
    pub sample: Sample,
    pub elapsed_secs: u64,
}

/// The counters that start at zero, once these records were made in turn.
pub open spec fn recorded(run: Seq<Record>) -> UiPerf
    decreases run.len(),
{
    if run.len() == 0 {
        UiPerf::zero()
    } else {
        let last = run.last();
        recorded(run.drop_last()).after(
            last.sample.draw_us,
            last.sample.damage,
            last.elapsed_secs,
        )
    }
}

/// The frames of a run that came after its last line of the log: a line is due
/// whenever a whole second has passed.
pub open spec fn since_last_line(run: Seq<Record>) -> Seq<Sample>
    decreases run.len(),
{
    if run.len() == 0 || run.last().elapsed_secs >= 1 {
        Seq::empty()
    } else {
        since_last_line(run.drop_last()).push(run.last().sample)
    }
}

/// Whatever was recorded before and whatever the damage is, a line of the log
/// comes exactly if a whole second has passed since the one before it. It tells
/// of all the frames since that one, this frame among them, and the counters
/// then start at zero; otherwise the frame is added to them. The damage is
/// handed on as it is.
pub proof fn law_line_comes_every_second(run: Seq<Record>, next: Record)
    ensures
        ({
            let before = recorded(run);
            let draw_us = next.sample.draw_us;
            let damage = next.sample.damage;
            let outcome = before.outcome(draw_us, damage, next.elapsed_secs);
            let after = before.after(draw_us, damage, next.elapsed_secs);
            let told = gathered(since_last_line(run).push(next.sample));
            &&& outcome.area == damage
            &&& outcome.report is Some <==> next.elapsed_secs >= 1
            &&& outcome.report matches Some(report) ==> report == told
            &&& next.elapsed_secs >= 1 ==> after.frames == 0 && after.full_repaints == 0
                && after.draw_us_sum == 0 && after.draw_us_max == 0
            &&& next.elapsed_secs == 0 ==> after == told
        }),
{
    lemma_recorded_since_last_line(run);
    let samples = since_last_line(run).push(next.sample);
    assert(samples.drop_last() =~= since_last_line(run));
}

/// The counters hold the frames since the last line of the log.
proof fn lemma_recorded_since_last_line(run: Seq<Record>)
    ensures
        recorded(run) == gathered(since_last_line(run)),
    decreases run.len(),
{
    if run.len() > 0 {
        let earlier = run.drop_last();
        lemma_recorded_since_last_line(earlier);
        if run.last().elapsed_secs == 0 {
            let samples = since_last_line(run);
            assert(samples.drop_last() =~= since_last_line(earlier));
        }
    }
}

/// A frame adds one to the frames, its time to the sum, one to the full repaints
/// if it was one, and is the slowest so far if no other took as long. There is
/// room for it as long as frames and sum can be held.
pub proof fn law_frame_is_counted(perf: UiPerf, draw_us: u64, damage: Damage)
    ensures
        perf.has_room(draw_us) <==> perf.frames + 1 <= u32::MAX && perf.draw_us_sum + draw_us
            <= u64::MAX,
        perf.has_room(draw_us) && perf.wf() ==> {
            let next = perf.counted(draw_us, damage);
            &&& next.frames == perf.frames + 1
            &&& next.draw_us_sum == perf.draw_us_sum + draw_us
            &&& damage is Everything ==> next.full_repaints == perf.full_repaints + 1
            &&& damage is Region ==> next.full_repaints == perf.full_repaints
            &&& next.draw_us_max >= draw_us && next.draw_us_max >= perf.draw_us_max
            &&& next.draw_us_max == draw_us || next.draw_us_max == perf.draw_us_max
        },
        UiPerf::zero().frames == 0,
        UiPerf::zero().full_repaints == 0,
        UiPerf::zero().draw_us_sum == 0,
        UiPerf::zero().draw_us_max == 0,
{
}

} // verus!

//! The now-playing event engine.
//!
//! Three signals arrive per track: track-start (once, when playback
//! begins), a periodic tick while the track is playing, and
//! track-end (once, when playback completes). The engine renders the
//! initial progress display on start, re-buckets and re-renders it
//! on each tick, and removes it on end. The progress bar has eleven
//! discrete stages: empty, then one to ten filled segments, with a
//! half-open threshold at each decile of the elapsed time.

use vstd::arithmetic::div_mod::lemma_div_is_ordered;
use vstd::arithmetic::div_mod::lemma_multiply_divide_lt;
use vstd::prelude::*;
use vstd::string::StringExecFns;

use crate::text::clock_str;
use crate::text::secs_to_clock;
use crate::track::title_line_spec;
use crate::track::title_line;
use crate::track::TrackDescriptor;

verus! {

/// Seconds between two ticks of the progress display.
pub const TICK_INTERVAL_SECS: u64 = 5;

/// The accent colour of the progress display.
pub const DISPLAY_COLOUR: u32 = 16711937;

/// How many of the ten progress-bar segments are filled after
/// `elapsed` of `total` time units: the decile of the elapsed time,
/// with half-open thresholds. A track past its end, or one whose
/// length is unknown (zero), shows a full bar.
pub open spec fn progress_stage(elapsed: nat, total: nat) -> nat {
    if total == 0 || elapsed >= total {
        10
    } else {
        elapsed * 10 / total
    }
}

/// The stage never exceeds a full bar.
pub proof fn lemma_stage_bounded(elapsed: nat, total: nat)
    ensures
        progress_stage(elapsed, total) <= 10,
{
    if total != 0 && elapsed < total {
        lemma_multiply_divide_lt((elapsed * 10) as int, total as int, 10);
    }
}

/// Bucketing is monotonic in elapsed time: of two elapsed times, the
/// later one never shows an emptier bar.
pub proof fn lemma_stage_monotonic(total: nat, e1: nat, e2: nat)
    requires
        e1 <= e2,
    ensures
        progress_stage(e1, total) <= progress_stage(e2, total),
{
    lemma_stage_bounded(e1, total);
    if total != 0 && e1 < total && e2 < total {
        lemma_div_is_ordered((e1 * 10) as int, (e2 * 10) as int, total as int);
    }
}

/// The bar drawn for each stage: `stage` filled segments out of ten.
pub open spec fn bar_text(stage: nat) -> Seq<char> {
    if stage == 0 {
        "⚪⚪⚪⚪⚪⚪⚪⚪⚪⚪"@
    } else if stage == 1 {
        "🔴⚪⚪⚪⚪⚪⚪⚪⚪⚪"@
    } else if stage == 2 {
        "🔴🔴⚪⚪⚪⚪⚪⚪⚪⚪"@
    } else if stage == 3 {
        "🔴🔴🔴⚪⚪⚪⚪⚪⚪⚪"@
    } else if stage == 4 {
        "🔴🔴🔴🔴⚪⚪⚪⚪⚪⚪"@
    } else if stage == 5 {
        "🔴🔴🔴🔴🔴⚪⚪⚪⚪⚪"@
    } else if stage == 6 {
        "🔴🔴🔴🔴🔴🔴⚪⚪⚪⚪"@
    } else if stage == 7 {
        "🔴🔴🔴🔴🔴🔴🔴⚪⚪⚪"@
    } else if stage == 8 {
        "🔴🔴🔴🔴🔴🔴🔴🔴⚪⚪"@
    } else if stage == 9 {
        "🔴🔴🔴🔴🔴🔴🔴🔴🔴⚪"@
    } else {
        "🔴🔴🔴🔴🔴🔴🔴🔴🔴🔴"@
    }
}

/// The bar literal for one stage.
fn bar_for_stage(stage: u64) -> (s: &'static str)
    ensures
        s@ == bar_text(stage as nat),
{
    if stage == 0 {
        "⚪⚪⚪⚪⚪⚪⚪⚪⚪⚪"
    } else if stage == 1 {
        "🔴⚪⚪⚪⚪⚪⚪⚪⚪⚪"
    } else if stage == 2 {
        "🔴🔴⚪⚪⚪⚪⚪⚪⚪⚪"
    } else if stage == 3 {
        "🔴🔴🔴⚪⚪⚪⚪⚪⚪⚪"
    } else if stage == 4 {
        "🔴🔴🔴🔴⚪⚪⚪⚪⚪⚪"
    } else if stage == 5 {
        "🔴🔴🔴🔴🔴⚪⚪⚪⚪⚪"
    } else if stage == 6 {
        "🔴🔴🔴🔴🔴🔴⚪⚪⚪⚪"
    } else if stage == 7 {
        "🔴🔴🔴🔴🔴🔴🔴⚪⚪⚪"
    } else if stage == 8 {
        "🔴🔴🔴🔴🔴🔴🔴🔴⚪⚪"
    } else if stage == 9 {
        "🔴🔴🔴🔴🔴🔴🔴🔴🔴⚪"
    } else {
        "🔴🔴🔴🔴🔴🔴🔴🔴🔴🔴"
    }
}

/// Draws the progress bar for `elapsed` of `total` seconds.
pub fn time_bar(elapsed_secs: u64, total_secs: u64) -> (s: String)
    ensures
        s@ == bar_text(progress_stage(elapsed_secs as nat, total_secs as nat)),
{
    let stage: u64 = if total_secs == 0 || elapsed_secs >= total_secs {
        10
    } else {
        let wide: u128 = (elapsed_secs as u128) * 10 / (total_secs as u128);
        proof {
            lemma_stage_bounded(elapsed_secs as nat, total_secs as nat);
        }
        wide as u64
    };
    bar_for_stage(stage).to_owned()
}

/// The description under the bar once a track starts: an empty bar
/// and a clock at zero over the track's length.
pub open spec fn start_description_spec(total_secs: nat) -> Seq<char> {
    bar_text(0) + " - `"@ + clock_str(0) + "/"@ + clock_str(total_secs) + "`"@
}

/// The description under the bar while a track plays: the bucketed
/// bar and the elapsed clock over the track's length.
pub open spec fn progress_description_spec(elapsed_secs: nat, total_secs: nat) -> Seq<char> {
    bar_text(progress_stage(elapsed_secs, total_secs)) + " - `"@ + clock_str(elapsed_secs) + "/"@
        + clock_str(total_secs) + "`"@
}

/// What the track-start handler renders, and what it schedules: a
/// periodic tick and a track-end watch, both scoped to this track.
pub struct StartRender {
    pub title_line: String,
    pub description: String,
    pub colour: u32,
    pub tick_interval_secs: u64,
}

/// One progress display, tied to one track handle: created by the
/// track-start signal, edited in place by ticks while the track
/// plays, removed by the track-end signal.
pub struct NowPlayingDisplay {
    pub shown: bool,
}

impl NowPlayingDisplay {
    /// No display yet; the track has not started.
    pub fn new() -> (d: NowPlayingDisplay)
        ensures
            !d.shown,
    {
        NowPlayingDisplay { shown: false }
    }

    /// Reacts to the track-start signal: renders the initial display
    /// (heading, empty bar, duration) and schedules the periodic
    /// tick. Fires at most once per track: the handler deregisters
    /// itself, and a shown display never sees a second start.
    pub fn on_track_start(&mut self, t: &TrackDescriptor) -> (r: StartRender)
        requires
            !old(self).shown,
        ensures
            final(self).shown,
            r.title_line@ == title_line_spec(t.title@, t.performer@),
            r.description@ == start_description_spec(t.spec_duration_or_zero() as nat),
            r.colour == DISPLAY_COLOUR,
            r.tick_interval_secs == TICK_INTERVAL_SECS,
    {
        self.shown = true;
        let total = t.duration_or_zero();
        let description = bar_for_stage(0).to_owned().concat(" - `").concat(
            secs_to_clock(0).as_str(),
        ).concat("/").concat(secs_to_clock(total).as_str()).concat("`");
        proof {
            assert(description@ =~= start_description_spec(t.spec_duration_or_zero() as nat));
        }
        StartRender {
            title_line: title_line(t),
            description,
            colour: DISPLAY_COLOUR,
            tick_interval_secs: TICK_INTERVAL_SECS,
        }
    }

    /// Reacts to a periodic tick: while the track is playing, the
    /// display is edited in place with the re-bucketed bar and the
    /// recomputed clocks; while it is paused, the tick is suppressed
    /// and nothing is rendered.
    pub fn on_tick(&self, t: &TrackDescriptor, position_secs: u64, playing: bool) -> (r: Option<
        String,
    >)
        requires
            self.shown,
        ensures
            match r {
                Some(description) => playing && description@ == progress_description_spec(
                    position_secs as nat,
                    t.spec_duration_or_zero() as nat,
                ),
                None => !playing,
            },
    {
        if !playing {
            return None;
        }
        let total = t.duration_or_zero();
        let description = time_bar(position_secs, total).concat(" - `").concat(
            secs_to_clock(position_secs).as_str(),
        ).concat("/").concat(secs_to_clock(total).as_str()).concat("`");
        proof {
            assert(description@ =~= progress_description_spec(
                position_secs as nat,
                t.spec_duration_or_zero() as nat,
            ));
        }
        Some(description)
    }

    /// Reacts to the track-end signal: the display is removed and
    /// its association with the track handle released. The handler
    /// deregisters itself; it fires at most once.
    pub fn on_track_end(&mut self)
        requires
            old(self).shown,
        ensures
            !final(self).shown,
    {
        self.shown = false;
    }
}

} // verus!

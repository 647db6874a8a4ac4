//! Edit model: which time ranges of a source track appear in the output,
//! and at what speed.

use vstd::prelude::*;
use crate::types::ExportError;

verus! {

/// Largest playback speed deviation from 1000 (normal speed, in
/// thousandths) that still counts as "no speed change".
pub const TIME_SCALE_TOLERANCE_MILLI: u64 = 10;

/// One contiguous range of the source track included in the output.
///
/// `time_scale` is the playback speed in thousandths: 1000 plays the
/// segment at normal speed, 2000 at double speed, 500 at half speed.
#[derive(Clone, Debug)]
pub struct ExportSegment {
    /// Start time in the source media (milliseconds).
    pub source_start_ms: u64,
    /// End time in the source media (milliseconds).
    pub source_end_ms: u64,
    /// Playback speed in thousandths; must be positive.
    pub time_scale: u64,
}

impl ExportSegment {
    /// The segment invariant: a non-reversed range and a positive speed.
    pub open spec fn well_formed(self) -> bool {
        self.source_start_ms <= self.source_end_ms && self.time_scale > 0
    }

    /// Duration of the range in the source media.
    pub open spec fn spec_source_duration_ms(self) -> int {
        if self.source_end_ms >= self.source_start_ms {
            self.source_end_ms - self.source_start_ms
        } else {
            0
        }
    }

    /// Duration the range occupies in the output: the source duration
    /// divided by the playback speed, saturated to the machine limit.
    pub open spec fn spec_output_duration_ms(self) -> int {
        if self.time_scale == 0 {
            0
        } else {
            let exact = self.spec_source_duration_ms() * 1000 / (self.time_scale as int);
            if exact <= u64::MAX as int {
                exact
            } else {
                u64::MAX as int
            }
        }
    }

    /// Whether the playback speed is within tolerance of normal speed.
    pub open spec fn spec_is_normal_speed(self) -> bool {
        (self.time_scale as int) - 1000 < TIME_SCALE_TOLERANCE_MILLI as int
            && 1000 - (self.time_scale as int) < TIME_SCALE_TOLERANCE_MILLI as int
    }

    /// Duration in the source media (milliseconds).
    pub fn source_duration_ms(&self) -> (r: u64)
        ensures
            r == self.spec_source_duration_ms(),
    {
        if self.source_end_ms >= self.source_start_ms {
            self.source_end_ms - self.source_start_ms
        } else {
            0
        }
    }

    /// Duration in the output after time scaling (milliseconds).
    pub fn output_duration_ms(&self) -> (r: u64)
        requires
            self.time_scale > 0,
        ensures
            r == self.spec_output_duration_ms(),
    {
        let wide: u128 = (self.source_duration_ms() as u128) * 1000 / (self.time_scale as u128);
        if wide <= u64::MAX as u128 {
            wide as u64
        } else {
            u64::MAX
        }
    }
}

/// Sum of the output durations of a sequence of segments.
pub open spec fn spec_total_output_ms(s: Seq<ExportSegment>) -> int
    decreases s.len(),
{
    if s.len() == 0 {
        0
    } else {
        spec_total_output_ms(s.drop_last()) + s.last().spec_output_duration_ms()
    }
}

/// Edit instructions for one track: an ordered list of segments,
/// in output order.
#[derive(Clone, Debug)]
pub struct TrackEdits {
    /// Ordered list of segments to include.
    pub segments: Vec<ExportSegment>,
}

impl TrackEdits {
    /// Every segment satisfies the segment invariant.
    pub open spec fn well_formed(self) -> bool {
        forall|i: int| 0 <= i < self.segments@.len() ==> self.segments@[i].well_formed()
    }

    /// Total output duration after all edits (milliseconds), saturated
    /// to the machine limit.
    pub fn total_output_duration_ms(&self) -> (r: u64)
        requires
            self.well_formed(),
        ensures
            spec_total_output_ms(self.segments@) <= u64::MAX as int ==> r
                == spec_total_output_ms(self.segments@),
            spec_total_output_ms(self.segments@) > u64::MAX as int ==> r == u64::MAX,
    {
        let mut acc: u64 = 0;
        let mut i: usize = 0;
        let n = self.segments.len();
        while i < n
            invariant
                n == self.segments@.len(),
                i <= n,
                self.well_formed(),
                spec_total_output_ms(self.segments@.take(i as int)) <= u64::MAX as int ==> acc
                    == spec_total_output_ms(self.segments@.take(i as int)),
                spec_total_output_ms(self.segments@.take(i as int)) > u64::MAX as int ==> acc
                    == u64::MAX,
            decreases n - i,
        {
            let out = self.segments[i].output_duration_ms();
            proof {
                assert(self.segments@.take(i + 1).drop_last() =~= self.segments@.take(i as int));
                assert(self.segments@.take(i + 1).last() == self.segments@[i as int]);
                lemma_total_output_nonneg(self.segments@.take(i as int));
            }
            acc = if acc > u64::MAX - out {
                u64::MAX
            } else {
                acc + out
            };
            i = i + 1;
        }
        proof {
            assert(self.segments@.take(n as int) =~= self.segments@);
        }
        acc
    }

    /// Whether the edits are the identity: exactly one segment that starts
    /// at zero, reaches (within a 100 ms tolerance) the end of the source,
    /// and plays at normal speed.
    pub fn is_full_source(&self, source_duration_ms: u64) -> (r: bool)
        ensures
            r == (self.segments@.len() == 1 && self.segments@[0].source_start_ms == 0
                && self.segments@[0].source_end_ms + 100 >= source_duration_ms
                && self.segments@[0].spec_is_normal_speed()),
    {
        if self.segments.len() != 1 {
            return false;
        }
        let seg = &self.segments[0];
        let lower = if source_duration_ms >= 100 {
            source_duration_ms - 100
        } else {
            0
        };
        seg.source_start_ms == 0 && seg.source_end_ms >= lower && seg.time_scale > 1000
            - TIME_SCALE_TOLERANCE_MILLI && seg.time_scale < 1000 + TIME_SCALE_TOLERANCE_MILLI
    }
}


/// Sum over a sequence of segments of the source duration divided by the
/// playback speed, each term truncated to whole milliseconds, with no
/// saturation.
pub open spec fn spec_exact_scaled_sum(s: Seq<ExportSegment>) -> int
    decreases s.len(),
{
    if s.len() == 0 {
        0
    } else {
        spec_exact_scaled_sum(s.drop_last()) + s.last().spec_source_duration_ms() * 1000 / (
        s.last().time_scale as int)
    }
}

/// Law: the total output duration is the sum over segments of the source
/// duration divided by the playback speed. Every speed must be positive,
/// and each term must fit the machine word — past that point the
/// executable total saturates, as its own contract states.
pub proof fn lemma_total_output_is_scaled_sum(s: Seq<ExportSegment>)
    requires
        forall|i: int|
            0 <= i < s.len() ==> (#[trigger] s[i]).time_scale > 0
                && s[i].spec_source_duration_ms() * 1000 / (s[i].time_scale as int) <= u64::MAX as int,
    ensures
        spec_total_output_ms(s) == spec_exact_scaled_sum(s),
    decreases s.len(),
{
    if s.len() > 0 {
        assert(s.last() == s[s.len() - 1]);
        lemma_total_output_is_scaled_sum(s.drop_last());
    }
}

/// Check caller-supplied edits before a run: the segment list must not
/// be empty, every segment must be a forward range at a positive speed,
/// and zero-length segments are rejected (the engine would tolerate
/// them, but they are contradictory input).
pub fn validate_edits(edits: &TrackEdits) -> (r: Result<(), ExportError>)
    ensures
        r is Ok <==> (edits.segments@.len() > 0 && forall|i: int|
            0 <= i < edits.segments@.len() ==> (#[trigger] edits.segments@[i]).well_formed()
                && edits.segments@[i].source_start_ms < edits.segments@[i].source_end_ms),
        r is Ok ==> edits.well_formed(),
        r matches Err(e) ==> e is InvalidConfig,
{
    if edits.segments.len() == 0 {
        return Err(ExportError::InvalidConfig("no segments to export".to_owned()));
    }
    let n = edits.segments.len();
    let mut i: usize = 0;
    while i < n
        invariant
            n == edits.segments@.len(),
            i <= n,
            forall|j: int|
                0 <= j < i ==> (#[trigger] edits.segments@[j]).well_formed()
                    && edits.segments@[j].source_start_ms < edits.segments@[j].source_end_ms,
        decreases n - i,
    {
        let seg = &edits.segments[i];
        if seg.time_scale == 0 || seg.source_start_ms >= seg.source_end_ms {
            return Err(ExportError::InvalidConfig("malformed segment".to_owned()));
        }
        i = i + 1;
    }
    Ok(())
}

/// Every segment contributes a non-negative output duration, so the
/// running total only grows.
proof fn lemma_total_output_nonneg(s: Seq<ExportSegment>)
    ensures
        spec_total_output_ms(s) >= 0,
    decreases s.len(),
{
    if s.len() > 0 {
        lemma_total_output_nonneg(s.drop_last());
        let seg = s.last();
        if seg.time_scale > 0 {
            assert(seg.spec_source_duration_ms() * 1000 / (seg.time_scale as int) >= 0)
                by (nonlinear_arith)
                requires
                    seg.spec_source_duration_ms() >= 0,
                    seg.time_scale > 0,
            ;
        }
    }
}

} // verus!

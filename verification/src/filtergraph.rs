//! Filter-graph builder: per-track trim and concatenation filters with
//! labeled intermediate nodes, as handed to the external codec engine.

use vstd::prelude::*;
use vstd::string::StringExecFns;
use crate::edit::ExportSegment;
use crate::numfmt::{ms_to_secs_str, milli_to_str, spec_dec, spec_milli, u64_to_dec};
use crate::strjoin::{join_strings, spec_join, spec_views};
use crate::tempo::{atempo_chain_text, build_tempo_chain, spec_atempo_chain_text, spec_tempo_chain};

verus! {

/// A node label: a prefix followed by a decimal index, such as `v0`.
pub open spec fn spec_label(prefix: Seq<char>, i: int) -> Seq<char> {
    prefix + spec_dec(i)
}

/// The labels `[p0][p1]...[p(n-1)]`, as they feed a concatenation node.
pub open spec fn spec_bracket_labels(prefix: Seq<char>, n: int) -> Seq<char>
    decreases n,
{
    if n <= 0 {
        Seq::empty()
    } else {
        spec_bracket_labels(prefix, n - 1) + "["@ + spec_label(prefix, n - 1) + "]"@
    }
}

/// The trim filter for one video segment: cut the source range, reset
/// timestamps to zero, and divide the timestamps by the playback speed
/// if the segment is not at normal speed.
pub open spec fn spec_video_segment_filter(seg: ExportSegment, input_index: int, i: int) -> Seq<
    char,
> {
    "["@ + spec_dec(input_index) + ":v]trim=start="@ + spec_milli(seg.source_start_ms as int)
        + ":end="@ + spec_milli(seg.source_end_ms as int) + (if seg.spec_is_normal_speed() {
        ",setpts=PTS-STARTPTS"@
    } else {
        ",setpts=(PTS-STARTPTS)/"@ + spec_milli(seg.time_scale as int)
    }) + "["@ + spec_label("v"@, i) + "]"@
}

/// The concatenation node joining `n` video segments into `vconcat`.
pub open spec fn spec_video_concat_line(n: int) -> Seq<char> {
    spec_bracket_labels("v"@, n) + "concat=n="@ + spec_dec(n) + ":v=1:a=0[vconcat]"@
}

/// All lines of the video filter, in order: one trim line per segment,
/// then a single n-way concatenation when more than one segment exists.
pub open spec fn spec_video_filter_parts(segs: Seq<ExportSegment>, input_index: int) -> Seq<
    Seq<char>,
> {
    Seq::new(segs.len(), |i: int| spec_video_segment_filter(segs[i], input_index, i)) + (if segs.len()
        > 1 {
        seq![spec_video_concat_line(segs.len() as int)]
    } else {
        Seq::<Seq<char>>::empty()
    })
}

/// The video filter text: the lines joined with semicolons.
pub open spec fn spec_video_filter_text(segs: Seq<ExportSegment>, input_index: int) -> Seq<char> {
    spec_join(spec_video_filter_parts(segs, input_index), ";"@)
}

/// The label carrying the finished video stream out of the filter.
pub open spec fn spec_video_out_label(segs: Seq<ExportSegment>) -> Seq<char> {
    if segs.len() > 1 {
        "vconcat"@
    } else {
        spec_label("v"@, 0)
    }
}

/// The trim filter for one audio segment: cut the source range, reset
/// timestamps, then run the tempo chain for the segment's speed.
pub open spec fn spec_audio_segment_filter(
    seg: ExportSegment,
    input_index: int,
    prefix: Seq<char>,
    i: int,
) -> Seq<char> {
    "["@ + spec_dec(input_index) + ":a]atrim=start="@ + spec_milli(seg.source_start_ms as int)
        + ":end="@ + spec_milli(seg.source_end_ms as int) + ",asetpts=PTS-STARTPTS,"@
        + spec_atempo_chain_text(spec_tempo_chain(seg.time_scale as int)) + "["@ + spec_label(
        prefix,
        i,
    ) + "]"@
}

/// The concatenation node joining `n` audio segments.
pub open spec fn spec_audio_concat_line(prefix: Seq<char>, n: int) -> Seq<char> {
    spec_bracket_labels(prefix, n) + "concat=n="@ + spec_dec(n) + ":v=0:a=1["@ + prefix
        + "concat]"@
}

/// All lines of one audio track's filter.
pub open spec fn spec_audio_filter_parts(
    segs: Seq<ExportSegment>,
    input_index: int,
    prefix: Seq<char>,
) -> Seq<Seq<char>> {
    Seq::new(segs.len(), |i: int| spec_audio_segment_filter(segs[i], input_index, prefix, i)) + (
    if segs.len() > 1 {
        seq![spec_audio_concat_line(prefix, segs.len() as int)]
    } else {
        Seq::<Seq<char>>::empty()
    })
}

/// The audio filter text: the lines joined with semicolons.
pub open spec fn spec_audio_filter_text(
    segs: Seq<ExportSegment>,
    input_index: int,
    prefix: Seq<char>,
) -> Seq<char> {
    spec_join(spec_audio_filter_parts(segs, input_index, prefix), ";"@)
}

/// The label carrying the finished audio stream out of the filter.
pub open spec fn spec_audio_out_label(segs: Seq<ExportSegment>, prefix: Seq<char>) -> Seq<char> {
    if segs.len() > 1 {
        prefix + "concat"@
    } else {
        spec_label(prefix, 0)
    }
}

/// A label as text: the prefix followed by the index.
fn label_text(prefix: &str, i: usize) -> (r: String)
    ensures
        r@ == spec_label(prefix@, i as int),
{
    let mut s = prefix.to_owned();
    s.append(u64_to_dec(i as u64).as_str());
    s
}

/// The labels `[p0][p1]...[p(n-1)]` as text.
fn bracket_labels(prefix: &str, n: usize) -> (r: String)
    ensures
        r@ == spec_bracket_labels(prefix@, n as int),
{
    let mut s = String::new();
    let mut i: usize = 0;
    while i < n
        invariant
            i <= n,
            s@ == spec_bracket_labels(prefix@, i as int),
        decreases n - i,
    {
        s.append("[");
        s.append(label_text(prefix, i).as_str());
        s.append("]");
        i = i + 1;
    }
    s
}

/// The trim filter line for one video segment.
fn video_segment_filter(seg: &ExportSegment, input_index: usize, i: usize) -> (r: String)
    ensures
        r@ == spec_video_segment_filter(*seg, input_index as int, i as int),
{
    let mut s = String::from_str("[");
    s.append(u64_to_dec(input_index as u64).as_str());
    s.append(":v]trim=start=");
    s.append(ms_to_secs_str(seg.source_start_ms).as_str());
    s.append(":end=");
    s.append(ms_to_secs_str(seg.source_end_ms).as_str());
    if seg.time_scale > 990 && seg.time_scale < 1010 {
        s.append(",setpts=PTS-STARTPTS");
    } else {
        s.append(",setpts=(PTS-STARTPTS)/");
        s.append(milli_to_str(seg.time_scale).as_str());
    }
    s.append("[");
    s.append(label_text("v", i).as_str());
    s.append("]");
    s
}

/// The trim-and-tempo filter line for one audio segment.
fn audio_segment_filter(seg: &ExportSegment, input_index: usize, prefix: &str, i: usize) -> (r:
    String)
    requires
        seg.well_formed(),
    ensures
        r@ == spec_audio_segment_filter(*seg, input_index as int, prefix@, i as int),
{
    let chain = build_tempo_chain(seg.time_scale);
    let mut s = String::from_str("[");
    s.append(u64_to_dec(input_index as u64).as_str());
    s.append(":a]atrim=start=");
    s.append(ms_to_secs_str(seg.source_start_ms).as_str());
    s.append(":end=");
    s.append(ms_to_secs_str(seg.source_end_ms).as_str());
    s.append(",asetpts=PTS-STARTPTS,");
    s.append(atempo_chain_text(&chain).as_str());
    s.append("[");
    s.append(label_text(prefix, i).as_str());
    s.append("]");
    s
}

/// Build the filter for the video segments of one input: one trim line
/// per segment and, when more than one segment exists, a single n-way
/// concatenation node. Returns the filter text and the output label.
pub fn build_video_filter(segments: &Vec<ExportSegment>, input_index: usize) -> (r: (
    String,
    String,
))
    ensures
        r.0@ == spec_video_filter_text(segments@, input_index as int),
        r.1@ == spec_video_out_label(segments@),
{
    let mut parts: Vec<String> = Vec::new();
    let n = segments.len();
    let mut i: usize = 0;
    while i < n
        invariant
            n == segments@.len(),
            i <= n,
            spec_views(parts@) =~= Seq::new(
                i as nat,
                |j: int| spec_video_segment_filter(segments@[j], input_index as int, j),
            ),
        decreases n - i,
    {
        let ghost before = spec_views(parts@);
        parts.push(video_segment_filter(&segments[i], input_index, i));
        proof {
            assert(spec_views(parts@) =~= before + seq![
                spec_video_segment_filter(segments@[i as int], input_index as int, i as int),
            ]);
            assert(spec_views(parts@) =~= Seq::new(
                (i + 1) as nat,
                |j: int| spec_video_segment_filter(segments@[j], input_index as int, j),
            ));
        }
        i = i + 1;
    }
    let out_label: String;
    if n > 1 {
        let ghost before = spec_views(parts@);
        let mut line = bracket_labels("v", n);
        line.append("concat=n=");
        line.append(u64_to_dec(n as u64).as_str());
        line.append(":v=1:a=0[vconcat]");
        parts.push(line);
        proof {
            assert(spec_views(parts@) =~= before + seq![spec_video_concat_line(n as int)]);
        }
        out_label = "vconcat".to_owned();
    } else {
        out_label = label_text("v", 0);
    }
    proof {
        assert(spec_views(parts@) =~= spec_video_filter_parts(segments@, input_index as int));
    }
    (join_strings(&parts, ";"), out_label)
}

/// Build the filter for the audio segments of one input, labelled with
/// the given prefix. Returns the filter text and the output label.
pub fn build_audio_filter(segments: &Vec<ExportSegment>, input_index: usize, prefix: &str) -> (r: (
    String,
    String,
))
    requires
        forall|i: int| 0 <= i < segments@.len() ==> segments@[i].well_formed(),
    ensures
        r.0@ == spec_audio_filter_text(segments@, input_index as int, prefix@),
        r.1@ == spec_audio_out_label(segments@, prefix@),
{
    let mut parts: Vec<String> = Vec::new();
    let n = segments.len();
    let mut i: usize = 0;
    while i < n
        invariant
            n == segments@.len(),
            i <= n,
            forall|k: int| 0 <= k < segments@.len() ==> segments@[k].well_formed(),
            spec_views(parts@) =~= Seq::new(
                i as nat,
                |j: int| spec_audio_segment_filter(segments@[j], input_index as int, prefix@, j),
            ),
        decreases n - i,
    {
        let ghost before = spec_views(parts@);
        parts.push(audio_segment_filter(&segments[i], input_index, prefix, i));
        proof {
            assert(spec_views(parts@) =~= before + seq![
                spec_audio_segment_filter(
                    segments@[i as int],
                    input_index as int,
                    prefix@,
                    i as int,
                ),
            ]);
            assert(spec_views(parts@) =~= Seq::new(
                (i + 1) as nat,
                |j: int| spec_audio_segment_filter(segments@[j], input_index as int, prefix@, j),
            ));
        }
        i = i + 1;
    }
    let out_label: String;
    if n > 1 {
        let ghost before = spec_views(parts@);
        let mut line = bracket_labels(prefix, n);
        line.append("concat=n=");
        line.append(u64_to_dec(n as u64).as_str());
        line.append(":v=0:a=1[");
        line.append(prefix);
        line.append("concat]");
        parts.push(line);
        proof {
            assert(spec_views(parts@) =~= before + seq![
                spec_audio_concat_line(prefix@, n as int),
            ]);
        }
        let mut lab = prefix.to_owned();
        lab.append("concat");
        out_label = lab;
    } else {
        out_label = label_text(prefix, 0);
    }
    proof {
        assert(spec_views(parts@) =~= spec_audio_filter_parts(
            segments@,
            input_index as int,
            prefix@,
        ));
    }
    (join_strings(&parts, ";"), out_label)
}

} // verus!

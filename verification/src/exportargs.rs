//! The complete argument list for an edit-only export: inputs, the
//! filter graph assembled from the per-track filters, stream mapping,
//! codec options, and progress reporting.

use vstd::prelude::*;
use vstd::string::StringExecFns;
use crate::edit::{ExportSegment, TrackEdits};
use crate::filtergraph::{
    build_audio_filter, build_video_filter, spec_audio_filter_text, spec_audio_out_label,
    spec_bracket_labels, spec_label, spec_video_filter_text, spec_video_out_label,
};
use crate::numfmt::{ms_to_secs_str, spec_dec, spec_milli, u64_to_dec};
use crate::strjoin::{join_strings, spec_join, spec_views};
use crate::types::{ExportFormat, ExportOptions, ExportQuality, spec_crf, spec_h264_preset};

verus! {

/// An explicit dimension if one was requested, else the source's.
pub open spec fn spec_or_source(requested: Option<u32>, source: u32) -> int {
    match requested {
        Some(v) => v as int,
        None => source as int,
    }
}

/// The view of an optional path argument.
pub open spec fn spec_str_opt(o: Option<&str>) -> Option<Seq<char>> {
    match o {
        Some(p) => Some(p@),
        None => None,
    }
}

/// The input index of the webcam stream (right after the screen video).
pub open spec fn spec_webcam_index() -> int {
    1
}

/// The input index of the microphone stream.
pub open spec fn spec_mic_index(has_webcam: bool) -> int {
    if has_webcam {
        2
    } else {
        1
    }
}

/// The input index of the system-audio stream.
pub open spec fn spec_sys_index(has_webcam: bool, has_mic: bool) -> int {
    1 + (if has_webcam {
        1int
    } else {
        0int
    }) + (if has_mic {
        1int
    } else {
        0int
    })
}

/// The trim filter for one webcam segment: the same cut as the primary
/// track, timestamps reset, never speed-adjusted.
pub open spec fn spec_webcam_segment_filter(seg: ExportSegment, idx: int, i: int) -> Seq<char> {
    "["@ + spec_dec(idx) + ":v]trim=start="@ + spec_milli(seg.source_start_ms as int) + ":end="@
        + spec_milli(seg.source_end_ms as int) + ",setpts=PTS-STARTPTS["@ + spec_label("wc"@, i)
        + "]"@
}

/// The label the concatenated webcam stream carries.
pub open spec fn spec_webcam_concat_label(n: int) -> Seq<char> {
    if n > 1 {
        "wcconcat"@
    } else {
        spec_label("wc"@, 0)
    }
}

/// The webcam sub-graph: per-segment trims, a concatenation when more
/// than one segment exists, a scale to one eighth of the output width,
/// and the bottom-right overlay that stops with the shorter stream.
pub open spec fn spec_webcam_lines(segs: Seq<ExportSegment>, idx: int, ow: int) -> Seq<Seq<char>> {
    Seq::new(segs.len(), |i: int| spec_webcam_segment_filter(segs[i], idx, i)) + (if segs.len()
        > 1 {
        seq![
            spec_bracket_labels("wc"@, segs.len() as int) + "concat=n="@ + spec_dec(
                segs.len() as int,
            ) + ":v=1:a=0[wcconcat]"@,
        ]
    } else {
        Seq::<Seq<char>>::empty()
    }) + seq![
        "["@ + spec_webcam_concat_label(segs.len() as int) + "]scale="@ + spec_dec(ow / 8)
            + ":-1[wc_scaled]"@,
        "[vscaled][wc_scaled]overlay=W-w-20:H-h-20:shortest=1[vout]"@,
    ]
}

/// The single scale-and-rate line applied after concatenation: scale
/// preserving aspect ratio and pad to the exact box when the output size
/// differs from the source, and in any case fix the frame rate.
pub open spec fn spec_scale_line(
    segs: Seq<ExportSegment>,
    sw: int,
    sh: int,
    ow: int,
    oh: int,
    ofps: int,
    has_webcam: bool,
) -> Seq<char> {
    let slabel: Seq<char> = if has_webcam {
        "vscaled"@
    } else {
        "vout"@
    };
    if sw != ow || sh != oh {
        "["@ + spec_video_out_label(segs) + "]scale="@ + spec_dec(ow) + ":"@ + spec_dec(oh)
            + ":force_original_aspect_ratio=decrease,pad="@ + spec_dec(ow) + ":"@ + spec_dec(oh)
            + ":(ow-iw)/2:(oh-ih)/2:black,fps="@ + spec_dec(ofps) + "["@ + slabel + "]"@
    } else {
        "["@ + spec_video_out_label(segs) + "]fps="@ + spec_dec(ofps) + "["@ + slabel + "]"@
    }
}

/// An audio output label in brackets, as the mixer consumes it.
pub open spec fn spec_bracketed(label: Seq<char>) -> Seq<char> {
    "["@ + label + "]"@
}

/// The equal-weight mixing node for two audio tracks, longest wins.
pub open spec fn spec_amix_line(l1: Seq<char>, l2: Seq<char>) -> Seq<char> {
    spec_bracketed(l1) + spec_bracketed(l2) + "amix=inputs=2:duration=longest[aout]"@
}

/// All lines of the export filter graph, in order.
pub open spec fn spec_edit_filter_parts(
    segs: Seq<ExportSegment>,
    sw: int,
    sh: int,
    ow: int,
    oh: int,
    ofps: int,
    has_webcam: bool,
    has_mic: bool,
    has_sys: bool,
) -> Seq<Seq<char>> {
    seq![
        spec_video_filter_text(segs, 0),
        spec_scale_line(segs, sw, sh, ow, oh, ofps, has_webcam),
    ] + (if has_webcam {
        spec_webcam_lines(segs, spec_webcam_index(), ow)
    } else {
        Seq::<Seq<char>>::empty()
    }) + (if has_mic {
        seq![spec_audio_filter_text(segs, spec_mic_index(has_webcam), "mic"@)]
    } else {
        Seq::<Seq<char>>::empty()
    }) + (if has_sys {
        seq![spec_audio_filter_text(segs, spec_sys_index(has_webcam, has_mic), "sys"@)]
    } else {
        Seq::<Seq<char>>::empty()
    }) + (if has_mic && has_sys {
        seq![
            spec_amix_line(spec_audio_out_label(segs, "mic"@), spec_audio_out_label(segs, "sys"@)),
        ]
    } else {
        Seq::<Seq<char>>::empty()
    })
}

/// The complete filter-graph text: the lines joined with semicolons.
/// Identical inputs give byte-identical text: the graph is a function of
/// the edit list, the dimensions and rate, and the track presence alone.
pub open spec fn spec_edit_filter_complex(
    segs: Seq<ExportSegment>,
    sw: int,
    sh: int,
    ow: int,
    oh: int,
    ofps: int,
    has_webcam: bool,
    has_mic: bool,
    has_sys: bool,
) -> Seq<char> {
    spec_join(spec_edit_filter_parts(segs, sw, sh, ow, oh, ofps, has_webcam, has_mic, has_sys), ";"@)
}

/// The stream-mapping argument for the mixed or single audio output, if
/// any audio track is present.
pub open spec fn spec_audio_map(segs: Seq<ExportSegment>, has_mic: bool, has_sys: bool) -> Option<
    Seq<char>,
> {
    if has_mic && has_sys {
        Some("[aout]"@)
    } else if has_mic {
        Some(spec_bracketed(spec_audio_out_label(segs, "mic"@)))
    } else if has_sys {
        Some(spec_bracketed(spec_audio_out_label(segs, "sys"@)))
    } else {
        None
    }
}

/// The video codec arguments of the edit-only export for each format.
pub open spec fn spec_edit_codec_args(format: ExportFormat, quality: ExportQuality) -> Seq<
    Seq<char>,
> {
    match format {
        ExportFormat::Mp4 => seq![
            "-c:v"@,
            "libx264"@,
            "-preset"@,
            spec_h264_preset(quality),
            "-crf"@,
            spec_dec(spec_crf(quality)),
            "-pix_fmt"@,
            "yuv420p"@,
            "-movflags"@,
            "+faststart"@,
        ],
        ExportFormat::Webm => seq![
            "-c:v"@,
            "libvpx-vp9"@,
            "-crf"@,
            spec_dec(spec_crf(quality)),
            "-b:v"@,
            "0"@,
        ],
        ExportFormat::Gif => seq!["-f"@, "gif"@],
    }
}

/// The input-file arguments: overwrite, then the screen video, then the
/// optional webcam, microphone, and system-audio files in that order.
pub open spec fn spec_input_args(
    video_path: Seq<char>,
    webcam_path: Option<Seq<char>>,
    mic_path: Option<Seq<char>>,
    system_path: Option<Seq<char>>,
) -> Seq<Seq<char>> {
    seq!["-y"@, "-i"@, video_path] + (match webcam_path {
        Some(p) => seq!["-i"@, p],
        None => Seq::<Seq<char>>::empty(),
    }) + (match mic_path {
        Some(p) => seq!["-i"@, p],
        None => Seq::<Seq<char>>::empty(),
    }) + (match system_path {
        Some(p) => seq!["-i"@, p],
        None => Seq::<Seq<char>>::empty(),
    })
}

/// The complete argument list of the edit-only export.
pub open spec fn spec_edit_export_args(
    video_path: Seq<char>,
    webcam_path: Option<Seq<char>>,
    mic_path: Option<Seq<char>>,
    system_path: Option<Seq<char>>,
    options: ExportOptions,
    segs: Seq<ExportSegment>,
    sw: int,
    sh: int,
    sfps: int,
) -> Seq<Seq<char>> {
    let ow = spec_or_source(options.width, sw as u32);
    let oh = spec_or_source(options.height, sh as u32);
    let ofps = spec_or_source(options.fps, sfps as u32);
    let has_webcam = webcam_path is Some;
    let has_mic = mic_path is Some;
    let has_sys = system_path is Some;
    spec_input_args(video_path, webcam_path, mic_path, system_path) + seq![
        "-filter_complex"@,
        spec_edit_filter_complex(segs, sw, sh, ow, oh, ofps, has_webcam, has_mic, has_sys),
        "-map"@,
        "[vout]"@,
    ] + (match spec_audio_map(segs, has_mic, has_sys) {
        Some(l) => seq!["-map"@, l],
        None => Seq::<Seq<char>>::empty(),
    }) + spec_edit_codec_args(options.format, options.quality) + (if has_mic || has_sys {
        seq!["-c:a"@, "aac"@, "-b:a"@, "192k"@]
    } else {
        Seq::<Seq<char>>::empty()
    }) + seq!["-progress"@, "pipe:1"@, options.output_path@]
}

/// A label in brackets as text.
fn bracketed(label: &str) -> (r: String)
    ensures
        r@ == spec_bracketed(label@),
{
    let mut s = String::from_str("[");
    s.append(label);
    s.append("]");
    s
}

/// The webcam sub-graph lines as text.
fn webcam_lines(segments: &Vec<ExportSegment>, idx: usize, ow: u32) -> (r: Vec<String>)
    ensures
        spec_views(r@) =~= spec_webcam_lines(segments@, idx as int, ow as int),
{
    let mut lines: Vec<String> = Vec::new();
    let n = segments.len();
    let mut i: usize = 0;
    while i < n
        invariant
            n == segments@.len(),
            i <= n,
            spec_views(lines@) =~= Seq::new(
                i as nat,
                |j: int| spec_webcam_segment_filter(segments@[j], idx as int, j),
            ),
        decreases n - i,
    {
        let ghost before = spec_views(lines@);
        let seg = &segments[i];
        let mut s = String::from_str("[");
        s.append(u64_to_dec(idx as u64).as_str());
        s.append(":v]trim=start=");
        s.append(ms_to_secs_str(seg.source_start_ms).as_str());
        s.append(":end=");
        s.append(ms_to_secs_str(seg.source_end_ms).as_str());
        s.append(",setpts=PTS-STARTPTS[");
        s.append("wc".to_owned().concat(u64_to_dec(i as u64).as_str()).as_str());
        s.append("]");
        lines.push(s);
        proof {
            assert(spec_views(lines@) =~= before + seq![
                spec_webcam_segment_filter(segments@[i as int], idx as int, i as int),
            ]);
            assert(spec_views(lines@) =~= Seq::new(
                (i + 1) as nat,
                |j: int| spec_webcam_segment_filter(segments@[j], idx as int, j),
            ));
        }
        i = i + 1;
    }
    let concat_label: String;
    if n > 1 {
        let ghost before = spec_views(lines@);
        let mut line = String::new();
        let mut k: usize = 0;
        while k < n
            invariant
                k <= n,
                line@ == spec_bracket_labels("wc"@, k as int),
            decreases n - k,
        {
            line.append("[");
            line.append("wc".to_owned().concat(u64_to_dec(k as u64).as_str()).as_str());
            line.append("]");
            k = k + 1;
        }
        line.append("concat=n=");
        line.append(u64_to_dec(n as u64).as_str());
        line.append(":v=1:a=0[wcconcat]");
        lines.push(line);
        proof {
            assert(spec_views(lines@) =~= before + seq![
                spec_bracket_labels("wc"@, n as int) + "concat=n="@ + spec_dec(n as int)
                    + ":v=1:a=0[wcconcat]"@,
            ]);
        }
        concat_label = "wcconcat".to_owned();
    } else {
        concat_label = "wc".to_owned().concat(u64_to_dec(0).as_str());
    }
    let ghost before_scale = spec_views(lines@);
    let mut scale = String::from_str("[");
    scale.append(concat_label.as_str());
    scale.append("]scale=");
    scale.append(u64_to_dec((ow / 8) as u64).as_str());
    scale.append(":-1[wc_scaled]");
    lines.push(scale);
    lines.push("[vscaled][wc_scaled]overlay=W-w-20:H-h-20:shortest=1[vout]".to_owned());
    proof {
        assert(spec_views(lines@) =~= before_scale + seq![
            "["@ + spec_webcam_concat_label(segments@.len() as int) + "]scale="@ + spec_dec(
                ow as int / 8,
            ) + ":-1[wc_scaled]"@,
            "[vscaled][wc_scaled]overlay=W-w-20:H-h-20:shortest=1[vout]"@,
        ]);
        assert(spec_views(lines@) =~= spec_webcam_lines(segments@, idx as int, ow as int));
    }
    lines
}

/// The video codec arguments as text.
fn edit_codec_args(format: ExportFormat, quality: ExportQuality) -> (r: Vec<String>)
    ensures
        spec_views(r@) =~= spec_edit_codec_args(format, quality),
{
    let mut args: Vec<String> = Vec::new();
    match format {
        ExportFormat::Mp4 => {
            args.push("-c:v".to_owned());
            args.push("libx264".to_owned());
            args.push("-preset".to_owned());
            args.push(quality.h264_preset().to_owned());
            args.push("-crf".to_owned());
            args.push(u64_to_dec(quality.crf() as u64));
            args.push("-pix_fmt".to_owned());
            args.push("yuv420p".to_owned());
            args.push("-movflags".to_owned());
            args.push("+faststart".to_owned());
        },
        ExportFormat::Webm => {
            args.push("-c:v".to_owned());
            args.push("libvpx-vp9".to_owned());
            args.push("-crf".to_owned());
            args.push(u64_to_dec(quality.crf() as u64));
            args.push("-b:v".to_owned());
            args.push("0".to_owned());
        },
        ExportFormat::Gif => {
            args.push("-f".to_owned());
            args.push("gif".to_owned());
        },
    }
    proof {
        assert(spec_views(args@) =~= spec_edit_codec_args(format, quality));
    }
    args
}

/// Build the filter-graph text and the audio output labels for an
/// edit-only export run.
#[verifier::rlimit(100)]
fn edit_filter_complex(
    segments: &Vec<ExportSegment>,
    source_width: u32,
    source_height: u32,
    ow: u32,
    oh: u32,
    ofps: u32,
    has_webcam: bool,
    has_mic: bool,
    has_sys: bool,
) -> (r: (String, String, String))
    requires
        forall|i: int| 0 <= i < segments@.len() ==> segments@[i].well_formed(),
    ensures
        r.0@ == spec_edit_filter_complex(
            segments@,
            source_width as int,
            source_height as int,
            ow as int,
            oh as int,
            ofps as int,
            has_webcam,
            has_mic,
            has_sys,
        ),
        has_mic ==> r.1@ == spec_audio_out_label(segments@, "mic"@),
        has_sys ==> r.2@ == spec_audio_out_label(segments@, "sys"@),
{
    let mic_idx: usize = if has_webcam {
        2
    } else {
        1
    };
    let sys_idx: usize = 1 + (if has_webcam {
        1usize
    } else {
        0usize
    }) + (if has_mic {
        1usize
    } else {
        0usize
    });

    // The filter-graph lines.
    let mut parts: Vec<String> = Vec::new();
    let (video_filter, video_label) = build_video_filter(segments, 0);
    parts.push(video_filter);
    let mut scale_line = String::from_str("[");
    scale_line.append(video_label.as_str());
    if source_width != ow || source_height != oh {
        scale_line.append("]scale=");
        scale_line.append(u64_to_dec(ow as u64).as_str());
        scale_line.append(":");
        scale_line.append(u64_to_dec(oh as u64).as_str());
        scale_line.append(":force_original_aspect_ratio=decrease,pad=");
        scale_line.append(u64_to_dec(ow as u64).as_str());
        scale_line.append(":");
        scale_line.append(u64_to_dec(oh as u64).as_str());
        scale_line.append(":(ow-iw)/2:(oh-ih)/2:black,fps=");
    } else {
        scale_line.append("]fps=");
    }
    scale_line.append(u64_to_dec(ofps as u64).as_str());
    scale_line.append("[");
    scale_line.append(if has_webcam {
        "vscaled"
    } else {
        "vout"
    });
    scale_line.append("]");
    parts.push(scale_line);
    proof {
        assert(spec_views(parts@) =~= seq![
            spec_video_filter_text(segments@, 0),
            spec_scale_line(
                segments@,
                source_width as int,
                source_height as int,
                ow as int,
                oh as int,
                ofps as int,
                has_webcam,
            ),
        ]);
    }
    if has_webcam {
        let ghost before = spec_views(parts@);
        let mut wc = webcam_lines(segments, 1, ow);
        parts.append(&mut wc);
        proof {
            assert(spec_views(parts@) =~= before + spec_webcam_lines(
                segments@,
                spec_webcam_index(),
                ow as int,
            ));
        }
    }
    let mut mic_label: String = String::new();
    if has_mic {
        let ghost before = spec_views(parts@);
        let (af, albl) = build_audio_filter(segments, mic_idx, "mic");
        parts.push(af);
        mic_label = albl;
        proof {
            assert(spec_views(parts@) =~= before + seq![
                spec_audio_filter_text(segments@, spec_mic_index(has_webcam), "mic"@),
            ]);
        }
    }
    let mut sys_label: String = String::new();
    if has_sys {
        let ghost before = spec_views(parts@);
        let (af, albl) = build_audio_filter(segments, sys_idx, "sys");
        parts.push(af);
        sys_label = albl;
        proof {
            assert(spec_views(parts@) =~= before + seq![
                spec_audio_filter_text(
                    segments@,
                    spec_sys_index(has_webcam, has_mic),
                    "sys"@,
                ),
            ]);
        }
    }
    if has_mic && has_sys {
        let ghost before = spec_views(parts@);
        let mut amix = bracketed(mic_label.as_str());
        amix.append(bracketed(sys_label.as_str()).as_str());
        amix.append("amix=inputs=2:duration=longest[aout]");
        parts.push(amix);
        proof {
            assert(spec_views(parts@) =~= before + seq![
                spec_amix_line(
                    spec_audio_out_label(segments@, "mic"@),
                    spec_audio_out_label(segments@, "sys"@),
                ),
            ]);
        }
    }
    proof {
        assert(spec_views(parts@) =~= spec_edit_filter_parts(
            segments@,
            source_width as int,
            source_height as int,
            ow as int,
            oh as int,
            ofps as int,
            has_webcam,
            has_mic,
            has_sys,
        ));
    }
    let filter_complex = join_strings(&parts, ";");
    (filter_complex, mic_label, sys_label)
}

/// Put together the argument list from the already-built pieces: the
/// inputs, the filter graph, the stream maps, the codec options, the
/// audio codec, and the output path.
#[verifier::rlimit(100)]
fn assemble_args(
    video_path: &str,
    webcam_path: Option<&str>,
    mic_path: Option<&str>,
    system_path: Option<&str>,
    filter_complex: String,
    audio_map: Option<String>,
    codec: Vec<String>,
    has_audio: bool,
    output_path: &String,
) -> (args: Vec<String>)
    ensures
        spec_views(args@) =~= spec_input_args(
            video_path@,
            spec_str_opt(webcam_path),
            spec_str_opt(mic_path),
            spec_str_opt(system_path),
        ) + seq!["-filter_complex"@, filter_complex@, "-map"@, "[vout]"@] + (match audio_map {
            Some(m) => seq!["-map"@, m@],
            None => Seq::<Seq<char>>::empty(),
        }) + spec_views(codec@) + (if has_audio {
            seq!["-c:a"@, "aac"@, "-b:a"@, "192k"@]
        } else {
            Seq::<Seq<char>>::empty()
        }) + seq!["-progress"@, "pipe:1"@, output_path@],
{
    let ghost g_filter = seq!["-filter_complex"@, filter_complex@, "-map"@, "[vout]"@];
    let ghost g_amap: Seq<Seq<char>> = (match audio_map {
        Some(ref m) => seq!["-map"@, m@],
        None => Seq::<Seq<char>>::empty(),
    });
    let ghost g_codec = spec_views(codec@);
    let mut args: Vec<String> = Vec::new();
    args.push("-y".to_owned());
    args.push("-i".to_owned());
    args.push(video_path.to_owned());
    if let Some(p) = webcam_path {
        args.push("-i".to_owned());
        args.push(p.to_owned());
    }
    if let Some(p) = mic_path {
        args.push("-i".to_owned());
        args.push(p.to_owned());
    }
    if let Some(p) = system_path {
        args.push("-i".to_owned());
        args.push(p.to_owned());
    }
    let ghost g_inputs = spec_views(args@);
    proof {
        assert(g_inputs =~= spec_input_args(
            video_path@,
            spec_str_opt(webcam_path),
            spec_str_opt(mic_path),
            spec_str_opt(system_path),
        ));
    }
    args.push("-filter_complex".to_owned());
    args.push(filter_complex);
    args.push("-map".to_owned());
    args.push("[vout]".to_owned());
    proof {
        assert(spec_views(args@) =~= g_inputs + g_filter);
    }
    if let Some(m) = audio_map {
        args.push("-map".to_owned());
        args.push(m);
    }
    proof {
        assert(spec_views(args@) =~= g_inputs + g_filter + g_amap);
    }
    let mut codec = codec;
    args.append(&mut codec);
    proof {
        assert(spec_views(args@) =~= g_inputs + g_filter + g_amap + g_codec);
    }
    if has_audio {
        args.push("-c:a".to_owned());
        args.push("aac".to_owned());
        args.push("-b:a".to_owned());
        args.push("192k".to_owned());
    }
    args.push("-progress".to_owned());
    args.push("pipe:1".to_owned());
    args.push(output_path.clone());
    proof {
        assert(spec_views(args@) =~= g_inputs + g_filter + g_amap + g_codec + (if has_audio {
            seq!["-c:a"@, "aac"@, "-b:a"@, "192k"@]
        } else {
            Seq::<Seq<char>>::empty()
        }) + seq!["-progress"@, "pipe:1"@, output_path@]);
    }
    args
}

/// Build the full argument list for an edit-only export run.///
/// The screen video is input 0; the webcam, microphone, and system-audio
/// files follow in that order where present. The caller passes a path
/// only for a track that is both enabled and on disk. The resulting list
/// is a function of the arguments alone, so identical inputs always
/// produce an identical invocation, filter graph included.
#[verifier::rlimit(100)]
pub fn build_edit_export_args(
    video_path: &str,
    webcam_path: Option<&str>,
    mic_path: Option<&str>,
    system_path: Option<&str>,
    options: &ExportOptions,
    edits: &TrackEdits,
    source_width: u32,
    source_height: u32,
    source_fps: u32,
) -> (args: Vec<String>)
    requires
        edits.well_formed(),
    ensures
        spec_views(args@) =~= spec_edit_export_args(
            video_path@,
            spec_str_opt(webcam_path),
            (if options.format is Gif {
                None
            } else {
                spec_str_opt(mic_path)
            }),
            (if options.format is Gif {
                None
            } else {
                spec_str_opt(system_path)
            }),
            *options,
            edits.segments@,
            source_width as int,
            source_height as int,
            source_fps as int,
        ),
{
    // An animated image cannot carry sound: a request that combines the
    // two degrades silently by dropping the audio tracks.
    let mic_path: Option<&str> = if let ExportFormat::Gif = options.format {
        None
    } else {
        mic_path
    };
    let system_path: Option<&str> = if let ExportFormat::Gif = options.format {
        None
    } else {
        system_path
    };
    let ow: u32 = match options.width {
        Some(w) => w,
        None => source_width,
    };
    let oh: u32 = match options.height {
        Some(h) => h,
        None => source_height,
    };
    let ofps: u32 = match options.fps {
        Some(f) => f,
        None => source_fps,
    };
    let has_webcam = webcam_path.is_some();
    let has_mic = mic_path.is_some();
    let has_sys = system_path.is_some();
    let (filter_complex, mic_label, sys_label) = edit_filter_complex(
        &edits.segments,
        source_width,
        source_height,
        ow,
        oh,
        ofps,
        has_webcam,
        has_mic,
        has_sys,
    );
    let audio_map_arg: Option<String> = if has_mic && has_sys {
        Some("[aout]".to_owned())
    } else if has_mic {
        Some(bracketed(mic_label.as_str()))
    } else if has_sys {
        Some(bracketed(sys_label.as_str()))
    } else {
        None
    };
    proof {
        assert(match audio_map_arg {
            Some(ref m) => spec_audio_map(edits.segments@, has_mic, has_sys) == Some(m@),
            None => spec_audio_map(edits.segments@, has_mic, has_sys) is None,
        });
    }
    let codec = edit_codec_args(options.format, options.quality);
    let args = assemble_args(
        video_path,
        webcam_path,
        mic_path,
        system_path,
        filter_complex,
        audio_map_arg,
        codec,
        has_mic || has_sys,
        &options.output_path,
    );
    proof {
        assert(spec_views(args@) =~= spec_edit_export_args(
            video_path@,
            spec_str_opt(webcam_path),
            spec_str_opt(mic_path),
            spec_str_opt(system_path),
            *options,
            edits.segments@,
            source_width as int,
            source_height as int,
            source_fps as int,
        ));
    }
    args
}

/// The graph and argument construction is deterministic: two argument
/// lists built from identical inputs are byte-identical, because each is
/// pinned to the same function of those inputs.
pub proof fn lemma_export_invocation_deterministic(
    first: Seq<Seq<char>>,
    second: Seq<Seq<char>>,
    video_path: Seq<char>,
    webcam_path: Option<Seq<char>>,
    mic_path: Option<Seq<char>>,
    system_path: Option<Seq<char>>,
    options: ExportOptions,
    segs: Seq<ExportSegment>,
    sw: int,
    sh: int,
    sfps: int,
)
    requires
        first =~= spec_edit_export_args(
            video_path,
            webcam_path,
            mic_path,
            system_path,
            options,
            segs,
            sw,
            sh,
            sfps,
        ),
        second =~= spec_edit_export_args(
            video_path,
            webcam_path,
            mic_path,
            system_path,
            options,
            segs,
            sw,
            sh,
            sfps,
        ),
    ensures
        first =~= second,
{
}

} // verus!

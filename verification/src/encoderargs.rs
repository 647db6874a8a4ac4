//! Argument lists for the frame-accurate encoder: a raw RGBA frame
//! stream on the input channel at the source frame rate, optional audio
//! file inputs, and the format's codec options.

use vstd::prelude::*;
use vstd::string::StringExecFns;
use crate::exportargs::{spec_edit_codec_args, spec_or_source, spec_str_opt};
use crate::numfmt::{spec_dec, u64_to_dec};
use crate::strjoin::spec_views;
use crate::types::{ExportFormat, ExportOptions, ExportQuality};

verus! {

/// The raw-video input arguments: overwrite, raw RGBA frames of the
/// source size on the input channel, at the source frame rate given as
/// an exact fraction. The input rate must match what frames are actually
/// fed, so it is always the source rate, never the requested output rate.
pub open spec fn spec_raw_input_args(sw: int, sh: int, fps_num: int, fps_den: int) -> Seq<
    Seq<char>,
> {
    seq![
        "-y"@,
        "-f"@,
        "rawvideo"@,
        "-pix_fmt"@,
        "rgba"@,
        "-s"@,
        spec_dec(sw) + "x"@ + spec_dec(sh),
        "-r"@,
        spec_dec(fps_num) + "/"@ + spec_dec(fps_den),
        "-i"@,
        "-"@,
    ]
}

/// The aspect-ratio-preserving scale with black padding to the exact
/// target box.
pub open spec fn spec_scale_pad_filter(ow: int, oh: int) -> Seq<char> {
    "scale="@ + spec_dec(ow) + ":"@ + spec_dec(oh) + ":force_original_aspect_ratio=decrease,pad="@
        + spec_dec(ow) + ":"@ + spec_dec(oh) + ":(ow-iw)/2:(oh-ih)/2:black"@
}

/// The two-pass palette sub-graph used for animated image output, with
/// the frame rate clamped to 15 and the width clamped to 800.
pub open spec fn spec_palette_filter(ow: int, ofps: int) -> Seq<char> {
    "fps="@ + spec_dec(if ofps < 15 {
        ofps
    } else {
        15
    }) + ",scale="@ + spec_dec(if ow < 800 {
        ow
    } else {
        800
    }) + ":-1:flags=lanczos,split[s0][s1];[s0]palettegen[p];[s1][p]paletteuse"@
}

/// The complete argument list of the video-only encoder.
pub open spec fn spec_video_only_args(
    options: ExportOptions,
    sw: int,
    sh: int,
    fps_num: int,
    fps_den: int,
) -> Seq<Seq<char>> {
    let ow = spec_or_source(options.width, sw as u32);
    let oh = spec_or_source(options.height, sh as u32);
    let ofps = spec_or_source(options.fps, (fps_num / fps_den) as u32);
    spec_raw_input_args(sw, sh, fps_num, fps_den) + (if sw != ow || sh != oh {
        seq!["-vf"@, spec_scale_pad_filter(ow, oh)]
    } else {
        Seq::<Seq<char>>::empty()
    }) + (match options.format {
        ExportFormat::Gif => seq!["-vf"@, spec_palette_filter(ow, ofps)],
        _ => spec_edit_codec_args(options.format, options.quality),
    }) + seq![options.output_path@]
}

/// The complete argument list of the encoder with audio inputs. Only for
/// the container formats that carry audio; an animated-image request
/// degrades to the video-only encoder instead.
pub open spec fn spec_with_audio_args(
    options: ExportOptions,
    sw: int,
    sh: int,
    fps_num: int,
    fps_den: int,
    mic_path: Option<Seq<char>>,
    system_path: Option<Seq<char>>,
) -> Seq<Seq<char>> {
    let ow = spec_or_source(options.width, sw as u32);
    let oh = spec_or_source(options.height, sh as u32);
    let has_mic = mic_path is Some;
    let has_sys = system_path is Some;
    spec_raw_input_args(sw, sh, fps_num, fps_den) + (match mic_path {
        Some(p) => seq!["-i"@, p],
        None => Seq::<Seq<char>>::empty(),
    }) + (match system_path {
        Some(p) => seq!["-i"@, p],
        None => Seq::<Seq<char>>::empty(),
    }) + (if has_mic && has_sys {
        seq!["-filter_complex"@, "[1:a][2:a]amix=inputs=2:duration=longest[aout]"@]
    } else {
        Seq::<Seq<char>>::empty()
    }) + (if sw != ow || sh != oh {
        seq!["-vf"@, spec_scale_pad_filter(ow, oh)]
    } else {
        Seq::<Seq<char>>::empty()
    }) + spec_edit_codec_args(options.format, options.quality) + (if has_mic && has_sys {
        seq!["-map"@, "0:v"@, "-map"@, "[aout]"@]
    } else if has_mic || has_sys {
        seq!["-map"@, "0:v"@, "-map"@, "1:a"@]
    } else {
        Seq::<Seq<char>>::empty()
    }) + (if has_mic || has_sys {
        seq!["-c:a"@, "aac"@, "-b:a"@, "192k"@]
    } else {
        Seq::<Seq<char>>::empty()
    }) + seq![options.output_path@]
}

/// The argument list of the raw-frame decoder: decode the file to raw
/// RGBA frames on the output channel, at the probed exact size so the
/// engine cannot pad implicitly.
pub open spec fn spec_decoder_args(video_path: Seq<char>, width: int, height: int) -> Seq<
    Seq<char>,
> {
    seq![
        "-i"@,
        video_path,
        "-f"@,
        "rawvideo"@,
        "-pix_fmt"@,
        "rgba"@,
        "-s"@,
        spec_dec(width) + "x"@ + spec_dec(height),
        "-"@,
    ]
}

/// Build the argument list for the raw-frame decoder.
pub fn build_decoder_args(video_path: &str, width: u32, height: u32) -> (args: Vec<String>)
    ensures
        spec_views(args@) =~= spec_decoder_args(video_path@, width as int, height as int),
{
    let mut args: Vec<String> = Vec::new();
    args.push("-i".to_owned());
    args.push(video_path.to_owned());
    args.push("-f".to_owned());
    args.push("rawvideo".to_owned());
    args.push("-pix_fmt".to_owned());
    args.push("rgba".to_owned());
    args.push("-s".to_owned());
    let mut size = u64_to_dec(width as u64);
    size.append("x");
    size.append(u64_to_dec(height as u64).as_str());
    args.push(size);
    args.push("-".to_owned());
    proof {
        assert(spec_views(args@) =~= spec_decoder_args(video_path@, width as int, height as int));
    }
    args
}

/// The raw-video input arguments as text.
fn raw_input_args(sw: u32, sh: u32, fps_num: u32, fps_den: u32) -> (r: Vec<String>)
    ensures
        spec_views(r@) =~= spec_raw_input_args(sw as int, sh as int, fps_num as int, fps_den as int),
{
    let mut args: Vec<String> = Vec::new();
    args.push("-y".to_owned());
    args.push("-f".to_owned());
    args.push("rawvideo".to_owned());
    args.push("-pix_fmt".to_owned());
    args.push("rgba".to_owned());
    args.push("-s".to_owned());
    let mut size = u64_to_dec(sw as u64);
    size.append("x");
    size.append(u64_to_dec(sh as u64).as_str());
    args.push(size);
    args.push("-r".to_owned());
    let mut rate = u64_to_dec(fps_num as u64);
    rate.append("/");
    rate.append(u64_to_dec(fps_den as u64).as_str());
    args.push(rate);
    args.push("-i".to_owned());
    args.push("-".to_owned());
    proof {
        assert(spec_views(args@) =~= spec_raw_input_args(
            sw as int,
            sh as int,
            fps_num as int,
            fps_den as int,
        ));
    }
    args
}

/// The scale-with-padding filter as text.
fn scale_pad_filter(ow: u32, oh: u32) -> (r: String)
    ensures
        r@ == spec_scale_pad_filter(ow as int, oh as int),
{
    let mut s = String::from_str("scale=");
    s.append(u64_to_dec(ow as u64).as_str());
    s.append(":");
    s.append(u64_to_dec(oh as u64).as_str());
    s.append(":force_original_aspect_ratio=decrease,pad=");
    s.append(u64_to_dec(ow as u64).as_str());
    s.append(":");
    s.append(u64_to_dec(oh as u64).as_str());
    s.append(":(ow-iw)/2:(oh-ih)/2:black");
    s
}

/// The codec arguments shared by the container formats as text.
fn container_codec_args(format: ExportFormat, quality: ExportQuality) -> (r: Vec<String>)
    requires
        !(format is Gif),
    ensures
        spec_views(r@) =~= spec_edit_codec_args(format, quality),
{
    let mut args: Vec<String> = Vec::new();
    match format {
        ExportFormat::Mp4 => {
            args.push("-c:v".to_owned());
            args.push("libx264".to_owned());
            args.push("-preset".to_owned());
            args.push(quality.h264_preset().to_owned());
            args.push("-crf".to_owned());
            args.push(u64_to_dec(quality.crf() as u64));
            args.push("-pix_fmt".to_owned());
            args.push("yuv420p".to_owned());
            args.push("-movflags".to_owned());
            args.push("+faststart".to_owned());
        },
        _ => {
            args.push("-c:v".to_owned());
            args.push("libvpx-vp9".to_owned());
            args.push("-crf".to_owned());
            args.push(u64_to_dec(quality.crf() as u64));
            args.push("-b:v".to_owned());
            args.push("0".to_owned());
        },
    }
    proof {
        assert(spec_views(args@) =~= spec_edit_codec_args(format, quality));
    }
    args
}

/// Build the argument list for the video-only encoder.
#[verifier::rlimit(60)]
pub fn build_video_only_encoder_args(
    options: &ExportOptions,
    source_width: u32,
    source_height: u32,
    fps_num: u32,
    fps_den: u32,
) -> (args: Vec<String>)
    requires
        fps_den > 0,
    ensures
        spec_views(args@) =~= spec_video_only_args(
            *options,
            source_width as int,
            source_height as int,
            fps_num as int,
            fps_den as int,
        ),
{
    let ow: u32 = match options.width {
        Some(w) => w,
        None => source_width,
    };
    let oh: u32 = match options.height {
        Some(h) => h,
        None => source_height,
    };
    let ofps: u32 = match options.fps {
        Some(f) => f,
        None => fps_num / fps_den,
    };
    let mut args = raw_input_args(source_width, source_height, fps_num, fps_den);
    let ghost g_input = spec_views(args@);
    if source_width != ow || source_height != oh {
        args.push("-vf".to_owned());
        args.push(scale_pad_filter(ow, oh));
    }
    let ghost g_scale = spec_views(args@);
    match options.format {
        ExportFormat::Gif => {
            args.push("-vf".to_owned());
            let mut f = String::from_str("fps=");
            f.append(u64_to_dec((if ofps < 15 {
                ofps
            } else {
                15
            }) as u64).as_str());
            f.append(",scale=");
            f.append(u64_to_dec((if ow < 800 {
                ow
            } else {
                800
            }) as u64).as_str());
            f.append(":-1:flags=lanczos,split[s0][s1];[s0]palettegen[p];[s1][p]paletteuse");
            args.push(f);
        },
        _ => {
            let mut codec = container_codec_args(options.format, options.quality);
            args.append(&mut codec);
        },
    }
    args.push(options.output_path.clone());
    proof {
        assert(spec_views(args@) =~= spec_video_only_args(
            *options,
            source_width as int,
            source_height as int,
            fps_num as int,
            fps_den as int,
        ));
    }
    args
}

/// Append the scale filter, codec options, stream maps, audio codec, and
/// output path to an encoder argument list.
#[verifier::rlimit(100)]
fn encoder_args_tail(
    args: &mut Vec<String>,
    options: &ExportOptions,
    source_width: u32,
    source_height: u32,
    ow: u32,
    oh: u32,
    has_mic: bool,
    has_sys: bool,
)
    requires
        !(options.format is Gif),
    ensures
        spec_views(final(args)@) =~= spec_views(old(args)@) + (if source_width != ow
            || source_height != oh {
            seq!["-vf"@, spec_scale_pad_filter(ow as int, oh as int)]
        } else {
            Seq::<Seq<char>>::empty()
        }) + spec_edit_codec_args(options.format, options.quality) + (if has_mic && has_sys {
            seq!["-map"@, "0:v"@, "-map"@, "[aout]"@]
        } else if has_mic || has_sys {
            seq!["-map"@, "0:v"@, "-map"@, "1:a"@]
        } else {
            Seq::<Seq<char>>::empty()
        }) + (if has_mic || has_sys {
            seq!["-c:a"@, "aac"@, "-b:a"@, "192k"@]
        } else {
            Seq::<Seq<char>>::empty()
        }) + seq![options.output_path@],
{
    let ghost g_start = spec_views(args@);
    if source_width != ow || source_height != oh {
        args.push("-vf".to_owned());
        args.push(scale_pad_filter(ow, oh));
    }
    let ghost g_scale = spec_views(args@);
    let mut codec = container_codec_args(options.format, options.quality);
    args.append(&mut codec);
    let ghost g_codec = spec_views(args@);
    let second_map: Option<&str> = if has_mic && has_sys {
        Some("[aout]")
    } else if has_mic || has_sys {
        Some("1:a")
    } else {
        None
    };
    if let Some(m) = second_map {
        args.push("-map".to_owned());
        args.push("0:v".to_owned());
        args.push("-map".to_owned());
        args.push(m.to_owned());
    }
    let ghost g_maps = spec_views(args@);
    if has_mic || has_sys {
        args.push("-c:a".to_owned());
        args.push("aac".to_owned());
        args.push("-b:a".to_owned());
        args.push("192k".to_owned());
    }
    args.push(options.output_path.clone());
    proof {
        assert(g_scale =~= g_start + (if source_width != ow || source_height != oh {
            seq!["-vf"@, spec_scale_pad_filter(ow as int, oh as int)]
        } else {
            Seq::<Seq<char>>::empty()
        }));
        assert(g_codec =~= g_scale + spec_edit_codec_args(options.format, options.quality));
        assert(g_maps =~= g_codec + (if has_mic && has_sys {
            seq!["-map"@, "0:v"@, "-map"@, "[aout]"@]
        } else if has_mic || has_sys {
            seq!["-map"@, "0:v"@, "-map"@, "1:a"@]
        } else {
            Seq::<Seq<char>>::empty()
        }));
        assert(spec_views(args@) =~= g_maps + (if has_mic || has_sys {
            seq!["-c:a"@, "aac"@, "-b:a"@, "192k"@]
        } else {
            Seq::<Seq<char>>::empty()
        }) + seq![options.output_path@]);
    }
}

/// Build the argument list for the encoder with up to two audio file
/// inputs, mixed with equal weight and a longest-wins duration when both
/// are present. The caller passes a path only for a track that is both
/// enabled and on disk. An animated-image request degrades to the
/// video-only encoder.
#[verifier::rlimit(100)]
pub fn build_encoder_args(
    options: &ExportOptions,
    source_width: u32,
    source_height: u32,
    fps_num: u32,
    fps_den: u32,
    mic_path: Option<&str>,
    system_path: Option<&str>,
) -> (args: Vec<String>)
    requires
        fps_den > 0,
    ensures
        options.format is Gif ==> spec_views(args@) =~= spec_video_only_args(
            *options,
            source_width as int,
            source_height as int,
            fps_num as int,
            fps_den as int,
        ),
        !(options.format is Gif) ==> spec_views(args@) =~= spec_with_audio_args(
            *options,
            source_width as int,
            source_height as int,
            fps_num as int,
            fps_den as int,
            spec_str_opt(mic_path),
            spec_str_opt(system_path),
        ),
{
    if let ExportFormat::Gif = options.format {
        return build_video_only_encoder_args(
            options,
            source_width,
            source_height,
            fps_num,
            fps_den,
        );
    }
    let ow: u32 = match options.width {
        Some(w) => w,
        None => source_width,
    };
    let oh: u32 = match options.height {
        Some(h) => h,
        None => source_height,
    };
    let has_mic = mic_path.is_some();
    let has_sys = system_path.is_some();
    let mut args = raw_input_args(source_width, source_height, fps_num, fps_den);
    if let Some(p) = mic_path {
        args.push("-i".to_owned());
        args.push(p.to_owned());
    }
    if let Some(p) = system_path {
        args.push("-i".to_owned());
        args.push(p.to_owned());
    }
    if has_mic && has_sys {
        args.push("-filter_complex".to_owned());
        args.push("[1:a][2:a]amix=inputs=2:duration=longest[aout]".to_owned());
    }
    proof {
        assert(spec_views(args@) =~= spec_raw_input_args(
            source_width as int,
            source_height as int,
            fps_num as int,
            fps_den as int,
        ) + (match spec_str_opt(mic_path) {
            Some(p) => seq!["-i"@, p],
            None => Seq::<Seq<char>>::empty(),
        }) + (match spec_str_opt(system_path) {
            Some(p) => seq!["-i"@, p],
            None => Seq::<Seq<char>>::empty(),
        }) + (if has_mic && has_sys {
            seq!["-filter_complex"@, "[1:a][2:a]amix=inputs=2:duration=longest[aout]"@]
        } else {
            Seq::<Seq<char>>::empty()
        }));
    }
    let ghost g_front = spec_views(args@);
    encoder_args_tail(&mut args, options, source_width, source_height, ow, oh, has_mic, has_sys);
    proof {
        assert(spec_views(args@) =~= spec_with_audio_args(
            *options,
            source_width as int,
            source_height as int,
            fps_num as int,
            fps_den as int,
            spec_str_opt(mic_path),
            spec_str_opt(system_path),
        ));
    }
    args
}

} // verus!

//! Parsing of the codec engine's probe output: the comma-separated
//! stream line (width, height, frame rate, packet count), frame-rate
//! fractions, and the progress counter of an export run.

use vstd::prelude::*;
use crate::types::{ExportError, ExportProgress};

verus! {

/// A decimal digit byte.
pub open spec fn spec_is_digit(b: u8) -> bool {
    48 <= b <= 57
}

/// The value of a digit byte.
pub open spec fn spec_digit_val(b: u8) -> int {
    b - 48
}

/// The value of a digit string, most significant digit first.
pub open spec fn spec_digits_val(s: Seq<u8>) -> int
    decreases s.len(),
{
    if s.len() == 0 {
        0
    } else {
        spec_digits_val(s.drop_last()) * 10 + spec_digit_val(s.last())
    }
}

/// Whether a byte string is a valid unsigned decimal number that fits
/// the given bound: non-empty, all digits, value within the bound.
pub open spec fn spec_is_number(s: Seq<u8>, bound: int) -> bool {
    &&& s.len() > 0
    &&& forall|i: int| 0 <= i < s.len() ==> spec_is_digit(#[trigger] s[i])
    &&& spec_digits_val(s) <= bound
}

/// The fields of a byte string split on a separator, with the first
/// field prefixed by previously seen bytes.
pub open spec fn spec_split_from(acc: Seq<u8>, s: Seq<u8>, sep: u8) -> Seq<Seq<u8>>
    decreases s.len(),
{
    if s.len() == 0 {
        seq![acc]
    } else if s[0] == sep {
        seq![acc] + spec_split_from(Seq::empty(), s.drop_first(), sep)
    } else {
        spec_split_from(acc.push(s[0]), s.drop_first(), sep)
    }
}

/// The fields of a byte string split on a separator. An empty string is
/// one empty field.
pub open spec fn spec_split(s: Seq<u8>, sep: u8) -> Seq<Seq<u8>> {
    spec_split_from(Seq::empty(), s, sep)
}

/// The views of a list of byte vectors.
pub open spec fn spec_byte_views(parts: Seq<Vec<u8>>) -> Seq<Seq<u8>> {
    parts.map_values(|p: Vec<u8>| p@)
}

/// Split a byte string on a separator.
pub fn split_bytes(s: &[u8], sep: u8) -> (r: Vec<Vec<u8>>)
    ensures
        spec_byte_views(r@) =~= spec_split(s@, sep),
{
    let mut fields: Vec<Vec<u8>> = Vec::new();
    let mut cur: Vec<u8> = Vec::new();
    let n = s.len();
    let mut i: usize = 0;
    proof {
        assert(s@.skip(0) =~= s@);
        assert(spec_byte_views(fields@) =~= Seq::<Seq<u8>>::empty());
    }
    while i < n
        invariant
            n == s@.len(),
            i <= n,
            spec_split(s@, sep) =~= spec_byte_views(fields@) + spec_split_from(
                cur@,
                s@.skip(i as int),
                sep,
            ),
        decreases n - i,
    {
        proof {
            assert(s@.skip(i as int)[0] == s@[i as int]);
            assert(s@.skip(i as int).drop_first() =~= s@.skip(i + 1));
        }
        let ghost fields_before = spec_byte_views(fields@);
        let ghost cur_before = cur@;
        if s[i] == sep {
            fields.push(cur);
            cur = Vec::new();
            proof {
                assert(spec_byte_views(fields@) =~= fields_before + seq![cur_before]);
                assert(spec_byte_views(fields@) + spec_split_from(cur@, s@.skip(i + 1), sep) =~= (
                fields_before + (seq![cur_before] + spec_split_from(
                    Seq::empty(),
                    s@.skip(i + 1),
                    sep,
                ))));
            }
        } else {
            cur.push(s[i]);
            proof {
                assert(cur@ =~= cur_before.push(s@[i as int]));
            }
        }
        i = i + 1;
    }
    proof {
        assert(s@.skip(n as int) =~= Seq::<u8>::empty());
    }
    fields.push(cur);
    proof {
        assert(spec_byte_views(fields@) =~= spec_split(s@, sep));
    }
    fields
}

/// The values of longer digit strings only grow.
proof fn lemma_digits_val_take(s: Seq<u8>, j: int)
    requires
        0 <= j <= s.len(),
        forall|i: int| 0 <= i < s.len() ==> spec_is_digit(#[trigger] s[i]),
    ensures
        spec_digits_val(s.take(j)) >= 0,
        spec_digits_val(s) >= spec_digits_val(s.take(j)),
    decreases s.len(),
{
    if s.len() == 0 {
        assert(s.take(j) =~= s);
    } else if j == s.len() {
        assert(s.take(j) =~= s);
        lemma_digits_val_take(s.drop_last(), j - 1);
        assert(s.drop_last().take(j - 1) =~= s.drop_last());
    } else {
        let d = s.drop_last();
        assert(forall|i: int| 0 <= i < d.len() ==> spec_is_digit(#[trigger] d[i]));
        assert(d.take(j) =~= s.take(j));
        lemma_digits_val_take(d, j);
        assert(spec_digits_val(s) == spec_digits_val(d) * 10 + spec_digit_val(s.last()));
        assert(spec_digits_val(d) * 10 >= spec_digits_val(d)) by (nonlinear_arith)
            requires
                spec_digits_val(d) >= 0,
        ;
    }
}

/// Parse an unsigned decimal number. Returns the value exactly when the
/// string is non-empty, all digits, and the value fits.
pub fn parse_u64(s: &[u8]) -> (r: Option<u64>)
    ensures
        r is Some <==> spec_is_number(s@, u64::MAX as int),
        r matches Some(v) ==> v == spec_digits_val(s@),
{
    let n = s.len();
    if n == 0 {
        return None;
    }
    let mut val: u64 = 0;
    let mut i: usize = 0;
    while i < n
        invariant
            n == s@.len(),
            i <= n,
            forall|j: int| 0 <= j < i ==> spec_is_digit(#[trigger] s@[j]),
            val == spec_digits_val(s@.take(i as int)),
        decreases n - i,
    {
        let b = s[i];
        if b < 48 || b > 57 {
            return None;
        }
        let d = (b - 48) as u64;
        proof {
            assert(s@.take(i + 1).drop_last() =~= s@.take(i as int));
            assert(s@.take(i + 1).last() == s@[i as int]);
        }
        if val > (u64::MAX - d) / 10 {
            proof {
                assert(spec_digits_val(s@.take(i + 1)) > u64::MAX as int);
                if forall|j: int| 0 <= j < s@.len() ==> spec_is_digit(#[trigger] s@[j]) {
                    lemma_digits_val_take(s@, i + 1);
                    assert(spec_digits_val(s@) >= spec_digits_val(s@.take(i + 1)));
                }
            }
            return None;
        }
        val = val * 10 + d;
        i = i + 1;
    }
    proof {
        assert(s@.take(n as int) =~= s@);
    }
    Some(val)
}

/// Parse an unsigned decimal number that must fit 32 bits.
pub fn parse_u32(s: &[u8]) -> (r: Option<u32>)
    ensures
        r is Some <==> spec_is_number(s@, u32::MAX as int),
        r matches Some(v) ==> v == spec_digits_val(s@),
{
    proof {
        if spec_is_number(s@, u32::MAX as int) {
            lemma_digits_val_take(s@, s@.len() as int);
        }
    }
    match parse_u64(s) {
        Some(v) => if v <= u32::MAX as u64 {
            Some(v as u32)
        } else {
            None
        },
        None => None,
    }
}

/// The frame rate a probe field denotes, as an exact fraction. A
/// `num/den` form gives the two parts, an unparsable part falling back
/// to 30 (numerator) or 1 (denominator), and a zero denominator falls
/// back to 1. A plain number is taken over 1; anything else is taken as
/// the conventional 30.
pub open spec fn spec_fps_fraction(s: Seq<u8>) -> (int, int) {
    let parts = spec_split(s, 47);
    if parts.len() == 2 {
        let num = if spec_is_number(parts[0], u32::MAX as int) {
            spec_digits_val(parts[0])
        } else {
            30
        };
        let den = if spec_is_number(parts[1], u32::MAX as int) && spec_digits_val(parts[1]) > 0 {
            spec_digits_val(parts[1])
        } else {
            1
        };
        (num, den)
    } else {
        let num = if spec_is_number(s, u32::MAX as int) {
            spec_digits_val(s)
        } else {
            30
        };
        (num, 1)
    }
}

/// Parse a frame-rate field such as `30/1` or `30000/1001`.
pub fn parse_fps_fraction(s: &[u8]) -> (r: (u32, u32))
    ensures
        r.0 as int == spec_fps_fraction(s@).0,
        r.1 as int == spec_fps_fraction(s@).1,
        r.1 > 0,
{
    let parts = split_bytes(s, 47);
    if parts.len() == 2 {
        let num = match parse_u32(parts[0].as_slice()) {
            Some(v) => v,
            None => 30,
        };
        let den = match parse_u32(parts[1].as_slice()) {
            Some(v) => if v > 0 {
                v
            } else {
                1
            },
            None => 1,
        };
        (num, den)
    } else {
        let num = match parse_u32(s) {
            Some(v) => v,
            None => 30,
        };
        (num, 1)
    }
}

/// Source stream facts probed before decoding.
#[derive(Clone, Copy, Debug, PartialEq, Eq, Structural)]
pub struct VideoProbe {
    /// Stream width in pixels.
    pub width: u32,
    /// Stream height in pixels.
    pub height: u32,
    /// Frame rate numerator.
    pub fps_num: u32,
    /// Frame rate denominator.
    pub fps_den: u32,
    /// Total frame count, from the packet count.
    pub total_frames: u64,
}

/// Parse the probe's comma-separated stream line: width, height, frame
/// rate, packet count. A malformed width or height is an error; a
/// malformed frame rate falls back to 30, a malformed packet count to 0.
pub fn parse_probe_output(line: &[u8]) -> (r: Result<VideoProbe, ExportError>)
    ensures
        r is Ok <==> spec_split(line@, 44).len() >= 4 && spec_is_number(
            spec_split(line@, 44)[0],
            u32::MAX as int,
        ) && spec_is_number(spec_split(line@, 44)[1], u32::MAX as int),
        r matches Ok(p) ==> {
            let parts = spec_split(line@, 44);
            &&& p.width == spec_digits_val(parts[0])
            &&& p.height == spec_digits_val(parts[1])
            &&& p.fps_num as int == spec_fps_fraction(parts[2]).0
            &&& p.fps_den as int == spec_fps_fraction(parts[2]).1
            &&& p.fps_den > 0
            &&& p.total_frames as int == (if spec_is_number(parts[3], u64::MAX as int) {
                spec_digits_val(parts[3])
            } else {
                0
            })
        },
        r matches Err(e) ==> e is Ffmpeg,
{
    let parts = split_bytes(line, 44);
    if parts.len() < 4 {
        return Err(ExportError::Ffmpeg("unexpected probe output".to_owned()));
    }
    let width = match parse_u32(parts[0].as_slice()) {
        Some(v) => v,
        None => {
            return Err(ExportError::Ffmpeg("invalid width".to_owned()));
        },
    };
    let height = match parse_u32(parts[1].as_slice()) {
        Some(v) => v,
        None => {
            return Err(ExportError::Ffmpeg("invalid height".to_owned()));
        },
    };
    let (fps_num, fps_den) = parse_fps_fraction(parts[2].as_slice());
    let total_frames = match parse_u64(parts[3].as_slice()) {
        Some(v) => v,
        None => 0,
    };
    Ok(VideoProbe { width, height, fps_num, fps_den, total_frames })
}

/// Translate one progress counter of the driving subprocess into a
/// progress report: the microseconds of output written so far, against
/// the total expected output duration in milliseconds. Returns nothing
/// when the counter is not a number.
pub fn progress_from_out_time(us_text: &[u8], total_output_ms: u64) -> (r: Option<ExportProgress>)
    ensures
        r is Some <==> spec_is_number(us_text@, u64::MAX as int),
        r matches Some(p) ==> {
            &&& p.stage is Encoding
            &&& p.current_frame == spec_digits_val(us_text@) / 1000
            &&& p.total_frames == total_output_ms
        },
{
    match parse_u64(us_text) {
        Some(us) => Some(ExportProgress::encoding(us / 1000, total_output_ms)),
        None => None,
    }
}

} // verus!

//! Waveform peak extraction: the maximum absolute amplitude of raw
//! 16-bit little-endian mono samples in each time bucket.

use vstd::prelude::*;

verus! {

/// The signed 16-bit sample starting at byte `2 * i`, little endian.
pub open spec fn spec_sample(raw: Seq<u8>, i: int) -> int {
    let v = (raw[2 * i + 1] as int) * 256 + (raw[2 * i] as int);
    if v >= 32768 {
        v - 65536
    } else {
        v
    }
}

/// The absolute amplitude of sample `i`.
pub open spec fn spec_abs_sample(raw: Seq<u8>, i: int) -> int {
    let v = spec_sample(raw, i);
    if v < 0 {
        -v
    } else {
        v
    }
}

/// The largest absolute amplitude among samples `start .. end`.
pub open spec fn spec_chunk_peak(raw: Seq<u8>, start: int, end: int) -> int
    decreases end - start,
{
    if start >= end {
        0
    } else {
        let prev = spec_chunk_peak(raw, start, end - 1);
        let last = spec_abs_sample(raw, end - 1);
        if last > prev {
            last
        } else {
            prev
        }
    }
}

/// The peak of bucket `i` for a bucket size of `spp` samples: the
/// largest absolute amplitude in the bucket, or 0 past the last sample.
pub open spec fn spec_peak_at(raw: Seq<u8>, spp: int, i: int) -> int {
    let n_samples = raw.len() as int / 2;
    let start = i * spp;
    let end = if (i + 1) * spp <= n_samples {
        (i + 1) * spp
    } else {
        n_samples
    };
    if start < n_samples {
        spec_chunk_peak(raw, start, end)
    } else {
        0
    }
}

/// Compute the peak amplitude of each time bucket from raw 16-bit
/// signed little-endian mono samples: the maximum absolute sample value
/// per bucket of `source_sample_rate / target_samples_per_second`
/// samples, padded with zeros (or truncated) to exactly `total_peaks`
/// entries. A trailing half sample is ignored. Amplitudes range up to
/// 32768; dividing by 32767 gives the conventional unit scale.
pub fn compute_peaks(
    raw_samples: &[u8],
    source_sample_rate: u32,
    target_samples_per_second: u32,
    total_peaks: usize,
) -> (r: Vec<u16>)
    requires
        0 < target_samples_per_second <= source_sample_rate,
        raw_samples@.len() < 0x1000000000000000,
    ensures
        r@.len() == total_peaks,
        forall|i: int|
            0 <= i < total_peaks ==> r@[i] as int == spec_peak_at(
                raw_samples@,
                (source_sample_rate / target_samples_per_second) as int,
                i,
            ),
{
    proof {
        vstd::arithmetic::div_mod::lemma_div_non_zero(
            source_sample_rate as int,
            target_samples_per_second as int,
        );
    }
    let spp: usize = (source_sample_rate / target_samples_per_second) as usize;
    let total_len: usize = raw_samples.len();
    proof {
        assert(raw_samples@.len() == total_len);
    }
    let n_samples: usize = total_len / 2;
    let mut peaks: Vec<u16> = Vec::new();
    let mut c: usize = 0;
    while c < total_peaks
        invariant
            0 < spp,
            spp == source_sample_rate as int / target_samples_per_second as int,
            n_samples == raw_samples@.len() as int / 2,
            raw_samples@.len() < 0x1000000000000000,
            raw_samples@.len() <= usize::MAX,
            c <= total_peaks,
            peaks@.len() == c,
            forall|i: int|
                0 <= i < c ==> peaks@[i] as int == spec_peak_at(raw_samples@, spp as int, i),
        decreases total_peaks - c,
    {
        proof {
            vstd::arithmetic::div_mod::lemma_fundamental_div_mod(n_samples as int, spp as int);
            vstd::arithmetic::div_mod::lemma_mod_bound(n_samples as int, spp as int);
            assert((n_samples as int / spp as int) * (spp as int) <= n_samples);
            if c <= n_samples / spp {
                assert(c * spp <= (n_samples as int / spp as int) * (spp as int))
                    by (nonlinear_arith)
                    requires
                        0 <= c <= n_samples as int / spp as int,
                        spp >= 1,
                ;
            } else {
                assert(c * spp >= (n_samples as int / spp as int + 1) * (spp as int))
                    by (nonlinear_arith)
                    requires
                        c >= n_samples as int / spp as int + 1,
                        spp >= 1,
                ;
                assert((n_samples as int / spp as int + 1) * (spp as int) == (n_samples as int
                    / spp as int) * (spp as int) + spp) by (nonlinear_arith);
            }
        }
        let start: usize = if c <= n_samples / spp {
            c * spp
        } else {
            n_samples
        };
        let mut peak: u16 = 0;
        if start < n_samples {
            let end: usize = if n_samples - start > spp {
                start + spp
            } else {
                n_samples
            };
            proof {
                vstd::arithmetic::div_mod::lemma_fundamental_div_mod(
                    raw_samples@.len() as int,
                    2,
                );
                vstd::arithmetic::div_mod::lemma_mod_bound(raw_samples@.len() as int, 2);
                assert(2 * (n_samples as int) <= raw_samples@.len());
                assert((c + 1) * spp == c * spp + spp) by (nonlinear_arith);
                assert(c <= n_samples as int / spp as int ==> c * spp <= n_samples)
                    by (nonlinear_arith)
                    requires
                        spp >= 1,
                        c >= 0,
                        n_samples >= 0,
                ;
            }
            let mut j: usize = start;
            while j < end
                invariant
                    start <= j <= end,
                    end <= n_samples,
                    n_samples == raw_samples@.len() as int / 2,
                    raw_samples@.len() < 0x1000000000000000,
                    raw_samples@.len() <= usize::MAX,
                    2 * (n_samples as int) <= raw_samples@.len(),
                    peak as int == spec_chunk_peak(raw_samples@, start as int, j as int),
                decreases end - j,
            {
                proof {
                    assert(2 * (j as int) + 1 < raw_samples@.len()) by {
                        assert(n_samples == raw_samples@.len() as int / 2);
                        vstd::arithmetic::div_mod::lemma_fundamental_div_mod(
                            raw_samples@.len() as int,
                            2,
                        );
                        vstd::arithmetic::div_mod::lemma_mod_bound(raw_samples@.len() as int, 2);
                    }
                }
                let lo = raw_samples[2 * j];
                let hi = raw_samples[2 * j + 1];
                let v: u32 = (hi as u32) * 256 + (lo as u32);
                let amp: u16 = if v >= 32768 {
                    (65536 - v) as u16
                } else {
                    v as u16
                };
                if amp > peak {
                    peak = amp;
                }
                j = j + 1;
            }
        }
        peaks.push(peak);
        proof {
            assert(peaks@.len() == c + 1);
            assert(peaks@[c as int] as int == spec_peak_at(raw_samples@, spp as int, c as int));
        }
        c = c + 1;
    }
    peaks
}

} // verus!

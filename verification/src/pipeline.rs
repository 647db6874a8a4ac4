//! The frame-accurate export engine: per decoded frame, overlay the
//! webcam thumbnail and the smoothed cursor, in strict frame order, with
//! cancellation polled at the top of each iteration.

use vstd::prelude::*;
use vstd::string::StringExecFns;
use crate::compose::{
    draw_cursor, draw_webcam_overlay, find_cursor_at_time, lemma_area_bound,
    lemma_cursor_index_in_range, mul_div_u32, spec_cursor_blend_target, spec_cursor_blent_byte,
    spec_cursor_index, spec_overlay_byte, spec_overlay_covers, spec_overlay_height,
    spec_overlay_width, spec_timeline_sorted, CursorSample, CursorSprite,
};
use crate::numfmt::u64_to_dec;
use crate::types::ExportError;

verus! {

/// The state the engine carries across frames: the source geometry, the
/// overlay inputs, and the monotonically increasing frame index.
pub struct FramePipeline {
    /// Source frame width in pixels.
    pub width: u32,
    /// Source frame height in pixels.
    pub height: u32,
    /// Source frame rate numerator.
    pub fps_num: u32,
    /// Source frame rate denominator.
    pub fps_den: u32,
    /// Whether the cursor overlay is enabled.
    pub include_cursor: bool,
    /// The smoothed cursor timeline, sorted by time.
    pub timeline: Vec<CursorSample>,
    /// The loaded cursor sprites, indexed by the samples.
    pub sprites: Vec<CursorSprite>,
    /// Pixels between the webcam thumbnail and the frame edges.
    pub webcam_margin: u32,
    /// Index of the next frame to process.
    pub frame_index: u64,
    /// How many webcam frames were drawn (diagnostic only).
    pub webcam_frames_drawn: u64,
    /// How many primary frames had no webcam frame (diagnostic only).
    pub webcam_frames_missed: u64,
}

impl FramePipeline {
    /// The engine invariant.
    pub open spec fn well_formed(self) -> bool {
        &&& 0 < self.width <= 0x4000
        &&& 0 < self.height <= 0x4000
        &&& self.fps_num > 0
        &&& self.fps_den > 0
        &&& self.webcam_margin <= 0x4000
        &&& spec_timeline_sorted(self.timeline@)
        &&& forall|i: int|
            0 <= i < self.timeline@.len() ==> (#[trigger] self.timeline@[i]).well_formed()
        &&& forall|i: int| 0 <= i < self.sprites@.len() ==> (#[trigger] self.sprites@[i]).well_formed()
    }

    /// The byte count of one raw RGBA frame.
    pub open spec fn spec_frame_size(self) -> int {
        self.width * self.height * 4
    }

    /// The source timestamp of a frame, in milliseconds: the frame index
    /// divided by the frame rate, saturated to the machine limit.
    pub open spec fn spec_frame_time_ms(self, idx: int) -> int {
        let t = idx * 1000 * self.fps_den / (self.fps_num as int);
        if t <= u64::MAX as int {
            t
        } else {
            u64::MAX as int
        }
    }

    /// Whether the webcam thumbnail fits into the frame with its margin.
    pub open spec fn spec_webcam_fits(self, ww: int, wh: int) -> bool {
        &&& spec_overlay_width(self.width as int) + self.webcam_margin <= self.width
        &&& spec_overlay_height(self.width as int, ww, wh) + self.webcam_margin <= self.height
    }

    /// The frame after the webcam pass: the thumbnail copied into the
    /// bottom-right corner where a webcam frame is present and fits,
    /// otherwise the frame unchanged (missing webcam frames are not
    /// buffered or duplicated).
    pub open spec fn spec_after_webcam(
        self,
        frame: Seq<u8>,
        webcam: Option<Seq<u8>>,
        ww: int,
        wh: int,
    ) -> Seq<u8> {
        match webcam {
            Some(wf) => if self.spec_webcam_fits(ww, wh) {
                Seq::new(
                    frame.len(),
                    |k: int|
                        if spec_overlay_covers(
                            k,
                            self.width as int,
                            self.height as int,
                            ww,
                            wh,
                            self.webcam_margin as int,
                        ) {
                            spec_overlay_byte(
                                wf,
                                k,
                                self.width as int,
                                self.height as int,
                                ww,
                                wh,
                                self.webcam_margin as int,
                            ) as u8
                        } else {
                            frame[k]
                        },
                )
            } else {
                frame
            },
            None => frame,
        }
    }

    /// The frame after the cursor pass: the sample nearest at or before
    /// the frame's timestamp is looked up in the timeline, its sprite is
    /// alpha-blended at the sample position offset by the sprite hotspot,
    /// and a sample whose sprite is not loaded is skipped silently.
    pub open spec fn spec_after_cursor(self, frame: Seq<u8>, idx: int) -> Seq<u8> {
        if self.include_cursor && self.timeline@.len() > 0 {
            let t = self.spec_frame_time_ms(idx);
            let sample = self.timeline@[spec_cursor_index(self.timeline@, t as u64)];
            if sample.sprite_index < self.sprites@.len() {
                let sprite = self.sprites@[sample.sprite_index as int];
                let px = sample.x - sprite.hotspot_x;
                let py = sample.y - sprite.hotspot_y;
                Seq::new(
                    frame.len(),
                    |k: int|
                        if spec_cursor_blend_target(k, self.width as int, px, py, sprite) {
                            spec_cursor_blent_byte(
                                frame,
                                k,
                                self.width as int,
                                px,
                                py,
                                sprite,
                            ) as u8
                        } else {
                            frame[k]
                        },
                )
            } else {
                frame
            }
        } else {
            frame
        }
    }

    /// The fully composited frame: the webcam pass, then the cursor pass
    /// on its result (the cursor appears on top).
    pub open spec fn spec_composited(
        self,
        frame: Seq<u8>,
        webcam: Option<Seq<u8>>,
        ww: int,
        wh: int,
    ) -> Seq<u8> {
        self.spec_after_cursor(
            self.spec_after_webcam(frame, webcam, ww, wh),
            self.frame_index as int,
        )
    }

    /// Create the engine state for one export run.
    pub fn new(
        width: u32,
        height: u32,
        fps_num: u32,
        fps_den: u32,
        include_cursor: bool,
        timeline: Vec<CursorSample>,
        sprites: Vec<CursorSprite>,
        webcam_margin: u32,
    ) -> (r: FramePipeline)
        requires
            0 < width <= 0x4000,
            0 < height <= 0x4000,
            fps_num > 0,
            fps_den > 0,
            webcam_margin <= 0x4000,
            spec_timeline_sorted(timeline@),
            forall|i: int| 0 <= i < timeline@.len() ==> (#[trigger] timeline@[i]).well_formed(),
            forall|i: int| 0 <= i < sprites@.len() ==> (#[trigger] sprites@[i]).well_formed(),
        ensures
            r.well_formed(),
            r.frame_index == 0,
            r.width == width && r.height == height,
            r.fps_num == fps_num && r.fps_den == fps_den,
            r.include_cursor == include_cursor,
            r.timeline == timeline,
            r.sprites == sprites,
            r.webcam_margin == webcam_margin,
    {
        FramePipeline {
            width,
            height,
            fps_num,
            fps_den,
            include_cursor,
            timeline,
            sprites,
            webcam_margin,
            frame_index: 0,
            webcam_frames_drawn: 0,
            webcam_frames_missed: 0,
        }
    }

    /// The source timestamp of the next frame, in milliseconds.
    fn frame_time_ms(&self) -> (r: u64)
        requires
            self.well_formed(),
        ensures
            r == self.spec_frame_time_ms(self.frame_index as int),
    {
    proof {
            let a = self.frame_index as int;
            let d = self.fps_den as int;
            assert(a * 1000 * d <= 0xffffffffffffffffint * 1000 * 0xffffffffint)
                by (nonlinear_arith)
                requires
                    0 <= a <= 0xffffffffffffffffint,
                    0 <= d <= 0xffffffffint,
            ;
        }
        let wide: u128 = (self.frame_index as u128) * 1000 * (self.fps_den as u128) / (
        self.fps_num as u128);
        if wide <= u64::MAX as u128 {
            wide as u64
        } else {
            u64::MAX
        }
    }

    /// Process one decoded frame, in place.
    ///
    /// Polled cancellation comes first: a set flag ends the run with
    /// `Cancelled` before the frame is touched, so no further frame is
    /// composited or handed to the encoder. The first frame's byte length
    /// is validated against the probed dimensions; a mismatch is a fatal
    /// decoding error and nothing reaches the encoder. Otherwise the
    /// frame is composited in place, the frame index advances, and the
    /// result says whether a progress report is due (every tenth frame).
    #[verifier::rlimit(80)]
    pub fn process_frame(
        &mut self,
        cancelled: bool,
        frame: &mut Vec<u8>,
        webcam_frame: Option<&Vec<u8>>,
        webcam_width: u32,
        webcam_height: u32,
    ) -> (r: Result<bool, ExportError>)
        requires
            old(self).well_formed(),
            old(self).frame_index < u64::MAX,
            webcam_frame matches Some(wf) ==> 0 < webcam_width <= 0x4000 && 0 < webcam_height
                <= 0x4000 && wf@.len() == webcam_width * webcam_height * 4,
        ensures
            final(self).well_formed(),
            cancelled ==> (r matches Err(e) && e is Cancelled && *final(self) == *old(self)
                && final(frame)@ == old(frame)@),
            !cancelled && old(frame)@.len() != old(self).spec_frame_size() ==> (r matches Err(e)
                && e is Decoding && *final(self) == *old(self) && final(frame)@ == old(frame)@),
            !cancelled && old(frame)@.len() == old(self).spec_frame_size() ==> {
                &&& r matches Ok(report) && report == ((old(self).frame_index + 1) % 10 == 0)
                &&& final(frame)@ == old(self).spec_composited(
                    old(frame)@,
                    match webcam_frame {
                        Some(wf) => Some(wf@),
                        None => None,
                    },
                    webcam_width as int,
                    webcam_height as int,
                )
                &&& final(self).frame_index == old(self).frame_index + 1
                &&& final(self).width == old(self).width && final(self).height == old(self).height
                &&& final(self).fps_num == old(self).fps_num && final(self).fps_den == old(
                    self,
                ).fps_den
                &&& final(self).include_cursor == old(self).include_cursor
                &&& final(self).timeline == old(self).timeline
                &&& final(self).sprites == old(self).sprites
                &&& final(self).webcam_margin == old(self).webcam_margin
            },
    {
        if cancelled {
            return Err(ExportError::Cancelled);
        }
        proof {
            lemma_area_bound(self.width as int, self.height as int);
        }
        let expected: usize = (self.width as usize) * (self.height as usize) * 4;
        if frame.len() != expected {
            let mut msg = String::from_str("frame size mismatch: got ");
            msg.append(u64_to_dec(frame.len() as u64).as_str());
            msg.append(" bytes, expected ");
            msg.append(u64_to_dec(expected as u64).as_str());
            return Err(ExportError::Decoding(msg));
        }
        let ghost after_input = frame@;

        // Webcam overlay first, so the cursor is drawn on top of it.
        if let Some(wf) = webcam_frame {
            let scaled_width = (self.width + 4) / 8;
            let scaled_height_wide: u64 = mul_div_u32(scaled_width, webcam_height, webcam_width);
            proof {
                assert((scaled_width as int) * (webcam_height as int) <= 0x4000 * 0x4000)
                    by (nonlinear_arith)
                    requires
                        0 <= scaled_width as int,
                        scaled_width as int <= 0x4000,
                        0 <= webcam_height as int,
                        webcam_height as int <= 0x4000,
                ;
                assert(scaled_height_wide as int <= (scaled_width as int) * (webcam_height as int))
                    by (nonlinear_arith)
                    requires
                        scaled_height_wide as int == (scaled_width as int) * (
                        webcam_height as int) / (webcam_width as int),
                        webcam_width >= 1,
                        (scaled_width as int) * (webcam_height as int) >= 0,
                ;
            }
            let scaled_height = scaled_height_wide as u32;
            if scaled_width + self.webcam_margin <= self.width && scaled_height
                + self.webcam_margin <= self.height {
                draw_webcam_overlay(
                    frame,
                    self.width,
                    self.height,
                    wf,
                    webcam_width,
                    webcam_height,
                    self.webcam_margin,
                );
                proof {
                    assert(frame@ =~= self.spec_after_webcam(
                        after_input,
                        Some(wf@),
                        webcam_width as int,
                        webcam_height as int,
                    ));
                }
            }
            if self.webcam_frames_drawn < u64::MAX {
                self.webcam_frames_drawn = self.webcam_frames_drawn + 1;
            }
        } else {
            if self.webcam_frames_missed < u64::MAX {
                self.webcam_frames_missed = self.webcam_frames_missed + 1;
            }
        }
        proof {
            assert(frame@ =~= self.spec_after_webcam(
                after_input,
                match webcam_frame {
                    Some(wf) => Some(wf@),
                    None => None,
                },
                webcam_width as int,
                webcam_height as int,
            ));
        }
        let ghost after_webcam = frame@;

        // Cursor overlay.
        if self.include_cursor && self.timeline.len() > 0 {
            let t = self.frame_time_ms();
            if let Some(idx) = find_cursor_at_time(&self.timeline, t) {
                proof {
                    lemma_cursor_index_in_range(self.timeline@, t);
                }
                let sample = &self.timeline[idx];
                if sample.sprite_index < self.sprites.len() {
                    let sprite_index = sample.sprite_index;
                    let origin_x = sample.x - self.sprites[sprite_index].hotspot_x;
                    let origin_y = sample.y - self.sprites[sprite_index].hotspot_y;
                    draw_cursor(
                        frame,
                        self.width,
                        self.height,
                        origin_x,
                        origin_y,
                        &self.sprites[sprite_index],
                    );
                }
            }
        }
        proof {
            assert(frame@ =~= self.spec_after_cursor(after_webcam, self.frame_index as int));
        }
        self.frame_index = self.frame_index + 1;
        Ok(self.frame_index % 10 == 0)
    }
}

} // verus!

//! Frame capture and timed playback.
//!
//! An [`Animator`] keeps the frames that a script captured, in their order,
//! and plays them: each frame is shown for its own duration, and at the end
//! playback starts over or holds on the last frame. Time is counted in
//! milliseconds on a clock that never runs backwards.

use crate::buffer::{Buffer, CanvasView};
use crate::clock::Clock;
use crate::error::ScriptError;
use crate::monitor::{MonitorGlobals, MonitorSettings};
use vstd::prelude::*;

verus! {

/// The duration, in milliseconds, of a frame that was given none.
pub const DEFAULT_SPEED: u32 = 100;

/// The most frames that one animation holds.
pub const MAX_FRAMES: usize = 4096;

/// A captured frame as contracts see it.
pub struct FrameView {
    pub buffer: CanvasView,
    pub settings: MonitorSettings,
    pub duration: u32,
}

/// An animator as contracts see it.
pub struct AnimatorView {
    pub frames: Seq<FrameView>,
    pub current_monitor_settings: MonitorSettings,
    pub cur_frame: usize,
    pub is_loop: bool,
    pub is_playing: bool,
    pub speed: u32,
    pub instant: u128,
}

impl AnimatorView {
    /// No frame, nothing playing, the default duration, time zero.
    pub open spec fn initial() -> AnimatorView {
        AnimatorView {
            frames: Seq::empty(),
            current_monitor_settings: MonitorSettings::initial(),
            cur_frame: 0,
            is_loop: false,
            is_playing: false,
            speed: DEFAULT_SPEED,
            instant: 0,
        }
    }

    /// What every animator keeps: no more frames than the limit, and a
    /// current frame that exists, or is 0 while there is none.
    pub open spec fn wf(self) -> bool {
        &&& self.frames.len() <= MAX_FRAMES
        &&& (self.cur_frame == 0 || self.cur_frame < self.frames.len())
    }

    /// True when the animation has room for one more frame.
    pub open spec fn has_room(self) -> bool {
        self.frames.len() < MAX_FRAMES
    }

    /// The animator after `canvas` was captured: a copy of it stands at the
    /// end of the frames, with the current monitor settings and the active
    /// duration.
    pub open spec fn captured(self, canvas: CanvasView) -> AnimatorView {
        AnimatorView {
            frames: self.frames.push(
                FrameView {
                    buffer: canvas.snapshot(),
                    settings: self.current_monitor_settings,
                    duration: self.speed,
                },
            ),
            ..self
        }
    }

    /// The index of the last frame; 0 while there is none.
    pub open spec fn last_index(self) -> usize {
        if self.frames.len() == 0 {
            0
        } else {
            (self.frames.len() - 1) as usize
        }
    }

    /// The animator one frame further. Behind the last frame a looping
    /// animator starts over at frame 0 with the default duration; any other
    /// holds on the last frame and stops playing. A frame that is stepped
    /// onto brings its duration.
    pub open spec fn advanced(self) -> AnimatorView {
        if self.cur_frame + 1 >= self.frames.len() {
            if self.is_loop {
                AnimatorView { speed: DEFAULT_SPEED, cur_frame: 0, ..self }
            } else {
                AnimatorView { cur_frame: self.last_index(), is_playing: false, ..self }
            }
        } else {
            AnimatorView {
                cur_frame: (self.cur_frame + 1) as usize,
                speed: self.frames[self.cur_frame + 1].duration,
                ..self
            }
        }
    }

    /// True when, at time `now`, the animator is playing and the current
    /// frame has been shown for more than the active duration.
    pub open spec fn is_due(self, now: u128) -> bool {
        self.is_playing && now - self.instant > self.speed
    }

    /// The picture that the frame `index` gives to show: a copy of its
    /// canvas marked as a terminal buffer. None where there is no such frame.
    pub open spec fn picture(self, index: usize) -> Option<CanvasView> {
        if index < self.frames.len() {
            Some(CanvasView { is_terminal_buffer: true, ..self.frames[index as int].buffer.snapshot() })
        } else {
            None
        }
    }

    /// The monitor settings that go with frame `index`: its own, or the
    /// default ones where there is no such frame.
    pub open spec fn settings_of(self, index: usize) -> MonitorSettings {
        if index < self.frames.len() {
            self.frames[index as int].settings
        } else {
            MonitorSettings::initial()
        }
    }

    /// The monitor settings that a tick hands out: the current ones, and the
    /// default ones as long as the animator holds no frame.
    pub open spec fn shown_settings(self) -> MonitorSettings {
        if self.frames.len() == 0 {
            MonitorSettings::initial()
        } else {
            self.current_monitor_settings
        }
    }

    /// The animator after a tick at time `now`: one frame further, timed
    /// from `now` and with the settings of the frame it came to, if it was
    /// due; as before if not.
    pub open spec fn updated(self, now: u128) -> AnimatorView {
        if self.is_due(now) {
            AnimatorView {
                instant: now,
                current_monitor_settings: self.advanced().settings_of(self.advanced().cur_frame),
                ..self.advanced()
            }
        } else {
            self
        }
    }

    /// The animator after playback was started at time `now`.
    pub open spec fn started(self, now: u128) -> AnimatorView {
        AnimatorView { is_playing: true, instant: now, cur_frame: 0, ..self }
    }

    /// The animator after a tick at each of `times`, in their order.
    pub open spec fn ticked(self, times: Seq<u128>) -> AnimatorView
        decreases times.len(),
    {
        if times.len() == 0 {
            self
        } else {
            self.updated(times[0]).ticked(times.drop_first())
        }
    }

    /// True when each of `times` comes later than the active duration after
    /// the time from which the animator counts when that tick arrives.
    pub open spec fn spaced(self, times: Seq<u128>) -> bool
        decreases times.len(),
    {
        times.len() == 0 || (times[0] - self.instant > self.speed && self.updated(times[0]).spaced(
            times.drop_first(),
        ))
    }
}

/// An animator that does not play stays as it is, whatever time passes.
pub proof fn lemma_paused_stays(animator: AnimatorView, times: Seq<u128>)
    requires
        !animator.is_playing,
    ensures
        animator.ticked(times) == animator,
    decreases times.len(),
{
    if times.len() > 0 {
        lemma_paused_stays(animator, times.drop_first());
    }
}

/// A tick that comes too early changes nothing.
pub proof fn lemma_early_tick(animator: AnimatorView, now: u128)
    requires
        now - animator.instant <= animator.speed,
    ensures
        animator.updated(now) == animator,
{
}

/// A tick that is due moves by exactly one frame, however late it comes:
/// onto the next frame if there is one, and else to frame 0 or not at all.
pub proof fn lemma_tick_is_one_step(animator: AnimatorView, now: u128)
    requires
        animator.wf(),
        animator.is_due(now),
    ensures
        animator.updated(now).wf(),
        animator.updated(now).frames == animator.frames,
        animator.cur_frame + 1 < animator.frames.len() ==> animator.updated(now).cur_frame
            == animator.cur_frame + 1 && animator.updated(now).is_playing && animator.updated(
            now,
        ).speed == animator.frames[animator.cur_frame + 1].duration,
        animator.cur_frame + 1 >= animator.frames.len() && animator.is_loop ==> animator.updated(
            now,
        ).cur_frame == 0 && animator.updated(now).is_playing,
        animator.cur_frame + 1 >= animator.frames.len() && !animator.is_loop ==> animator.updated(
            now,
        ).cur_frame == animator.cur_frame && !animator.updated(now).is_playing,
{
}

/// Without looping, ticks that are spaced beyond each frame's duration run
/// through the frames one by one, from the current frame to the last, where
/// playback stops and stays: after `times.len()` ticks the current frame is
/// that many further, or the last, and the animator plays as long as no tick
/// came on the last frame.
pub proof fn lemma_plays_to_the_end(animator: AnimatorView, times: Seq<u128>)
    requires
        animator.wf(),
        !animator.is_loop,
        animator.is_playing,
        animator.cur_frame < animator.frames.len(),
        animator.spaced(times),
    ensures
        animator.ticked(times).frames == animator.frames,
        animator.cur_frame + times.len() < animator.frames.len() ==> animator.ticked(times).cur_frame
            == animator.cur_frame + times.len() && animator.ticked(times).is_playing,
        animator.cur_frame + times.len() >= animator.frames.len() ==> animator.ticked(
            times,
        ).cur_frame == animator.frames.len() - 1 && !animator.ticked(times).is_playing,
    decreases times.len(),
{
    if times.len() > 0 {
        let next = animator.updated(times[0]);
        let rest = times.drop_first();
        lemma_tick_is_one_step(animator, times[0]);
        if next.is_playing {
            lemma_plays_to_the_end(next, rest);
        } else {
            lemma_paused_stays(next, rest);
        }
    }
}

/// With looping, a due tick on the last frame leads to frame 0, and the
/// animator goes on playing.
pub proof fn lemma_loop_wraps(animator: AnimatorView, now: u128)
    requires
        animator.wf(),
        animator.is_loop,
        animator.frames.len() > 0,
        animator.cur_frame == animator.frames.len() - 1,
        animator.is_due(now),
    ensures
        animator.updated(now).cur_frame == 0,
        animator.updated(now).is_playing,
        animator.updated(now).is_loop,
{
}

/// Room for a frame is room for a capture; a full animator takes no more.
pub proof fn lemma_capture_keeps_the_limit(animator: AnimatorView, canvas: CanvasView)
    requires
        animator.wf(),
        animator.has_room(),
    ensures
        animator.captured(canvas).wf(),
        animator.captured(canvas).frames.len() == animator.frames.len() + 1,
        animator.captured(canvas).frames.len() == MAX_FRAMES ==> !animator.captured(
            canvas,
        ).has_room(),
{
}

/// The frames of an animation and the state of their playback.
pub struct Animator {
    frames: Vec<(Buffer, MonitorSettings, u32)>,
    current_monitor_settings: MonitorSettings,
    cur_frame: usize,
    is_loop: bool,
    is_playing: bool,
    speed: u32,
    instant: u128,
    clock: Clock,
}

impl View for Animator {
    type V = AnimatorView;

    closed spec fn view(&self) -> AnimatorView {
        AnimatorView {
            frames: self.frames@.map_values(
                |frame: (Buffer, MonitorSettings, u32)|
                    FrameView { buffer: frame.0@, settings: frame.1, duration: frame.2 },
            ),
            current_monitor_settings: self.current_monitor_settings,
            cur_frame: self.cur_frame,
            is_loop: self.is_loop,
            is_playing: self.is_playing,
            speed: self.speed,
            instant: self.instant,
        }
    }
}

impl Default for Animator {
    /// An animator without frames, whose clock starts now.
    fn default() -> (animator: Animator)
        ensures
            animator@ == AnimatorView::initial(),
            animator@.wf(),
    {
        let animator = Animator {
            frames: Vec::new(),
            current_monitor_settings: MonitorSettings::default(),
            cur_frame: 0,
            is_loop: false,
            is_playing: false,
            speed: DEFAULT_SPEED,
            instant: 0,
            clock: Clock::new(),
        };
        assert(animator@.frames =~= Seq::empty());
        animator
    }
}

impl Animator {
    /// Captures `buffer` as the next frame: a copy of it that shares nothing
    /// with it, the current monitor settings and the active duration. Fails,
    /// and changes nothing, when the animation is full.
    pub fn lua_next_frame(&mut self, buffer: &Buffer) -> (res: Result<(), ScriptError>)
        ensures
            old(self)@.has_room() ==> res is Ok && final(self)@ == old(self)@.captured(buffer@),
            !old(self)@.has_room() ==> res == Err::<(), ScriptError>(
                ScriptError::FrameLimitExceeded,
            ) && final(self)@ == old(self)@,
            old(self)@.wf() ==> final(self)@.wf(),
    {
        if self.frames.len() >= MAX_FRAMES {
            return Err(ScriptError::FrameLimitExceeded);
        }
        let frame = buffer.snapshot();
        self.frames.push((frame, self.current_monitor_settings, self.speed));
        assert(self@.frames =~= old(self)@.captured(buffer@).frames);
        Ok(())
    }

    /// Takes the monitor parameters from `globals` and captures `buffer` as
    /// the next frame. The parameters are taken even where the capture fails.
    pub fn capture(&mut self, buffer: &Buffer, globals: &MonitorGlobals) -> (res: Result<
        (),
        ScriptError,
    >)
        ensures
            old(self)@.has_room() ==> res is Ok && final(self)@ == (AnimatorView {
                current_monitor_settings: old(self)@.current_monitor_settings.with_globals(*globals),
                ..old(self)@
            }).captured(buffer@),
            !old(self)@.has_room() ==> res == Err::<(), ScriptError>(
                ScriptError::FrameLimitExceeded,
            ) && final(self)@ == (AnimatorView {
                current_monitor_settings: old(self)@.current_monitor_settings.with_globals(*globals),
                ..old(self)@
            }),
    {
        let mut settings = self.current_monitor_settings;
        settings.apply_globals(globals);
        self.current_monitor_settings = settings;
        self.lua_next_frame(buffer)
    }

    /// The number that a script sees as the frame it works on while the
    /// next capture runs: one more than the frames there will be. A number
    /// too large for the machine comes back as the largest there is.
    pub fn frame_counter(&self) -> (counter: usize)
        ensures
            counter == if self@.frames.len() + 2 <= usize::MAX {
                self@.frames.len() + 2
            } else {
                usize::MAX as nat
            },
    {
        let count: usize = self.frames.len();
        if count <= usize::MAX - 2 {
            count + 2
        } else {
            usize::MAX
        }
    }

    pub fn frame_count(&self) -> (count: usize)
        ensures
            count == self@.frames.len(),
    {
        self.frames.len()
    }

    /// The captured frames, in the order of their capture.
    pub fn frames(&self) -> (frames: &Vec<(Buffer, MonitorSettings, u32)>)
        ensures
            frames@.len() == self@.frames.len(),
            forall|i: int|
                0 <= i < frames@.len() ==> (#[trigger] frames@[i]).0@ == self@.frames[i].buffer
                    && frames@[i].1 == self@.frames[i].settings && frames@[i].2
                    == self@.frames[i].duration,
    {
        &self.frames
    }

    pub fn current_monitor_settings(&self) -> (settings: MonitorSettings)
        ensures
            settings == self@.current_monitor_settings,
    {
        self.current_monitor_settings
    }

    pub fn set_current_monitor_settings(&mut self, settings: MonitorSettings)
        ensures
            final(self)@ == (AnimatorView { current_monitor_settings: settings, ..old(self)@ }),
    {
        self.current_monitor_settings = settings;
    }

    pub fn is_playing(&self) -> (playing: bool)
        ensures
            playing == self@.is_playing,
    {
        self.is_playing
    }

    pub fn set_is_playing(&mut self, is_playing: bool)
        ensures
            final(self)@ == (AnimatorView { is_playing, ..old(self)@ }),
    {
        self.is_playing = is_playing;
    }

    pub fn get_cur_frame(&self) -> (index: usize)
        ensures
            index == self@.cur_frame,
    {
        self.cur_frame
    }

    /// Makes frame `cur_frame` the current frame; its duration becomes the
    /// active duration. The animation has that frame.
    pub fn set_cur_frame(&mut self, cur_frame: usize)
        requires
            cur_frame < old(self)@.frames.len(),
        ensures
            final(self)@ == (AnimatorView {
                cur_frame,
                speed: old(self)@.frames[cur_frame as int].duration,
                ..old(self)@
            }),
    {
        self.cur_frame = cur_frame;
        self.speed = self.frames[self.cur_frame].2;
    }

    pub fn get_is_loop(&self) -> (looping: bool)
        ensures
            looping == self@.is_loop,
    {
        self.is_loop
    }

    pub fn set_is_loop(&mut self, is_loop: bool)
        ensures
            final(self)@ == (AnimatorView { is_loop, ..old(self)@ }),
    {
        self.is_loop = is_loop;
    }

    pub fn get_speed(&self) -> (speed: u32)
        ensures
            speed == self@.speed,
    {
        self.speed
    }

    /// Sets the active duration, whatever the current frame brought.
    pub fn set_speed(&mut self, speed: u32)
        ensures
            final(self)@ == (AnimatorView { speed, ..old(self)@ }),
    {
        self.speed = speed;
    }

    /// The time from which the current frame counts.
    pub fn last_advance(&self) -> (instant: u128)
        ensures
            instant == self@.instant,
    {
        self.instant
    }

    /// The tick at time `now`: moves one frame further if the animator plays
    /// and more than the active duration has passed. Returns the picture to
    /// show, if the tick moved and came to a frame, and the monitor settings
    /// that hold from now on: the current ones, or the default ones as long
    /// as there is no frame.
    pub fn update_frame_at(&mut self, now: u128) -> (shown: (Option<Buffer>, MonitorSettings))
        ensures
            final(self)@ == old(self)@.updated(now),
            old(self)@.wf() ==> final(self)@.wf(),
            shown.1 == final(self)@.shown_settings(),
            old(self)@.frames.len() == 0 ==> shown.1 == MonitorSettings::initial(),
            !old(self)@.is_due(now) ==> shown.0 is None,
            old(self)@.is_due(now) ==> (match shown.0 {
                Some(picture) => final(self)@.picture(final(self)@.cur_frame) == Some(picture@),
                None => final(self)@.picture(final(self)@.cur_frame) is None,
            }),
    {
        if self.is_playing && now > self.instant && now - self.instant > self.speed as u128 {
            self.next_frame();
            self.instant = now;
            let (picture, settings) = self.display_frame();
            self.current_monitor_settings = settings;
            (picture, settings)
        } else if self.frames.len() == 0 {
            (None, MonitorSettings::default())
        } else {
            (None, self.current_monitor_settings)
        }
    }

    /// The tick at the present time, read from the animator's clock: what
    /// `update_frame_at` does at some time `now`.
    pub fn update_frame(&mut self) -> (shown: (Option<Buffer>, MonitorSettings))
        ensures
            exists|now: u128|
                #![trigger old(self)@.updated(now)]
                {
                    &&& old(self)@.updated(now) == final(self)@
                    &&& !old(self)@.is_due(now) ==> shown.0 is None
                    &&& old(self)@.is_due(now) ==> (match shown.0 {
                        Some(picture) => final(self)@.picture(final(self)@.cur_frame) == Some(
                            picture@,
                        ),
                        None => final(self)@.picture(final(self)@.cur_frame) is None,
                    })
                },
            old(self)@.wf() ==> final(self)@.wf(),
            shown.1 == final(self)@.shown_settings(),
            old(self)@.frames.len() == 0 ==> shown.1 == MonitorSettings::initial(),
            !old(self)@.is_playing ==> final(self)@ == old(self)@ && shown.0 is None,
    {
        let now = self.clock.millis();
        self.update_frame_at(now)
    }

    /// Starts playback at time `now`, from frame 0. Returns the picture of
    /// frame 0 and its monitor settings, or no picture and the default
    /// settings where there is no frame.
    pub fn start_playback_at(&mut self, now: u128) -> (shown: (Option<Buffer>, MonitorSettings))
        ensures
            final(self)@ == old(self)@.started(now),
            shown.1 == final(self)@.settings_of(0),
            match shown.0 {
                Some(picture) => final(self)@.picture(0) == Some(picture@),
                None => final(self)@.picture(0) is None,
            },
    {
        self.is_playing = true;
        self.instant = now;
        self.cur_frame = 0;
        self.display_frame()
    }

    /// Starts playback at the present time, read from the animator's clock.
    pub fn start_playback(&mut self) -> (shown: (Option<Buffer>, MonitorSettings))
        ensures
            exists|now: u128| #[trigger] old(self)@.started(now) == final(self)@,
            shown.1 == final(self)@.settings_of(0),
            match shown.0 {
                Some(picture) => final(self)@.picture(0) == Some(picture@),
                None => final(self)@.picture(0) is None,
            },
    {
        let now = self.clock.millis();
        self.start_playback_at(now)
    }

    /// The picture of the current frame and its monitor settings; no picture
    /// and the default settings where there is no frame.
    pub fn display_frame(&self) -> (shown: (Option<Buffer>, MonitorSettings))
        ensures
            shown.1 == self@.settings_of(self@.cur_frame),
            match shown.0 {
                Some(picture) => self@.picture(self@.cur_frame) == Some(picture@),
                None => self@.picture(self@.cur_frame) is None,
            },
    {
        self.display_frame_at(self.cur_frame)
    }

    /// The picture of frame `index` and its monitor settings; no picture and
    /// the default settings where there is no such frame.
    pub fn display_frame_at(&self, index: usize) -> (shown: (Option<Buffer>, MonitorSettings))
        ensures
            shown.1 == self@.settings_of(index),
            match shown.0 {
                Some(picture) => self@.picture(index) == Some(picture@),
                None => self@.picture(index) is None,
            },
    {
        if index < self.frames.len() {
            let scene = &self.frames[index].0;
            let settings = self.frames[index].1;
            let mut frame = scene.snapshot();
            frame.set_is_terminal_buffer(true);
            (Some(frame), settings)
        } else {
            (None, MonitorSettings::default())
        }
    }

    /// Moves one frame further.
    fn next_frame(&mut self)
        ensures
            final(self)@ == old(self)@.advanced(),
    {
        let count: usize = self.frames.len();
        if count == 0 || self.cur_frame >= count - 1 {
            if self.is_loop {
                self.speed = DEFAULT_SPEED;
                self.cur_frame = 0;
            } else {
                self.cur_frame = if count == 0 {
                    0
                } else {
                    count - 1
                };
                self.is_playing = false;
            }
            return ;
        }
        self.cur_frame += 1;
        self.speed = self.frames[self.cur_frame].2;
    }
}

} // verus!

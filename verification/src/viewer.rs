//! The viewer's state and its two transitions: reacting to a controller sample
//! and closing a frame.

use vstd::prelude::*;
use crate::pad::{spec_stick_deflected, stick_deflected, PadSample};

verus! {

/// Value of the animation counter when the viewer starts.
pub const INITIAL_ANIMATION: u32 = 3283;

/// A profiler report is due every `PROFILE_PERIOD` frames.
pub const PROFILE_PERIOD: u64 = 60;

/// How the rasteriser interpolates colours across a primitive.
#[derive(Clone, Copy, Debug, PartialEq, Eq, Structural)]
pub enum ShadeModel {
    Smooth,
    Flat,
}

impl ShadeModel {
    /// The other shade model.
    pub open spec fn spec_toggled(self) -> ShadeModel {
        match self {
            ShadeModel::Smooth => ShadeModel::Flat,
            ShadeModel::Flat => ShadeModel::Smooth,
        }
    }

    /// Returns the other shade model.
    pub fn toggled(self) -> (other: ShadeModel)
        ensures
            other == self.spec_toggled(),
    {
        match self {
            ShadeModel::Smooth => ShadeModel::Flat,
            ShadeModel::Flat => ShadeModel::Smooth,
        }
    }
}

/// What the host has to do after a controller sample was handled, in the order
/// of the fields. Each field is `None` when there is nothing to do for it.
#[derive(Clone, Copy, Debug, PartialEq, Eq)]
pub struct FrameCommands {
    /// Print this value of the animation counter.
    pub report_animation: Option<u32>,
    /// Switch the rasteriser to this shade model.
    pub set_shade_model: Option<ShadeModel>,
    /// Turn fog on (`true`) or off (`false`).
    pub set_fog: Option<bool>,
    /// Move the camera by this raw stick position `(x, y)`.
    pub push_camera: Option<(i8, i8)>,
}

/// State of the viewer between frames.
#[derive(Clone, Copy, Debug, PartialEq, Eq, Structural)]
pub struct Viewer {
    /// Frames closed so far.
    pub frames: u64,
    /// The animation counter, moved up and down from the controller.
    pub animation: u32,
    /// The shade model the rasteriser is set to.
    pub shade_model: ShadeModel,
    /// Whether fog is on.
    pub fog_enabled: bool,
}

impl Viewer {
    /// The viewer has room to count one more frame.
    pub open spec fn spec_can_end_frame(self) -> bool {
        self.frames < u64::MAX
    }

    /// The animation counter after the held buttons have acted on it: `A`
    /// moves it up by one, `B` moves it down by one.
    pub open spec fn spec_animation_after(self, pad: PadSample) -> int {
        self.animation + (if pad.held.a { 1int } else { 0int }) - (if pad.held.b { 1int } else { 0int })
    }

    /// The animation counter stays representable while the held buttons act on
    /// it, `A` first and `B` second.
    pub open spec fn spec_accepts(self, pad: PadSample) -> bool {
        &&& pad.held.a ==> self.animation < u32::MAX
        &&& pad.held.b && !pad.held.a ==> self.animation > 0
    }

    /// The state that follows `self` once `pad` has been handled.
    pub open spec fn spec_after_input(self, pad: PadSample) -> Viewer {
        Viewer {
            frames: self.frames,
            animation: self.spec_animation_after(pad) as u32,
            shade_model: if pad.pressed.r {
                self.shade_model.spec_toggled()
            } else {
                self.shade_model
            },
            fog_enabled: if pad.pressed.l {
                !self.fog_enabled
            } else {
                self.fog_enabled
            },
        }
    }

    /// The commands that handling `pad` in state `self` gives rise to. Values
    /// carried by a command are those of the state after the sample.
    pub open spec fn spec_commands(self, pad: PadSample) -> FrameCommands {
        let next = self.spec_after_input(pad);
        FrameCommands {
            report_animation: if pad.pressed.start {
                Some(next.animation)
            } else {
                None
            },
            set_shade_model: if pad.pressed.r {
                Some(next.shade_model)
            } else {
                None
            },
            set_fog: if pad.pressed.l {
                Some(next.fog_enabled)
            } else {
                None
            },
            push_camera: if spec_stick_deflected(pad.stick_x as int, pad.stick_y as int) {
                Some((pad.stick_x, pad.stick_y))
            } else {
                None
            },
        }
    }

    /// The state that follows `self` once one more frame has been counted.
    pub open spec fn spec_after_frame(self) -> Viewer {
        Viewer { frames: (self.frames + 1) as u64, ..self }
    }

    /// A report is due in state `self`, taken right after a frame was counted.
    pub open spec fn spec_profile_due(self) -> bool {
        self.frames % PROFILE_PERIOD == 0
    }

    /// The viewer before its first frame.
    pub fn new() -> (viewer: Viewer)
        ensures
            viewer == (Viewer {
                frames: 0,
                animation: INITIAL_ANIMATION,
                shade_model: ShadeModel::Smooth,
                fog_enabled: false,
            }),
    {
        Viewer {
            frames: 0,
            animation: INITIAL_ANIMATION,
            shade_model: ShadeModel::Smooth,
            fog_enabled: false,
        }
    }

    /// Tells whether `handle_input` may be called with `pad`.
    pub fn accepts(&self, pad: PadSample) -> (ok: bool)
        ensures
            ok == self.spec_accepts(pad),
    {
        if pad.held.a {
            self.animation < u32::MAX
        } else if pad.held.b {
            self.animation > 0
        } else {
            true
        }
    }

    /// Handles one controller sample: held `A` and `B` move the animation
    /// counter, a press of `R` switches the shade model, a press of `L`
    /// switches fog, a press of `START` asks for the counter to be printed and
    /// a deflected stick pushes the camera.
    pub fn handle_input(&mut self, pad: PadSample) -> (commands: FrameCommands)
        requires
            old(self).spec_accepts(pad),
        ensures
            *final(self) == old(self).spec_after_input(pad),
            commands == old(self).spec_commands(pad),
    {
        if pad.held.a {
            self.animation = self.animation + 1;
        }
        if pad.held.b {
            self.animation = self.animation - 1;
        }
        let report_animation = if pad.pressed.start {
            Some(self.animation)
        } else {
            None
        };
        let set_shade_model = if pad.pressed.r {
            self.shade_model = self.shade_model.toggled();
            Some(self.shade_model)
        } else {
            None
        };
        let set_fog = if pad.pressed.l {
            self.fog_enabled = !self.fog_enabled;
            Some(self.fog_enabled)
        } else {
            None
        };
        let push_camera = if stick_deflected(pad.stick_x, pad.stick_y) {
            Some((pad.stick_x, pad.stick_y))
        } else {
            None
        };
        FrameCommands { report_animation, set_shade_model, set_fog, push_camera }
    }

    /// Counts the frame that was just drawn and tells whether a profiler
    /// report is due, which is the case on every `PROFILE_PERIOD`-th frame.
    pub fn end_frame(&mut self) -> (report: bool)
        requires
            old(self).spec_can_end_frame(),
        ensures
            *final(self) == old(self).spec_after_frame(),
            report == final(self).spec_profile_due(),
    {
        self.frames = self.frames + 1;
        self.frames % PROFILE_PERIOD == 0
    }
}

/// A sample with none of the viewer's buttons down and the stick at rest is
/// always accepted, leaves the state as it is and asks for nothing.
pub proof fn lemma_idle_sample_is_inert(viewer: Viewer, pad: PadSample)
    requires
        pad.pressed.spec_none(),
        pad.held.spec_none(),
        !spec_stick_deflected(pad.stick_x as int, pad.stick_y as int),
    ensures
        viewer.spec_accepts(pad),
        viewer.spec_after_input(pad) == viewer,
        viewer.spec_commands(pad) == (FrameCommands {
            report_animation: None,
            set_shade_model: None,
            set_fog: None,
            push_camera: None,
        }),
{
}

/// A second press undoes the first: after two samples that agree on whether
/// `R` and `L` were pressed, shade model and fog are back where they were.
pub proof fn lemma_second_press_undoes_first(viewer: Viewer, first: PadSample, second: PadSample)
    requires
        first.pressed.r == second.pressed.r,
        first.pressed.l == second.pressed.l,
    ensures
        viewer.spec_after_input(first).spec_after_input(second).shade_model == viewer.shade_model,
        viewer.spec_after_input(first).spec_after_input(second).fog_enabled == viewer.fog_enabled,
{
}

/// Holding `A` for one sample and `B` for the next brings the animation
/// counter back to where it was, and the second sample is accepted whenever
/// the first one is.
pub proof fn lemma_up_then_down_restores_animation(viewer: Viewer, up: PadSample, down: PadSample)
    requires
        up.held.a && !up.held.b,
        down.held.b && !down.held.a,
        viewer.spec_accepts(up),
    ensures
        viewer.spec_after_input(up).spec_accepts(down),
        viewer.spec_after_input(up).spec_after_input(down).animation == viewer.animation,
{
}

/// After a frame on which a report was due, the next report is due exactly
/// `PROFILE_PERIOD` frames later and on none of the frames in between.
pub proof fn lemma_reports_are_a_period_apart(reported: Viewer, later: Viewer)
    requires
        reported.spec_profile_due(),
        reported.frames < later.frames <= reported.frames + PROFILE_PERIOD,
    ensures
        later.spec_profile_due() == (later.frames == reported.frames + PROFILE_PERIOD),
{
}

} // verus!

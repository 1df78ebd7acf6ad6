use vstd::prelude::*;

verus! {

/// Video timing standard of the display.
#[derive(Clone, Copy, PartialEq, Eq, Debug, Structural)]
pub enum VideoMode {
    /// 60 fields per second.
    NTSC,
    /// 50 fields per second.
    PAL,
}

/// Display resolutions that the presenter can be set up with.
#[derive(Clone, Copy, PartialEq, Eq, Debug, Structural)]
pub enum Resolution {
    W320xH240,
}

impl Resolution {
    /// Width and height in pixels.
    pub open spec fn size(self) -> (i16, i16) {
        match self {
            Resolution::W320xH240 => (320i16, 240i16),
        }
    }
}

impl Default for Resolution {
    fn default() -> (r: Resolution)
        ensures
            r == Resolution::W320xH240,
    {
        Resolution::W320xH240
    }
}

impl From<Resolution> for (i16, i16) {
    fn from(value: Resolution) -> (r: (i16, i16)) {
        match value {
            Resolution::W320xH240 => (320, 240),
        }
    }
}

impl vstd::std_specs::convert::FromSpecImpl<Resolution> for (i16, i16) {
    open spec fn obeys_from_spec() -> bool {
        true
    }

    open spec fn from_spec(v: Resolution) -> (i16, i16) {
        v.size()
    }
}

/// A 24-bit color, eight bits per channel, as the drawing hardware takes it.
#[derive(Clone, Copy, PartialEq, Eq, Debug, Structural)]
pub struct Color {
    pub red: u8,
    pub green: u8,
    pub blue: u8,
}

/// The background color that the presenter clears each frame with.
#[derive(Clone, Copy, PartialEq, Eq, Debug, Structural)]
pub struct ClearColor(pub Color);

impl Default for ClearColor {
    fn default() -> (r: ClearColor)
        ensures
            r == ClearColor(Color { red: 43, green: 44, blue: 47 }),
    {
        ClearColor(Color { red: 43, green: 44, blue: 47 })
    }
}

/// One hardware operation of the render sub-pipeline, in the order issued.
#[derive(Clone, Copy, PartialEq, Eq, Debug, Structural)]
pub enum PresentStep {
    /// Write the background color register.
    SetBackground(Color),
    /// Flush queued draw commands and wait for the drawing hardware.
    DrawSync,
    /// Wait for the next vertical blank.
    WaitVblank,
    /// Exchange the displayed and the drawn buffer.
    Swap,
}

/// The double-buffered picture surface: which of its two buffers is shown,
/// and which background color the hardware was last given.
pub struct Framebuffer {
    mode: VideoMode,
    resolution: Resolution,
    displayed: u8,
    background: Option<Color>,
}

impl Framebuffer {
    /// Exactly one of the two buffers is displayed.
    pub closed spec fn wf(&self) -> bool {
        self.displayed <= 1
    }

    pub closed spec fn spec_mode(&self) -> VideoMode {
        self.mode
    }

    pub closed spec fn spec_resolution(&self) -> Resolution {
        self.resolution
    }

    /// Index of the buffer on screen; the other one is drawn into.
    pub closed spec fn spec_displayed(&self) -> nat {
        self.displayed as nat
    }

    /// The color last written to the background register, if any.
    pub closed spec fn spec_background(&self) -> Option<Color> {
        self.background
    }

    /// Sets up the surface: buffer 0 on screen, no background written yet.
    pub fn new(mode: VideoMode, resolution: Resolution) -> (r: Framebuffer)
        ensures
            r.wf(),
            r.spec_mode() == mode,
            r.spec_resolution() == resolution,
            r.spec_displayed() == 0,
            r.spec_background() == None::<Color>,
    {
        Framebuffer { mode, resolution, displayed: 0, background: None }
    }

    pub fn mode(&self) -> (r: VideoMode)
        ensures
            r == self.spec_mode(),
    {
        self.mode
    }

    pub fn resolution(&self) -> (r: Resolution)
        ensures
            r == self.spec_resolution(),
    {
        self.resolution
    }

    pub fn displayed_buffer(&self) -> (r: u8)
        ensures
            r as nat == self.spec_displayed(),
    {
        self.displayed
    }

    /// Video memory layout of the two buffers: the top-left corner of
    /// buffer 0, that of buffer 1 right below it, and their common size.
    pub fn vram_layout(&self) -> (r: ((i16, i16), (i16, i16), (i16, i16)))
        ensures
            r == ((0i16, 0i16), (0i16, self.spec_resolution().size().1), self.spec_resolution().size()),
    {
        let (w, h): (i16, i16) = self.resolution.into();
        ((0, 0), (0, h), (w, h))
    }

    /// Writes `color` to the background register only when it differs from
    /// the color last written, or when none was written yet. Returns whether
    /// the hardware write is due.
    pub fn set_background(&mut self, color: Color) -> (r: bool)
        requires
            old(self).wf(),
        ensures
            final(self).wf(),
            r == (old(self).spec_background() != Some(color)),
            final(self).spec_background() == Some(color),
            final(self).spec_mode() == old(self).spec_mode(),
            final(self).spec_resolution() == old(self).spec_resolution(),
            final(self).spec_displayed() == old(self).spec_displayed(),
    {
        let due = match self.background {
            Some(c) => c != color,
            None => true,
        };
        self.background = Some(color);
        due
    }

    /// Exchanges the displayed and the drawn buffer.
    pub fn swap(&mut self)
        requires
            old(self).wf(),
        ensures
            final(self).wf(),
            final(self).spec_displayed() == 1 - old(self).spec_displayed(),
            final(self).spec_background() == old(self).spec_background(),
            final(self).spec_mode() == old(self).spec_mode(),
            final(self).spec_resolution() == old(self).spec_resolution(),
    {
        self.displayed = 1 - self.displayed;
    }
}

/// Steps of `update_clear_color`: a background write when it is due.
pub open spec fn clear_color_steps(before: Option<Color>, clear: ClearColor) -> Seq<PresentStep> {
    if before == Some(clear.0) {
        Seq::empty()
    } else {
        seq![PresentStep::SetBackground(clear.0)]
    }
}

/// Steps of `draw_and_swap`. The vblank wait is left out while controller
/// polling is active: polling keeps the vblank wait from returning.
pub open spec fn draw_and_swap_steps(input_polling: bool) -> Seq<PresentStep> {
    if input_polling {
        seq![PresentStep::DrawSync, PresentStep::Swap]
    } else {
        seq![PresentStep::DrawSync, PresentStep::WaitVblank, PresentStep::Swap]
    }
}

/// Brings the background register up to date with `clear`, writing it only
/// when the color changed or was never written.
pub fn update_clear_color(framebuffer: &mut Framebuffer, clear: &ClearColor) -> (r: Vec<PresentStep>)
    requires
        old(framebuffer).wf(),
    ensures
        r@ == clear_color_steps(old(framebuffer).spec_background(), *clear),
        final(framebuffer).wf(),
        final(framebuffer).spec_background() == Some(clear.0),
        final(framebuffer).spec_displayed() == old(framebuffer).spec_displayed(),
        final(framebuffer).spec_mode() == old(framebuffer).spec_mode(),
        final(framebuffer).spec_resolution() == old(framebuffer).spec_resolution(),
{
    let mut steps: Vec<PresentStep> = Vec::new();
    if framebuffer.set_background(clear.0) {
        steps.push(PresentStep::SetBackground(clear.0));
    }
    proof {
        assert(steps@ =~= clear_color_steps(old(framebuffer).spec_background(), *clear));
    }
    steps
}

/// Submits the frame and shows it: draw sync, vblank wait unless controller
/// polling is active, then the buffer swap.
pub fn draw_and_swap(framebuffer: &mut Framebuffer, input_polling: bool) -> (r: Vec<PresentStep>)
    requires
        old(framebuffer).wf(),
    ensures
        r@ == draw_and_swap_steps(input_polling),
        final(framebuffer).wf(),
        final(framebuffer).spec_displayed() == 1 - old(framebuffer).spec_displayed(),
        final(framebuffer).spec_background() == old(framebuffer).spec_background(),
        final(framebuffer).spec_mode() == old(framebuffer).spec_mode(),
        final(framebuffer).spec_resolution() == old(framebuffer).spec_resolution(),
{
    let mut steps: Vec<PresentStep> = Vec::new();
    steps.push(PresentStep::DrawSync);
    if !input_polling {
        steps.push(PresentStep::WaitVblank);
    }
    framebuffer.swap();
    steps.push(PresentStep::Swap);
    proof {
        assert(steps@ =~= draw_and_swap_steps(input_polling));
    }
    steps
}

/// The render sub-pipeline that follows the frame's update phases.
#[derive(Clone, Copy, PartialEq, Eq, Debug, Default, Structural)]
pub struct RenderSchedule;

impl RenderSchedule {
    /// Runs the sub-pipeline once: background update, then draw and swap.
    pub fn run(&self, framebuffer: &mut Framebuffer, clear: &ClearColor, input_polling: bool) -> (r: Vec<PresentStep>)
        requires
            old(framebuffer).wf(),
        ensures
            r@ == clear_color_steps(old(framebuffer).spec_background(), *clear)
                + draw_and_swap_steps(input_polling),
            final(framebuffer).wf(),
            final(framebuffer).spec_background() == Some(clear.0),
            final(framebuffer).spec_displayed() == 1 - old(framebuffer).spec_displayed(),
            final(framebuffer).spec_mode() == old(framebuffer).spec_mode(),
            final(framebuffer).spec_resolution() == old(framebuffer).spec_resolution(),
    {
        let mut steps = update_clear_color(framebuffer, clear);
        let mut rest = draw_and_swap(framebuffer, input_polling);
        steps.append(&mut rest);
        steps
    }
}

/// Setting the same background twice writes the hardware at most once: the
/// second call never finds the write due, whatever the surface held before.
pub proof fn lemma_background_written_once(before: Option<Color>, color: Color)
    ensures
        clear_color_steps(Some(color), ClearColor(color)).len() == 0,
        before != Some(color) ==> clear_color_steps(before, ClearColor(color)).len() == 1,
{
}

} // verus!

//! Decisions of the display side: which window sizes a surface can have,
//! which of the EGL configurations offered to take, and when the animation
//! driver hands back the callback for the next frame.

use vstd::prelude::*;
use crate::error::{prefixed_error, PlatformError, platform_error, platform_result_view};

verus! {

/// The message for a surface of width zero.
pub open spec fn invalid_width_message() -> Seq<char> {
    "Attempting to create window surface with an invalid width: 0"@
}

/// The message for a surface of height zero.
pub open spec fn invalid_height_message() -> Seq<char> {
    "Attempting to create window surface with an invalid height: 0"@
}

/// The verdict on a window size: the width is checked first, then the
/// height; both must be non-zero.
pub open spec fn spec_validate_surface_size(width: u32, height: u32) -> Result<(), Seq<char>> {
    if width == 0 {
        Err(invalid_width_message())
    } else if height == 0 {
        Err(invalid_height_message())
    } else {
        Ok(())
    }
}

/// Checks that a window surface of `width` by `height` pixels can be made.
pub fn validate_surface_size(width: u32, height: u32) -> (r: Result<(), PlatformError>)
    ensures
        platform_result_view(r) == spec_validate_surface_size(width, height),
        r is Ok <==> (width != 0 && height != 0),
{
    if width == 0 {
        Err(platform_error("Attempting to create window surface with an invalid width: 0"))
    } else if height == 0 {
        Err(platform_error("Attempting to create window surface with an invalid height: 0"))
    } else {
        Ok(())
    }
}

/// What the choice of an EGL configuration looks at.
#[derive(Copy, Clone, Debug, PartialEq, Eq, Structural)]
pub struct ConfigTraits {
    /// Whether the configuration supports transparency, when it says.
    pub supports_transparency: Option<bool>,
    /// The number of samples per pixel.
    pub num_samples: u8,
}

/// Whether a configuration says it supports transparency.
pub open spec fn transparent(c: ConfigTraits) -> bool {
    match c.supports_transparency {
        Some(t) => t,
        None => false,
    }
}

/// Whether `config` replaces `accum` as the choice so far: it supports
/// transparency where `accum` does not, or it has fewer samples.
pub open spec fn prefers(config: ConfigTraits, accum: ConfigTraits) -> bool {
    (transparent(config) && !transparent(accum)) || config.num_samples < accum.num_samples
}

/// The index of the configuration chosen from `configs`: the first one,
/// replaced in turn by each later one that it prefers over the choice so far.
pub open spec fn spec_selected_config(configs: Seq<ConfigTraits>) -> Option<int>
    decreases configs.len(),
{
    if configs.len() == 0 {
        None
    } else if configs.len() == 1 {
        Some(0)
    } else {
        match spec_selected_config(configs.drop_last()) {
            Some(i) => if prefers(configs.last(), configs[i]) {
                Some(configs.len() - 1)
            } else {
                Some(i)
            },
            None => None,
        }
    }
}

/// Where the choice lies: at an index of `configs`, whenever there is one.
pub proof fn lemma_selected_config_in_range(configs: Seq<ConfigTraits>)
    ensures
        spec_selected_config(configs) is None <==> configs.len() == 0,
        spec_selected_config(configs) matches Some(i) ==> 0 <= i < configs.len(),
    decreases configs.len(),
{
    if configs.len() > 1 {
        lemma_selected_config_in_range(configs.drop_last());
    }
}

/// Any window of non-zero width and height is accepted, whatever its shape;
/// a zero width is reported as such, and a zero height of a window of
/// non-zero width is reported as such.
pub proof fn lemma_surface_size_accepted_iff_non_zero(width: u32, height: u32)
    ensures
        spec_validate_surface_size(width, height) == Ok::<(), Seq<char>>(()) <==> (width > 0 && height > 0),
        width == 0 ==> spec_validate_surface_size(width, height) == Err::<(), Seq<char>>(
            "Attempting to create window surface with an invalid width: 0"@),
        width > 0 && height == 0 ==> spec_validate_surface_size(width, height) == Err::<(), Seq<char>>(
            "Attempting to create window surface with an invalid height: 0"@),
{
}

/// Offering one more configuration `c` after `configs` changes the choice
/// only where `c` beats the choice so far: `c` is taken exactly when it
/// supports transparency and the choice does not, or has strictly fewer
/// samples; otherwise the choice stays where it was.
pub proof fn lemma_selected_config_extend(configs: Seq<ConfigTraits>, c: ConfigTraits)
    requires
        configs.len() > 0,
    ensures
        spec_selected_config(configs) matches Some(i) && {
            let choice = configs[i];
            let beats = (c.supports_transparency == Some(true) && choice.supports_transparency != Some(true))
                || c.num_samples < choice.num_samples;
            &&& beats ==> spec_selected_config(configs.push(c)) == Some(configs.len() as int)
            &&& !beats ==> spec_selected_config(configs.push(c)) == Some(i)
        },
{
    lemma_selected_config_in_range(configs);
    assert(configs.push(c).drop_last() =~= configs);
}

/// Between two configurations the first stays chosen unless the second
/// supports transparency where the first does not, or has strictly fewer
/// samples: a transparent first configuration is kept against any second one
/// with at least as many samples, transparent or not.
pub proof fn lemma_selected_config_of_two(c0: ConfigTraits, c1: ConfigTraits)
    ensures
        c0.supports_transparency == Some(true) && c1.num_samples >= c0.num_samples
            ==> spec_selected_config(seq![c0, c1]) == Some(0int),
        c1.num_samples < c0.num_samples ==> spec_selected_config(seq![c0, c1]) == Some(1int),
        c1.supports_transparency == Some(true) && c0.supports_transparency != Some(true)
            ==> spec_selected_config(seq![c0, c1]) == Some(1int),
        c1.supports_transparency != Some(true) && c1.num_samples >= c0.num_samples
            ==> spec_selected_config(seq![c0, c1]) == Some(0int),
{
    assert(seq![c0].push(c1) =~= seq![c0, c1]);
    assert(seq![c0].len() == 1);
    lemma_selected_config_extend(seq![c0], c1);
}

/// The chosen configuration is never beaten by one offered after it: none
/// that comes later supports transparency where the choice does not, and
/// none that comes later has strictly fewer samples.
pub proof fn lemma_selected_config_unbeaten_by_later(configs: Seq<ConfigTraits>)
    ensures
        spec_selected_config(configs) matches Some(i) ==> forall|j: int| i < j < configs.len() ==> {
            &&& !(#[trigger] configs[j].supports_transparency == Some(true)
                && configs[i].supports_transparency != Some(true))
            &&& configs[j].num_samples >= configs[i].num_samples
        },
    decreases configs.len(),
{
    if configs.len() > 1 {
        let rest = configs.drop_last();
        lemma_selected_config_unbeaten_by_later(rest);
        lemma_selected_config_extend(rest, configs.last());
        assert(rest.push(configs.last()) =~= configs);
        lemma_selected_config_in_range(rest);
        assert forall|k: int| 0 <= k < rest.len() implies rest[k] == configs[k] by {}
    }
}

/// The index of the configuration to use among `configs`, `None` when none
/// is offered.
pub fn select_config(configs: &[ConfigTraits]) -> (r: Option<usize>)
    ensures
        match r {
            Some(i) => spec_selected_config(configs@) == Some(i as int) && i < configs@.len(),
            None => spec_selected_config(configs@) is None && configs@.len() == 0,
        },
{
    let n = configs.len();
    if n == 0 {
        return None;
    }
    let mut chosen: usize = 0;
    let mut i: usize = 1;
    assert(configs@.take(1).drop_last().len() == 0);
    while i < n
        invariant
            n == configs@.len(),
            1 <= i <= n,
            chosen < i,
            spec_selected_config(configs@.take(i as int)) == Some(chosen as int),
        decreases n - i,
    {
        let config = configs[i];
        let accum = configs[chosen];
        let config_transparent = match config.supports_transparency {
            Some(t) => t,
            None => false,
        };
        let accum_transparent = match accum.supports_transparency {
            Some(t) => t,
            None => false,
        };
        assert(configs@.take(i + 1).drop_last() =~= configs@.take(i as int));
        assert(configs@.take(i + 1)[chosen as int] == configs@[chosen as int]);
        if (config_transparent && !accum_transparent) || config.num_samples < accum.num_samples {
            chosen = i;
        }
        i = i + 1;
    }
    assert(configs@.take(n as int) =~= configs@);
    Some(chosen)
}

/// The steps of the EGL set-up that can fail, each with the outside error's
/// display where there is one.
pub enum EglSetupError {
    DisplayHandle(String),
    WindowHandle(String),
    CreateDisplay(String),
    LocateConfigs(String),
    NoSuitableConfig,
    CreateContext(String),
    CreateSurface(String),
    MakeCurrent(String),
}

/// The message reported for a failed step of the EGL set-up.
pub open spec fn spec_egl_setup_message(e: &EglSetupError) -> Seq<char> {
    match e {
        EglSetupError::DisplayHandle(d) => "display_handle: "@ + d@,
        EglSetupError::WindowHandle(d) => "window_handle: "@ + d@,
        EglSetupError::CreateDisplay(d) => "Error creating EGL display: "@ + d@,
        EglSetupError::LocateConfigs(d) => "Error locating EGL configs: "@ + d@,
        EglSetupError::NoSuitableConfig => "Unable to find suitable GL config"@,
        EglSetupError::CreateContext(d) => "Error creating EGL context: "@ + d@,
        EglSetupError::CreateSurface(d) => "Error creating EGL window surface: "@ + d@,
        EglSetupError::MakeCurrent(d) =>
            "FemtoVG Renderer: Failed to make newly created OpenGL context current: "@ + d@,
    }
}

/// The platform error reported for a failed step of the EGL set-up.
pub fn egl_setup_error(e: &EglSetupError) -> (r: PlatformError)
    ensures
        r@ == spec_egl_setup_message(e),
{
    match e {
        EglSetupError::DisplayHandle(d) => prefixed_error("display_handle: ", d),
        EglSetupError::WindowHandle(d) => prefixed_error("window_handle: ", d),
        EglSetupError::CreateDisplay(d) => prefixed_error("Error creating EGL display: ", d),
        EglSetupError::LocateConfigs(d) => prefixed_error("Error locating EGL configs: ", d),
        EglSetupError::NoSuitableConfig => platform_error("Unable to find suitable GL config"),
        EglSetupError::CreateContext(d) => prefixed_error("Error creating EGL context: ", d),
        EglSetupError::CreateSurface(d) => prefixed_error("Error creating EGL window surface: ", d),
        EglSetupError::MakeCurrent(d) => prefixed_error(
            "FemtoVG Renderer: Failed to make newly created OpenGL context current: ",
            d,
        ),
    }
}

/// The configuration to use among `configs`, or the error that none fits.
pub fn choose_config(configs: &[ConfigTraits]) -> (r: Result<usize, PlatformError>)
    ensures
        match r {
            Ok(i) => spec_selected_config(configs@) == Some(i as int) && i < configs@.len(),
            Err(e) => configs@.len() == 0 && e@ == spec_egl_setup_message(&EglSetupError::NoSuitableConfig),
        },
{
    match select_config(configs) {
        Some(i) => Ok(i),
        None => Err(egl_setup_error(&EglSetupError::NoSuitableConfig)),
    }
}

/// The context attributes that an EGL context is asked for with.
#[derive(Copy, Clone, Debug, PartialEq, Eq, Structural)]
pub enum ContextAttributes {
    /// OpenGL ES 2.0.
    Gles2,
    /// The display's default API and version.
    Default,
}

impl ContextAttributes {
    /// The OpenGL ES version (major, minor) that the attributes ask for,
    /// `None` where they leave it to the display.
    pub fn gles_version(self) -> (r: Option<(u8, u8)>)
        ensures
            r == (match self {
                ContextAttributes::Gles2 => Some((2u8, 0u8)),
                ContextAttributes::Default => None::<(u8, u8)>,
            }),
    {
        match self {
            ContextAttributes::Gles2 => Some((2, 0)),
            ContextAttributes::Default => None,
        }
    }
}

/// The attributes to try after `previous` failed (`None`: nothing tried
/// yet): OpenGL ES 2.0 first, then the defaults, then nothing more.
pub open spec fn spec_next_context_attempt(previous: Option<ContextAttributes>) -> Option<ContextAttributes> {
    match previous {
        None => Some(ContextAttributes::Gles2),
        Some(ContextAttributes::Gles2) => Some(ContextAttributes::Default),
        Some(ContextAttributes::Default) => None,
    }
}

/// The attributes to create the context with after `previous` failed.
pub fn next_context_attempt(previous: Option<ContextAttributes>) -> (r: Option<ContextAttributes>)
    ensures
        r == spec_next_context_attempt(previous),
{
    match previous {
        None => Some(ContextAttributes::Gles2),
        Some(ContextAttributes::Gles2) => Some(ContextAttributes::Default),
        Some(ContextAttributes::Default) => None,
    }
}

/// A context is asked for at most twice: with OpenGL ES 2.0, and, if that
/// fails, with the defaults; after both fail the set-up gives up.
pub proof fn lemma_context_attempts()
    ensures
        spec_next_context_attempt(None) == Some(ContextAttributes::Gles2),
        spec_next_context_attempt(spec_next_context_attempt(None)) == Some(ContextAttributes::Default),
        spec_next_context_attempt(spec_next_context_attempt(spec_next_context_attempt(None))) is None,
{
}

/// Drives animations from a timer: presenting a frame leaves the callback
/// for the next frame and starts the timer; when the timer fires it stops
/// and the callback is handed back to be invoked.
pub struct TimerBasedAnimationDriver<C> {
    /// Whether the timer runs.
    pub timer_running: bool,
    /// The callback for the next animation frame, if one waits.
    pub next_animation_frame_callback: Option<C>,
}

impl<C> TimerBasedAnimationDriver<C> {
    /// The timer runs exactly while a callback waits for it.
    pub open spec fn wf(&self) -> bool {
        self.timer_running <==> self.next_animation_frame_callback is Some
    }

    /// The driver after a frame is presented with `callback` for the next one.
    pub open spec fn presented(self, callback: C) -> Self {
        TimerBasedAnimationDriver { timer_running: true, next_animation_frame_callback: Some(callback) }
    }

    /// The driver after its timer fires, and the callback it hands back.
    pub open spec fn fired(self) -> (Self, Option<C>) {
        (
            TimerBasedAnimationDriver { timer_running: false, next_animation_frame_callback: None },
            self.next_animation_frame_callback,
        )
    }

    /// A driver whose timer is stopped and with no callback waiting.
    pub fn new() -> (d: Self)
        ensures
            !d.timer_running,
            d.next_animation_frame_callback is None,
            d.wf(),
    {
        TimerBasedAnimationDriver { timer_running: false, next_animation_frame_callback: None }
    }

    /// A frame can always be presented.
    pub fn is_ready_to_present(&self) -> (r: bool)
        ensures
            r,
    {
        true
    }

    /// Presents a frame: `ready_for_next_animation_frame` waits, in place of
    /// any earlier callback, and the timer (re)starts.
    pub fn present_with_next_frame_callback(&mut self, ready_for_next_animation_frame: C)
        ensures
            *final(self) == old(self).presented(ready_for_next_animation_frame),
    {
        self.next_animation_frame_callback = Some(ready_for_next_animation_frame);
        self.timer_running = true;
    }

    /// The timer fires: it stops, and the waiting callback, if any, is
    /// handed back to be invoked.
    pub fn timer_fired(&mut self) -> (r: Option<C>)
        ensures
            (*final(self), r) == old(self).fired(),
    {
        self.timer_running = false;
        let mut taken: Option<C> = None;
        std::mem::swap(&mut taken, &mut self.next_animation_frame_callback);
        taken
    }
}

/// The callback of the last frame presented is the one handed back when the
/// timer fires, exactly once: a second firing hands back nothing. Every step
/// keeps the timer running exactly while a callback waits.
pub proof fn lemma_presented_callback_fires_once<C>(d: TimerBasedAnimationDriver<C>, first: C, last: C)
    ensures
        d.presented(last).fired().1 == Some(last),
        d.presented(first).presented(last).fired().1 == Some(last),
        d.presented(last).fired().0.fired().1 is None,
        d.presented(last).wf(),
        d.fired().0.wf(),
        !d.fired().0.timer_running,
{
}

} // verus!

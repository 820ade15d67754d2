//! The presentation shell: what the window looks like and what each frame
//! asks of the toolkit that paints it.
//!
//! The shell never paints. Each frame it is handed the input events that came
//! since the last one and answers with the one thing to do: close the window,
//! upload the logo as a texture and draw, or draw with the texture it keeps.

use vstd::prelude::*;
use crate::identity::{get_uname, IdentityView, SystemError};
use crate::input::{escape_released, InputEvent, PressKeys};
use crate::logo::{get_logo, spec_logo, DecodeError, LogoImage, LogoView};

verus! {

/// The height of the strip under the logo that holds the line of text.
#[derive(Clone, Copy, Debug, PartialEq, Eq, Structural)]
pub enum LabelMargin {
    /// 36 units.
    Tall,
    /// 30 units.
    Short,
}

/// How the line of text is laid out.
#[derive(Clone, Copy, Debug, PartialEq, Eq, Structural)]
pub enum TextLayout {
    /// Strong text, centered and justified in the space under the logo.
    Centered,
    /// A plain heading after the logo.
    Heading,
}

/// The two choices that the look of the window leaves open.
#[derive(Clone, Copy, Debug, PartialEq, Eq, Structural)]
pub struct Config {
    pub margin: LabelMargin,
    pub layout: TextLayout,
}

/// The size of the window, in display units.
#[derive(Clone, Copy, Debug, PartialEq, Eq, Structural)]
pub struct WindowSize {
    pub width: u64,
    pub height: u64,
}

/// Where the shell stands in its life.
#[derive(Clone, Copy, Debug, PartialEq, Eq, Structural)]
pub enum Phase {
    /// No texture has been uploaded yet.
    Uninitialized,
    /// The texture has just been uploaded.
    TextureLoaded,
    /// At least one frame was drawn with the kept texture.
    Running,
    /// The window was asked to close. Nothing leads out of this phase.
    Terminated,
}

/// What a frame asks of the toolkit.
#[derive(Clone, Copy, Debug, PartialEq, Eq, Structural)]
pub enum FrameAction {
    /// Close the window.
    Close,
    /// Upload the logo as a texture, hand the handle to
    /// [`App::texture_uploaded`], then draw.
    Upload,
    /// Draw with the texture that the shell keeps.
    Draw,
}

/// Why the shell could not be set up.
#[derive(Clone, Copy, Debug, PartialEq, Eq, Structural)]
pub enum StartupError {
    Decode(DecodeError),
    System(SystemError),
}

impl LabelMargin {
    /// The margin in display units.
    pub open spec fn spec_units(self) -> nat {
        match self {
            LabelMargin::Tall => 36,
            LabelMargin::Short => 30,
        }
    }

    /// The margin in display units.
    pub fn units(self) -> (n: u64)
        ensures
            n == self.spec_units(),
    {
        match self {
            LabelMargin::Tall => 36,
            LabelMargin::Short => 30,
        }
    }
}

impl Default for Config {
    /// The tall margin with centered text.
    fn default() -> (config: Config)
        ensures
            config == (Config { margin: LabelMargin::Tall, layout: TextLayout::Centered }),
    {
        Config { margin: LabelMargin::Tall, layout: TextLayout::Centered }
    }
}

/// The window is as wide as the logo and higher than it by the margin.
pub open spec fn spec_window_size(logo: LogoView, margin: LabelMargin) -> WindowSize {
    WindowSize { width: logo.width as u64, height: (logo.height + margin.spec_units()) as u64 }
}

/// Computes the size of the window for a logo and a margin.
pub fn window_size(logo: &LogoImage, margin: LabelMargin) -> (size: WindowSize)
    ensures
        size.width == logo@.width,
        size.height == logo@.height + margin.spec_units(),
        size == spec_window_size(logo@, margin),
        logo@.wf(),
{
    WindowSize { width: logo.width() as u64, height: logo.height() as u64 + margin.units() }
}

/// The shell as it is set up: the window sized for the logo, no texture yet.
pub open spec fn spec_with_parts<T>(logo: LogoView, uname: Seq<char>, config: Config) -> AppView<
    T,
> {
    AppView {
        logo,
        uname,
        config,
        size: spec_window_size(logo, config.margin),
        texture: None,
        phase: Phase::Uninitialized,
    }
}

/// The mathematical value of an [`App`].
pub struct AppView<T> {
    pub logo: LogoView,
    pub uname: Seq<char>,
    pub config: Config,
    pub size: WindowSize,
    pub texture: Option<T>,
    pub phase: Phase,
}

impl<T> AppView<T> {
    /// The window fits the logo, and a texture is kept exactly from the
    /// upload on.
    pub open spec fn wf(self) -> bool {
        &&& self.logo.wf()
        &&& self.size == spec_window_size(self.logo, self.config.margin)
        &&& (self.phase is Uninitialized ==> self.texture is None)
        &&& (self.phase is TextureLoaded || self.phase is Running ==> self.texture is Some)
    }

    /// What a frame with these events asks of the toolkit.
    pub open spec fn action(self, events: Seq<InputEvent>) -> FrameAction {
        if self.phase is Terminated || escape_released(events) {
            FrameAction::Close
        } else if self.phase is Uninitialized {
            FrameAction::Upload
        } else {
            FrameAction::Draw
        }
    }

    /// The shell after a frame with these events.
    pub open spec fn after_update(self, events: Seq<InputEvent>) -> AppView<T> {
        if self.phase is Terminated || escape_released(events) {
            AppView { phase: Phase::Terminated, ..self }
        } else if self.phase is Uninitialized {
            self
        } else {
            AppView { phase: Phase::Running, ..self }
        }
    }

    /// The shell after the toolkit handed in a texture. Only the first
    /// texture is kept.
    pub open spec fn after_upload(self, handle: T) -> AppView<T> {
        if self.phase is Uninitialized {
            AppView { phase: Phase::TextureLoaded, texture: Some(handle), ..self }
        } else {
            self
        }
    }

    /// The shell after the window was closed from outside.
    pub open spec fn after_close(self) -> AppView<T> {
        AppView { phase: Phase::Terminated, ..self }
    }

    /// One whole frame: the shell decides, and where it asks for an upload
    /// the toolkit answers with the handle `fresh`.
    pub open spec fn frame(self, events: Seq<InputEvent>, fresh: T) -> AppView<T> {
        if self.action(events) is Upload {
            self.after_update(events).after_upload(fresh)
        } else {
            self.after_update(events)
        }
    }
}

/// The shell of the window: the logo, the line of text, the window's size and
/// the texture once the toolkit has uploaded it. `T` is the toolkit's handle
/// to an uploaded texture.
pub struct App<T> {
    logo: LogoImage,
    uname: String,
    config: Config,
    size: WindowSize,
    texture: Option<T>,
    painted: bool,
    closed: bool,
}

impl<T> View for App<T> {
    type V = AppView<T>;

    closed spec fn view(&self) -> AppView<T> {
        AppView {
            logo: self.logo@,
            uname: self.uname@,
            config: self.config,
            size: self.size,
            texture: self.texture,
            phase: if self.closed {
                Phase::Terminated
            } else if self.texture is None {
                Phase::Uninitialized
            } else if self.painted {
                Phase::Running
            } else {
                Phase::TextureLoaded
            },
        }
    }
}

impl<T> App<T> {
    #[verifier::type_invariant]
    spec fn inv(self) -> bool {
        &&& self.logo@.wf()
        &&& self.size == spec_window_size(self.logo@, self.config.margin)
    }

    /// Sets the shell up from a decoded logo and the line of text.
    pub fn with_parts(logo: LogoImage, uname: String, config: Config) -> (app: App<T>)
        ensures
            app@.wf(),
            app@ == spec_with_parts::<T>(logo@, uname@, config),
    {
        let size = window_size(&logo, config.margin);
        App { logo, uname, config, size, texture: None, painted: false, closed: false }
    }

    /// Sets the shell up from the bytes of the logo's PNG image and from what
    /// the operating system reports of itself. The logo is decoded first: a
    /// stream that holds no logo is refused whatever the system would answer.
    pub fn new(logo_png: &[u8], config: Config) -> (r: Result<App<T>, StartupError>)
        ensures
            match r {
                Ok(app) => {
                    &&& app@.wf()
                    &&& spec_logo(logo_png@) == Ok::<LogoView, DecodeError>(app@.logo)
                    &&& app@.config == config
                    &&& app@.size == spec_window_size(app@.logo, config.margin)
                    &&& app@.texture is None
                    &&& app@.phase is Uninitialized
                    &&& exists|identity: IdentityView| app@.uname == #[trigger] identity.line()
                },
                Err(StartupError::Decode(e)) => spec_logo(logo_png@) == Err::<
                    LogoView,
                    DecodeError,
                >(e),
                Err(StartupError::System(_)) => spec_logo(logo_png@) is Ok,
            },
    {
        let logo = match get_logo(logo_png) {
            Ok(logo) => logo,
            Err(e) => {
                return Err(StartupError::Decode(e));
            },
        };
        App::from_identity(logo, get_uname(), config)
    }

    /// Sets the shell up from a decoded logo and from the outcome of reading
    /// the system's identification. A line that was read is shown as it is; a
    /// failed read gives no shell, and no text is made up in its place.
    pub fn from_identity(logo: LogoImage, line: Result<String, SystemError>, config: Config) -> (r:
        Result<App<T>, StartupError>)
        ensures
            match line {
                Ok(text) => r is Ok && r->Ok_0@.wf() && r->Ok_0@ == spec_with_parts::<T>(
                    logo@,
                    text@,
                    config,
                ),
                Err(e) => r is Err && r->Err_0 == StartupError::System(e),
            },
    {
        match line {
            Ok(text) => Ok(App::with_parts(logo, text, config)),
            Err(e) => Err(StartupError::System(e)),
        }
    }

    /// Tells which key presses a batch of input events completed. Escape
    /// counts once it is let go; going down alone does not.
    pub fn pressed_keys(events: &[InputEvent]) -> (keys: PressKeys)
        ensures
            keys.escape == escape_released(events@),
    {
        let mut escape = false;
        let mut i: usize = 0;
        while i < events.len()
            invariant
                i <= events.len(),
                escape == escape_released(events@.take(i as int)),
            decreases events.len() - i,
        {
            let ghost before = events@.take(i as int);
            let ghost after = events@.take(i + 1);
            if events[i].escape_release() {
                escape = true;
                assert(after[i as int].is_escape_release());
            } else {
                assert(escape_released(after) == escape_released(before)) by {
                    if escape_released(after) {
                        let j = choose|j: int|
                            0 <= j < after.len() && (#[trigger] after[j]).is_escape_release();
                        assert(before[j] == after[j]);
                    }
                    if escape_released(before) {
                        let j = choose|j: int|
                            0 <= j < before.len() && (#[trigger] before[j]).is_escape_release();
                        assert(after[j] == before[j]);
                    }
                }
            }
            i += 1;
        }
        assert(events@.take(i as int) == events@);
        PressKeys { escape }
    }

    /// Decides one frame from the input events that came since the last one.
    ///
    /// A release of Escape closes the window for good. Before the first
    /// upload the frame asks for one; from then on it draws with the kept
    /// texture.
    pub fn update(&mut self, events: &[InputEvent]) -> (action: FrameAction)
        ensures
            old(self)@.wf(),
            final(self)@.wf(),
            action == old(self)@.action(events@),
            final(self)@ == old(self)@.after_update(events@),
    {
        proof {
            use_type_invariant(&*self);
        }
        if self.closed || App::<T>::pressed_keys(events).escape {
            self.closed = true;
            FrameAction::Close
        } else if self.texture.is_none() {
            FrameAction::Upload
        } else {
            self.painted = true;
            FrameAction::Draw
        }
    }

    /// Takes the handle of the texture that the toolkit uploaded. The first
    /// handle is kept for good; a later one is dropped.
    pub fn texture_uploaded(&mut self, handle: T)
        ensures
            old(self)@.wf(),
            final(self)@.wf(),
            final(self)@ == old(self)@.after_upload(handle),
    {
        proof {
            use_type_invariant(&*self);
        }
        if !self.closed && self.texture.is_none() {
            self.texture = Some(handle);
            self.painted = false;
        }
    }

    /// Records that the window was closed from outside.
    pub fn close(&mut self)
        ensures
            old(self)@.wf(),
            final(self)@.wf(),
            final(self)@ == old(self)@.after_close(),
    {
        proof {
            use_type_invariant(&*self);
        }
        self.closed = true;
    }

    /// The logo.
    pub fn logo(&self) -> (logo: &LogoImage)
        ensures
            logo@ == self@.logo,
    {
        &self.logo
    }

    /// The line of text under the logo.
    pub fn uname(&self) -> (text: &String)
        ensures
            text@ == self@.uname,
    {
        &self.uname
    }

    /// The choices that the shell was set up with.
    pub fn config(&self) -> (config: Config)
        ensures
            config == self@.config,
    {
        self.config
    }

    /// The size of the window.
    pub fn size(&self) -> (size: WindowSize)
        ensures
            size == self@.size,
    {
        self.size
    }

    /// The kept texture, once there is one.
    pub fn texture(&self) -> (texture: Option<&T>)
        ensures
            match texture {
                Some(handle) => self@.texture == Some(*handle),
                None => self@.texture is None,
            },
    {
        self.texture.as_ref()
    }

    /// Where the shell stands in its life.
    pub fn phase(&self) -> (phase: Phase)
        ensures
            phase == self@.phase,
            self@.wf(),
    {
        proof {
            use_type_invariant(self);
        }
        if self.closed {
            Phase::Terminated
        } else if self.texture.is_none() {
            Phase::Uninitialized
        } else if self.painted {
            Phase::Running
        } else {
            Phase::TextureLoaded
        }
    }
}

} // verus!

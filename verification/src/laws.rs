//! What holds of the shell over many frames, and of the logo over many
//! decodings.

use vstd::prelude::*;
use crate::input::{escape_released, InputEvent, Key};
use crate::logo::{
    grid_of, lemma_from_straight, lemma_grid_of, png_rgba8, spec_declared_dimensions, spec_logo,
    DecodeError, LogoView, Pixel,
};
use crate::shell::{spec_window_size, AppView, FrameAction, LabelMargin, Phase};

verus! {

/// One simulated frame: the events that it is handed, and the handle that the
/// toolkit would answer with if the frame asked for an upload.
pub type Frame<T> = (Seq<InputEvent>, T);

/// The shell after the first `k` of the given frames.
pub open spec fn state_after<T>(start: AppView<T>, frames: Seq<Frame<T>>, k: nat) -> AppView<T>
    decreases k,
{
    if k == 0 {
        start
    } else {
        state_after(start, frames, (k - 1) as nat).frame(frames[k - 1].0, frames[k - 1].1)
    }
}

/// How many of the first `k` frames asked for an upload.
pub open spec fn uploads<T>(start: AppView<T>, frames: Seq<Frame<T>>, k: nat) -> nat
    decreases k,
{
    if k == 0 {
        0
    } else {
        let before = state_after(start, frames, (k - 1) as nat);
        let asked: nat = if before.action(frames[k - 1].0) is Upload {
            1
        } else {
            0
        };
        uploads(start, frames, (k - 1) as nat) + asked
    }
}

/// A frame keeps a well-formed shell well-formed, and never changes the logo,
/// the text, the choices or the window's size.
pub proof fn lemma_frame_preserves<T>(state: AppView<T>, events: Seq<InputEvent>, fresh: T)
    requires
        state.wf(),
    ensures
        state.frame(events, fresh).wf(),
        state.frame(events, fresh).logo == state.logo,
        state.frame(events, fresh).uname == state.uname,
        state.frame(events, fresh).config == state.config,
        state.frame(events, fresh).size == state.size,
{
}

/// The texture is uploaded once: over any number of frames without a release
/// of Escape, starting before the first upload, exactly one frame asks for an
/// upload, and from the first frame on the shell keeps the handle that this
/// upload gave.
pub proof fn lemma_single_upload<T>(start: AppView<T>, frames: Seq<Frame<T>>, k: nat)
    requires
        start.wf(),
        start.phase is Uninitialized,
        1 <= k <= frames.len(),
        forall|i: int| 0 <= i < frames.len() ==> !escape_released(#[trigger] frames[i].0),
    ensures
        uploads(start, frames, k) == 1,
        state_after(start, frames, k).texture == Some(frames[0].1),
        state_after(start, frames, k).wf(),
        !(state_after(start, frames, k).phase is Uninitialized),
        !(state_after(start, frames, k).phase is Terminated),
    decreases k,
{
    if k == 1 {
        assert(state_after(start, frames, 0) == start);
        assert(uploads(start, frames, 0) == 0);
        assert(!escape_released(frames[0].0));
    } else {
        lemma_single_upload(start, frames, (k - 1) as nat);
        assert(!escape_released(frames[k - 1].0));
    }
}

/// Whatever the events are, a well-formed shell asks for at most one upload,
/// and a texture that it keeps is never replaced.
pub proof fn lemma_at_most_one_upload<T>(start: AppView<T>, frames: Seq<Frame<T>>, k: nat)
    requires
        start.wf(),
        k <= frames.len(),
    ensures
        state_after(start, frames, k).wf(),
        start.texture is Some ==> uploads(start, frames, k) == 0 && state_after(
            start,
            frames,
            k,
        ).texture == start.texture,
        uploads(start, frames, k) <= 1,
        uploads(start, frames, k) == 1 ==> state_after(start, frames, k).texture is Some,
    decreases k,
{
    if k > 0 {
        lemma_at_most_one_upload(start, frames, (k - 1) as nat);
        let before = state_after(start, frames, (k - 1) as nat);
        lemma_frame_preserves(before, frames[k - 1].0, frames[k - 1].1);
    }
}

/// Nothing leads out of the terminated phase: every later frame asks to close.
pub proof fn lemma_terminated_stays<T>(start: AppView<T>, frames: Seq<Frame<T>>, k: nat)
    requires
        start.phase is Terminated,
        k <= frames.len(),
    ensures
        state_after(start, frames, k).phase is Terminated,
        k > 0 ==> state_after(start, frames, (k - 1) as nat).action(frames[k - 1].0)
            == FrameAction::Close,
        uploads(start, frames, k) == 0,
    decreases k,
{
    if k > 0 {
        lemma_terminated_stays(start, frames, (k - 1) as nat);
    }
}

/// A batch in which Escape only goes down closes nothing: without an event
/// that reports Escape let go, a shell that is not terminated goes on.
pub proof fn lemma_press_alone_keeps_open<T>(state: AppView<T>, events: Seq<InputEvent>)
    requires
        !(state.phase is Terminated),
        forall|i: int|
            0 <= i < events.len() ==> #[trigger] events[i] != (InputEvent::Key {
                key: Key::Escape,
                pressed: false,
            }),
    ensures
        !escape_released(events),
        state.action(events) != FrameAction::Close,
        !(state.after_update(events).phase is Terminated),
{
}

/// A batch that holds a release of Escape, wherever it stands and whatever
/// comes before or after it, closes the window for good.
pub proof fn lemma_release_closes<T>(state: AppView<T>, events: Seq<InputEvent>, at: int)
    requires
        0 <= at < events.len(),
        events[at] == (InputEvent::Key { key: Key::Escape, pressed: false }),
    ensures
        escape_released(events),
        state.action(events) == FrameAction::Close,
        state.after_update(events).phase is Terminated,
{
    assert(events[at].is_escape_release());
}

/// Decoding is a function of the bytes: two streams with the same bytes hold
/// the same logo, or fail for the same reason.
pub proof fn lemma_decoding_is_deterministic(first: Seq<u8>, second: Seq<u8>)
    requires
        first =~= second,
    ensures
        spec_logo(first) == spec_logo(second),
{
}

/// A decoded logo has the width and height that its stream declares in the
/// header, and one pixel for each place of the grid.
pub proof fn lemma_logo_has_declared_size(bytes: Seq<u8>, logo: LogoView)
    requires
        spec_logo(bytes) == Ok::<LogoView, DecodeError>(logo),
    ensures
        spec_declared_dimensions(bytes) == Some((logo.width as u32, logo.height as u32)),
        logo.wf(),
{
    let decoded = png_rgba8(bytes)->Some_0;
    lemma_grid_of(decoded.0 as nat, decoded.1 as nat, decoded.2);
}

/// A stream that the decoder accepts, with the size that the stream's header
/// declares and a buffer that holds all of its pixels, gives a logo, and the
/// logo has that width and that height, neither swapped nor scaled.
pub proof fn lemma_accepted_stream_gives_logo(
    bytes: Seq<u8>,
    width: u32,
    height: u32,
    data: Seq<u8>,
)
    requires
        png_rgba8(bytes) == Some((width, height, data)),
        spec_declared_dimensions(bytes) == Some((width, height)),
        data.len() >= 4 * width * height,
    ensures
        spec_logo(bytes) == Ok::<LogoView, DecodeError>(
            grid_of(width as nat, height as nat, data),
        ),
        spec_logo(bytes)->Ok_0.width == width,
        spec_logo(bytes)->Ok_0.height == height,
        spec_logo(bytes)->Ok_0.pixels.len() == width * height,
{
}

/// A decoded logo is in premultiplied alpha: each pixel keeps the alpha that
/// the decoder gave it, and no colour channel of it exceeds that alpha. A
/// pixel that the decoder gave full alpha keeps its colours, and one that it
/// gave no alpha is all zero.
pub proof fn lemma_logo_is_premultiplied(bytes: Seq<u8>, logo: LogoView, i: int)
    requires
        spec_logo(bytes) == Ok::<LogoView, DecodeError>(logo),
        0 <= i < logo.pixels.len(),
    ensures
        png_rgba8(bytes) is Some,
        ({
            let data = png_rgba8(bytes)->Some_0.2;
            let pixel = logo.pixels[i];
            &&& pixel.a == data[4 * i + 3]
            &&& pixel.r <= pixel.a && pixel.g <= pixel.a && pixel.b <= pixel.a
            &&& pixel.r <= data[4 * i] && pixel.g <= data[4 * i + 1] && pixel.b <= data[4 * i + 2]
            &&& data[4 * i + 3] == 255 ==> pixel == (Pixel {
                r: data[4 * i],
                g: data[4 * i + 1],
                b: data[4 * i + 2],
                a: 255,
            })
            &&& data[4 * i + 3] == 0 ==> pixel == (Pixel { r: 0, g: 0, b: 0, a: 0 })
        }),
{
    let data = png_rgba8(bytes)->Some_0.2;
    lemma_from_straight(data[4 * i], data[4 * i + 1], data[4 * i + 2], data[4 * i + 3]);
}

/// The window is exactly as wide as the logo, and higher than it by exactly
/// the margin: 36 units for the tall one, 30 for the short one.
pub proof fn lemma_window_fits_logo(logo: LogoView, margin: LabelMargin)
    requires
        logo.wf(),
    ensures
        spec_window_size(logo, margin).width == logo.width,
        spec_window_size(logo, margin).height == logo.height + match margin {
            LabelMargin::Tall => 36nat,
            LabelMargin::Short => 30nat,
        },
{
}

} // verus!

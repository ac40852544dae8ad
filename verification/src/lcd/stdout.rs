//! A LCD layer as standard output.

use super::{
    FramebufferAl88, Layer, TextWriter, all_writable, chars_fit, write_chars, writable, Framebuffer,
};
use vstd::prelude::*;

verus! {

/// The standard output: a text writer on layer 2, once it is initialized.
pub struct Stdout<'a> {
    writer: Option<TextWriter<'a, FramebufferAl88>>,
}

impl<'a> Stdout<'a> {
    /// The text writer, if standard output is initialized.
    pub closed spec fn writer(&self) -> Option<TextWriter<'a, FramebufferAl88>> {
        self.writer
    }

    /// Standard output that is not yet initialized.
    pub fn new() -> (r: Stdout<'a>)
        ensures
            r.writer() is None,
            !initialized(r),
    {
        Stdout { writer: None }
    }
}

/// Whether standard output is initialized, as [`is_initialized`] reports.
pub open spec fn initialized<'a>(stdout: Stdout<'a>) -> bool {
    stdout.writer() is Some
}

/// What [`init`] does, from standard output `before` and a layer whose framebuffer is
/// `layer_fb`: the writer is valid, its cursor at the top left corner, and it draws on the
/// framebuffer it had, or else on the layer.
pub open spec fn init_post<'a>(before: Stdout<'a>, after: Stdout<'a>, layer_fb: FramebufferAl88) -> bool {
    &&& after.writer() matches Some(w) && w.wf() && w.spec_x_pos() == 0 && w.spec_y_pos() == 0
    &&& before.writer() matches Some(w) ==> after.writer()->Some_0.fb() == w.fb()
    &&& before.writer() is None ==> after.writer()->Some_0.fb() == layer_fb
}

/// What [`print`] does with the text `s`: the writer stays valid and has written `s`.
pub open spec fn print_post<'a>(before: Stdout<'a>, after: Stdout<'a>, s: Seq<char>) -> bool {
    after.writer() matches Some(w) && w.wf() && w.state() == write_chars::<FramebufferAl88>(
        before.writer()->Some_0.state(),
        s,
    )
}

/// Once standard output is initialized it stays so: in any run of calls of [`init`] and
/// [`print`] (a print needs it initialized), every state after a call is initialized, so
/// [`is_initialized`] reports `true` from the first call on.
pub proof fn lemma_initialized_stays_initialized<'a>(
    states: Seq<Stdout<'a>>,
    layers: Seq<FramebufferAl88>,
    texts: Seq<Seq<char>>,
)
    requires
        layers.len() == states.len(),
        texts.len() == states.len(),
        forall|i: int|
            0 <= i < states.len() - 1 ==> init_post(states[i], #[trigger] states[i + 1], layers[i])
                || print_post(states[i], states[i + 1], texts[i]),
    ensures
        forall|j: int| 1 <= j < states.len() ==> initialized(#[trigger] states[j]),
{
    assert forall|j: int| 1 <= j < states.len() implies initialized(#[trigger] states[j]) by {
        assert(states[(j - 1) + 1] == states[j]);
    }
}

/// Initialize the passed layer as standard output, with the cursor at the top left corner.
///
/// Subsequent calls to [`print`] will then print to the layer. Once standard output is
/// initialized, it keeps its layer: a later call only moves the cursor back to the top left
/// corner.
pub fn init<'a>(stdout: &mut Stdout<'a>, layer: &'a mut Layer<FramebufferAl88>)
    requires
        old(layer).fb().wf(),
        old(stdout).writer() matches Some(w) ==> w.fb().wf(),
    ensures
        init_post(*old(stdout), *final(stdout), old(layer).fb()),
        initialized(*final(stdout)),
{
    match stdout.writer {
        Some(ref mut w) => {
            w.x_pos = 0;
            w.y_pos = 0;
        },
        None => {
            stdout.writer = Some(layer.text_writer());
        },
    }
}

/// Whether `s` can be printed: standard output is initialized, its cursor leaves room for
/// the lines of `s`, and every character of `s` is drawn inside the screen.
pub open spec fn printable<'a>(stdout: Stdout<'a>, s: Seq<char>) -> bool {
    stdout.writer() matches Some(w) && w.wf() && w.spec_y_pos() + 8 * s.len() + 8 <= usize::MAX
        && chars_fit::<FramebufferAl88>(w.state(), s)
}

/// Checks whether `s` can be printed (see [`printable`]).
pub fn can_print<'a>(stdout: &Stdout<'a>, s: &str) -> (r: bool)
    requires
        stdout.writer() matches Some(w) ==> w.wf(),
    ensures
        r == printable(*stdout, s@),
{
    match stdout.writer {
        Some(ref w) => {
            let n = s.unicode_len();
            if n > (usize::MAX - 8) / 8 || w.y_pos > usize::MAX - 8 - 8 * n {
                return false;
            }
            w.fits(s)
        },
        None => false,
    }
}

/// Print to the standard output.
///
/// The standard output must be initialized, and the text may hold printable ASCII
/// characters, newlines and carriage returns, each drawn inside the screen (see
/// [`can_print`]).
pub fn print<'a>(stdout: &mut Stdout<'a>, s: &str)
    requires
        printable(*old(stdout), s@),
        forall|i: int| 0 <= i < s@.len() ==> writable(#[trigger] s@[i]),
    ensures
        print_post(*old(stdout), *final(stdout), s@),
        initialized(*final(stdout)),
{
    match stdout.writer {
        Some(ref mut w) => {
            w.write_str(s);
        },
        None => {},
    }
}

/// Prints `s` to the standard output (see [`print`]) if it can be printed, and returns
/// whether it did; otherwise nothing changes.
pub fn try_print<'a>(stdout: &mut Stdout<'a>, s: &str) -> (r: bool)
    requires
        old(stdout).writer() matches Some(w) ==> w.wf(),
    ensures
        r == (printable(*old(stdout), s@) && forall|i: int|
            0 <= i < s@.len() ==> writable(#[trigger] s@[i])),
        r ==> print_post(*old(stdout), *final(stdout), s@),
        !r ==> *final(stdout) == *old(stdout),
{
    if !can_print(stdout, s) || !all_writable(s) {
        return false;
    }
    print(stdout, s);
    true
}

/// Returns whether the [`init`] function has already been called.
pub fn is_initialized(stdout: &Stdout) -> (r: bool)
    ensures
        r == initialized(*stdout),
{
    stdout.writer.is_some()
}

} // verus!

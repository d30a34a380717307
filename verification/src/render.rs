//! The per-frame rendering protocol: what one render call does for every
//! possible outcome of acquiring the next presentable texture, and how an
//! ordered collection of drawables composes into the frame's single render
//! pass.
//!
//! The application layer acquires the texture from the real surface and
//! reports the outcome; `render` decides everything that follows. On a
//! successful acquisition it records exactly one render pass — a clear to
//! the fixed background color followed by every drawable's commands in
//! insertion order — which the application encodes, submits and presents
//! as one command buffer. On a recoverable failure it records nothing, so
//! a frame is either painted whole or skipped whole.

use crate::state::UIGraphicsState;
use crate::surface::SurfaceConfig;
use crate::text::TextSection;
use vstd::prelude::*;

verus! {

/// An RGBA color with each channel in thousandths of full intensity
/// (0 ..= 1000). The application layer divides by 1000 when handing the
/// color to the graphics API.
#[derive(Clone, Copy, PartialEq, Eq, Structural, Debug)]
pub struct Color {
    pub r: u32,
    pub g: u32,
    pub b: u32,
    pub a: u32,
}

/// The fixed background every frame is cleared to: a dark desaturated
/// blue, RGBA (0.1, 0.2, 0.3, 1.0) in channel units.
pub open spec fn clear_color_spec() -> Color {
    Color { r: 100, g: 200, b: 300, a: 1000 }
}

/// The executable value of the fixed clear color.
pub fn clear_color() -> (c: Color)
    ensures
        c == clear_color_spec(),
{
    Color { r: 100, g: 200, b: 300, a: 1000 }
}

/// One drawing command recorded into a render pass. Text is the only
/// drawable content so far; future shapes add variants.
#[derive(Clone, PartialEq, Eq, Debug)]
pub enum DrawCommand {
    Text(TextSection),
}

/// A model of one open render pass: the color its single color attachment
/// was cleared to, and the commands recorded into it, in order. The store
/// operation always persists the result.
#[derive(Clone, PartialEq, Eq, Debug)]
pub struct RenderPass {
    pub clear: Color,
    pub commands: Vec<DrawCommand>,
}

impl RenderPass {
    /// Open a pass over a freshly cleared attachment: cleared to the fixed
    /// background color, no commands recorded yet.
    pub fn begin() -> (p: Self)
        ensures
            p.clear == clear_color_spec(),
            p.commands@ == Seq::<DrawCommand>::empty(),
    {
        RenderPass { clear: clear_color(), commands: Vec::new() }
    }

    /// Record one command at the end of the pass.
    pub fn push(&mut self, cmd: DrawCommand)
        ensures
            final(self).clear == old(self).clear,
            final(self).commands@ == old(self).commands@.push(cmd),
    {
        self.commands.push(cmd);
    }
}

/// The drawable capability: content that can append its draw commands into
/// an open render pass.
///
/// A drawable may mutate its own internal state while drawing, but it must
/// only append to the pass — everything already recorded stays, in place
/// and in order, and the clear color is untouched — and what it appends is
/// exactly `commands_spec`, which drawing itself does not change.
pub trait Drawable: Sized {
    /// The commands this drawable appends to a pass, given its current
    /// state.
    spec fn commands_spec(&self) -> Seq<DrawCommand>;

    /// Append this drawable's commands into the open pass, in order, after
    /// everything already recorded.
    fn draw(&mut self, pass: &mut RenderPass)
        ensures
            final(pass).clear == old(pass).clear,
            final(pass).commands@ == old(pass).commands@ + old(self).commands_spec(),
            final(self).commands_spec() == old(self).commands_spec(),
    ;
}

/// The commands of a whole drawable collection: each drawable's commands,
/// in insertion order.
pub open spec fn commands_of_all<T: Drawable>(s: Seq<T>) -> Seq<DrawCommand>
    decreases s.len(),
{
    if s.len() == 0 {
        Seq::empty()
    } else {
        commands_of_all(s.drop_last()) + s.last().commands_spec()
    }
}

proof fn lemma_commands_of_all_congruent<T: Drawable>(s1: Seq<T>, s2: Seq<T>)
    requires
        s1.len() == s2.len(),
        forall|i: int| 0 <= i < s1.len() ==> s1[i].commands_spec() == s2[i].commands_spec(),
    ensures
        commands_of_all(s1) == commands_of_all(s2),
    decreases s1.len(),
{
    if s1.len() > 0 {
        lemma_commands_of_all_congruent(s1.drop_last(), s2.drop_last());
    }
}

/// An ordered collection of drawables is itself drawable: its members draw
/// sequentially against the same pass, in insertion order, so later
/// members paint over earlier ones.
impl<T: Drawable> Drawable for Vec<T> {
    open spec fn commands_spec(&self) -> Seq<DrawCommand> {
        commands_of_all(self@)
    }

    fn draw(&mut self, pass: &mut RenderPass) {
        let n: usize = self.len();
        let mut i: usize = 0;
        while i < n
            invariant
                n == self@.len(),
                self@.len() == old(self)@.len(),
                0 <= i <= n,
                pass.clear == old(pass).clear,
                forall|j: int|
                    0 <= j < n ==> self@[j].commands_spec() == old(self)@[j].commands_spec(),
                pass.commands@ == old(pass).commands@ + commands_of_all(old(self)@.take(i as int)),
            decreases n - i,
        {
            let ghost prev = self@;
            let o = &mut self[i];
            o.draw(pass);
            proof {
                assert(self@ == prev.update(i as int, *o));
                assert(old(self)@.take(i as int + 1).drop_last() =~= old(self)@.take(i as int));
                assert(old(self)@.take(i as int + 1).last() == old(self)@[i as int]);
            }
            i = i + 1;
        }
        proof {
            assert(old(self)@.take(n as int) =~= old(self)@);
            lemma_commands_of_all_congruent(self@, old(self)@);
        }
    }
}

/// Drawable order preservation: the command stream of a drawable
/// collection splits exactly where the collection does — members draw in
/// insertion order, each one whole, with no reordering.
pub proof fn lemma_commands_of_all_append<T: Drawable>(s1: Seq<T>, s2: Seq<T>)
    ensures
        commands_of_all(s1 + s2) == commands_of_all(s1) + commands_of_all(s2),
    decreases s2.len(),
{
    if s2.len() == 0 {
        assert(s1 + s2 =~= s1);
        assert(commands_of_all(s1) + Seq::<DrawCommand>::empty() =~= commands_of_all(s1));
    } else {
        assert((s1 + s2).drop_last() =~= s1 + s2.drop_last());
        assert((s1 + s2).last() == s2.last());
        lemma_commands_of_all_append(s1, s2.drop_last());
        assert(commands_of_all(s1) + commands_of_all(s2.drop_last()) + s2.last().commands_spec()
            =~= commands_of_all(s1) + (commands_of_all(s2.drop_last())
            + s2.last().commands_spec()));
    }
}

/// Every way an attempt to acquire the next presentable texture can end.
/// The application layer maps the graphics API's acquisition result onto
/// this, one variant per case.
#[derive(Clone, Copy, PartialEq, Eq, Structural, Debug)]
pub enum AcquireOutcome {
    /// A presentable texture was acquired; the frame can be drawn.
    Acquired,
    /// Acquisition timed out; the next redraw will retry.
    Timeout,
    /// The surface no longer matches the window; it must be reconfigured.
    Outdated,
    /// The surface was lost; it must be reconfigured.
    Lost,
    /// The driver is out of memory; no further rendering is safe.
    OutOfMemory,
}

/// The one unrecoverable per-frame failure, propagated to the caller.
#[derive(Clone, Copy, PartialEq, Eq, Structural, Debug)]
pub enum RenderError {
    OutOfMemory,
}

/// What one render call asks the application layer to do next.
#[derive(Clone, PartialEq, Eq, Debug)]
pub enum FrameResult {
    /// Encode the recorded pass, submit it, and present the acquired
    /// texture: exactly one whole frame.
    Presented(RenderPass),
    /// Skip this frame; the next redraw notification will retry.
    SkippedRetry,
    /// Reapply this configuration to the surface, then skip this frame;
    /// the next redraw will acquire against the fresh configuration.
    SkippedReconfigured(SurfaceConfig),
}

/// Whether this acquisition outcome presents a frame: only a successful
/// acquisition does.
pub open spec fn presents_frame(o: AcquireOutcome) -> bool {
    o is Acquired
}

/// Whether this acquisition outcome calls for reapplying the surface
/// configuration before the frame is skipped.
pub open spec fn needs_reconfigure(o: AcquireOutcome) -> bool {
    o is Outdated || o is Lost
}

/// Whether this acquisition outcome is unrecoverable. Everything else is
/// handled inside the render call and never surfaces past it.
pub open spec fn is_fatal(o: AcquireOutcome) -> bool {
    o is OutOfMemory
}

/// Recoverable-failure idempotence: in a run of frames where every
/// acquisition before the last reports the surface outdated or lost and
/// the last one succeeds, no outcome is fatal — so every render call
/// returns without an application-level error, each call before the last
/// asking for the same reconfigure-and-skip of the unchanged context —
/// and no frame is presented until the last call, which presents
/// normally.
pub proof fn lemma_recoverable_failure_idempotence(outcomes: Seq<AcquireOutcome>)
    requires
        outcomes.len() > 0,
        forall|i: int| 0 <= i < outcomes.len() - 1 ==> needs_reconfigure(outcomes[i]),
        outcomes.last() is Acquired,
    ensures
        forall|i: int| 0 <= i < outcomes.len() ==> !is_fatal(outcomes[i]),
        forall|i: int| 0 <= i < outcomes.len() - 1 ==> !presents_frame(outcomes[i]),
        presents_frame(outcomes.last()),
{
}

/// Render one frame, given the outcome of acquiring the next presentable
/// texture.
///
/// Frame atomicity: exactly on a successful acquisition the result is one
/// `Presented` pass holding the fixed clear and all of the drawable's
/// commands — never part of them; on every recoverable failure nothing is
/// recorded and the call still succeeds. A timeout skips; an outdated or
/// lost surface yields the context's current configuration to reapply
/// (its dimensions are the last-known window size) and skips, leaving the
/// context unchanged, however often it recurs. Only an out-of-memory
/// report is an error.
pub fn render<T: Drawable>(state: &UIGraphicsState, outcome: AcquireOutcome, object: &mut T) -> (r:
    Result<FrameResult, RenderError>)
    requires
        state.wf(),
    ensures
        r is Err <==> is_fatal(outcome),
        (r matches Ok(f) && f is Presented) <==> presents_frame(outcome),
        (r matches Ok(f) && f is SkippedReconfigured) <==> needs_reconfigure(outcome),
        (r matches Ok(f) && f is SkippedRetry) <==> outcome is Timeout,
        outcome is Acquired ==> (r matches Ok(f) && f matches FrameResult::Presented(pass)
            && pass.clear == clear_color_spec() && pass.commands@ == old(object).commands_spec()
            && final(object).commands_spec() == old(object).commands_spec()),
        outcome is Timeout ==> (r matches Ok(f) && f is SkippedRetry
            && *final(object) == *old(object)),
        (outcome is Outdated || outcome is Lost) ==> (r matches Ok(f)
            && f matches FrameResult::SkippedReconfigured(c) && c == state.config
            && *final(object) == *old(object)),
        outcome is OutOfMemory ==> (r matches Err(e) && e == RenderError::OutOfMemory
            && *final(object) == *old(object)),
{
    match outcome {
        AcquireOutcome::Acquired => {
            let mut pass = RenderPass::begin();
            object.draw(&mut pass);
            proof {
                assert(pass.commands@ =~= old(object).commands_spec());
            }
            Ok(FrameResult::Presented(pass))
        },
        AcquireOutcome::Timeout => Ok(FrameResult::SkippedRetry),
        AcquireOutcome::Outdated | AcquireOutcome::Lost => Ok(
            FrameResult::SkippedReconfigured(state.config()),
        ),
        AcquireOutcome::OutOfMemory => Err(RenderError::OutOfMemory),
    }
}

} // verus!

//! The pixel sink and the drawing commands that a style hands to it.
use vstd::prelude::*;

use crate::geometry::{Pixel, Rectangle};

verus! {

/// The meaning of a drawing command.
pub enum DrawOp<C> {
    /// Fill a rectangle with one color.
    FillSolid(Rectangle, C),
    /// Fill a rectangle row by row with the given colors, one per pixel.
    FillContiguous(Rectangle, Seq<C>),
    /// Draw the given pixels, in order.
    DrawPixels(Seq<Pixel<C>>),
}

/// One call to a pixel sink.
#[derive(Clone, PartialEq, Eq, Debug)]
pub enum DrawCommand<C> {
    /// Fill a rectangle with one color.
    FillSolid(Rectangle, C),
    /// Fill a rectangle row by row with the given colors, one per pixel.
    FillContiguous(Rectangle, Vec<C>),
    /// Draw the given pixels, in order.
    DrawPixels(Vec<Pixel<C>>),
}

impl<C> View for DrawCommand<C> {
    type V = DrawOp<C>;

    open spec fn view(&self) -> DrawOp<C> {
        match self {
            DrawCommand::FillSolid(area, color) => DrawOp::FillSolid(*area, *color),
            DrawCommand::FillContiguous(area, colors) => DrawOp::FillContiguous(*area, colors@),
            DrawCommand::DrawPixels(pixels) => DrawOp::DrawPixels(pixels@),
        }
    }
}

/// The meaning of a list of commands.
pub open spec fn ops_of<C>(cmds: Seq<DrawCommand<C>>) -> Seq<DrawOp<C>> {
    cmds.map_values(|c: DrawCommand<C>| c@)
}

/// The meaning of an optional command.
pub open spec fn opt_ops<C>(cmd: Option<DrawCommand<C>>) -> Seq<DrawOp<C>> {
    match cmd {
        Some(c) => seq![c@],
        None => Seq::empty(),
    }
}

/// Appends an optional command to a list of commands.
pub(crate) fn push_command<C>(cmds: &mut Vec<DrawCommand<C>>, cmd: Option<DrawCommand<C>>)
    ensures
        ops_of(final(cmds)@) == ops_of(old(cmds)@) + opt_ops(cmd),
{
    match cmd {
        Some(c) => {
            cmds.push(c);
            assert(ops_of(cmds@) =~= ops_of(old(cmds)@) + opt_ops(cmd));
        },
        None => {
            assert(ops_of(cmds@) =~= ops_of(old(cmds)@) + opt_ops(cmd));
        },
    }
}

/// A destination for pixels: a display, a frame buffer or a recorder.
///
/// `drawn` is the sequence of calls that the sink has carried out, in
/// order. A call that succeeds appends itself to it; a call that fails
/// reports the sink's own failure through `Self::Error` and is not counted
/// as carried out. What was drawn before a failure stays drawn.
pub trait DrawTarget<C> {
    type Error;

    /// The calls carried out so far.
    spec fn drawn(&self) -> Seq<DrawOp<C>>;

    /// Fills `area` with `color`.
    fn fill_solid(&mut self, area: &Rectangle, color: C) -> (r: Result<(), Self::Error>)
        ensures
            r is Ok ==> final(self).drawn() == old(self).drawn().push(
                DrawOp::FillSolid(*area, color),
            ),
            r is Err ==> final(self).drawn() == old(self).drawn(),
    ;

    /// Fills `area` row by row with `colors`, one per pixel.
    fn fill_contiguous(&mut self, area: &Rectangle, colors: &[C]) -> (r: Result<(), Self::Error>)
        ensures
            r is Ok ==> final(self).drawn() == old(self).drawn().push(
                DrawOp::FillContiguous(*area, colors@),
            ),
            r is Err ==> final(self).drawn() == old(self).drawn(),
    ;

    /// Draws each of `pixels`, in order.
    fn draw_iter(&mut self, pixels: &[Pixel<C>]) -> (r: Result<(), Self::Error>)
        ensures
            r is Ok ==> final(self).drawn() == old(self).drawn().push(DrawOp::DrawPixels(pixels@)),
            r is Err ==> final(self).drawn() == old(self).drawn(),
    ;
}

/// Hands one command to the sink.
pub fn issue<C: Copy, D: DrawTarget<C>>(cmd: &DrawCommand<C>, target: &mut D) -> (r: Result<
    (),
    D::Error,
>)
    ensures
        r is Ok ==> final(target).drawn() == old(target).drawn().push(cmd@),
        r is Err ==> final(target).drawn() == old(target).drawn(),
{
    match cmd {
        DrawCommand::FillSolid(area, color) => target.fill_solid(area, *color),
        DrawCommand::FillContiguous(area, colors) => target.fill_contiguous(area, colors.as_slice()),
        DrawCommand::DrawPixels(pixels) => target.draw_iter(pixels.as_slice()),
    }
}

/// Hands an optional command to the sink; without one, calls nothing and
/// succeeds.
pub fn issue_optional<C: Copy, D: DrawTarget<C>>(cmd: Option<DrawCommand<C>>, target: &mut D) -> (r:
    Result<(), D::Error>)
    ensures
        r is Ok ==> final(target).drawn() == old(target).drawn() + opt_ops(cmd),
        r is Err ==> cmd is Some && final(target).drawn() == old(target).drawn(),
        cmd is None ==> r is Ok,
{
    match cmd {
        Some(c) => {
            let r = issue(&c, target);
            assert(old(target).drawn().push(c@) =~= old(target).drawn() + opt_ops(cmd));
            r
        },
        None => {
            assert(old(target).drawn() + opt_ops(cmd) =~= old(target).drawn());
            Ok(())
        },
    }
}

/// Hands the commands to the sink in order, and stops at the first failure,
/// which it returns: then the commands before the failing one are drawn and
/// no later one is tried. With no command, it calls nothing and succeeds.
pub fn issue_all<C: Copy, D: DrawTarget<C>>(cmds: &Vec<DrawCommand<C>>, target: &mut D) -> (r:
    Result<(), D::Error>)
    ensures
        r is Ok ==> final(target).drawn() == old(target).drawn() + ops_of(cmds@),
        r is Err ==> exists|k: int|
            0 <= k < cmds@.len() && final(target).drawn() == old(target).drawn() + ops_of(
                #[trigger] cmds@.take(k),
            ),
        cmds@.len() == 0 ==> r is Ok,
{
    let ghost start = target.drawn();
    let mut i: usize = 0;
    assert(ops_of(cmds@.take(0)) =~= Seq::<DrawOp<C>>::empty());
    assert(start + ops_of(cmds@.take(0)) =~= start);
    while i < cmds.len()
        invariant
            i <= cmds@.len(),
            start == old(target).drawn(),
            target.drawn() == start + ops_of(cmds@.take(i as int)),
        decreases cmds@.len() - i,
    {
        let r = issue(&cmds[i], target);
        if r.is_err() {
            return r;
        }
        assert(ops_of(cmds@.take(i + 1)) =~= ops_of(cmds@.take(i as int)).push(cmds@[i as int]@));
        assert(target.drawn() =~= start + ops_of(cmds@.take(i + 1)));
        i = i + 1;
    }
    assert(cmds@.take(i as int) =~= cmds@);
    Ok(())
}

/// The failure of a full [`CommandLog`].
#[derive(Copy, Clone, PartialEq, Eq, Debug)]
pub struct LogFull;

/// A sink that records the calls it receives, up to `capacity` of them; a
/// call beyond that fails with `LogFull` and is not recorded.
#[derive(Clone, PartialEq, Eq, Debug)]
pub struct CommandLog<C> {
    /// The calls recorded so far, in order.
    pub commands: Vec<DrawCommand<C>>,
    /// How many calls the log accepts.
    pub capacity: usize,
}

impl<C: Copy> CommandLog<C> {
    /// Creates an empty log that accepts `capacity` calls.
    pub fn new(capacity: usize) -> (r: Self)
        ensures
            r.commands@.len() == 0,
            r.capacity == capacity,
    {
        CommandLog { commands: Vec::new(), capacity }
    }

    fn record(&mut self, cmd: DrawCommand<C>) -> (r: Result<(), LogFull>)
        ensures
            r is Ok ==> ops_of(final(self).commands@) == ops_of(old(self).commands@).push(cmd@),
            r is Err ==> final(self).commands@ == old(self).commands@,
            r is Ok <==> old(self).commands@.len() < old(self).capacity,
            final(self).capacity == old(self).capacity,
    {
        if self.commands.len() < self.capacity {
            self.commands.push(cmd);
            assert(ops_of(self.commands@) =~= ops_of(old(self).commands@).push(cmd@));
            Ok(())
        } else {
            Err(LogFull)
        }
    }
}

impl<C: Copy> DrawTarget<C> for CommandLog<C> {
    type Error = LogFull;

    open spec fn drawn(&self) -> Seq<DrawOp<C>> {
        ops_of(self.commands@)
    }

    fn fill_solid(&mut self, area: &Rectangle, color: C) -> (r: Result<(), LogFull>) {
        self.record(DrawCommand::FillSolid(*area, color))
    }

    fn fill_contiguous(&mut self, area: &Rectangle, colors: &[C]) -> (r: Result<(), LogFull>) {
        self.record(DrawCommand::FillContiguous(*area, vstd::slice::slice_to_vec(colors)))
    }

    fn draw_iter(&mut self, pixels: &[Pixel<C>]) -> (r: Result<(), LogFull>) {
        self.record(DrawCommand::DrawPixels(vstd::slice::slice_to_vec(pixels)))
    }
}

} // verus!

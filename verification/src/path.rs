//! Vector paths: ordered move / line / cubic-Bezier / close commands.

use vstd::prelude::*;
use crate::geom::PathPoint;

verus! {

/// One path command. A cubic segment runs from the current point to `end`,
/// bending towards the control points `c1` and `c2`.
#[derive(Clone, Copy, PartialEq, Eq, Debug)]
pub enum PathCmd {
    MoveTo { p: PathPoint },
    LineTo { p: PathPoint },
    CubicTo { c1: PathPoint, c2: PathPoint, end: PathPoint },
    Close,
}

/// A path under construction: the commands in drawing order.
#[derive(Clone, PartialEq, Eq, Debug)]
pub struct Path {
    pub cmds: Vec<PathCmd>,
}

impl View for Path {
    type V = Seq<PathCmd>;

    open spec fn view(&self) -> Seq<PathCmd> {
        self.cmds@
    }
}

impl Path {
    pub fn empty() -> (p: Path)
        ensures
            p@ == Seq::<PathCmd>::empty(),
    {
        let p = Path { cmds: Vec::new() };
        proof {
            assert(p@ =~= Seq::<PathCmd>::empty());
        }
        p
    }

    pub fn move_to(&mut self, p: PathPoint)
        ensures
            final(self)@ == old(self)@.push(PathCmd::MoveTo { p }),
    {
        self.cmds.push(PathCmd::MoveTo { p });
    }

    pub fn line_to(&mut self, p: PathPoint)
        ensures
            final(self)@ == old(self)@.push(PathCmd::LineTo { p }),
    {
        self.cmds.push(PathCmd::LineTo { p });
    }

    pub fn cubic_to(&mut self, c1: PathPoint, c2: PathPoint, end: PathPoint)
        ensures
            final(self)@ == old(self)@.push(PathCmd::CubicTo { c1, c2, end }),
    {
        self.cmds.push(PathCmd::CubicTo { c1, c2, end });
    }

    pub fn close(&mut self)
        ensures
            final(self)@ == old(self)@.push(PathCmd::Close),
    {
        self.cmds.push(PathCmd::Close);
    }
}

} // verus!

//! Vector path data: the typed counterpart of the engine's command and
//! point buffer pair, and its encoding to and from the raw command bytes.

use vstd::prelude::*;

verus! {

/// One of the engine's four path command kinds.
///
/// Each variant consumes a fixed number of points from the parallel
/// point buffer: `Close` none, `MoveTo` and `LineTo` one, `CubicTo` three.
#[derive(Debug, Clone, Copy, PartialEq, Eq, Hash, Structural)]
pub enum PathCommand {
    /// Close the current sub-path back to its start point.
    Close,
    /// Begin a new sub-path at the next point.
    MoveTo,
    /// Straight line to the next point.
    LineTo,
    /// Cubic Bezier curve through the next two control points to the third.
    CubicTo,
}

/// Number of points a command consumes.
pub open spec fn arity(c: PathCommand) -> nat {
    match c {
        PathCommand::Close => 0,
        PathCommand::MoveTo => 1,
        PathCommand::LineTo => 1,
        PathCommand::CubicTo => 3,
    }
}

/// The engine's `Tvg_Path_Command` byte for a command.
pub open spec fn command_code(c: PathCommand) -> u8 {
    match c {
        PathCommand::Close => 0,
        PathCommand::MoveTo => 1,
        PathCommand::LineTo => 2,
        PathCommand::CubicTo => 3,
    }
}

/// The command a raw byte stands for, if any.
pub open spec fn command_of_code(b: u8) -> Option<PathCommand> {
    if b == 0 {
        Some(PathCommand::Close)
    } else if b == 1 {
        Some(PathCommand::MoveTo)
    } else if b == 2 {
        Some(PathCommand::LineTo)
    } else if b == 3 {
        Some(PathCommand::CubicTo)
    } else {
        None
    }
}

impl PathCommand {
    /// Number of points this command consumes from a paired point buffer.
    pub fn points_consumed(self) -> (n: usize)
        ensures
            n == arity(self),
            self == PathCommand::Close ==> n == 0,
            self == PathCommand::MoveTo ==> n == 1,
            self == PathCommand::LineTo ==> n == 1,
            self == PathCommand::CubicTo ==> n == 3,
    {
        match self {
            PathCommand::Close => 0,
            PathCommand::MoveTo => 1,
            PathCommand::LineTo => 1,
            PathCommand::CubicTo => 3,
        }
    }

    /// The raw command byte handed to the engine.
    pub fn to_raw(self) -> (b: u8)
        ensures
            b == command_code(self),
            self == PathCommand::Close ==> b == 0,
            self == PathCommand::MoveTo ==> b == 1,
            self == PathCommand::LineTo ==> b == 2,
            self == PathCommand::CubicTo ==> b == 3,
    {
        match self {
            PathCommand::Close => 0,
            PathCommand::MoveTo => 1,
            PathCommand::LineTo => 2,
            PathCommand::CubicTo => 3,
        }
    }

    /// Decodes a raw command byte; `None` for any byte outside the four kinds.
    pub fn from_raw(b: u8) -> (r: Option<PathCommand>)
        ensures
            r == command_of_code(b),
            b == 0 ==> r == Some(PathCommand::Close),
            b == 1 ==> r == Some(PathCommand::MoveTo),
            b == 2 ==> r == Some(PathCommand::LineTo),
            b == 3 ==> r == Some(PathCommand::CubicTo),
            b > 3 ==> r is None,
    {
        match b {
            0 => Some(PathCommand::Close),
            1 => Some(PathCommand::MoveTo),
            2 => Some(PathCommand::LineTo),
            3 => Some(PathCommand::CubicTo),
            _ => None,
        }
    }
}

/// One step in a path traversal, owning copies of its points.
#[derive(Debug, Clone, Copy, PartialEq)]
pub enum Segment<P> {
    /// Close the current sub-path.
    Close,
    /// Start a new sub-path at the point.
    MoveTo(P),
    /// Straight line to the point.
    LineTo(P),
    /// Cubic Bezier curve through `c1` and `c2` to `end`.
    CubicTo {
        /// First control point.
        c1: P,
        /// Second control point.
        c2: P,
        /// End point.
        end: P,
    },
}

/// The command kind of a segment.
pub open spec fn segment_command<P>(s: Segment<P>) -> PathCommand {
    match s {
        Segment::Close => PathCommand::Close,
        Segment::MoveTo(_) => PathCommand::MoveTo,
        Segment::LineTo(_) => PathCommand::LineTo,
        Segment::CubicTo { .. } => PathCommand::CubicTo,
    }
}

/// The points a segment carries, in buffer order.
pub open spec fn segment_points<P>(s: Segment<P>) -> Seq<P> {
    match s {
        Segment::Close => seq![],
        Segment::MoveTo(p) => seq![p],
        Segment::LineTo(p) => seq![p],
        Segment::CubicTo { c1, c2, end } => seq![c1, c2, end],
    }
}

/// The segment made of command `c` and the points of `pts` from index `j`.
pub open spec fn segment_at<P>(c: PathCommand, pts: Seq<P>, j: int) -> Segment<P> {
    match c {
        PathCommand::Close => Segment::Close,
        PathCommand::MoveTo => Segment::MoveTo(pts[j]),
        PathCommand::LineTo => Segment::LineTo(pts[j]),
        PathCommand::CubicTo => Segment::CubicTo { c1: pts[j], c2: pts[j + 1], end: pts[j + 2] },
    }
}

/// Segments produced by walking `cmds` from index `i` with the point cursor
/// at `j`: one segment per command, stopping early at the first command
/// whose points are not all there.
pub open spec fn segments_from<P>(cmds: Seq<PathCommand>, pts: Seq<P>, i: int, j: int) -> Seq<Segment<P>>
    decreases cmds.len() - i,
{
    if i < 0 || i >= cmds.len() || j < 0 {
        seq![]
    } else if j + arity(cmds[i]) > pts.len() {
        seq![]
    } else {
        seq![segment_at(cmds[i], pts, j)] + segments_from(cmds, pts, i + 1, j + arity(cmds[i]))
    }
}

/// Number of points the commands of `cmds` from index `i` on consume.
pub open spec fn points_needed_from(cmds: Seq<PathCommand>, i: int) -> nat
    decreases cmds.len() - i,
{
    if i < 0 || i >= cmds.len() {
        0
    } else {
        arity(cmds[i]) + points_needed_from(cmds, i + 1)
    }
}

/// Total number of points a command sequence consumes.
pub open spec fn points_needed(cmds: Seq<PathCommand>) -> nat {
    points_needed_from(cmds, 0)
}

/// All points carried by a sequence of segments, in order.
pub open spec fn flatten_points<P>(segs: Seq<Segment<P>>) -> Seq<P>
    decreases segs.len(),
{
    if segs.len() == 0 {
        seq![]
    } else {
        segment_points(segs[0]) + flatten_points(segs.drop_first())
    }
}

/// The commands that a raw command buffer decodes to, unknown bytes dropped.
pub open spec fn decode_commands(raw: Seq<u8>) -> Seq<PathCommand>
    decreases raw.len(),
{
    if raw.len() == 0 {
        seq![]
    } else {
        let rest = decode_commands(raw.drop_last());
        match command_of_code(raw.last()) {
            Some(c) => rest.push(c),
            None => rest,
        }
    }
}

/// Vector path data: commands paired with the points they consume.
#[derive(Debug, Clone, PartialEq)]
pub struct Path<P> {
    /// Sequence of path operations.
    pub commands: Vec<PathCommand>,
    /// Supporting points, consumed in order by `commands`.
    pub points: Vec<P>,
}

impl<P: Copy> Path<P> {
    /// The segments of this path, as `segments` walks them.
    pub open spec fn spec_segments(&self) -> Seq<Segment<P>> {
        segments_from(self.commands@, self.points@, 0, 0)
    }

    /// Empty path.
    pub fn new() -> (p: Self)
        ensures
            p.commands@.len() == 0,
            p.points@.len() == 0,
    {
        Path { commands: Vec::new(), points: Vec::new() }
    }

    /// Number of commands in the path.
    pub fn command_count(&self) -> (n: usize)
        ensures
            n == self.commands@.len(),
    {
        self.commands.len()
    }

    /// Number of points in the path.
    pub fn point_count(&self) -> (n: usize)
        ensures
            n == self.points@.len(),
    {
        self.points.len()
    }

    /// Returns `true` if the path holds no commands.
    pub fn is_empty(&self) -> (b: bool)
        ensures
            b == (self.commands@.len() == 0),
    {
        self.commands.len() == 0
    }

    /// Typed segments: each bundles a command with the points it consumes.
    /// Walking stops at the first command whose points run out.
    pub fn segments(&self) -> (r: Vec<Segment<P>>)
        ensures
            r@ == self.spec_segments(),
    {
        let mut out: Vec<Segment<P>> = Vec::new();
        let n: usize = self.commands.len();
        let m: usize = self.points.len();
        let mut i: usize = 0;
        let mut j: usize = 0;
        while i < n
            invariant
                n == self.commands@.len(),
                m == self.points@.len(),
                i <= n,
                j <= m,
                out@ + segments_from(self.commands@, self.points@, i as int, j as int)
                    == segments_from(self.commands@, self.points@, 0, 0),
            decreases n - i,
        {
            let c = self.commands[i];
            let k: usize = c.points_consumed();
            if k > m - j {
                assert(segments_from(self.commands@, self.points@, i as int, j as int) =~= seq![]);
                assert(out@ =~= out@ + seq![]);
                return out;
            }
            let seg = match c {
                PathCommand::Close => Segment::Close,
                PathCommand::MoveTo => Segment::MoveTo(self.points[j]),
                PathCommand::LineTo => Segment::LineTo(self.points[j]),
                PathCommand::CubicTo => Segment::CubicTo {
                    c1: self.points[j],
                    c2: self.points[j + 1],
                    end: self.points[j + 2],
                },
            };
            proof {
                let rest = segments_from(self.commands@, self.points@, i + 1, j + k);
                assert(segments_from(self.commands@, self.points@, i as int, j as int)
                    == seq![seg] + rest);
                assert(out@.push(seg) + rest =~= out@ + (seq![seg] + rest));
            }
            out.push(seg);
            i = i + 1;
            j = j + k;
        }
        assert(segments_from(self.commands@, self.points@, i as int, j as int) =~= seq![]);
        assert(out@ =~= out@ + seq![]);
        out
    }
}

impl<P> Default for Path<P> {
    /// The empty path.
    fn default() -> (p: Self)
        ensures
            p.commands@.len() == 0,
            p.points@.len() == 0,
    {
        Path { commands: Vec::new(), points: Vec::new() }
    }
}

impl<P> Path<P> {
    /// Builds a path from a raw command buffer and its points, as read back
    /// from the engine: command bytes outside the four kinds are dropped
    /// while the points are kept whole.
    pub fn from_raw(raw_commands: &[u8], points: Vec<P>) -> (p: Path<P>)
        ensures
            p.commands@ == decode_commands(raw_commands@),
            p.points@ == points@,
    {
        let mut commands: Vec<PathCommand> = Vec::new();
        let n: usize = raw_commands.len();
        let mut i: usize = 0;
        while i < n
            invariant
                n == raw_commands@.len(),
                i <= n,
                commands@ == decode_commands(raw_commands@.take(i as int)),
            decreases n - i,
        {
            proof {
                let t = raw_commands@.take(i + 1);
                assert(t.drop_last() =~= raw_commands@.take(i as int));
                assert(t.last() == raw_commands@[i as int]);
            }
            match PathCommand::from_raw(raw_commands[i]) {
                Some(c) => commands.push(c),
                None => {},
            }
            i = i + 1;
        }
        assert(raw_commands@.take(n as int) =~= raw_commands@);
        Path { commands, points }
    }

    /// The raw command bytes handed to the engine for this path.
    pub fn to_raw_commands(&self) -> (r: Vec<u8>)
        ensures
            r@ == self.commands@.map_values(|c: PathCommand| command_code(c)),
    {
        let mut out: Vec<u8> = Vec::new();
        let n: usize = self.commands.len();
        let mut i: usize = 0;
        while i < n
            invariant
                n == self.commands@.len(),
                i <= n,
                out@ == self.commands@.take(i as int).map_values(|c: PathCommand| command_code(c)),
            decreases n - i,
        {
            out.push(self.commands[i].to_raw());
            i = i + 1;
            assert(out@ =~= self.commands@.take(i as int).map_values(|c: PathCommand| command_code(c)));
        }
        assert(self.commands@.take(n as int) =~= self.commands@);
        out
    }
}

/// The engine's fixed command bytes and the points each command consumes:
/// close 0 (no point), move 1 (one), line 2 (one), cubic 3 (three); every
/// other byte is no command.
pub proof fn lemma_command_values(b: u8)
    ensures
        command_code(PathCommand::Close) == 0 && arity(PathCommand::Close) == 0,
        command_code(PathCommand::MoveTo) == 1 && arity(PathCommand::MoveTo) == 1,
        command_code(PathCommand::LineTo) == 2 && arity(PathCommand::LineTo) == 1,
        command_code(PathCommand::CubicTo) == 3 && arity(PathCommand::CubicTo) == 3,
        b > 3 ==> command_of_code(b) is None,
        b <= 3 ==> (command_of_code(b) matches Some(c) && command_code(c) == b),
{
}

/// Decoding the raw bytes that a command sequence encodes to gives the
/// command sequence back.
pub proof fn lemma_decode_encode(cmds: Seq<PathCommand>)
    ensures
        decode_commands(cmds.map_values(|c: PathCommand| command_code(c))) == cmds,
    decreases cmds.len(),
{
    let raw = cmds.map_values(|c: PathCommand| command_code(c));
    if cmds.len() > 0 {
        lemma_decode_encode(cmds.drop_last());
        assert(raw.drop_last() =~= cmds.drop_last().map_values(|c: PathCommand| command_code(c)));
        assert(cmds.drop_last().push(cmds.last()) =~= cmds);
    } else {
        assert(cmds =~= seq![]);
    }
}

/// A walk from command `i` yields at most one segment per command left.
proof fn lemma_segments_from_len<P>(cmds: Seq<PathCommand>, pts: Seq<P>, i: int, j: int)
    requires
        0 <= i <= cmds.len(),
    ensures
        segments_from(cmds, pts, i, j).len() <= cmds.len() - i,
    decreases cmds.len() - i,
{
    if i < cmds.len() && j >= 0 && j + arity(cmds[i]) <= pts.len() {
        lemma_segments_from_len(cmds, pts, i + 1, j + arity(cmds[i]));
    }
}

/// When the points suffice, a walk from command `i` yields one segment per
/// remaining command, of the same kind, and carries exactly the points the
/// commands consume.
proof fn lemma_segments_from_complete<P>(cmds: Seq<PathCommand>, pts: Seq<P>, i: int, j: int)
    requires
        0 <= i <= cmds.len(),
        0 <= j,
        j + points_needed_from(cmds, i) <= pts.len(),
    ensures
        segments_from(cmds, pts, i, j).map_values(|s: Segment<P>| segment_command(s))
            == cmds.subrange(i, cmds.len() as int),
        flatten_points(segments_from(cmds, pts, i, j))
            == pts.subrange(j, j + points_needed_from(cmds, i)),
    decreases cmds.len() - i,
{
    let segs = segments_from(cmds, pts, i, j);
    if i == cmds.len() {
        assert(segs =~= seq![]);
        assert(segs.map_values(|s: Segment<P>| segment_command(s)) =~= cmds.subrange(i, cmds.len() as int));
        assert(pts.subrange(j, j + points_needed_from(cmds, i)) =~= seq![]);
    } else {
        let k: nat = arity(cmds[i]);
        lemma_segments_from_complete(cmds, pts, i + 1, j + k);
        let rest = segments_from(cmds, pts, i + 1, j + k);
        let seg = segment_at(cmds[i], pts, j);
        assert(segs == seq![seg] + rest);
        assert(segs.drop_first() =~= rest);
        assert(segs[0] == seg);
        assert(segment_command(seg) == cmds[i]);
        assert(rest.map_values(|s: Segment<P>| segment_command(s)).len() == rest.len());
        assert(segs.len() == cmds.len() - i);
        assert forall|t: int| 0 <= t < segs.len() implies
            segment_command(#[trigger] segs[t]) == cmds[i + t] by {
            if t > 0 {
                assert(segs[t] == rest[t - 1]);
                assert(rest.map_values(|s: Segment<P>| segment_command(s))[t - 1]
                    == cmds.subrange(i + 1, cmds.len() as int)[t - 1]);
                assert(rest.map_values(|s: Segment<P>| segment_command(s))[t - 1]
                    == segment_command(rest[t - 1]));
            }
        }
        assert(segs.map_values(|s: Segment<P>| segment_command(s))
            =~= cmds.subrange(i, cmds.len() as int));
        assert(segment_points(seg) =~= pts.subrange(j, j + k));
        assert(pts.subrange(j, j + points_needed_from(cmds, i))
            =~= pts.subrange(j, j + k) + pts.subrange(j + k, j + k + points_needed_from(cmds, i + 1)));
    }
}

/// `segments` yields at most one segment per command.
pub proof fn lemma_segments_bounded<P: Copy>(p: Path<P>)
    ensures
        p.spec_segments().len() <= p.commands@.len(),
{
    lemma_segments_from_len(p.commands@, p.points@, 0, 0);
}

/// On a path whose point buffer holds every point its commands consume,
/// `segments` walks commands and points in lockstep: one segment per
/// command, of the same kind, and together they carry the points in order.
pub proof fn lemma_segments_lockstep<P: Copy>(p: Path<P>)
    requires
        points_needed(p.commands@) <= p.points@.len(),
    ensures
        p.spec_segments().len() == p.commands@.len(),
        p.spec_segments().map_values(|s: Segment<P>| segment_command(s)) == p.commands@,
        flatten_points(p.spec_segments()) == p.points@.take(points_needed(p.commands@) as int),
{
    lemma_segments_from_complete(p.commands@, p.points@, 0, 0);
    assert(p.commands@.subrange(0, p.commands@.len() as int) =~= p.commands@);
    assert(p.points@.subrange(0, points_needed(p.commands@) as int)
        =~= p.points@.take(points_needed(p.commands@) as int));
}

/// On a path whose point buffer holds exactly the points its commands
/// consume, the segments use every command and every point.
pub proof fn lemma_segments_exact<P: Copy>(p: Path<P>)
    requires
        points_needed(p.commands@) == p.points@.len(),
    ensures
        p.spec_segments().len() == p.commands@.len(),
        flatten_points(p.spec_segments()) == p.points@,
{
    lemma_segments_lockstep(p);
    assert(p.points@.take(points_needed(p.commands@) as int) =~= p.points@);
}

/// Encoding a path's commands to raw bytes and decoding them again, as a
/// round trip through the engine's path buffer does, gives the same path.
pub proof fn lemma_raw_round_trip<P>(p: Path<P>, raw: Seq<u8>)
    requires
        raw == p.commands@.map_values(|c: PathCommand| command_code(c)),
    ensures
        decode_commands(raw) == p.commands@,
{
    lemma_decode_encode(p.commands@);
}

} // verus!

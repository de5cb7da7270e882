use thorvg::path::{Path, PathCommand, Segment};

#[derive(Debug, Clone, Copy, PartialEq)]
struct Pt {
    x: f32,
    y: f32,
}

fn p(x: f32, y: f32) -> Pt {
    Pt { x, y }
}

#[test]
fn points_consumed_per_command() {
    assert_eq!(PathCommand::Close.points_consumed(), 0);
    assert_eq!(PathCommand::MoveTo.points_consumed(), 1);
    assert_eq!(PathCommand::LineTo.points_consumed(), 1);
    assert_eq!(PathCommand::CubicTo.points_consumed(), 3);
}

#[test]
fn command_bytes_round_trip() {
    for c in [PathCommand::Close, PathCommand::MoveTo, PathCommand::LineTo, PathCommand::CubicTo] {
        assert_eq!(PathCommand::from_raw(c.to_raw()), Some(c));
    }
    assert_eq!(PathCommand::from_raw(4), None);
    assert_eq!(PathCommand::from_raw(255), None);
}

#[test]
fn empty_path() {
    let path: Path<Pt> = Path::new();
    assert!(path.is_empty());
    assert_eq!(path.command_count(), 0);
    assert_eq!(path.point_count(), 0);
    assert!(path.segments().is_empty());
}

#[test]
fn segments_walk_in_lockstep() {
    let path = Path {
        commands: vec![PathCommand::MoveTo, PathCommand::LineTo, PathCommand::CubicTo, PathCommand::Close],
        points: vec![p(0.0, 0.0), p(10.0, 0.0), p(1.0, 1.0), p(2.0, 2.0), p(3.0, 3.0)],
    };
    assert_eq!(path.command_count(), 4);
    assert_eq!(path.point_count(), 5);
    let segs = path.segments();
    assert_eq!(segs.len(), 4);
    assert!(matches!(segs[0], Segment::MoveTo(q) if q == p(0.0, 0.0)));
    assert!(matches!(segs[1], Segment::LineTo(q) if q == p(10.0, 0.0)));
    assert!(matches!(segs[2], Segment::CubicTo { c1, c2, end }
        if c1 == p(1.0, 1.0) && c2 == p(2.0, 2.0) && end == p(3.0, 3.0)));
    assert!(matches!(segs[3], Segment::Close));
}

#[test]
fn segments_stop_when_points_run_out() {
    let path = Path {
        commands: vec![PathCommand::MoveTo, PathCommand::CubicTo, PathCommand::LineTo],
        points: vec![p(0.0, 0.0), p(1.0, 1.0), p(2.0, 2.0)],
    };
    let segs = path.segments();
    assert_eq!(segs.len(), 1);
    assert!(matches!(segs[0], Segment::MoveTo(_)));
}

#[test]
fn raw_commands_drop_unknown_bytes() {
    let path = Path::from_raw(&[1, 9, 2, 0, 200, 3], vec![p(0.0, 0.0)]);
    assert_eq!(
        path.commands,
        vec![PathCommand::MoveTo, PathCommand::LineTo, PathCommand::Close, PathCommand::CubicTo]
    );
    assert_eq!(path.points, vec![p(0.0, 0.0)]);
    let empty: Path<Pt> = Path::from_raw(&[], Vec::new());
    assert!(empty.is_empty());
}

#[test]
fn raw_encoding_round_trip() {
    let path = Path {
        commands: vec![PathCommand::MoveTo, PathCommand::LineTo, PathCommand::LineTo, PathCommand::Close],
        points: vec![p(0.0, 0.0), p(1.0, 0.0), p(1.0, 1.0)],
    };
    let raw = path.to_raw_commands();
    assert_eq!(raw, vec![1, 2, 2, 0]);
    let back = Path::from_raw(&raw, path.points.clone());
    assert_eq!(back.commands, path.commands);
    assert_eq!(back.points, path.points);
}

#[test]
fn default_path_is_empty() {
    let d: Path<Pt> = Path::default();
    assert_eq!(d, Path::new());
    assert!(d.is_empty());
}

#[test]
fn exact_path_uses_every_point() {
    let path = Path {
        commands: vec![PathCommand::MoveTo, PathCommand::CubicTo, PathCommand::Close],
        points: vec![p(0.0, 0.0), p(1.0, 1.0), p(2.0, 2.0), p(3.0, 3.0)],
    };
    let needed: usize = path.commands.iter().map(|c| c.points_consumed()).sum();
    assert_eq!(needed, path.points.len());
    assert_eq!(path.segments().len(), path.commands.len());
}

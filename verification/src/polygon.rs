//! The render dispatcher: turns a shape's extracted point sequence, resolved
//! paint and closed/open flag into the ordered drawing-backend calls.
//!
//! The flat point sequence lists, anchor by anchor, the incoming handle, the
//! anchor and the outgoing handle.  One right rotation realigns it so that
//! consecutive triples read (previous anchor's outgoing handle, next anchor's
//! incoming handle, next anchor), which is the order a cubic curve call
//! takes; the starting move-to uses the last point of the rotated sequence.

use vstd::prelude::*;
use crate::styles::{Cmyk, Color, PaintChannel, Rgb, ResolvedPaint};
use crate::transforms::Point;

verus! {

/// Failure conditions of one shape's render; each is local to the shape.
#[derive(Debug, Clone, Copy, PartialEq, Eq, Structural)]
pub enum RenderError {
    /// The point count does not align into curve triples after rotation:
    /// the shape is skipped, the render pass goes on.
    MalformedGeometry,
}

/// One imperative call to the drawing backend.
#[derive(Debug, Clone, Copy, PartialEq, Eq, Structural)]
pub enum BackendCall {
    SaveState,
    RestoreState,
    SetLineWidth(u32),
    SetFillCmyk(Cmyk),
    SetFillRgb(Rgb),
    SetStrokeCmyk(Cmyk),
    SetStrokeRgb(Rgb),
    MoveTo(Point),
    CurveTo(Point, Point, Point),
    Fill,
    Stroke,
    FillStroke,
    ClosePathStroke,
    ClosePathFillStroke,
    EndPath,
}

/// Whether a resolved channel carries paint.
pub open spec fn paint_present(ch: PaintChannel) -> bool {
    ch matches PaintChannel::Paint(_)
}

/// The terminal drawing operation for a (closed, fill, stroke) combination.
pub open spec fn terminal_op(closed: bool, fill: bool, stroke: bool) -> BackendCall {
    if fill && !stroke {
        BackendCall::Fill
    } else if !closed && !fill && stroke {
        BackendCall::Stroke
    } else if !closed && fill && stroke {
        BackendCall::FillStroke
    } else if closed && !fill && stroke {
        BackendCall::ClosePathStroke
    } else if closed && fill && stroke {
        BackendCall::ClosePathFillStroke
    } else {
        BackendCall::EndPath
    }
}

/// Selects the terminal drawing operation by the fixed table.
pub fn select_operation(closed: bool, fill: bool, stroke: bool) -> (r: BackendCall)
    ensures
        r == terminal_op(closed, fill, stroke),
{
    if fill && !stroke {
        BackendCall::Fill
    } else if !closed && !fill && stroke {
        BackendCall::Stroke
    } else if !closed && fill && stroke {
        BackendCall::FillStroke
    } else if closed && !fill && stroke {
        BackendCall::ClosePathStroke
    } else if closed && fill && stroke {
        BackendCall::ClosePathFillStroke
    } else {
        BackendCall::EndPath
    }
}

/// Law: the operation table is exhaustive; every one of the eight
/// (closed, fill, stroke) combinations selects exactly the listed operation.
pub proof fn lemma_fill_stroke_table()
    ensures
        terminal_op(false, true, false) == BackendCall::Fill,
        terminal_op(true, true, false) == BackendCall::Fill,
        terminal_op(false, false, true) == BackendCall::Stroke,
        terminal_op(false, true, true) == BackendCall::FillStroke,
        terminal_op(true, false, true) == BackendCall::ClosePathStroke,
        terminal_op(true, true, true) == BackendCall::ClosePathFillStroke,
        terminal_op(false, false, false) == BackendCall::EndPath,
        terminal_op(true, false, false) == BackendCall::EndPath,
{
}

/// The state-setup calls issued before path construction: save the graphic
/// state, then set line width, fill color and stroke color where resolved.
pub open spec fn setup_calls(paint: ResolvedPaint) -> Seq<BackendCall> {
    seq![BackendCall::SaveState] + (match paint.stroke_weight {
        Some(w) => seq![BackendCall::SetLineWidth(w)],
        None => Seq::empty(),
    }) + (match paint.fill {
        PaintChannel::Paint(Color::Cmyk(c)) => seq![BackendCall::SetFillCmyk(c)],
        PaintChannel::Paint(Color::Rgb(c)) => seq![BackendCall::SetFillRgb(c)],
        _ => Seq::empty(),
    }) + (match paint.stroke {
        PaintChannel::Paint(Color::Cmyk(c)) => seq![BackendCall::SetStrokeCmyk(c)],
        PaintChannel::Paint(Color::Rgb(c)) => seq![BackendCall::SetStrokeRgb(c)],
        _ => Seq::empty(),
    })
}

/// The point sequence rotated right by one position.
pub open spec fn rotated(pts: Seq<Point>) -> Seq<Point>
    recommends
        pts.len() >= 1,
{
    pts.subrange(pts.len() - 1, pts.len() as int) + pts.subrange(0, pts.len() - 1)
}

/// One cubic curve call per consecutive triple of the rotated sequence.
pub open spec fn curve_calls(rot: Seq<Point>) -> Seq<BackendCall> {
    Seq::new(rot.len() / 3, |t: int| BackendCall::CurveTo(rot[3 * t], rot[3 * t + 1], rot[3 * t + 2]))
}

/// All path-construction calls: move to the last rotated point (the first
/// anchor of the winding), then the curve calls.
pub open spec fn path_calls(pts: Seq<Point>) -> Seq<BackendCall>
    recommends
        pts.len() >= 1,
{
    seq![BackendCall::MoveTo(rotated(pts).last())] + curve_calls(rotated(pts))
}

/// The full ordered call sequence for a non-empty, well-aligned shape.
pub open spec fn render_calls(pts: Seq<Point>, paint: ResolvedPaint, closed: bool) -> Seq<
    BackendCall,
> {
    setup_calls(paint) + path_calls(pts) + seq![
        terminal_op(closed, paint_present(paint.fill), paint_present(paint.stroke)),
        BackendCall::RestoreState,
    ]
}

/// What rendering returns: no calls for empty geometry, a malformed-geometry
/// condition when a non-start point would fall out of the curve triples, and
/// the full call sequence otherwise.
pub open spec fn render_result(pts: Seq<Point>, paint: ResolvedPaint, closed: bool) -> Result<
    Seq<BackendCall>,
    RenderError,
> {
    if pts.len() == 0 {
        Ok(Seq::empty())
    } else if pts.len() % 3 == 2 {
        Err(RenderError::MalformedGeometry)
    } else {
        Ok(render_calls(pts, paint, closed))
    }
}

/// Renders one shape: emits the ordered backend calls for its extracted
/// points, resolved paint and closed/open flag.  An empty point sequence
/// yields no calls and success; a point count that would drop a real point
/// from the curve triples yields `MalformedGeometry` and no calls.
#[verifier::loop_isolation(false)]
#[verifier::rlimit(100)]
pub fn render(points: &Vec<Point>, paint: &ResolvedPaint, closed_path: bool) -> (r: Result<
    Vec<BackendCall>,
    RenderError,
>)
    ensures
        match r {
            Ok(v) => render_result(points@, *paint, closed_path) == Ok::<_, RenderError>(v@),
            Err(e) => render_result(points@, *paint, closed_path) == Err::<Seq<BackendCall>, _>(e),
        },
{
    let n = points.len();
    if n == 0 {
        let out: Vec<BackendCall> = Vec::new();
        proof {
            assert(out@ =~= Seq::<BackendCall>::empty());
        }
        return Ok(out);
    }
    if n % 3 == 2 {
        return Err(RenderError::MalformedGeometry);
    }
    let mut rot: Vec<Point> = Vec::new();
    rot.push(points[n - 1]);
    let mut i: usize = 0;
    while i < n - 1
        invariant
            0 <= i <= n - 1,
            rot@ == seq![points@[n - 1]] + points@.subrange(0, i as int),
        decreases n - 1 - i,
    {
        rot.push(points[i]);
        proof {
            assert(points@.subrange(0, i as int + 1) =~= points@.subrange(0, i as int).push(
                points@[i as int],
            ));
        }
        i = i + 1;
    }
    proof {
        assert(rot@ =~= rotated(points@));
    }
    let mut out: Vec<BackendCall> = Vec::new();
    out.push(BackendCall::SaveState);
    if let Some(w) = paint.stroke_weight {
        out.push(BackendCall::SetLineWidth(w));
    }
    match paint.fill {
        PaintChannel::Paint(Color::Cmyk(c)) => out.push(BackendCall::SetFillCmyk(c)),
        PaintChannel::Paint(Color::Rgb(c)) => out.push(BackendCall::SetFillRgb(c)),
        _ => {},
    }
    match paint.stroke {
        PaintChannel::Paint(Color::Cmyk(c)) => out.push(BackendCall::SetStrokeCmyk(c)),
        PaintChannel::Paint(Color::Rgb(c)) => out.push(BackendCall::SetStrokeRgb(c)),
        _ => {},
    }
    proof {
        assert(out@ =~= setup_calls(*paint));
    }
    out.push(BackendCall::MoveTo(rot[rot.len() - 1]));
    let triples = n / 3;
    let mut t: usize = 0;
    while t < triples
        invariant
            0 <= t <= triples,
            rot@.len() == n,
            out@ == setup_calls(*paint) + seq![BackendCall::MoveTo(rotated(points@).last())]
                + Seq::new(
                t as nat,
                |u: int| BackendCall::CurveTo(rot@[3 * u], rot@[3 * u + 1], rot@[3 * u + 2]),
            ),
        decreases triples - t,
    {
        let c1 = rot[3 * t];
        let c2 = rot[3 * t + 1];
        let end = rot[3 * t + 2];
        out.push(BackendCall::CurveTo(c1, c2, end));
        proof {
            assert(Seq::new(
                (t + 1) as nat,
                |u: int| BackendCall::CurveTo(rot@[3 * u], rot@[3 * u + 1], rot@[3 * u + 2]),
            ) =~= Seq::new(
                t as nat,
                |u: int| BackendCall::CurveTo(rot@[3 * u], rot@[3 * u + 1], rot@[3 * u + 2]),
            ).push(
                BackendCall::CurveTo(
                    rot@[3 * t as int],
                    rot@[3 * t as int + 1],
                    rot@[3 * t as int + 2],
                ),
            ));
        }
        t = t + 1;
    }
    proof {
        assert(Seq::new(
            triples as nat,
            |u: int| BackendCall::CurveTo(rot@[3 * u], rot@[3 * u + 1], rot@[3 * u + 2]),
        ) =~= curve_calls(rotated(points@)));
    }
    let fill_p = match paint.fill {
        PaintChannel::Paint(_) => true,
        _ => false,
    };
    let stroke_p = match paint.stroke {
        PaintChannel::Paint(_) => true,
        _ => false,
    };
    out.push(select_operation(closed_path, fill_p, stroke_p));
    out.push(BackendCall::RestoreState);
    proof {
        assert(out@ =~= render_calls(points@, *paint, closed_path));
    }
    Ok(out)
}

} // verus!

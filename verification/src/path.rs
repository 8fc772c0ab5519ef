//! The path normalizer: converts a stream of path instructions into a
//! canonical event stream with implicit-close detection.
//!
//! A path is an ordered sequence of instructions; every subpath is opened by a
//! `MoveTo`.  The normalizer emits exactly one `Begin` and one `End` event per
//! subpath, one segment event per drawing instruction, and marks `End.close`
//! true exactly when the subpath was explicitly closed or its first and last
//! points coincide within the 0.01-unit epsilon.

use vstd::prelude::*;

use crate::geometry::{points_near, points_near_exec, PointFx};

verus! {

/// One instruction of a vector path.
///
/// Every instruction other than `MoveTo` requires an open subpath (a preceding
/// `MoveTo` not yet ended by `ClosePath`); see [`well_formed_path`].
#[derive(Clone, Copy, Debug, PartialEq, Eq, Structural)]
pub enum PathInstruction {
    /// Start a new subpath at the point.
    MoveTo(PointFx),
    /// Straight segment from the current point.
    LineTo(PointFx),
    /// Quadratic Bezier segment: control point, then end point.
    QuadTo(PointFx, PointFx),
    /// Cubic Bezier segment: two control points, then end point.
    CurveTo(PointFx, PointFx, PointFx),
    /// Close the current subpath.
    ClosePath,
}

/// One event of the canonical stream a tessellator consumes.
#[derive(Clone, Copy, Debug, PartialEq, Eq, Structural)]
pub enum PathEvent {
    /// A subpath starts.
    Begin {
        /// The subpath's first point.
        at: PointFx,
    },
    /// A straight segment.
    Line {
        /// Segment start.
        from: PointFx,
        /// Segment end.
        to: PointFx,
    },
    /// A quadratic Bezier segment.
    Quadratic {
        /// Segment start.
        from: PointFx,
        /// Control point.
        ctrl: PointFx,
        /// Segment end.
        to: PointFx,
    },
    /// A cubic Bezier segment.
    Cubic {
        /// Segment start.
        from: PointFx,
        /// First control point.
        ctrl1: PointFx,
        /// Second control point.
        ctrl2: PointFx,
        /// Segment end.
        to: PointFx,
    },
    /// A subpath ends.  `close` is true iff the subpath was explicitly closed
    /// or its first and last points coincide within the epsilon, so the
    /// tessellator treats the boundary as a loop rather than a seam.
    End {
        /// The subpath's first point.
        first: PointFx,
        /// The subpath's last point.
        last: PointFx,
        /// Whether the subpath boundary is a loop.
        close: bool,
    },
}

/// The endpoints of the subpath currently being read: its first point and the
/// most recently reached point.
#[derive(Clone, Copy, Debug, PartialEq, Eq, Structural)]
pub struct OpenSubpath {
    /// First point of the subpath.
    pub first: PointFx,
    /// Most recently reached point.
    pub last: PointFx,
}

/// The `End` event of a subpath with endpoints `s`: `close` is true iff the
/// close was explicit or the endpoints coincide within the epsilon.
pub open spec fn end_event(s: OpenSubpath, explicit: bool) -> PathEvent {
    PathEvent::End {
        first: s.first,
        last: s.last,
        close: explicit || points_near(s.first, s.last),
    }
}

/// Whether the instruction draws a segment and so requires an open subpath.
pub open spec fn needs_open(ins: PathInstruction) -> bool {
    ins is LineTo || ins is QuadTo || ins is CurveTo
}

/// The open subpath after one instruction, given the one before it.
pub open spec fn step_state(
    st: Option<OpenSubpath>,
    ins: PathInstruction,
) -> Option<OpenSubpath> {
    match ins {
        PathInstruction::MoveTo(p) => Some(OpenSubpath { first: p, last: p }),
        PathInstruction::LineTo(p) => match st {
            Some(s) => Some(OpenSubpath { first: s.first, last: p }),
            None => None,
        },
        PathInstruction::QuadTo(_, p) => match st {
            Some(s) => Some(OpenSubpath { first: s.first, last: p }),
            None => None,
        },
        PathInstruction::CurveTo(_, _, p) => match st {
            Some(s) => Some(OpenSubpath { first: s.first, last: p }),
            None => None,
        },
        PathInstruction::ClosePath => None,
    }
}

/// The events one instruction emits, given the open subpath before it.
///
/// A `MoveTo` first ends the previous subpath, if one is open, then begins a
/// new one; a segment instruction with no open subpath emits nothing (such an
/// instruction is excluded by [`well_formed_path`]); a `ClosePath` with no
/// open subpath is a no-op.
pub open spec fn step_events(st: Option<OpenSubpath>, ins: PathInstruction) -> Seq<PathEvent> {
    match ins {
        PathInstruction::MoveTo(p) => (match st {
            Some(s) => seq![end_event(s, false)],
            None => Seq::<PathEvent>::empty(),
        }) + seq![PathEvent::Begin { at: p }],
        PathInstruction::LineTo(p) => match st {
            Some(s) => seq![PathEvent::Line { from: s.last, to: p }],
            None => Seq::<PathEvent>::empty(),
        },
        PathInstruction::QuadTo(c, p) => match st {
            Some(s) => seq![PathEvent::Quadratic { from: s.last, ctrl: c, to: p }],
            None => Seq::<PathEvent>::empty(),
        },
        PathInstruction::CurveTo(c1, c2, p) => match st {
            Some(s) => seq![PathEvent::Cubic { from: s.last, ctrl1: c1, ctrl2: c2, to: p }],
            None => Seq::<PathEvent>::empty(),
        },
        PathInstruction::ClosePath => match st {
            Some(s) => seq![end_event(s, true)],
            None => Seq::<PathEvent>::empty(),
        },
    }
}

/// The open subpath left after reading all of `els`.
pub open spec fn path_state(els: Seq<PathInstruction>) -> Option<OpenSubpath>
    decreases els.len(),
{
    if els.len() == 0 {
        None
    } else {
        step_state(path_state(els.drop_last()), els.last())
    }
}

/// The events emitted while reading `els`, without the final flush.
pub open spec fn events_prefix(els: Seq<PathInstruction>) -> Seq<PathEvent>
    decreases els.len(),
{
    if els.len() == 0 {
        Seq::<PathEvent>::empty()
    } else {
        events_prefix(els.drop_last()) + step_events(path_state(els.drop_last()), els.last())
    }
}

/// The events emitted at end of input: a subpath still open is ended, with
/// the implicit-close inference and no explicit close.
pub open spec fn flush_events(st: Option<OpenSubpath>) -> Seq<PathEvent> {
    match st {
        Some(s) => seq![end_event(s, false)],
        None => Seq::<PathEvent>::empty(),
    }
}

/// The full canonical event stream of a path.
pub open spec fn normalized_events(els: Seq<PathInstruction>) -> Seq<PathEvent> {
    events_prefix(els) + flush_events(path_state(els))
}

/// A path is well formed when every segment instruction has an open subpath:
/// a preceding `MoveTo` not yet ended by `ClosePath`.  Feeding a segment with
/// no open subpath is a contract error of the caller, not recovered from.
pub open spec fn well_formed_path(els: Seq<PathInstruction>) -> bool {
    forall|i: int|
        0 <= i < els.len() && needs_open(#[trigger] els[i]) ==> path_state(els.take(i)) is Some
}

/// Builds the `End` event of a subpath, deciding the implicit close.
fn end_event_exec(s: &OpenSubpath, explicit: bool) -> (e: PathEvent)
    ensures
        e == end_event(*s, explicit),
{
    let close: bool = explicit || points_near_exec(&s.first, &s.last);
    PathEvent::End { first: s.first, last: s.last, close }
}

/// Converts a well-formed instruction stream into its canonical event stream:
/// one `Begin` and one `End` per subpath, one segment event per drawing
/// instruction, with `End.close` true exactly for explicitly closed subpaths
/// and for subpaths whose first and last points coincide within the epsilon.
pub fn normalize(els: &Vec<PathInstruction>) -> (out: Vec<PathEvent>)
    requires
        well_formed_path(els@),
    ensures
        out@ == normalized_events(els@),
{
    let mut out: Vec<PathEvent> = Vec::new();
    let mut st: Option<OpenSubpath> = None;
    let mut i: usize = 0;
    while i < els.len()
        invariant
            0 <= i <= els@.len(),
            well_formed_path(els@),
            st == path_state(els@.take(i as int)),
            out@ == events_prefix(els@.take(i as int)),
        decreases els@.len() - i,
    {
        proof {
            assert(els@.take(i + 1).drop_last() =~= els@.take(i as int));
            assert(els@.take(i + 1).last() == els@[i as int]);
        }
        let ghost pre_events: Seq<PathEvent> = out@;
        let ghost pre_state: Option<OpenSubpath> = st;
        match els[i] {
            PathInstruction::MoveTo(p) => {
                if let Some(s) = st {
                    out.push(end_event_exec(&s, false));
                }
                out.push(PathEvent::Begin { at: p });
                st = Some(OpenSubpath { first: p, last: p });
            },
            PathInstruction::LineTo(p) => {
                assert(needs_open(els@[i as int]));
                let s = st.unwrap();
                out.push(PathEvent::Line { from: s.last, to: p });
                st = Some(OpenSubpath { first: s.first, last: p });
            },
            PathInstruction::QuadTo(c, p) => {
                assert(needs_open(els@[i as int]));
                let s = st.unwrap();
                out.push(PathEvent::Quadratic { from: s.last, ctrl: c, to: p });
                st = Some(OpenSubpath { first: s.first, last: p });
            },
            PathInstruction::CurveTo(c1, c2, p) => {
                assert(needs_open(els@[i as int]));
                let s = st.unwrap();
                out.push(PathEvent::Cubic { from: s.last, ctrl1: c1, ctrl2: c2, to: p });
                st = Some(OpenSubpath { first: s.first, last: p });
            },
            PathInstruction::ClosePath => {
                if let Some(s) = st {
                    out.push(end_event_exec(&s, true));
                }
                st = None;
            },
        }
        proof {
            assert(out@ =~= pre_events + step_events(pre_state, els@[i as int]));
        }
        i = i + 1;
    }
    proof {
        assert(els@.take(els@.len() as int) =~= els@);
    }
    if let Some(s) = st {
        out.push(end_event_exec(&s, false));
    }
    proof {
        assert(out@ =~= normalized_events(els@));
    }
    out
}

/// The number of `MoveTo` instructions in a path: for a well-formed path,
/// the number of its subpaths.
pub open spec fn count_moves(els: Seq<PathInstruction>) -> int
    decreases els.len(),
{
    if els.len() == 0 {
        0
    } else {
        count_moves(els.drop_last()) + if els.last() is MoveTo {
            1int
        } else {
            0int
        }
    }
}

/// The number of `Begin` events in an event stream.
pub open spec fn count_begins(evs: Seq<PathEvent>) -> int
    decreases evs.len(),
{
    if evs.len() == 0 {
        0
    } else {
        count_begins(evs.drop_last()) + if evs.last() is Begin {
            1int
        } else {
            0int
        }
    }
}

/// The subsequence of `End` events of an event stream, in order.
pub open spec fn ends_of(evs: Seq<PathEvent>) -> Seq<PathEvent>
    decreases evs.len(),
{
    if evs.len() == 0 {
        Seq::<PathEvent>::empty()
    } else {
        ends_of(evs.drop_last()) + if evs.last() is End {
            seq![evs.last()]
        } else {
            Seq::<PathEvent>::empty()
        }
    }
}

/// The subpaths one instruction completes: its endpoint pair and whether the
/// close was explicit.  Only a `MoveTo` over an open subpath, or a
/// `ClosePath` over one, completes a subpath.
pub open spec fn step_completed(
    st: Option<OpenSubpath>,
    ins: PathInstruction,
) -> Seq<(OpenSubpath, bool)> {
    match ins {
        PathInstruction::MoveTo(_) => match st {
            Some(s) => seq![(s, false)],
            None => Seq::<(OpenSubpath, bool)>::empty(),
        },
        PathInstruction::ClosePath => match st {
            Some(s) => seq![(s, true)],
            None => Seq::<(OpenSubpath, bool)>::empty(),
        },
        _ => Seq::<(OpenSubpath, bool)>::empty(),
    }
}

/// The subpaths completed while reading `els`, without the final flush.
pub open spec fn completed_prefix(els: Seq<PathInstruction>) -> Seq<(OpenSubpath, bool)>
    decreases els.len(),
{
    if els.len() == 0 {
        Seq::<(OpenSubpath, bool)>::empty()
    } else {
        completed_prefix(els.drop_last()) + step_completed(
            path_state(els.drop_last()),
            els.last(),
        )
    }
}

/// Every subpath of the path, in order: its endpoint pair and whether its
/// close was explicit.  A subpath still open at end of input counts, with no
/// explicit close.
pub open spec fn completed_subpaths(els: Seq<PathInstruction>) -> Seq<(OpenSubpath, bool)> {
    completed_prefix(els) + (match path_state(els) {
        Some(s) => seq![(s, false)],
        None => Seq::<(OpenSubpath, bool)>::empty(),
    })
}

/// Counting `Begin` events distributes over concatenation.
proof fn lemma_count_begins_add(a: Seq<PathEvent>, b: Seq<PathEvent>)
    ensures
        count_begins(a + b) == count_begins(a) + count_begins(b),
    decreases b.len(),
{
    if b.len() == 0 {
        assert(a + b =~= a);
    } else {
        lemma_count_begins_add(a, b.drop_last());
        assert((a + b).drop_last() =~= a + b.drop_last());
        assert((a + b).last() == b.last());
    }
}

/// Extracting `End` events distributes over concatenation.
proof fn lemma_ends_of_add(a: Seq<PathEvent>, b: Seq<PathEvent>)
    ensures
        ends_of(a + b) == ends_of(a) + ends_of(b),
    decreases b.len(),
{
    if b.len() == 0 {
        assert(a + b =~= a);
        assert(ends_of(a) + ends_of(b) =~= ends_of(a));
    } else {
        lemma_ends_of_add(a, b.drop_last());
        assert((a + b).drop_last() =~= a + b.drop_last());
        assert((a + b).last() == b.last());
        assert(ends_of(a) + ends_of(b) =~= ends_of(a) + ends_of(b.drop_last()) + if b.last() is End {
            seq![b.last()]
        } else {
            Seq::<PathEvent>::empty()
        });
    }
}

/// The `End` event a completed subpath gives rise to.
pub open spec fn end_of_completed(p: (OpenSubpath, bool)) -> PathEvent {
    end_event(p.0, p.1)
}

/// Before the flush, the stream holds one `Begin` per `MoveTo` read so far,
/// and its `End` events are exactly the completed subpaths' end events.
proof fn lemma_prefix_structure(els: Seq<PathInstruction>)
    ensures
        count_begins(events_prefix(els)) == count_moves(els),
        ends_of(events_prefix(els)) == completed_prefix(els).map_values(
            |p: (OpenSubpath, bool)| end_of_completed(p),
        ),
    decreases els.len(),
{
    if els.len() == 0 {
        assert(completed_prefix(els).map_values(|p: (OpenSubpath, bool)| end_of_completed(p))
            =~= Seq::<PathEvent>::empty());
    } else {
        let head = els.drop_last();
        let ins = els.last();
        let st = path_state(head);
        lemma_prefix_structure(head);
        lemma_count_begins_add(events_prefix(head), step_events(st, ins));
        lemma_ends_of_add(events_prefix(head), step_events(st, ins));
        assert(count_begins(step_events(st, ins)) == if ins is MoveTo {
            1int
        } else {
            0int
        }) by {
            reveal_with_fuel(count_begins, 3);
            match ins {
                PathInstruction::MoveTo(p) => {
                    let evs = step_events(st, ins);
                    if st is Some {
                        assert(evs.drop_last() =~= seq![end_event(st->0, false)]);
                        assert(evs.drop_last().drop_last() =~= Seq::<PathEvent>::empty());
                    } else {
                        assert(evs.drop_last() =~= Seq::<PathEvent>::empty());
                    }
                },
                _ => {
                    let evs = step_events(st, ins);
                    if evs.len() != 0 {
                        assert(evs.drop_last() =~= Seq::<PathEvent>::empty());
                    }
                },
            }
        }
        assert(ends_of(step_events(st, ins)) =~= step_completed(st, ins).map_values(
            |p: (OpenSubpath, bool)| end_of_completed(p),
        )) by {
            reveal_with_fuel(ends_of, 3);
            match ins {
                PathInstruction::MoveTo(p) => {
                    let evs = step_events(st, ins);
                    if st is Some {
                        assert(evs.drop_last() =~= seq![end_event(st->0, false)]);
                        assert(evs.drop_last().drop_last() =~= Seq::<PathEvent>::empty());
                    } else {
                        assert(evs.drop_last() =~= Seq::<PathEvent>::empty());
                    }
                },
                _ => {
                    let evs = step_events(st, ins);
                    if evs.len() != 0 {
                        assert(evs.drop_last() =~= Seq::<PathEvent>::empty());
                    }
                },
            }
        }
        assert(completed_prefix(els).map_values(|p: (OpenSubpath, bool)| end_of_completed(p))
            =~= completed_prefix(head).map_values(|p: (OpenSubpath, bool)| end_of_completed(p))
            + step_completed(st, ins).map_values(|p: (OpenSubpath, bool)| end_of_completed(p)));
    }
}

/// Every well-formed path yields exactly one `Begin` and one `End` event per
/// subpath: the count of `Begin` events, the count of `End` events and the
/// count of subpaths (one per `MoveTo`, whether ended by a `MoveTo`, a
/// `ClosePath` or the end of input) all agree.
pub proof fn lemma_one_begin_one_end_per_subpath(els: Seq<PathInstruction>)
    ensures
        count_begins(normalized_events(els)) == count_moves(els),
        ends_of(normalized_events(els)).len() == count_moves(els),
        completed_subpaths(els).len() == count_moves(els),
{
    lemma_prefix_structure(els);
    lemma_count_begins_add(events_prefix(els), flush_events(path_state(els)));
    lemma_ends_of_add(events_prefix(els), flush_events(path_state(els)));
    lemma_count_of_completed(els);
    lemma_flush_structure(path_state(els));
}

/// The flush emits no `Begin` event, and one `End` event exactly when a
/// subpath is still open.
proof fn lemma_flush_structure(st: Option<OpenSubpath>)
    ensures
        count_begins(flush_events(st)) == 0,
        ends_of(flush_events(st)) == flush_events(st),
{
    reveal_with_fuel(count_begins, 2);
    reveal_with_fuel(ends_of, 2);
    let fl = flush_events(st);
    match st {
        Some(s) => {
            assert(fl =~= seq![end_event(s, false)]);
            assert(fl.drop_last() =~= Seq::<PathEvent>::empty());
            assert(fl.last() == end_event(s, false));
            assert(ends_of(fl) =~= fl);
        },
        None => {
            assert(ends_of(fl) =~= fl);
        },
    }
}

/// Each `MoveTo` read contributes exactly one subpath: one completed before
/// the flush, or the one still open.
proof fn lemma_count_of_completed(els: Seq<PathInstruction>)
    ensures
        completed_prefix(els).len() + (if path_state(els) is Some {
            1int
        } else {
            0int
        }) == count_moves(els),
    decreases els.len(),
{
    if els.len() != 0 {
        lemma_count_of_completed(els.drop_last());
    }
}

/// The number of drawing instructions in a path.
pub open spec fn count_draws(els: Seq<PathInstruction>) -> int
    decreases els.len(),
{
    if els.len() == 0 {
        0
    } else {
        count_draws(els.drop_last()) + if needs_open(els.last()) {
            1int
        } else {
            0int
        }
    }
}

/// The number of segment events in an event stream.
pub open spec fn count_segments(evs: Seq<PathEvent>) -> int
    decreases evs.len(),
{
    if evs.len() == 0 {
        0
    } else {
        count_segments(evs.drop_last()) + if evs.last() is Line || evs.last() is Quadratic
            || evs.last() is Cubic {
            1int
        } else {
            0int
        }
    }
}

/// Counting segment events distributes over concatenation.
proof fn lemma_count_segments_add(a: Seq<PathEvent>, b: Seq<PathEvent>)
    ensures
        count_segments(a + b) == count_segments(a) + count_segments(b),
    decreases b.len(),
{
    if b.len() == 0 {
        assert(a + b =~= a);
    } else {
        lemma_count_segments_add(a, b.drop_last());
        assert((a + b).drop_last() =~= a + b.drop_last());
        assert((a + b).last() == b.last());
    }
}

/// A shorter prefix of a path is still well formed.
proof fn lemma_wf_prefix(els: Seq<PathInstruction>)
    requires
        well_formed_path(els),
        els.len() > 0,
    ensures
        well_formed_path(els.drop_last()),
{
    assert forall|i: int|
        0 <= i < els.drop_last().len() && needs_open(#[trigger] els.drop_last()[i]) implies
        path_state(els.drop_last().take(i)) is Some by {
        assert(els.drop_last()[i] == els[i]);
        assert(els.drop_last().take(i) =~= els.take(i));
    }
}

/// A well-formed path yields exactly one segment event per drawing
/// instruction.
pub proof fn lemma_one_segment_per_drawing_instruction(els: Seq<PathInstruction>)
    requires
        well_formed_path(els),
    ensures
        count_segments(normalized_events(els)) == count_draws(els),
    decreases els.len(),
{
    lemma_count_segments_add(events_prefix(els), flush_events(path_state(els)));
    assert(count_segments(flush_events(path_state(els))) == 0) by {
        reveal_with_fuel(count_segments, 2);
        match path_state(els) {
            Some(s) => {
                assert(flush_events(path_state(els)).drop_last() =~= Seq::<PathEvent>::empty());
            },
            None => {},
        }
    }
    lemma_prefix_segments(els);
}

/// Before the flush, the stream holds one segment event per drawing
/// instruction read so far.
proof fn lemma_prefix_segments(els: Seq<PathInstruction>)
    requires
        well_formed_path(els),
    ensures
        count_segments(events_prefix(els)) == count_draws(els),
    decreases els.len(),
{
    if els.len() != 0 {
        let head = els.drop_last();
        let ins = els.last();
        let st = path_state(head);
        lemma_wf_prefix(els);
        lemma_prefix_segments(head);
        lemma_count_segments_add(events_prefix(head), step_events(st, ins));
        assert(count_segments(step_events(st, ins)) == if needs_open(ins) {
            1int
        } else {
            0int
        }) by {
            reveal_with_fuel(count_segments, 3);
            if needs_open(ins) {
                assert(els.take(els.len() - 1) =~= head);
                assert(st is Some);
                let evs = step_events(st, ins);
                assert(evs.drop_last() =~= Seq::<PathEvent>::empty());
            } else {
                match ins {
                    PathInstruction::MoveTo(p) => {
                        let evs = step_events(st, ins);
                        if st is Some {
                            assert(evs.drop_last() =~= seq![end_event(st->0, false)]);
                            assert(evs.drop_last().drop_last() =~= Seq::<PathEvent>::empty());
                        } else {
                            assert(evs.drop_last() =~= Seq::<PathEvent>::empty());
                        }
                    },
                    _ => {
                        let evs = step_events(st, ins);
                        if evs.len() != 0 {
                            assert(evs.drop_last() =~= Seq::<PathEvent>::empty());
                        }
                    },
                }
            }
        }
    }
}

/// In the canonical event stream of any path, the end event of the `j`-th
/// subpath carries the subpath's own first and last points, and its `close`
/// flag is true exactly when that subpath was explicitly closed or its first
/// and last points coincide within the 0.01-unit epsilon.
pub proof fn lemma_end_close_iff(els: Seq<PathInstruction>)
    ensures
        forall|j: int|
            0 <= j < completed_subpaths(els).len()
                ==> #[trigger] ends_of(normalized_events(els))[j] == (PathEvent::End {
                first: completed_subpaths(els)[j].0.first,
                last: completed_subpaths(els)[j].0.last,
                close: completed_subpaths(els)[j].1 || points_near(
                    completed_subpaths(els)[j].0.first,
                    completed_subpaths(els)[j].0.last,
                ),
            }),
{
    lemma_prefix_structure(els);
    lemma_ends_of_add(events_prefix(els), flush_events(path_state(els)));
    lemma_flush_structure(path_state(els));
    assert(ends_of(normalized_events(els)) =~= completed_subpaths(els).map_values(
        |p: (OpenSubpath, bool)| end_of_completed(p),
    ));
}

} // verus!

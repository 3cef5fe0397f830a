//! Path containment: no admitted request path leaves the serving root.

use vstd::prelude::*;
use crate::request_path::{
    decoded, dot, dot_dot, is_malformed, resolved, segments_of, step, walk, PathError, PERCENT,
};
use crate::split::free_of;

verus! {

/// A segment that names a file or a directory: not empty, neither `.` nor
/// `..`, and free of slashes and zero bytes.
pub open spec fn is_plain_name(segment: Seq<u8>) -> bool {
    segment.len() > 0 && segment != dot() && segment != dot_dot() && !is_malformed(segment)
}

/// How many levels a segment leads down; `..` leads one level up.
pub open spec fn level_change(segment: Seq<u8>) -> int {
    if segment == dot_dot() {
        -1
    } else if segment.len() == 0 || segment == dot() {
        0
    } else {
        1
    }
}

/// The level below the starting point that `segments` lead to, counted
/// without regard to any root.
pub open spec fn depth(segments: Seq<Seq<u8>>) -> int
    decreases segments.len(),
{
    if segments.len() == 0 {
        0
    } else {
        level_change(segments[0]) + depth(segments.drop_first())
    }
}

/// A path climbs above the root iff some beginning of it leads to a level
/// above the one it started from.
pub open spec fn climbs_above_root(segments: Seq<Seq<u8>>) -> bool {
    exists|k: int| 0 <= k <= segments.len() && #[trigger] depth(segments.take(k)) < 0
}

/// The depth of a beginning of `segments`, taken apart at the first
/// segment.
proof fn lemma_depth_of_prefix(segments: Seq<Seq<u8>>, k: int)
    requires
        0 < k <= segments.len(),
    ensures
        depth(segments.take(k)) == level_change(segments[0]) + depth(
            segments.drop_first().take(k - 1),
        ),
{
    assert(segments.take(k).drop_first() =~= segments.drop_first().take(k - 1));
}

/// A walk that succeeds keeps plain names on the stack, ends as deep as
/// the segments lead, and never passes above the root on the way.
proof fn lemma_walk_succeeds(stack: Seq<Seq<u8>>, segments: Seq<Seq<u8>>)
    requires
        walk(stack, segments) is Ok,
        forall|i: int| 0 <= i < stack.len() ==> is_plain_name(#[trigger] stack[i]),
    ensures
        forall|i: int|
            0 <= i < walk(stack, segments)->Ok_0.len() ==> is_plain_name(
                #[trigger] walk(stack, segments)->Ok_0[i],
            ),
        walk(stack, segments)->Ok_0.len() == stack.len() + depth(segments),
        forall|k: int|
            0 <= k <= segments.len() ==> stack.len() + #[trigger] depth(segments.take(k)) >= 0,
    decreases segments.len(),
{
    if segments.len() > 0 {
        lemma_walk_succeeds(step(stack, segments[0])->Ok_0, segments.drop_first());
    }
    assert forall|k: int| 0 <= k <= segments.len() implies stack.len() + #[trigger] depth(
        segments.take(k),
    ) >= 0 by {
        if k > 0 {
            lemma_depth_of_prefix(segments, k);
        }
    }
}

/// A walk that is refused as forbidden has met a beginning of the segments
/// that leads above the root.
proof fn lemma_walk_forbidden(stack: Seq<Seq<u8>>, segments: Seq<Seq<u8>>) -> (k: int)
    requires
        walk(stack, segments) == Err::<Seq<Seq<u8>>, PathError>(PathError::Forbidden),
    ensures
        0 < k <= segments.len(),
        stack.len() + depth(segments.take(k)) < 0,
    decreases segments.len(),
{
    match step(stack, segments[0]) {
        Ok(next) => {
            let below = lemma_walk_forbidden(next, segments.drop_first());
            lemma_depth_of_prefix(segments, below + 1);
            below + 1
        },
        Err(_) => {
            lemma_depth_of_prefix(segments, 1);
            1
        },
    }
}

/// A segment without a percent sign stands for itself.
pub proof fn segment_without_escape_is_taken_as_written(segment: Seq<u8>)
    requires
        free_of(segment, PERCENT),
    ensures
        decoded(segment) == segment,
    decreases segment.len(),
{
    if segment.len() > 0 {
        segment_without_escape_is_taken_as_written(segment.skip(1));
        assert(segment =~= seq![segment[0]] + segment.skip(1));
    }
}

/// Every admitted path consists of plain names only, as many as its
/// segments lead down, and no beginning of it leads above the root: joined
/// to the serving root it names a place inside the root.
pub proof fn admitted_path_stays_below_root(raw: Seq<u8>)
    requires
        resolved(raw) is Ok,
    ensures
        forall|i: int|
            0 <= i < resolved(raw)->Ok_0.len() ==> is_plain_name(#[trigger] resolved(raw)->Ok_0[i]),
        resolved(raw)->Ok_0.len() == depth(segments_of(raw)),
        !climbs_above_root(segments_of(raw)),
{
    lemma_walk_succeeds(Seq::empty(), segments_of(raw));
}

/// A path of which some beginning leads above the serving root is refused,
/// whatever follows that beginning.
pub proof fn climbing_above_root_is_refused(raw: Seq<u8>)
    requires
        climbs_above_root(segments_of(raw)),
    ensures
        resolved(raw) is Err,
{
    if resolved(raw) is Ok {
        admitted_path_stays_below_root(raw);
    }
}

/// A path is refused as forbidden only where it does climb above the
/// serving root.
pub proof fn forbidden_path_climbs_above_root(raw: Seq<u8>)
    requires
        resolved(raw) == Err::<Seq<Seq<u8>>, PathError>(PathError::Forbidden),
    ensures
        climbs_above_root(segments_of(raw)),
{
    let k = lemma_walk_forbidden(Seq::empty(), segments_of(raw));
}

} // verus!

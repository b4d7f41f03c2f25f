//! Directive comments that opt a site into or out of tracking.
use vstd::prelude::*;
use crate::ast::{Comment, CommentKind};
use crate::names::{contains, contains_spec};

verus! {

pub open spec fn track_marker() -> Seq<char> {
    "@trackSignals"@
}

pub open spec fn no_track_marker() -> Seq<char> {
    "@noTrackSignals"@
}

/// What the directives leading a site ask for.
#[derive(PartialEq, Eq, Structural, Clone, Copy, Debug)]
pub enum ShouldTrack {
    OptIn,
    OptOut,
    Auto,
}

/// A site carries both directives.
#[derive(PartialEq, Eq, Structural, Clone, Copy, Debug)]
pub struct ConflictingDirectives;

pub open spec fn has_marker(comments: Seq<Comment>, marker: Seq<char>) -> bool {
    exists|i: int|
        0 <= i < comments.len() && (#[trigger] comments[i]).kind == CommentKind::Block
            && contains_spec(comments[i].text@, marker)
}

pub open spec fn verdict_spec(comments: Seq<Comment>) -> Result<ShouldTrack, ConflictingDirectives> {
    let opt_in = has_marker(comments, track_marker());
    let opt_out = has_marker(comments, no_track_marker());
    if opt_in && opt_out {
        Err(ConflictingDirectives)
    } else if opt_out {
        Ok(ShouldTrack::OptOut)
    } else if opt_in {
        Ok(ShouldTrack::OptIn)
    } else {
        Ok(ShouldTrack::Auto)
    }
}

pub fn is_track_signals_directive(text: &str) -> (r: bool)
    ensures
        r == contains_spec(text@, track_marker()),
{
    contains(text, "@trackSignals")
}

pub fn is_no_track_signals_directive(text: &str) -> (r: bool)
    ensures
        r == contains_spec(text@, no_track_marker()),
{
    contains(text, "@noTrackSignals")
}

/// Whether some block comment holds the marker that `opt_out` selects.
fn find_marker(comments: &Vec<Comment>, opt_out: bool) -> (r: bool)
    ensures
        r == has_marker(comments@, if opt_out { no_track_marker() } else { track_marker() }),
{
    let mut i: usize = 0;
    while i < comments.len()
        invariant
            i <= comments@.len(),
            forall|k: int| 0 <= k < i ==> !(#[trigger] comments@[k].kind == CommentKind::Block
                && contains_spec(comments@[k].text@, if opt_out { no_track_marker() } else { track_marker() })),
        decreases comments@.len() - i,
    {
        let c = &comments[i];
        if c.kind == CommentKind::Block {
            let found = if opt_out {
                is_no_track_signals_directive(c.text.as_str())
            } else {
                is_track_signals_directive(c.text.as_str())
            };
            if found {
                return true;
            }
        }
        i = i + 1;
    }
    false
}

/// Classifies the comments that lead a site.
pub fn should_track_by_comment(comments: &Vec<Comment>) -> (r: Result<ShouldTrack, ConflictingDirectives>)
    ensures
        r == verdict_spec(comments@),
{
    let opt_in = find_marker(comments, false);
    let opt_out = find_marker(comments, true);
    if opt_in && opt_out {
        Err(ConflictingDirectives)
    } else if opt_out {
        Ok(ShouldTrack::OptOut)
    } else if opt_in {
        Ok(ShouldTrack::OptIn)
    } else {
        Ok(ShouldTrack::Auto)
    }
}

} // verus!

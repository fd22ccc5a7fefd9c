//! What a subscriber makes of the events: replaying the events of a step on
//! the picture of the frame before it gives the picture of the frame after.

use vstd::prelude::*;
use super::changes::{
    Change, FrameModel, Wipes, changes, cursor_changes, emitted, line_changes, numbered,
    row_changed, screen_changes, wipe_changes,
};
use super::events::EventModel;
use super::format::rendered;
use super::state::{Cursor, LineModel};
use super::task::render_all;

verus! {

/// What a subscriber knows of the screen: the rendered visible rows, the
/// cursor, and which screen is active.
pub struct Picture {
    pub lines: Seq<LineModel>,
    pub cursor: Cursor,
    pub alternate_active: bool,
}

impl FrameModel {
    /// The picture that a subscriber has of this frame.
    pub open spec fn picture(self, styled: bool) -> Picture {
        Picture {
            lines: render_all(self.rows, styled),
            cursor: self.cursor,
            alternate_active: self.alternate_active,
        }
    }
}

impl Picture {
    /// The picture after one change: a line change replaces its row, or
    /// adds it if it is the row after the last; a cursor change replaces the
    /// cursor; a mode change sets the active screen; a reset changes
    /// nothing by itself.
    pub open spec fn with(self, change: Change) -> Picture {
        match change {
            Change::Line { index, line, .. } => if index < self.lines.len() {
                Picture { lines: self.lines.update(index as int, line), ..self }
            } else if index == self.lines.len() {
                Picture { lines: self.lines.push(line), ..self }
            } else {
                self
            },
            Change::Cursor { row, col, visible } => Picture {
                cursor: Cursor { row, col, visible },
                ..self
            },
            Change::Mode { alternate_active } => Picture { alternate_active, ..self },
            Change::Reset { .. } => self,
        }
    }

    /// The picture after a sequence of changes, in order.
    pub open spec fn with_all(self, changes: Seq<Change>) -> Picture
        decreases changes.len(),
    {
        if changes.len() == 0 {
            self
        } else {
            self.with_all(changes.drop_last()).with(changes.last())
        }
    }

    /// The picture after one event. Events of kinds that a step does not
    /// emit leave the picture as it is.
    pub open spec fn seen(self, event: EventModel) -> Picture {
        match event {
            EventModel::Line { index, line, total_lines, .. } => self.with(
                Change::Line { index, line, total_lines },
            ),
            EventModel::Cursor { row, col, visible, .. } => self.with(
                Change::Cursor { row, col, visible },
            ),
            EventModel::Mode { alternate_active, .. } => self.with(
                Change::Mode { alternate_active },
            ),
            EventModel::Reset { reason, .. } => self.with(Change::Reset { reason }),
            EventModel::Sync { .. } => self,
            EventModel::Diff { .. } => self,
        }
    }

    /// The picture after a sequence of events, in order.
    pub open spec fn seen_all(self, events: Seq<EventModel>) -> Picture
        decreases events.len(),
    {
        if events.len() == 0 {
            self
        } else {
            self.seen_all(events.drop_last()).seen(events.last())
        }
    }
}

/// The rows of the picture while the first `n` rows of the later frame
/// have been reported: those rows as the later frame has them, the others
/// as the earlier frame has them.
pub open spec fn merged(pre: FrameModel, post: FrameModel, styled: bool, n: nat) -> Seq<LineModel> {
    Seq::new(
        if pre.rows.len() >= n {
            pre.rows.len()
        } else {
            n
        },
        |i: int|
            if i < n {
                rendered(post.rows[i], styled)
            } else {
                rendered(pre.rows[i], styled)
            },
    )
}

/// The sequence numbers do not matter to the picture.
pub proof fn lemma_seen_all_numbered(picture: Picture, changes: Seq<Change>, last_seq: u64)
    ensures
        picture.seen_all(numbered(changes, last_seq)) == picture.with_all(changes),
    decreases changes.len(),
{
    if changes.len() > 0 {
        lemma_seen_all_numbered(picture, changes.drop_last(), last_seq);
        assert(numbered(changes, last_seq).drop_last() == numbered(changes.drop_last(), last_seq));
    }
}

/// Changes in a row are seen one sequence after the other.
pub proof fn lemma_with_all_concat(picture: Picture, a: Seq<Change>, b: Seq<Change>)
    ensures
        picture.with_all(a + b) == picture.with_all(a).with_all(b),
    decreases b.len(),
{
    if b.len() == 0 {
        assert(a + b == a);
    } else {
        lemma_with_all_concat(picture, a, b.drop_last());
        assert((a + b).drop_last() == a + b.drop_last());
    }
}

/// A single change is seen as itself.
pub proof fn lemma_with_all_one(picture: Picture, change: Change)
    ensures
        picture.with_all(seq![change]) == picture.with(change),
        picture.with_all(Seq::empty()) == picture,
{
    assert(seq![change].drop_last() == Seq::<Change>::empty());
    assert(seq![change].last() == change);
    assert(picture.with_all(Seq::<Change>::empty()) == picture);
    assert(picture.with_all(seq![change].drop_last()) == picture);
}

/// The line changes of the first `n` rows turn the rows of the picture
/// into the merged rows, and leave the rest of the picture alone.
pub proof fn lemma_with_line_changes(
    picture: Picture,
    pre: FrameModel,
    post: FrameModel,
    styled: bool,
    n: nat,
)
    requires
        picture.lines == render_all(pre.rows, styled),
        pre.rows.len() <= post.rows.len() <= usize::MAX,
        n <= post.rows.len(),
    ensures
        picture.with_all(line_changes(pre, post, styled, n)) == (Picture {
            lines: merged(pre, post, styled, n),
            ..picture
        }),
    decreases n,
{
    if n == 0 {
        assert(merged(pre, post, styled, 0) == render_all(pre.rows, styled));
    } else {
        let m = (n - 1) as nat;
        lemma_with_line_changes(picture, pre, post, styled, m);
        let before = Picture { lines: merged(pre, post, styled, m), ..picture };
        if row_changed(pre, post, m as int) {
            let change = Change::Line {
                index: m as usize,
                line: rendered(post.rows[m as int], styled),
                total_lines: post.total_lines,
            };
            assert(line_changes(pre, post, styled, n).drop_last() == line_changes(
                pre,
                post,
                styled,
                m,
            ));
            assert(before.with(change).lines == merged(pre, post, styled, n));
        } else {
            assert(merged(pre, post, styled, m) == merged(pre, post, styled, n));
        }
    }
}

/// The events of a step reconstruct the new state: a subscriber who has
/// the picture of the earlier frame and sees the events of the step, in
/// order, has the picture of the later frame. This holds where the later
/// frame has no fewer rows than the earlier one; after a resize, which is
/// reported by a reset, subscribers ask for the screen again.
pub proof fn lemma_events_reconstruct_the_frame(
    pre: FrameModel,
    post: FrameModel,
    wipes: Wipes,
    styled: bool,
    last_seq: u64,
)
    requires
        pre.rows.len() <= post.rows.len() <= usize::MAX,
    ensures
        pre.picture(styled).seen_all(emitted(pre, post, wipes, styled, last_seq)) == post.picture(
            styled,
        ),
{
    let start = pre.picture(styled);
    let switch = screen_changes(pre, post);
    let wiped = wipe_changes(wipes);
    let lines = line_changes(pre, post, styled, post.rows.len());
    let cursor = cursor_changes(pre, post);
    lemma_seen_all_numbered(start, changes(pre, post, wipes, styled), last_seq);
    lemma_with_all_concat(start, switch + wiped + lines, cursor);
    lemma_with_all_concat(start, switch + wiped, lines);
    lemma_with_all_concat(start, switch, wiped);

    // the screen switch
    let switched = Picture { alternate_active: post.alternate_active, ..start };
    assert(start.with_all(switch) == switched) by {
        if pre.alternate_active != post.alternate_active {
            let mode = Change::Mode { alternate_active: post.alternate_active };
            assert(switch.drop_last() == seq![mode]);
            lemma_with_all_one(start, mode);
        }
    }
    // the wipes
    assert(switched.with_all(wiped) == switched) by {
        lemma_resets_change_nothing(switched, wiped);
    }
    // the rows
    lemma_with_line_changes(switched, pre, post, styled, post.rows.len());
    let drawn = Picture { lines: merged(pre, post, styled, post.rows.len()), ..switched };
    assert(merged(pre, post, styled, post.rows.len()) == render_all(post.rows, styled));
    // the cursor
    assert(drawn.with_all(cursor) == post.picture(styled)) by {
        if pre.cursor != post.cursor {
            lemma_with_all_one(
                drawn,
                Change::Cursor {
                    row: post.cursor.row,
                    col: post.cursor.col,
                    visible: post.cursor.visible,
                },
            );
        }
    }
}

/// Resets change nothing in the picture by themselves.
pub proof fn lemma_resets_change_nothing(picture: Picture, changes: Seq<Change>)
    requires
        forall|i: int| 0 <= i < changes.len() ==> changes[i] is Reset,
    ensures
        picture.with_all(changes) == picture,
    decreases changes.len(),
{
    if changes.len() > 0 {
        lemma_resets_change_nothing(picture, changes.drop_last());
    }
}

} // verus!

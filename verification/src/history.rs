use vstd::prelude::*;

verus! {

/// How many entries the undo and the redo stack each keep at most.
pub const MAX_HISTORY_ENTRIES: usize = 50;

/// A drawn shape as the edit history keeps it.
pub trait HistoryShape: Sized {
    /// What a copy made for the history keeps of the shape: the shape without its render
    /// caches.
    spec fn kept(&self) -> Self;

    /// Keeping what the history keeps of a shape a second time changes nothing.
    proof fn lemma_kept_idempotent(&self)
        ensures
            self.kept().kept() == self.kept(),
    ;

    /// A copy of the shape for the history: the shape without its render caches.
    fn clone_for_history(&self) -> (r: Self)
        ensures
            r == self.kept(),
    ;
}

/// A selection rectangle, which anchors the toolbar at its bottom-right corner.
pub trait SelectionAnchor<P> {
    /// The bottom-right corner of the rectangle.
    fn right_bottom(&self) -> P;

    /// Whether the rectangle has a positive width and height.
    fn is_positive(&self) -> bool;
}

/// `copy` is what `clone_for_history` makes of `orig`: the shape without its render caches.
pub open spec fn snapshot_of<S: HistoryShape>(orig: S, copy: S) -> bool {
    copy == orig.kept()
}

/// `copy` holds, in order, snapshots of the shapes in `orig`.
pub open spec fn snapshots_of<S: HistoryShape>(orig: Seq<S>, copy: Seq<S>) -> bool {
    &&& orig.len() == copy.len()
    &&& forall|i: int| 0 <= i < orig.len() ==> #[trigger] snapshot_of(orig[i], copy[i])
}

/// The shapes as the history keeps them.
pub open spec fn kept_seq<S: HistoryShape>(shapes: Seq<S>) -> Seq<S> {
    shapes.map_values(|x: S| x.kept())
}

/// One step of the undo or the redo stack: applying it undoes (or redoes) one edit.
pub enum HistoryEntry<S, R> {
    InsertShape { index: usize, shape: S },
    RemoveShape { index: usize },
    ReplaceShape { index: usize, shape: S },
    RestoreSelectionAndShapes { selection: Option<R>, shapes: Vec<S> },
}

/// A history entry as a mathematical value.
pub enum EntryModel<S, R> {
    InsertShape { index: usize, shape: S },
    RemoveShape { index: usize },
    ReplaceShape { index: usize, shape: S },
    RestoreSelectionAndShapes { selection: Option<R>, shapes: Seq<S> },
}

impl<S, R> HistoryEntry<S, R> {
    pub open spec fn model(&self) -> EntryModel<S, R> {
        match self {
            HistoryEntry::InsertShape { index, shape } => EntryModel::InsertShape {
                index: *index,
                shape: *shape,
            },
            HistoryEntry::RemoveShape { index } => EntryModel::RemoveShape { index: *index },
            HistoryEntry::ReplaceShape { index, shape } => EntryModel::ReplaceShape {
                index: *index,
                shape: *shape,
            },
            HistoryEntry::RestoreSelectionAndShapes { selection, shapes } =>
                EntryModel::RestoreSelectionAndShapes { selection: *selection, shapes: shapes@ },
        }
    }
}

/// The entries of a stack as mathematical values.
pub open spec fn entries_model<S, R>(v: Seq<HistoryEntry<S, R>>) -> Seq<EntryModel<S, R>> {
    v.map_values(|e: HistoryEntry<S, R>| e.model())
}

/// An entry as the history keeps it: its shapes as kept.
pub open spec fn kept_entry<S: HistoryShape, R>(e: EntryModel<S, R>) -> EntryModel<S, R> {
    match e {
        EntryModel::InsertShape { index, shape } => EntryModel::InsertShape {
            index,
            shape: shape.kept(),
        },
        EntryModel::RemoveShape { index } => EntryModel::RemoveShape { index },
        EntryModel::ReplaceShape { index, shape } => EntryModel::ReplaceShape {
            index,
            shape: shape.kept(),
        },
        EntryModel::RestoreSelectionAndShapes { selection, shapes } =>
            EntryModel::RestoreSelectionAndShapes { selection, shapes: kept_seq(shapes) },
    }
}

/// The entries of a stack as the history keeps them.
pub open spec fn kept_entries<S: HistoryShape, R>(v: Seq<EntryModel<S, R>>) -> Seq<
    EntryModel<S, R>,
> {
    v.map_values(|e: EntryModel<S, R>| kept_entry(e))
}

/// A stack after pushing `e`, dropping its oldest entry when it grows beyond the bound.
pub open spec fn bounded_push<E>(stack: Seq<E>, e: E) -> Seq<E> {
    if stack.len() + 1 > MAX_HISTORY_ENTRIES {
        stack.push(e).drop_first()
    } else {
        stack.push(e)
    }
}

/// Whether an entry can be applied to a list of `len` shapes.
pub open spec fn entry_applies<S, R>(e: EntryModel<S, R>, len: nat) -> bool {
    match e {
        EntryModel::InsertShape { index, .. } => index <= len,
        EntryModel::RemoveShape { index } => index < len,
        EntryModel::ReplaceShape { index, .. } => index < len,
        EntryModel::RestoreSelectionAndShapes { .. } => true,
    }
}

/// Applying entry `e` to `shapes` and `selection` gives `shapes2` and `selection2`, and `inv`
/// is the entry that reverts it. An entry that does not apply changes nothing and has no
/// inverse.
pub open spec fn applied<S: HistoryShape, R>(
    shapes: Seq<S>,
    selection: Option<R>,
    e: EntryModel<S, R>,
    shapes2: Seq<S>,
    selection2: Option<R>,
    inv: Option<EntryModel<S, R>>,
) -> bool {
    if !entry_applies(e, shapes.len()) {
        shapes2 == shapes && selection2 == selection && inv is None
    } else {
        match e {
            EntryModel::InsertShape { index, shape } => {
                &&& shapes2 == shapes.insert(index as int, shape)
                &&& selection2 == selection
                &&& inv == Some(EntryModel::<S, R>::RemoveShape { index })
            },
            EntryModel::RemoveShape { index } => {
                &&& shapes2 == shapes.remove(index as int)
                &&& selection2 == selection
                &&& inv matches Some(EntryModel::InsertShape { index: j, shape: copy })
                &&& j == index && snapshot_of(shapes[index as int], copy)
            },
            EntryModel::ReplaceShape { index, shape } => {
                &&& shapes2 == shapes.update(index as int, shape)
                &&& selection2 == selection
                &&& inv matches Some(EntryModel::ReplaceShape { index: j, shape: copy })
                &&& j == index && snapshot_of(shapes[index as int], copy)
            },
            EntryModel::RestoreSelectionAndShapes { selection: sel, shapes: restored } => {
                &&& shapes2 == restored
                &&& selection2 == sel
                &&& inv matches Some(
                    EntryModel::RestoreSelectionAndShapes { selection: prev_sel, shapes: prev },
                )
                &&& prev_sel == selection && snapshots_of(shapes, prev)
            },
        }
    }
}

/// The part of the screenshot state that the edit history reads and writes.
#[verifier::ext_equal]
pub struct EditModel<S, R> {
    pub shapes: Seq<S>,
    pub selection: Option<R>,
    pub history: Seq<EntryModel<S, R>>,
    pub redo: Seq<EntryModel<S, R>>,
}

/// Taking the last entry off stack `from`, applying it, and pushing its inverse onto
/// stack `to` leads from the first four values to the last four. With `from` empty
/// nothing changes.
pub open spec fn step<S: HistoryShape, R>(
    shapes: Seq<S>,
    selection: Option<R>,
    from: Seq<EntryModel<S, R>>,
    to: Seq<EntryModel<S, R>>,
    shapes2: Seq<S>,
    selection2: Option<R>,
    from2: Seq<EntryModel<S, R>>,
    to2: Seq<EntryModel<S, R>>,
) -> bool {
    if from.len() == 0 {
        shapes2 == shapes && selection2 == selection && from2 == from && to2 == to
    } else {
        &&& from2 == from.drop_last()
        &&& exists|inv: Option<EntryModel<S, R>>|
            {
                &&& #[trigger] applied(shapes, selection, from.last(), shapes2, selection2, inv)
                &&& to2 == match inv {
                    Some(i) => bounded_push(to, i),
                    None => to,
                }
            }
    }
}

/// `after` is what undoing the last edit makes of `before`.
pub open spec fn undone<S: HistoryShape, R>(before: EditModel<S, R>, after: EditModel<S, R>) -> bool {
    step(
        before.shapes,
        before.selection,
        before.history,
        before.redo,
        after.shapes,
        after.selection,
        after.history,
        after.redo,
    )
}

/// `after` is what redoing the last undone edit makes of `before`.
pub open spec fn redone<S: HistoryShape, R>(before: EditModel<S, R>, after: EditModel<S, R>) -> bool {
    step(
        before.shapes,
        before.selection,
        before.redo,
        before.history,
        after.shapes,
        after.selection,
        after.redo,
        after.history,
    )
}

/// Both stacks hold at most the bound.
pub open spec fn bounded<S, R>(m: EditModel<S, R>) -> bool {
    m.history.len() <= MAX_HISTORY_ENTRIES && m.redo.len() <= MAX_HISTORY_ENTRIES
}


/// Pushing onto a stack that holds at most the bound leaves it within the bound.
pub proof fn lemma_bounded_push_bounded<E>(stack: Seq<E>, e: E)
    requires
        stack.len() <= MAX_HISTORY_ENTRIES,
    ensures
        bounded_push(stack, e).len() <= MAX_HISTORY_ENTRIES,
        bounded_push(stack, e).last() == e,
{
}

/// Undoing and redoing keep both stacks within the bound.
pub proof fn lemma_steps_stay_bounded<S: HistoryShape, R>(m: EditModel<S, R>, m2: EditModel<S, R>)
    requires
        bounded(m),
        undone(m, m2) || redone(m, m2),
    ensures
        bounded(m2),
{
    if undone(m, m2) && m.history.len() > 0 {
        let inv = choose|inv: Option<EntryModel<S, R>>|
            #[trigger] applied(m.shapes, m.selection, m.history.last(), m2.shapes, m2.selection, inv)
                && m2.redo == match inv {
                Some(i) => bounded_push(m.redo, i),
                None => m.redo,
            };
        if let Some(i) = inv {
            lemma_bounded_push_bounded(m.redo, i);
        }
    }
    if redone(m, m2) && m.redo.len() > 0 {
        let inv = choose|inv: Option<EntryModel<S, R>>|
            #[trigger] applied(m.shapes, m.selection, m.redo.last(), m2.shapes, m2.selection, inv)
                && m2.history == match inv {
                Some(i) => bounded_push(m.history, i),
                None => m.history,
            };
        if let Some(i) = inv {
            lemma_bounded_push_bounded(m.history, i);
        }
    }
}

/// Applying an entry and then the inverse it yields gives back the shapes, as the history
/// keeps them, and the selection; the inverse of the inverse is the entry again, as kept.
pub proof fn lemma_apply_inverse<S: HistoryShape, R>(
    shapes: Seq<S>,
    selection: Option<R>,
    e: EntryModel<S, R>,
    shapes1: Seq<S>,
    selection1: Option<R>,
    inv: EntryModel<S, R>,
    shapes2: Seq<S>,
    selection2: Option<R>,
    inv2: Option<EntryModel<S, R>>,
)
    requires
        applied(shapes, selection, e, shapes1, selection1, Some(inv)),
        applied(shapes1, selection1, inv, shapes2, selection2, inv2),
    ensures
        entry_applies(inv, shapes1.len()),
        kept_seq(shapes2) == kept_seq(shapes),
        selection2 == selection,
        inv2 matches Some(e2) && kept_entry(e2) == kept_entry(e),
{
    match e {
        EntryModel::InsertShape { index, shape } => {
            assert(shapes1[index as int] == shape);
            assert(shapes1.remove(index as int) =~= shapes);
            if let Some(EntryModel::InsertShape { index: j, shape: copy }) = inv2 {
                assert(snapshot_of(shapes1[index as int], copy));
                shape.lemma_kept_idempotent();
            }
        },
        EntryModel::RemoveShape { index } => {
            if let EntryModel::InsertShape { index: j, shape: copy } = inv {
                assert(snapshot_of(shapes[index as int], copy));
                shapes[index as int].lemma_kept_idempotent();
                assert(kept_seq(shapes1.insert(index as int, copy)) =~= kept_seq(shapes));
            }
        },
        EntryModel::ReplaceShape { index, shape } => {
            if let EntryModel::ReplaceShape { index: j, shape: copy } = inv {
                assert(snapshot_of(shapes[index as int], copy));
                shapes[index as int].lemma_kept_idempotent();
                assert(kept_seq(shapes1.update(index as int, copy)) =~= kept_seq(shapes));
            }
            if let Some(EntryModel::ReplaceShape { index: j, shape: copy2 }) = inv2 {
                assert(snapshot_of(shapes1[index as int], copy2));
                shape.lemma_kept_idempotent();
            }
        },
        EntryModel::RestoreSelectionAndShapes { selection: sel, shapes: restored } => {
            if let EntryModel::RestoreSelectionAndShapes { selection: ps, shapes: prev } = inv {
                assert forall|i: int| 0 <= i < shapes.len() implies prev[i].kept()
                    == shapes[i].kept() by {
                    assert(snapshot_of(shapes[i], prev[i]));
                    shapes[i].lemma_kept_idempotent();
                }
                assert(kept_seq(prev) =~= kept_seq(shapes));
            }
            if let Some(EntryModel::RestoreSelectionAndShapes { selection: ps2, shapes: prev2 }) = inv2 {
                assert forall|i: int| 0 <= i < restored.len() implies prev2[i].kept()
                    == restored[i].kept() by {
                    assert(snapshot_of(shapes1[i], prev2[i]));
                    restored[i].lemma_kept_idempotent();
                }
                assert(kept_seq(prev2) =~= kept_seq(restored));
            }
        },
    }
}

/// Pushing onto a stack below the bound and keeping entries commute.
proof fn lemma_kept_push<S: HistoryShape, R>(stack: Seq<EntryModel<S, R>>, e: EntryModel<S, R>)
    requires
        stack.len() < MAX_HISTORY_ENTRIES,
    ensures
        kept_entries(bounded_push(stack, e)) == kept_entries(stack).push(kept_entry(e)),
{
    assert(kept_entries(stack.push(e)) =~= kept_entries(stack).push(kept_entry(e)));
}

/// Undoing an edit whose entry applies and then redoing it gives back the shapes and the undo
/// stack as the history keeps them, and the selection; the redo stack comes back too, without
/// its oldest entry when it was full, since the undo pushed one entry more onto it.
pub proof fn lemma_undo_then_redo<S: HistoryShape, R>(
    m: EditModel<S, R>,
    m1: EditModel<S, R>,
    m2: EditModel<S, R>,
)
    requires
        m.history.len() > 0,
        bounded(m),
        entry_applies(m.history.last(), m.shapes.len()),
        undone(m, m1),
        redone(m1, m2),
    ensures
        kept_seq(m2.shapes) == kept_seq(m.shapes),
        m2.selection == m.selection,
        kept_entries(m2.history) == kept_entries(m.history),
        m2.redo == if m.redo.len() < MAX_HISTORY_ENTRIES {
            m.redo
        } else {
            m.redo.drop_first()
        },
{
    let e = m.history.last();
    let inv1 = choose|inv: Option<EntryModel<S, R>>|
        #[trigger] applied(m.shapes, m.selection, e, m1.shapes, m1.selection, inv) && m1.redo
            == match inv {
            Some(i) => bounded_push(m.redo, i),
            None => m.redo,
        };
    let i1 = inv1->0;
    lemma_bounded_push_bounded(m.redo, i1);
    assert(m1.redo.len() > 0);
    let inv2 = choose|inv: Option<EntryModel<S, R>>|
        #[trigger] applied(m1.shapes, m1.selection, i1, m2.shapes, m2.selection, inv)
            && m2.history == match inv {
            Some(i) => bounded_push(m1.history, i),
            None => m1.history,
        };
    lemma_apply_inverse(m.shapes, m.selection, e, m1.shapes, m1.selection, i1, m2.shapes, m2.selection, inv2);
    let e2 = inv2->0;
    lemma_kept_push(m1.history, e2);
    assert(m.history.drop_last().push(e) =~= m.history);
    assert(kept_entries(m.history.drop_last()).push(kept_entry(e)) =~= kept_entries(m.history));
    if m.redo.len() < MAX_HISTORY_ENTRIES {
        assert(m.redo.push(i1).drop_last() =~= m.redo);
    } else {
        assert(m.redo.push(i1).drop_first().drop_last() =~= m.redo.drop_first());
    }
}

/// Redoing an undone edit whose entry applies and then undoing it gives back the shapes and
/// the redo stack as the history keeps them, and the selection; the undo stack comes back
/// too, without its oldest entry when it was full.
pub proof fn lemma_redo_then_undo<S: HistoryShape, R>(
    m: EditModel<S, R>,
    m1: EditModel<S, R>,
    m2: EditModel<S, R>,
)
    requires
        m.redo.len() > 0,
        bounded(m),
        entry_applies(m.redo.last(), m.shapes.len()),
        redone(m, m1),
        undone(m1, m2),
    ensures
        kept_seq(m2.shapes) == kept_seq(m.shapes),
        m2.selection == m.selection,
        kept_entries(m2.redo) == kept_entries(m.redo),
        m2.history == if m.history.len() < MAX_HISTORY_ENTRIES {
            m.history
        } else {
            m.history.drop_first()
        },
{
    let e = m.redo.last();
    let inv1 = choose|inv: Option<EntryModel<S, R>>|
        #[trigger] applied(m.shapes, m.selection, e, m1.shapes, m1.selection, inv) && m1.history
            == match inv {
            Some(i) => bounded_push(m.history, i),
            None => m.history,
        };
    let i1 = inv1->0;
    lemma_bounded_push_bounded(m.history, i1);
    assert(m1.history.len() > 0);
    let inv2 = choose|inv: Option<EntryModel<S, R>>|
        #[trigger] applied(m1.shapes, m1.selection, i1, m2.shapes, m2.selection, inv)
            && m2.redo == match inv {
            Some(i) => bounded_push(m1.redo, i),
            None => m1.redo,
        };
    lemma_apply_inverse(m.shapes, m.selection, e, m1.shapes, m1.selection, i1, m2.shapes, m2.selection, inv2);
    let e2 = inv2->0;
    lemma_kept_push(m1.redo, e2);
    assert(m.redo.drop_last().push(e) =~= m.redo);
    assert(kept_entries(m.redo.drop_last()).push(kept_entry(e)) =~= kept_entries(m.redo));
    if m.history.len() < MAX_HISTORY_ENTRIES {
        assert(m.history.push(i1).drop_last() =~= m.history);
    } else {
        assert(m.history.push(i1).drop_first().drop_last() =~= m.history.drop_first());
    }
}

/// Undoing the record of an added shape removes that shape, takes the record off the undo
/// stack and leaves one entry on the redo stack.
pub proof fn lemma_undo_shape_added<S: HistoryShape, R>(
    m: EditModel<S, R>,
    index: usize,
    m1: EditModel<S, R>,
    m2: EditModel<S, R>,
)
    requires
        index < m.shapes.len(),
        m.history.len() < MAX_HISTORY_ENTRIES,
        m1 == (EditModel {
            history: bounded_push(m.history, EntryModel::<S, R>::RemoveShape { index }),
            redo: Seq::empty(),
            ..m
        }),
        undone(m1, m2),
    ensures
        m2.shapes == m.shapes.remove(index as int),
        m2.selection == m.selection,
        m2.history == m.history,
        m2.redo.len() == 1,
{
    assert(m1.history.last() == EntryModel::<S, R>::RemoveShape { index });
    assert(m1.history.drop_last() =~= m.history);
}

/// After a shape was recorded before an edit and then changed, undoing puts the snapshot
/// back in its place.
pub proof fn lemma_undo_shape_edit<S: HistoryShape, R>(
    m: EditModel<S, R>,
    index: usize,
    copy: S,
    edited: Seq<S>,
    m1: EditModel<S, R>,
    m2: EditModel<S, R>,
)
    requires
        index < m.shapes.len(),
        snapshot_of(m.shapes[index as int], copy),
        edited.len() == m.shapes.len(),
        m1 == (EditModel {
            shapes: edited,
            history: bounded_push(m.history, EntryModel::<S, R>::ReplaceShape { index, shape: copy }),
            redo: Seq::empty(),
            ..m
        }),
        undone(m1, m2),
    ensures
        m2.shapes == edited.update(index as int, copy),
        m2.shapes[index as int] == m.shapes[index as int].kept(),
        m2.selection == m.selection,
        m2.redo.len() == 1,
{
    let n = m.history.len();
    assert(m1.history.last() == EntryModel::<S, R>::ReplaceShape { index, shape: copy });
}

/// After a selection change was recorded and the selection and shapes then changed,
/// undoing restores the recorded selection and the snapshot of the shapes.
pub proof fn lemma_undo_selection_change<S: HistoryShape, R>(
    m: EditModel<S, R>,
    previous: Option<R>,
    copies: Seq<S>,
    shapes: Seq<S>,
    selection: Option<R>,
    m1: EditModel<S, R>,
    m2: EditModel<S, R>,
)
    requires
        snapshots_of(m.shapes, copies),
        m1 == (EditModel {
            shapes,
            selection,
            history: bounded_push(
                m.history,
                EntryModel::<S, R>::RestoreSelectionAndShapes { selection: previous, shapes: copies },
            ),
            redo: Seq::empty(),
        }),
        undone(m1, m2),
    ensures
        m2.shapes == copies,
        m2.shapes == kept_seq(m.shapes),
        m2.selection == previous,
        m2.redo.len() == 1,
{
    assert(copies =~= kept_seq(m.shapes)) by {
        assert forall|i: int| 0 <= i < copies.len() implies copies[i] == m.shapes[i].kept() by {
            assert(snapshot_of(m.shapes[i], copies[i]));
        }
    }
    assert(m1.history.last() == EntryModel::<S, R>::RestoreSelectionAndShapes {
        selection: previous,
        shapes: copies,
    });
}

/// Whether the screenshot was opened from a normal, a minimized or a hidden window.
#[derive(PartialEq, Eq, Clone, Copy, Debug, Structural)]
pub enum WindowPrevState {
    Normal,
    Minimized,
    Tray,
}

/// What the screenshot session asks for when it ends.
#[derive(PartialEq, Eq, Clone, Copy, Debug, Structural)]
pub enum ScreenshotAction {
    /// The session goes on.
    NoAction,
    Close,
    SaveAndClose,
    SaveToClipboard,
    Ocr,
}

/// The drawing tools of the screenshot toolbar.
#[derive(PartialEq, Eq, Clone, Copy, Debug, Structural)]
pub enum ScreenshotTool {
    Rect,
    Circle,
    Arrow,
    Text,
    Pen,
    Mosaic,
}

/// Window bookkeeping of a screenshot session.
pub struct ScreenshotRuntimeState {
    pub window_configured: bool,
    pub prev_window_state: WindowPrevState,
}

impl ScreenshotRuntimeState {
    /// A session opened from a window in `prev_window_state`, not yet configured.
    pub fn new(prev_window_state: WindowPrevState) -> (r: Self)
        ensures
            !r.window_configured,
            r.prev_window_state == prev_window_state,
    {
        Self { window_configured: false, prev_window_state }
    }
}

/// The selected region, where the toolbar stands, and the window under the pointer.
pub struct ScreenshotSelectionState<R, P> {
    pub selection: Option<R>,
    pub drag_start: Option<P>,
    pub toolbar_pos: Option<P>,
    pub hovered_window: Option<R>,
}

/// The shapes drawn so far with their undo and redo stacks.
pub struct ScreenshotEditState<S, R> {
    pub shapes: Vec<S>,
    pub history: Vec<HistoryEntry<S, R>>,
    pub redo: Vec<HistoryEntry<S, R>>,
}

/// The editing state of a screenshot session: selection, shapes and history.
pub struct ScreenshotState<S, R, P> {
    pub select: ScreenshotSelectionState<R, P>,
    pub edit: ScreenshotEditState<S, R>,
    pub runtime: ScreenshotRuntimeState,
}

impl<S: HistoryShape, R: Copy + SelectionAnchor<P>, P> ScreenshotState<S, R, P> {
    /// The shapes, the selection and both stacks as mathematical values.
    pub open spec fn model(&self) -> EditModel<S, R> {
        EditModel {
            shapes: self.edit.shapes@,
            selection: self.select.selection,
            history: entries_model(self.edit.history@),
            redo: entries_model(self.edit.redo@),
        }
    }

    /// The toolbar stands at the selection's corner exactly when there is a selection.
    pub open spec fn toolbar_follows_selection(&self) -> bool {
        &&& self.select.toolbar_pos is Some <==> self.select.selection is Some
        &&& (self.select.selection matches Some(r) ==> call_ensures(
            R::right_bottom,
            (&r,),
            self.select.toolbar_pos->0,
        ))
    }

    /// A fresh session opened from a window in `prev_state`: nothing selected, no shapes,
    /// empty stacks.
    pub fn new(prev_state: WindowPrevState) -> (r: Self)
        ensures
            r.model().shapes.len() == 0,
            r.model().selection is None,
            r.model().history.len() == 0,
            r.model().redo.len() == 0,
            r.select.drag_start is None,
            r.select.toolbar_pos is None,
            r.select.hovered_window is None,
            !r.runtime.window_configured,
            r.runtime.prev_window_state == prev_state,
    {
        let r = Self {
            select: ScreenshotSelectionState {
                selection: None,
                drag_start: None,
                toolbar_pos: None,
                hovered_window: None,
            },
            edit: ScreenshotEditState { shapes: Vec::new(), history: Vec::new(), redo: Vec::new() },
            runtime: ScreenshotRuntimeState::new(prev_state),
        };
        assert(entries_model(r.edit.history@) =~= Seq::<EntryModel<S, R>>::empty());
        assert(entries_model(r.edit.redo@) =~= Seq::<EntryModel<S, R>>::empty());
        r
    }

    fn push_bounded_entry(stack: &mut Vec<HistoryEntry<S, R>>, entry: HistoryEntry<S, R>)
        ensures
            entries_model(final(stack)@) == bounded_push(entries_model(old(stack)@), entry.model()),
    {
        let ghost e = entry.model();
        stack.push(entry);
        proof {
            assert(entries_model(stack@) =~= entries_model(old(stack)@).push(e));
        }
        if stack.len() > MAX_HISTORY_ENTRIES {
            let ghost pushed = stack@;
            stack.remove(0);
            assert(entries_model(stack@) =~= entries_model(pushed).drop_first());
        }
    }

    fn push_undo_entry(&mut self, entry: HistoryEntry<S, R>)
        ensures
            final(self).model() == (EditModel {
                history: bounded_push(old(self).model().history, entry.model()),
                redo: Seq::empty(),
                ..old(self).model()
            }),
            final(self).select == old(self).select,
            final(self).runtime == old(self).runtime,
    {
        self.edit.redo.clear();
        Self::push_bounded_entry(&mut self.edit.history, entry);
        assert(entries_model(self.edit.redo@) =~= Seq::<EntryModel<S, R>>::empty());
    }

    /// Records that a shape was added at `index`: undoing removes it again. The redo stack
    /// is cleared.
    pub fn record_shape_added(&mut self, index: usize)
        ensures
            final(self).model() == (EditModel {
                history: bounded_push(
                    old(self).model().history,
                    EntryModel::<S, R>::RemoveShape { index },
                ),
                redo: Seq::empty(),
                ..old(self).model()
            }),
            final(self).select == old(self).select,
            final(self).runtime == old(self).runtime,
    {
        self.push_undo_entry(HistoryEntry::RemoveShape { index });
    }

    /// Records the shape at `index` before it is edited: undoing puts a snapshot of it back.
    /// The redo stack is cleared. Without a shape at `index` nothing is recorded.
    pub fn record_shape_before_edit(&mut self, index: usize)
        ensures
            final(self).select == old(self).select,
            final(self).runtime == old(self).runtime,
            index >= old(self).edit.shapes.len() ==> final(self).model() == old(self).model(),
            index < old(self).edit.shapes.len() ==> {
                let m = old(self).model();
                let m2 = final(self).model();
                &&& m2.shapes == m.shapes
                &&& m2.selection == m.selection
                &&& m2.redo.len() == 0
                &&& m2.history == bounded_push(
                    m.history,
                    EntryModel::<S, R>::ReplaceShape { index, shape: m.shapes[index as int].kept() },
                )
            },
    {
        if index >= self.edit.shapes.len() {
            return;
        }
        let copy = self.edit.shapes[index].clone_for_history();
        let ghost g = copy;
        self.push_undo_entry(HistoryEntry::ReplaceShape { index, shape: copy });
        assert(snapshot_of(old(self).edit.shapes@[index as int], g));
    }

    fn snapshot_shapes(&self) -> (r: Vec<S>)
        ensures
            snapshots_of(self.edit.shapes@, r@),
    {
        let mut r: Vec<S> = Vec::new();
        let mut i: usize = 0;
        while i < self.edit.shapes.len()
            invariant
                i <= self.edit.shapes.len(),
                r@.len() == i,
                forall|j: int| 0 <= j < i ==> #[trigger] snapshot_of(self.edit.shapes@[j], r@[j]),
            decreases self.edit.shapes.len() - i,
        {
            let copy = self.edit.shapes[i].clone_for_history();
            r.push(copy);
            i = i + 1;
        }
        r
    }

    /// Records the selection before it changes, with snapshots of all shapes: undoing
    /// restores both. The redo stack is cleared.
    pub fn record_selection_change(&mut self, previous_selection: Option<R>)
        ensures
            final(self).select == old(self).select,
            final(self).runtime == old(self).runtime,
            ({
                let m = old(self).model();
                let m2 = final(self).model();
                &&& m2.shapes == m.shapes
                &&& m2.selection == m.selection
                &&& m2.redo.len() == 0
                &&& m2.history == bounded_push(
                    m.history,
                    EntryModel::<S, R>::RestoreSelectionAndShapes {
                        selection: previous_selection,
                        shapes: kept_seq(m.shapes),
                    },
                )
            }),
    {
        let shapes = self.snapshot_shapes();
        let ghost copies = shapes@;
        self.push_undo_entry(
            HistoryEntry::RestoreSelectionAndShapes { selection: previous_selection, shapes },
        );
        assert(snapshots_of(old(self).edit.shapes@, copies));
        assert(copies =~= kept_seq(old(self).edit.shapes@)) by {
            assert forall|i: int| 0 <= i < copies.len() implies copies[i]
                == old(self).edit.shapes@[i].kept() by {
                assert(snapshot_of(old(self).edit.shapes@[i], copies[i]));
            }
        }
    }

    /// Selects `selection` and moves the toolbar to its corner.
    pub fn set_selection(&mut self, selection: Option<R>)
        ensures
            final(self).model() == (EditModel { selection, ..old(self).model() }),
            final(self).edit == old(self).edit,
            final(self).toolbar_follows_selection(),
            final(self).select.drag_start == old(self).select.drag_start,
            final(self).select.hovered_window == old(self).select.hovered_window,
            final(self).runtime == old(self).runtime,
    {
        self.select.selection = selection;
        self.sync_toolbar_to_selection();
    }

    /// Selects `selection` and leaves the toolbar where it is.
    pub fn update_selection_only(&mut self, selection: Option<R>)
        ensures
            final(self).model() == (EditModel { selection, ..old(self).model() }),
            final(self).select.toolbar_pos == old(self).select.toolbar_pos,
            final(self).select.drag_start == old(self).select.drag_start,
            final(self).select.hovered_window == old(self).select.hovered_window,
            final(self).runtime == old(self).runtime,
    {
        self.select.selection = selection;
    }

    /// Moves the toolbar to the corner of the selection, or hides it without one.
    pub fn sync_toolbar_to_selection(&mut self)
        ensures
            final(self).model() == old(self).model(),
            final(self).edit == old(self).edit,
            final(self).toolbar_follows_selection(),
            final(self).select.selection == old(self).select.selection,
            final(self).select.drag_start == old(self).select.drag_start,
            final(self).select.hovered_window == old(self).select.hovered_window,
            final(self).runtime == old(self).runtime,
    {
        self.select.toolbar_pos = match &self.select.selection {
            Some(selection) => Some(selection.right_bottom()),
            None => None,
        };
    }

    /// Whether there is a selection and it has a positive width and height.
    pub fn has_positive_selection(&self) -> (r: bool)
        ensures
            match self.select.selection {
                Some(rect) => call_ensures(R::is_positive, (&rect,), r),
                None => !r,
            },
    {
        match &self.select.selection {
            Some(rect) => rect.is_positive(),
            None => false,
        }
    }

    /// Hides the toolbar.
    pub fn clear_toolbar(&mut self)
        ensures
            final(self).model() == old(self).model(),
            final(self).select.toolbar_pos is None,
            final(self).select.selection == old(self).select.selection,
            final(self).select.drag_start == old(self).select.drag_start,
            final(self).select.hovered_window == old(self).select.hovered_window,
            final(self).runtime == old(self).runtime,
    {
        self.select.toolbar_pos = None;
    }

    fn apply_history_entry(&mut self, entry: HistoryEntry<S, R>) -> (r: Option<
        HistoryEntry<S, R>,
    >)
        ensures
            applied(
                old(self).edit.shapes@,
                old(self).select.selection,
                entry.model(),
                final(self).edit.shapes@,
                final(self).select.selection,
                match r {
                    Some(e) => Some(e.model()),
                    None => None,
                },
            ),
            final(self).edit.history == old(self).edit.history,
            final(self).edit.redo == old(self).edit.redo,
            final(self).runtime == old(self).runtime,
            final(self).select.drag_start == old(self).select.drag_start,
            final(self).select.hovered_window == old(self).select.hovered_window,
            (entry matches HistoryEntry::RestoreSelectionAndShapes { .. })
                ==> final(self).toolbar_follows_selection(),
            !(entry matches HistoryEntry::RestoreSelectionAndShapes { .. })
                ==> final(self).select.toolbar_pos == old(self).select.toolbar_pos,
    {
        match entry {
            HistoryEntry::InsertShape { index, shape } => {
                if index <= self.edit.shapes.len() {
                    self.edit.shapes.insert(index, shape);
                    Some(HistoryEntry::RemoveShape { index })
                } else {
                    None
                }
            },
            HistoryEntry::RemoveShape { index } => {
                if index < self.edit.shapes.len() {
                    let removed = self.edit.shapes.remove(index);
                    let copy = removed.clone_for_history();
                    Some(HistoryEntry::InsertShape { index, shape: copy })
                } else {
                    None
                }
            },
            HistoryEntry::ReplaceShape { index, shape } => {
                if index < self.edit.shapes.len() {
                    let copy = self.edit.shapes[index].clone_for_history();
                    self.edit.shapes.set(index, shape);
                    Some(HistoryEntry::ReplaceShape { index, shape: copy })
                } else {
                    None
                }
            },
            HistoryEntry::RestoreSelectionAndShapes { selection, shapes } => {
                let previous_selection = self.select.selection;
                let mut previous_shapes = self.snapshot_shapes();
                let mut restored = shapes;
                std::mem::swap(&mut self.edit.shapes, &mut restored);
                self.set_selection(selection);
                Some(
                    HistoryEntry::RestoreSelectionAndShapes {
                        selection: previous_selection,
                        shapes: previous_shapes,
                    },
                )
            },
        }
    }

    /// Undoes the last recorded edit: its entry leaves the undo stack, is applied, and what
    /// reverts it goes onto the redo stack. An entry that no longer applies is dropped.
    pub fn undo_last(&mut self)
        ensures
            undone(old(self).model(), final(self).model()),
            final(self).runtime == old(self).runtime,
            final(self).select.drag_start == old(self).select.drag_start,
            final(self).select.hovered_window == old(self).select.hovered_window,
            (old(self).model().history.len() > 0 && old(self).model().history.last() is RestoreSelectionAndShapes)
                ==> final(self).toolbar_follows_selection(),
            !(old(self).model().history.len() > 0 && old(self).model().history.last() is RestoreSelectionAndShapes)
                ==> final(self).select.toolbar_pos == old(self).select.toolbar_pos,
    {
        let ghost m = self.model();
        let entry = match self.edit.history.pop() {
            Some(e) => e,
            None => {
                assert(self.model() =~= m);
                return;
            },
        };
        proof {
            assert(entries_model(self.edit.history@) =~= m.history.drop_last());
        }
        let ghost e = entry.model();
        let ghost mid = self.model();
        let inverse = self.apply_history_entry(entry);
        let ghost inv = match &inverse {
            Some(i) => Some(i.model()),
            None => None,
        };
        match inverse {
            Some(inverse) => {
                Self::push_bounded_entry(&mut self.edit.redo, inverse);
            },
            None => {},
        }
        assert(applied(m.shapes, m.selection, m.history.last(), self.model().shapes, self.model().selection, inv));
        assert(self.model().history == m.history.drop_last());
        assert(self.model().redo == match inv {
            Some(i) => bounded_push(m.redo, i),
            None => m.redo,
        });
    }

    /// Redoes the last undone edit: its entry leaves the redo stack, is applied, and what
    /// reverts it goes back onto the undo stack.
    pub fn redo_last(&mut self)
        ensures
            redone(old(self).model(), final(self).model()),
            final(self).runtime == old(self).runtime,
            final(self).select.drag_start == old(self).select.drag_start,
            final(self).select.hovered_window == old(self).select.hovered_window,
            (old(self).model().redo.len() > 0 && old(self).model().redo.last() is RestoreSelectionAndShapes)
                ==> final(self).toolbar_follows_selection(),
            !(old(self).model().redo.len() > 0 && old(self).model().redo.last() is RestoreSelectionAndShapes)
                ==> final(self).select.toolbar_pos == old(self).select.toolbar_pos,
    {
        let ghost m = self.model();
        let entry = match self.edit.redo.pop() {
            Some(e) => e,
            None => {
                assert(self.model() =~= m);
                return;
            },
        };
        proof {
            assert(entries_model(self.edit.redo@) =~= m.redo.drop_last());
        }
        let inverse = self.apply_history_entry(entry);
        let ghost inv = match &inverse {
            Some(i) => Some(i.model()),
            None => None,
        };
        match inverse {
            Some(inverse) => {
                Self::push_bounded_entry(&mut self.edit.history, inverse);
            },
            None => {},
        }
        assert(applied(m.shapes, m.selection, m.redo.last(), self.model().shapes, self.model().selection, inv));
        assert(self.model().redo == m.redo.drop_last());
        assert(self.model().history == match inv {
            Some(i) => bounded_push(m.history, i),
            None => m.history,
        });
    }
}

impl<S: HistoryShape, R: Copy + SelectionAnchor<P>, P> Default for ScreenshotState<S, R, P> {
    /// A fresh session opened from a normal window.
    fn default() -> (r: Self)
        ensures
            r.model().shapes.len() == 0,
            r.model().selection is None,
            r.model().history.len() == 0,
            r.model().redo.len() == 0,
            r.select.drag_start is None,
            r.select.toolbar_pos is None,
            r.select.hovered_window is None,
            !r.runtime.window_configured,
            r.runtime.prev_window_state == WindowPrevState::Normal,
    {
        Self::new(WindowPrevState::Normal)
    }
}

} // verus!

use vstd::prelude::*;
use crate::document::LayerModel;
use crate::editor::{EditorModel, ModificationScope};
use crate::events::{EditorEvent, MouseEventType, MouseInfo};
use crate::tool_behaviors::{dragged, fits_i64, move_guideline_label, MoveGuideline, ToolBehavior};

verus! {

/// The editor after `evs` are dispatched in order.
pub open spec fn run(e: EditorModel, evs: Seq<EditorEvent>) -> EditorModel
    decreases evs.len(),
{
    if evs.len() == 0 {
        e
    } else {
        run(e, evs.drop_last()).dispatch(evs.last())
    }
}

pub open spec fn moved(mi: MouseInfo) -> EditorEvent {
    EditorEvent::MouseEvent { event_type: MouseEventType::Moved, mouse_info: mi }
}

pub open spec fn released(mi: MouseInfo) -> EditorEvent {
    EditorEvent::MouseEvent { event_type: MouseEventType::Released, mouse_info: mi }
}

/// A pointer move to each of `mis`, in order.
pub open spec fn moves(mis: Seq<MouseInfo>) -> Seq<EditorEvent> {
    mis.map_values(|mi: MouseInfo| moved(mi))
}

/// `e` is ready for a drag by `mg`: no prompt is pending, `mg` is the top
/// behavior and its guideline exists.
pub open spec fn drag_ready(e: EditorModel, mg: MoveGuideline) -> bool {
    &&& e.wf()
    &&& e.prompts.len() == 0
    &&& e.behaviors.len() > 0
    &&& e.behaviors.last() == ToolBehavior::MoveGuideline(mg)
    &&& mg.target_exists(e)
}

/// Every pointer delta of the drag along `mis`, step by step and from its
/// start, and every position the guideline takes, fits in `i64`.
pub open spec fn drag_fits(e: EditorModel, mg: MoveGuideline, mis: Seq<MouseInfo>) -> bool {
    forall|k: int|
        0 <= k < mis.len() ==> {
            let from = if k == 0 {
                mg.mouse_info.position
            } else {
                mis[k - 1].position
            };
            let to = #[trigger] mis[k].position;
            let d = dragged(mg.target_at(e), mg.mouse_info.position, to);
            &&& fits_i64(from.x - to.x)
            &&& fits_i64(from.y - to.y)
            &&& fits_i64(mg.mouse_info.position.x - to.x)
            &&& fits_i64(mg.mouse_info.position.y - to.y)
            &&& fits_i64(d.0)
            &&& fits_i64(d.1)
        }
}

proof fn lemma_moves_drop_last(mis: Seq<MouseInfo>)
    requires
        mis.len() > 0,
    ensures
        moves(mis).drop_last() == moves(mis.drop_last()),
        moves(mis).last() == moved(mis.last()),
{
    assert(moves(mis).drop_last() =~= moves(mis.drop_last()));
}

/// A drag that fits along `mis` fits along each of its prefixes.
proof fn lemma_drag_fits_prefix(e: EditorModel, mg: MoveGuideline, mis: Seq<MouseInfo>, k: int)
    requires
        drag_fits(e, mg, mis),
        0 <= k <= mis.len(),
    ensures
        drag_fits(e, mg, mis.take(k)),
{
    let pre = mis.take(k);
    assert forall|j: int| 0 <= j < pre.len() implies #[trigger] pre[j] == mis[j] && (j > 0 ==> pre[j - 1] == mis[j - 1]) by {}
}

/// What one pointer move does to an editor ready for a drag.
proof fn lemma_drag_step(e: EditorModel, mg: MoveGuideline, mi: MouseInfo)
    requires
        drag_ready(e, mg),
        mg.move_fits(e, mi),
    ensures
        e.dispatch_ready(moved(mi)),
        ({
            let t = e.dispatch(moved(mi));
            let d = dragged(mg.target_at(e), mg.mouse_info.position, mi.position);
            let e1 = if e.is_modifying() {
                e
            } else {
                e.begin(move_guideline_label(), ModificationScope::Glyph)
            };
            &&& t.glyph == e.glyph.with_guideline_at(
                e.active_layer,
                mg.selected_idx as int,
                crate::events::Point { x: d.0 as i64, y: d.1 as i64 },
            )
            &&& t.behaviors == e.behaviors.update(
                e.behaviors.len() - 1,
                ToolBehavior::MoveGuideline(MoveGuideline { mouse_info: mi, ..mg }),
            )
            &&& t.modification == e1.modification
            &&& t == EditorModel { glyph: t.glyph, behaviors: t.behaviors, ..e1 }
        }),
{
}

/// Two pointer moves in a row leave the editor as the second one alone would.
#[verifier::rlimit(40)]
proof fn lemma_drag_two_steps(e: EditorModel, mg: MoveGuideline, m1: MouseInfo, m2: MouseInfo)
    requires
        drag_ready(e, mg),
        mg.move_fits(e, m1),
        mg.move_fits(e, m2),
        ({
            let d = dragged(mg.target_at(e), mg.mouse_info.position, m2.position);
            &&& fits_i64(m1.position.x - m2.position.x)
            &&& fits_i64(m1.position.y - m2.position.y)
            &&& fits_i64(d.0)
            &&& fits_i64(d.1)
        }),
    ensures
        e.dispatch(moved(m1)).dispatch_ready(moved(m2)),
        e.dispatch(moved(m1)).dispatch(moved(m2)) == e.dispatch(moved(m2)),
{
    lemma_drag_step(e, mg, m1);
    let s = e.dispatch(moved(m1));
    let mg2 = MoveGuideline { mouse_info: m1, ..mg };
    assert(s.behaviors.last() == ToolBehavior::MoveGuideline(mg2));
    assert(s.glyph.layers[s.active_layer].guidelines.len() == e.glyph.layers[e.active_layer].guidelines.len());
    assert(drag_ready(s, mg2));
    assert(mg2.move_fits(s, m2));
    lemma_drag_step(s, mg2, m2);
    lemma_drag_step(e, mg, m2);
    let t = s.dispatch(moved(m2));
    let u = e.dispatch(moved(m2));
    let a = e.active_layer;
    let i = mg.selected_idx as int;
    let d1 = dragged(mg.target_at(e), mg.mouse_info.position, m1.position);
    let d2 = dragged(mg.target_at(e), mg.mouse_info.position, m2.position);
    let at1 = crate::events::Point { x: d1.0 as i64, y: d1.1 as i64 };
    let at2 = crate::events::Point { x: d2.0 as i64, y: d2.1 as i64 };
    assert(mg2.target_at(s) == at1);
    let d12 = dragged(at1, m1.position, m2.position);
    assert(d12.0 == d2.0 && d12.1 == d2.1);
    assert(t.glyph == s.glyph.with_guideline_at(a, i, at2));
    assert(u.glyph == e.glyph.with_guideline_at(a, i, at2));
    assert(t.glyph.layers[a].guidelines =~= u.glyph.layers[a].guidelines);
    assert(t.glyph.layers =~= u.glyph.layers);
    assert(t.behaviors =~= u.behaviors);
}

/// A drag does not depend on how finely the pointer's path is sampled: the
/// editor after moves to each of `mis` is the editor after a single move to
/// the last of them. So the guideline ends displaced by the sum of the
/// per-event deltas, which is the whole path's delta, subtracted
/// horizontally and added vertically.
#[verifier::rlimit(60)]
pub proof fn lemma_drag_granularity(e: EditorModel, mg: MoveGuideline, mis: Seq<MouseInfo>)
    requires
        drag_ready(e, mg),
        mis.len() > 0,
        drag_fits(e, mg, mis),
    ensures
        e.dispatch_ready(moved(mis.last())),
        run(e, moves(mis)) == e.dispatch(moved(mis.last())),
        run(e, moves(mis)).glyph.layers[e.active_layer].guidelines[mg.selected_idx as int].at.x
            == mg.target_at(e).x - (mg.mouse_info.position.x - mis.last().position.x),
        run(e, moves(mis)).glyph.layers[e.active_layer].guidelines[mg.selected_idx as int].at.y
            == mg.target_at(e).y + (mg.mouse_info.position.y - mis.last().position.y),
    decreases mis.len(),
{
    lemma_moves_drop_last(mis);
    let n = mis.len();
    let last = mis.last();
    assert(last == mis[n - 1]);
    if n == 1 {
        lemma_drag_step(e, mg, last);
        assert(run(e, moves(mis).drop_last()) == e);
    } else {
        let pre = mis.drop_last();
        lemma_drag_fits_prefix(e, mg, mis, n - 1);
        assert(pre =~= mis.take(n - 1));
        lemma_drag_granularity(e, mg, pre);
        assert(pre.last() == mis[n - 2]);
        assert(mis[n - 1].position == last.position);
        lemma_drag_two_steps(e, mg, pre.last(), last);
        lemma_drag_step(e, mg, last);
    }
}

/// A guideline drag opens exactly one transaction, on its first move, keeps
/// it open over every further move, and closes exactly that one on the
/// matching release: the undo history gains one step, which brings back the
/// glyph as it was before the drag, and the drag leaves the stack.
#[verifier::rlimit(40)]
pub proof fn lemma_drag_one_transaction(
    e: EditorModel,
    mg: MoveGuideline,
    mis: Seq<MouseInfo>,
    mr: MouseInfo,
)
    requires
        drag_ready(e, mg),
        !e.is_modifying(),
        mis.len() > 0,
        drag_fits(e, mg, mis),
        mr.button == mg.button,
    ensures
        forall|k: int|
            1 <= k <= mis.len() ==> {
                let s = #[trigger] run(e, moves(mis.take(k)));
                s.is_modifying() && s.undo == e.undo
            },
        run(e, moves(mis)).dispatch_ready(released(mr)),
        ({
            let f = run(e, moves(mis).push(released(mr)));
            &&& !f.is_modifying()
            &&& f.undo == e.undo.push(
                crate::editor::HistoryModel {
                    label: move_guideline_label(),
                    scope: ModificationScope::Glyph,
                    glyph: e.glyph,
                },
            )
            &&& f.behaviors == e.behaviors.drop_last()
        }),
{
    assert forall|k: int| 1 <= k <= mis.len() implies {
        let s = #[trigger] run(e, moves(mis.take(k)));
        s.is_modifying() && s.undo == e.undo
    } by {
        let pre = mis.take(k);
        lemma_drag_fits_prefix(e, mg, mis, k);
        lemma_drag_granularity(e, mg, pre);
        lemma_drag_step(e, mg, pre.last());
    }
    assert(mis.take(mis.len() as int) =~= mis);
    let evs = moves(mis).push(released(mr));
    assert(evs.drop_last() =~= moves(mis));
    lemma_drag_granularity(e, mg, mis);
    lemma_drag_step(e, mg, mis.last());
    let r = run(e, moves(mis));
    let mg2 = MoveGuideline { mouse_info: mis.last(), ..mg };
    assert(r.behaviors.last() == ToolBehavior::MoveGuideline(mg2));
    assert(r.behaviors.drop_last() =~= e.behaviors.drop_last());
    assert(r.is_modifying());
    assert(mg2.button == mr.button);
    lemma_release_matching_button(r, mg2, mr);
    assert(evs.last() == released(mr));
    assert(run(e, evs) == r.dispatch(released(mr)));
}

/// A release of another button than the one that started the drag changes
/// nothing: the transaction stays as it is and the drag stays on top.
pub proof fn lemma_release_other_button(e: EditorModel, mg: MoveGuideline, mr: MouseInfo)
    requires
        e.wf(),
        e.prompts.len() == 0,
        e.behaviors.len() > 0,
        e.behaviors.last() == ToolBehavior::MoveGuideline(mg),
        mr.button != mg.button,
    ensures
        e.dispatch_ready(released(mr)),
        e.dispatch(released(mr)) == e,
        e.dispatch(released(mr)).is_modifying() == e.is_modifying(),
        e.dispatch(released(mr)).behaviors.last() == ToolBehavior::MoveGuideline(mg),
{
    assert(e.behaviors.update(e.behaviors.len() - 1, ToolBehavior::MoveGuideline(mg)) =~= e.behaviors);
}

/// A release of the button that started the drag closes the open
/// transaction into one undo step and removes exactly the drag from the
/// stack.
pub proof fn lemma_release_matching_button(e: EditorModel, mg: MoveGuideline, mr: MouseInfo)
    requires
        e.wf(),
        e.prompts.len() == 0,
        e.behaviors.len() > 0,
        e.behaviors.last() == ToolBehavior::MoveGuideline(mg),
        e.is_modifying(),
        mr.button == mg.button,
    ensures
        e.dispatch_ready(released(mr)),
        !e.dispatch(released(mr)).is_modifying(),
        e.dispatch(released(mr)).behaviors == e.behaviors.drop_last(),
        e.dispatch(released(mr)).undo.len() == e.undo.len() + 1,
{
}

/// Handling an event leaves a behavior on top of the stack or takes it off;
/// what lies beneath is never touched.
pub proof fn lemma_handle_keeps_beneath(b: ToolBehavior, e: EditorModel, ev: EditorEvent)
    requires
        e.wf(),
        e.behaviors.len() > 0,
    ensures
        b.handle(e, ev).behaviors == e.behaviors || b.handle(e, ev).behaviors == e.behaviors.drop_last(),
{
}

/// Once a behavior is pushed, it alone receives the events dispatched: after
/// each one the stack is the earlier stack with the new behavior (in its new
/// state) on top, or, once the new behavior has popped itself, exactly the
/// earlier stack, whose top then receives events again.
pub proof fn lemma_pushed_behavior_takes_events(e: EditorModel, b: ToolBehavior, ev: EditorEvent)
    requires
        e.wf(),
        e.prompts.len() == 0,
        e.push_behavior(b).dispatch_ready(ev),
    ensures
        ({
            let f = e.push_behavior(b).dispatch(ev);
            f.behaviors == e.behaviors.push(b.next(ev)) || f.behaviors == e.behaviors
        }),
{
    let p = e.push_behavior(b);
    assert(p.behaviors.last() == b);
    lemma_handle_keeps_beneath(b, p, ev);
    assert(p.behaviors.drop_last() =~= e.behaviors);
    let h = b.handle(p, ev);
    if h.behaviors.len() == p.behaviors.len() {
        assert(h.behaviors.update(p.behaviors.len() - 1, b.next(ev)) =~= e.behaviors.push(b.next(ev)));
    }
}

/// A layer-scoped transaction on layer `layer` selects that layer while it
/// is open and, once closed, selects again the layer that was active before,
/// whatever the edit in between did to the layers, so long as that layer
/// still exists.
pub proof fn lemma_layer_modification_restores(
    e: EditorModel,
    label: Seq<char>,
    layer: usize,
    edited: Seq<LayerModel>,
)
    requires
        e.wf(),
        !e.is_modifying(),
        layer < e.layer_count(),
        e.active_layer < edited.len(),
    ensures
        ({
            let open = e.begin(label, ModificationScope::Layer { layer, restore: e.active_layer as usize });
            &&& open.active_layer == layer
            &&& open.with_glyph_layers(edited).end().active_layer == e.active_layer
            &&& !open.with_glyph_layers(edited).end().is_modifying()
        }),
{
}

} // verus!

use vstd::prelude::*;
use crate::editor::{Editor, EditorModel, ModificationScope};
use crate::events::{EditorEvent, MouseButton, MouseEventType, MouseInfo, Point};

verus! {

/// The undo label of a guideline drag.
pub open spec fn move_guideline_label() -> Seq<char> {
    "Move guideline."@
}

/// Where a guideline at `at` goes when the pointer moves from `from` to `to`:
/// the pointer delta `from - to` is subtracted horizontally and added vertically.
pub open spec fn dragged(at: Point, from: Point, to: Point) -> (int, int) {
    (at.x - (from.x - to.x), at.y + (from.y - to.y))
}

pub open spec fn fits_i64(v: int) -> bool {
    i64::MIN <= v <= i64::MAX
}

/// The state of a guideline drag: which guideline of the active layer, the
/// pointer as last seen, and the button that started the drag.
#[derive(Clone, Copy, Debug, PartialEq, Eq, Structural)]
pub struct MoveGuideline {
    pub selected_idx: usize,
    pub mouse_info: MouseInfo,
    pub button: MouseButton,
}

/// The closed set of interactions that can sit on the behavior stack.
#[derive(Clone, Copy, Debug, PartialEq, Eq, Structural)]
pub enum ToolBehavior {
    MoveGuideline(MoveGuideline),
}

impl MoveGuideline {
    /// The dragged guideline still exists in the active layer.
    pub open spec fn target_exists(self, e: EditorModel) -> bool {
        self.selected_idx < e.glyph.layers[e.active_layer].guidelines.len()
    }

    /// The dragged guideline's position before the move.
    pub open spec fn target_at(self, e: EditorModel) -> Point {
        e.glyph.layers[e.active_layer].guidelines[self.selected_idx as int].at
    }

    /// Moving the pointer to `mi` keeps every coordinate within `i64`.
    pub open spec fn move_fits(self, e: EditorModel, mi: MouseInfo) -> bool {
        self.target_exists(e) ==> {
            let from = self.mouse_info.position;
            let to = mi.position;
            let d = dragged(self.target_at(e), from, to);
            &&& fits_i64(from.x - to.x)
            &&& fits_i64(from.y - to.y)
            &&& fits_i64(d.0)
            &&& fits_i64(d.1)
        }
    }

    /// The editor after a pointer move to `mi`: a transaction is opened unless
    /// one already is, and the guideline follows the pointer; if the guideline
    /// is gone, the gesture ends instead.
    pub open spec fn moved(self, e: EditorModel, mi: MouseInfo) -> EditorModel {
        if !self.target_exists(e) {
            e.close_gesture()
        } else {
            let e1 = if e.is_modifying() {
                e
            } else {
                e.begin(move_guideline_label(), ModificationScope::Glyph)
            };
            let d = dragged(self.target_at(e), self.mouse_info.position, mi.position);
            EditorModel {
                glyph: e1.glyph.with_guideline_at(
                    e1.active_layer,
                    self.selected_idx as int,
                    Point { x: d.0 as i64, y: d.1 as i64 },
                ),
                ..e1
            }
        }
    }

    /// The editor after a release of `mi`'s button: the gesture ends when it is
    /// the button that started it, and nothing happens otherwise.
    pub open spec fn released(self, e: EditorModel, mi: MouseInfo) -> EditorModel {
        if mi.button == self.button {
            e.close_gesture()
        } else {
            e
        }
    }

    /// A drag of guideline `selected_idx`, started by the press `mouse_info`.
    pub fn new(selected_idx: usize, mouse_info: MouseInfo) -> (r: MoveGuideline)
        ensures
            r == (MoveGuideline { selected_idx, mouse_info, button: mouse_info.button }),
    {
        MoveGuideline { mouse_info, selected_idx, button: mouse_info.button }
    }

    pub fn mouse_moved(&mut self, v: &mut Editor, mouse_info: MouseInfo)
        requires
            old(v).wf(),
            old(self).move_fits(old(v)@, mouse_info),
        ensures
            final(v).wf(),
            final(v)@ == old(self).moved(old(v)@, mouse_info),
            *final(self) == (MoveGuideline { mouse_info, ..*old(self) }),
    {
        let layer = v.active_layer;
        let selected = self.selected_idx;
        if selected >= v.glyph.layers[layer].guidelines.len() {
            v.close_gesture();
        } else {
            let mp = self.mouse_info.position;
            let delta = (mp.x - mouse_info.position.x, mp.y - mouse_info.position.y);
            let at = v.glyph.layers[layer].guidelines[selected].at;
            if !v.is_modifying() {
                v.begin_modification("Move guideline.");
            }
            v.glyph.set_guideline_at(layer, selected, Point { x: at.x - delta.0, y: at.y + delta.1 });
        }
        self.mouse_info = mouse_info;
    }

    pub fn mouse_released(&mut self, v: &mut Editor, mouse_info: MouseInfo)
        requires
            old(v).wf(),
        ensures
            final(v).wf(),
            final(v)@ == old(self).released(old(v)@, mouse_info),
            *final(self) == *old(self),
    {
        if mouse_info.button == self.button {
            v.close_gesture();
        }
    }
}

impl MoveGuideline {
    /// Routes a pointer move or release to its handler and ignores every
    /// other event.
    pub fn event(&mut self, v: &mut Editor, event: EditorEvent)
        requires
            old(v).wf(),
            ToolBehavior::MoveGuideline(*old(self)).ready(old(v)@, event),
        ensures
            final(v).wf(),
            final(v)@ == ToolBehavior::MoveGuideline(*old(self)).handle(old(v)@, event),
            ToolBehavior::MoveGuideline(*final(self)) == ToolBehavior::MoveGuideline(*old(self)).next(event),
    {
        match event {
            EditorEvent::MouseEvent { event_type, mouse_info } => match event_type {
                MouseEventType::Released => self.mouse_released(v, mouse_info),
                MouseEventType::Moved => self.mouse_moved(v, mouse_info),
                MouseEventType::Pressed => {},
            },
            _ => {},
        }
    }
}

impl ToolBehavior {
    /// Handling `ev` keeps every coordinate within `i64`.
    pub open spec fn ready(self, e: EditorModel, ev: EditorEvent) -> bool {
        match self {
            ToolBehavior::MoveGuideline(mg) => match ev {
                EditorEvent::MouseEvent { event_type: MouseEventType::Moved, mouse_info } => mg.move_fits(
                    e,
                    mouse_info,
                ),
                _ => true,
            },
        }
    }

    /// What handling `ev` does to the editor.
    pub open spec fn handle(self, e: EditorModel, ev: EditorEvent) -> EditorModel {
        match self {
            ToolBehavior::MoveGuideline(mg) => match ev {
                EditorEvent::MouseEvent { event_type, mouse_info } => match event_type {
                    MouseEventType::Moved => mg.moved(e, mouse_info),
                    MouseEventType::Released => mg.released(e, mouse_info),
                    MouseEventType::Pressed => e,
                },
                _ => e,
            },
        }
    }

    /// The behavior's own state after handling `ev`.
    pub open spec fn next(self, ev: EditorEvent) -> ToolBehavior {
        match self {
            ToolBehavior::MoveGuideline(mg) => match ev {
                EditorEvent::MouseEvent { event_type: MouseEventType::Moved, mouse_info } =>
                    ToolBehavior::MoveGuideline(MoveGuideline { mouse_info, ..mg }),
                _ => self,
            },
        }
    }

    /// Hands one event to the behavior; kinds it does not handle are ignored.
    pub fn event(&mut self, v: &mut Editor, event: EditorEvent)
        requires
            old(v).wf(),
            old(self).ready(old(v)@, event),
        ensures
            final(v).wf(),
            final(v)@ == old(self).handle(old(v)@, event),
            *final(self) == old(self).next(event),
    {
        match self {
            ToolBehavior::MoveGuideline(mg) => mg.event(v, event),
        }
    }
}

} // verus!

use vstd::prelude::*;
use crate::document::{Color, Glyph, GlyphModel, Layer, LayerModel, LayerOperation};
use crate::events::EditorEvent;
use crate::tool_behaviors::ToolBehavior;

verus! {

/// The tool selected in the toolbox.
#[derive(Clone, Copy, Debug, PartialEq, Eq, Structural)]
pub enum ToolEnum {
    Pan,
    Select,
    Zoom,
    Anchors,
    Pen,
    VWS,
    Shapes,
}

/// What an open modification covers.
#[derive(Clone, Copy, Debug, PartialEq, Eq, Structural)]
pub enum ModificationScope {
    /// The whole glyph.
    Glyph,
    /// One layer, which stays selected while the modification is open;
    /// `restore` is the layer that was active when it began.
    Layer { layer: usize, restore: usize },
}

/// An open transaction: its label, its scope and the glyph as it was when it began.
pub struct Modification {
    pub label: String,
    pub scope: ModificationScope,
    pub before: Glyph,
}

/// One step of the undo (or redo) history: the glyph to go back to.
pub struct HistoryEntry {
    pub label: String,
    pub scope: ModificationScope,
    pub glyph: Glyph,
}

/// A modal request for one value, serviced before any behavior sees an event.
#[allow(inconsistent_fields)]
pub enum InputPrompt {
    /// Asks for a new name for `layer`.
    Text { label: String, default: String, layer: usize },
    /// Asks for a new colour for `layer`.
    Color { label: String, default: Color, layer: usize },
}

/// The value a user confirmed in a prompt.
pub enum PromptAnswer {
    Text(String),
    Color(Color),
}

/// A change to a single layer's own attributes.
pub enum LayerEdit {
    ToggleVisibility,
    Rename(String),
    Recolor(Color),
    SetOperation(Option<LayerOperation>),
}

pub struct ModificationModel {
    pub label: Seq<char>,
    pub scope: ModificationScope,
    pub before: GlyphModel,
}

pub struct HistoryModel {
    pub label: Seq<char>,
    pub scope: ModificationScope,
    pub glyph: GlyphModel,
}

#[allow(inconsistent_fields)]
pub enum PromptModel {
    Text { label: Seq<char>, default: Seq<char>, layer: usize },
    Color { label: Seq<char>, default: Color, layer: usize },
}

pub enum PromptAnswerModel {
    Text(Seq<char>),
    Color(Color),
}

/// The bit pattern of a fully opaque alpha component.
pub const OPAQUE_ALPHA: u32 = 0x3f80_0000;

/// The layer that `new_layer` appends: empty, visible, opaque black.
pub open spec fn new_layer_model() -> LayerModel {
    LayerModel {
        name: "New layer"@,
        visible: true,
        color: Color { r: 0, g: 0, b: 0, a: OPAQUE_ALPHA },
        operation: None,
        guidelines: Seq::empty(),
        anchors: Seq::empty(),
    }
}

pub enum LayerEditModel {
    ToggleVisibility,
    Rename(Seq<char>),
    Recolor(Color),
    SetOperation(Option<LayerOperation>),
}

/// The editor as a mathematical value.
pub struct EditorModel {
    pub glyph: GlyphModel,
    pub active_layer: int,
    pub tool: ToolEnum,
    pub behaviors: Seq<ToolBehavior>,
    pub modification: Option<ModificationModel>,
    pub undo: Seq<HistoryModel>,
    pub redo: Seq<HistoryModel>,
    pub prompts: Seq<PromptModel>,
}

impl View for Modification {
    type V = ModificationModel;

    open spec fn view(&self) -> ModificationModel {
        ModificationModel { label: self.label@, scope: self.scope, before: self.before@ }
    }
}

impl View for HistoryEntry {
    type V = HistoryModel;

    open spec fn view(&self) -> HistoryModel {
        HistoryModel { label: self.label@, scope: self.scope, glyph: self.glyph@ }
    }
}

impl View for InputPrompt {
    type V = PromptModel;

    open spec fn view(&self) -> PromptModel {
        match self {
            InputPrompt::Text { label, default, layer } => PromptModel::Text {
                label: label@,
                default: default@,
                layer: *layer,
            },
            InputPrompt::Color { label, default, layer } => PromptModel::Color {
                label: label@,
                default: *default,
                layer: *layer,
            },
        }
    }
}

impl View for PromptAnswer {
    type V = PromptAnswerModel;

    open spec fn view(&self) -> PromptAnswerModel {
        match self {
            PromptAnswer::Text(s) => PromptAnswerModel::Text(s@),
            PromptAnswer::Color(c) => PromptAnswerModel::Color(*c),
        }
    }
}

impl View for LayerEdit {
    type V = LayerEditModel;

    open spec fn view(&self) -> LayerEditModel {
        match self {
            LayerEdit::ToggleVisibility => LayerEditModel::ToggleVisibility,
            LayerEdit::Rename(s) => LayerEditModel::Rename(s@),
            LayerEdit::Recolor(c) => LayerEditModel::Recolor(*c),
            LayerEdit::SetOperation(o) => LayerEditModel::SetOperation(*o),
        }
    }
}

/// A layer model with one edit applied.
pub open spec fn edited_layer(l: LayerModel, edit: LayerEditModel) -> LayerModel {
    match edit {
        LayerEditModel::ToggleVisibility => LayerModel { visible: !l.visible, ..l },
        LayerEditModel::Rename(n) => LayerModel { name: n, ..l },
        LayerEditModel::Recolor(c) => LayerModel { color: c, ..l },
        LayerEditModel::SetOperation(o) => LayerModel { operation: o, ..l },
    }
}

/// `i` if it indexes one of `n` layers, else the last layer.
pub open spec fn clamp_layer(i: int, n: int) -> int {
    if i < n {
        i
    } else if n > 0 {
        n - 1
    } else {
        0
    }
}

impl EditorModel {
    /// The event reaches the behavior stack: no prompt is pending and some
    /// behavior is active.
    pub open spec fn routes_to_stack(self) -> bool {
        self.prompts.len() == 0 && self.behaviors.len() > 0
    }

    /// Dispatching `ev` keeps every coordinate within `i64`.
    pub open spec fn dispatch_ready(self, ev: EditorEvent) -> bool {
        self.routes_to_stack() ==> self.behaviors.last().ready(self, ev)
    }

    /// The editor after `ev` is dispatched: while a prompt is pending, or with
    /// no behavior, nothing changes; otherwise the top behavior alone handles
    /// it and, unless it left the stack, keeps its new state in its slot.
    pub open spec fn dispatch(self, ev: EditorEvent) -> EditorModel {
        if !self.routes_to_stack() {
            self
        } else {
            let top = self.behaviors.last();
            let e = top.handle(self, ev);
            if e.behaviors.len() == self.behaviors.len() {
                EditorModel {
                    behaviors: e.behaviors.update(self.behaviors.len() - 1, top.next(ev)),
                    ..e
                }
            } else {
                e
            }
        }
    }

    /// The active layer indexes an existing layer.
    /// The active layer indexes an existing layer, and every glyph that the
    /// history can bring back has a layer.
    pub open spec fn wf(self) -> bool {
        &&& 0 <= self.active_layer < self.glyph.layers.len()
        &&& self.active_layer <= usize::MAX
        &&& self.modification matches Some(m) ==> m.before.layers.len() > 0
        &&& forall|i: int| 0 <= i < self.undo.len() ==> #[trigger] self.undo[i].glyph.layers.len() > 0
        &&& forall|i: int| 0 <= i < self.redo.len() ==> #[trigger] self.redo[i].glyph.layers.len() > 0
    }

    /// The glyph-wide transaction `label` whose whole effect is to give the
    /// glyph `layers` and select `active`.
    pub open spec fn restructured(self, label: Seq<char>, layers: Seq<LayerModel>, active: int) -> EditorModel {
        let e = self.begin(label, ModificationScope::Glyph);
        EditorModel { active_layer: active, ..e.with_glyph_layers(layers) }.end()
    }

    /// A new layer appended last and selected.
    pub open spec fn layer_added(self) -> EditorModel {
        self.restructured(
            "Added layer."@,
            self.glyph.layers.push(new_layer_model()),
            self.layer_count(),
        )
    }

    /// Layer `idx` removed; the selection stays on the same layer where it can,
    /// and otherwise on the layer that took its place (or the new last one).
    pub open spec fn layer_deleted(self, idx: int) -> EditorModel {
        self.restructured(
            "Deleted layer."@,
            self.glyph.layers.remove(idx),
            if self.active_layer > idx {
                self.active_layer - 1
            } else {
                clamp_layer(self.active_layer, self.layer_count() - 1)
            },
        )
    }

    /// Layers `a` and `b` trade places; the selection follows a selected one.
    pub open spec fn layers_swapped(self, a: int, b: int) -> EditorModel {
        let ls = self.glyph.layers;
        self.restructured(
            "Swapped layers."@,
            ls.update(a, ls[b]).update(b, ls[a]),
            if self.active_layer == a {
                b
            } else if self.active_layer == b {
                a
            } else {
                self.active_layer
            },
        )
    }

    /// The first pending prompt answered with `answer`, if its kind matches.
    pub open spec fn prompt_answered(self, answer: PromptAnswerModel) -> EditorModel {
        let e = EditorModel { prompts: self.prompts.drop_first(), ..self };
        match (self.prompts[0], answer) {
            (PromptModel::Text { label, default, layer }, PromptAnswerModel::Text(s)) =>
                if layer < self.layer_count() {
                    e.begin("Renamed layer."@, ModificationScope::Layer { layer, restore: self.active_layer as usize })
                        .edit_active_layer(LayerEditModel::Rename(s)).end()
                } else {
                    e
                },
            (PromptModel::Color { label, default, layer }, PromptAnswerModel::Color(c)) =>
                if layer < self.layer_count() {
                    e.begin("Changed layer color."@, ModificationScope::Layer { layer, restore: self.active_layer as usize })
                        .edit_active_layer(LayerEditModel::Recolor(c)).end()
                } else {
                    e
                },
            _ => self,
        }
    }

    /// `answer` is of the kind the first pending prompt asks for.
    pub open spec fn answer_fits(self, answer: PromptAnswerModel) -> bool {
        self.prompts.len() > 0 && match (self.prompts[0], answer) {
            (PromptModel::Text { .. }, PromptAnswerModel::Text(_)) => true,
            (PromptModel::Color { .. }, PromptAnswerModel::Color(_)) => true,
            _ => false,
        }
    }

    /// Goes back one step: the glyph returns to the last undo entry, whose
    /// place in the redo history the current glyph takes.
    pub open spec fn undone(self) -> EditorModel {
        let h = self.undo.last();
        EditorModel {
            glyph: h.glyph,
            active_layer: clamp_layer(self.active_layer, h.glyph.layers.len() as int),
            undo: self.undo.drop_last(),
            redo: self.redo.push(HistoryModel { glyph: self.glyph, ..h }),
            ..self
        }
    }

    /// Goes forward one step, the mirror of `undone`.
    pub open spec fn redone(self) -> EditorModel {
        let h = self.redo.last();
        EditorModel {
            glyph: h.glyph,
            active_layer: clamp_layer(self.active_layer, h.glyph.layers.len() as int),
            redo: self.redo.drop_last(),
            undo: self.undo.push(HistoryModel { glyph: self.glyph, ..h }),
            ..self
        }
    }

    pub open spec fn is_modifying(self) -> bool {
        self.modification is Some
    }

    pub open spec fn layer_count(self) -> int {
        self.glyph.layers.len() as int
    }

    /// Opens a transaction; a layer-scoped one also selects its layer.
    pub open spec fn begin(self, label: Seq<char>, scope: ModificationScope) -> EditorModel {
        EditorModel {
            modification: Some(ModificationModel { label, scope, before: self.glyph }),
            active_layer: match scope {
                ModificationScope::Glyph => self.active_layer,
                ModificationScope::Layer { layer, restore } => layer as int,
            },
            ..self
        }
    }

    /// Closes the open transaction into one undo step, forgets the redo
    /// history, and gives a layer-scoped one's selection back.
    pub open spec fn end(self) -> EditorModel {
        let m = self.modification->Some_0;
        EditorModel {
            modification: None,
            undo: self.undo.push(HistoryModel { label: m.label, scope: m.scope, glyph: m.before }),
            redo: Seq::empty(),
            active_layer: match m.scope {
                ModificationScope::Glyph => self.active_layer,
                ModificationScope::Layer { layer, restore } => clamp_layer(
                    restore as int,
                    self.layer_count(),
                ),
            },
            ..self
        }
    }

    pub open spec fn with_glyph_layers(self, layers: Seq<LayerModel>) -> EditorModel {
        EditorModel { glyph: GlyphModel { layers, ..self.glyph }, ..self }
    }

    pub open spec fn edit_active_layer(self, edit: LayerEditModel) -> EditorModel {
        self.with_glyph_layers(
            self.glyph.layers.update(
                self.active_layer,
                edited_layer(self.glyph.layers[self.active_layer], edit),
            ),
        )
    }

    pub open spec fn push_behavior(self, b: ToolBehavior) -> EditorModel {
        EditorModel { behaviors: self.behaviors.push(b), ..self }
    }

    pub open spec fn pop_behavior(self) -> EditorModel {
        EditorModel { behaviors: self.behaviors.drop_last(), ..self }
    }

    /// Ends a gesture: closes whatever transaction is open and pops the top behavior.
    pub open spec fn close_gesture(self) -> EditorModel {
        let e = if self.is_modifying() {
            self.end()
        } else {
            self
        };
        if e.behaviors.len() > 0 {
            e.pop_behavior()
        } else {
            e
        }
    }
}

/// The dispatch host: owns the glyph, the open transaction, the undo history,
/// the behavior stack and the queue of prompts.
pub struct Editor {
    pub glyph: Glyph,
    pub active_layer: usize,
    pub tool: ToolEnum,
    pub tool_behaviors: Vec<ToolBehavior>,
    pub modification: Option<Modification>,
    pub undo_stack: Vec<HistoryEntry>,
    pub redo_stack: Vec<HistoryEntry>,
    pub prompts: Vec<InputPrompt>,
}

impl View for Editor {
    type V = EditorModel;

    open spec fn view(&self) -> EditorModel {
        EditorModel {
            glyph: self.glyph@,
            active_layer: self.active_layer as int,
            tool: self.tool,
            behaviors: self.tool_behaviors@,
            modification: match self.modification {
                Some(m) => Some(m@),
                None => None,
            },
            undo: self.undo_stack@.map_values(|h: HistoryEntry| h@),
            redo: self.redo_stack@.map_values(|h: HistoryEntry| h@),
            prompts: self.prompts@.map_values(|p: InputPrompt| p@),
        }
    }
}

impl Editor {
    pub fn push_behavior(&mut self, b: ToolBehavior)
        ensures
            final(self)@ == old(self)@.push_behavior(b),
    {
        self.tool_behaviors.push(b);
    }

    /// Removes the top of the behavior stack, handing it back.
    pub fn pop_behavior(&mut self) -> (r: Option<ToolBehavior>)
        ensures
            old(self)@.behaviors.len() > 0 ==> final(self)@ == old(self)@.pop_behavior()
                && r == Some(old(self)@.behaviors.last()),
            old(self)@.behaviors.len() == 0 ==> final(self)@ == old(self)@ && r is None,
    {
        self.tool_behaviors.pop()
    }

    /// Ends the gesture of the top behavior: closes whatever transaction is
    /// open and pops it.
    pub fn close_gesture(&mut self)
        requires
            old(self).wf(),
        ensures
            final(self).wf(),
            final(self)@ == old(self)@.close_gesture(),
    {
        if self.is_modifying() {
            self.end_modification();
        }
        let _ = self.pop_behavior();
    }

    pub open spec fn wf(&self) -> bool {
        self@.wf()
    }

    /// Undoes the last closed transaction; refused while one is open or when
    /// there is nothing to undo.
    pub fn undo(&mut self) -> (r: bool)
        requires
            old(self).wf(),
        ensures
            final(self).wf(),
            r == (!old(self)@.is_modifying() && old(self)@.undo.len() > 0),
            r ==> final(self)@ == old(self)@.undone(),
            !r ==> final(self)@ == old(self)@,
    {
        if self.is_modifying() || self.undo_stack.len() == 0 {
            return false;
        }
        let h = self.undo_stack.pop().unwrap();
        let HistoryEntry { label, scope, glyph } = h;
        let mut g = glyph;
        std::mem::swap(&mut self.glyph, &mut g);
        self.redo_stack.push(HistoryEntry { label, scope, glyph: g });
        let n = self.glyph.layers.len();
        if self.active_layer >= n {
            self.active_layer = n - 1;
        }
        proof {
            assert(final(self)@.undo =~= old(self)@.undone().undo);
            assert(final(self)@.redo =~= old(self)@.undone().redo);
            assert(old(self)@.undo[old(self)@.undo.len() - 1].glyph.layers.len() > 0);
        }
        true
    }

    /// Redoes the last undone transaction; refused while one is open or when
    /// there is nothing to redo.
    pub fn redo(&mut self) -> (r: bool)
        requires
            old(self).wf(),
        ensures
            final(self).wf(),
            r == (!old(self)@.is_modifying() && old(self)@.redo.len() > 0),
            r ==> final(self)@ == old(self)@.redone(),
            !r ==> final(self)@ == old(self)@,
    {
        if self.is_modifying() || self.redo_stack.len() == 0 {
            return false;
        }
        let h = self.redo_stack.pop().unwrap();
        let HistoryEntry { label, scope, glyph } = h;
        let mut g = glyph;
        std::mem::swap(&mut self.glyph, &mut g);
        self.undo_stack.push(HistoryEntry { label, scope, glyph: g });
        let n = self.glyph.layers.len();
        if self.active_layer >= n {
            self.active_layer = n - 1;
        }
        proof {
            assert(final(self)@.undo =~= old(self)@.redone().undo);
            assert(final(self)@.redo =~= old(self)@.redone().redo);
            assert(old(self)@.redo[old(self)@.redo.len() - 1].glyph.layers.len() > 0);
        }
        true
    }

    /// Opens a transaction scoped to layer `layer`, which becomes the active
    /// layer until the transaction ends.
    pub fn begin_layer_modification(&mut self, label: &str, layer: usize)
        requires
            old(self).wf(),
            !old(self)@.is_modifying(),
            layer < old(self)@.layer_count(),
        ensures
            final(self).wf(),
            final(self)@ == old(self)@.begin(
                label@,
                ModificationScope::Layer { layer, restore: old(self).active_layer },
            ),
    {
        let before = self.glyph.duplicate();
        let scope = ModificationScope::Layer { layer, restore: self.active_layer };
        self.modification = Some(Modification { label: label.to_owned(), scope, before });
        self.active_layer = layer;
    }

    /// Closes a layer-scoped transaction and selects again the layer that was
    /// active when it began (the last layer, if that one is gone).
    pub fn end_layer_modification(&mut self)
        requires
            old(self).wf(),
            old(self)@.modification matches Some(m) && m.scope is Layer,
        ensures
            final(self).wf(),
            final(self)@ == old(self)@.end(),
    {
        self.end_modification();
    }

    /// Applies `edit` to the active layer, inside the open transaction.
    pub fn edit_active_layer(&mut self, edit: LayerEdit)
        requires
            old(self).wf(),
            old(self)@.is_modifying(),
        ensures
            final(self).wf(),
            final(self)@ == old(self)@.edit_active_layer(edit@),
    {
        let a = self.active_layer;
        let ghost l0 = self.glyph.layers@[a as int]@;
        match edit {
            LayerEdit::ToggleVisibility => {
                let vis = self.glyph.layers[a].visible;
                self.glyph.layers[a].visible = !vis;
            },
            LayerEdit::Rename(name) => {
                self.glyph.layers[a].name = name;
            },
            LayerEdit::Recolor(c) => {
                self.glyph.layers[a].color = c;
            },
            LayerEdit::SetOperation(o) => {
                self.glyph.layers[a].operation = o;
            },
        }
        proof {
            assert(final(self)@.glyph.layers[a as int] == edited_layer(l0, edit@));
            assert(final(self)@.glyph.layers =~= old(self)@.edit_active_layer(edit@).glyph.layers);
        }
    }

    /// One undoable edit of layer `layer`, whatever layer is active: the
    /// layer is selected, edited inside a layer-scoped transaction, and the
    /// previous selection comes back.
    pub fn modify_layer(&mut self, layer: usize, label: &str, edit: LayerEdit)
        requires
            old(self).wf(),
            !old(self)@.is_modifying(),
            layer < old(self)@.layer_count(),
        ensures
            final(self).wf(),
            final(self)@ == old(self)@.begin(
                label@,
                ModificationScope::Layer { layer, restore: old(self).active_layer },
            ).edit_active_layer(edit@).end(),
    {
        self.begin_layer_modification(label, layer);
        self.edit_active_layer(edit);
        self.end_layer_modification();
    }

    /// Appends a new, empty layer and selects it, as one undoable step.
    pub fn new_layer(&mut self) -> (r: bool)
        requires
            old(self).wf(),
        ensures
            final(self).wf(),
            r == !old(self)@.is_modifying(),
            r ==> final(self)@ == old(self)@.layer_added(),
            !r ==> final(self)@ == old(self)@,
    {
        if self.is_modifying() {
            return false;
        }
        let l = Layer::new("New layer".to_owned(), Color { r: 0, g: 0, b: 0, a: OPAQUE_ALPHA });
        self.begin_modification("Added layer.");
        let n = self.glyph.layers.len();
        self.glyph.layers.push(l);
        self.active_layer = n;
        self.end_modification();
        proof {
            assert(final(self)@.glyph.layers =~= old(self)@.layer_added().glyph.layers);
        }
        true
    }

    /// Deletes layer `idx`, as one undoable step; refused for the only layer,
    /// for an index past the last layer, and while a transaction is open.
    pub fn delete_layer(&mut self, idx: usize) -> (r: bool)
        requires
            old(self).wf(),
        ensures
            final(self).wf(),
            r == (!old(self)@.is_modifying() && idx < old(self)@.layer_count() && old(self)@.layer_count() > 1),
            r ==> final(self)@ == old(self)@.layer_deleted(idx as int),
            !r ==> final(self)@ == old(self)@,
    {
        let n = self.glyph.layers.len();
        if self.is_modifying() || idx >= n || n <= 1 {
            return false;
        }
        self.begin_modification("Deleted layer.");
        let _ = self.glyph.layers.remove(idx);
        if self.active_layer > idx {
            self.active_layer = self.active_layer - 1;
        } else if self.active_layer >= n - 1 {
            self.active_layer = n - 2;
        }
        self.end_modification();
        proof {
            assert(final(self)@.glyph.layers =~= old(self)@.layer_deleted(idx as int).glyph.layers);
        }
        true
    }

    /// Swaps layers `a` and `b`, as one undoable step; refused for an index
    /// past the last layer and while a transaction is open.
    pub fn swap_layers(&mut self, a: usize, b: usize) -> (r: bool)
        requires
            old(self).wf(),
        ensures
            final(self).wf(),
            r == (!old(self)@.is_modifying() && a < old(self)@.layer_count() && b < old(self)@.layer_count()),
            r ==> final(self)@ == old(self)@.layers_swapped(a as int, b as int),
            !r ==> final(self)@ == old(self)@,
    {
        let n = self.glyph.layers.len();
        if self.is_modifying() || a >= n || b >= n {
            return false;
        }
        self.begin_modification("Swapped layers.");
        self.glyph.swap_layers(a, b);
        if self.active_layer == a {
            self.active_layer = b;
        } else if self.active_layer == b {
            self.active_layer = a;
        }
        self.end_modification();
        true
    }

    /// Moves the active layer one place towards the front; refused for the
    /// first layer and while a transaction is open.
    pub fn move_active_layer_up(&mut self) -> (r: bool)
        requires
            old(self).wf(),
        ensures
            final(self).wf(),
            r == (!old(self)@.is_modifying() && old(self)@.active_layer > 0),
            r ==> final(self)@ == old(self)@.layers_swapped(old(self)@.active_layer, old(self)@.active_layer - 1),
            !r ==> final(self)@ == old(self)@,
    {
        let a = self.active_layer;
        if a == 0 {
            return false;
        }
        self.swap_layers(a, a - 1)
    }

    /// Moves the active layer one place towards the back; refused for the
    /// last layer and while a transaction is open.
    pub fn move_active_layer_down(&mut self) -> (r: bool)
        requires
            old(self).wf(),
        ensures
            final(self).wf(),
            r == (!old(self)@.is_modifying() && old(self)@.active_layer + 1 < old(self)@.layer_count()),
            r ==> final(self)@ == old(self)@.layers_swapped(old(self)@.active_layer, old(self)@.active_layer + 1),
            !r ==> final(self)@ == old(self)@,
    {
        let a = self.active_layer;
        if a >= self.glyph.layers.len() - 1 {
            return false;
        }
        self.swap_layers(a, a + 1)
    }

    /// Queues a prompt behind those already pending.
    pub fn push_prompt(&mut self, prompt: InputPrompt)
        ensures
            final(self)@ == (EditorModel { prompts: old(self)@.prompts.push(prompt@), ..old(self)@ }),
    {
        self.prompts.push(prompt);
        proof {
            assert(final(self)@.prompts =~= old(self)@.prompts.push(prompt@));
        }
    }

    /// Confirms the first pending prompt with `answer`: the prompt leaves the
    /// queue and its layer (if it still exists) is renamed or recoloured as
    /// one undoable step. Refused when no prompt is pending, when the answer
    /// is of the other kind, and while a transaction is open.
    pub fn answer_prompt(&mut self, answer: PromptAnswer) -> (r: bool)
        requires
            old(self).wf(),
        ensures
            final(self).wf(),
            r == (!old(self)@.is_modifying() && old(self)@.answer_fits(answer@)),
            r ==> final(self)@ == old(self)@.prompt_answered(answer@),
            !r ==> final(self)@ == old(self)@,
    {
        if self.is_modifying() || self.prompts.len() == 0 {
            return false;
        }
        let fits = match (&self.prompts[0], &answer) {
            (InputPrompt::Text { .. }, PromptAnswer::Text(_)) => true,
            (InputPrompt::Color { .. }, PromptAnswer::Color(_)) => true,
            _ => false,
        };
        if !fits {
            return false;
        }
        let p = self.prompts.remove(0);
        proof {
            assert(self@.prompts =~= old(self)@.prompts.drop_first());
        }
        let n = self.glyph.layers.len();
        match p {
            InputPrompt::Text { label, default, layer } => match answer {
                PromptAnswer::Text(s) => {
                    if layer < n {
                        self.modify_layer(layer, "Renamed layer.", LayerEdit::Rename(s));
                    }
                },
                PromptAnswer::Color(_) => {},
            },
            InputPrompt::Color { label, default, layer } => match answer {
                PromptAnswer::Color(c) => {
                    if layer < n {
                        self.modify_layer(layer, "Changed layer color.", LayerEdit::Recolor(c));
                    }
                },
                PromptAnswer::Text(_) => {},
            },
        }
        true
    }

    /// Routes one event: a pending prompt takes precedence over the behavior
    /// stack, and otherwise only the top behavior sees the event.
    pub fn dispatch_editor_event(&mut self, event: EditorEvent)
        requires
            old(self).wf(),
            old(self)@.dispatch_ready(event),
        ensures
            final(self).wf(),
            final(self)@ == old(self)@.dispatch(event),
    {
        let n = self.tool_behaviors.len();
        if self.prompts.len() > 0 || n == 0 {
            return;
        }
        let mut top = self.tool_behaviors[n - 1];
        top.event(self, event);
        if self.tool_behaviors.len() == n {
            self.tool_behaviors.set(n - 1, top);
        }
    }

    /// An editor on `glyph`, with its first layer active, nothing open and no history.
    pub fn new(glyph: Glyph, tool: ToolEnum) -> (r: Editor)
        requires
            glyph.layers.len() > 0,
        ensures
            r.wf(),
            r@ == (EditorModel {
                glyph: glyph@,
                active_layer: 0,
                tool,
                behaviors: Seq::empty(),
                modification: None,
                undo: Seq::empty(),
                redo: Seq::empty(),
                prompts: Seq::empty(),
            }),
    {
        let r = Editor {
            glyph,
            active_layer: 0,
            tool,
            tool_behaviors: Vec::new(),
            modification: None,
            undo_stack: Vec::new(),
            redo_stack: Vec::new(),
            prompts: Vec::new(),
        };
        assert(r@.behaviors =~= Seq::empty());
        assert(r@.undo =~= Seq::empty());
        assert(r@.redo =~= Seq::empty());
        assert(r@.prompts =~= Seq::empty());
        r
    }

    pub fn is_modifying(&self) -> (r: bool)
        ensures
            r == self@.is_modifying(),
    {
        self.modification.is_some()
    }

    pub fn get_tool(&self) -> (r: ToolEnum)
        ensures
            r == self@.tool,
    {
        self.tool
    }

    pub fn set_tool(&mut self, tool: ToolEnum)
        ensures
            final(self)@ == (EditorModel { tool, ..old(self)@ }),
    {
        self.tool = tool;
    }

    pub fn get_active_layer(&self) -> (r: usize)
        ensures
            r as int == self@.active_layer,
    {
        self.active_layer
    }

    pub fn get_layer_count(&self) -> (r: usize)
        ensures
            r as int == self@.layer_count(),
    {
        self.glyph.layers.len()
    }

    /// Selects layer `layer`; an index past the last layer is refused.
    pub fn set_active_layer(&mut self, layer: usize) -> (r: bool)
        requires
            old(self).wf(),
        ensures
            final(self).wf(),
            r == (layer < old(self)@.layer_count()),
            r ==> final(self)@ == (EditorModel { active_layer: layer as int, ..old(self)@ }),
            !r ==> final(self)@ == old(self)@,
    {
        if layer < self.glyph.layers.len() {
            self.active_layer = layer;
            true
        } else {
            false
        }
    }

    /// Opens a document-wide transaction. Opening one while another is open
    /// is a contract violation.
    pub fn begin_modification(&mut self, label: &str)
        requires
            !old(self)@.is_modifying(),
        ensures
            final(self)@ == old(self)@.begin(label@, ModificationScope::Glyph),
    {
        let before = self.glyph.duplicate();
        self.modification = Some(Modification { label: label.to_owned(), scope: ModificationScope::Glyph, before });
    }

    /// Closes the open transaction into one undo step.
    pub fn end_modification(&mut self)
        requires
            old(self).wf(),
            old(self)@.is_modifying(),
        ensures
            final(self).wf(),
            final(self)@ == old(self)@.end(),
    {
        let m = self.modification.take().unwrap();
        let Modification { label, scope, before } = m;
        match scope {
            ModificationScope::Glyph => {},
            ModificationScope::Layer { layer, restore } => {
                let n = self.glyph.layers.len();
                self.active_layer = if restore < n { restore } else { n - 1 };
            },
        }
        self.undo_stack.push(HistoryEntry { label, scope, glyph: before });
        self.redo_stack = Vec::new();
        proof {
            assert(final(self)@.undo =~= old(self)@.end().undo);
            assert(final(self)@.redo =~= Seq::<HistoryModel>::empty());
        }
    }
}

} // verus!

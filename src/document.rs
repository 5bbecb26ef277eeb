use vstd::prelude::*;
use crate::events::Point;

verus! {

/// A layer's colour, as the bit patterns of its red, green, blue and alpha
/// components.
#[derive(Clone, Copy, Debug, PartialEq, Eq, Structural)]
pub struct Color {
    pub r: u32,
    pub g: u32,
    pub b: u32,
    pub a: u32,
}

/// How a layer is composited with the layers below it.
#[derive(Clone, Copy, Debug, PartialEq, Eq, Structural)]
pub enum LayerOperation {
    Difference,
    Union,
    Intersect,
    Xor,
}

/// A named construction line.
#[derive(Debug)]
pub struct Guideline {
    pub name: String,
    pub at: Point,
    pub angle: i64,
}

/// A named anchor point.
#[derive(Debug)]
pub struct Anchor {
    pub class: String,
    pub at: Point,
}

/// One layer of a glyph.
#[derive(Debug)]
pub struct Layer {
    pub name: String,
    pub visible: bool,
    pub color: Color,
    pub operation: Option<LayerOperation>,
    pub guidelines: Vec<Guideline>,
    pub anchors: Vec<Anchor>,
}

/// The editable glyph: an ordered sequence of layers.
#[derive(Debug)]
pub struct Glyph {
    pub name: String,
    pub layers: Vec<Layer>,
}

pub struct GuidelineModel {
    pub name: Seq<char>,
    pub at: Point,
    pub angle: i64,
}

pub struct AnchorModel {
    pub class: Seq<char>,
    pub at: Point,
}

pub struct LayerModel {
    pub name: Seq<char>,
    pub visible: bool,
    pub color: Color,
    pub operation: Option<LayerOperation>,
    pub guidelines: Seq<GuidelineModel>,
    pub anchors: Seq<AnchorModel>,
}

pub struct GlyphModel {
    pub name: Seq<char>,
    pub layers: Seq<LayerModel>,
}

impl View for Guideline {
    type V = GuidelineModel;

    open spec fn view(&self) -> GuidelineModel {
        GuidelineModel { name: self.name@, at: self.at, angle: self.angle }
    }
}

impl View for Anchor {
    type V = AnchorModel;

    open spec fn view(&self) -> AnchorModel {
        AnchorModel { class: self.class@, at: self.at }
    }
}

impl View for Layer {
    type V = LayerModel;

    open spec fn view(&self) -> LayerModel {
        LayerModel {
            name: self.name@,
            visible: self.visible,
            color: self.color,
            operation: self.operation,
            guidelines: self.guidelines@.map_values(|g: Guideline| g@),
            anchors: self.anchors@.map_values(|a: Anchor| a@),
        }
    }
}

impl View for Glyph {
    type V = GlyphModel;

    open spec fn view(&self) -> GlyphModel {
        GlyphModel { name: self.name@, layers: self.layers@.map_values(|l: Layer| l@) }
    }
}

impl GlyphModel {
    /// This glyph with guideline `idx` of layer `layer` at `at`.
    pub open spec fn with_guideline_at(self, layer: int, idx: int, at: Point) -> GlyphModel {
        let l = self.layers[layer];
        GlyphModel {
            layers: self.layers.update(
                layer,
                LayerModel {
                    guidelines: l.guidelines.update(idx, GuidelineModel { at, ..l.guidelines[idx] }),
                    ..l
                },
            ),
            ..self
        }
    }
}

impl Guideline {
    pub fn new(name: String, at: Point, angle: i64) -> (r: Guideline)
        ensures
            r@ == (GuidelineModel { name: name@, at, angle }),
    {
        Guideline { name, at, angle }
    }

    pub fn duplicate(&self) -> (r: Guideline)
        ensures
            r@ == self@,
    {
        Guideline { name: self.name.clone(), at: self.at, angle: self.angle }
    }
}

impl Anchor {
    pub fn new(class: String, at: Point) -> (r: Anchor)
        ensures
            r@ == (AnchorModel { class: class@, at }),
    {
        Anchor { class, at }
    }

    pub fn duplicate(&self) -> (r: Anchor)
        ensures
            r@ == self@,
    {
        Anchor { class: self.class.clone(), at: self.at }
    }
}

impl Layer {
    /// An empty, visible layer with no compositing operation.
    pub fn new(name: String, color: Color) -> (r: Layer)
        ensures
            r@ == (LayerModel {
                name: name@,
                visible: true,
                color,
                operation: None,
                guidelines: Seq::empty(),
                anchors: Seq::empty(),
            }),
    {
        let r = Layer { name, visible: true, color, operation: None, guidelines: Vec::new(), anchors: Vec::new() };
        assert(r@.guidelines =~= Seq::empty());
        assert(r@.anchors =~= Seq::empty());
        r
    }

    pub fn duplicate(&self) -> (r: Layer)
        ensures
            r@ == self@,
    {
        let mut guidelines: Vec<Guideline> = Vec::new();
        let mut i: usize = 0;
        while i < self.guidelines.len()
            invariant
                i <= self.guidelines.len(),
                guidelines@.len() == i,
                forall|k: int| 0 <= k < i ==> #[trigger] guidelines@[k]@ == self.guidelines@[k]@,
            decreases self.guidelines.len() - i,
        {
            guidelines.push(self.guidelines[i].duplicate());
            i = i + 1;
        }
        let mut anchors: Vec<Anchor> = Vec::new();
        let mut j: usize = 0;
        while j < self.anchors.len()
            invariant
                j <= self.anchors.len(),
                anchors@.len() == j,
                forall|k: int| 0 <= k < j ==> #[trigger] anchors@[k]@ == self.anchors@[k]@,
            decreases self.anchors.len() - j,
        {
            anchors.push(self.anchors[j].duplicate());
            j = j + 1;
        }
        let r = Layer {
            name: self.name.clone(),
            visible: self.visible,
            color: self.color,
            operation: self.operation,
            guidelines,
            anchors,
        };
        assert(r@.guidelines =~= self@.guidelines);
        assert(r@.anchors =~= self@.anchors);
        r
    }
}

impl Glyph {
    pub fn new(name: String) -> (r: Glyph)
        ensures
            r@ == (GlyphModel { name: name@, layers: Seq::empty() }),
    {
        let r = Glyph { name, layers: Vec::new() };
        assert(r@.layers =~= Seq::empty());
        r
    }

    /// Moves guideline `idx` of layer `layer` to `at`.
    pub fn set_guideline_at(&mut self, layer: usize, idx: usize, at: Point)
        requires
            layer < old(self).layers.len(),
            idx < old(self).layers@[layer as int].guidelines.len(),
        ensures
            final(self)@ == old(self)@.with_guideline_at(layer as int, idx as int, at),
    {
        self.layers[layer].guidelines[idx].at = at;
        proof {
            let l = old(self)@.layers[layer as int];
            let l2 = LayerModel { guidelines: l.guidelines.update(idx as int, GuidelineModel { at, ..l.guidelines[idx as int] }), ..l };
            assert(final(self)@.layers[layer as int].guidelines =~= l2.guidelines);
            assert(final(self)@.layers =~= old(self)@.layers.update(layer as int, l2));
        }
    }

    /// Layers `a` and `b` trade places.
    pub fn swap_layers(&mut self, a: usize, b: usize)
        requires
            a < old(self).layers.len(),
            b < old(self).layers.len(),
        ensures
            final(self)@ == (GlyphModel {
                layers: old(self)@.layers.update(a as int, old(self)@.layers[b as int]).update(
                    b as int,
                    old(self)@.layers[a as int],
                ),
                ..old(self)@
            }),
    {
        let lo = if a < b { a } else { b };
        let hi = if a < b { b } else { a };
        if lo < hi {
            let lh = self.layers.remove(hi);
            let ll = self.layers.remove(lo);
            self.layers.insert(lo, lh);
            self.layers.insert(hi, ll);
        }
        proof {
            let ls = old(self)@.layers;
            assert(self@.layers =~= ls.update(a as int, ls[b as int]).update(b as int, ls[a as int]));
        }
    }

    pub fn duplicate(&self) -> (r: Glyph)
        ensures
            r@ == self@,
    {
        let mut layers: Vec<Layer> = Vec::new();
        let mut i: usize = 0;
        while i < self.layers.len()
            invariant
                i <= self.layers.len(),
                layers@.len() == i,
                forall|k: int| 0 <= k < i ==> #[trigger] layers@[k]@ == self.layers@[k]@,
            decreases self.layers.len() - i,
        {
            layers.push(self.layers[i].duplicate());
            i = i + 1;
        }
        let r = Glyph { name: self.name.clone(), layers };
        assert(r@.layers =~= self@.layers);
        r
    }
}

} // verus!

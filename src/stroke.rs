use vstd::prelude::*;

verus! {

/// A position on the canvas, in logical pixels.
#[derive(Clone, Copy, Debug, PartialEq, Eq, Structural)]
pub struct Point {
    pub x: i32,
    pub y: i32,
}

/// An RGBA color.
#[derive(Clone, Copy, Debug, PartialEq, Eq, Structural)]
pub struct Color {
    pub r: u8,
    pub g: u8,
    pub b: u8,
    pub a: u8,
}

/// How a mark is drawn: a line width, in hundredths of a point, and a color.
#[derive(Clone, Copy, Debug, PartialEq, Eq, Structural)]
pub struct Style {
    pub width: u32,
    pub color: Color,
}

/// One recorded pointer position, with the style in force when it was recorded.
#[derive(Clone, Copy, Debug, PartialEq, Eq, Structural)]
pub struct Sample {
    pub pos: Point,
    pub style: Style,
}

/// The strokes after `s` is fed in: a placeholder is opened if there is none,
/// and `s` is appended to it unless it repeats the last sample.
pub open spec fn fed(l: Seq<Seq<Sample>>, s: Sample) -> Seq<Seq<Sample>> {
    let l1 = if l.len() == 0 { seq![Seq::<Sample>::empty()] } else { l };
    let open = l1.last();
    if open.len() > 0 && open.last() == s {
        l1
    } else {
        l1.update(l1.len() - 1, open.push(s))
    }
}

/// Whether the open stroke holds samples, so that input ending seals it.
pub open spec fn can_seal(l: Seq<Seq<Sample>>) -> bool {
    l.len() > 0 && l.last().len() > 0
}

/// The strokes after input ends: a non-empty open stroke is sealed and a new
/// empty placeholder opened; otherwise nothing changes.
pub open spec fn sealed(l: Seq<Seq<Sample>>) -> Seq<Seq<Sample>> {
    if can_seal(l) {
        l.push(Seq::<Sample>::empty())
    } else {
        l
    }
}

/// The strokes without the most recently sealed one (the element before the
/// open placeholder); unchanged where there is none.
pub open spec fn unsealed_last(l: Seq<Seq<Sample>>) -> Seq<Seq<Sample>> {
    if l.len() >= 2 {
        l.remove(l.len() - 2)
    } else {
        l
    }
}

/// The strokes of one tool. The last element, if any, is the open stroke that
/// receives new samples; every element before it is sealed and non-empty.
pub struct StrokeList {
    strokes: Vec<Vec<Sample>>,
}

impl View for StrokeList {
    type V = Seq<Seq<Sample>>;

    closed spec fn view(&self) -> Seq<Seq<Sample>> {
        self.strokes@.map_values(|s: Vec<Sample>| s@)
    }
}

/// Every stroke but the open one holds at least one sample.
pub open spec fn sealed_non_empty(l: Seq<Seq<Sample>>) -> bool {
    forall|i: int| 0 <= i < l.len() - 1 ==> #[trigger] l[i].len() > 0
}

impl StrokeList {
    pub open spec fn wf(&self) -> bool {
        sealed_non_empty(self@)
    }

    pub fn new() -> (r: StrokeList)
        ensures
            r@ == Seq::<Seq<Sample>>::empty(),
            r.wf(),
    {
        let r = StrokeList { strokes: Vec::new() };
        assert(r@ =~= Seq::<Seq<Sample>>::empty());
        r
    }

    /// Records a pointer sample in the open stroke.
    pub fn feed(&mut self, s: Sample)
        requires
            old(self).wf(),
        ensures
            final(self)@ == fed(old(self)@, s),
            final(self).wf(),
    {
        let ghost l0 = self@;
        if self.strokes.len() == 0 {
            self.strokes.push(Vec::new());
            assert(self@ =~= seq![Seq::<Sample>::empty()]);
        }
        let ghost l1 = self@;
        let mut open = self.strokes.pop().unwrap();
        assert(open@ == l1.last());
        let n = open.len();
        if n == 0 || open[n - 1] != s {
            open.push(s);
        }
        self.strokes.push(open);
        assert(self@ =~= fed(l0, s));
    }

    /// Ends input: seals a non-empty open stroke and opens a new placeholder.
    /// Returns whether a stroke was sealed.
    pub fn seal(&mut self) -> (done: bool)
        requires
            old(self).wf(),
        ensures
            done == can_seal(old(self)@),
            final(self)@ == sealed(old(self)@),
            final(self).wf(),
    {
        let n = self.strokes.len();
        if n > 0 && self.strokes[n - 1].len() > 0 {
            self.strokes.push(Vec::new());
            assert(self@ =~= old(self)@.push(Seq::<Sample>::empty()));
            true
        } else {
            false
        }
    }

    /// Removes the most recently sealed stroke, if there is one.
    pub fn remove_last_sealed(&mut self)
        requires
            old(self).wf(),
        ensures
            final(self)@ == unsealed_last(old(self)@),
            final(self).wf(),
    {
        let n = self.strokes.len();
        if n >= 2 {
            self.strokes.remove(n - 2);
            assert(self@ =~= old(self)@.remove(n - 2));
        }
    }

    /// Removes every stroke.
    pub fn clear(&mut self)
        ensures
            final(self)@ == Seq::<Seq<Sample>>::empty(),
            final(self).wf(),
    {
        self.strokes.clear();
        assert(self@ =~= Seq::<Seq<Sample>>::empty());
    }
}


/// The annotation tools; exactly one is active at a time.
#[derive(Clone, Copy, Debug, PartialEq, Eq, Structural)]
pub enum ToolKind {
    NotSelected,
    Pen,
    Line,
    Arrow,
    Rectangle,
    Circle,
    Text,
    Crop,
}

/// The tools whose input is accumulated as strokes.
pub open spec fn is_drawable(k: ToolKind) -> bool {
    match k {
        ToolKind::Pen | ToolKind::Line | ToolKind::Arrow | ToolKind::Rectangle
        | ToolKind::Circle => true,
        _ => false,
    }
}

/// A mark to be rendered: a stroke of some tool, or a text label.
pub enum Shape {
    Stroke { kind: ToolKind, points: Vec<Point>, style: Style },
    Label { pos: Point, text: String, style: Style },
}

/// The model of a `Shape`.
pub enum ShapeView {
    Stroke { kind: ToolKind, points: Seq<Point>, style: Style },
    Label { pos: Point, text: Seq<char>, style: Style },
}

impl View for Shape {
    type V = ShapeView;

    open spec fn view(&self) -> ShapeView {
        match self {
            Shape::Stroke { kind, points, style } => ShapeView::Stroke {
                kind: *kind,
                points: points@,
                style: *style,
            },
            Shape::Label { pos, text, style } => ShapeView::Label {
                pos: *pos,
                text: text@,
                style: *style,
            },
        }
    }
}

pub open spec fn shapes_view(v: Seq<Shape>) -> Seq<ShapeView> {
    v.map_values(|s: Shape| s@)
}

/// How many samples a stroke of a tool needs to be drawn: an arrow is drawn
/// from any recorded sample, the other tools need two.
pub open spec fn min_samples(k: ToolKind) -> nat {
    if k == ToolKind::Arrow {
        1
    } else {
        2
    }
}

pub open spec fn positions(s: Seq<Sample>) -> Seq<Point> {
    s.map_values(|x: Sample| x.pos)
}

/// A stroke drawn with the style of its first sample.
pub open spec fn stroke_shape(k: ToolKind, s: Seq<Sample>) -> ShapeView {
    ShapeView::Stroke { kind: k, points: positions(s), style: s[0].style }
}

/// The shapes of a tool's strokes, in order, leaving out those too short to draw.
pub open spec fn stroke_shapes(k: ToolKind, l: Seq<Seq<Sample>>) -> Seq<ShapeView>
    decreases l.len(),
{
    if l.len() == 0 {
        Seq::empty()
    } else {
        let rest = stroke_shapes(k, l.drop_last());
        if l.last().len() >= min_samples(k) {
            rest.push(stroke_shape(k, l.last()))
        } else {
            rest
        }
    }
}

impl StrokeList {
    /// Appends to `out` the shape of each stroke long enough to be drawn.
    pub fn push_shapes(&self, kind: ToolKind, out: &mut Vec<Shape>)
        ensures
            shapes_view(final(out)@) == shapes_view(old(out)@) + stroke_shapes(kind, self@),
    {
        let ghost out0 = shapes_view(out@);
        let min: usize = if kind == ToolKind::Arrow {
            1
        } else {
            2
        };
        let mut i: usize = 0;
        while i < self.strokes.len()
            invariant
                i <= self.strokes.len(),
                min == min_samples(kind),
                shapes_view(out@) == out0 + stroke_shapes(kind, self@.take(i as int)),
            decreases self.strokes.len() - i,
        {
            let s = &self.strokes[i];
            assert(s@ == self@[i as int]);
            assert(self@.take(i + 1).drop_last() =~= self@.take(i as int));
            assert(self@.take(i + 1).last() == self@[i as int]);
            if s.len() >= min {
                let mut pts: Vec<Point> = Vec::new();
                let mut j: usize = 0;
                while j < s.len()
                    invariant
                        j <= s.len(),
                        pts@ =~= positions(s@.take(j as int)),
                    decreases s.len() - j,
                {
                    pts.push(s[j].pos);
                    assert(s@.take(j + 1) =~= s@.take(j as int).push(s@[j as int]));
                    j += 1;
                }
                assert(s@.take(j as int) =~= s@);
                let shape = Shape::Stroke { kind, points: pts, style: s[0].style };
                assert(shape@ == stroke_shape(kind, s@));
                let ghost before = out@;
                out.push(shape);
                assert(shapes_view(out@) =~= shapes_view(before).push(shape@));
                assert(stroke_shapes(kind, self@.take(i + 1)) == stroke_shapes(
                    kind,
                    self@.take(i as int),
                ).push(stroke_shape(kind, s@)));
                assert(shapes_view(out@) =~= out0 + stroke_shapes(kind, self@.take(i + 1)));
            } else {
                assert(shapes_view(out@) =~= out0 + stroke_shapes(kind, self@.take(i + 1)));
            }
            i += 1;
        }
        assert(self@.take(i as int) =~= self@);
    }
}

} // verus!

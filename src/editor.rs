use vstd::prelude::*;

use crate::stroke::{
    can_seal, fed, is_drawable, min_samples, sealed, sealed_non_empty, shapes_view, stroke_shape,
    stroke_shapes,
    unsealed_last, Point, Sample, Shape, ShapeView, StrokeList, Style, ToolKind,
};

verus! {

/// A text label placed on the image.
pub struct TextMark {
    pub pos: Point,
    pub text: String,
    pub style: Style,
}

/// The model of a committed text label: position, characters and style.
pub type TextView = (Point, Seq<char>, Style);

/// The model of an `Editor`.
#[verifier::ext_equal]
pub struct EditorView {
    pub style: Style,
    pub pen: Seq<Seq<Sample>>,
    pub line: Seq<Seq<Sample>>,
    pub arrow: Seq<Seq<Sample>>,
    pub rect: Seq<Seq<Sample>>,
    pub circle: Seq<Seq<Sample>>,
    pub text: Seq<char>,
    pub texts: Seq<TextView>,
    pub tool: ToolKind,
    pub log: Seq<ToolKind>,
    pub session: bool,
}

/// How many entries of `log` name tool `k`.
pub open spec fn count_of(log: Seq<ToolKind>, k: ToolKind) -> nat
    decreases log.len(),
{
    if log.len() == 0 {
        0
    } else {
        count_of(log.drop_last(), k) + if log.last() == k {
            1nat
        } else {
            0nat
        }
    }
}

/// How many strokes of a list are sealed: all but the open one.
pub open spec fn sealed_count(l: Seq<Seq<Sample>>) -> nat {
    if l.len() == 0 {
        0
    } else {
        (l.len() - 1) as nat
    }
}

proof fn lemma_count_push(log: Seq<ToolKind>, x: ToolKind)
    ensures
        forall|k: ToolKind|
            #[trigger] count_of(log.push(x), k) == count_of(log, k) + if x == k {
                1nat
            } else {
                0nat
            },
{
    assert(log.push(x).drop_last() =~= log);
}

/// What the text buffer holds before anything is typed.
pub open spec fn placeholder_text() -> Seq<char> {
    "Example"@
}

/// An editor with no marks, no tool, no session, and the given style.
pub open spec fn empty_editor(style: Style) -> EditorView {
    EditorView {
        style,
        pen: Seq::empty(),
        line: Seq::empty(),
        arrow: Seq::empty(),
        rect: Seq::empty(),
        circle: Seq::empty(),
        text: placeholder_text(),
        texts: Seq::empty(),
        tool: ToolKind::NotSelected,
        log: Seq::empty(),
        session: false,
    }
}

pub open spec fn label_shape(t: TextView) -> ShapeView {
    ShapeView::Label { pos: t.0, text: t.1, style: t.2 }
}

impl EditorView {
    /// The strokes of a drawable tool (empty for the others).
    pub open spec fn strokes(self, k: ToolKind) -> Seq<Seq<Sample>> {
        match k {
            ToolKind::Pen => self.pen,
            ToolKind::Line => self.line,
            ToolKind::Arrow => self.arrow,
            ToolKind::Rectangle => self.rect,
            ToolKind::Circle => self.circle,
            _ => Seq::empty(),
        }
    }

    /// The same state with the strokes of tool `k` replaced by `l`.
    pub open spec fn with_strokes(self, k: ToolKind, l: Seq<Seq<Sample>>) -> EditorView {
        match k {
            ToolKind::Pen => EditorView { pen: l, ..self },
            ToolKind::Line => EditorView { line: l, ..self },
            ToolKind::Arrow => EditorView { arrow: l, ..self },
            ToolKind::Rectangle => EditorView { rect: l, ..self },
            ToolKind::Circle => EditorView { circle: l, ..self },
            _ => self,
        }
    }

    /// Sealed strokes are non-empty, and the undo log holds one entry for each
    /// sealed stroke and each committed label, and nothing else; so an undo
    /// always finds the mark it names.
    pub open spec fn wf(self) -> bool {
        &&& sealed_non_empty(self.pen)
        &&& sealed_non_empty(self.line)
        &&& sealed_non_empty(self.arrow)
        &&& sealed_non_empty(self.rect)
        &&& sealed_non_empty(self.circle)
        &&& count_of(self.log, ToolKind::Pen) == sealed_count(self.pen)
        &&& count_of(self.log, ToolKind::Line) == sealed_count(self.line)
        &&& count_of(self.log, ToolKind::Arrow) == sealed_count(self.arrow)
        &&& count_of(self.log, ToolKind::Rectangle) == sealed_count(self.rect)
        &&& count_of(self.log, ToolKind::Circle) == sealed_count(self.circle)
        &&& count_of(self.log, ToolKind::Text) == self.texts.len()
        &&& count_of(self.log, ToolKind::NotSelected) == 0
        &&& count_of(self.log, ToolKind::Crop) == 0
    }

    /// Selecting a tool; selecting Text while it is active deselects it.
    pub open spec fn select_tool(self, k: ToolKind) -> EditorView {
        let t = if k == ToolKind::Text && self.tool == ToolKind::Text {
            ToolKind::NotSelected
        } else {
            k
        };
        EditorView { tool: t, ..self }
    }

    /// Whether pointer input currently goes to the strokes of the active tool.
    pub open spec fn drawing(self) -> bool {
        self.session && is_drawable(self.tool)
    }

    pub open spec fn feed(self, s: Sample) -> EditorView {
        if self.drawing() {
            self.with_strokes(self.tool, fed(self.strokes(self.tool), s))
        } else {
            self
        }
    }

    pub open spec fn end_input(self) -> EditorView {
        if self.drawing() && can_seal(self.strokes(self.tool)) {
            EditorView {
                log: self.log.push(self.tool),
                ..self.with_strokes(self.tool, sealed(self.strokes(self.tool)))
            }
        } else {
            self
        }
    }

    pub open spec fn commit_text(self, pos: Point, text: Seq<char>, style: Style) -> EditorView {
        EditorView {
            texts: self.texts.push((pos, text, style)),
            text: placeholder_text(),
            tool: ToolKind::NotSelected,
            log: self.log.push(ToolKind::Text),
            ..self
        }
    }

    pub open spec fn undo(self) -> EditorView {
        if self.log.len() == 0 {
            self
        } else {
            let k = self.log.last();
            let v = EditorView { log: self.log.drop_last(), ..self };
            if is_drawable(k) {
                v.with_strokes(k, unsealed_last(v.strokes(k)))
            } else if k == ToolKind::Text && v.texts.len() > 0 {
                EditorView { texts: v.texts.drop_last(), ..v }
            } else {
                v
            }
        }
    }

    pub open spec fn cleared(self) -> EditorView {
        EditorView {
            pen: Seq::empty(),
            line: Seq::empty(),
            arrow: Seq::empty(),
            rect: Seq::empty(),
            circle: Seq::empty(),
            texts: Seq::empty(),
            log: Seq::empty(),
            tool: ToolKind::NotSelected,
            ..self
        }
    }

    /// Everything to be drawn: pen, line, rectangle, circle and arrow strokes,
    /// then the text labels.
    pub open spec fn shapes(self) -> Seq<ShapeView> {
        stroke_shapes(ToolKind::Pen, self.pen) + stroke_shapes(ToolKind::Line, self.line)
            + stroke_shapes(ToolKind::Rectangle, self.rect) + stroke_shapes(
            ToolKind::Circle,
            self.circle,
        ) + stroke_shapes(ToolKind::Arrow, self.arrow) + self.texts.map_values(
            |t: TextView| label_shape(t),
        )
    }
}

/// The annotation state of a captured image: per-tool strokes, text labels,
/// the active tool and the undo log.
pub struct Editor {
    style: Style,
    pen: StrokeList,
    line: StrokeList,
    arrow: StrokeList,
    rect: StrokeList,
    circle: StrokeList,
    text: String,
    texts: Vec<TextMark>,
    tool: ToolKind,
    log: Vec<ToolKind>,
    session: bool,
}

impl View for Editor {
    type V = EditorView;

    closed spec fn view(&self) -> EditorView {
        EditorView {
            style: self.style,
            pen: self.pen@,
            line: self.line@,
            arrow: self.arrow@,
            rect: self.rect@,
            circle: self.circle@,
            text: self.text@,
            texts: self.texts@.map_values(|m: TextMark| (m.pos, m.text@, m.style)),
            tool: self.tool,
            log: self.log@,
            session: self.session,
        }
    }
}

impl Editor {
    pub open spec fn wf(&self) -> bool {
        self@.wf()
    }

    /// An empty editor: no strokes, no labels, no tool, no session.
    pub fn new(style: Style) -> (r: Editor)
        ensures
            r.wf(),
            r@ == empty_editor(style),
    {
        let r = Editor {
            style,
            pen: StrokeList::new(),
            line: StrokeList::new(),
            arrow: StrokeList::new(),
            rect: StrokeList::new(),
            circle: StrokeList::new(),
            text: String::from_str("Example"),
            texts: Vec::new(),
            tool: ToolKind::NotSelected,
            log: Vec::new(),
            session: false,
        };
        assert(r@.texts =~= Seq::<TextView>::empty());
        r
    }

    pub fn style(&self) -> (r: Style)
        ensures
            r == self@.style,
    {
        self.style
    }

    /// Sets the style used for new strokes and labels.
    pub fn set_style(&mut self, style: Style)
        ensures
            final(self)@ == (EditorView { style, ..old(self)@ }),
    {
        self.style = style;
        assert(self@ =~= EditorView { style, ..old(self)@ });
    }

    pub fn active_tool(&self) -> (r: ToolKind)
        ensures
            r == self@.tool,
    {
        self.tool
    }

    pub fn in_session(&self) -> (r: bool)
        ensures
            r == self@.session,
    {
        self.session
    }

    /// Starts or stops the annotation session; strokes are kept.
    pub fn set_session(&mut self, on: bool)
        ensures
            final(self)@ == (EditorView { session: on, ..old(self)@ }),
    {
        self.session = on;
        assert(self@ =~= EditorView { session: on, ..old(self)@ });
    }

    /// The text being typed.
    pub fn text(&self) -> (r: &String)
        ensures
            r@ == self@.text,
    {
        &self.text
    }

    pub fn set_text(&mut self, text: String)
        ensures
            final(self)@ == (EditorView { text: text@, ..old(self)@ }),
    {
        self.text = text;
        assert(self@ =~= EditorView { text: text@, ..old(self)@ });
    }

    /// The undo log, oldest entry first.
    pub fn undo_log(&self) -> (r: &Vec<ToolKind>)
        ensures
            r@ == self@.log,
    {
        &self.log
    }

    pub fn set_active_tool(&mut self, kind: ToolKind)
        ensures
            final(self)@ == old(self)@.select_tool(kind),
    {
        if kind == ToolKind::Text && self.tool == ToolKind::Text {
            self.tool = ToolKind::NotSelected;
        } else {
            self.tool = kind;
        }
        assert(self@ =~= old(self)@.select_tool(kind));
    }

    /// Records a pointer sample for the active tool, while a session is on and
    /// a drawing tool is active.
    pub fn feed_pointer(&mut self, pos: Point, style: Style)
        requires
            old(self).wf(),
        ensures
            final(self).wf(),
            final(self)@ == old(self)@.feed(Sample { pos, style }),
    {
        let s = Sample { pos, style };
        if !self.session {
            return;
        }
        match self.tool {
            ToolKind::Pen => self.pen.feed(s),
            ToolKind::Line => self.line.feed(s),
            ToolKind::Arrow => self.arrow.feed(s),
            ToolKind::Rectangle => self.rect.feed(s),
            ToolKind::Circle => self.circle.feed(s),
            _ => {},
        }
        assert(self@ =~= old(self)@.feed(s));
        proof {
            lemma_feed_wf(old(self)@, s);
        }
    }

    /// Called when pointer input stops: seals the open stroke of the active
    /// tool, if it holds samples, and logs it for undo.
    pub fn end_pointer_input(&mut self)
        requires
            old(self).wf(),
        ensures
            final(self).wf(),
            final(self)@ == old(self)@.end_input(),
    {
        if !self.session {
            return;
        }
        let k = self.tool;
        let done = match k {
            ToolKind::Pen => self.pen.seal(),
            ToolKind::Line => self.line.seal(),
            ToolKind::Arrow => self.arrow.seal(),
            ToolKind::Rectangle => self.rect.seal(),
            ToolKind::Circle => self.circle.seal(),
            _ => false,
        };
        if done {
            self.log.push(k);
        }
        assert(self@ =~= old(self)@.end_input());
        proof {
            lemma_end_input_wf(old(self)@);
        }
    }

    /// Places a text label, resets the text buffer, deselects the tool and
    /// logs the label for undo.
    pub fn commit_text(&mut self, pos: Point, text: String, style: Style)
        requires
            old(self).wf(),
        ensures
            final(self).wf(),
            final(self)@ == old(self)@.commit_text(pos, text@, style),
    {
        let ghost t = text@;
        self.texts.push(TextMark { pos, text, style });
        self.text = String::from_str("Example");
        self.tool = ToolKind::NotSelected;
        self.log.push(ToolKind::Text);
        assert(self@.texts =~= old(self)@.texts.push((pos, t, style)));
        assert(self@ =~= old(self)@.commit_text(pos, t, style));
        proof {
            lemma_commit_text_wf(old(self)@, pos, t, style);
        }
    }

    /// Takes back the most recent logged mark; does nothing on an empty log.
    pub fn undo_last(&mut self)
        requires
            old(self).wf(),
        ensures
            final(self).wf(),
            final(self)@ == old(self)@.undo(),
    {
        match self.log.pop() {
            None => {},
            Some(k) => {
                match k {
                    ToolKind::Pen => self.pen.remove_last_sealed(),
                    ToolKind::Line => self.line.remove_last_sealed(),
                    ToolKind::Arrow => self.arrow.remove_last_sealed(),
                    ToolKind::Rectangle => self.rect.remove_last_sealed(),
                    ToolKind::Circle => self.circle.remove_last_sealed(),
                    ToolKind::Text => {
                        if self.texts.len() > 0 {
                            self.texts.pop();
                            assert(self@.texts =~= old(self)@.texts.drop_last());
                        }
                    },
                    _ => {},
                }
            },
        }
        assert(self@ =~= old(self)@.undo());
        proof {
            lemma_undo_wf(old(self)@);
        }
    }

    /// Discards every mark and the undo log, and deselects the tool.
    pub fn clear_all(&mut self)
        ensures
            final(self).wf(),
            final(self)@ == old(self)@.cleared(),
    {
        self.pen.clear();
        self.line.clear();
        self.arrow.clear();
        self.rect.clear();
        self.circle.clear();
        self.texts.clear();
        self.log.clear();
        self.tool = ToolKind::NotSelected;
        assert(self@.texts =~= Seq::<TextView>::empty());
        assert(self@ =~= old(self)@.cleared());
    }

    /// The shapes to render, in drawing order.
    pub fn visible_shapes(&self) -> (r: Vec<Shape>)
        ensures
            shapes_view(r@) == self@.shapes(),
    {
        let mut out: Vec<Shape> = Vec::new();
        assert(shapes_view(out@) =~= Seq::<ShapeView>::empty());
        self.pen.push_shapes(ToolKind::Pen, &mut out);
        self.line.push_shapes(ToolKind::Line, &mut out);
        self.rect.push_shapes(ToolKind::Rectangle, &mut out);
        self.circle.push_shapes(ToolKind::Circle, &mut out);
        self.arrow.push_shapes(ToolKind::Arrow, &mut out);
        let ghost base = shapes_view(out@);
        let mut i: usize = 0;
        while i < self.texts.len()
            invariant
                i <= self.texts.len(),
                shapes_view(out@) == base + self@.texts.take(i as int).map_values(
                    |t: TextView| label_shape(t),
                ),
            decreases self.texts.len() - i,
        {
            let m = &self.texts[i];
            let label = Shape::Label { pos: m.pos, text: m.text.clone(), style: m.style };
            let ghost before = out@;
            out.push(label);
            assert(shapes_view(out@) =~= shapes_view(before).push(label@));
            assert(self@.texts.take(i + 1) =~= self@.texts.take(i as int).push(self@.texts[i as int]));
            assert(shapes_view(out@) =~= base + self@.texts.take(i + 1).map_values(
                |t: TextView| label_shape(t),
            ));
            i += 1;
        }
        assert(self@.texts.take(i as int) =~= self@.texts);
        assert(shapes_view(out@) =~= self@.shapes());
        out
    }
}


proof fn lemma_feed_wf(v: EditorView, s: Sample)
    requires
        v.wf(),
    ensures
        v.feed(s).wf(),
{
    if v.drawing() {
        let k = v.tool;
        let l = v.strokes(k);
        let f = fed(l, s);
        if l.len() == 0 {
            assert(f.len() == 1);
        } else {
            assert(f.len() == l.len());
            assert forall|i: int| 0 <= i < f.len() - 1 implies #[trigger] f[i].len() > 0 by {
                assert(f[i] == l[i]);
            }
        }
        assert(sealed_non_empty(f));
        assert(sealed_count(f) == sealed_count(l));
    }
}

proof fn lemma_end_input_wf(v: EditorView)
    requires
        v.wf(),
    ensures
        v.end_input().wf(),
{
    if v.drawing() && can_seal(v.strokes(v.tool)) {
        let k = v.tool;
        let l = v.strokes(k);
        let f = sealed(l);
        lemma_count_push(v.log, k);
        assert forall|i: int| 0 <= i < f.len() - 1 implies #[trigger] f[i].len() > 0 by {
            if i < l.len() - 1 {
                assert(f[i] == l[i]);
            } else {
                assert(f[i] == l.last());
            }
        }
        assert(sealed_count(f) == sealed_count(l) + 1);
    }
}

proof fn lemma_commit_text_wf(v: EditorView, pos: Point, text: Seq<char>, style: Style)
    requires
        v.wf(),
    ensures
        v.commit_text(pos, text, style).wf(),
{
    lemma_count_push(v.log, ToolKind::Text);
}

/// Undo keeps the editor well formed, and on a well-formed editor it always
/// finds the mark that the last log entry names: a sealed stroke of that
/// tool, or a committed label.
pub proof fn lemma_undo_wf(v: EditorView)
    requires
        v.wf(),
    ensures
        v.undo().wf(),
        v.log.len() > 0 && is_drawable(v.log.last()) ==> v.strokes(v.log.last()).len() >= 2,
        v.log.len() > 0 && v.log.last() == ToolKind::Text ==> v.texts.len() > 0,
{
    if v.log.len() > 0 {
        let k = v.log.last();
        let d = v.log.drop_last();
        assert(d.push(k) =~= v.log);
        lemma_count_push(d, k);
        if is_drawable(k) {
            let l = v.strokes(k);
            assert(l.len() >= 2);
            let u = unsealed_last(l);
            assert(u.len() == l.len() - 1);
            assert forall|i: int| 0 <= i < u.len() - 1 implies #[trigger] u[i].len() > 0 by {
                assert(u[i] == l[i]);
            }
            assert(sealed_count(u) + 1 == sealed_count(l));
        }
    }
}

/// The state after feeding each of `samples`, in order.
pub open spec fn feed_all(v: EditorView, samples: Seq<Sample>) -> EditorView
    decreases samples.len(),
{
    if samples.len() == 0 {
        v
    } else {
        feed_all(v, samples.drop_last()).feed(samples.last())
    }
}

/// The strokes of a list before its open placeholder.
pub open spec fn before_open(l: Seq<Seq<Sample>>) -> Seq<Seq<Sample>> {
    if l.len() == 0 {
        l
    } else {
        l.drop_last()
    }
}

/// No sample has been recorded since the last stroke was sealed.
pub open spec fn open_stroke_empty(l: Seq<Seq<Sample>>) -> bool {
    l.len() == 0 || l.last().len() == 0
}

pub open spec fn shape_style(s: ShapeView) -> Style {
    match s {
        ShapeView::Stroke { style, .. } => style,
        ShapeView::Label { style, .. } => style,
    }
}

/// A shape is drawn from at least two samples, unless it is an arrow or a label.
pub open spec fn drawn_from_two_samples(s: ShapeView) -> bool {
    match s {
        ShapeView::Stroke { kind, points, .. } => kind != ToolKind::Arrow ==> points.len() >= 2,
        ShapeView::Label { .. } => true,
    }
}

proof fn lemma_feed_all(v: EditorView, samples: Seq<Sample>) -> (o: Seq<Sample>)
    requires
        v.drawing(),
        open_stroke_empty(v.strokes(v.tool)),
        samples.len() > 0,
    ensures
        feed_all(v, samples) == v.with_strokes(
            v.tool,
            before_open(v.strokes(v.tool)).push(o),
        ),
        o.len() > 0,
        o[0] == samples[0],
        o.len() == 1 ==> forall|i: int| 0 <= i < samples.len() ==> samples[i] == o[0],
    decreases samples.len(),
{
    let k = v.tool;
    let l = v.strokes(k);
    let s = samples.last();
    if samples.len() == 1 {
        let o = seq![s];
        assert(Seq::<Sample>::empty().push(s) =~= o);
        if l.len() == 0 {
            assert(fed(l, s) =~= before_open(l).push(o));
        } else {
            assert(l.last().push(s) =~= o);
            assert(fed(l, s) =~= before_open(l).push(o));
        }
        assert(feed_all(v, samples.drop_last()) == v);
        o
    } else {
        let o1 = lemma_feed_all(v, samples.drop_last());
        let w = feed_all(v, samples.drop_last());
        assert(w.tool == k && w.session == v.session);
        assert(w.strokes(k) == before_open(l).push(o1));
        let o = if o1.last() == s {
            o1
        } else {
            o1.push(s)
        };
        assert(fed(w.strokes(k), s) =~= before_open(l).push(o));
        assert(samples.drop_last()[0] == samples[0]);
        if o.len() == 1 {
            assert forall|i: int| 0 <= i < samples.len() implies samples[i] == o[0] by {
                if i < samples.len() - 1 {
                    assert(samples.drop_last()[i] == samples[i]);
                }
            }
        }
        assert(feed_all(v, samples) =~= v.with_strokes(k, before_open(l).push(o)));
        o
    }
}

proof fn lemma_stroke_shapes_push_short(k: ToolKind, l: Seq<Seq<Sample>>, s: Seq<Sample>)
    requires
        s.len() < 1,
    ensures
        stroke_shapes(k, l.push(s)) == stroke_shapes(k, l),
{
    assert(l.push(s).drop_last() =~= l);
}

proof fn lemma_stroke_shapes_all_from(k: ToolKind, l: Seq<Seq<Sample>>)
    ensures
        forall|i: int|
            0 <= i < stroke_shapes(k, l).len() ==> drawn_from_two_samples(
                #[trigger] stroke_shapes(k, l)[i],
            ) && stroke_shapes(k, l)[i] is Stroke,
    decreases l.len(),
{
    if l.len() > 0 {
        lemma_stroke_shapes_all_from(k, l.drop_last());
    }
}

/// Feeding a drawing tool at least two different samples into an empty open
/// stroke and then ending input makes exactly one more shape of that tool
/// visible, drawn with the style of the first sample; the other tools' shapes
/// and the labels stay as they were.
pub proof fn lemma_sealed_stroke_adds_one_shape(v: EditorView, samples: Seq<Sample>)
    requires
        v.drawing(),
        open_stroke_empty(v.strokes(v.tool)),
        exists|i: int, j: int|
            0 <= i < samples.len() && 0 <= j < samples.len() && samples[i] != samples[j],
    ensures
        ({
            let k = v.tool;
            let w = feed_all(v, samples).end_input();
            &&& stroke_shapes(k, w.strokes(k)).len() == stroke_shapes(k, v.strokes(k)).len() + 1
            &&& stroke_shapes(k, w.strokes(k)).drop_last() == stroke_shapes(k, v.strokes(k))
            &&& shape_style(stroke_shapes(k, w.strokes(k)).last()) == samples[0].style
            &&& forall|k2: ToolKind| k2 != k ==> #[trigger] w.strokes(k2) == v.strokes(k2)
            &&& w.texts == v.texts
            &&& w.shapes().len() == v.shapes().len() + 1
        }),
{
    let k = v.tool;
    let l = v.strokes(k);
    let ij = choose|ij: (int, int)|
        0 <= ij.0 < samples.len() && 0 <= ij.1 < samples.len() && samples[ij.0] != samples[ij.1];
    let o = lemma_feed_all(v, samples);
    assert(o.len() >= 2) by {
        if o.len() == 1 {
            assert(samples[ij.0] == o[0] && samples[ij.1] == o[0]);
        }
    }
    let f = feed_all(v, samples);
    let b = before_open(l);
    assert(f.strokes(k) == b.push(o));
    assert(f.drawing());
    assert(can_seal(f.strokes(k)));
    let w = f.end_input();
    assert(w.strokes(k) == b.push(o).push(Seq::<Sample>::empty()));
    lemma_stroke_shapes_push_short(k, b.push(o), Seq::<Sample>::empty());
    assert(b.push(o).drop_last() =~= b);
    assert(stroke_shapes(k, b.push(o)) == stroke_shapes(k, b).push(stroke_shape(k, o)));
    if l.len() > 0 {
        assert(l =~= b.push(l.last()));
        lemma_stroke_shapes_push_short(k, b, l.last());
    }
    assert(stroke_shapes(k, l) == stroke_shapes(k, b));
    assert(stroke_shapes(k, w.strokes(k)).drop_last() =~= stroke_shapes(k, v.strokes(k)));
    assert forall|k2: ToolKind| k2 != k implies #[trigger] w.strokes(k2) == v.strokes(k2) by {}
}

/// Every drawn stroke other than an arrow comes from at least two samples: a
/// stroke with fewer is never among the visible shapes.
pub proof fn lemma_short_strokes_not_visible(v: EditorView)
    ensures
        forall|i: int|
            0 <= i < v.shapes().len() ==> drawn_from_two_samples(#[trigger] v.shapes()[i]),
{
    lemma_stroke_shapes_all_from(ToolKind::Pen, v.pen);
    lemma_stroke_shapes_all_from(ToolKind::Line, v.line);
    lemma_stroke_shapes_all_from(ToolKind::Rectangle, v.rect);
    lemma_stroke_shapes_all_from(ToolKind::Circle, v.circle);
    lemma_stroke_shapes_all_from(ToolKind::Arrow, v.arrow);
    let a = stroke_shapes(ToolKind::Pen, v.pen);
    let b = stroke_shapes(ToolKind::Line, v.line);
    let c = stroke_shapes(ToolKind::Rectangle, v.rect);
    let d = stroke_shapes(ToolKind::Circle, v.circle);
    let e = stroke_shapes(ToolKind::Arrow, v.arrow);
    let t = v.texts.map_values(|t: TextView| label_shape(t));
    let all = a + b + c + d + e + t;
    assert forall|i: int| 0 <= i < all.len() implies drawn_from_two_samples(#[trigger] all[i]) by {
        if i < a.len() {
            assert(all[i] == a[i]);
        } else if i < a.len() + b.len() {
            assert(all[i] == b[i - a.len()]);
        } else if i < a.len() + b.len() + c.len() {
            assert(all[i] == c[i - a.len() - b.len()]);
        } else if i < a.len() + b.len() + c.len() + d.len() {
            assert(all[i] == d[i - a.len() - b.len() - c.len()]);
        } else if i < a.len() + b.len() + c.len() + d.len() + e.len() {
            assert(all[i] == e[i - a.len() - b.len() - c.len() - d.len()]);
        } else {
            assert(all[i] == t[i - a.len() - b.len() - c.len() - d.len() - e.len()]);
        }
    }
}

/// Undoing right after a stroke was sealed takes away exactly that stroke's
/// shape: the tool's other strokes, the other tools, the labels and the
/// earlier undo entries stay as they were.
pub proof fn lemma_undo_after_seal(v: EditorView)
    requires
        v.drawing(),
        can_seal(v.strokes(v.tool)),
    ensures
        ({
            let k = v.tool;
            let w = v.end_input();
            let u = w.undo();
            let sealed_one = v.strokes(k).last();
            &&& u.strokes(k) == v.strokes(k).drop_last().push(Seq::<Sample>::empty())
            &&& stroke_shapes(k, w.strokes(k)) == stroke_shapes(k, u.strokes(k)) + (if sealed_one.len()
                >= min_samples(k) {
                seq![stroke_shape(k, sealed_one)]
            } else {
                Seq::empty()
            })
            &&& forall|k2: ToolKind| k2 != k ==> #[trigger] u.strokes(k2) == v.strokes(k2)
            &&& u.texts == v.texts
            &&& u.log == v.log
        }),
{
    let k = v.tool;
    let l = v.strokes(k);
    let w = v.end_input();
    let u = w.undo();
    let b = l.drop_last();
    let e = Seq::<Sample>::empty();
    assert(w.strokes(k) == l.push(e));
    assert(w.log.last() == k);
    assert(w.log.drop_last() =~= v.log);
    assert(l.push(e).remove(l.len() - 1) =~= b.push(e));
    assert(u.strokes(k) == b.push(e));
    lemma_stroke_shapes_push_short(k, l, e);
    lemma_stroke_shapes_push_short(k, b, e);
    assert(l =~= b.push(l.last()));
    assert(l.drop_last() =~= b);
    assert forall|k2: ToolKind| k2 != k implies #[trigger] u.strokes(k2) == v.strokes(k2) by {}
    if l.last().len() >= min_samples(k) {
        assert(stroke_shapes(k, l) =~= stroke_shapes(k, b) + seq![stroke_shape(k, l.last())]);
    } else {
        assert(stroke_shapes(k, l) =~= stroke_shapes(k, b) + Seq::empty());
    }
}

/// Undoing with an empty undo log changes nothing.
pub proof fn lemma_undo_empty_log(v: EditorView)
    requires
        v.log.len() == 0,
    ensures
        v.undo() == v,
{
}

/// After clearing, nothing is visible and the undo log is empty, whatever the
/// state before.
pub proof fn lemma_cleared_is_empty(v: EditorView)
    ensures
        v.cleared().shapes().len() == 0,
        v.cleared().log.len() == 0,
{
    let c = v.cleared();
    assert(c.texts.map_values(|t: TextView| label_shape(t)) =~= Seq::<ShapeView>::empty());
}

} // verus!

//! The figure tree and its renderer.
//!
//! A `Fig` is a closed recursive sum of drawable leaves (rectangle, circle,
//! ellipse, line, text) and composite nodes: a styled or transformed child,
//! an ordered list of children, and a shared (reference-counted) child that
//! lets one sub-tree stand under several parents without copying it.

use std::rc::Rc;

use vstd::prelude::*;
use vstd::string::StringExecFns;

use crate::attr::attr_chars;
use crate::attr::push_attr;
use crate::attr::Attr;
use crate::num::num_chars;
use crate::num::push_num;
use crate::num::Num;
use crate::text::escape_chars;
use crate::text::push_escaped;
use crate::trans::push_trans;
use crate::trans::trans_chars;
use crate::trans::Trans;

verus! {

/// One node of a figure tree.
#[derive(Debug)]
pub enum Fig {
    /// `x`, `y`, `width`, `height`.
    Rect(Num, Num, Num, Num),
    /// `cx`, `cy`, `radius`.
    Circle(Num, Num, Num),
    /// `cx`, `cy`, `rx`, `ry`.
    Ellipse(Num, Num, Num, Num),
    /// `x1`, `y1`, `x2`, `y2`.
    Line(Num, Num, Num, Num),
    /// Text at `x`, `y`; the content is escaped on output.
    Text(Num, Num, String),
    /// A child with style attributes.
    Styled(Attr, Box<Fig>),
    /// A child with transformations.
    Transformed(Trans, Box<Fig>),
    /// An ordered list of children, rendered in order; later children
    /// paint over earlier ones.
    Multiple(Vec<Fig>),
    /// A shared child: many parents may hold the same sub-tree.
    Shared(Rc<Fig>),
}

/// Every scalar of the tree is renderable.
pub open spec fn fig_wf(f: Fig) -> bool
    decreases f,
{
    match f {
        Fig::Rect(x, y, w, h) => x.wf() && y.wf() && w.wf() && h.wf(),
        Fig::Circle(x, y, r) => x.wf() && y.wf() && r.wf(),
        Fig::Ellipse(x, y, rx, ry) => x.wf() && y.wf() && rx.wf() && ry.wf(),
        Fig::Line(x1, y1, x2, y2) => x1.wf() && y1.wf() && x2.wf() && y2.wf(),
        Fig::Text(x, y, _) => x.wf() && y.wf(),
        Fig::Styled(a, f2) => a.wf() && fig_wf(*f2),
        Fig::Transformed(t, f2) => t.wf() && fig_wf(*f2),
        Fig::Multiple(v) => figs_wf(v@),
        Fig::Shared(f2) => fig_wf(*f2),
    }
}

/// Every figure of the sequence is renderable.
pub open spec fn figs_wf(s: Seq<Fig>) -> bool
    decreases s,
{
    if s.len() == 0 {
        true
    } else {
        figs_wf(s.drop_last()) && fig_wf(s.last())
    }
}

/// Each figure of a renderable list is renderable.
pub proof fn lemma_figs_wf_index(s: Seq<Fig>, i: int)
    requires
        figs_wf(s),
        0 <= i < s.len(),
    ensures
        fig_wf(s[i]),
    decreases s.len(),
{
    if i + 1 < s.len() {
        assert(s.drop_last()[i] == s[i]);
        lemma_figs_wf_index(s.drop_last(), i);
    }
}

/// The text of a rectangle element.
pub open spec fn rect_chars(x: Num, y: Num, w: Num, h: Num) -> Seq<char> {
    "<rect x=\""@ + num_chars(x) + "\" y=\""@ + num_chars(y) + "\" width=\""@ + num_chars(w)
        + "\" height=\""@ + num_chars(h) + "\"/>\n"@
}

/// The text of a circle element.
pub open spec fn circle_chars(x: Num, y: Num, r: Num) -> Seq<char> {
    "<circle x=\""@ + num_chars(x) + "\" y=\""@ + num_chars(y) + "\" r=\""@ + num_chars(r)
        + "\"/>\n"@
}

/// The text of an ellipse element.
pub open spec fn ellipse_chars(x: Num, y: Num, rx: Num, ry: Num) -> Seq<char> {
    "<ellipse x=\""@ + num_chars(x) + "\" y=\""@ + num_chars(y) + "\" rx=\""@ + num_chars(rx)
        + "\" ry=\""@ + num_chars(ry) + "\"/>\n"@
}

/// The text of a line element.
pub open spec fn line_chars(x1: Num, y1: Num, x2: Num, y2: Num) -> Seq<char> {
    "<line x1=\""@ + num_chars(x1) + "\" y1=\""@ + num_chars(y1) + "\" x2=\""@ + num_chars(x2)
        + "\" y2=\""@ + num_chars(y2) + "\"/>\n"@
}

/// The text of a text element; the content is escaped.
pub open spec fn text_chars(x: Num, y: Num, s: Seq<char>) -> Seq<char> {
    "<text x=\""@ + num_chars(x) + "\" y=\""@ + num_chars(y) + "\">"@ + escape_chars(s)
        + "</text>\n"@
}

/// The markup text of one node.
pub open spec fn fig_chars(f: Fig) -> Seq<char>
    recommends
        fig_wf(f),
    decreases f,
{
    match f {
        Fig::Rect(x, y, w, h) => rect_chars(x, y, w, h),
        Fig::Circle(x, y, r) => circle_chars(x, y, r),
        Fig::Ellipse(x, y, rx, ry) => ellipse_chars(x, y, rx, ry),
        Fig::Line(x1, y1, x2, y2) => line_chars(x1, y1, x2, y2),
        Fig::Text(x, y, s) => text_chars(x, y, s@),
        Fig::Styled(a, f2) => "<g style=\""@ + attr_chars(a) + "\">\n"@ + fig_chars(*f2)
            + "</g>\n"@,
        Fig::Transformed(t, f2) => "<g transform=\""@ + trans_chars(t@) + "\">\n"@ + fig_chars(
            *f2,
        ) + "</g>\n"@,
        Fig::Multiple(v) => figs_chars(v@),
        Fig::Shared(f2) => fig_chars(*f2),
    }
}

/// Append the text of a rectangle element.
fn push_rect(out: &mut String, x: Num, y: Num, w: Num, h: Num)
    requires
        x.wf(),
        y.wf(),
        w.wf(),
        h.wf(),
    ensures
        final(out)@ == old(out)@ + rect_chars(x, y, w, h),
{
    out.append("<rect x=\"");
    push_num(out, x);
    out.append("\" y=\"");
    push_num(out, y);
    out.append("\" width=\"");
    push_num(out, w);
    out.append("\" height=\"");
    push_num(out, h);
    out.append("\"/>\n");
    assert(out@ =~= old(out)@ + rect_chars(x, y, w, h));
}

/// Append the text of a circle element.
fn push_circle(out: &mut String, x: Num, y: Num, r: Num)
    requires
        x.wf(),
        y.wf(),
        r.wf(),
    ensures
        final(out)@ == old(out)@ + circle_chars(x, y, r),
{
    out.append("<circle x=\"");
    push_num(out, x);
    out.append("\" y=\"");
    push_num(out, y);
    out.append("\" r=\"");
    push_num(out, r);
    out.append("\"/>\n");
    assert(out@ =~= old(out)@ + circle_chars(x, y, r));
}

/// Append the text of an ellipse element.
fn push_ellipse(out: &mut String, x: Num, y: Num, rx: Num, ry: Num)
    requires
        x.wf(),
        y.wf(),
        rx.wf(),
        ry.wf(),
    ensures
        final(out)@ == old(out)@ + ellipse_chars(x, y, rx, ry),
{
    out.append("<ellipse x=\"");
    push_num(out, x);
    out.append("\" y=\"");
    push_num(out, y);
    out.append("\" rx=\"");
    push_num(out, rx);
    out.append("\" ry=\"");
    push_num(out, ry);
    out.append("\"/>\n");
    assert(out@ =~= old(out)@ + ellipse_chars(x, y, rx, ry));
}

/// Append the text of a line element.
fn push_line(out: &mut String, x1: Num, y1: Num, x2: Num, y2: Num)
    requires
        x1.wf(),
        y1.wf(),
        x2.wf(),
        y2.wf(),
    ensures
        final(out)@ == old(out)@ + line_chars(x1, y1, x2, y2),
{
    out.append("<line x1=\"");
    push_num(out, x1);
    out.append("\" y1=\"");
    push_num(out, y1);
    out.append("\" x2=\"");
    push_num(out, x2);
    out.append("\" y2=\"");
    push_num(out, y2);
    out.append("\"/>\n");
    assert(out@ =~= old(out)@ + line_chars(x1, y1, x2, y2));
}

/// Append the text of a text element, escaping the content.
fn push_text(out: &mut String, x: Num, y: Num, s: &str)
    requires
        x.wf(),
        y.wf(),
    ensures
        final(out)@ == old(out)@ + text_chars(x, y, s@),
{
    out.append("<text x=\"");
    push_num(out, x);
    out.append("\" y=\"");
    push_num(out, y);
    out.append("\">");
    push_escaped(out, s);
    out.append("</text>\n");
    assert(out@ =~= old(out)@ + text_chars(x, y, s@));
}

/// The markup text of a list of children: each child's text, in stored
/// order, with nothing inserted between them.
pub open spec fn figs_chars(s: Seq<Fig>) -> Seq<char>
    recommends
        figs_wf(s),
    decreases s,
{
    if s.len() == 0 {
        Seq::empty()
    } else {
        figs_chars(s.drop_last()) + fig_chars(s.last())
    }
}

/// `r` is the shared form of `f`: an already shared node unchanged, any
/// other node behind exactly one shared handle — never a handle inside a
/// handle.
pub open spec fn shares(f: Fig, r: Fig) -> bool {
    match f {
        Fig::Shared(_) => r == f,
        _ => r matches Fig::Shared(c) && c == f,
    }
}

impl Fig {
    /// Wrap `self` with the style attributes of `attr`.
    pub fn styled(self, attr: Attr) -> (r: Fig)
        ensures
            r matches Fig::Styled(a, c) && a == attr && c == self,
    {
        Fig::Styled(attr, Box::new(self))
    }

    /// Wrap `self` with the transformations of `trans`.
    pub fn transformed(self, trans: Trans) -> (r: Fig)
        ensures
            r matches Fig::Transformed(t, c) && t == trans && c == self,
    {
        Fig::Transformed(trans, Box::new(self))
    }

    /// Turn `self` into a shared node. Idempotent: a node that is already
    /// shared is returned unchanged, never wrapped a second time.
    pub fn shared(self) -> (r: Fig)
        ensures
            shares(self, r),
    {
        match self {
            Fig::Shared(_) => self,
            _ => Fig::Shared(Rc::new(self)),
        }
    }
}

/// Two lists whose figures render alike, element for element, render alike
/// as a whole.
pub(crate) proof fn lemma_figs_alike(a: Seq<Fig>, b: Seq<Fig>)
    requires
        a.len() == b.len(),
        forall|i: int|
            0 <= i < a.len() ==> fig_chars(#[trigger] a[i]) == fig_chars(b[i]) && fig_wf(a[i])
                == fig_wf(b[i]),
    ensures
        figs_chars(a) == figs_chars(b),
        figs_wf(a) == figs_wf(b),
    decreases a.len(),
{
    if a.len() > 0 {
        assert(forall|i: int|
            0 <= i < a.drop_last().len() ==> a.drop_last()[i] == a[i] && b.drop_last()[i]
                == b[i]);
        lemma_figs_alike(a.drop_last(), b.drop_last());
    }
}

/// Copy each figure of `v`, in order; each copy renders as its original.
pub(crate) fn clone_figs(v: &Vec<Fig>) -> (res: Vec<Fig>)
    ensures
        res@.len() == v@.len(),
        forall|i: int|
            0 <= i < v@.len() ==> fig_chars(#[trigger] res@[i]) == fig_chars(v@[i]) && fig_wf(
                res@[i],
            ) == fig_wf(v@[i]),
    decreases v@,
{
    let mut res: Vec<Fig> = Vec::new();
    let mut i: usize = 0;
    while i < v.len()
        invariant
            i <= v@.len(),
            res@.len() == i,
            forall|j: int|
                0 <= j < i ==> fig_chars(#[trigger] res@[j]) == fig_chars(v@[j]) && fig_wf(
                    res@[j],
                ) == fig_wf(v@[j]),
        decreases v@.len() - i,
    {
        proof {
            assert(decreases_to!(v@ => v@[i as int]));
        }
        let child: Fig = v[i].clone();
        res.push(child);
        i = i + 1;
    }
    res
}

impl Clone for Fig {
    /// A deep copy that renders to the same text as the original; a shared
    /// child stays shared with the original's.
    fn clone(&self) -> (res: Self)
        ensures
            fig_chars(res) == fig_chars(*self),
            fig_wf(res) == fig_wf(*self),
        decreases self,
    {
        match self {
            Fig::Rect(x, y, w, h) => Fig::Rect(*x, *y, *w, *h),
            Fig::Circle(x, y, r) => Fig::Circle(*x, *y, *r),
            Fig::Ellipse(x, y, rx, ry) => Fig::Ellipse(*x, *y, *rx, *ry),
            Fig::Line(x1, y1, x2, y2) => Fig::Line(*x1, *y1, *x2, *y2),
            Fig::Text(x, y, s) => Fig::Text(*x, *y, s.clone()),
            Fig::Styled(a, f2) => Fig::Styled(a.clone(), Box::new((&**f2).clone())),
            Fig::Transformed(t, f2) => Fig::Transformed(t.clone(), Box::new((&**f2).clone())),
            Fig::Multiple(v) => {
                let v2 = clone_figs(v);
                proof {
                    lemma_figs_alike(v2@, v@);
                }
                Fig::Multiple(v2)
            },
            Fig::Shared(rc) => Fig::Shared(rc.clone()),
        }
    }
}

impl Fig {
    /// Append the markup text of this node to `out`.
    #[verifier::rlimit(60)]
    pub fn render_into(&self, out: &mut String)
        requires
            fig_wf(*self),
        ensures
            final(out)@ == old(out)@ + fig_chars(*self),
        decreases *self,
    {
        match self {
            Fig::Rect(x, y, w, h) => {
                push_rect(out, *x, *y, *w, *h);
            },
            Fig::Circle(x, y, r) => {
                push_circle(out, *x, *y, *r);
            },
            Fig::Ellipse(x, y, rx, ry) => {
                push_ellipse(out, *x, *y, *rx, *ry);
            },
            Fig::Line(x1, y1, x2, y2) => {
                push_line(out, *x1, *y1, *x2, *y2);
            },
            Fig::Text(x, y, s) => {
                push_text(out, *x, *y, s.as_str());
            },
            Fig::Styled(a, f2) => {
                out.append("<g style=\"");
                push_attr(out, a);
                out.append("\">\n");
                proof {
                    assert(decreases_to!(*self => **f2));
                }
                (&**f2).render_into(out);
                out.append("</g>\n");
                assert(out@ =~= old(out)@ + fig_chars(*self));
            },
            Fig::Transformed(t, f2) => {
                out.append("<g transform=\"");
                push_trans(out, t);
                out.append("\">\n");
                proof {
                    assert(decreases_to!(*self => **f2));
                }
                (&**f2).render_into(out);
                out.append("</g>\n");
                assert(out@ =~= old(out)@ + fig_chars(*self));
            },
            Fig::Multiple(v) => {
                let ghost s = v@;
                let mut i: usize = 0;
                proof {
                    assert(s.take(0) =~= Seq::<Fig>::empty());
                }
                while i < v.len()
                    invariant
                        figs_wf(s),
                        i <= s.len(),
                        s == v@,
                        out@ == old(out)@ + figs_chars(s.take(i as int)),
                        decreases_to!(*self => v@),
                    decreases s.len() - i,
                {
                    proof {
                        lemma_figs_wf_index(s, i as int);
                        assert(decreases_to!(v@ => v@[i as int]));
                    }
                    v[i].render_into(out);
                    proof {
                        let t = s.take(i as int + 1);
                        assert(t.drop_last() =~= s.take(i as int));
                        assert(t.last() == s[i as int]);
                        assert(out@ =~= old(out)@ + figs_chars(s.take(i as int + 1)));
                    }
                    i = i + 1;
                }
                proof {
                    assert(s.take(s.len() as int) =~= s);
                }
            },
            Fig::Shared(rc) => {
                proof {
                    assert(decreases_to!(*self => **rc));
                }
                (&**rc).render_into(out);
            },
        }
    }

    /// The markup text of this node alone.
    pub fn render(&self) -> (r: String)
        requires
            fig_wf(*self),
        ensures
            r@ == fig_chars(*self),
    {
        let mut out = String::new();
        self.render_into(&mut out);
        assert(out@ =~= fig_chars(*self));
        out
    }
}

/// Sharing is idempotent: sharing a node and then sharing the result again
/// returns the first result unchanged, with its single shared wrapper.
pub proof fn lemma_shared_idempotent(f: Fig, g: Fig, h: Fig)
    requires
        shares(f, g),
        shares(g, h),
    ensures
        h == g,
        g is Shared,
{
}

/// A shared handle is transparent to the renderer: the shared form of a
/// node renders exactly as the node itself.
pub proof fn lemma_shared_transparent(f: Fig, g: Fig)
    requires
        shares(f, g),
    ensures
        fig_chars(g) == fig_chars(f),
        fig_wf(g) == fig_wf(f),
{
}

/// Concatenating two lists of children renders to the concatenation of
/// their renderings.
pub proof fn lemma_figs_concat(a: Seq<Fig>, b: Seq<Fig>)
    ensures
        figs_chars(a + b) == figs_chars(a) + figs_chars(b),
        figs_wf(a + b) == (figs_wf(a) && figs_wf(b)),
    decreases b.len(),
{
    if b.len() == 0 {
        assert(a + b =~= a);
        assert(figs_chars(a) + figs_chars(b) =~= figs_chars(a));
    } else {
        assert((a + b).drop_last() =~= a + b.drop_last());
        assert((a + b).last() == b.last());
        lemma_figs_concat(a, b.drop_last());
        assert(figs_chars(a + b) =~= figs_chars(a) + figs_chars(b));
    }
}

/// A group node renders to the exact concatenation of its children's
/// renderings, in stored order, with nothing inserted between them.
pub proof fn lemma_multiple_concat(v: Vec<Fig>)
    ensures
        fig_chars(Fig::Multiple(v)) == figs_chars(v@),
{
}

/// Appending one more child appends exactly that child's rendering.
pub proof fn lemma_figs_push(s: Seq<Fig>, f: Fig)
    ensures
        figs_chars(s.push(f)) == figs_chars(s) + fig_chars(f),
        figs_wf(s.push(f)) == (figs_wf(s) && fig_wf(f)),
{
    assert(s.push(f).drop_last() =~= s);
    assert(s.push(f).last() == f);
}

} // verus!

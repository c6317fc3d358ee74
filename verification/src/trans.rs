//! Coordinate transforms and their function-call-token text.
//!
//! A `Trans` records transform operations in the order the caller appends
//! them: the first appended operation is meant to apply to the geometry
//! first. The target markup applies the leftmost token of a transform list
//! last, so the text emits the recorded operations in *reverse* append
//! order; this reversal is part of the format's contract.

use vstd::prelude::*;
use vstd::string::StringExecFns;

use crate::num::num_chars;
use crate::num::push_num;
use crate::num::Num;

verus! {

/// One transform operation.
#[derive(Clone, Copy, Debug, PartialEq, Eq, Structural)]
pub enum Transform {
    /// Shift by `dx`, `dy`.
    Translate(Num, Num),
    /// Scale by `sx`, `sy`.
    Scale(Num, Num),
    /// Rotate by an angle in degrees.
    Rotate(Num),
}

/// A transform operation's scalars are renderable.
pub open spec fn transform_wf(t: Transform) -> bool {
    match t {
        Transform::Translate(x, y) => x.wf() && y.wf(),
        Transform::Scale(x, y) => x.wf() && y.wf(),
        Transform::Rotate(x) => x.wf(),
    }
}

/// Every operation of the sequence is renderable.
pub open spec fn transforms_wf(s: Seq<Transform>) -> bool {
    forall|i: int| 0 <= i < s.len() ==> transform_wf(#[trigger] s[i])
}

/// An ordered, append-only list of transform operations.
#[derive(Debug)]
pub struct Trans {
    /// The operations, in append order: the first entry is the operation
    /// the caller intends to apply to the geometry first.
    pub transforms: Vec<Transform>,
}

impl View for Trans {
    type V = Seq<Transform>;

    open spec fn view(&self) -> Seq<Transform> {
        self.transforms@
    }
}

impl Clone for Trans {
    /// A copy that records the same operations in the same order.
    fn clone(&self) -> (res: Self)
        ensures
            res@ == self@,
    {
        let mut ts: Vec<Transform> = Vec::new();
        let mut i: usize = 0;
        while i < self.transforms.len()
            invariant
                i <= self.transforms@.len(),
                ts@ == self.transforms@.take(i as int),
            decreases self.transforms@.len() - i,
        {
            ts.push(self.transforms[i]);
            proof {
                assert(ts@ =~= self.transforms@.take(i as int + 1));
            }
            i = i + 1;
        }
        proof {
            assert(self.transforms@.take(self.transforms@.len() as int) =~= self.transforms@);
        }
        Trans { transforms: ts }
    }
}

impl Default for Trans {
    /// No operations; renders to the empty string.
    fn default() -> (r: Trans)
        ensures
            r@ == Seq::<Transform>::empty(),
    {
        Trans { transforms: Vec::new() }
    }
}

impl Trans {
    /// All recorded operations are renderable.
    pub open spec fn wf(self) -> bool {
        transforms_wf(self@)
    }

    /// Append one operation.
    fn push(self, t: Transform) -> (r: Self)
        ensures
            r@ == self@.push(t),
    {
        let mut r = self;
        r.transforms.push(t);
        r
    }

    /// Append a translation by `x`, `y`.
    pub fn translate(self, x: Num, y: Num) -> (r: Self)
        ensures
            r@ == self@.push(Transform::Translate(x, y)),
    {
        self.push(Transform::Translate(x, y))
    }

    /// Append a rotation by `x` degrees.
    pub fn rotate(self, x: Num) -> (r: Self)
        ensures
            r@ == self@.push(Transform::Rotate(x)),
    {
        self.push(Transform::Rotate(x))
    }

    /// Append a uniform scaling by `x`.
    pub fn scale(self, x: Num) -> (r: Self)
        ensures
            r@ == self@.push(Transform::Scale(x, x)),
    {
        self.push(Transform::Scale(x, x))
    }

    /// Append a scaling by `x` horizontally and `y` vertically.
    pub fn scale_x_y(self, x: Num, y: Num) -> (r: Self)
        ensures
            r@ == self@.push(Transform::Scale(x, y)),
    {
        self.push(Transform::Scale(x, y))
    }
}

/// One operation as a function-call token followed by a single space.
/// A scaling with equal components emits the one-argument form.
pub open spec fn transform_chars(t: Transform) -> Seq<char>
    recommends
        transform_wf(t),
{
    match t {
        Transform::Translate(x, y) => "translate("@ + num_chars(x) + ", "@ + num_chars(y)
            + ") "@,
        Transform::Rotate(x) => "rotate("@ + num_chars(x) + ") "@,
        Transform::Scale(x, y) => if x == y {
            "scale("@ + num_chars(x) + ") "@
        } else {
            "scale("@ + num_chars(x) + ", "@ + num_chars(y) + ") "@
        },
    }
}

/// The transform text of a recorded sequence: its operations' tokens in
/// reverse order, the last appended operation first.
pub open spec fn trans_chars(s: Seq<Transform>) -> Seq<char>
    recommends
        transforms_wf(s),
    decreases s.len(),
{
    if s.len() == 0 {
        Seq::empty()
    } else {
        trans_chars(s.drop_first()) + transform_chars(s[0])
    }
}

/// The token order is the exact reverse of append order: appending an
/// operation puts its token at the front of the rendered text.
pub proof fn lemma_trans_reversed(s: Seq<Transform>, t: Transform)
    ensures
        trans_chars(s.push(t)) == transform_chars(t) + trans_chars(s),
    decreases s.len(),
{
    if s.len() == 0 {
        assert(s.push(t)[0] == t);
        assert(s.push(t).drop_first() =~= Seq::<Transform>::empty());
        assert(trans_chars(s.push(t)) == trans_chars(Seq::<Transform>::empty())
            + transform_chars(t));
        assert(trans_chars(s.push(t)) =~= transform_chars(t) + trans_chars(s));
    } else {
        assert(s.push(t)[0] == s[0]);
        assert(s.push(t).drop_first() =~= s.drop_first().push(t));
        lemma_trans_reversed(s.drop_first(), t);
        assert(trans_chars(s.push(t)) == trans_chars(s.drop_first().push(t))
            + transform_chars(s[0]));
        assert(trans_chars(s) == trans_chars(s.drop_first()) + transform_chars(s[0]));
        assert(trans_chars(s.push(t)) =~= transform_chars(t) + trans_chars(s));
    }
}

/// A scaling emits the one-argument token exactly when its components are
/// equal, and the two-argument token otherwise.
pub proof fn lemma_scale_token(x: Num, y: Num)
    ensures
        x == y ==> transform_chars(Transform::Scale(x, y)) == "scale("@ + num_chars(x) + ") "@,
        x != y ==> transform_chars(Transform::Scale(x, y)) == "scale("@ + num_chars(x) + ", "@
            + num_chars(y) + ") "@,
{
}

/// Append the token of one operation.
fn push_transform(out: &mut String, t: Transform)
    requires
        transform_wf(t),
    ensures
        final(out)@ == old(out)@ + transform_chars(t),
{
    match t {
        Transform::Translate(x, y) => {
            out.append("translate(");
            push_num(out, x);
            out.append(", ");
            push_num(out, y);
            out.append(") ");
        },
        Transform::Rotate(x) => {
            out.append("rotate(");
            push_num(out, x);
            out.append(") ");
        },
        Transform::Scale(x, y) => {
            if x == y {
                out.append("scale(");
                push_num(out, x);
                out.append(") ");
            } else {
                out.append("scale(");
                push_num(out, x);
                out.append(", ");
                push_num(out, y);
                out.append(") ");
            }
        },
    }
    assert(out@ =~= old(out)@ + transform_chars(t));
}

/// Append the transform text of `t`: all tokens, in reverse append order.
pub fn push_trans(out: &mut String, t: &Trans)
    requires
        t.wf(),
    ensures
        final(out)@ == old(out)@ + trans_chars(t@),
{
    let mut i: usize = t.transforms.len();
    proof {
        assert(t@.skip(i as int) =~= Seq::<Transform>::empty());
    }
    while i > 0
        invariant
            t.wf(),
            i <= t@.len(),
            out@ == old(out)@ + trans_chars(t@.skip(i as int)),
        decreases i,
    {
        i = i - 1;
        let op: Transform = t.transforms[i];
        push_transform(out, op);
        proof {
            let rest = t@.skip(i as int);
            assert(rest.drop_first() =~= t@.skip(i as int + 1));
            assert(rest[0] == t@[i as int]);
            assert(out@ =~= old(out)@ + trans_chars(t@.skip(i as int)));
        }
    }
    proof {
        assert(t@.skip(0) =~= t@);
    }
}

impl Trans {
    /// The transform text: function-call tokens, each followed by one
    /// space, in reverse append order.
    pub fn render(&self) -> (r: String)
        requires
            self.wf(),
        ensures
            r@ == trans_chars(self@),
    {
        let mut out = String::new();
        push_trans(&mut out, self);
        assert(out@ =~= trans_chars(self@));
        out
    }
}

} // verus!

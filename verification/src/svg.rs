//! The root image object and its rendering.

use vstd::prelude::*;
use vstd::string::StringExecFns;

use crate::fig::figs_chars;
use crate::fig::figs_wf;
use crate::fig::lemma_figs_wf_index;
use crate::fig::Fig;
use crate::text::dec_digits;
use crate::text::push_u64;

verus! {

/// An image: the top-level figures, in paint order, and the width and
/// height of the viewport.
#[derive(Debug)]
pub struct Svg(pub Vec<Fig>, pub u32, pub u32);

/// Every figure of the image is renderable.
pub open spec fn svg_wf(s: Svg) -> bool {
    figs_wf(s.0@)
}

/// The markup text of an image: the opening viewport element carrying the
/// width and height, each top-level figure in list order, then the closing
/// viewport element.
pub open spec fn svg_chars(s: Svg) -> Seq<char>
    recommends
        svg_wf(s),
{
    "<svg width=\""@ + dec_digits(s.1 as nat) + "\" height=\""@ + dec_digits(s.2 as nat)
        + "\" xmlns=\"http://www.w3.org/2000/svg\">\n"@ + figs_chars(s.0@) + "</svg>\n"@
}

impl Svg {
    /// The markup text of the whole image.
    pub fn render(&self) -> (r: String)
        requires
            svg_wf(*self),
        ensures
            r@ == svg_chars(*self),
    {
        let mut out = String::new();
        out.append("<svg width=\"");
        push_u64(&mut out, self.1 as u64);
        out.append("\" height=\"");
        push_u64(&mut out, self.2 as u64);
        out.append("\" xmlns=\"http://www.w3.org/2000/svg\">\n");
        let ghost head = out@;
        let ghost s = self.0@;
        let mut i: usize = 0;
        proof {
            assert(s.take(0) =~= Seq::<Fig>::empty());
        }
        while i < self.0.len()
            invariant
                figs_wf(s),
                i <= s.len(),
                s == self.0@,
                out@ == head + figs_chars(s.take(i as int)),
            decreases s.len() - i,
        {
            proof {
                lemma_figs_wf_index(s, i as int);
            }
            self.0[i].render_into(&mut out);
            proof {
                let t = s.take(i as int + 1);
                assert(t.drop_last() =~= s.take(i as int));
                assert(t.last() == s[i as int]);
                assert(out@ =~= head + figs_chars(s.take(i as int + 1)));
            }
            i = i + 1;
        }
        proof {
            assert(s.take(s.len() as int) =~= s);
        }
        out.append("</svg>\n");
        assert(out@ =~= svg_chars(*self));
        out
    }
}

impl Clone for Svg {
    /// A copy with the same viewport whose figures render as the
    /// original's.
    fn clone(&self) -> (res: Self)
        ensures
            res.1 == self.1,
            res.2 == self.2,
            svg_chars(res) == svg_chars(*self),
            svg_wf(res) == svg_wf(*self),
    {
        let figs = crate::fig::clone_figs(&self.0);
        let res = Svg(figs, self.1, self.2);
        proof {
            crate::fig::lemma_figs_alike(res.0@, self.0@);
        }
        res
    }
}

} // verus!

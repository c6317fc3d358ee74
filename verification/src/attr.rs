//! Style attributes and their `property:value;` text.

use vstd::prelude::*;
use vstd::string::StringExecFns;

use crate::color::color_chars;
use crate::color::push_color;
use crate::color::Color;
use crate::num::num_chars;
use crate::num::push_num;
use crate::num::Num;

verus! {

/// Optional style properties. An unset field is omitted from the output;
/// each setter replaces its own field and leaves the others alone, so the
/// last call for a field wins.
#[derive(Debug)]
pub struct Attr {
    /// Fill color.
    pub fill: Option<Color>,
    /// Stroke color.
    pub stroke: Option<Color>,
    /// Stroke width.
    pub stroke_width: Option<Num>,
    /// Opacity.
    pub opacity: Option<Num>,
    /// Font family name, copied to the output verbatim.
    pub font_family: Option<String>,
}

impl Clone for Attr {
    /// A copy equal to the original.
    fn clone(&self) -> (res: Self)
        ensures
            res == *self,
    {
        Attr {
            fill: self.fill,
            stroke: self.stroke,
            stroke_width: self.stroke_width,
            opacity: self.opacity,
            font_family: (match &self.font_family {
                Some(s) => Some(s.clone()),
                None => None,
            }),
        }
    }
}

impl Default for Attr {
    /// No property set; renders to the empty string.
    fn default() -> (r: Attr)
        ensures
            r.fill is None,
            r.stroke is None,
            r.stroke_width is None,
            r.opacity is None,
            r.font_family is None,
    {
        Attr { fill: None, stroke: None, stroke_width: None, opacity: None, font_family: None }
    }
}

impl Attr {
    /// The scalar-valued properties are renderable.
    pub open spec fn wf(self) -> bool {
        &&& (self.stroke_width matches Some(v) ==> v.wf())
        &&& (self.opacity matches Some(v) ==> v.wf())
    }

    /// Set the fill color.
    pub fn fill(self, c: Color) -> (r: Self)
        ensures
            r.fill == Some(c),
            r.stroke == self.stroke,
            r.stroke_width == self.stroke_width,
            r.opacity == self.opacity,
            r.font_family == self.font_family,
    {
        let mut r = self;
        r.fill = Some(c);
        r
    }

    /// Set the stroke color.
    pub fn stroke(self, c: Color) -> (r: Self)
        ensures
            r.stroke == Some(c),
            r.fill == self.fill,
            r.stroke_width == self.stroke_width,
            r.opacity == self.opacity,
            r.font_family == self.font_family,
    {
        let mut r = self;
        r.stroke = Some(c);
        r
    }

    /// Set the stroke width.
    pub fn stroke_width(self, c: Num) -> (r: Self)
        ensures
            r.stroke_width == Some(c),
            r.fill == self.fill,
            r.stroke == self.stroke,
            r.opacity == self.opacity,
            r.font_family == self.font_family,
    {
        let mut r = self;
        r.stroke_width = Some(c);
        r
    }

    /// Set the opacity.
    pub fn opacity(self, c: Num) -> (r: Self)
        ensures
            r.opacity == Some(c),
            r.fill == self.fill,
            r.stroke == self.stroke,
            r.stroke_width == self.stroke_width,
            r.font_family == self.font_family,
    {
        let mut r = self;
        r.opacity = Some(c);
        r
    }

    /// Set the font family.
    pub fn font_family(self, c: String) -> (r: Self)
        ensures
            r.font_family == Some(c),
            r.fill == self.fill,
            r.stroke == self.stroke,
            r.stroke_width == self.stroke_width,
            r.opacity == self.opacity,
    {
        let mut r = self;
        r.font_family = Some(c);
        r
    }
}

/// The `fill:...;` token, or nothing when the fill is unset.
pub open spec fn fill_chars(a: Attr) -> Seq<char> {
    match a.fill {
        Some(c) => "fill:"@ + color_chars(c) + ";"@,
        None => Seq::empty(),
    }
}

/// The `stroke:...;` token, or nothing when the stroke is unset.
pub open spec fn stroke_chars(a: Attr) -> Seq<char> {
    match a.stroke {
        Some(c) => "stroke:"@ + color_chars(c) + ";"@,
        None => Seq::empty(),
    }
}

/// The `stroke-width:...;` token, or nothing when the width is unset.
pub open spec fn stroke_width_chars(a: Attr) -> Seq<char> {
    match a.stroke_width {
        Some(v) => "stroke-width:"@ + num_chars(v) + ";"@,
        None => Seq::empty(),
    }
}

/// The `opacity:...;` token, or nothing when the opacity is unset.
pub open spec fn opacity_chars(a: Attr) -> Seq<char> {
    match a.opacity {
        Some(v) => "opacity:"@ + num_chars(v) + ";"@,
        None => Seq::empty(),
    }
}

/// The `font-family:...;` token, or nothing when the family is unset.
pub open spec fn font_family_chars(a: Attr) -> Seq<char> {
    match a.font_family {
        Some(s) => "font-family:"@ + s@ + ";"@,
        None => Seq::empty(),
    }
}

/// The style text: each present property as `property:value;`, in the fixed
/// order fill, stroke, stroke-width, opacity, font-family, with no other
/// separators; nothing set renders to the empty string.
pub open spec fn attr_chars(a: Attr) -> Seq<char>
    recommends
        a.wf(),
{
    fill_chars(a) + stroke_chars(a) + stroke_width_chars(a) + opacity_chars(a)
        + font_family_chars(a)
}

/// Append the `fill` token, when set.
fn push_fill(out: &mut String, a: &Attr)
    ensures
        final(out)@ == old(out)@ + fill_chars(*a),
{
    if let Some(c) = a.fill {
        out.append("fill:");
        push_color(out, c);
        out.append(";");
        assert(out@ =~= old(out)@ + fill_chars(*a));
    } else {
        assert(out@ =~= old(out)@ + fill_chars(*a));
    }
}

/// Append the `stroke` token, when set.
fn push_stroke(out: &mut String, a: &Attr)
    ensures
        final(out)@ == old(out)@ + stroke_chars(*a),
{
    if let Some(c) = a.stroke {
        out.append("stroke:");
        push_color(out, c);
        out.append(";");
        assert(out@ =~= old(out)@ + stroke_chars(*a));
    } else {
        assert(out@ =~= old(out)@ + stroke_chars(*a));
    }
}

/// Append the `stroke-width` token, when set.
fn push_stroke_width(out: &mut String, a: &Attr)
    requires
        a.wf(),
    ensures
        final(out)@ == old(out)@ + stroke_width_chars(*a),
{
    if let Some(v) = a.stroke_width {
        out.append("stroke-width:");
        push_num(out, v);
        out.append(";");
        assert(out@ =~= old(out)@ + stroke_width_chars(*a));
    } else {
        assert(out@ =~= old(out)@ + stroke_width_chars(*a));
    }
}

/// Append the `opacity` token, when set.
fn push_opacity(out: &mut String, a: &Attr)
    requires
        a.wf(),
    ensures
        final(out)@ == old(out)@ + opacity_chars(*a),
{
    if let Some(v) = a.opacity {
        out.append("opacity:");
        push_num(out, v);
        out.append(";");
        assert(out@ =~= old(out)@ + opacity_chars(*a));
    } else {
        assert(out@ =~= old(out)@ + opacity_chars(*a));
    }
}

/// Append the `font-family` token, when set.
fn push_font_family(out: &mut String, a: &Attr)
    ensures
        final(out)@ == old(out)@ + font_family_chars(*a),
{
    if let Some(s) = &a.font_family {
        out.append("font-family:");
        out.append(s.as_str());
        out.append(";");
        assert(out@ =~= old(out)@ + font_family_chars(*a));
    } else {
        assert(out@ =~= old(out)@ + font_family_chars(*a));
    }
}

/// Append the style text of `a`.
pub fn push_attr(out: &mut String, a: &Attr)
    requires
        a.wf(),
    ensures
        final(out)@ == old(out)@ + attr_chars(*a),
{
    push_fill(out, a);
    push_stroke(out, a);
    push_stroke_width(out, a);
    push_opacity(out, a);
    push_font_family(out, a);
    assert(out@ =~= old(out)@ + attr_chars(*a));
}

impl Attr {
    /// The style text: present properties only, in declaration order.
    pub fn render(&self) -> (r: String)
        requires
            self.wf(),
        ensures
            r@ == attr_chars(*self),
    {
        let mut out = String::new();
        push_attr(&mut out, self);
        assert(out@ =~= attr_chars(*self));
        out
    }
}

} // verus!

//! Colors and their hex-literal text.

use vstd::prelude::*;
use vstd::string::StringExecFns;

use crate::text::digit_char;
use crate::text::push_char;

verus! {

/// A color: red, green and blue channels. The default is black.
#[derive(Clone, Copy, Debug, PartialEq, Eq, Structural)]
pub struct Color(pub u8, pub u8, pub u8);

impl Default for Color {
    /// Black.
    fn default() -> (r: Color)
        ensures
            r == (Color(0, 0, 0)),
    {
        Color(0, 0, 0)
    }
}

/// The hex digit `d` as a character: `'0'` through `'9'`, then lowercase
/// `'a'` through `'f'`.
pub open spec fn hex_digit(d: nat) -> char
    recommends
        d < 16,
{
    if d < 10 {
        digit_char(d)
    } else {
        ((87 + d) as u8) as char
    }
}

/// A channel as exactly two hex digits.
pub open spec fn hex_byte(n: nat) -> Seq<char>
    recommends
        n < 256,
{
    seq![hex_digit(n / 16), hex_digit(n % 16)]
}

/// The color-literal text: `#` and six hex digits, two per channel.
pub open spec fn color_chars(c: Color) -> Seq<char> {
    "#"@ + hex_byte(c.0 as nat) + hex_byte(c.1 as nat) + hex_byte(c.2 as nat)
}

/// Append the single hex digit `d`.
fn push_hex_digit(out: &mut String, d: u8)
    requires
        d < 16,
    ensures
        final(out)@ == old(out)@.push(hex_digit(d as nat)),
{
    let c: char = if d < 10 {
        (48 + d) as char
    } else {
        (87 + d) as char
    };
    push_char(out, c);
}

/// Append the two hex digits of the channel `n`.
fn push_hex_byte(out: &mut String, n: u8)
    ensures
        final(out)@ == old(out)@ + hex_byte(n as nat),
{
    push_hex_digit(out, n / 16);
    push_hex_digit(out, n % 16);
    assert(out@ =~= old(out)@ + hex_byte(n as nat));
}

/// Append the color-literal text of `c`.
pub fn push_color(out: &mut String, c: Color)
    ensures
        final(out)@ == old(out)@ + color_chars(c),
{
    out.append("#");
    push_hex_byte(out, c.0);
    push_hex_byte(out, c.1);
    push_hex_byte(out, c.2);
    assert(out@ =~= old(out)@ + color_chars(c));
}

impl Color {
    /// The color-literal text, `#` and six lowercase hex digits.
    pub fn render(&self) -> (r: String)
        ensures
            r@ == color_chars(*self),
    {
        let mut out = String::new();
        push_color(&mut out, *self);
        assert(out@ =~= color_chars(*self));
        out
    }
}

} // verus!

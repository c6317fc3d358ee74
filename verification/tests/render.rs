use simplesvg::Attr;
use simplesvg::Color;
use simplesvg::Fig;
use simplesvg::Num;
use simplesvg::Svg;
use simplesvg::Trans;

#[test]
fn test() {
    let fig = Fig::Rect(Num::whole(10), Num::whole(10), Num::whole(200), Num::whole(100))
        .styled(Attr::default().fill(Color(0xff, 0, 0)));
    let text = Fig::Text(Num::whole(0), Num::whole(20), "<XML & Stuff>".to_string());
    let c = Fig::Circle(Num::whole(20), Num::whole(20), Num::whole(100));
    println!("{}", Svg(vec![fig, text, c], 500, 600).render());
}

#[test]
fn koch() {
    // Koch snowflake fractal
    let w: i64 = 500;
    let mut fig = Fig::Line(Num::whole(0), Num::whole(0), Num::whole(w), Num::whole(0));
    for _ in 0..5 {
        let f = fig.shared();
        let mut v = Vec::new();
        v.push(f.clone());
        v.push(f.clone().transformed(
            Trans::default()
                .rotate(Num::whole(60))
                .translate(Num::whole(w), Num::whole(0)),
        ));
        v.push(f.clone().transformed(
            Trans::default()
                .scale_x_y(Num::whole(1), Num::whole(-1))
                .rotate(Num::whole(120))
                .translate(Num::whole(2 * w), Num::whole(0)),
        ));
        v.push(
            f.clone()
                .transformed(Trans::default().translate(Num::whole(2 * w), Num::whole(0))),
        );
        fig = Fig::Multiple(v).transformed(Trans::default().scale(Num::dec(333, 3)));
    }
    fig = fig.styled(
        Attr::default()
            .stroke(Color::default())
            .stroke_width(Num::whole(100)),
    );
    println!("{}", Svg(vec![fig], w as u32, w as u32).render());
}

#[test]
fn fill_only_style() {
    let a = Attr::default().fill(Color(255, 0, 0));
    assert_eq!(a.render(), "fill:#ff0000;");
}

#[test]
fn empty_style() {
    assert_eq!(Attr::default().render(), "");
}

#[test]
fn all_properties_in_declared_order() {
    let a = Attr::default()
        .font_family("serif".to_string())
        .opacity(Num::dec(5, 1))
        .stroke_width(Num::whole(2))
        .stroke(Color(0, 255, 0))
        .fill(Color(0, 0, 255));
    assert_eq!(
        a.render(),
        "fill:#0000ff;stroke:#00ff00;stroke-width:2;opacity:0.5;font-family:serif;"
    );
}

#[test]
fn last_setter_call_wins() {
    let a = Attr::default().fill(Color(1, 2, 3)).fill(Color(255, 0, 0));
    assert_eq!(a.render(), "fill:#ff0000;");
}

#[test]
fn color_hex_digits() {
    assert_eq!(Color::default().render(), "#000000");
    assert_eq!(Color(255, 255, 255).render(), "#ffffff");
    assert_eq!(Color(16, 1, 171).render(), "#1001ab");
}

#[test]
fn transform_tokens_reversed() {
    let t = Trans::default()
        .translate(Num::whole(1), Num::whole(2))
        .rotate(Num::whole(90));
    assert_eq!(t.render(), "rotate(90) translate(1, 2) ");
}

#[test]
fn empty_transform() {
    assert_eq!(Trans::default().render(), "");
}

#[test]
fn scale_one_argument_when_equal() {
    assert_eq!(
        Trans::default().scale(Num::whole(2)).render(),
        "scale(2) "
    );
    // equal after normalization: 2.0 and 2 are the same value
    assert_eq!(
        Trans::default()
            .scale_x_y(Num::dec(20, 1), Num::whole(2))
            .render(),
        "scale(2) "
    );
}

#[test]
fn scale_two_arguments_when_unequal() {
    assert_eq!(
        Trans::default()
            .scale_x_y(Num::whole(2), Num::whole(3))
            .render(),
        "scale(2, 3) "
    );
}

#[test]
fn text_escaping() {
    let f = Fig::Text(Num::whole(0), Num::whole(0), "<a&b>".to_string());
    assert_eq!(
        f.render(),
        "<text x=\"0\" y=\"0\">&lt;a&amp;b&gt;</text>\n"
    );
}

#[test]
fn text_plain_characters_unchanged() {
    let f = Fig::Text(Num::whole(3), Num::whole(4), "hello, wörld!".to_string());
    assert_eq!(
        f.render(),
        "<text x=\"3\" y=\"4\">hello, wörld!</text>\n"
    );
}

#[test]
fn shared_is_single_level() {
    let once = Fig::Circle(Num::whole(0), Num::whole(0), Num::whole(1)).shared();
    let twice = once.clone().shared();
    assert!(matches!(&once, Fig::Shared(inner) if !matches!(**inner, Fig::Shared(_))));
    assert!(matches!(&twice, Fig::Shared(inner) if !matches!(**inner, Fig::Shared(_))));
    assert_eq!(once.render(), twice.render());
}

#[test]
fn shared_renders_as_child() {
    let plain = Fig::Rect(Num::whole(1), Num::whole(2), Num::whole(3), Num::whole(4));
    let shared = plain.clone().shared();
    assert_eq!(shared.render(), plain.render());
}

#[test]
fn multiple_concatenates_in_order() {
    let a = Fig::Circle(Num::whole(1), Num::whole(1), Num::whole(1));
    let b = Fig::Rect(Num::whole(2), Num::whole(2), Num::whole(2), Num::whole(2));
    let c = Fig::Line(Num::whole(3), Num::whole(3), Num::whole(4), Num::whole(4));
    let expected = format!("{}{}{}", a.render(), b.render(), c.render());
    let m = Fig::Multiple(vec![a, b, c]);
    assert_eq!(m.render(), expected);
}

#[test]
fn empty_multiple_renders_nothing() {
    assert_eq!(Fig::Multiple(vec![]).render(), "");
}

#[test]
fn end_to_end_rect_with_fill() {
    let fig = Fig::Rect(Num::whole(10), Num::whole(10), Num::whole(200), Num::whole(100))
        .styled(Attr::default().fill(Color(255, 0, 0)));
    let out = Svg(vec![fig], 500, 600).render();
    assert_eq!(
        out,
        "<svg width=\"500\" height=\"600\" xmlns=\"http://www.w3.org/2000/svg\">\n\
         <g style=\"fill:#ff0000;\">\n\
         <rect x=\"10\" y=\"10\" width=\"200\" height=\"100\"/>\n\
         </g>\n\
         </svg>\n"
    );
}

#[test]
fn transform_group() {
    let fig = Fig::Ellipse(Num::whole(5), Num::whole(6), Num::whole(7), Num::whole(8))
        .transformed(Trans::default().rotate(Num::dec(225, 1)));
    assert_eq!(
        fig.render(),
        "<g transform=\"rotate(22.5) \">\n\
         <ellipse x=\"5\" y=\"6\" rx=\"7\" ry=\"8\"/>\n\
         </g>\n"
    );
}

#[test]
fn empty_svg() {
    assert_eq!(
        Svg(vec![], 0, 0).render(),
        "<svg width=\"0\" height=\"0\" xmlns=\"http://www.w3.org/2000/svg\">\n</svg>\n"
    );
}

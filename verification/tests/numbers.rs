use simplesvg::Attr;
use simplesvg::Fig;
use simplesvg::Num;

fn width_text(v: Num) -> String {
    Attr::default().stroke_width(v).render()
}

#[test]
fn whole_numbers() {
    assert_eq!(width_text(Num::whole(0)), "stroke-width:0;");
    assert_eq!(width_text(Num::whole(7)), "stroke-width:7;");
    assert_eq!(width_text(Num::whole(-7)), "stroke-width:-7;");
    assert_eq!(
        width_text(Num::whole(i64::MAX)),
        "stroke-width:9223372036854775807;"
    );
    assert_eq!(
        width_text(Num::whole(i64::MIN)),
        "stroke-width:-9223372036854775808;"
    );
}

#[test]
fn decimal_fractions() {
    assert_eq!(width_text(Num::dec(333, 3)), "stroke-width:0.333;");
    assert_eq!(width_text(Num::dec(225, 1)), "stroke-width:22.5;");
    assert_eq!(width_text(Num::dec(5, 3)), "stroke-width:0.005;");
    assert_eq!(width_text(Num::dec(-15, 1)), "stroke-width:-1.5;");
}

#[test]
fn decimals_are_normalized() {
    // trailing fraction zeros are dropped
    assert_eq!(width_text(Num::dec(50, 2)), "stroke-width:0.5;");
    assert_eq!(width_text(Num::dec(2000, 3)), "stroke-width:2;");
    // zero never keeps a sign or a fraction
    assert_eq!(width_text(Num::dec(0, 5)), "stroke-width:0;");
    assert_eq!(width_text(Num::dec(-0, 2)), "stroke-width:0;");
    // equal values compare equal after normalization
    assert_eq!(Num::dec(50, 2), Num::dec(5, 1));
    assert_eq!(Num::dec(2000, 3), Num::whole(2));
}

#[test]
fn negative_geometry_is_passed_through() {
    let f = Fig::Rect(
        Num::whole(-10),
        Num::dec(-25, 1),
        Num::whole(-200),
        Num::whole(100),
    );
    assert_eq!(
        f.render(),
        "<rect x=\"-10\" y=\"-2.5\" width=\"-200\" height=\"100\"/>\n"
    );
}

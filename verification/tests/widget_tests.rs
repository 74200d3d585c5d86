use glam::Vec2;
use yakui::absolute::{Absolute, AbsoluteWidget, Flow};
use yakui::geometry::{Alignment, Dim2, Pivot};

#[test]
fn absolute_keeps_its_properties() {
    let a = Absolute::new(
        Alignment::new(Vec2::new(0.5, 0.0)),
        Pivot::new(Vec2::new(0.5, 0.0)),
        Dim2::new(Vec2::new(3.0, 4.0), Vec2::ZERO),
    );
    assert_eq!(a.anchor.as_vec2(), Vec2::new(0.5, 0.0));
    assert_eq!(a.pivot.as_vec2(), Vec2::new(0.5, 0.0));
    assert_eq!(a.offset.pixels, Vec2::new(3.0, 4.0));
    assert_eq!(a.offset.percent, Vec2::ZERO);
}

#[test]
fn new_widget_sits_at_the_top_left() {
    let w = AbsoluteWidget::new();
    assert_eq!(w.props().anchor.as_vec2(), Vec2::ZERO);
    assert_eq!(w.props().pivot.as_vec2(), Vec2::ZERO);
    assert_eq!(w.props().offset.pixels, Vec2::ZERO);
    assert_eq!(w.props().offset.percent, Vec2::ZERO);
}

#[test]
fn flow_follows_the_last_properties() {
    let mut w = AbsoluteWidget::new();
    w.update(Absolute::new(
        Alignment::new(Vec2::new(1.0, 1.0)),
        Pivot::new(Vec2::new(1.0, 1.0)),
        Dim2::new(Vec2::new(-2.0, 0.0), Vec2::new(0.1, 0.0)),
    ));
    match w.flow() {
        Flow::Absolute { anchor, offset } => {
            assert_eq!(anchor.as_vec2(), Vec2::new(1.0, 1.0));
            assert_eq!(offset.pixels, Vec2::new(-2.0, 0.0));
            assert_eq!(offset.percent, Vec2::new(0.1, 0.0));
        }
        _ => panic!("an absolute widget flows absolutely"),
    }
    assert_eq!(w.props().pivot.as_vec2(), Vec2::new(1.0, 1.0));
}

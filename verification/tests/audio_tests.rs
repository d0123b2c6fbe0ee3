use nes_host::audio::window_sinc::Shape;
use nes_host::ui::UiBuilder;

#[test]
fn filter_shape() {
    assert_eq!(Shape::new(352), Shape { m: 352, len: 353, latency: 176 });
    assert_eq!(Shape::new(7), Shape { m: 7, len: 8, latency: 3 });
    assert_eq!(Shape::new(0), Shape { m: 0, len: 1, latency: 0 });
}

#[test]
fn inversion_negates_every_other_tap_from_the_first() {
    assert!(Shape::negates(0));
    assert!(!Shape::negates(1));
    assert!(Shape::negates(2));
    assert!(!Shape::negates(353));
}

#[test]
fn default_builder_has_everything_off() {
    let b = UiBuilder::default();
    assert_eq!(b.path, "");
    assert!(!b.debug && !b.fullscreen && !b.sound);
    assert_eq!(b.save_slot, 0);
    assert_eq!(b.scale, 0);
}

use silkstick::color::{
    black, blue, cyan, dark_gray, gray, green, light_gray, magenta, red, transparent, white,
    yellow, Color,
};

#[test]
fn from_rgba8_keeps_channels() {
    assert_eq!(Color::from_rgba8(1, 2, 3, 4).to_rgba8(), (1, 2, 3, 4));
}

#[test]
fn from_rgb8_is_opaque() {
    assert_eq!(Color::from_rgb8(10, 20, 30).to_rgba8(), (10, 20, 30, 255));
    assert_eq!(Color::from_rgb8(10, 20, 30), Color::from_rgba8(10, 20, 30, 255));
}

#[test]
fn named_colors() {
    assert_eq!(black().to_rgba8(), (0, 0, 0, 255));
    assert_eq!(white().to_rgba8(), (255, 255, 255, 255));
    assert_eq!(red().to_rgba8(), (255, 0, 0, 255));
    assert_eq!(green().to_rgba8(), (0, 255, 0, 255));
    assert_eq!(blue().to_rgba8(), (0, 0, 255, 255));
    assert_eq!(cyan().to_rgba8(), (0, 255, 255, 255));
    assert_eq!(magenta().to_rgba8(), (255, 0, 255, 255));
    assert_eq!(yellow().to_rgba8(), (255, 255, 0, 255));
    assert_eq!(gray().to_rgba8(), (128, 128, 128, 255));
    assert_eq!(light_gray().to_rgba8(), (192, 192, 192, 255));
    assert_eq!(dark_gray().to_rgba8(), (64, 64, 64, 255));
    assert_eq!(transparent().to_rgba8(), (0, 0, 0, 0));
}

#[test]
fn extreme_channels() {
    assert_eq!(Color::from_rgba8(0, 0, 0, 0).to_rgba8(), (0, 0, 0, 0));
    assert_eq!(Color::from_rgba8(255, 255, 255, 255).to_rgba8(), (255, 255, 255, 255));
}

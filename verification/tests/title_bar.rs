use story::title_bar::{
    LeftPadding, PlatformStyle, TitleBar, WindowControls, TRAFFIC_LIGHT_PADDING,
};

const STYLES: [PlatformStyle; 3] = [PlatformStyle::Mac, PlatformStyle::Linux, PlatformStyle::Windows];

#[test]
fn new_bar_has_the_given_style() {
    for style in STYLES {
        assert_eq!(TitleBar::new(style).platform_style, style);
    }
}

#[test]
fn platform_style_replaces_the_style() {
    for first in STYLES {
        for second in STYLES {
            assert_eq!(TitleBar::new(first).platform_style(second), TitleBar::new(second));
        }
    }
}

#[test]
fn mac_leaves_room_for_the_traffic_lights() {
    assert_eq!(TRAFFIC_LIGHT_PADDING, 71);
    assert_eq!(TitleBar::new(PlatformStyle::Mac).left_padding(false), LeftPadding::Pixels(71));
}

#[test]
fn other_platforms_use_the_small_padding() {
    assert_eq!(TitleBar::new(PlatformStyle::Linux).left_padding(false), LeftPadding::Small);
    assert_eq!(TitleBar::new(PlatformStyle::Windows).left_padding(false), LeftPadding::Small);
}

#[test]
fn fullscreen_uses_the_small_padding_everywhere() {
    for style in STYLES {
        assert_eq!(TitleBar::new(style).left_padding(true), LeftPadding::Small);
    }
}

#[test]
fn each_platform_gets_its_controls() {
    assert_eq!(TitleBar::new(PlatformStyle::Mac).window_controls(false), WindowControls::Absent);
    assert_eq!(TitleBar::new(PlatformStyle::Linux).window_controls(false), WindowControls::Linux);
    assert_eq!(
        TitleBar::new(PlatformStyle::Windows).window_controls(false),
        WindowControls::Windows
    );
}

#[test]
fn fullscreen_has_no_controls() {
    for style in STYLES {
        assert_eq!(TitleBar::new(style).window_controls(true), WindowControls::Absent);
    }
}

#[test]
fn top_padding_is_twice_the_border_when_maximized() {
    assert_eq!(TitleBar::top_padding(4, true), 8);
    assert_eq!(TitleBar::top_padding(0, true), 0);
    assert_eq!(TitleBar::top_padding(-3, true), -6);
    assert_eq!(TitleBar::top_padding(i32::MAX, true), 2 * (i32::MAX as i64));
    assert_eq!(TitleBar::top_padding(i32::MIN, true), 2 * (i32::MIN as i64));
}

#[test]
fn top_padding_is_zero_when_not_maximized() {
    for border in [0, 4, -3, i32::MAX, i32::MIN] {
        assert_eq!(TitleBar::top_padding(border, false), 0);
    }
}

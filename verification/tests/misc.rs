use snui::cursor::WindowState;
use snui::damage::Damage;
use snui::demo::{animate_update, frame_rate, AnimationState, Demo, Remote};
use snui::font::{FontProperty, FontStyle, DEFAULT_FONT_NAME};
use snui::mail::Mail;
use snui::proxy::{configure_damage, PointerAction, ProxyState};
use snui::snui::{decimal_string, Error};
use snui::widgets::image::{Image, InnerImage, Scale};
use snui::widgets::window::{configure, Corners, DecorationTexture, WindowFlags};
use snui::{to_color, to_color_channels};

#[test]
fn error_descriptions() {
    assert_eq!(
        Error::Dimension("wbox", 12, 340).describe().unwrap(),
        "requested dimension 12x340 is too large for \"wbox\""
    );
    assert_eq!(
        Error::Overflow("list", 0).describe().unwrap(),
        "\"list\" reached its full capacity: 0"
    );
    assert_eq!(Error::Message("hello").describe().unwrap(), "hello");
    assert!(Error::Null.describe().is_none());
}

#[test]
fn decimal_strings() {
    assert_eq!(decimal_string(0), "0");
    assert_eq!(decimal_string(7), "7");
    assert_eq!(decimal_string(10), "10");
    assert_eq!(decimal_string(4294967295), "4294967295");
}

#[test]
fn demo_switch_starts_and_pauses() {
    let mut demo = Demo::default();
    assert_eq!(demo.state, AnimationState::Stop);
    assert_eq!(Mail::send(&mut demo, Remote {}, true), None);
    assert_eq!(demo.state, AnimationState::Start);
    assert_eq!(Mail::send(&mut demo, Remote {}, false), None);
    assert_eq!(demo.state, AnimationState::Pause);
    demo.stop();
    assert_eq!(demo.state, AnimationState::Stop);
    demo.start();
    assert_eq!(demo.state, AnimationState::Start);
    demo.pause();
    assert_eq!(demo.state, AnimationState::Pause);
    assert_eq!(Mail::get(&demo, Remote {}), None);
    assert!(!demo.sync);
}

#[test]
fn animation_updates_and_frame_rate() {
    assert_eq!(animate_update(AnimationState::Start), (true, Damage::Frame));
    assert_eq!(animate_update(AnimationState::Pause), (false, Damage::Nothing));
    assert_eq!(animate_update(AnimationState::Stop), (false, Damage::Nothing));
    assert_eq!(frame_rate(16), Some(62));
    assert_eq!(frame_rate(0), None);
    assert_eq!(frame_rate(2000), Some(0));
}

#[test]
fn fonts() {
    assert_eq!(FontStyle::Regular.as_str(), None);
    assert_eq!(FontStyle::Italic.as_str(), Some("italic"));
    assert_eq!(FontStyle::Bold.as_str(), Some("bold"));
    let f = FontProperty::new("mono");
    assert_eq!(f.name, "mono");
    assert_eq!(f.style, FontStyle::Regular);
    let d = FontProperty::default();
    assert_eq!(d.name, DEFAULT_FONT_NAME);
    assert_eq!(d.name, "sans serif");
}

#[test]
fn colors_swap_red_and_blue_for_the_pixel_buffer() {
    assert_eq!(to_color_channels(0xAA112233), (0x33, 0x22, 0x11, 0xAA));
    let c = to_color(0xff_00_00_ff);
    assert_eq!(c, tiny_skia::Color::from_rgba8(0xff, 0, 0, 0xff));
    assert_eq!(to_color(0x80_10_20_30), tiny_skia::Color::from_rgba8(0x30, 0x20, 0x10, 0x80));
}

#[test]
fn images() {
    let mut inner = InnerImage::from_raw(vec![1; 8], 2, 1);
    assert_eq!(inner.width(), 2);
    assert_eq!(inner.height(), 1);
    inner.set_scale(Scale::Fill);
    let raw: snui::cache::image::RawImage = inner.into();
    assert_eq!(raw.as_ref(), &[1; 8]);
    let _image = Image::new("/tmp/picture.png");
}

#[test]
fn window_configure_decisions() {
    let start = WindowFlags { activated: false, positioned: false };
    let (flags, texture, corners) = configure(&[WindowState::Activated], start, true);
    assert_eq!(flags, WindowFlags { activated: true, positioned: false });
    assert_eq!(texture, DecorationTexture::Decoration);
    assert_eq!(corners, Corners::Keep);
    let (flags2, texture2, corners2) =
        configure(&[WindowState::Maximized, WindowState::Activated], flags, true);
    assert_eq!(flags2, WindowFlags { activated: true, positioned: true });
    assert_eq!(texture2, DecorationTexture::Keep);
    assert_eq!(corners2, Corners::Square);
    let (flags3, texture3, corners3) = configure(&[], flags2, true);
    assert_eq!(flags3, WindowFlags { activated: false, positioned: false });
    assert_eq!(texture3, DecorationTexture::Alternate);
    assert_eq!(corners3, Corners::Round);
    let (_, texture4, corners4) = configure(&[WindowState::TiledLeft], start, false);
    assert_eq!(texture4, DecorationTexture::Keep);
    assert_eq!(corners4, Corners::Round);
    let (_, _, corners5) = configure(&[WindowState::Fullscreen, WindowState::Activated], start, false);
    assert_eq!(corners5, Corners::Square);
}

#[test]
fn proxy_routes_pointer_events() {
    let mut p = ProxyState::new();
    assert_eq!(p.damage, Damage::Partial);
    assert!(!p.entered);
    assert_eq!(p.pointer(false), PointerAction::Ignore);
    assert_eq!(p.pointer(true), PointerAction::Enter);
    assert!(p.entered);
    assert_eq!(p.pointer(true), PointerAction::Forward);
    assert_eq!(p.pointer(false), PointerAction::ForwardThenCheck);
    assert!(!p.leave_after(false, Damage::Partial));
    assert!(p.entered);
    assert!(p.leave_after(false, Damage::Nothing));
    assert!(!p.entered);
}

#[test]
fn proxy_accumulates_damage_until_drawn() {
    let mut p = ProxyState::new();
    assert!(p.should_draw(false));
    p.drawn();
    assert_eq!(p.damage, Damage::Nothing);
    assert!(!p.should_draw(false));
    assert!(p.should_draw(true));
    assert!(!p.should_layout(false));
    assert!(p.should_layout(true));
    assert_eq!(p.record(Damage::Frame), Damage::Frame);
    assert_eq!(p.record(Damage::Nothing), Damage::Frame);
    p.drawn();
    p.upgrade();
    assert_eq!(p.damage, Damage::Partial);
    assert_eq!(configure_damage(true, Damage::Nothing), Damage::Partial);
    assert_eq!(configure_damage(true, Damage::Frame), Damage::Frame);
    assert_eq!(configure_damage(false, Damage::Nothing), Damage::Nothing);
}

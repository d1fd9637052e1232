use blitz::binary::Binary32;
use blitz::options::{ColorScheme, ResolvedOptions, Rgba8, DEFAULT_USER_AGENT};
use blitz::{blitz_render_options_default, BlitzRenderOptions};
use blitz::{BLITZ_COLOR_SCHEME_DARK, BLITZ_COLOR_SCHEME_LIGHT, BLITZ_ERR_INVALID_UTF8};

fn zeroed() -> BlitzRenderOptions {
    BlitzRenderOptions {
        width: 0,
        height: 0,
        scale: Binary32::from_bits(0),
        max_height: 0,
        color_scheme: 0,
        background_rgba: 0,
        net_timeout_ms: 0,
        user_agent: None,
        enable_net: 0,
        fit_content_height: 0,
        _reserved: [0; 2],
    }
}

fn scale_bits(scale: f32) -> u32 {
    let mut raw = zeroed();
    raw.scale = Binary32::from_bits(scale.to_bits());
    ResolvedOptions::from_raw(Some(&raw)).unwrap().scale.bits
}

#[test]
fn default_options_are_exact() {
    let o = blitz_render_options_default();
    assert_eq!((o.width, o.height, o.max_height), (1200, 800, 4000));
    assert_eq!(o.scale.bits, 1.0f32.to_bits());
    assert_eq!(o.color_scheme, BLITZ_COLOR_SCHEME_LIGHT);
    assert_eq!(o.background_rgba, 0xFFFF_FFFF);
    assert_eq!(o.net_timeout_ms, 10_000);
    assert!(o.user_agent.is_none());
    assert_eq!((o.enable_net, o.fit_content_height, o._reserved), (1, 1, [0, 0]));
}

#[test]
fn missing_options_are_the_default_ones() {
    let a = ResolvedOptions::from_raw(None).unwrap();
    let b = ResolvedOptions::from_raw(Some(&BlitzRenderOptions::default())).unwrap();
    for o in [a, b] {
        assert_eq!((o.css_width, o.css_height, o.max_height), (1200, 800, 4000));
        assert_eq!(o.scale.bits, 1.0f32.to_bits());
        assert_eq!(o.color_scheme, ColorScheme::Light);
        assert_eq!(o.background, Some(Rgba8 { r: 255, g: 255, b: 255, a: 255 }));
        assert_eq!(o.net_timeout_ms, 10_000);
        assert_eq!(
            o.user_agent,
            "Mozilla/5.0 (X11; Linux x86_64; rv:60.0) Gecko/20100101 Firefox/81.0"
        );
        assert!(o.enable_net && o.fit_content_height);
    }
}

#[test]
fn zeros_mean_defaults() {
    let o = ResolvedOptions::from_raw(Some(&zeroed())).unwrap();
    assert_eq!((o.css_width, o.css_height, o.max_height), (1200, 800, 4000));
    assert_eq!(o.scale.bits, 1.0f32.to_bits());
    assert_eq!(o.color_scheme, ColorScheme::Light);
    assert_eq!(o.background, None);
    assert_eq!(o.net_timeout_ms, 10_000);
    assert_eq!(o.user_agent, DEFAULT_USER_AGENT);
    assert!(!o.enable_net && !o.fit_content_height);
}

#[test]
fn given_options_are_kept() {
    let mut raw = zeroed();
    raw.width = 1;
    raw.height = u32::MAX;
    raw.max_height = 7;
    raw.color_scheme = BLITZ_COLOR_SCHEME_DARK;
    raw.background_rgba = 0x1122_3344;
    raw.net_timeout_ms = u32::MAX;
    raw.user_agent = Some("caf\u{e9}/1".as_bytes().to_vec());
    raw.enable_net = 2;
    raw.fit_content_height = 255;
    let o = ResolvedOptions::from_raw(Some(&raw)).unwrap();
    assert_eq!((o.css_width, o.css_height, o.max_height), (1, u32::MAX, 7));
    assert_eq!(o.color_scheme, ColorScheme::Dark);
    assert_eq!(o.background, Some(Rgba8 { r: 0x11, g: 0x22, b: 0x33, a: 0x44 }));
    assert_eq!(o.net_timeout_ms, 4_294_967_295);
    assert_eq!(o.user_agent, "caf\u{e9}/1");
    assert!(o.enable_net && o.fit_content_height);

    raw.color_scheme = 2;
    raw.background_rgba = 0x1122_3300;
    let o = ResolvedOptions::from_raw(Some(&raw)).unwrap();
    assert_eq!(o.color_scheme, ColorScheme::Light);
    assert_eq!(o.background, None);
}

#[test]
fn scale_of_at_most_zero_is_one() {
    let one = 1.0f32.to_bits();
    for s in [0.0f32, -0.0, -1.0, f32::NEG_INFINITY, f32::from_bits(0x8000_0001)] {
        assert_eq!(scale_bits(s), one);
    }
    for s in [2.0f32, 0.5, f32::INFINITY, f32::NAN, f32::from_bits(1)] {
        assert_eq!(scale_bits(s), s.to_bits());
    }
}

#[test]
fn user_agent_must_be_utf8() {
    let mut raw = zeroed();
    raw.user_agent = Some(vec![0x41, 0xFF]);
    let f = ResolvedOptions::from_raw(Some(&raw)).unwrap_err();
    assert_eq!(
        (f.code, f.message.as_str()),
        (BLITZ_ERR_INVALID_UTF8, "user_agent is not valid UTF-8")
    );
    raw.user_agent = Some(vec![]);
    assert_eq!(ResolvedOptions::from_raw(Some(&raw)).unwrap().user_agent, "");
}

use blitz::binary::Binary32;
use blitz::options::{ColorScheme, ResolvedOptions, Rgba8};
use blitz::render::{
    clip_height, fit_height, image_from_buffer, paint_plan, viewport, PaintPlan, RenderAction,
    RenderEvent, RenderMachine, RenderPhase,
};
use blitz::{blitz_render_options_default, BlitzImage, BlitzRenderOptions};
use blitz::{BLITZ_ERR_NETWORK, BLITZ_ERR_RENDER};

fn float(f: f32) -> Binary32 {
    Binary32::from_bits(f.to_bits())
}

fn resolved(change: impl FnOnce(&mut BlitzRenderOptions)) -> ResolvedOptions {
    let mut raw = blitz_render_options_default();
    change(&mut raw);
    ResolvedOptions::from_raw(Some(&raw)).unwrap()
}

fn height_of(options: &ResolvedOptions, content: f32) -> u32 {
    paint_plan(options, float(content)).height
}

fn finished(action: RenderAction) -> Result<BlitzImage, (i32, String)> {
    match action {
        RenderAction::Finish(Ok(i)) => Ok(i),
        RenderAction::Finish(Err(f)) => Err((f.code, f.message)),
        _ => panic!("not finished"),
    }
}

#[test]
fn viewport_is_scaled() {
    let v = viewport(&resolved(|o| {
        o.width = 900;
        o.scale = float(2.0);
        o.color_scheme = 1;
    }));
    assert_eq!((v.width, v.height, v.scale.bits), (1800, 1600, 2.0f32.to_bits()));
    assert_eq!(v.color_scheme, ColorScheme::Dark);
}

#[test]
fn fitted_heights_match_floating_point() {
    let contents =
        [0.0f32, -5.0, 1.0, 799.5, 800.0, 800.25, 3999.9, 4000.0, 4000.5, 1e9, f32::INFINITY, f32::NAN];
    for scale in [1.0f32, 2.0, 1.5, 0.1] {
        for (height, cap) in [(800u32, 4000u32), (5000, 4000), (1, 1), (10, u32::MAX)] {
            let options = resolved(|o| {
                o.scale = float(scale);
                o.height = height;
                o.max_height = cap;
            });
            for content in contents {
                let css = (content as f64).max(height as f64).min(cap as f64);
                let expected = ((css * scale as f64) as u32).max(1);
                assert_eq!(height_of(&options, content), expected, "{} at {}", content, scale);
            }
        }
    }
}

#[test]
fn heights_stay_within_their_bounds() {
    let whole = |n: u32| (n, 0);
    let fit = |content: f32, height: u32, cap: u32| {
        let h = fit_height(float(content), height, cap);
        (h.significand, h.exponent)
    };
    assert_eq!(fit(100.0, 800, 4000), whole(800));
    assert_eq!(fit(5000.0, 800, 4000), whole(4000));
    assert_eq!(fit(100.0, 5000, 4000), whole(4000));
    assert_eq!(fit(f32::NAN, 800, 4000), whole(800));
    let (m, e) = fit(1000.5, 800, 4000);
    assert_eq!(m as f64 * 2f64.powi(e), 1000.5);
    assert_eq!(clip_height(800, 4000).significand, 800);
    assert_eq!(clip_height(5000, 4000).significand, 4000);
}

#[test]
fn clipping_ignores_the_content_and_keeps_the_cap() {
    let clip = |height, cap| {
        resolved(|o| {
            o.fit_content_height = 0;
            o.height = height;
            o.max_height = cap;
            o.scale = float(2.0);
        })
    };
    for content in [0.0f32, 10_000.0, f32::NAN] {
        assert_eq!(height_of(&clip(800, 4000), content), 1600);
        assert_eq!(height_of(&clip(5000, 4000), content), 8000);
    }
}

#[test]
fn pictures_have_at_least_one_pixel() {
    let tiny = resolved(|o| {
        o.width = 3;
        o.height = 3;
        o.scale = float(0.01);
    });
    let p = paint_plan(&tiny, float(0.0));
    assert_eq!((p.width, p.height), (1, 1));
    let v = viewport(&tiny);
    assert_eq!((v.width, v.height), (0, 0));
    let p = paint_plan(&resolved(|o| o.background_rgba = 0x0102_0304), float(0.0));
    assert_eq!(p.background, Some(Rgba8 { r: 1, g: 2, b: 3, a: 4 }));
    assert_eq!(p.scale.bits, 1.0f32.to_bits());
}

#[test]
fn short_buffers_are_refused() {
    let plan = PaintPlan { width: 3, height: 2, background: None, scale: float(1.0) };
    let f = image_from_buffer(plan, vec![0; 23]).err().unwrap();
    assert_eq!(
        (f.code, f.message.as_str()),
        (BLITZ_ERR_RENDER, "renderer produced 23 bytes, expected 24")
    );
    for len in [24usize, 30] {
        let i = image_from_buffer(plan, vec![7; len]).ok().unwrap();
        assert_eq!((i.len(), i.width, i.height, i.stride), (len, 3, 2, 12));
    }
}

#[test]
fn a_render_without_networking_runs_through() {
    let options = resolved(|o| {
        o.enable_net = 0;
        o.width = 2;
        o.height = 2;
    });
    let (mut m, action) = RenderMachine::start(options);
    assert!(matches!(action, RenderAction::Load(v) if v.width == 2 && v.height == 2));
    assert!(!m.is_expected(&RenderEvent::Connected(Ok(()))));
    assert!(m.is_expected(&RenderEvent::Loaded));
    assert!(matches!(m.step(RenderEvent::Loaded), RenderAction::Resolve));
    let resolved = RenderEvent::Resolved { pending: true, elapsed_nanos: 0 };
    assert!(matches!(m.step(resolved), RenderAction::Measure));
    let measured = RenderEvent::Measured { content_height: float(3.0) };
    assert!(matches!(m.step(measured), RenderAction::Paint(p) if p.width == 2 && p.height == 3));
    let painted = RenderEvent::Painted(vec![9; 24]);
    assert!(m.is_expected(&painted));
    let image = finished(m.step(painted)).unwrap();
    assert_eq!((image.len(), image.width, image.height, image.stride), (24, 2, 3, 8));
    assert_eq!(m.phase, RenderPhase::Finished);
    assert!(!m.is_expected(&RenderEvent::Loaded));
}

#[test]
fn settling_waits_until_nothing_is_pending_or_time_is_up() {
    let start = || {
        let (mut m, action) = RenderMachine::start(resolved(|o| {
            o.net_timeout_ms = 3;
            o.user_agent = Some(b"ua".to_vec());
        }));
        match action {
            RenderAction::Connect { timeout_ms, user_agent } => {
                assert_eq!((timeout_ms, user_agent.as_str()), (3, "ua"));
            }
            _ => panic!("no provider is set up"),
        }
        assert!(matches!(m.step(RenderEvent::Connected(Ok(()))), RenderAction::Load(_)));
        assert!(matches!(m.step(RenderEvent::Loaded), RenderAction::Resolve));
        m
    };
    let mut m = start();
    for round in 0..3u128 {
        let event = RenderEvent::Resolved { pending: true, elapsed_nanos: round * 1_000_000 };
        assert!(m.is_expected(&event));
        assert!(matches!(m.step(event), RenderAction::Wait { millis: 1 }));
        assert!(m.is_expected(&RenderEvent::Waited));
        assert!(matches!(m.step(RenderEvent::Waited), RenderAction::Resolve));
        assert!(!m.is_expected(&RenderEvent::Waited));
    }
    let late = RenderEvent::Resolved { pending: true, elapsed_nanos: 3_000_000 };
    assert!(matches!(m.step(late), RenderAction::Measure));

    let mut m = start();
    let almost = RenderEvent::Resolved { pending: true, elapsed_nanos: 2_999_999 };
    assert!(matches!(m.step(almost), RenderAction::Wait { millis: 1 }));
    m.step(RenderEvent::Waited);
    let arrived = RenderEvent::Resolved { pending: false, elapsed_nanos: 0 };
    assert!(matches!(m.step(arrived), RenderAction::Measure));
}

#[test]
fn a_provider_that_cannot_be_set_up_ends_the_render() {
    let (mut m, _) = RenderMachine::start(resolved(|_| {}));
    let action = m.step(RenderEvent::Connected(Err("no tls".to_string())));
    let failure = finished(action).err().unwrap();
    assert_eq!(failure, (BLITZ_ERR_NETWORK, "http client: no tls".to_string()));
    assert_eq!(m.phase, RenderPhase::Finished);
}

fn painting(width: u32, height: u32) -> RenderMachine {
    let (mut m, _) = RenderMachine::start(resolved(|o| {
        o.enable_net = 0;
        o.width = width;
        o.height = height;
        o.max_height = height;
    }));
    m.step(RenderEvent::Loaded);
    m.step(RenderEvent::Resolved { pending: false, elapsed_nanos: 0 });
    m.step(RenderEvent::Measured { content_height: float(0.0) });
    m
}

#[test]
fn short_buffers_of_wide_pictures_are_refused_too() {
    let mut m = painting(0x4000_0000, 1);
    assert!(m.is_expected(&RenderEvent::Painted(vec![])));
    let failure = finished(m.step(RenderEvent::Painted(vec![]))).err().unwrap();
    assert_eq!(
        failure,
        (BLITZ_ERR_RENDER, "renderer produced 0 bytes, expected 4294967296".to_string())
    );
}

#[test]
fn pictures_whose_size_cannot_be_counted_are_not_expected() {
    assert!(!painting(u32::MAX, u32::MAX).is_expected(&RenderEvent::Painted(vec![])));
    let plan = |width, height| PaintPlan { width, height, background: None, scale: float(1.0) };
    assert!(plan(0x3FFF_FFFF, 1).judges(usize::MAX));
    assert!(!plan(0x4000_0000, 1).judges(usize::MAX));
    assert!(plan(0x8000_0000, 0x7FFF_FFFF).judges(0));
    assert!(!plan(0x8000_0000, 0x8000_0000).judges(0));
}

#[test]
fn a_short_picture_ends_the_render() {
    let (mut m, _) = RenderMachine::start(resolved(|o| {
        o.enable_net = 0;
        o.width = 1;
        o.height = 1;
    }));
    m.step(RenderEvent::Loaded);
    m.step(RenderEvent::Resolved { pending: false, elapsed_nanos: 0 });
    m.step(RenderEvent::Measured { content_height: float(0.0) });
    let failure = finished(m.step(RenderEvent::Painted(vec![]))).err().unwrap();
    assert_eq!(
        failure,
        (BLITZ_ERR_RENDER, "renderer produced 0 bytes, expected 4".to_string())
    );
}

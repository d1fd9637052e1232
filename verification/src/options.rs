//! Render options: what a caller may set, and what a render then goes by.

use vstd::prelude::*;
use vstd::utf8::*;

use crate::binary::Binary32;
use crate::image;
use crate::status::{Failure, BLITZ_ERR_INVALID_UTF8};
use crate::text;

verus! {

pub const BLITZ_COLOR_SCHEME_LIGHT: u32 = 0;

pub const BLITZ_COLOR_SCHEME_DARK: u32 = 1;

/// The user agent sent where the caller gives none.
pub const DEFAULT_USER_AGENT: &'static str =
    "Mozilla/5.0 (X11; Linux x86_64; rv:60.0) Gecko/20100101 Firefox/81.0";

/// The bit pattern of one.
pub const ONE_BITS: u32 = 0x3F80_0000;

/// What a caller may set.
#[derive(Clone, Debug)]
pub struct BlitzRenderOptions {
    /// Viewport width in CSS pixels. 0 -> 1200.
    pub width: u32,
    /// Minimum viewport height in CSS pixels. 0 -> 800.
    pub height: u32,
    /// Device pixel ratio. At most zero -> one.
    pub scale: Binary32,
    /// Hard cap on the rendered height in CSS pixels, before scale. 0 -> 4000.
    pub max_height: u32,
    /// `BLITZ_COLOR_SCHEME_*`.
    pub color_scheme: u32,
    /// Backdrop painted under the document, as 0xRRGGBBAA. An alpha of 0 leaves
    /// the buffer transparent, which is what you want when compositing.
    pub background_rgba: u32,
    /// How long to keep resolving while sub-resources are still in flight, in
    /// milliseconds. 0 -> 10000.
    pub net_timeout_ms: u32,
    /// The bytes of the override, or none for the default string.
    pub user_agent: Option<Vec<u8>>,
    /// 0 disables all sub-resource fetching (images, stylesheets, fonts).
    pub enable_net: u8,
    /// Grow the render height to fit the document instead of clipping to
    /// `height`.
    pub fit_content_height: u8,
    pub _reserved: [u8; 2],
}

/// The settings of `BlitzRenderOptions` as values.
pub struct OptionsModel {
    pub width: u32,
    pub height: u32,
    pub scale: Binary32,
    pub max_height: u32,
    pub color_scheme: u32,
    pub background_rgba: u32,
    pub net_timeout_ms: u32,
    pub user_agent: Option<Seq<u8>>,
    pub enable_net: u8,
    pub fit_content_height: u8,
    pub reserved: Seq<u8>,
}

impl View for BlitzRenderOptions {
    type V = OptionsModel;

    open spec fn view(&self) -> OptionsModel {
        OptionsModel {
            width: self.width,
            height: self.height,
            scale: self.scale,
            max_height: self.max_height,
            color_scheme: self.color_scheme,
            background_rgba: self.background_rgba,
            net_timeout_ms: self.net_timeout_ms,
            user_agent: image::bytes_of(self.user_agent),
            enable_net: self.enable_net,
            fit_content_height: self.fit_content_height,
            reserved: self._reserved@,
        }
    }
}

impl OptionsModel {
    /// The default settings.
    pub open spec fn standard() -> OptionsModel {
        OptionsModel {
            width: 1200,
            height: 800,
            scale: Binary32 { bits: ONE_BITS },
            max_height: 4000,
            color_scheme: BLITZ_COLOR_SCHEME_LIGHT,
            background_rgba: 0xFFFF_FFFF,
            net_timeout_ms: 10_000,
            user_agent: None,
            enable_net: 1,
            fit_content_height: 1,
            reserved: seq![0u8, 0u8],
        }
    }
}

impl Default for BlitzRenderOptions {
    fn default() -> (o: BlitzRenderOptions)
        ensures
            o@ == OptionsModel::standard(),
    {
        let o = BlitzRenderOptions {
            width: 1200,
            height: 800,
            scale: Binary32 { bits: ONE_BITS },
            max_height: 4000,
            color_scheme: BLITZ_COLOR_SCHEME_LIGHT,
            background_rgba: 0xFFFF_FFFF,
            net_timeout_ms: 10_000,
            user_agent: None,
            enable_net: 1,
            fit_content_height: 1,
            _reserved: [0, 0],
        };
        assert(o._reserved@ =~= seq![0u8, 0u8]);
        o
    }
}

/// The default options. Zero-initialised options are legal but ambiguous; prefer
/// these.
pub fn blitz_render_options_default() -> (o: BlitzRenderOptions)
    ensures
        o@ == OptionsModel::standard(),
{
    BlitzRenderOptions::default()
}

/// Which colours the document prefers.
#[derive(Clone, Copy, Debug, PartialEq, Eq, Structural)]
pub enum ColorScheme {
    Light,
    Dark,
}

/// A colour with eight bits for each component.
#[derive(Clone, Copy, Debug, PartialEq, Eq, Structural)]
pub struct Rgba8 {
    pub r: u8,
    pub g: u8,
    pub b: u8,
    pub a: u8,
}

impl Rgba8 {
    /// The colour as one number, red in the highest byte.
    pub open spec fn packed(self) -> int {
        self.r * 0x100_0000 + self.g * 0x1_0000 + self.b * 0x100 + self.a
    }
}

/// What a render goes by.
#[derive(Clone, Debug)]
pub struct ResolvedOptions {
    pub css_width: u32,
    pub css_height: u32,
    pub scale: Binary32,
    pub max_height: u32,
    pub color_scheme: ColorScheme,
    pub background: Option<Rgba8>,
    pub net_timeout_ms: u64,
    pub user_agent: String,
    pub enable_net: bool,
    pub fit_content_height: bool,
}

/// `ResolvedOptions` as values.
pub struct ResolvedModel {
    pub css_width: u32,
    pub css_height: u32,
    pub scale: Binary32,
    pub max_height: u32,
    pub color_scheme: ColorScheme,
    pub background: Option<Rgba8>,
    pub net_timeout_ms: u64,
    pub user_agent: Seq<char>,
    pub enable_net: bool,
    pub fit_content_height: bool,
}

impl View for ResolvedOptions {
    type V = ResolvedModel;

    open spec fn view(&self) -> ResolvedModel {
        ResolvedModel {
            css_width: self.css_width,
            css_height: self.css_height,
            scale: self.scale,
            max_height: self.max_height,
            color_scheme: self.color_scheme,
            background: self.background,
            net_timeout_ms: self.net_timeout_ms,
            user_agent: self.user_agent@,
            enable_net: self.enable_net,
            fit_content_height: self.fit_content_height,
        }
    }
}

impl ResolvedModel {
    /// No size is zero, the timeout is not, and the scale is not at most zero.
    pub open spec fn well_formed(self) -> bool {
        &&& self.css_width >= 1
        &&& self.css_height >= 1
        &&& self.max_height >= 1
        &&& self.net_timeout_ms >= 1
        &&& !self.scale.at_most_zero()
    }
}

/// `n`, or the default where it is zero.
pub open spec fn or_default(n: u32, default: u32) -> u32 {
    if n == 0 {
        default
    } else {
        n
    }
}

/// The backdrop that 0xRRGGBBAA stands for: none where the alpha is zero.
pub open spec fn backdrop(packed: u32) -> Option<Rgba8> {
    if packed % 0x100 == 0 {
        None
    } else {
        Some(
            Rgba8 {
                r: (packed / 0x100_0000) as u8,
                g: ((packed / 0x1_0000) % 0x100) as u8,
                b: ((packed / 0x100) % 0x100) as u8,
                a: (packed % 0x100) as u8,
            },
        )
    }
}

/// The user agent to send, or none where the override is not UTF-8.
pub open spec fn user_agent_text(bytes: Option<Seq<u8>>) -> Option<Seq<char>> {
    match bytes {
        None => Some(DEFAULT_USER_AGENT@),
        Some(b) => if valid_utf8(b) {
            Some(decode_utf8(b))
        } else {
            None
        },
    }
}

/// What the caller's settings come to with the given user agent: each setting that
/// is zero has its default, a scale of at most zero is one, an unknown colour
/// scheme is light, and the backdrop is absent where its alpha is zero.
pub open spec fn settled(raw: OptionsModel, user_agent: Seq<char>) -> ResolvedModel {
    ResolvedModel {
        css_width: or_default(raw.width, 1200),
        css_height: or_default(raw.height, 800),
        scale: if raw.scale.at_most_zero() {
            Binary32 { bits: ONE_BITS }
        } else {
            raw.scale
        },
        max_height: or_default(raw.max_height, 4000),
        color_scheme: if raw.color_scheme == BLITZ_COLOR_SCHEME_DARK {
            ColorScheme::Dark
        } else {
            ColorScheme::Light
        },
        background: backdrop(raw.background_rgba),
        net_timeout_ms: or_default(raw.net_timeout_ms, 10_000) as u64,
        user_agent,
        enable_net: raw.enable_net != 0,
        fit_content_height: raw.fit_content_height != 0,
    }
}

/// What the caller's settings come to. None given means the default ones; the one
/// thing that is refused is a user agent that is not UTF-8.
pub open spec fn resolved(raw: Option<OptionsModel>) -> Result<ResolvedModel, (i32, Seq<char>)> {
    let given = match raw {
        Some(m) => m,
        None => OptionsModel::standard(),
    };
    match user_agent_text(given.user_agent) {
        Some(user_agent) => Ok(settled(given, user_agent)),
        None => Err((BLITZ_ERR_INVALID_UTF8, "user_agent is not valid UTF-8"@)),
    }
}

/// The settings behind an optional reference.
pub open spec fn settings_of(opts: Option<&BlitzRenderOptions>) -> Option<OptionsModel> {
    match opts {
        Some(o) => Some(o@),
        None => None,
    }
}

impl ResolvedOptions {
    /// Resolves the caller's options.
    pub fn from_raw(opts: Option<&BlitzRenderOptions>) -> (r: Result<ResolvedOptions, Failure>)
        ensures
            match r {
                Ok(o) => {
                    &&& resolved(settings_of(opts)) == Ok::<_, (i32, Seq<char>)>(o@)
                    &&& o@.well_formed()
                },
                Err(f) => resolved(settings_of(opts)) == Err::<ResolvedModel, _>(f@),
            },
    {
        match opts {
            None => {
                let raw = BlitzRenderOptions::default();
                ResolvedOptions::resolve(&raw)
            },
            Some(raw) => ResolvedOptions::resolve(raw),
        }
    }

    fn resolve(raw: &BlitzRenderOptions) -> (r: Result<ResolvedOptions, Failure>)
        ensures
            match r {
                Ok(o) => {
                    &&& resolved(Some(raw@)) == Ok::<_, (i32, Seq<char>)>(o@)
                    &&& o@.well_formed()
                },
                Err(f) => resolved(Some(raw@)) == Err::<ResolvedModel, _>(f@),
            },
    {
        let user_agent = match &raw.user_agent {
            None => DEFAULT_USER_AGENT.to_owned(),
            Some(b) => match text::decode_text(b.as_slice()) {
                Ok(s) => s.to_owned(),
                Err(_) => {
                    return Err(
                        Failure::new(BLITZ_ERR_INVALID_UTF8, "user_agent is not valid UTF-8"),
                    );
                },
            },
        };
        let packed = raw.background_rgba;
        let alpha = (packed % 0x100) as u8;
        let background = if alpha != 0 {
            Some(
                Rgba8 {
                    r: (packed / 0x100_0000) as u8,
                    g: ((packed / 0x1_0000) % 0x100) as u8,
                    b: ((packed / 0x100) % 0x100) as u8,
                    a: alpha,
                },
            )
        } else {
            None
        };
        let net_timeout_ms = if raw.net_timeout_ms == 0 {
            10_000u64
        } else {
            raw.net_timeout_ms as u64
        };
        Ok(
            ResolvedOptions {
                css_width: if raw.width == 0 {
                    1200
                } else {
                    raw.width
                },
                css_height: if raw.height == 0 {
                    800
                } else {
                    raw.height
                },
                scale: if raw.scale.is_at_most_zero() {
                    Binary32 { bits: ONE_BITS }
                } else {
                    raw.scale
                },
                max_height: if raw.max_height == 0 {
                    4000
                } else {
                    raw.max_height
                },
                color_scheme: if raw.color_scheme == BLITZ_COLOR_SCHEME_DARK {
                    ColorScheme::Dark
                } else {
                    ColorScheme::Light
                },
                background,
                net_timeout_ms,
                user_agent,
                enable_net: raw.enable_net != 0,
                fit_content_height: raw.fit_content_height != 0,
            },
        )
    }
}

/// A setting of zero and the default setting come to the same thing: width,
/// height, scale, cap, colour scheme and timeout.
pub proof fn law_zero_means_default(raw: OptionsModel, user_agent: Seq<char>)
    ensures
        ({
            let d = settled(OptionsModel::standard(), user_agent);
            let r = settled(raw, user_agent);
            &&& raw.width == 0 ==> r.css_width == d.css_width
            &&& raw.height == 0 ==> r.css_height == d.css_height
            &&& raw.scale.bits == 0 ==> r.scale == d.scale
            &&& raw.max_height == 0 ==> r.max_height == d.max_height
            &&& raw.color_scheme == 0 ==> r.color_scheme == d.color_scheme
            &&& raw.net_timeout_ms == 0 ==> r.net_timeout_ms == d.net_timeout_ms
        }),
{
}

/// A backdrop is the colour that was packed, and only a zero alpha gives none.
pub proof fn law_backdrop_keeps_the_colour(packed: u32)
    ensures
        match backdrop(packed) {
            None => packed % 0x100 == 0,
            Some(c) => c.packed() == packed && c.a != 0,
        },
{
}

} // verus!

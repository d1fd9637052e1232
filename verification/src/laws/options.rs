//! Laws of the render options.

use vstd::prelude::*;
use vstd::string::*;
use vstd::utf8::*;

use crate::options::{
    blitz_render_options_default, BlitzRenderOptions, ColorScheme, ResolvedOptions,
};
use crate::status::Failure;

verus! {

/// The one thing that options are refused for is a user agent that is not UTF-8.
pub proof fn law_only_a_bad_user_agent_is_refused(
    opts: Option<&BlitzRenderOptions>,
    r: Result<ResolvedOptions, Failure>,
)
    requires
        call_ensures(ResolvedOptions::from_raw, (opts,), r),
    ensures
        r is Err <==> (opts matches Some(given) && given.user_agent matches Some(b) && !valid_utf8(
            b@,
        )),
        r matches Err(f) ==> f.code == -2 && f.message@ == "user_agent is not valid UTF-8"@,
{
}

/// A size, cap or timeout that was given is kept, and zero stands for its default.
pub proof fn law_given_numbers_are_kept(given: &BlitzRenderOptions, o: ResolvedOptions)
    requires
        call_ensures(ResolvedOptions::from_raw, (Some(given),), Ok(o)),
    ensures
        given.width > 0 ==> o.css_width == given.width,
        given.width == 0 ==> o.css_width == 1200,
        given.height > 0 ==> o.css_height == given.height,
        given.height == 0 ==> o.css_height == 800,
        given.max_height > 0 ==> o.max_height == given.max_height,
        given.max_height == 0 ==> o.max_height == 4000,
        given.net_timeout_ms > 0 ==> o.net_timeout_ms == given.net_timeout_ms,
        given.net_timeout_ms == 0 ==> o.net_timeout_ms == 10_000,
{
}

/// A positive scale is kept bit for bit, as infinity and not-a-number are; zero and
/// what is negative become one.
pub proof fn law_positive_scales_are_kept(given: &BlitzRenderOptions, o: ResolvedOptions)
    requires
        call_ensures(ResolvedOptions::from_raw, (Some(given),), Ok(o)),
    ensures
        0 < given.scale.bits < 0x8000_0000 ==> o.scale.bits == given.scale.bits,
        given.scale.bits > 0xFF80_0000 ==> o.scale.bits == given.scale.bits,
        given.scale.bits == 0 ==> o.scale.bits == 0x3F80_0000,
        0x8000_0000 <= given.scale.bits <= 0xFF80_0000 ==> o.scale.bits == 0x3F80_0000,
{
}

/// The switches follow the caller's bytes, and only the code of the dark scheme asks for
/// dark colours.
pub proof fn law_switches_follow_their_bytes(given: &BlitzRenderOptions, o: ResolvedOptions)
    requires
        call_ensures(ResolvedOptions::from_raw, (Some(given),), Ok(o)),
    ensures
        o.enable_net <==> given.enable_net != 0,
        o.fit_content_height <==> given.fit_content_height != 0,
        o.color_scheme == ColorScheme::Dark <==> given.color_scheme == 1,
        o.color_scheme == ColorScheme::Light <==> given.color_scheme != 1,
{
}

/// The backdrop is the very colour that was packed, and is absent exactly where its
/// alpha is zero.
pub proof fn law_backdrop_is_the_packed_colour(given: &BlitzRenderOptions, o: ResolvedOptions)
    requires
        call_ensures(ResolvedOptions::from_raw, (Some(given),), Ok(o)),
    ensures
        o.background is None <==> given.background_rgba % 0x100 == 0,
        o.background matches Some(c) ==> c.r * 0x100_0000 + c.g * 0x1_0000 + c.b * 0x100 + c.a
            == given.background_rgba,
{
}

/// A user agent that was given is sent as it is; without one the default is sent.
pub proof fn law_user_agent_is_the_given_one(given: &BlitzRenderOptions, o: ResolvedOptions)
    requires
        call_ensures(ResolvedOptions::from_raw, (Some(given),), Ok(o)),
    ensures
        given.user_agent matches Some(b) ==> encode_utf8(o.user_agent@) == b@,
        given.user_agent is None ==> o.user_agent@
            == "Mozilla/5.0 (X11; Linux x86_64; rv:60.0) Gecko/20100101 Firefox/81.0"@,
{
    if let Some(b) = given.user_agent {
        decode_utf8_encode_utf8(b@);
    }
}

/// Two resolved options agree in every setting.
pub open spec fn same_options(a: ResolvedOptions, b: ResolvedOptions) -> bool {
    &&& a.css_width == b.css_width
    &&& a.css_height == b.css_height
    &&& a.scale == b.scale
    &&& a.max_height == b.max_height
    &&& a.color_scheme == b.color_scheme
    &&& a.background == b.background
    &&& a.net_timeout_ms == b.net_timeout_ms
    &&& a.user_agent@ == b.user_agent@
    &&& a.enable_net == b.enable_net
    &&& a.fit_content_height == b.fit_content_height
}

/// Giving no options is giving the default ones.
pub proof fn law_no_options_are_the_default_ones(
    default: BlitzRenderOptions,
    none: Result<ResolvedOptions, Failure>,
    given: Result<ResolvedOptions, Failure>,
)
    requires
        call_ensures(blitz_render_options_default, (), default),
        call_ensures(ResolvedOptions::from_raw, (None,), none),
        call_ensures(ResolvedOptions::from_raw, (Some(&default),), given),
    ensures
        none matches Ok(a) && given matches Ok(b) && same_options(a, b),
{
}

/// The default options ask for what zero stands for, with networking and fitting on and
/// a white backdrop.
pub proof fn law_default_options(default: BlitzRenderOptions)
    requires
        call_ensures(blitz_render_options_default, (), default),
    ensures
        default.width == 1200,
        default.height == 800,
        default.scale.bits == 0x3F80_0000,
        default.max_height == 4000,
        default.color_scheme == 0,
        default.background_rgba == 0xFFFF_FFFF,
        default.net_timeout_ms == 10_000,
        default.user_agent is None,
        default.enable_net == 1,
        default.fit_content_height == 1,
        default._reserved@ == seq![0u8, 0u8],
{
}

} // verus!

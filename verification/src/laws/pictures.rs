//! Laws of a render: the size of its picture, and its course.

use vstd::arithmetic::mul::*;
use vstd::arithmetic::power2::*;
use vstd::prelude::*;
use vstd::string::*;

use crate::binary::{scale_size, Binary32};
use crate::image::BlitzImage;
use crate::laws::{jobs, sizes};
use crate::options::ResolvedOptions;
use crate::render::{
    clip_height, fit_height, image_from_buffer, paint_plan, viewport, CssHeight, PaintPlan,
    RenderAction, RenderEvent, RenderMachine, RenderPhase, Viewport,
};
use crate::status::Failure;
use crate::text;

verus! {

/// At least one pixel.
pub open spec fn or_one(n: int) -> int {
    if n == 0 {
        1
    } else {
        n
    }
}

/// The lesser of two numbers.
pub open spec fn lesser(a: u32, b: u32) -> u32 {
    if a <= b {
        a
    } else {
        b
    }
}

/// The number with these bits is greater than the whole number `n`.
pub open spec fn above(bits: u32, n: nat) -> bool {
    ||| bits == 0x7F80_0000
    ||| sizes::is_positive(bits) && if sizes::binade(bits) >= 0 {
        sizes::mantissa(bits) * pow2(sizes::binade(bits) as nat) > n
    } else {
        sizes::mantissa(bits) > n * pow2((-sizes::binade(bits)) as nat)
    }
}

proof fn lemma_above(b: Binary32, n: nat)
    ensures
        b.exceeds(n) <==> above(b.bits, n),
{
    if b.bits == 0 {
        lemma_mul_basics_1(pow2(149) as int);
    }
}

/// What is greater than a number is greater than every smaller one.
proof fn lemma_above_smaller(bits: u32, n: nat, smaller: nat)
    requires
        above(bits, n),
        smaller <= n,
    ensures
        above(bits, smaller),
{
    if sizes::is_positive(bits) && sizes::binade(bits) < 0 {
        lemma_mul_inequality(
            smaller as int,
            n as int,
            pow2((-sizes::binade(bits)) as nat) as int,
        );
    }
}

/// A number is greater than another exactly where its value is.
pub proof fn law_comparisons_go_by_value(b: Binary32, n: u32, greater: bool, at_most_zero: bool)
    requires
        call_ensures(Binary32::is_greater_than, (b, n), greater),
        call_ensures(Binary32::is_at_most_zero, (b,), at_most_zero),
    ensures
        greater <==> above(b.bits, n as nat),
        at_most_zero <==> b.bits == 0 || 0x8000_0000 <= b.bits <= 0xFF80_0000,
{
    lemma_above(b, n as nat);
}

/// The viewport and the picture have the CSS size times the scale, in width as in height,
/// and the viewport is handed the very scale and colour scheme of the options.
pub proof fn law_both_sides_take_the_scale(
    options: &ResolvedOptions,
    content: Binary32,
    v: Viewport,
    plan: PaintPlan,
    width: u32,
    height: u32,
)
    requires
        call_ensures(viewport, (options,), v),
        call_ensures(paint_plan, (options, content), plan),
        call_ensures(scale_size, (options.css_width, 0i32, options.scale), width),
        call_ensures(scale_size, (options.css_height, 0i32, options.scale), height),
    ensures
        v.width == width,
        v.height == height,
        v.scale.bits == options.scale.bits,
        v.color_scheme == options.color_scheme,
        plan.width == or_one(width as int),
        plan.scale.bits == options.scale.bits,
        plan.background == options.background,
{
}

/// The width of the viewport and of the picture is the CSS width times the scale, without
/// its fraction, up to the largest `u32`; a picture has at least one pixel.
pub proof fn law_width_is_css_width_times_scale(
    options: &ResolvedOptions,
    content: Binary32,
    v: Viewport,
    plan: PaintPlan,
)
    requires
        call_ensures(viewport, (options,), v),
        call_ensures(paint_plan, (options, content), plan),
        sizes::is_positive(options.scale.bits),
        options.css_width * sizes::mantissa(options.scale.bits) < 0x20_0000_0000_0000,
    ensures
        sizes::is_floor(
            v.width,
            (options.css_width * sizes::mantissa(options.scale.bits)) as nat,
            sizes::binade(options.scale.bits),
        ),
        plan.width == or_one(v.width as int),
{
    sizes::law_scaling_of(options.css_width, 0, options.scale);
}

/// The height of the viewport is the CSS height times the scale, without its fraction, up
/// to the largest `u32`.
pub proof fn law_viewport_height_is_css_height_times_scale(options: &ResolvedOptions, v: Viewport)
    requires
        call_ensures(viewport, (options,), v),
        sizes::is_positive(options.scale.bits),
        options.css_height * sizes::mantissa(options.scale.bits) < 0x20_0000_0000_0000,
    ensures
        sizes::is_floor(
            v.height,
            (options.css_height * sizes::mantissa(options.scale.bits)) as nat,
            sizes::binade(options.scale.bits),
        ),
{
    sizes::law_scaling_of(options.css_height, 0, options.scale);
}

/// With a whole scale the viewport and the width of the picture are exact multiples of
/// the CSS size, up to the largest `u32`.
pub proof fn law_whole_scales_give_exact_multiples(
    options: &ResolvedOptions,
    content: Binary32,
    v: Viewport,
    plan: PaintPlan,
    k: nat,
)
    requires
        call_ensures(viewport, (options,), v),
        call_ensures(paint_plan, (options, content), plan),
        sizes::is_whole(options.scale.bits, k),
    ensures
        v.width == sizes::capped(options.css_width * k),
        v.height == sizes::capped(options.css_height * k),
        plan.width == or_one(sizes::capped(options.css_width * k)),
{
    sizes::law_whole_scaling_of(options.css_width, options.scale, k);
    sizes::law_whole_scaling_of(options.css_height, options.scale, k);
}

/// Without fitting, the picture is as tall as the CSS height, and never taller than the
/// cap, whatever the content measures.
pub proof fn law_clipped_height(
    options: &ResolvedOptions,
    content: Binary32,
    plan: PaintPlan,
    height: u32,
)
    requires
        call_ensures(paint_plan, (options, content), plan),
        !options.fit_content_height,
        call_ensures(
            scale_size,
            (lesser(options.css_height, options.max_height), 0i32, options.scale),
            height,
        ),
    ensures
        plan.height == or_one(height as int),
{
}

/// With fitting, content that is no taller than the CSS height, or has no height that
/// could be measured, leaves the picture as tall as the CSS height, within the cap.
pub proof fn law_short_content_keeps_the_height(
    options: &ResolvedOptions,
    content: Binary32,
    plan: PaintPlan,
    height: u32,
)
    requires
        call_ensures(paint_plan, (options, content), plan),
        options.fit_content_height,
        !above(content.bits, options.css_height as nat),
        call_ensures(
            scale_size,
            (lesser(options.css_height, options.max_height), 0i32, options.scale),
            height,
        ),
    ensures
        plan.height == or_one(height as int),
{
    lemma_above(content, options.css_height as nat);
}

/// With fitting, content that is taller than the cap makes the picture as tall as the cap.
pub proof fn law_tall_content_is_capped(
    options: &ResolvedOptions,
    content: Binary32,
    plan: PaintPlan,
    height: u32,
)
    requires
        call_ensures(paint_plan, (options, content), plan),
        options.fit_content_height,
        above(content.bits, options.max_height as nat),
        call_ensures(scale_size, (options.max_height, 0i32, options.scale), height),
    ensures
        plan.height == or_one(height as int),
{
    lemma_above(content, options.css_height as nat);
    lemma_above(content, options.max_height as nat);
    if options.css_height <= options.max_height {
        lemma_above_smaller(
            content.bits,
            options.max_height as nat,
            options.css_height as nat,
        );
    }
}

/// With fitting, content between the CSS height and the cap makes the picture as tall as
/// the content times the scale, without its fraction, up to the largest `u32`.
pub proof fn law_picture_grows_with_its_content(
    options: &ResolvedOptions,
    content: Binary32,
    plan: PaintPlan,
)
    requires
        call_ensures(paint_plan, (options, content), plan),
        options.fit_content_height,
        above(content.bits, options.css_height as nat),
        !above(content.bits, options.max_height as nat),
        sizes::is_positive(options.scale.bits),
    ensures
        exists|height: u32|
            plan.height == or_one(height as int) && #[trigger] sizes::is_floor(
                height,
                sizes::mantissa(content.bits) * sizes::mantissa(options.scale.bits),
                sizes::binade(content.bits) + sizes::binade(options.scale.bits),
            ),
{
    lemma_above(content, options.css_height as nat);
    lemma_above(content, options.max_height as nat);
    let m = sizes::mantissa(content.bits);
    let s = sizes::mantissa(options.scale.bits);
    assert(m * s < 0x20_0000_0000_0000) by (nonlinear_arith)
        requires
            0 <= m < 0x100_0000,
            0 <= s < 0x100_0000,
    ;
    sizes::law_scaling_of(m as u32, sizes::binade(content.bits) as i32, options.scale);
}

/// The height that content is fitted into, and the one that a picture is clipped to.
pub proof fn law_heights_are_one_of_three(
    content: Binary32,
    css_height: u32,
    max_height: u32,
    fitted: CssHeight,
    clipped: CssHeight,
)
    requires
        call_ensures(fit_height, (content, css_height, max_height), fitted),
        call_ensures(clip_height, (css_height, max_height), clipped),
    ensures
        clipped.significand == lesser(css_height, max_height) && clipped.exponent == 0,
        !above(content.bits, css_height as nat) ==> fitted == clipped,
        above(content.bits, max_height as nat) ==> fitted.significand == max_height
            && fitted.exponent == 0,
        above(content.bits, css_height as nat) && !above(content.bits, max_height as nat) ==> (
        fitted.significand == sizes::mantissa(content.bits) && fitted.exponent == sizes::binade(
            content.bits,
        )),
{
    lemma_above(content, css_height as nat);
    lemma_above(content, max_height as nat);
    if above(content.bits, max_height as nat) && css_height <= max_height {
        lemma_above_smaller(content.bits, max_height as nat, css_height as nat);
    }
}

/// The image is the painted buffer itself, with the size of its plan and four bytes to a
/// pixel; a buffer is refused exactly where it is too short for that.
pub proof fn law_image_is_the_painted_buffer(
    plan: PaintPlan,
    buffer: Vec<u8>,
    r: Result<BlitzImage, Failure>,
)
    requires
        call_ensures(image_from_buffer, (plan, buffer), r),
    ensures
        r is Ok <==> buffer@.len() >= plan.width * plan.height * 4,
        r matches Ok(i) ==> (i.data matches Some(d) && d@ == buffer@) && i.width == plan.width
            && i.height == plan.height && i.stride == 4 * plan.width,
        r matches Err(f) ==> jobs::says(
            f,
            -6,
            "renderer produced "@ + text::decimal(buffer@.len()) + " bytes, expected "@
                + text::decimal((plan.width * plan.height * 4) as nat),
        ),
{
}

/// Settling does not stop early: while something is pending and fewer milliseconds than
/// the timeout have passed since the document was loaded, the next thing is to wait.
pub proof fn law_settling_does_not_stop_early(
    machine: &mut RenderMachine,
    elapsed_nanos: u128,
    action: RenderAction,
)
    requires
        old(machine).phase == RenderPhase::Settling,
        old(machine).options.enable_net,
        elapsed_nanos as nat / 1_000_000 < old(machine).options.net_timeout_ms,
        call_ensures(
            RenderMachine::step,
            (machine, RenderEvent::Resolved { pending: true, elapsed_nanos }),
            action,
        ),
    ensures
        action matches RenderAction::Wait { millis } && millis == 1,
        final(machine).phase == RenderPhase::Waiting,
        final(machine).options == old(machine).options,
{
}

/// Settling stops, and the document is measured, as soon as nothing is pending, the
/// timeout is over, or there is no networking.
pub proof fn law_settling_stops_in_time(
    machine: &mut RenderMachine,
    pending: bool,
    elapsed_nanos: u128,
    action: RenderAction,
)
    requires
        old(machine).phase == RenderPhase::Settling,
        !pending || !old(machine).options.enable_net || elapsed_nanos as nat / 1_000_000
            >= old(machine).options.net_timeout_ms,
        call_ensures(
            RenderMachine::step,
            (machine, RenderEvent::Resolved { pending, elapsed_nanos }),
            action,
        ),
    ensures
        action is Measure,
        final(machine).phase == RenderPhase::Measuring,
        final(machine).options == old(machine).options,
{
}

/// After each wait the document is resolved again, and so it is once it is loaded.
pub proof fn law_waiting_leads_back_to_resolving(
    machine: &mut RenderMachine,
    event: RenderEvent,
    action: RenderAction,
)
    requires
        old(machine).phase == RenderPhase::Waiting && event is Waited || old(machine).phase
            == RenderPhase::Loading && event is Loaded,
        call_ensures(RenderMachine::step, (machine, event), action),
    ensures
        action is Resolve,
        final(machine).phase == RenderPhase::Settling,
        final(machine).options == old(machine).options,
{
}

/// A machine takes in what answers its last action, and nothing else. A picture is taken in
/// where its stride fits a `u32`, or its buffer is too short for a size that a `u64` holds.
pub proof fn law_renders_take_in_only_answers(
    machine: &RenderMachine,
    event: &RenderEvent,
    r: bool,
)
    requires
        call_ensures(RenderMachine::is_expected, (machine, event), r),
    ensures
        event is Connected ==> (r <==> machine.phase == RenderPhase::Connecting),
        event is Loaded ==> (r <==> machine.phase == RenderPhase::Loading),
        event is Resolved ==> (r <==> machine.phase == RenderPhase::Settling),
        event is Waited ==> (r <==> machine.phase == RenderPhase::Waiting),
        event is Measured ==> (r <==> machine.phase == RenderPhase::Measuring),
        event matches RenderEvent::Painted(buffer) ==> (r <==> (
        machine.phase matches RenderPhase::Painting(plan) && (plan.width < 0x4000_0000
            || buffer@.len() < plan.width * plan.height * 4 < 0x1_0000_0000_0000_0000))),
{
}

/// A buffer can be judged on the same grounds.
pub proof fn law_buffers_are_judged_by_size(plan: &PaintPlan, len: usize, r: bool)
    requires
        call_ensures(PaintPlan::judges, (plan, len), r),
    ensures
        r <==> plan.width < 0x4000_0000 || len < plan.width * plan.height * 4
            < 0x1_0000_0000_0000_0000,
{
}

/// With networking a render starts by setting up a provider with the timeout and the user
/// agent of the options; without, it loads the document at once. The options are kept.
pub proof fn law_renders_start_by_their_options(
    options: ResolvedOptions,
    r: (RenderMachine, RenderAction),
    v: Viewport,
)
    requires
        call_ensures(RenderMachine::start, (options,), r),
        call_ensures(viewport, (&options,), v),
    ensures
        r.0.options == options,
        options.enable_net ==> r.0.phase == RenderPhase::Connecting && (
        r.1 matches RenderAction::Connect { timeout_ms, user_agent } && timeout_ms
            == options.net_timeout_ms && user_agent@ == options.user_agent@),
        !options.enable_net ==> r.0.phase == RenderPhase::Loading && r.1 == RenderAction::Load(v),
{
}

/// A provider that was set up leads to loading the document into the viewport of the
/// options; one that was not ends the render with the reason.
pub proof fn law_documents_load_once_connected(
    machine: &mut RenderMachine,
    connected: Result<(), String>,
    action: RenderAction,
    v: Viewport,
)
    requires
        old(machine).phase == RenderPhase::Connecting,
        call_ensures(viewport, (&old(machine).options,), v),
        call_ensures(RenderMachine::step, (machine, RenderEvent::Connected(connected)), action),
    ensures
        connected is Ok ==> action == RenderAction::Load(v) && final(machine).phase
            == RenderPhase::Loading,
        connected matches Err(e) ==> final(machine).phase == RenderPhase::Finished && (
        action matches RenderAction::Finish(Err(f)) && jobs::says(f, -4, "http client: "@ + e@)),
        final(machine).options == old(machine).options,
{
}

/// Once measured, what is painted is the plan of the options for that height; once
/// painted, the render ends with what the buffer comes to for that plan.
pub proof fn law_what_is_measured_is_painted(
    machine: &mut RenderMachine,
    content_height: Binary32,
    action: RenderAction,
    plan: PaintPlan,
)
    requires
        old(machine).phase == RenderPhase::Measuring,
        call_ensures(paint_plan, (&old(machine).options, content_height), plan),
        call_ensures(
            RenderMachine::step,
            (machine, RenderEvent::Measured { content_height }),
            action,
        ),
    ensures
        action == RenderAction::Paint(plan),
        final(machine).phase == RenderPhase::Painting(plan),
        final(machine).options == old(machine).options,
{
}

/// The render ends with the painted buffer as its image, or with its refusal.
pub proof fn law_what_is_painted_is_the_result(
    machine: &mut RenderMachine,
    plan: PaintPlan,
    buffer: Vec<u8>,
    action: RenderAction,
)
    requires
        old(machine).phase == RenderPhase::Painting(plan),
        call_ensures(RenderMachine::step, (machine, RenderEvent::Painted(buffer)), action),
    ensures
        final(machine).phase == RenderPhase::Finished,
        action matches RenderAction::Finish(r) && (r is Ok <==> buffer@.len() >= plan.width
            * plan.height * 4),
        action matches RenderAction::Finish(Ok(i)) ==> (i.data matches Some(d) && d@ == buffer@)
            && i.width == plan.width && i.height == plan.height && i.stride == 4 * plan.width,
        action matches RenderAction::Finish(Err(f)) ==> jobs::says(
            f,
            -6,
            "renderer produced "@ + text::decimal(buffer@.len()) + " bytes, expected "@
                + text::decimal((plan.width * plan.height * 4) as nat),
        ),
{
}

} // verus!

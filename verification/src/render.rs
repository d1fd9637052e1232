//! The course of a render: from the options, through the settling of
//! sub-resources, to the size of the picture and the finished image.

use vstd::arithmetic::mul::*;
use vstd::arithmetic::power2::*;
use vstd::prelude::*;
use vstd::string::*;

use crate::binary;
use crate::binary::Binary32;
use crate::image;
use crate::image::BlitzImage;
use crate::options::{ColorScheme, ResolvedModel, ResolvedOptions, Rgba8};
use crate::scaling;
use crate::status::{Failure, BLITZ_ERR_NETWORK, BLITZ_ERR_RENDER};
use crate::text;

verus! {

/// The viewport that a document is laid out in, in physical pixels.
#[derive(Clone, Copy, Debug, PartialEq, Eq, Structural)]
pub struct Viewport {
    pub width: u32,
    pub height: u32,
    pub scale: Binary32,
    pub color_scheme: ColorScheme,
}

/// What is to be painted.
#[derive(Clone, Copy, Debug, PartialEq, Eq, Structural)]
pub struct PaintPlan {
    /// Width of the picture in physical pixels.
    pub width: u32,
    /// Height of the picture in physical pixels.
    pub height: u32,
    /// What the whole picture is filled with before the document is painted.
    pub background: Option<Rgba8>,
    pub scale: Binary32,
}

/// A height in CSS pixels, `significand * 2^exponent`.
#[derive(Clone, Copy, Debug, PartialEq, Eq, Structural)]
pub struct CssHeight {
    pub significand: u32,
    pub exponent: i32,
}

/// The whole number `n`.
pub open spec fn whole(n: u32) -> CssHeight {
    CssHeight { significand: n, exponent: 0 }
}

/// The height that a render grows to: that of the content, at least `css_height`,
/// and never more than `max_height`. Content of no measurable height counts as none.
pub open spec fn fitted(content: Binary32, css_height: u32, max_height: u32) -> CssHeight {
    if content.exceeds(css_height as nat) {
        if content.exceeds(max_height as nat) {
            whole(max_height)
        } else {
            CssHeight {
                significand: content.significand() as u32,
                exponent: content.exponent() as i32,
            }
        }
    } else {
        clipped(css_height, max_height)
    }
}

/// The height that a render is clipped to: `css_height`, and never more than
/// `max_height`.
pub open spec fn clipped(css_height: u32, max_height: u32) -> CssHeight {
    if css_height <= max_height {
        whole(css_height)
    } else {
        whole(max_height)
    }
}

/// The height of a render in CSS pixels.
pub open spec fn css_height(o: ResolvedModel, content: Binary32) -> CssHeight {
    if o.fit_content_height {
        fitted(content, o.css_height, o.max_height)
    } else {
        clipped(o.css_height, o.max_height)
    }
}

/// At least one.
pub open spec fn at_least_one(n: nat) -> u32 {
    if n == 0 {
        1
    } else {
        n as u32
    }
}

/// The viewport that the options ask for.
pub open spec fn viewport_of(o: ResolvedModel) -> Viewport {
    Viewport {
        width: binary::scaled(o.css_width as nat, 0, o.scale) as u32,
        height: binary::scaled(o.css_height as nat, 0, o.scale) as u32,
        scale: o.scale,
        color_scheme: o.color_scheme,
    }
}

/// What is painted once the content has its height.
pub open spec fn plan_of(o: ResolvedModel, content: Binary32) -> PaintPlan {
    let h = css_height(o, content);
    PaintPlan {
        width: at_least_one(binary::scaled(o.css_width as nat, 0, o.scale)),
        height: at_least_one(binary::scaled(h.significand as nat, h.exponent as int, o.scale)),
        background: o.background,
        scale: o.scale,
    }
}

/// Whether to go on waiting for sub-resources: some are still in flight, and the
/// time allowed for them, counted in nanoseconds since the document was loaded, is
/// not over.
pub open spec fn keeps_waiting(o: ResolvedModel, pending: bool, elapsed_nanos: nat) -> bool {
    o.enable_net && pending && elapsed_nanos < o.net_timeout_ms * 1_000_000
}

/// The viewport that the options ask for.
pub fn viewport(options: &ResolvedOptions) -> (v: Viewport)
    ensures
        v == viewport_of(options@),
{
    Viewport {
        width: binary::scale_size(options.css_width, 0, options.scale),
        height: binary::scale_size(options.css_height, 0, options.scale),
        scale: options.scale,
        color_scheme: options.color_scheme,
    }
}

/// The height that a render grows to.
pub fn fit_height(content: Binary32, css_height: u32, max_height: u32) -> (h: CssHeight)
    ensures
        h == fitted(content, css_height, max_height),
        -149 <= h.exponent <= 105,
{
    if content.is_greater_than(css_height) {
        if content.is_greater_than(max_height) {
            CssHeight { significand: max_height, exponent: 0 }
        } else {
            let (significand, exponent) = content.magnitude();
            CssHeight { significand, exponent }
        }
    } else {
        clip_height(css_height, max_height)
    }
}

/// The height that a render is clipped to.
pub fn clip_height(css_height: u32, max_height: u32) -> (h: CssHeight)
    ensures
        h == clipped(css_height, max_height),
{
    if css_height <= max_height {
        CssHeight { significand: css_height, exponent: 0 }
    } else {
        CssHeight { significand: max_height, exponent: 0 }
    }
}

/// What to paint once the content has its height.
pub fn paint_plan(options: &ResolvedOptions, content: Binary32) -> (p: PaintPlan)
    ensures
        p == plan_of(options@, content),
        p.width >= 1,
        p.height >= 1,
{
    let h = if options.fit_content_height {
        fit_height(content, options.css_height, options.max_height)
    } else {
        clip_height(options.css_height, options.max_height)
    };
    let width = binary::scale_size(options.css_width, 0, options.scale);
    let height = binary::scale_size(h.significand, h.exponent, options.scale);
    PaintPlan {
        width: if width == 0 {
            1
        } else {
            width
        },
        height: if height == 0 {
            1
        } else {
            height
        },
        background: options.background,
        scale: options.scale,
    }
}

impl PaintPlan {
    /// The stride of the picture fits its field.
    pub open spec fn stride_fits(self) -> bool {
        self.width * 4 <= u32::MAX
    }

    /// A painted buffer of this length can be judged: its picture is one whose stride
    /// fits, or it is too short for a picture whose size in bytes can be counted.
    pub open spec fn can_judge(self, len: nat) -> bool {
        let expected = image::pixel_bytes(self.width as nat, self.height as nat);
        self.stride_fits() || len < expected <= u64::MAX
    }

    /// How many bytes the pixels of the picture take.
    fn expected_bytes(&self) -> (n: u128)
        ensures
            n == image::pixel_bytes(self.width as nat, self.height as nat),
    {
        assert(0 <= self.width * self.height <= 0xFFFF_FFFF * 0xFFFF_FFFF) by (nonlinear_arith)
            requires
                0 <= self.width <= 0xFFFF_FFFF,
                0 <= self.height <= 0xFFFF_FFFF,
        ;
        let pixels: u64 = self.width as u64 * self.height as u64;
        pixels as u128 * 4
    }

    /// Whether a painted buffer of this length can be judged.
    pub fn judges(&self, len: usize) -> (r: bool)
        ensures
            r == self.can_judge(len as nat),
    {
        let expected = self.expected_bytes();
        self.width <= 0x3FFF_FFFF || ((len as u128) < expected && expected <= u64::MAX as u128)
    }
}

/// The message of a picture that is too short.
pub open spec fn short_buffer_message(got: nat, expected: nat) -> Seq<char> {
    "renderer produced "@ + text::decimal(got) + " bytes, expected "@ + text::decimal(expected)
}

/// The image that the painted buffer is. A buffer too short for the picture is
/// refused.
pub fn image_from_buffer(plan: PaintPlan, buffer: Vec<u8>) -> (r: Result<BlitzImage, Failure>)
    requires
        plan.can_judge(buffer@.len()),
    ensures
        match r {
            Ok(i) => {
                &&& buffer@.len() >= image::pixel_bytes(plan.width as nat, plan.height as nat)
                &&& i@.data == Some(buffer@)
                &&& i@.width == plan.width
                &&& i@.height == plan.height
                &&& i@.stride == plan.width * 4
            },
            Err(f) => {
                &&& buffer@.len() < image::pixel_bytes(plan.width as nat, plan.height as nat)
                &&& f@ == (
                    BLITZ_ERR_RENDER,
                    short_buffer_message(
                        buffer@.len(),
                        image::pixel_bytes(plan.width as nat, plan.height as nat),
                    ),
                )
            },
        },
{
    proof {
        if plan.stride_fits() {
            assert(plan.width * plan.height <= 0x3FFF_FFFF * 0xFFFF_FFFF) by (nonlinear_arith)
                requires
                    0 <= plan.width <= 0x3FFF_FFFF,
                    0 <= plan.height <= 0xFFFF_FFFF,
            ;
        }
    }
    let expected: u64 = plan.expected_bytes() as u64;
    let got: u64 = buffer.len() as u64;
    if got < expected {
        let mut message = "renderer produced ".to_owned();
        text::push_decimal(&mut message, got);
        message.append(" bytes, expected ");
        text::push_decimal(&mut message, expected);
        return Err(Failure { code: BLITZ_ERR_RENDER, message });
    }
    Ok(
        BlitzImage {
            data: Some(buffer),
            width: plan.width,
            height: plan.height,
            stride: plan.width * 4,
        },
    )
}

/// What a render is waiting for.
#[derive(Clone, Copy, Debug, PartialEq, Eq, Structural)]
pub enum RenderPhase {
    /// The network provider is being set up.
    Connecting,
    /// The document is being loaded.
    Loading,
    /// The document is being resolved while sub-resources arrive.
    Settling,
    /// Sub-resources are given a moment to arrive.
    Waiting,
    /// The last layout pass is under way.
    Measuring,
    /// The picture is being painted.
    Painting(PaintPlan),
    /// The render is over.
    Finished,
}

/// What the caller does next.
pub enum RenderAction {
    /// Set up the network provider; requests carry this user agent and give up
    /// after so many milliseconds.
    Connect { timeout_ms: u64, user_agent: String },
    /// Load the document into this viewport.
    Load(Viewport),
    /// Resolve the document.
    Resolve,
    /// Sleep for so many milliseconds.
    Wait { millis: u64 },
    /// Resolve the document once more and measure its root element.
    Measure,
    /// Paint the document.
    Paint(PaintPlan),
    /// Hand this result over.
    Finish(Result<BlitzImage, Failure>),
}

/// What came of an action.
pub enum RenderEvent {
    /// The network provider is set up, or could not be.
    Connected(Result<(), String>),
    /// The document is loaded.
    Loaded,
    /// The document is resolved; whether sub-resources are still in flight, and how
    /// long ago the document was loaded.
    Resolved { pending: bool, elapsed_nanos: u128 },
    /// The sleep is over.
    Waited,
    /// The root element has this height in CSS pixels.
    Measured { content_height: Binary32 },
    /// The picture is painted.
    Painted(Vec<u8>),
}

/// One render under way.
pub struct RenderMachine {
    pub options: ResolvedOptions,
    pub phase: RenderPhase,
}

impl RenderMachine {
    /// The event answers the action that the machine asked for last. A picture is
    /// taken only where its length can be judged.
    pub open spec fn expects(self, event: RenderEvent) -> bool {
        match (self.phase, event) {
            (RenderPhase::Connecting, RenderEvent::Connected(_)) => true,
            (RenderPhase::Loading, RenderEvent::Loaded) => true,
            (RenderPhase::Settling, RenderEvent::Resolved { .. }) => true,
            (RenderPhase::Waiting, RenderEvent::Waited) => true,
            (RenderPhase::Measuring, RenderEvent::Measured { .. }) => true,
            (RenderPhase::Painting(plan), RenderEvent::Painted(buffer)) => plan.can_judge(
                buffer@.len(),
            ),
            _ => false,
        }
    }

    /// A picture that is being painted has at least one pixel.
    pub open spec fn well_formed(self) -> bool {
        self.phase matches RenderPhase::Painting(plan) ==> plan.width >= 1 && plan.height >= 1
    }

    /// Whether the event answers the action that the machine asked for last.
    pub fn is_expected(&self, event: &RenderEvent) -> (r: bool)
        ensures
            r == self.expects(*event),
    {
        match (self.phase, event) {
            (RenderPhase::Connecting, RenderEvent::Connected(_)) => true,
            (RenderPhase::Loading, RenderEvent::Loaded) => true,
            (RenderPhase::Settling, RenderEvent::Resolved { .. }) => true,
            (RenderPhase::Waiting, RenderEvent::Waited) => true,
            (RenderPhase::Measuring, RenderEvent::Measured { .. }) => true,
            (RenderPhase::Painting(plan), RenderEvent::Painted(buffer)) => plan.judges(
                buffer.len(),
            ),
            _ => false,
        }
    }

    /// Starts a render. Without networking there is no provider to set up.
    pub fn start(options: ResolvedOptions) -> (r: (RenderMachine, RenderAction))
        ensures
            r.0.options == options,
            r.0.well_formed(),
            if options.enable_net {
                &&& r.0.phase == RenderPhase::Connecting
                &&& r.1 matches RenderAction::Connect { timeout_ms, user_agent } && timeout_ms
                    == options.net_timeout_ms && user_agent@ == options.user_agent@
            } else {
                &&& r.0.phase == RenderPhase::Loading
                &&& r.1 == RenderAction::Load(viewport_of(options@))
            },
    {
        if options.enable_net {
            let action = RenderAction::Connect {
                timeout_ms: options.net_timeout_ms,
                user_agent: options.user_agent.clone(),
            };
            (RenderMachine { options, phase: RenderPhase::Connecting }, action)
        } else {
            let action = RenderAction::Load(viewport(&options));
            (RenderMachine { options, phase: RenderPhase::Loading }, action)
        }
    }

    /// Takes in what came of the last action and says what to do next.
    pub fn step(&mut self, event: RenderEvent) -> (action: RenderAction)
        requires
            old(self).expects(event),
        ensures
            final(self).options == old(self).options,
            old(self).well_formed() ==> final(self).well_formed(),
            old(self).well_formed() ==> (action matches RenderAction::Finish(Ok(i))
                ==> i@.rendered()),
            match (old(self).phase, event) {
                (RenderPhase::Connecting, RenderEvent::Connected(Err(e))) => {
                    &&& final(self).phase == RenderPhase::Finished
                    &&& action matches RenderAction::Finish(Err(f)) && f@ == (
                        BLITZ_ERR_NETWORK,
                        "http client: "@ + e@,
                    )
                },
                (RenderPhase::Connecting, _) => {
                    &&& final(self).phase == RenderPhase::Loading
                    &&& action == RenderAction::Load(viewport_of(old(self).options@))
                },
                (RenderPhase::Loading, _) => {
                    &&& final(self).phase == RenderPhase::Settling
                    &&& action == RenderAction::Resolve
                },
                (RenderPhase::Settling, RenderEvent::Resolved { pending, elapsed_nanos }) => {
                    if keeps_waiting(old(self).options@, pending, elapsed_nanos as nat) {
                        &&& final(self).phase == RenderPhase::Waiting
                        &&& action == (RenderAction::Wait { millis: 1 })
                    } else {
                        &&& final(self).phase == RenderPhase::Measuring
                        &&& action == RenderAction::Measure
                    }
                },
                (RenderPhase::Waiting, _) => {
                    &&& final(self).phase == RenderPhase::Settling
                    &&& action == RenderAction::Resolve
                },
                (RenderPhase::Measuring, RenderEvent::Measured { content_height }) => {
                    let plan = plan_of(old(self).options@, content_height);
                    &&& final(self).phase == RenderPhase::Painting(plan)
                    &&& action == RenderAction::Paint(plan)
                },
                (RenderPhase::Painting(plan), RenderEvent::Painted(buffer)) => {
                    let expected = image::pixel_bytes(plan.width as nat, plan.height as nat);
                    &&& final(self).phase == RenderPhase::Finished
                    &&& action matches RenderAction::Finish(r) && match r {
                        Ok(i) => {
                            &&& buffer@.len() >= expected
                            &&& i@ == (image::ImageModel {
                                data: Some(buffer@),
                                width: plan.width as nat,
                                height: plan.height as nat,
                                stride: (plan.width * 4) as nat,
                            })
                        },
                        Err(f) => {
                            &&& buffer@.len() < expected
                            &&& f@ == (
                                BLITZ_ERR_RENDER,
                                short_buffer_message(buffer@.len(), expected),
                            )
                        },
                    }
                },
                _ => false,
            },
    {
        match (self.phase, event) {
            (RenderPhase::Connecting, RenderEvent::Connected(Err(e))) => {
                self.phase = RenderPhase::Finished;
                RenderAction::Finish(
                    Err(Failure::of_two(BLITZ_ERR_NETWORK, "http client: ", e.as_str())),
                )
            },
            (RenderPhase::Connecting, _) => {
                self.phase = RenderPhase::Loading;
                RenderAction::Load(viewport(&self.options))
            },
            (RenderPhase::Loading, _) => {
                self.phase = RenderPhase::Settling;
                RenderAction::Resolve
            },
            (RenderPhase::Settling, RenderEvent::Resolved { pending, elapsed_nanos }) => {
                let allowed: u128 = self.options.net_timeout_ms as u128 * 1_000_000;
                if self.options.enable_net && pending && elapsed_nanos < allowed {
                    self.phase = RenderPhase::Waiting;
                    RenderAction::Wait { millis: 1 }
                } else {
                    self.phase = RenderPhase::Measuring;
                    RenderAction::Measure
                }
            },
            (RenderPhase::Waiting, _) => {
                self.phase = RenderPhase::Settling;
                RenderAction::Resolve
            },
            (RenderPhase::Measuring, RenderEvent::Measured { content_height }) => {
                let plan = paint_plan(&self.options, content_height);
                self.phase = RenderPhase::Painting(plan);
                RenderAction::Paint(plan)
            },
            (RenderPhase::Painting(plan), RenderEvent::Painted(buffer)) => {
                self.phase = RenderPhase::Finished;
                RenderAction::Finish(image_from_buffer(plan, buffer))
            },
            (_, _) => {
                assert(false);
                RenderAction::Resolve
            },
        }
    }
}

/// The height is at most `n` CSS pixels.
pub open spec fn at_most(h: CssHeight, n: u32) -> bool {
    scaling::size_at_most(h.significand as nat, h.exponent as int, n as nat)
}

/// The height is at least `n` CSS pixels.
pub open spec fn at_least(h: CssHeight, n: u32) -> bool {
    if h.exponent >= 0 {
        h.significand * pow2(h.exponent as nat) >= n
    } else {
        h.significand >= n * pow2((-h.exponent) as nat)
    }
}

/// A height that fits its content is never above the cap, and is never below the
/// minimum height unless the cap is.
pub proof fn law_fit_keeps_to_its_bounds(content: Binary32, css_height: u32, max_height: u32)
    ensures
        at_most(fitted(content, css_height, max_height), max_height),
        css_height <= max_height ==> at_least(
            fitted(content, css_height, max_height),
            css_height,
        ),
        css_height > max_height ==> fitted(content, css_height, max_height) == whole(max_height),
{
    lemma2_to64();
    lemma_mul_basics_3(max_height as int);
    lemma_mul_basics_3(css_height as int);
    if content.exceeds(css_height as nat) && css_height > max_height {
        if content.exponent() >= 0 {
        } else if !content.is_infinite() {
            lemma_pow2_pos((-content.exponent()) as nat);
            assert(css_height * pow2((-content.exponent()) as nat) >= max_height * pow2(
                (-content.exponent()) as nat,
            )) by (nonlinear_arith)
                requires
                    css_height > max_height,
                    pow2((-content.exponent()) as nat) > 0,
            ;
        }
    }
}

/// The cap is hard: no picture is taller than the cap is in physical pixels, whether
/// it fits its content or is clipped.
pub proof fn law_picture_height_is_capped(o: ResolvedModel, content: Binary32)
    ensures
        plan_of(o, content).height <= at_least_one(
            binary::scaled(o.max_height as nat, 0, o.scale),
        ),
{
    let h = css_height(o, content);
    law_fit_keeps_to_its_bounds(content, o.css_height, o.max_height);
    lemma2_to64();
    lemma_mul_basics_3(h.significand as int);
    scaling::law_scaling_keeps_order(
        h.significand as nat,
        h.exponent as int,
        o.max_height as nat,
        o.scale,
    );
}

/// A picture that does not fit its content is clipped, whatever the content measures:
/// below the cap it is as tall as the viewport.
pub proof fn law_clipping_ignores_content(o: ResolvedModel, a: Binary32, b: Binary32)
    requires
        !o.fit_content_height,
    ensures
        plan_of(o, a) == plan_of(o, b),
        o.css_height <= o.max_height ==> plan_of(o, a).height == at_least_one(
            viewport_of(o).height as nat,
        ),
{
}

/// A picture is as wide as the viewport, and never without pixels.
pub proof fn law_picture_is_as_wide_as_the_viewport(o: ResolvedModel, content: Binary32)
    ensures
        plan_of(o, content).width == at_least_one(viewport_of(o).width as nat),
        plan_of(o, content).width >= 1,
        plan_of(o, content).height >= 1,
{
}

/// Settling ends. Round `i` observes the document after `i` sleeps of at least a
/// millisecond each, so by the round whose number is the timeout in milliseconds
/// some round has stopped waiting, even if a sub-resource never arrives.
pub proof fn law_settling_ends(o: ResolvedModel, pending: Seq<bool>, elapsed_nanos: Seq<nat>)
    requires
        pending.len() > o.net_timeout_ms,
        elapsed_nanos.len() == pending.len(),
        forall|i: int| 0 <= i < pending.len() ==> #[trigger] elapsed_nanos[i] >= i * 1_000_000,
    ensures
        exists|i: int|
            0 <= i <= o.net_timeout_ms && !keeps_waiting(
                o,
                #[trigger] pending[i],
                elapsed_nanos[i],
            ),
{
    let i = o.net_timeout_ms as int;
    assert(elapsed_nanos[i] >= i * 1_000_000);
    assert(!keeps_waiting(o, pending[i], elapsed_nanos[i]));
}

/// Settling waits for nothing where networking is off or nothing is in flight.
pub proof fn law_nothing_pending_means_no_wait(o: ResolvedModel, pending: bool, elapsed_nanos: nat)
    requires
        !o.enable_net || !pending,
    ensures
        !keeps_waiting(o, pending, elapsed_nanos),
{
}

} // verus!

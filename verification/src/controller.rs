//! The update controller: it owns the current `Size`, turns every slider
//! report into a validated new state, and produces the full render pass —
//! readout text plus redraw plan — that keeps every view consistent with
//! that one value, both at startup and after each change event.

use crate::decimal::{
    all_digits, digits_value, lemma_spec_digits_roundtrip, parse_u32, spec_digits, u32_to_decimal,
};
use crate::render::{covers, draw_plan, plan_matches, DotPlan};
use crate::size::{valid_size, Size, DEFAULT_SIZE};
use vstd::prelude::*;

verus! {

/// The two ways an update can fail.
#[derive(Clone, Copy, PartialEq, Eq, Structural, Debug)]
pub enum UpdateError {
    /// A required element or drawing context could not be obtained while
    /// mounting: the page scaffolding broke its identifier contract. Fatal;
    /// mounting must be aborted rather than partially rendered.
    SetupFailure,
    /// The slider reported text that is not a slider-reachable value. The
    /// browser keeps a range input inside its configured range, so this
    /// marks a broken binding elsewhere and is surfaced, never clamped.
    InvalidInputValue,
}

impl UpdateError {
    /// A short description for surfacing the failure.
    pub fn describe(&self) -> (r: &'static str)
        ensures
            *self is SetupFailure ==> r@ == "a required element or drawing context is missing"@,
            *self is InvalidInputValue ==> r@ == "the slider reported an out-of-contract value"@,
    {
        match self {
            UpdateError::SetupFailure => "a required element or drawing context is missing",
            UpdateError::InvalidInputValue => "the slider reported an out-of-contract value",
        }
    }
}

/// One full render pass: the exact readout text and the exact redraw plan
/// for the current size. Applying it to the page is the host's only job.
#[derive(Debug)]
pub struct RenderPass {
    /// Decimal text the readout element must show.
    pub readout: String,
    /// Geometry the canvas must be redrawn with.
    pub plan: DotPlan,
}

/// What the render pass for size `v` must contain: the canonical decimal
/// text of `v`, and the plan that [`plan_matches`] prescribes for `v`.
pub open spec fn pass_for(p: RenderPass, v: u32) -> bool {
    &&& p.readout@ == spec_digits(v as nat)
    &&& plan_matches(p.plan, v)
}

/// Slider text the controller accepts: nonempty digit text denoting a
/// slider-reachable value.
pub open spec fn slider_text_accepted(t: Seq<char>) -> bool {
    &&& t.len() > 0
    &&& all_digits(t)
    &&& digits_value(t) <= u32::MAX
    &&& valid_size(digits_value(t) as u32)
}

/// The view binder's text for a size: plain decimal, nothing else.
pub fn readout_text(size: Size) -> (r: String)
    requires
        size.wf(),
    ensures
        r@ == spec_digits(size.spec_value() as nat),
{
    u32_to_decimal(size.value())
}

/// Builds the full render pass for a size: readout first, then the plan,
/// in the controller's fixed order.
pub fn render_pass(size: Size) -> (r: RenderPass)
    requires
        size.wf(),
    ensures
        pass_for(r, size.spec_value()),
{
    let readout = readout_text(size);
    let plan = draw_plan(size);
    RenderPass { readout, plan }
}

/// Owner of the one mutable `Size`. A value of this type only exists in
/// the bound state: [`Controller::initialize`] is the sole constructor and
/// already performs the first render pass.
pub struct Controller {
    size: Size,
}

impl Controller {
    /// The size the controller currently holds.
    pub closed spec fn spec_size(&self) -> u32 {
        self.size.spec_value()
    }

    /// Invariant: the held size is always slider-reachable.
    pub open spec fn wf(&self) -> bool {
        valid_size(self.spec_size())
    }

    /// Establishes the starting size and the render pass that must be
    /// applied before any interaction, so the initial page already agrees
    /// with the initial size.
    pub fn initialize() -> (r: (Controller, RenderPass))
        ensures
            r.0.wf(),
            r.0.spec_size() == DEFAULT_SIZE,
            pass_for(r.1, DEFAULT_SIZE),
    {
        let size = Size::start();
        let pass = render_pass(size);
        (Controller { size }, pass)
    }

    /// Reads the current size back out.
    pub fn size_value(&self) -> (r: u32)
        ensures
            r == self.spec_size(),
    {
        self.size.value()
    }

    /// Handles one change event: parses the slider's reported text,
    /// validates it, and on success stores it and returns the render pass
    /// for it. Rejected text leaves the state untouched and is surfaced as
    /// [`UpdateError::InvalidInputValue`], never clamped.
    pub fn on_slider_change(&mut self, text: &str) -> (r: Result<RenderPass, UpdateError>)
        requires
            old(self).wf(),
        ensures
            final(self).wf(),
            r is Ok <==> slider_text_accepted(text@),
            slider_text_accepted(text@) ==> {
                &&& final(self).spec_size() as nat == digits_value(text@)
                &&& pass_for(r->Ok_0, final(self).spec_size())
            },
            !slider_text_accepted(text@) ==> {
                &&& *final(self) == *old(self)
                &&& r is Err
                &&& r->Err_0 == UpdateError::InvalidInputValue
            },
    {
        match parse_u32(text) {
            None => Err(UpdateError::InvalidInputValue),
            Some(v) => match Size::new(v) {
                None => Err(UpdateError::InvalidInputValue),
                Some(size) => {
                    self.size = size;
                    Ok(render_pass(size))
                },
            },
        }
    }
}

/// Range-closure law: every slider-reachable value is accepted throughout:
/// it is a valid `Size` (so the renderer and the view binder take it), and
/// the controller accepts its canonical decimal text.
pub proof fn lemma_range_closure(v: u32)
    requires
        5 <= v <= 100,
        v % 5 == 0,
    ensures
        valid_size(v),
        slider_text_accepted(spec_digits(v as nat)),
{
    lemma_spec_digits_roundtrip(v as nat);
}

/// Idempotence law: any two render passes for the same size are identical —
/// the same readout text, the same plan, and the same covered pixels — so
/// repeating a pass changes nothing visible.
pub proof fn lemma_render_pass_idempotent(v: u32, p1: RenderPass, p2: RenderPass)
    requires
        pass_for(p1, v),
        pass_for(p2, v),
    ensures
        p1.readout@ == p2.readout@,
        p1.plan == p2.plan,
        forall|x: int, y: int| covers(p1.plan, x, y) == covers(p2.plan, x, y),
{
}

/// Readout-sync law: when the slider reports the canonical decimal text of
/// a slider-reachable value, the controller accepts exactly that value, and
/// the readout text it produces equals the reported text character for
/// character.
pub proof fn lemma_readout_sync(t: Seq<char>, v: u32)
    requires
        valid_size(v),
        t == spec_digits(v as nat),
    ensures
        slider_text_accepted(t),
        digits_value(t) == v as nat,
        spec_digits(digits_value(t)) == t,
{
    lemma_spec_digits_roundtrip(v as nat);
}

} // verus!

//! The fixed order in which a frame's passes are submitted, and where the
//! independent occlusion chain is joined back into the main chain.
use vstd::prelude::*;

verus! {

/// The passes recorded each frame.
#[derive(Clone, Copy, Debug, PartialEq, Eq, Structural)]
pub enum PassKind {
    Occlusion,
    DeferredShading,
    DeferredLighting,
    PostProcess,
    Lines,
    Text,
    Overlay,
}

/// The GPU future chain a pass is submitted on.
#[derive(Clone, Copy, Debug, PartialEq, Eq, Structural)]
pub enum Chain {
    Main,
    Offscreen,
}

/// One step of a frame's submission.
#[derive(Clone, Copy, Debug, PartialEq, Eq, Structural)]
pub enum SubmitStep {
    /// Submit the pass's command buffer after the current end of its chain.
    Execute { pass: PassKind },
    /// Join the offscreen chain into the main chain.
    JoinOffscreen,
    /// Present the output image.
    Present,
    /// Wait for the device to finish the frame.
    WaitIdle,
    /// Release resources of finished submissions.
    Cleanup,
}

/// The chain each pass runs on: occlusion is independent of the G-buffer
/// chain and runs beside it.
pub open spec fn chain_of(p: PassKind) -> Chain {
    match p {
        PassKind::Occlusion => Chain::Offscreen,
        _ => Chain::Main,
    }
}

/// `p` reads what `q` writes.
pub open spec fn reads_output_of(p: PassKind, q: PassKind) -> bool {
    match p {
        PassKind::DeferredLighting => q == PassKind::DeferredShading,
        PassKind::PostProcess => q == PassKind::DeferredLighting || q == PassKind::Occlusion,
        PassKind::Lines | PassKind::Text | PassKind::Overlay => q == PassKind::PostProcess,
        _ => false,
    }
}

/// Index of the step that submits `p`.
pub open spec fn step_of(p: PassKind) -> int {
    match p {
        PassKind::Occlusion => 0,
        PassKind::DeferredShading => 1,
        PassKind::DeferredLighting => 2,
        PassKind::PostProcess => 4,
        PassKind::Lines => 5,
        PassKind::Text => 6,
        PassKind::Overlay => 7,
    }
}

/// Index of the step that joins the offscreen chain.
pub open spec fn join_step() -> int {
    3
}

/// Index of the present step.
pub open spec fn present_step() -> int {
    8
}

/// The steps of a frame, in order.
pub open spec fn submission_order_spec(post_present_wait: bool) -> Seq<SubmitStep> {
    seq![
        SubmitStep::Execute { pass: PassKind::Occlusion },
        SubmitStep::Execute { pass: PassKind::DeferredShading },
        SubmitStep::Execute { pass: PassKind::DeferredLighting },
        SubmitStep::JoinOffscreen,
        SubmitStep::Execute { pass: PassKind::PostProcess },
        SubmitStep::Execute { pass: PassKind::Lines },
        SubmitStep::Execute { pass: PassKind::Text },
        SubmitStep::Execute { pass: PassKind::Overlay },
        SubmitStep::Present,
    ] + if post_present_wait {
        seq![SubmitStep::WaitIdle, SubmitStep::Cleanup]
    } else {
        seq![SubmitStep::Cleanup]
    }
}

/// The steps of a frame, in order; the wait after present only when asked for.
pub fn submission_order(post_present_wait: bool) -> (r: Vec<SubmitStep>)
    ensures
        r@ == submission_order_spec(post_present_wait),
{
    let mut r: Vec<SubmitStep> = Vec::new();
    r.push(SubmitStep::Execute { pass: PassKind::Occlusion });
    r.push(SubmitStep::Execute { pass: PassKind::DeferredShading });
    r.push(SubmitStep::Execute { pass: PassKind::DeferredLighting });
    r.push(SubmitStep::JoinOffscreen);
    r.push(SubmitStep::Execute { pass: PassKind::PostProcess });
    r.push(SubmitStep::Execute { pass: PassKind::Lines });
    r.push(SubmitStep::Execute { pass: PassKind::Text });
    r.push(SubmitStep::Execute { pass: PassKind::Overlay });
    r.push(SubmitStep::Present);
    if post_present_wait {
        r.push(SubmitStep::WaitIdle);
    }
    r.push(SubmitStep::Cleanup);
    proof {
        assert(r@ =~= submission_order_spec(post_present_wait));
    }
    r
}

/// The submission order respects every data dependency: each pass is
/// submitted exactly once, after every pass whose output it reads; a
/// dependency across chains has the join between the two; nothing is
/// submitted after present, and cleanup comes last.
pub proof fn lemma_order_respects_dependencies(post_present_wait: bool)
    ensures
        ({
            let s = submission_order_spec(post_present_wait);
            &&& forall|p: PassKind| #[trigger] s[step_of(p)] == SubmitStep::Execute { pass: p }
            &&& forall|i: int, p: PassKind|
                0 <= i < s.len() && s[i] == SubmitStep::Execute { pass: p } ==> i == step_of(p)
            &&& forall|p: PassKind, q: PassKind| #[trigger]
                reads_output_of(p, q) ==> step_of(q) < step_of(p)
            &&& forall|p: PassKind, q: PassKind|
                #![trigger reads_output_of(p, q), chain_of(p), chain_of(q)]
                reads_output_of(p, q) && chain_of(p) != chain_of(q) ==> step_of(q) < join_step()
                    < step_of(p)
            &&& s[join_step()] == SubmitStep::JoinOffscreen
            &&& s[present_step()] == SubmitStep::Present
            &&& forall|p: PassKind| #[trigger] step_of(p) < present_step()
            &&& s[s.len() - 1] == SubmitStep::Cleanup
        }),
{
    let s = submission_order_spec(post_present_wait);
    assert forall|i: int, p: PassKind|
        0 <= i < s.len() && s[i] == SubmitStep::Execute { pass: p } implies i == step_of(p) by {
        if 0 <= i < s.len() {
            assert(0 <= i < 9 || s[i] == SubmitStep::WaitIdle || s[i] == SubmitStep::Cleanup);
        }
    }
}

} // verus!

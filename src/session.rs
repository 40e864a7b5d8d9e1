use vstd::prelude::*;

use crate::decode::decode_spec;
use crate::layer::Layer;
use crate::poller::{poll_next, PollAction, PollEvent, PollPhase, Poller};
use crate::render::{render_next, RenderAction, RenderEvent, RenderPhase, Renderer};

verus! {

/// A report that changes the layer reaches the screen: the running poller
/// hands the new layer out, and once the renderer has received it, its next
/// tick draws that layer; when the send is confirmed the poller runs on with
/// the new layer as the one known downstream.
pub proof fn lemma_layer_change_reaches_display(
    p: Poller,
    r: Renderer,
    report: [u8; 4],
    l: Layer,
)
    requires
        p.phase == PollPhase::Running,
        r.phase == RenderPhase::Running,
        decode_spec(report@, p.keyboard.current_layer) == Ok::<Layer, crate::error::DecodeError>(l),
        l != p.sent_layer,
    ensures
        poll_next(p, PollEvent::Report(report)).1 == PollAction::Deliver(l),
        poll_next(poll_next(p, PollEvent::Report(report)).0, PollEvent::Sent).0.sent_layer == l,
        poll_next(poll_next(p, PollEvent::Report(report)).0, PollEvent::Sent).0.phase
            == PollPhase::Running,
        render_next(render_next(r, RenderEvent::LayerChanged(l)).0, RenderEvent::Tick).1
            == RenderAction::Draw(l),
{
}

} // verus!

use vstd::prelude::*;

use crate::layer::Layer;

verus! {

/// The key that asks the visualizer to quit.
pub const QUIT_KEY: char = 'q';

/// What the render loop saw first among the branches it waits on.
#[derive(Debug, Clone, Copy, PartialEq, Eq, Structural)]
pub enum RenderEvent {
    /// The redraw timer fired.
    Tick,
    /// A layer arrived on the channel.
    LayerChanged(Layer),
    /// The channel is closed: the poller has ended.
    ChannelClosed,
    /// A terminal key event: its character, if it has one, and whether it is a press.
    Input { ch: Option<char>, pressed: bool },
    /// Cancellation was signalled.
    Cancelled,
}

/// What the render loop does next.
#[derive(Debug, Clone, Copy, PartialEq, Eq, Structural)]
pub enum RenderAction {
    /// Nothing until the next event.
    Wait,
    /// Redraw the key grid with this layer's legend.
    Draw(Layer),
    /// Signal cancellation to the poller, wait for it to end, and restore the terminal.
    Shutdown,
}

/// Where the render loop stands.
#[derive(Debug, Clone, Copy, PartialEq, Eq, Structural)]
pub enum RenderPhase {
    Running,
    Stopped,
}

/// The decisions of the render loop: the layer on screen and the loop's phase.
#[derive(Debug, Clone, Copy, PartialEq, Eq, Structural)]
pub struct Renderer {
    pub displayed_layer: Layer,
    pub phase: RenderPhase,
}

/// Whether a key event asks to quit.
pub open spec fn is_quit(ch: Option<char>, pressed: bool) -> bool {
    pressed && ch == Some(QUIT_KEY)
}

/// The renderer's next state and action after `e`.
pub open spec fn render_next(r: Renderer, e: RenderEvent) -> (Renderer, RenderAction) {
    let down = Renderer { phase: RenderPhase::Stopped, ..r };
    match r.phase {
        RenderPhase::Stopped => (r, RenderAction::Wait),
        RenderPhase::Running => match e {
            RenderEvent::Tick => (r, RenderAction::Draw(r.displayed_layer)),
            RenderEvent::LayerChanged(l) => (Renderer { displayed_layer: l, ..r }, RenderAction::Wait),
            RenderEvent::ChannelClosed => (down, RenderAction::Shutdown),
            RenderEvent::Cancelled => (down, RenderAction::Shutdown),
            RenderEvent::Input { ch, pressed } => if is_quit(ch, pressed) {
                (down, RenderAction::Shutdown)
            } else {
                (r, RenderAction::Wait)
            },
        },
    }
}

impl Renderer {
    /// A running renderer showing the base layer.
    pub fn new() -> (r: Renderer)
        ensures
            r == (Renderer { displayed_layer: Layer::Base, phase: RenderPhase::Running }),
    {
        Renderer { displayed_layer: Layer::Base, phase: RenderPhase::Running }
    }

    /// Whether the loop has ended.
    pub fn is_stopped(&self) -> (r: bool)
        ensures
            r == (self.phase == RenderPhase::Stopped),
    {
        match self.phase {
            RenderPhase::Stopped => true,
            RenderPhase::Running => false,
        }
    }

    /// Decides what the render loop does after `event`: a tick redraws the
    /// displayed layer, a received layer becomes the displayed one, and a
    /// quit key, cancellation or a closed channel shut the loop down. A
    /// stopped loop takes nothing more, not even a pending layer.
    pub fn step(&mut self, event: RenderEvent) -> (a: RenderAction)
        ensures
            (*final(self), a) == render_next(*old(self), event),
    {
        match self.phase {
            RenderPhase::Stopped => RenderAction::Wait,
            RenderPhase::Running => match event {
                RenderEvent::Tick => RenderAction::Draw(self.displayed_layer),
                RenderEvent::LayerChanged(l) => {
                    self.displayed_layer = l;
                    RenderAction::Wait
                },
                RenderEvent::ChannelClosed => {
                    self.phase = RenderPhase::Stopped;
                    RenderAction::Shutdown
                },
                RenderEvent::Cancelled => {
                    self.phase = RenderPhase::Stopped;
                    RenderAction::Shutdown
                },
                RenderEvent::Input { ch, pressed } => {
                    let quit = match ch {
                        Some(c) => pressed && c == QUIT_KEY,
                        None => false,
                    };
                    if quit {
                        self.phase = RenderPhase::Stopped;
                        RenderAction::Shutdown
                    } else {
                        RenderAction::Wait
                    }
                },
            },
        }
    }
}

/// Once cancellation is seen by a running renderer it shuts down at once,
/// keeps the layer it showed, and takes no later event: a layer still
/// pending on the channel is not applied.
pub proof fn lemma_cancel_stops_renderer(r: Renderer, later: RenderEvent)
    requires
        r.phase == RenderPhase::Running,
    ensures
        render_next(r, RenderEvent::Cancelled).1 == RenderAction::Shutdown,
        render_next(r, RenderEvent::Cancelled).0.phase == RenderPhase::Stopped,
        render_next(r, RenderEvent::Cancelled).0.displayed_layer == r.displayed_layer,
        render_next(render_next(r, RenderEvent::Cancelled).0, later) == (
        render_next(r, RenderEvent::Cancelled).0,
        RenderAction::Wait,
        ),
{
}

/// The renderer after it receives `layers` in order.
pub open spec fn receive_all(r: Renderer, layers: Seq<Layer>) -> Renderer
    decreases layers.len(),
{
    if layers.len() == 0 {
        r
    } else {
        render_next(receive_all(r, layers.drop_last()), RenderEvent::LayerChanged(layers.last())).0
    }
}

/// A running renderer that drains any number of layers from the channel
/// stays running and displays the one sent last.
pub proof fn lemma_receive_all_shows_last(r: Renderer, layers: Seq<Layer>)
    requires
        r.phase == RenderPhase::Running,
        layers.len() > 0,
    ensures
        receive_all(r, layers).phase == RenderPhase::Running,
        receive_all(r, layers).displayed_layer == layers.last(),
    decreases layers.len(),
{
    if layers.len() > 1 {
        lemma_receive_all_shows_last(r, layers.drop_last());
    } else {
        assert(receive_all(r, layers.drop_last()) == r);
    }
}

} // verus!

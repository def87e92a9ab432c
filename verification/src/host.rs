//! The session host: the endpoint, the content store and the router, brought
//! up as one unit and torn down as one unit.

use vstd::prelude::*;

use crate::error::{SessionError, SessionErrorView};
use crate::protocol::{failure_or_unanswered, failure_text, Action, ActionView, Event, EventView};

verus! {

/// Where the host stands in its life.
#[derive(Clone, Copy, Debug, PartialEq, Eq, Structural)]
pub enum HostPhase {
    /// Nothing is started.
    Down,
    /// The endpoint is being bound.
    Binding,
    /// The content store is being created on the bound endpoint.
    Building,
    /// The router is being started over endpoint and store.
    Spawning,
    /// Endpoint, store and router are up.
    Up,
    /// The router is being stopped.
    StoppingRouter,
    /// The router is stopped; the store's worker pool is being released.
    StoppingPool,
    /// The host was up and is torn down, or gave up tearing down.
    Stopped,
    /// The host did not come up.
    Failed,
}

/// The host of a session. It owns the lifetime of the three collaborators.
#[derive(Debug)]
pub struct IrohData {
    pub phase: HostPhase,
    /// The node's identity, known once the endpoint is bound.
    pub node_id: Option<[u8; 32]>,
    /// What went wrong while starting or stopping, if anything did.
    pub fault: Option<SessionError>,
}

/// The mathematical value of an [`IrohData`].
pub struct HostView {
    pub phase: HostPhase,
    pub node_id: Option<Seq<u8>>,
    pub fault: Option<SessionErrorView>,
}

/// The value of an optional node identity.
pub open spec fn id_option_view(id: Option<[u8; 32]>) -> Option<Seq<u8>> {
    match id {
        Some(bytes) => Some(bytes@),
        None => None,
    }
}

/// The value of an optional error.
pub open spec fn error_option_view(error: Option<SessionError>) -> Option<SessionErrorView> {
    match error {
        Some(e) => Some(e@),
        None => None,
    }
}

impl View for IrohData {
    type V = HostView;

    open spec fn view(&self) -> HostView {
        HostView {
            phase: self.phase,
            node_id: id_option_view(self.node_id),
            fault: error_option_view(self.fault),
        }
    }
}

impl HostView {
    /// The host that gave up starting, with the reason.
    pub open spec fn failed(self, detail: Seq<char>) -> HostView {
        HostView {
            phase: HostPhase::Failed,
            fault: Some(SessionErrorView::HostLifecycle(detail)),
            ..self
        }
    }

    /// The host that gave up stopping, with the reason.
    pub open spec fn stopped_with(self, detail: Seq<char>) -> HostView {
        HostView {
            phase: HostPhase::Stopped,
            fault: Some(SessionErrorView::HostLifecycle(detail)),
            ..self
        }
    }

    /// Whether the host is still on its way up.
    pub open spec fn starting(self) -> bool {
        self.phase == HostPhase::Down || self.phase == HostPhase::Binding || self.phase
            == HostPhase::Building || self.phase == HostPhase::Spawning
    }

    /// Whether the host is on its way down.
    pub open spec fn stopping(self) -> bool {
        self.phase == HostPhase::StoppingRouter || self.phase == HostPhase::StoppingPool
    }

    /// One step of the way up. The endpoint comes first, then the store on
    /// it, then the router over both; the first failure ends the attempt.
    pub open spec fn start(self, event: EventView) -> HostView {
        match self.phase {
            HostPhase::Down => HostView { phase: HostPhase::Binding, ..self },
            HostPhase::Binding => match event {
                EventView::Bound(id) => HostView {
                    phase: HostPhase::Building,
                    node_id: Some(id),
                    ..self
                },
                _ => self.failed(failure_or_unanswered(event)),
            },
            HostPhase::Building => match failure_text(event) {
                Some(detail) => self.failed(detail),
                None => HostView { phase: HostPhase::Spawning, ..self },
            },
            HostPhase::Spawning => match failure_text(event) {
                Some(detail) => self.failed(detail),
                None => HostView { phase: HostPhase::Up, ..self },
            },
            _ => self,
        }
    }

    /// What the driver is to do for the host on its way up.
    pub open spec fn start_action(self) -> ActionView {
        match self.phase {
            HostPhase::Binding => ActionView::BindEndpoint,
            HostPhase::Building => ActionView::BuildStore,
            HostPhase::Spawning => ActionView::SpawnRouter,
            _ => ActionView::Finished,
        }
    }

    /// One step of the way down. The router is stopped first, then the
    /// store's worker pool is released; a failure ends the teardown there.
    pub open spec fn stop(self, event: EventView) -> HostView {
        match self.phase {
            HostPhase::Up => HostView { phase: HostPhase::StoppingRouter, ..self },
            HostPhase::StoppingRouter => match failure_text(event) {
                Some(detail) => self.stopped_with(detail),
                None => HostView { phase: HostPhase::StoppingPool, ..self },
            },
            HostPhase::StoppingPool => match failure_text(event) {
                Some(detail) => self.stopped_with(detail),
                None => HostView { phase: HostPhase::Stopped, ..self },
            },
            _ => self,
        }
    }

    /// What the driver is to do for the host on its way down.
    pub open spec fn stop_action(self) -> ActionView {
        match self.phase {
            HostPhase::StoppingRouter => ActionView::ShutdownRouter,
            HostPhase::StoppingPool => ActionView::ShutdownPool,
            _ => ActionView::Finished,
        }
    }
}

impl IrohData {
    /// A host with nothing started.
    pub fn new() -> (res: IrohData)
        ensures
            res@ == (HostView { phase: HostPhase::Down, node_id: None, fault: None }),
    {
        IrohData { phase: HostPhase::Down, node_id: None, fault: None }
    }

    /// Whether endpoint, store and router are up.
    pub fn is_up(&self) -> (res: bool)
        ensures
            res == (self@.phase == HostPhase::Up),
    {
        match self.phase {
            HostPhase::Up => true,
            _ => false,
        }
    }

    /// Whether the host is still on its way up.
    pub fn is_starting(&self) -> (res: bool)
        ensures
            res == self@.starting(),
    {
        match self.phase {
            HostPhase::Down | HostPhase::Binding | HostPhase::Building | HostPhase::Spawning => true,
            _ => false,
        }
    }

    /// Whether the host is on its way down.
    pub fn is_stopping(&self) -> (res: bool)
        ensures
            res == self@.stopping(),
    {
        match self.phase {
            HostPhase::StoppingRouter | HostPhase::StoppingPool => true,
            _ => false,
        }
    }

    /// What the driver is to do for the host on its way up.
    fn start_action(&self) -> (action: Action)
        ensures
            action@ == self@.start_action(),
    {
        match self.phase {
            HostPhase::Binding => Action::BindEndpoint,
            HostPhase::Building => Action::BuildStore,
            HostPhase::Spawning => Action::SpawnRouter,
            _ => Action::Finished,
        }
    }

    /// What the driver is to do for the host on its way down.
    fn stop_action(&self) -> (action: Action)
        ensures
            action@ == self@.stop_action(),
    {
        match self.phase {
            HostPhase::StoppingRouter => Action::ShutdownRouter,
            HostPhase::StoppingPool => Action::ShutdownPool,
            _ => Action::Finished,
        }
    }

    /// Brings the host up, one step per call: the first call opens the way
    /// up, each later call takes the driver's answer to the action handed
    /// out before. Hands out the next action, or [`Action::Finished`] once
    /// the host is up or has given up.
    pub fn start(&mut self, event: &Event) -> (action: Action)
        ensures
            final(self)@ == old(self)@.start(event@),
            action@ == final(self)@.start_action(),
    {
        match self.phase {
            HostPhase::Down => {
                self.phase = HostPhase::Binding;
            },
            HostPhase::Binding => {
                match event {
                    Event::Bound(id) => {
                        self.node_id = Some(*id);
                        self.phase = HostPhase::Building;
                    },
                    _ => {
                        self.fault = Some(SessionError::HostLifecycle(event.failure_or_unanswered()));
                        self.phase = HostPhase::Failed;
                    },
                }
            },
            HostPhase::Building => {
                match event.failure() {
                    Some(detail) => {
                        self.fault = Some(SessionError::HostLifecycle(detail));
                        self.phase = HostPhase::Failed;
                    },
                    None => {
                        self.phase = HostPhase::Spawning;
                    },
                }
            },
            HostPhase::Spawning => {
                match event.failure() {
                    Some(detail) => {
                        self.fault = Some(SessionError::HostLifecycle(detail));
                        self.phase = HostPhase::Failed;
                    },
                    None => {
                        self.phase = HostPhase::Up;
                    },
                }
            },
            _ => {},
        }
        self.start_action()
    }

    /// Tears the host down, one step per call: the first call on a host that
    /// is up opens the teardown, each later call takes the driver's answer.
    /// Hands out the next action, or [`Action::Finished`] once nothing is
    /// left to stop.
    pub fn shutdown(&mut self, event: &Event) -> (action: Action)
        ensures
            final(self)@ == old(self)@.stop(event@),
            action@ == final(self)@.stop_action(),
    {
        match self.phase {
            HostPhase::Up => {
                self.phase = HostPhase::StoppingRouter;
            },
            HostPhase::StoppingRouter => {
                match event.failure() {
                    Some(detail) => {
                        self.fault = Some(SessionError::HostLifecycle(detail));
                        self.phase = HostPhase::Stopped;
                    },
                    None => {
                        self.phase = HostPhase::StoppingPool;
                    },
                }
            },
            HostPhase::StoppingPool => {
                match event.failure() {
                    Some(detail) => {
                        self.fault = Some(SessionError::HostLifecycle(detail));
                        self.phase = HostPhase::Stopped;
                    },
                    None => {
                        self.phase = HostPhase::Stopped;
                    },
                }
            },
            _ => {},
        }
        self.stop_action()
    }
}

} // verus!

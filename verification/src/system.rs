//! Many sessions at one manager, their steps in any order.
//!
//! The sessions of one sandbox run side by side, and the steps of one may fall
//! between the steps of another. What keeps them in order is the lock around
//! the manager, and this file says what the lock is assumed to do: it grants
//! access, exclusive or shared, only while no session holds exclusive access.
//! From that alone it follows that the runtime is never brought up twice at
//! once, and that operations never keep one another waiting.

use vstd::prelude::*;
use crate::error::{Error, Violation};
use crate::laws::{bringing_up, brings_up, routed};
use crate::model::{handler_message, open_message, open_request, ManagerView};
use crate::protocol::{Event, StepView};
use crate::session::{Flow, Stage};
use crate::types::Request;

verus! {

/// A manager and the sessions that were opened at it. A session is named by
/// its place in the sequence.
pub struct System<I> {
    pub manager: ManagerView<I>,
    pub sessions: Seq<Flow<I>>,
}

/// What can happen next.
pub enum Move<I> {
    /// A request arrives, at the message entry or at the router directly.
    Open { request: Request, direct: bool },
    /// The session at this place takes its next step, with this outcome of the
    /// call it waited for.
    Advance { session: int, event: Event<I> },
}

/// Whether a session at this stage holds exclusive access: from the step that
/// was granted it, to the session's end.
pub open spec fn holds_exclusive<I>(stage: Stage<I>) -> bool {
    bringing_up(stage) || stage is Creating
}

/// Whether some session of the system holds exclusive access.
pub open spec fn locked<I>(system: System<I>) -> bool {
    exists|holder: int|
        0 <= holder < system.sessions.len() && holds_exclusive(
            #[trigger] system.sessions[holder].stage,
        )
}

/// Whether the move can happen. A request can always arrive, and a session can
/// always be handed an outcome, with one exception: the lock grants a session
/// the access it waits for only while no session holds exclusive access.
pub open spec fn allowed<I>(system: System<I>, next: Move<I>) -> bool {
    match next {
        Move::Open { .. } => true,
        Move::Advance { session, event } => {
            &&& 0 <= session < system.sessions.len()
            &&& (event is Granted && (system.sessions[session].stage is AwaitingExclusive
                || system.sessions[session].stage is AwaitingShared)) ==> !locked(system)
        },
    }
}

/// The system after the move.
pub open spec fn after<I>(system: System<I>, next: Move<I>) -> System<I> {
    match next {
        Move::Open { request, direct } => System {
            manager: system.manager,
            sessions: system.sessions.push(
                if direct {
                    open_request::<I>(request).0
                } else {
                    open_message::<I>(request).0
                },
            ),
        },
        Move::Advance { session, event } => {
            let taken = handler_message(system.manager, system.sessions[session], event);
            System { manager: taken.manager, sessions: system.sessions.update(session, taken.flow) }
        },
    }
}

/// Whether the moves can happen one after the other.
pub open spec fn all_allowed<I>(system: System<I>, moves: Seq<Move<I>>) -> bool
    decreases moves.len(),
{
    moves.len() == 0 || (allowed(system, moves[0]) && all_allowed(
        after(system, moves[0]),
        moves.drop_first(),
    ))
}

/// The system after all the moves.
pub open spec fn after_all<I>(system: System<I>, moves: Seq<Move<I>>) -> System<I>
    decreases moves.len(),
{
    if moves.len() == 0 {
        system
    } else {
        after_all(after(system, moves[0]), moves.drop_first())
    }
}

/// A manager at which no request has arrived yet.
pub open spec fn idle<I>(manager: ManagerView<I>) -> System<I> {
    System { manager, sessions: Seq::empty() }
}

/// The order that the lock keeps: no two sessions hold exclusive access at
/// once, and while a session is in the middle of a bring-up the manager has no
/// instance.
pub open spec fn orderly<I>(system: System<I>) -> bool {
    &&& forall|one: int, other: int|
        0 <= one < other < system.sessions.len() ==> !(holds_exclusive(
            #[trigger] system.sessions[one].stage,
        ) && holds_exclusive(#[trigger] system.sessions[other].stage))
    &&& forall|session: int|
        0 <= session < system.sessions.len() && bringing_up(
            #[trigger] system.sessions[session].stage,
        ) ==> system.manager.instance is None
}

/// Every move that the lock allows keeps the order.
pub proof fn law_lock_keeps_order<I>(system: System<I>, next: Move<I>)
    requires
        orderly(system),
        allowed(system, next),
    ensures
        orderly(after(system, next)),
{
    // A session comes to hold exclusive access only by the lock's grant, which
    // it gets while no session holds it; and only the session that holds it
    // publishes. The sessions that do not move stay where they were.
}

/// The lock keeps the order over any number of moves.
pub proof fn law_order_is_kept<I>(system: System<I>, moves: Seq<Move<I>>)
    requires
        orderly(system),
        all_allowed(system, moves),
    ensures
        orderly(after_all(system, moves)),
    decreases moves.len(),
{
    if moves.len() > 0 {
        law_lock_keeps_order(system, moves[0]);
        law_order_is_kept(after(system, moves[0]), moves.drop_first());
    }
}

/// No interleaving brings the runtime up twice. Let any requests arrive at a
/// manager, and let their sessions take their steps in any order that the lock
/// allows, with any outcomes. Then at every moment at most one session is in
/// the middle of a bring-up, so at most one instance is being built or started;
/// while one is, the manager has none; an instance that the manager has is
/// never met by a second one, so no step ends because an instance was already
/// there; and once the manager has an instance, no step of any session asks
/// for a call of the bring-up again.
pub proof fn law_one_bring_up_at_a_time<I>(manager: ManagerView<I>, moves: Seq<Move<I>>)
    requires
        all_allowed(idle(manager), moves),
    ensures
        ({
            let system = after_all(idle(manager), moves);
            &&& forall|one: int, other: int|
                0 <= one < other < system.sessions.len() ==> !(bringing_up(
                    #[trigger] system.sessions[one].stage,
                ) && bringing_up(#[trigger] system.sessions[other].stage))
            &&& system.manager.instance is Some ==> forall|session: int|
                0 <= session < system.sessions.len() ==> !bringing_up(
                    #[trigger] system.sessions[session].stage,
                )
            &&& forall|session: int, event: Event<I>|
                allowed(system, Move::Advance { session, event }) ==> #[trigger] handler_message(
                    system.manager,
                    system.sessions[session],
                    event,
                ).step != StepView::Done(Err(Error::Violation(Violation::AlreadyInitialized)))
            &&& system.manager.instance is Some ==> forall|session: int, event: Event<I>|
                allowed(system, Move::Advance { session, event }) ==> !(#[trigger] handler_message(
                    system.manager,
                    system.sessions[session],
                    event,
                ).step matches StepView::Perform(call) && brings_up(call))
        }),
{
    law_order_is_kept(idle(manager), moves);
}

/// Whether every session of the system serves an operation and none creates a
/// container.
pub open spec fn only_operations<I>(system: System<I>) -> bool {
    forall|session: int|
        0 <= session < system.sessions.len() ==> {
            ||| (#[trigger] system.sessions[session]).stage is AwaitingShared
            ||| routed(system.sessions[session].stage)
        }
}

/// Operations do not keep one another waiting. Where only operations are under
/// way, however many, every step of every one of them can be taken at once:
/// the lock never holds one back for another's sake. The step leaves the
/// manager as it was, and after it there are still only operations under way.
pub proof fn law_operations_never_wait<I>(system: System<I>, session: int, event: Event<I>)
    requires
        only_operations(system),
        0 <= session < system.sessions.len(),
    ensures
        allowed(system, Move::Advance { session, event }),
        after(system, Move::Advance { session, event }).manager == system.manager,
        only_operations(after(system, Move::Advance { session, event })),
{
}

} // verus!



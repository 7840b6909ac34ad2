use vstd::prelude::*;

verus! {

/// Order status codes.
pub const AWAITING: u8 = 0;

pub const SHIPPED: u8 = 1;

pub const DELIVERED: u8 = 2;

pub const RESOLVED: u8 = 3;

pub const PROBLEM: u8 = 4;

pub const REFUSED: u8 = 5;

/// Problem codes.
pub const NO_PROBLEM: u8 = 0;

pub const DAMAGED: u8 = 1;

pub const WRONG_ITEM: u8 = 2;

pub const NOT_RECEIVED: u8 = 3;

/// Resolution codes.
pub const UNRESOLVED: u8 = 0;

pub const REFUNDED: u8 = 1;

pub const REPLACED: u8 = 2;

pub const DENIED: u8 = 3;

/// How long after delivery a buyer may report a problem, in milliseconds.
pub const REPORT_WINDOW_MS: u64 = 86400000;

/// The mutable part of an order that the lifecycle governs.
#[derive(Clone, Copy, Debug, PartialEq, Eq, Structural)]
pub struct Stage {
    pub status: u8,
    pub problem: u8,
    pub resolution: u8,
}

/// What a party asks of an order.
#[derive(Clone, Copy, Debug, PartialEq, Eq, Structural)]
pub enum Action {
    Ship,
    Deliver,
    Refuse,
    Report { problem: u8, elapsed_ms: u64 },
    Refund,
    Replace,
    Deny,
}

pub open spec fn is_problem_code(p: u8) -> bool {
    p == DAMAGED || p == WRONG_ITEM || p == NOT_RECEIVED
}

/// The lifecycle: the stage that an action leads to, or `None` where the
/// action is not legal in the current stage.
pub open spec fn step(s: Stage, a: Action) -> Option<Stage> {
    match a {
        Action::Ship => if s.status == AWAITING {
            Some(Stage { status: SHIPPED, ..s })
        } else {
            None
        },
        Action::Deliver => if s.status == SHIPPED {
            Some(Stage { status: DELIVERED, ..s })
        } else {
            None
        },
        Action::Refuse => if s.status == AWAITING {
            Some(Stage { status: REFUSED, ..s })
        } else {
            None
        },
        Action::Report { problem, elapsed_ms } => if s.status == DELIVERED && elapsed_ms
            < REPORT_WINDOW_MS && is_problem_code(problem) {
            Some(Stage { status: PROBLEM, problem, ..s })
        } else {
            None
        },
        Action::Refund => resolve(s, REFUNDED),
        Action::Replace => resolve(s, REPLACED),
        Action::Deny => resolve(s, DENIED),
    }
}

pub open spec fn resolve(s: Stage, resolution: u8) -> Option<Stage> {
    if s.status == PROBLEM && s.resolution == UNRESOLVED {
        Some(Stage { status: RESOLVED, resolution, ..s })
    } else {
        None
    }
}

/// Applies an action to a stage.
pub fn advance(s: Stage, a: Action) -> (r: Option<Stage>)
    ensures
        r == step(s, a),
{
    match a {
        Action::Ship => if s.status == AWAITING {
            Some(Stage { status: SHIPPED, ..s })
        } else {
            None
        },
        Action::Deliver => if s.status == SHIPPED {
            Some(Stage { status: DELIVERED, ..s })
        } else {
            None
        },
        Action::Refuse => if s.status == AWAITING {
            Some(Stage { status: REFUSED, ..s })
        } else {
            None
        },
        Action::Report { problem, elapsed_ms } => {
            if s.status == DELIVERED && elapsed_ms < REPORT_WINDOW_MS && (problem == DAMAGED
                || problem == WRONG_ITEM || problem == NOT_RECEIVED) {
                Some(Stage { status: PROBLEM, problem, ..s })
            } else {
                None
            }
        },
        Action::Refund => resolve_exec(s, REFUNDED),
        Action::Replace => resolve_exec(s, REPLACED),
        Action::Deny => resolve_exec(s, DENIED),
    }
}

fn resolve_exec(s: Stage, resolution: u8) -> (r: Option<Stage>)
    ensures
        r == resolve(s, resolution),
{
    if s.status == PROBLEM && s.resolution == UNRESOLVED {
        Some(Stage { status: RESOLVED, resolution, ..s })
    } else {
        None
    }
}

/// From `awaiting` only `shipped` and `refused` are reachable; from
/// `delivered` only `problem`, and only within the report window; from
/// `problem` exactly one resolution (refund, replacement or denial) applies,
/// once, since it leaves the resolution set; `resolved` and `refused` are
/// terminal.
pub proof fn lemma_lifecycle(s: Stage, a: Action)
    ensures
        s.status == AWAITING && step(s, a).is_some() ==> (step(s, a).unwrap().status == SHIPPED
            || step(s, a).unwrap().status == REFUSED),
        s.status == DELIVERED && step(s, a).is_some() ==> step(s, a).unwrap().status == PROBLEM
            && (a matches Action::Report { elapsed_ms, .. } && elapsed_ms < REPORT_WINDOW_MS),
        s.status == DELIVERED ==> (a matches Action::Report { elapsed_ms, .. } && elapsed_ms
            >= REPORT_WINDOW_MS ==> step(s, a).is_none()),
        s.status == PROBLEM && step(s, a).is_some() ==> {
            let t = step(s, a).unwrap();
            &&& s.resolution == UNRESOLVED
            &&& t.status == RESOLVED
            &&& t.resolution != UNRESOLVED
            &&& (a == Action::Refund ==> t.resolution == REFUNDED)
            &&& (a == Action::Replace ==> t.resolution == REPLACED)
            &&& (a == Action::Deny ==> t.resolution == DENIED)
            &&& (forall|b: Action| step(t, b).is_none())
        },
        s.status == RESOLVED || s.status == REFUSED ==> step(s, a).is_none(),
{
}

} // verus!

//! Bookkeeping for the four pointer-event subscriptions a widget instance
//! holds on its drawing surface. Registration is atomic with respect to
//! failure — a partial registration is rolled back — and release happens
//! exactly once, however many teardown paths run.

use vstd::prelude::*;
use crate::error::SigError;

verus! {

/// The four pointer subscriptions, in the order they are registered.
#[derive(Clone, Copy, PartialEq, Eq, Structural, Debug)]
pub enum ListenerKind {
    Down,
    Move,
    Up,
    Leave,
}

/// One widget instance's subscription handles: which of the four are
/// currently registered, and whether the set has already been released.
#[derive(Clone, Copy, PartialEq, Eq, Structural, Debug)]
pub struct ListenerSet {
    pub down: bool,
    pub mv: bool,
    pub up: bool,
    pub leave: bool,
    pub released: bool,
}

/// A failed registration: the error to surface and the already-registered
/// subscriptions the host must remove again, in registration order.
#[derive(Debug)]
pub struct AttachFailure {
    pub error: SigError,
    pub rollback: Vec<ListenerKind>,
}

impl ListenerSet {
    /// Whether all four subscriptions are registered and the set has not
    /// been released.
    pub open spec fn attached(self) -> bool {
        self.down && self.mv && self.up && self.leave && !self.released
    }

    /// Whether no subscription is registered any more.
    pub open spec fn inactive(self) -> bool {
        !self.down && !self.mv && !self.up && !self.leave
    }

    /// Registration outcome bookkeeping. The host registers the four
    /// subscriptions in order and stops at the first failure; `ok_*` say how
    /// far it came. All four registered gives an attached set; otherwise the
    /// already-registered prefix is handed back for rollback together with
    /// an error naming the failed registration, so that no partial set ever
    /// survives.
    pub fn attach(ok_down: bool, ok_move: bool, ok_up: bool, ok_leave: bool) -> (r: Result<
        ListenerSet,
        AttachFailure,
    >)
        ensures
            ok_down && ok_move && ok_up && ok_leave <==> r is Ok,
            r matches Ok(s) ==> s.attached(),
            r matches Err(f) ==> {
                &&& f.error matches SigError::OpFailed(m)
                &&& !ok_down ==> f.rollback@ =~= Seq::<ListenerKind>::empty()
                &&& ok_down && !ok_move ==> f.rollback@ =~= seq![ListenerKind::Down]
                &&& ok_down && ok_move && !ok_up ==> f.rollback@ =~= seq![
                    ListenerKind::Down,
                    ListenerKind::Move,
                ]
                &&& ok_down && ok_move && ok_up && !ok_leave ==> f.rollback@ =~= seq![
                    ListenerKind::Down,
                    ListenerKind::Move,
                    ListenerKind::Up,
                ]
            },
    {
        let mut rollback: Vec<ListenerKind> = Vec::new();
        if !ok_down {
            return Err(AttachFailure {
                error: SigError::OpFailed(String::from_str("addEventListener(pointerdown)")),
                rollback,
            });
        }
        rollback.push(ListenerKind::Down);
        if !ok_move {
            return Err(AttachFailure {
                error: SigError::OpFailed(String::from_str("addEventListener(pointermove)")),
                rollback,
            });
        }
        rollback.push(ListenerKind::Move);
        if !ok_up {
            return Err(AttachFailure {
                error: SigError::OpFailed(String::from_str("addEventListener(pointerup)")),
                rollback,
            });
        }
        rollback.push(ListenerKind::Up);
        if !ok_leave {
            return Err(AttachFailure {
                error: SigError::OpFailed(String::from_str("addEventListener(pointerleave)")),
                rollback,
            });
        }
        Ok(ListenerSet { down: true, mv: true, up: true, leave: true, released: false })
    }

    /// The subscriptions a release must remove, in registration order.
    pub open spec fn spec_active_kinds(self) -> Seq<ListenerKind> {
        let a = if self.down {
            seq![ListenerKind::Down]
        } else {
            Seq::<ListenerKind>::empty()
        };
        let b = if self.mv {
            seq![ListenerKind::Move]
        } else {
            Seq::<ListenerKind>::empty()
        };
        let c = if self.up {
            seq![ListenerKind::Up]
        } else {
            Seq::<ListenerKind>::empty()
        };
        let d = if self.leave {
            seq![ListenerKind::Leave]
        } else {
            Seq::<ListenerKind>::empty()
        };
        a + b + c + d
    }

    /// Releases the set exactly once: the first call hands back every
    /// registered subscription for the host to remove and marks the set
    /// released; any later call changes nothing and hands back nothing.
    pub fn release(&mut self) -> (r: Vec<ListenerKind>)
        ensures
            final(self).released,
            old(self).released ==> *final(self) == *old(self) && r@ =~= Seq::<
                ListenerKind,
            >::empty(),
            !old(self).released ==> final(self).inactive() && r@ =~= old(
                self,
            ).spec_active_kinds(),
    {
        let mut r: Vec<ListenerKind> = Vec::new();
        if self.released {
            return r;
        }
        if self.down {
            r.push(ListenerKind::Down);
            self.down = false;
        }
        if self.mv {
            r.push(ListenerKind::Move);
            self.mv = false;
        }
        if self.up {
            r.push(ListenerKind::Up);
            self.up = false;
        }
        if self.leave {
            r.push(ListenerKind::Leave);
            self.leave = false;
        }
        self.released = true;
        r
    }
}

} // verus!

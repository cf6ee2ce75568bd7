//! The cross-door behaviors: a robot crossing a door that may be closed and locked.
//!
//! Each action returns its status; the pauses the actions take stand outside the
//! library, with their registration in a factory.

use vstd::prelude::*;
use crate::status::BehaviorStatus;
use crate::step::BehaviorError;
use crate::behavior::{BehaviorCategory, PortList};
use crate::error::Error;
use crate::factory::{BTFactory, Creator, RegistrationView};

verus! {

/// The state of the door.
pub struct CrossDoor {
    door_open: bool,
    door_locked: bool,
    pick_attempts: u8,
}

/// The mathematical state of a [`CrossDoor`].
pub struct CrossDoorState {
    /// whether the door is open
    pub door_open: bool,
    /// whether the door is locked
    pub door_locked: bool,
    /// how often the lock was picked
    pub pick_attempts: u8,
}

impl View for CrossDoor {
    type V = CrossDoorState;

    closed spec fn view(&self) -> CrossDoorState {
        CrossDoorState {
            door_open: self.door_open,
            door_locked: self.door_locked,
            pick_attempts: self.pick_attempts,
        }
    }
}

/// A successful result with the given status.
pub open spec fn ok(s: BehaviorStatus) -> Result<BehaviorStatus, BehaviorError> {
    Ok(s)
}

/// Picking the lock: the third attempt unlocks and opens the door.
pub open spec fn pick_lock_step(s: CrossDoorState) -> (CrossDoorState, BehaviorStatus) {
    let a = (s.pick_attempts + 1) as u8;
    if a >= 3 {
        (
            CrossDoorState { door_open: true, door_locked: false, pick_attempts: a },
            BehaviorStatus::Success,
        )
    } else {
        (CrossDoorState { pick_attempts: a, ..s }, BehaviorStatus::Failure)
    }
}

impl CrossDoor {
    /// A closed and locked door, whose lock was never picked.
    pub fn default() -> (r: Self)
        ensures
            r@ == (CrossDoorState { door_open: false, door_locked: true, pick_attempts: 0 }),
    {
        CrossDoor { door_open: false, door_locked: true, pick_attempts: 0 }
    }

    /// How often the lock was picked.
    pub fn pick_attempts(&self) -> (r: u8)
        ensures
            r == self@.pick_attempts,
    {
        self.pick_attempts
    }

    /// Success when the door is open, failure when it is closed.
    pub fn is_door_closed(&mut self) -> (r: Result<BehaviorStatus, BehaviorError>)
        ensures
            final(self)@ == old(self)@,
            r == ok(if old(self)@.door_open { BehaviorStatus::Success } else { BehaviorStatus::Failure }),
    {
        if self.door_open {
            Ok(BehaviorStatus::Success)
        } else {
            Ok(BehaviorStatus::Failure)
        }
    }

    /// Failure when the door is locked; else the door opens, with success.
    pub fn open_door(&mut self) -> (r: Result<BehaviorStatus, BehaviorError>)
        ensures
            old(self)@.door_locked ==> final(self)@ == old(self)@ && r == ok(BehaviorStatus::Failure),
            !old(self)@.door_locked ==> final(self)@ == (CrossDoorState { door_open: true, ..old(self)@ })
                && r == ok(BehaviorStatus::Success),
    {
        if self.door_locked {
            Ok(BehaviorStatus::Failure)
        } else {
            self.door_open = true;
            Ok(BehaviorStatus::Success)
        }
    }

    /// Success when the door is open, failure when it is closed.
    pub fn pass_through_door(&mut self) -> (r: Result<BehaviorStatus, BehaviorError>)
        ensures
            final(self)@ == old(self)@,
            r == ok(if old(self)@.door_open { BehaviorStatus::Success } else { BehaviorStatus::Failure }),
    {
        if self.door_open {
            Ok(BehaviorStatus::Success)
        } else {
            Ok(BehaviorStatus::Failure)
        }
    }

    /// Try to pick the lock: after 3 attempts the door is unlocked and open, with
    /// success; the first two attempts fail.
    pub fn pick_lock(&mut self) -> (r: Result<BehaviorStatus, BehaviorError>)
        requires
            old(self)@.pick_attempts < u8::MAX,
        ensures
            final(self)@ == pick_lock_step(old(self)@).0,
            r == ok(pick_lock_step(old(self)@).1),
    {
        self.pick_attempts = self.pick_attempts + 1;
        if self.pick_attempts >= 3 {
            self.door_locked = false;
            self.door_open = true;
            Ok(BehaviorStatus::Success)
        } else {
            Ok(BehaviorStatus::Failure)
        }
    }

    /// Smash the door: it is unlocked and open afterwards, always with success.
    pub fn smash_door(&mut self) -> (r: Result<BehaviorStatus, BehaviorError>)
        ensures
            final(self)@ == (CrossDoorState { door_open: true, door_locked: false, ..old(self)@ }),
            r == ok(BehaviorStatus::Success),
    {
        self.door_locked = false;
        self.door_open = true;
        Ok(BehaviorStatus::Success)
    }
}

/// Picking the lock of a locked door fails twice and succeeds at the third
/// attempt, which leaves the door unlocked and open.
pub proof fn law_pick_lock_third_attempt(s: CrossDoorState)
    requires
        s.pick_attempts == 0,
        s.door_locked,
        !s.door_open,
    ensures
        ({
            let (s1, r1) = pick_lock_step(s);
            let (s2, r2) = pick_lock_step(s1);
            let (s3, r3) = pick_lock_step(s2);
            &&& r1 == BehaviorStatus::Failure
            &&& r2 == BehaviorStatus::Failure
            &&& r3 == BehaviorStatus::Success
            &&& s3.door_open
            &&& !s3.door_locked
        }),
{
}

/// The registration of the door action `name`, created by the user's creation
/// function `id`.
pub open spec fn door_action(name: Seq<char>, id: u64) -> RegistrationView {
    RegistrationView { name, category: BehaviorCategory::Action, creator: Creator::Custom(id), ports: Seq::empty() }
}

impl CrossDoor {
    /// Register the door actions in the factory, as actions without ports:
    /// `IsDoorClosed`, `OpenDoor`, `PassThroughDoor`, `PickLock` and `SmashDoor`,
    /// created by the user's creation functions 0 to 4.
    pub fn register_nodes(&self, factory: &mut BTFactory) -> (r: Result<(), Error>)
        requires
            old(factory).wf(),
        ensures
            r is Ok,
            final(factory).wf(),
            final(factory).board() == old(factory).board(),
            final(factory).factory_data().bhvr_map().dom() == old(factory).factory_data().bhvr_map().dom().union(
                set!["IsDoorClosed"@, "OpenDoor"@, "PassThroughDoor"@, "PickLock"@, "SmashDoor"@],
            ),
            final(factory).factory_data().bhvr_map()["IsDoorClosed"@] == door_action("IsDoorClosed"@, 0),
            final(factory).factory_data().bhvr_map()["OpenDoor"@] == door_action("OpenDoor"@, 1),
            final(factory).factory_data().bhvr_map()["PassThroughDoor"@] == door_action("PassThroughDoor"@, 2),
            final(factory).factory_data().bhvr_map()["PickLock"@] == door_action("PickLock"@, 3),
            final(factory).factory_data().bhvr_map()["SmashDoor"@] == door_action("SmashDoor"@, 4),
            final(factory).factory_data().tree_definitions@ == old(factory).factory_data().tree_definitions@,
    {
        proof {
            reveal_strlit("IsDoorClosed");
            reveal_strlit("OpenDoor");
            reveal_strlit("PassThroughDoor");
            reveal_strlit("PickLock");
            reveal_strlit("SmashDoor");
            assert("IsDoorClosed"@.len() == 12);
            assert("PassThroughDoor"@.len() == 15);
            assert("SmashDoor"@.len() == 9);
            assert("OpenDoor"@[0] != "PickLock"@[0]);
        }
        factory.register_behavior("IsDoorClosed", Creator::Custom(0), PortList::new(), BehaviorCategory::Action);
        factory.register_behavior("OpenDoor", Creator::Custom(1), PortList::new(), BehaviorCategory::Action);
        factory.register_behavior("PassThroughDoor", Creator::Custom(2), PortList::new(), BehaviorCategory::Action);
        factory.register_behavior("PickLock", Creator::Custom(3), PortList::new(), BehaviorCategory::Action);
        factory.register_behavior("SmashDoor", Creator::Custom(4), PortList::new(), BehaviorCategory::Action);
        Ok(())
    }
}

} // verus!

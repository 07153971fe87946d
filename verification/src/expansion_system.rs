//! Expansion: a one-shot release that four buttons pressed together fire.

use crate::controller::{Controller, TickSnapshot};
use crate::DriverControlHandler;
use vstd::prelude::*;

verus! {

/// Whether a controller state shows the firing combination: the down, right,
/// Y and B buttons all pressed at once.
pub open spec fn is_trigger(controller: Controller) -> bool {
    controller.down && controller.right && controller.y && controller.b
}

/// Whether the release has fired after one more tick.
pub open spec fn fired_after(fired: bool, controller: Controller) -> bool {
    fired || is_trigger(controller)
}

/// Whether the release has fired after one tick for each of `controllers`,
/// in order.
pub open spec fn fired_after_all(fired: bool, controllers: Seq<Controller>) -> bool
    decreases controllers.len(),
{
    if controllers.len() == 0 {
        fired
    } else {
        fired_after(fired_after_all(fired, controllers.drop_last()), controllers.last())
    }
}

/// The expansion sub-controller. It remembers that it has fired: releasing
/// the buttons does not take the command back.
#[derive(Clone, Copy, Debug)]
pub struct ExpansionSystem {
    fired: bool,
}

impl View for ExpansionSystem {
    /// Whether the release has fired.
    type V = bool;

    closed spec fn view(&self) -> bool {
        self.fired
    }
}

impl ExpansionSystem {
    /// An expansion that has not fired.
    pub fn new() -> (expansion: Self)
        ensures
            !expansion@,
    {
        ExpansionSystem { fired: false }
    }

    /// Whether the release has fired.
    pub fn has_fired(&self) -> (fired: bool)
        ensures
            fired == self@,
    {
        self.fired
    }
}

impl DriverControlHandler for ExpansionSystem {
    /// The level commanded to the release: `true` fires it.
    type Command = bool;

    open spec fn next_state(state: bool, snapshot: TickSnapshot) -> bool {
        fired_after(state, snapshot.controller)
    }

    open spec fn commanded(state: bool, snapshot: TickSnapshot) -> bool {
        fired_after(state, snapshot.controller)
    }

    /// Fires on the firing combination and keeps the command up ever after.
    fn driver_control_cycle(&mut self, snapshot: &TickSnapshot) -> (command: bool)
        ensures
            command == final(self)@,
    {
        if snapshot.controller.down && snapshot.controller.right && snapshot.controller.y
            && snapshot.controller.b {
            self.fired = true;
        }
        self.fired
    }
}

/// The latch is irreversible: a release that has fired stays fired through
/// any further ticks, whatever the controller shows on them.
pub proof fn lemma_fired_stays_fired(controllers: Seq<Controller>)
    ensures
        fired_after_all(true, controllers),
    decreases controllers.len(),
{
    if controllers.len() > 0 {
        lemma_fired_stays_fired(controllers.drop_last());
    }
}

/// A release has fired after a run of ticks exactly if it had fired before
/// or one of the ticks showed the firing combination.
pub proof fn lemma_fired_iff_triggered(fired: bool, controllers: Seq<Controller>)
    ensures
        fired_after_all(fired, controllers) <==> fired || exists|i: int|
            0 <= i < controllers.len() && is_trigger(#[trigger] controllers[i]),
    decreases controllers.len(),
{
    if controllers.len() > 0 {
        let earlier = controllers.drop_last();
        lemma_fired_iff_triggered(fired, earlier);
        if fired_after_all(fired, controllers) && !fired {
            if is_trigger(controllers.last()) {
                assert(is_trigger(controllers[controllers.len() - 1]));
            } else {
                let i = choose|i: int| 0 <= i < earlier.len() && is_trigger(#[trigger] earlier[i]);
                assert(is_trigger(controllers[i]));
            }
        }
        if exists|i: int| 0 <= i < controllers.len() && is_trigger(#[trigger] controllers[i]) {
            let i = choose|i: int|
                0 <= i < controllers.len() && is_trigger(#[trigger] controllers[i]);
            if i < earlier.len() {
                assert(is_trigger(earlier[i]));
            }
        }
    }
}

} // verus!

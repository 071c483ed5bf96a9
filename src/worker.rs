//! The toggle worker: one Read, Invert, Write, SetIcon cycle per click.
use vstd::prelude::*;
use crate::theme_store::{flag_encoding, light_encoding, ThemeFlags};
use crate::tray::{glyph_for, glyph_for_spec, Glyph};

verus! {

/// A request from the tray to flip the appearance.
#[derive(Clone, Copy, Debug, PartialEq, Eq, Structural)]
pub enum ToggleEvent {
    ClickTrayIcon,
}

/// What one cycle hands to the outside: the mode to store, the integer to
/// write into both flags, and the glyph to display.
#[derive(Clone, Copy, Debug, PartialEq, Eq, Structural)]
pub struct ToggleAction {
    pub light: bool,
    pub value: u32,
    pub glyph: Glyph,
}

/// The action of a cycle that read `current` as the active mode.
pub open spec fn action_for(current: bool) -> ToggleAction {
    ToggleAction { light: !current, value: light_encoding(!current), glyph: glyph_for_spec(!current) }
}

/// The mode after `k` cycles started from mode `s`.
pub open spec fn toggled(s: bool, k: nat) -> bool {
    if k % 2 == 0 {
        s
    } else {
        !s
    }
}

/// Computes the action of a cycle that read `current` as the active mode.
pub fn plan_toggle(current: bool) -> (a: ToggleAction)
    ensures
        a == action_for(current),
{
    let light = !current;
    ToggleAction { light, value: flag_encoding(light), glyph: glyph_for(light) }
}

/// The worker's view of the store and of the tray.
#[derive(Clone, Copy, Debug, PartialEq, Eq, Structural)]
pub struct ToggleWorker {
    /// The flags as last read from, or written to, the store.
    pub store: ThemeFlags,
    /// The glyph the tray displays.
    pub displayed: Glyph,
}

impl ToggleWorker {
    /// The displayed glyph depicts the mode opposite the stored one.
    pub open spec fn shows_other_mode(self) -> bool {
        self.displayed == glyph_for_spec(self.store.is_light_spec())
    }

    /// Starts from the flags read at start-up, showing the glyph of the
    /// mode opposite the one read.
    pub fn start(store: ThemeFlags) -> (w: Self)
        ensures
            w.store == store,
            w.displayed == glyph_for_spec(store.is_light_spec()),
            w.shows_other_mode(),
    {
        let is_light = store.read_is_light();
        ToggleWorker { store, displayed: glyph_for(is_light) }
    }

    /// Takes in the flags as just read from the store, which may have
    /// been changed from outside since the last cycle.
    pub fn observe(&mut self, store: ThemeFlags)
        ensures
            final(self).store == store,
            final(self).displayed == old(self).displayed,
    {
        self.store = store;
    }

    /// Runs one cycle: reads the active mode, inverts it, writes it to
    /// both flags and displays the glyph of the mode opposite the new one.
    pub fn handle(&mut self, event: ToggleEvent) -> (a: ToggleAction)
        ensures
            a == action_for(old(self).store.is_light_spec()),
            final(self).store == ThemeFlags::stored(a.light),
            final(self).store.is_light_spec() == !old(self).store.is_light_spec(),
            final(self).store.agree(),
            final(self).displayed == a.glyph,
            final(self).shows_other_mode(),
    {
        match event {
            ToggleEvent::ClickTrayIcon => {
                let current = self.store.read_is_light();
                let a = plan_toggle(current);
                self.store.write_is_light(a.light);
                self.displayed = a.glyph;
                a
            },
        }
    }

    /// Runs one cycle per event, in the order given, and returns the
    /// actions in that order: the action at index `i` writes the mode
    /// reached after `i + 1` cycles.
    pub fn handle_all(&mut self, events: &Vec<ToggleEvent>) -> (log: Vec<ToggleAction>)
        ensures
            log@.len() == events@.len(),
            forall|i: int|
                0 <= i < log@.len() ==> #[trigger] log@[i] == action_for(
                    toggled(old(self).store.is_light_spec(), i as nat),
                ),
            events@.len() == 0 ==> *final(self) == *old(self),
            events@.len() > 0 ==> final(self).store == ThemeFlags::stored(
                toggled(old(self).store.is_light_spec(), events@.len()),
            ),
            events@.len() > 0 ==> final(self).shows_other_mode(),
            final(self).store.is_light_spec() == toggled(
                old(self).store.is_light_spec(),
                events@.len(),
            ),
    {
        let ghost s0 = self.store.is_light_spec();
        let mut log: Vec<ToggleAction> = Vec::new();
        let mut i: usize = 0;
        while i < events.len()
            invariant
                0 <= i <= events@.len(),
                log@.len() == i,
                forall|j: int| 0 <= j < i ==> #[trigger] log@[j] == action_for(toggled(s0, j as nat)),
                self.store.is_light_spec() == toggled(s0, i as nat),
                i == 0 ==> *self == *old(self),
                i > 0 ==> self.store == ThemeFlags::stored(toggled(s0, i as nat)),
                i > 0 ==> self.shows_other_mode(),
            decreases events@.len() - i,
        {
            let a = self.handle(events[i]);
            log.push(a);
            i = i + 1;
        }
        log
    }
}

/// One cycle started from stored mode `s` leaves stored mode `!s`, with
/// both flags equal, and the glyph of the mode opposite `!s` displayed.
pub proof fn lemma_cycle_inverts(store: ThemeFlags)
    ensures
        ThemeFlags::stored(action_for(store.is_light_spec()).light).is_light_spec()
            == !store.is_light_spec(),
        ThemeFlags::stored(action_for(store.is_light_spec()).light).agree(),
        action_for(store.is_light_spec()).glyph == glyph_for_spec(!store.is_light_spec()),
{
}

} // verus!

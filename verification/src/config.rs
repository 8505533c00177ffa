use vstd::prelude::*;

verus! {

/// The configured hotkeys, as texts such as `Alt+S`.
#[derive(PartialEq, Clone)]
pub struct HotkeysConfig {
    pub show_screenshot: String,
    pub copy_color: String,
}

impl Default for HotkeysConfig {
    /// `Alt+S` takes a screenshot and `Alt+C` copies the color under the pointer.
    fn default() -> (r: Self)
        ensures
            r.show_screenshot@ == "Alt+S"@,
            r.copy_color@ == "Alt+C"@,
    {
        Self { show_screenshot: String::from_str("Alt+S"), copy_color: String::from_str("Alt+C") }
    }
}

/// By default closing the window minimizes it to the tray.
pub fn default_minimize_on_close() -> (r: bool)
    ensures
        r,
{
    true
}

/// By default the screenshot magnifier is on.
pub fn default_magnifier_enabled() -> (r: bool)
    ensures
        r,
{
    true
}

/// By default the application does not start at log-in.
pub fn default_launch_on_startup() -> (r: bool)
    ensures
        !r,
{
    false
}

/// How long a configuration change rests before it is saved, in nanoseconds.
pub const DEBOUNCE_NANOS: u128 = 500_000_000;

/// The least time between two saves, in nanoseconds.
pub const MIN_SAVE_INTERVAL_NANOS: u128 = 1_000_000_000;

/// What the configuration manager does in a frame.
#[derive(PartialEq, Eq, Clone, Copy, Debug, Structural)]
pub enum SaveStep {
    /// No change waits to be saved.
    Idle,
    /// The change has rested long enough and the last save is old enough: save it and
    /// forget the request.
    Save,
    /// Keep the request and ask for another frame after this many nanoseconds: the change
    /// has not rested long enough, or the last save is too recent.
    Wait(u128),
}

/// The step for a save requested `pending` nanoseconds ago (if one is), when the last save
/// was `since_last_save` nanoseconds ago.
pub open spec fn save_step_spec(pending: Option<u128>, since_last_save: u128) -> SaveStep {
    match pending {
        None => SaveStep::Idle,
        Some(e) => if e >= DEBOUNCE_NANOS {
            if since_last_save >= MIN_SAVE_INTERVAL_NANOS {
                SaveStep::Save
            } else {
                SaveStep::Wait((MIN_SAVE_INTERVAL_NANOS - since_last_save) as u128)
            }
        } else {
            SaveStep::Wait((DEBOUNCE_NANOS - e) as u128)
        },
    }
}

/// The step for a save requested `pending` nanoseconds ago (if one is), when the last save
/// was `since_last_save` nanoseconds ago.
pub fn save_step(pending: Option<u128>, since_last_save: u128) -> (r: SaveStep)
    ensures
        r == save_step_spec(pending, since_last_save),
{
    match pending {
        None => SaveStep::Idle,
        Some(elapsed) => {
            if elapsed >= DEBOUNCE_NANOS {
                if since_last_save >= MIN_SAVE_INTERVAL_NANOS {
                    SaveStep::Save
                } else {
                    SaveStep::Wait(MIN_SAVE_INTERVAL_NANOS - since_last_save)
                }
            } else {
                SaveStep::Wait(DEBOUNCE_NANOS - elapsed)
            }
        },
    }
}

/// When the configuration was last asked to be saved and when it was last saved, as
/// readings of a monotonic clock in nanoseconds.
pub struct SaveScheduler {
    /// The reading at the latest save request not yet handled.
    pub pending_since: Option<u128>,
    /// The reading at the latest save.
    pub last_saved: u128,
}

/// `later - earlier`, or 0 when the clock seems to have run backwards.
pub open spec fn elapsed(earlier: u128, later: u128) -> u128 {
    if later >= earlier {
        (later - earlier) as u128
    } else {
        0
    }
}

/// The step a scheduler takes at `now`, and the scheduler after it: a request that has
/// rested long enough and comes a second or more after the last save is saved and then
/// forgotten; any other request stays pending and waits.
pub open spec fn scheduled(s: SaveScheduler, now: u128) -> (SaveStep, SaveScheduler) {
    let r = save_step_spec(
        match s.pending_since {
            Some(t) => Some(elapsed(t, now)),
            None => None,
        },
        elapsed(s.last_saved, now),
    );
    let next = match r {
        SaveStep::Save => SaveScheduler { pending_since: None, last_saved: now },
        _ => s,
    };
    (r, next)
}

impl SaveScheduler {
    /// Nothing pending; the configuration counts as saved at `now`.
    pub fn new(now: u128) -> (r: Self)
        ensures
            r.pending_since is None,
            r.last_saved == now,
    {
        SaveScheduler { pending_since: None, last_saved: now }
    }

    /// Asks for a save of the configuration changed at `now`; a later request replaces an
    /// earlier one, so the debounce starts again.
    pub fn request_save(&mut self, now: u128)
        ensures
            final(self).pending_since == Some(now),
            final(self).last_saved == old(self).last_saved,
    {
        self.pending_since = Some(now);
    }

    /// Takes the step at `now` (see `scheduled`).
    pub fn step(&mut self, now: u128) -> (r: SaveStep)
        ensures
            (r, *final(self)) == scheduled(*old(self), now),
    {
        let pending = match self.pending_since {
            Some(t) => Some(now.saturating_sub(t)),
            None => None,
        };
        let r = save_step(pending, now.saturating_sub(self.last_saved));
        match r {
            SaveStep::Save => {
                self.last_saved = now;
                self.pending_since = None;
            },
            _ => {},
        }
        r
    }
}

/// A save request is never dropped: every step keeps it pending until the step that saves
/// it, and after that save the next step is idle unless another request comes in between.
pub proof fn lemma_request_kept_until_saved(s: SaveScheduler, now1: u128, now2: u128)
    ensures
        ({
            let (r1, s1) = scheduled(s, now1);
            &&& r1 != SaveStep::Save ==> s1.pending_since == s.pending_since
            &&& r1 == SaveStep::Save ==> s.pending_since is Some && scheduled(s1, now2).0
                == SaveStep::Idle
        }),
{
}

/// A pending request is saved at any moment once it has rested for the debounce time and a
/// second has passed since the last save.
pub proof fn lemma_request_eventually_saved(s: SaveScheduler, t: u128, now: u128)
    requires
        s.pending_since == Some(t),
        now >= t + DEBOUNCE_NANOS,
        now >= s.last_saved + MIN_SAVE_INTERVAL_NANOS,
    ensures
        scheduled(s, now).0 == SaveStep::Save,
        scheduled(s, now).1 == (SaveScheduler { pending_since: None, last_saved: now }),
{
}

/// A wait is never endless: a request asked to wait `w` at `now` is saved by a step at any
/// moment at least `w` plus one save interval later, whatever steps come in between.
pub proof fn lemma_wait_leads_to_save(s: SaveScheduler, t: u128, now: u128, w: u128, later: u128)
    requires
        s.pending_since == Some(t),
        t <= now,
        s.last_saved <= now,
        scheduled(s, now).0 == SaveStep::Wait(w),
        later >= now + w + MIN_SAVE_INTERVAL_NANOS,
    ensures
        scheduled(s, now).1 == s,
        scheduled(s, later).0 == SaveStep::Save,
{
}

/// Two saves are at least `MIN_SAVE_INTERVAL_NANOS` apart: after a save at `now1`, any
/// requests that follow are saved at a later `now2` only once that interval has passed.
pub proof fn lemma_saves_spaced(s: SaveScheduler, now1: u128, request_at: u128, now2: u128)
    requires
        now1 <= now2,
    ensures
        ({
            let (r1, s1) = scheduled(s, now1);
            let s2 = SaveScheduler { pending_since: Some(request_at), ..s1 };
            r1 == SaveStep::Save && scheduled(s2, now2).0 == SaveStep::Save ==> now2 >= now1
                + MIN_SAVE_INTERVAL_NANOS
        }),
{
}

/// A request younger than the debounce time waits exactly for the rest of it.
pub proof fn lemma_wait_until_debounced(s: SaveScheduler, now: u128, t: u128)
    requires
        s.pending_since == Some(t),
        t <= now,
        now - t < DEBOUNCE_NANOS,
    ensures
        scheduled(s, now).0 == SaveStep::Wait((t + DEBOUNCE_NANOS - now) as u128),
        scheduled(s, now).1 == s,
{
}

/// Whether the start-at-log-in setting must be written to the system: only when it
/// changed.
pub fn launch_on_startup_changed(previous: bool, next: bool) -> (r: bool)
    ensures
        r == (previous != next),
{
    previous != next
}

} // verus!

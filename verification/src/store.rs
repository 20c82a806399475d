use vstd::prelude::*;
use crate::settings::{SettingsSnapshot, UserSettings};

verus! {

/// What a read of the store yields, as a value: the snapshot held at the
/// instant of the read, whole and untorn.
pub open spec fn spec_get(s: SettingsSnapshot) -> SettingsSnapshot {
    s
}

/// What a wholesale replacement leaves in the store, as a value: exactly
/// the new snapshot. Nothing of the prior snapshot `s` survives; no field
/// is merged or retained.
pub open spec fn spec_replace(s: SettingsSnapshot, v: SettingsSnapshot) -> SettingsSnapshot {
    v
}

/// The snapshot left after a run of replacements is applied to `s` one
/// after the other, in order: the store serializes contending callers, so
/// any group of replacements takes effect as some such run.
pub open spec fn spec_replace_all(s: SettingsSnapshot, vs: Seq<SettingsSnapshot>) -> SettingsSnapshot
    decreases vs.len(),
{
    if vs.len() == 0 {
        s
    } else {
        spec_replace_all(spec_replace(s, vs[0]), vs.subrange(1, vs.len() as int))
    }
}

/// The container holding exactly one [`UserSettings`] record for its whole
/// lifetime. It is constructed once with the zero-valued record, owns the
/// record exclusively, and answers two requests: hand out a copy of the
/// current record, or replace it entirely. Exclusive access is what the
/// ownership model grants the holder of the store; a host that dispatches
/// concurrent callers serializes them around it.
pub struct SettingsStore {
    settings: UserSettings,
}

impl View for SettingsStore {
    type V = SettingsSnapshot;

    closed spec fn view(&self) -> SettingsSnapshot {
        self.settings@
    }
}

impl SettingsStore {
    /// Constructs the store in its initial state: holding the zero-valued
    /// record, every field the empty string.
    pub fn new() -> (s: Self)
        ensures
            s@ == SettingsSnapshot::empty(),
    {
        SettingsStore { settings: UserSettings::empty() }
    }

    /// Hands out a copy of the current settings record. The copy reflects
    /// the one state the store holds at the instant of the call: no torn
    /// read across fields is possible. The store itself is unchanged.
    pub fn get_user_settings(&self) -> (r: UserSettings)
        ensures
            r@ == spec_get(self@),
    {
        self.settings.clone()
    }

    /// Replaces the stored record with `settings`, atomically and
    /// wholesale: afterwards the store holds exactly the new record, and
    /// the prior value is discarded, not merged. Every record is accepted,
    /// empty fields and all.
    pub fn update_user_settings(&mut self, settings: UserSettings)
        ensures
            final(self)@ == spec_replace(old(self)@, settings@),
    {
        self.settings = settings;
    }
}

/// Round trip: replacing the settings with `v` and then reading them
/// yields exactly `v`, whatever the store held before.
pub proof fn lemma_replace_then_get(s: SettingsSnapshot, v: SettingsSnapshot)
    ensures
        spec_get(spec_replace(s, v)) == v,
{
}

/// Idempotence: replacing the settings with `v` twice in succession
/// leaves the store exactly as one replacement does.
pub proof fn lemma_replace_idempotent(s: SettingsSnapshot, v: SettingsSnapshot)
    ensures
        spec_replace(spec_replace(s, v), v) == spec_replace(s, v),
{
}

/// Full overwrite, no merge: after two successive replacements a read
/// yields exactly the second value; no field of the first is retained.
pub proof fn lemma_replace_overwrites(s: SettingsSnapshot, a: SettingsSnapshot, b: SettingsSnapshot)
    ensures
        spec_get(spec_replace(spec_replace(s, a), b)) == b,
{
}

/// Serialized replacements: a nonempty run of replacements leaves the
/// store holding the last value of the run — which is in particular one of
/// the run's own inputs, never a torn mixture and never the value held
/// before the run.
pub proof fn lemma_serialized_replaces(s: SettingsSnapshot, vs: Seq<SettingsSnapshot>)
    requires
        vs.len() > 0,
    ensures
        spec_replace_all(s, vs) == vs.last(),
        exists|i: int| 0 <= i < vs.len() && spec_replace_all(s, vs) == vs[i],
    decreases vs.len(),
{
    let rest = vs.subrange(1, vs.len() as int);
    if vs.len() == 1 {
        assert(rest.len() == 0);
        assert(spec_replace_all(spec_replace(s, vs[0]), rest) == spec_replace(s, vs[0]));
    } else {
        lemma_serialized_replaces(spec_replace(s, vs[0]), rest);
        assert(rest.last() == vs.last());
    }
    assert(spec_replace_all(s, vs) == vs[vs.len() - 1]);
}

} // verus!

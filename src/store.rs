use vstd::prelude::*;
use crate::settings::{AppData, AppDataView, default_data};

verus! {

/// Name of the file, in the application's data directory, that holds the store.
pub const STORE_FILE: &'static str = "app_data.json";

/// Key under which the record is kept in the store.
pub const RECORD_KEY: &'static str = "app_data";

/// A single-slot settings store: it holds one `AppData` record or nothing.
/// Saving replaces the whole record; loading an empty slot gives the defaults.
pub struct SettingsStore {
    record: Option<AppData>,
}

/// What a load hands back for a slot's content.
pub open spec fn loaded(slot: Option<AppDataView>) -> AppDataView {
    match slot {
        Some(d) => d,
        None => default_data(),
    }
}

/// The slot's content after a save of `data`: the record, whatever was there.
pub open spec fn after_save(slot: Option<AppDataView>, data: AppDataView) -> Option<AppDataView> {
    Some(data)
}

/// The slot's content after a reset: the default record.
pub open spec fn after_reset(slot: Option<AppDataView>) -> Option<AppDataView> {
    after_save(slot, default_data())
}

impl View for SettingsStore {
    type V = Option<AppDataView>;

    closed spec fn view(&self) -> Option<AppDataView> {
        match self.record {
            Some(d) => Some(d@),
            None => None,
        }
    }
}

impl SettingsStore {
    /// A store that holds no record yet.
    pub fn new() -> (r: SettingsStore)
        ensures
            r@ == None::<AppDataView>,
    {
        SettingsStore { record: None }
    }

    /// A store over a record read from disk, or over nothing when none was found.
    pub fn from_record(record: Option<AppData>) -> (r: SettingsStore)
        ensures
            r@ == (match record {
                Some(d) => Some(d@),
                None => None::<AppDataView>,
            }),
    {
        SettingsStore { record }
    }

    /// The record to write back to disk; `None` when the slot is empty.
    pub fn into_record(self) -> (r: Option<AppData>)
        ensures
            self@ == (match r {
                Some(d) => Some(d@),
                None => None::<AppDataView>,
            }),
    {
        self.record
    }

    /// The stored record, or the defaults when nothing was stored.
    pub fn load(&self) -> (r: AppData)
        ensures
            r@ == loaded(self@),
    {
        match &self.record {
            Some(d) => d.duplicate(),
            None => AppData::default(),
        }
    }

    /// Replaces the stored record with `data`.
    pub fn save(&mut self, data: AppData)
        ensures
            final(self)@ == after_save(old(self)@, data@),
    {
        self.record = Some(data);
    }

    /// Replaces the stored record with the defaults.
    pub fn reset(&mut self)
        ensures
            final(self)@ == after_reset(old(self)@),
    {
        self.record = Some(AppData::default());
    }
}

/// Loading a store that was never saved to gives the default record.
pub proof fn lemma_load_unsaved()
    ensures
        loaded(None) == default_data(),
{
}

/// A save followed by a load gives back the saved record, whatever the store
/// held before.
pub proof fn lemma_save_then_load(slot: Option<AppDataView>, data: AppDataView)
    ensures
        loaded(after_save(slot, data)) == data,
{
}

/// A reset followed by a load gives the default record, whatever was saved
/// before.
pub proof fn lemma_reset_then_load(slot: Option<AppDataView>)
    ensures
        loaded(after_reset(slot)) == default_data(),
{
}

} // verus!

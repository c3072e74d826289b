//! The plain form of the launcher's Codex configuration handling: it
//! recognises only the configured provider id, and a restore takes back the
//! top-level settings and that one provider block.
use vstd::prelude::*;

use toml_edit::DocumentMut;

use crate::lpad_config::{
    apply_spec, provider_slot_ok, remove_provider_spec, restore_state_of, revert_spec,
    RestoreStateModel, TomlMap,
};
pub use crate::lpad_config::{
    apply_to_document, default_codex_config_path, remove_provider, CodexConfigError,
    PersistentCodexConfig, RestoreState,
};
use crate::lpad_config::revert_launcher_root_settings;
use crate::text::str_eq;
use crate::toml_doc::{
    provider_ids_spec, provider_path, providers_key, root_path, root_str_spec, toml_items,
    toml_root_remove, toml_root_str, without,
};

verus! {

/// Whether Codex is on the provider `provider_id`.
pub open spec fn on_provider(m: TomlMap, provider_id: Seq<char>) -> bool {
    root_str_spec(m, "model_provider"@) == Some(provider_id)
}

/// The settings to save before switching Codex to `provider_id`: none when
/// Codex is already on it or settings were saved before.
pub open spec fn state_to_save_spec(m: TomlMap, provider_id: Seq<char>, saved_before: bool) -> Option<RestoreStateModel> {
    if on_provider(m, provider_id) || saved_before {
        None
    } else {
        Some(restore_state_of(m))
    }
}

/// Switches Codex to the launcher's provider and returns the settings to
/// save, when they have to be saved.
pub fn apply(doc: &mut DocumentMut, settings: &PersistentCodexConfig, restore_state_saved: bool) -> (r: Option<RestoreState>)
    requires
        provider_slot_ok(toml_items(*old(doc)), settings.provider_id@),
    ensures
        match r {
            Some(s) => state_to_save_spec(toml_items(*old(doc)), settings.provider_id@, restore_state_saved) == Some(s@),
            None => state_to_save_spec(toml_items(*old(doc)), settings.provider_id@, restore_state_saved) is None,
        },
        toml_items(*final(doc)) == apply_spec(toml_items(*old(doc)), *settings),
{
    let on = match toml_root_str(doc, "model_provider") {
        Some(current) => str_eq(current.as_str(), settings.provider_id.as_str()),
        None => false,
    };
    let state = if on || restore_state_saved {
        None
    } else {
        Some(RestoreState::from_document(doc))
    };
    apply_to_document(doc, settings);
    state
}

/// Putting the top-level settings back, when Codex is on `provider_id`: the
/// saved ones when there are some, else only `model_provider` goes.
pub open spec fn restore_root_values_spec(m: TomlMap, provider_id: Seq<char>, state: Option<RestoreStateModel>) -> TomlMap {
    if !on_provider(m, provider_id) {
        m
    } else {
        match state {
            Some(s) => revert_spec(m, Some(s)),
            None => without(m, root_path("model_provider"@)),
        }
    }
}

pub fn restore_root_values(doc: &mut DocumentMut, provider_id: &str, restore_state: Option<&RestoreState>)
    ensures
        toml_items(*final(doc)) == restore_root_values_spec(
            toml_items(*old(doc)),
            provider_id@,
            match restore_state {
                Some(s) => Some(s@),
                None => None,
            },
        ),
{
    let on = match toml_root_str(doc, "model_provider") {
        Some(current) => str_eq(current.as_str(), provider_id),
        None => false,
    };
    if !on {
        return;
    }
    match restore_state {
        Some(state) => revert_launcher_root_settings(doc, Some(state)),
        None => toml_root_remove(doc, "model_provider"),
    }
}

/// Takes the launcher's provider out of `doc`: the top-level settings come
/// back and the provider block goes.
pub fn restore(doc: &mut DocumentMut, provider_id: &str, restore_state: Option<&RestoreState>)
    ensures
        toml_items(*final(doc)) == remove_provider_spec(
            restore_root_values_spec(
                toml_items(*old(doc)),
                provider_id@,
                match restore_state {
                    Some(s) => Some(s@),
                    None => None,
                },
            ),
            provider_id@,
        ),
{
    restore_root_values(doc, provider_id, restore_state);
    remove_provider(doc, provider_id);
}

/// After a restore, the launcher's provider block is gone.
pub proof fn law_restore_removes_provider(m: TomlMap, provider_id: Seq<char>, state: Option<RestoreStateModel>)
    ensures
        !provider_ids_spec(
            remove_provider_spec(restore_root_values_spec(m, provider_id, state), provider_id),
        ).contains(provider_id),
{
    let m1 = restore_root_values_spec(m, provider_id, state);
    let mp = root_path(providers_key());
    assert(mp.subrange(0, 1) =~= mp);
    let pp = provider_path(provider_id);
    assert(pp.subrange(0, 2) =~= pp);
}

} // verus!

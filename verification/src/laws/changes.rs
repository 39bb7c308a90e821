//! How the settings are loaded, changed and written.

use crate::config;
use crate::config::{Config, VcenterEntry, VcenterEntryView};
use crate::ids;
use crate::laws::settings as settings_laws;
use crate::settings;
use crate::settings::{GeneralSettings, PasswordAction, VcenterChange};
use crate::text;
use vstd::prelude::*;

verus! {

/// Settings take effect exactly where they could be written. Otherwise those before stay, and the
/// reason is told.
pub proof fn law_settings_take_effect_once_written(
    config: &mut Config,
    next: Config,
    written: Result<(), String>,
    r: Result<(), String>,
)
    requires
        call_ensures(settings::commit, (config, next, written), r),
    ensures
        r is Ok <==> written is Ok,
        written is Ok ==> final(config)@ == next@,
        written matches Err(reason) ==> {
            &&& final(config)@ == old(config)@
            &&& r matches Err(message) && message@ == "Could not write settings file: "@ + reason@
        },
{
}

/// What the keychain answers decides on a password that is carried over alone: it is then stored
/// under the new account, where there is one. Nothing else of a change is touched.
pub proof fn law_keychain_decides_on_carried_passwords(
    change: VcenterChange,
    stored: Result<Option<String>, String>,
    loaded: VcenterChange,
)
    requires
        call_ensures(VcenterChange::loaded, (change, stored), loaded),
    ensures
        loaded.id@ == change.id@ && loaded.config@ == change.config@,
        text::option_view(loaded.retired) == text::option_view(change.retired),
        change.password !is CarryOver ==> loaded.password@ == change.password@,
        change.password matches PasswordAction::CarryOver(_, to) ==> match stored {
            Ok(Some(password)) => loaded.password matches PasswordAction::Store(account, kept)
                && account@ == to@ && kept@ == password@,
            _ => loaded.password is Keep,
        },
{
}

/// A change goes on exactly where its password could be stored, and has none to store any more.
pub proof fn law_changes_go_on_once_stored(
    change: VcenterChange,
    kept: Result<(), String>,
    r: Result<VcenterChange, String>,
)
    requires
        call_ensures(VcenterChange::stored, (change, kept), r),
    ensures
        r is Ok <==> kept is Ok,
        r matches Ok(next) ==> {
            &&& next.password is Keep
            &&& next.id@ == change.id@ && next.config@ == change.config@
            &&& text::option_view(next.retired) == text::option_view(change.retired)
        },
        kept matches Err(reason) ==> (r matches Err(message) && message@
            == "Could not save the password to the OS keychain: "@ + reason@),
{
}

/// General settings are taken over as chosen, and the vCenters stay as they are but for cleaning
/// up.
pub proof fn law_general_settings_are_saved(
    config: &Config,
    general: GeneralSettings,
    times: &Vec<u128>,
    next: Config,
)
    requires
        call_ensures(settings::save_general_at, (config, general, times), next),
        general.port >= 1024,
    ensures
        next.port == general.port,
        text::texts_view(next.allowed_origins@) == config::settled_origins(
            text::texts_view(general.allowed_origins@),
        ),
        general.allow_local_files ==> next.allow_local_files,
        next.allow_local_files && !general.allow_local_files ==> exists|i: int|
            0 <= i < general.allowed_origins@.len() && config::canonical_origin(
                text::trim((#[trigger] general.allowed_origins@[i])@),
            ) == "null"@,
        next@.vcenters == config@.normalized(times@).vcenters,
{
    let listed = settings::with_general(config@, general@);
    settings_laws::law_general_settings_are_taken_over(config@, config@, general@, times@);
    settings_laws::law_normalizing_keeps_port_and_local_files(listed, times@);
    if next.allow_local_files && !general.allow_local_files {
        let i = choose|i: int|
            0 <= i < listed.allowed_origins.len() && config::canonical_origin(
                text::trim(#[trigger] listed.allowed_origins[i]),
            ) == "null"@;
        assert(general.allowed_origins@[i]@ == listed.allowed_origins[i]);
    }
}

/// General settings are saved by the time of day in the same way.
pub proof fn law_general_settings_are_saved_by_the_clock(
    config: &Config,
    general: GeneralSettings,
    next: Config,
)
    requires
        call_ensures(settings::save_general, (config, general), next),
        config.vcenters@.len() > 0,
        general.port >= 1024,
    ensures
        next.port == general.port,
        text::texts_view(next.allowed_origins@) == config::settled_origins(
            text::texts_view(general.allowed_origins@),
        ),
        general.allow_local_files ==> next.allow_local_files,
        next.vcenters@.len() == config.vcenters@.len(),
{
    let listed = settings::with_general(config@, general@);
    let times = choose|times: Seq<u128>|
        {
            &&& config@.vcenters.len() < times.len()
            &&& next@ == #[trigger] listed.normalized(times)
        };
    settings_laws::law_general_settings_are_taken_over(config@, config@, general@, times);
    settings_laws::law_nothing_else_is_migrated(listed, times);
    assert(next@.vcenters.len() == next.vcenters@.len());
    assert(config@.vcenters.len() == config.vcenters@.len());
}

/// Without a file that can be read the settings are those of a new helper: no vCenters, port 8765,
/// the published website and its two local copies, no local files.
pub proof fn law_helpers_start_with_the_defaults(config: Config)
    requires
        call_ensures(Config::load, (None::<Config>,), config),
    ensures
        config.vcenters@.len() == 0,
        config.port == 8765,
        !config.allow_local_files,
        text::texts_view(config.allowed_origins@) == seq![
            "https://dbh-insights.github.io"@,
            "http://localhost:5500"@,
            "http://127.0.0.1:5500"@,
        ],
{
    assert(config@.vcenters.len() == config.vcenters@.len());
}

/// Settings that are loaded keep their port and their origins, and those for each vCenter but for
/// cleaning up. Normalizing them does the same.
pub proof fn law_loaded_settings_are_kept(
    parsed: Config,
    loaded: Config,
    kept: Config,
    i: int,
)
    requires
        call_ensures(Config::load, (Some(parsed),), loaded),
        call_ensures(Config::normalized, (parsed,), kept),
        0 <= i < parsed.vcenters@.len(),
    ensures
        loaded.port == (if parsed.port == 0 {
            8765
        } else {
            parsed.port
        }),
        kept.port == loaded.port,
        parsed.allow_local_files ==> loaded.allow_local_files && kept.allow_local_files,
        text::texts_view(loaded.allowed_origins@) == config::settled_origins(
            text::texts_view(parsed.allowed_origins@),
        ),
        text::texts_view(kept.allowed_origins@) == text::texts_view(loaded.allowed_origins@),
        loaded.vcenters@.len() == parsed.vcenters@.len(),
        kept.vcenters@.len() == parsed.vcenters@.len(),
        loaded.vcenters@[i].host@ == config::host_of(parsed.vcenters@[i].host@),
        loaded.vcenters@[i].username@ == text::trim(parsed.vcenters@[i].username@),
        loaded.vcenters@[i].accept_invalid_certs == parsed.vcenters@[i].accept_invalid_certs,
        kept.vcenters@[i].host@ == loaded.vcenters@[i].host@,
        kept.vcenters@[i].username@ == loaded.vcenters@[i].username@,
{
    let times = choose|times: Seq<u128>|
        {
            &&& parsed@.vcenters.len() < times.len()
            &&& loaded@ == #[trigger] parsed@.normalized(times)
        };
    let others = choose|times: Seq<u128>|
        {
            &&& parsed@.vcenters.len() < times.len()
            &&& kept@ == #[trigger] parsed@.normalized(times)
        };
    settings_laws::law_normalizing_keeps_port_and_local_files(parsed@, times);
    settings_laws::law_normalizing_keeps_port_and_local_files(parsed@, others);
    settings_laws::law_nothing_else_is_migrated(parsed@, times);
    settings_laws::law_nothing_else_is_migrated(parsed@, others);
    lemma_entries_are_kept(parsed@.vcenters, times, i);
    lemma_entries_are_kept(parsed@.vcenters, others, i);
    assert(parsed@.vcenters[i] == parsed.vcenters@[i]@);
    assert(loaded@.vcenters[i] == loaded.vcenters@[i]@);
    assert(kept@.vcenters[i] == kept.vcenters@[i]@);
}

/// Each entry is cleaned up in its place.
proof fn lemma_entries_are_kept(
    entries: Seq<VcenterEntryView>,
    times: Seq<u128>,
    i: int,
)
    requires
        0 <= i < entries.len(),
    ensures
        ({
            let settled = config::settled_entries(entries, times);
            &&& settled.len() == entries.len()
            &&& settled[i] == VcenterEntryView {
                id: settled[i].id,
                ..entries[i].normalized()
            }
        }),
    decreases entries.len(),
{
    let before = entries.drop_last();
    assert(before.push(entries.last()) =~= entries);
    settings_laws::law_entries_are_added_with_ids_of_their_own(before, entries.last(), times);
    let settled = config::settled_entries(entries, times);
    if before.len() > 0 {
        let j = if i < before.len() {
            i
        } else {
            0
        };
        lemma_entries_are_kept(before, times, j);
        assert(i < before.len() ==> settled.drop_last()[i] == settled[i]);
    } else {
        assert(config::settled_entries(before, times).len() == 0);
    }
}

/// A new id is nobody's yet.
pub proof fn law_new_ids_are_nobodys(config: &Config, id: String, i: int)
    requires
        call_ensures(Config::new_id, (config,), id),
        0 <= i < config.vcenters@.len(),
    ensures
        config.vcenters@[i].id@ != id@,
        "vc-"@.is_prefix_of(id@),
{
    assert(config@.vcenters[i].id == config.vcenters@[i].id@);
}

/// A new entry says nothing yet.
pub proof fn law_new_entries_are_empty(entry: VcenterEntry)
    requires
        call_ensures(<VcenterEntry as Default>::default, (), entry),
    ensures
        entry.id@.len() == 0 && entry.name@.len() == 0,
        entry.host@.len() == 0 && entry.username@.len() == 0,
        !entry.accept_invalid_certs,
{
}

/// An entry is found at the first place where its id stands.
pub proof fn law_entries_are_found_by_their_id(
    entries: &Vec<VcenterEntry>,
    id: &str,
    index: Option<usize>,
    j: int,
)
    requires
        call_ensures(ids::index_of_id, (entries, id), index),
        0 <= j < entries@.len(),
    ensures
        index is None ==> entries@[j].id@ != id@,
        index matches Some(i) ==> i < entries@.len() && entries@[i as int].id@ == id@ && (j < i
            ==> entries@[j].id@ != id@),
{
    assert(ids::entries_view(entries@)[j].id == entries@[j].id@);
    if let Some(i) = index {
        assert(ids::entries_view(entries@)[i as int].id == entries@[i as int].id@);
    }
}

/// A copy of a list of entries has the same entries, each in its place.
pub proof fn law_copies_are_the_same(
    entries: &Vec<VcenterEntry>,
    copy: Vec<VcenterEntry>,
    config: &Config,
    copied: Config,
    i: int,
)
    requires
        call_ensures(ids::copy_entries, (entries,), copy),
        call_ensures(<Config as Clone>::clone, (config,), copied),
        0 <= i < entries@.len(),
    ensures
        copy@.len() == entries@.len(),
        copy@[i]@ == entries@[i]@,
        copied@ == config@,
{
    assert(ids::entries_view(copy@).len() == copy@.len());
    assert(ids::entries_view(copy@)[i] == copy@[i]@);
    assert(ids::entries_view(entries@)[i] == entries@[i]@);
}

} // verus!

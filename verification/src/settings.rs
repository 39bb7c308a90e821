//! What the settings window shows and changes.

use crate::clock;
use crate::config;
use crate::config::{Config, ConfigView, VcenterEntry, VcenterEntryView};
use crate::ids;
use crate::listener::{ServerStatus, ServerStatusView};
use crate::text;
use crate::vcenter;
use vstd::prelude::*;
use vstd::string::StringExecFns;

verus! {

/// A vCenter, as the settings window shows it.
pub struct ListedVcenter {
    pub entry: VcenterEntry,
    /// Whether the keychain holds a password for it.
    pub has_password: bool,
}

/// What a [`ListedVcenter`] says.
#[verifier::ext_equal]
pub struct ListedVcenterView {
    pub entry: VcenterEntryView,
    pub has_password: bool,
}

impl View for ListedVcenter {
    type V = ListedVcenterView;

    open spec fn view(&self) -> ListedVcenterView {
        ListedVcenterView { entry: self.entry@, has_password: self.has_password }
    }
}

/// What the settings window shows.
pub struct Settings {
    pub vcenters: Vec<ListedVcenter>,
    pub port: u16,
    pub allowed_origins: Vec<String>,
    pub allow_local_files: bool,
    pub server: ServerStatus,
}

/// What a [`Settings`] says.
#[verifier::ext_equal]
pub struct SettingsView {
    pub vcenters: Seq<ListedVcenterView>,
    pub port: u16,
    pub allowed_origins: Seq<Seq<char>>,
    pub allow_local_files: bool,
    pub server: ServerStatusView,
}

impl View for Settings {
    type V = SettingsView;

    open spec fn view(&self) -> SettingsView {
        SettingsView {
            vcenters: self.vcenters@.map_values(|listed: ListedVcenter| listed@),
            port: self.port,
            allowed_origins: text::texts_view(self.allowed_origins@),
            allow_local_files: self.allow_local_files,
            server: self.server@,
        }
    }
}

/// Whether the keychain answered with a password.
pub open spec fn holds_password(stored: Result<Option<String>, String>) -> bool {
    stored matches Ok(Some(_))
}

/// The entries, as the settings window shows them, where `stored` is what the keychain answered
/// for each.
pub open spec fn listed(
    entries: Seq<VcenterEntryView>,
    stored: Seq<Result<Option<String>, String>>,
) -> Seq<ListedVcenterView> {
    Seq::new(
        entries.len(),
        |i: int| ListedVcenterView { entry: entries[i], has_password: holds_password(stored[i]) },
    )
}

/// What the settings window shows, where `stored` is what the keychain answered for each entry.
pub fn get_settings(
    config: Config,
    stored: &Vec<Result<Option<String>, String>>,
    server: ServerStatus,
) -> (settings: Settings)
    requires
        stored@.len() == config.vcenters@.len(),
    ensures
        settings@ == (SettingsView {
            vcenters: listed(config@.vcenters, stored@),
            port: config@.port,
            allowed_origins: config@.allowed_origins,
            allow_local_files: config@.allow_local_files,
            server: server@,
        }),
{
    let mut vcenters: Vec<ListedVcenter> = Vec::new();
    for i in 0..config.vcenters.len()
        invariant
            stored@.len() == config.vcenters@.len(),
            vcenters@.len() == i,
            forall|j: int|
                0 <= j < i ==> (#[trigger] vcenters@[j])@ == listed(config@.vcenters, stored@)[j],
    {
        let has_password = match &stored[i] {
            Ok(Some(_)) => true,
            _ => false,
        };
        vcenters.push(ListedVcenter { entry: config.vcenters[i].clone(), has_password });
    }
    assert(vcenters@.map_values(|listed: ListedVcenter| listed@) == listed(
        config@.vcenters,
        stored@,
    ));
    Settings {
        vcenters,
        port: config.port,
        allowed_origins: config.allowed_origins,
        allow_local_files: config.allow_local_files,
        server,
    }
}

/// Whether the settings window opens when the helper starts. Set-it-and-forget-it: only where there
/// is nothing configured yet.
pub fn opens_window(config: &Config) -> (opens: bool)
    ensures
        opens == (config@.vcenters.len() == 0),
{
    config.vcenters.len() == 0
}

/// Why a change of the settings failed that could not be written.
pub open spec fn write_failure(reason: Seq<char>) -> Seq<char> {
    "Could not write settings file: "@ + reason
}

/// Takes `next` for the configuration once it has been written. `written` is what came of that: if
/// it failed, the configuration stays as it is.
pub fn commit(config: &mut Config, next: Config, written: Result<(), String>) -> (r: Result<
    (),
    String,
>)
    ensures
        match (r, written) {
            (Ok(()), Ok(())) => final(config)@ == next@,
            (Err(message), Err(reason)) => {
                &&& final(config)@ == old(config)@
                &&& message@ == write_failure(reason@)
            },
            _ => false,
        },
{
    match written {
        Ok(()) => {
            *config = next;
            Ok(())
        },
        Err(reason) => Err("Could not write settings file: ".to_owned().concat(&reason)),
    }
}

/// Why a change of the settings failed whose password could not be kept.
pub open spec fn keychain_failure(reason: Seq<char>) -> Seq<char> {
    "Could not save the password to the OS keychain: "@ + reason
}

/// The settings that are not about one vCenter.
pub struct GeneralSettings {
    pub port: u16,
    pub allowed_origins: Vec<String>,
    pub allow_local_files: bool,
}

/// What a [`GeneralSettings`] says.
#[verifier::ext_equal]
pub struct GeneralSettingsView {
    pub port: u16,
    pub allowed_origins: Seq<Seq<char>>,
    pub allow_local_files: bool,
}

impl View for GeneralSettings {
    type V = GeneralSettingsView;

    open spec fn view(&self) -> GeneralSettingsView {
        GeneralSettingsView {
            port: self.port,
            allowed_origins: text::texts_view(self.allowed_origins@),
            allow_local_files: self.allow_local_files,
        }
    }
}

/// Whether the server has to be started on the port that the settings name, before anything is
/// saved, or why the settings are refused. The port is switched at once rather than on the next
/// restart. If the new port can't be opened, nothing is saved and the helper keeps listening where
/// it was.
pub fn check_general(settings: &GeneralSettings, running: &ServerStatus) -> (r: Result<bool, String>)
    ensures
        match r {
            Ok(start) => {
                &&& settings@.port >= 1024
                &&& start == (!running@.listening || running@.port != settings@.port)
            },
            Err(message) => {
                &&& settings@.port < 1024
                &&& message@ == "Choose a port from 1024 to 65535."@
            },
        },
{
    if settings.port < 1024 {
        return Err("Choose a port from 1024 to 65535.".to_owned());
    }
    Ok(!running.listening || running.port != settings.port)
}

/// The configuration with these settings in it, before it is cleaned up.
pub open spec fn with_general(config: ConfigView, settings: GeneralSettingsView) -> ConfigView {
    ConfigView {
        port: settings.port,
        allowed_origins: settings.allowed_origins,
        allow_local_files: settings.allow_local_files,
        ..config
    }
}

/// The configuration with these settings in it.
fn set_general(config: &Config, settings: GeneralSettings) -> (next: Config)
    ensures
        next@ == with_general(config@, settings@),
        next.vcenters@.len() == config.vcenters@.len(),
{
    let mut next = config.clone();
    assert(next@.vcenters.len() == config@.vcenters.len());
    next.port = settings.port;
    next.allowed_origins = settings.allowed_origins;
    next.allow_local_files = settings.allow_local_files;
    next
}

/// The configuration to save for these settings, where `times` are the times at which the entries
/// are looked at.
pub fn save_general_at(config: &Config, settings: GeneralSettings, times: &Vec<u128>) -> (next:
    Config)
    requires
        config.vcenters@.len() <= ids::ID_SPACE,
        config.vcenters@.len() <= times@.len(),
        times@.len() > 0,
    ensures
        next@ == with_general(config@, settings@).normalized(times@),
{
    set_general(config, settings).normalized_at(times)
}

/// The configuration to save for these settings, by the time of day.
pub fn save_general(config: &Config, settings: GeneralSettings) -> (next: Config)
    requires
        config.vcenters@.len() <= ids::ID_SPACE,
    ensures
        exists|times: Seq<u128>|
            {
                &&& config@.vcenters.len() < times.len()
                &&& next@ == #[trigger] with_general(config@, settings@).normalized(times)
            },
        next@.is_settled(),
{
    set_general(config, settings).normalized()
}

/// Saving general settings leaves the vCenters as they are, and takes the port as it was chosen.
/// The configuration is one whose entries have been cleaned up.
pub proof fn law_general_settings_keep_the_vcenters(
    config: ConfigView,
    settings: GeneralSettingsView,
    times: Seq<u128>,
)
    requires
        config.is_settled(),
        forall|i: int|
            0 <= i < config.vcenters.len() ==> (#[trigger] config.vcenters[i]).normalized()
                == config.vcenters[i],
        settings.port >= 1024,
    ensures
        with_general(config, settings).normalized(times).vcenters == config.vcenters,
        with_general(config, settings).normalized(times).port == settings.port,
{
    config::lemma_settled_entries_stay(config.vcenters, times);
}

/// What to do about the password before a vCenter is saved.
pub enum PasswordAction {
    /// Nothing.
    Keep,
    /// Keep a password under the keychain account.
    Store(String, String),
    /// Keep the password of the first account under the second, if there is one.
    CarryOver(String, String),
}

/// What to do about the password before a vCenter is saved.
#[verifier::ext_equal]
pub enum PasswordActionView {
    Keep,
    Store(Seq<char>, Seq<char>),
    CarryOver(Seq<char>, Seq<char>),
}

impl View for PasswordAction {
    type V = PasswordActionView;

    open spec fn view(&self) -> PasswordActionView {
        match self {
            PasswordAction::Keep => PasswordActionView::Keep,
            PasswordAction::Store(account, password) => PasswordActionView::Store(
                account@,
                password@,
            ),
            PasswordAction::CarryOver(from, to) => PasswordActionView::CarryOver(from@, to@),
        }
    }
}

/// What carrying a password over comes to, where `stored` is what the keychain answered for the
/// account that has it.
pub open spec fn carried(
    to: Seq<char>,
    stored: Result<Option<Seq<char>>, Seq<char>>,
) -> PasswordActionView {
    match stored {
        Ok(Some(password)) => PasswordActionView::Store(to, password),
        _ => PasswordActionView::Keep,
    }
}

/// A change of the vCenters that is to be saved.
pub struct VcenterChange {
    /// The vCenter that it is about.
    pub id: String,
    /// What to do first.
    pub password: PasswordAction,
    /// The configuration to save next.
    pub config: Config,
    /// The keychain account to delete once that is saved.
    pub retired: Option<String>,
}

/// What a [`VcenterChange`] says.
#[verifier::ext_equal]
pub struct VcenterChangeView {
    pub id: Seq<char>,
    pub password: PasswordActionView,
    pub config: ConfigView,
    pub retired: Option<Seq<char>>,
}

impl View for VcenterChange {
    type V = VcenterChangeView;

    open spec fn view(&self) -> VcenterChangeView {
        VcenterChangeView {
            id: self.id@,
            password: self.password@,
            config: self.config@,
            retired: text::option_view(self.retired),
        }
    }
}

impl VcenterChangeView {
    /// The change once the keychain has answered for the account whose password is carried over.
    pub open spec fn loaded(
        self,
        stored: Result<Option<Seq<char>>, Seq<char>>,
    ) -> VcenterChangeView {
        VcenterChangeView {
            password: match self.password {
                PasswordActionView::CarryOver(_, to) => carried(to, stored),
                other => other,
            },
            ..self
        }
    }
}

impl VcenterChange {
    /// The change once the keychain has answered for the account whose password is carried over:
    /// that is kept under the new account, if there is one.
    pub fn loaded(self, stored: Result<Option<String>, String>) -> (change: Self)
        ensures
            change@ == self@.loaded(vcenter::stored_view(stored)),
    {
        let password = match self.password {
            PasswordAction::CarryOver(from, to) => match stored {
                Ok(Some(password)) => PasswordAction::Store(to, password),
                _ => PasswordAction::Keep,
            },
            other => other,
        };
        VcenterChange { password, ..self }
    }

    /// The change once the password is in the keychain, or that it could not be kept there.
    pub fn stored(self, kept: Result<(), String>) -> (r: Result<VcenterChange, String>)
        ensures
            match (r, kept) {
                (Ok(change), Ok(())) => change@ == (VcenterChangeView {
                    password: PasswordActionView::Keep,
                    ..self@
                }),
                (Err(message), Err(reason)) => message@ == keychain_failure(reason@),
                _ => false,
            },
    {
        match kept {
            Ok(()) => Ok(VcenterChange { password: PasswordAction::Keep, ..self }),
            Err(reason) => Err(
                "Could not save the password to the OS keychain: ".to_owned().concat(&reason),
            ),
        }
    }
}

/// The index of the first entry that goes by `id`, where there is one.
pub open spec fn index_of(entries: Seq<VcenterEntryView>, id: Seq<char>) -> int {
    choose|i: int| #[trigger] ids::is_first_with_id(entries, id, i)
}

/// What to do about the password of an entry that is saved. `typed` is the password that was
/// typed, and `previous` the entry before, if there was one.
pub open spec fn password_action(
    entry: VcenterEntryView,
    typed: Option<Seq<char>>,
    previous: Option<VcenterEntryView>,
) -> PasswordActionView {
    let account = entry.keyring_account();
    if typed is Some && typed->0.len() > 0 {
        PasswordActionView::Store(account, typed->0)
    } else if previous is Some && previous->0.keyring_account() != account {
        PasswordActionView::CarryOver(previous->0.keyring_account(), account)
    } else {
        PasswordActionView::Keep
    }
}

/// What saving a vCenter comes to at the time `nanos`, or why it is refused. `typed` is the
/// password that was typed, if any was.
pub open spec fn saved_vcenter(
    config: ConfigView,
    vcenter: VcenterEntryView,
    typed: Option<Seq<char>>,
    nanos: nat,
) -> Result<VcenterChangeView, Seq<char>> {
    let entry = vcenter.normalized();
    if !entry.is_complete() {
        Err("Address and username are required."@)
    } else if entry.id.len() > 0 && ids::has_id(config.vcenters, entry.id) {
        let i = index_of(config.vcenters, entry.id);
        let previous = config.vcenters[i];
        let vcenters = config.vcenters.update(i, entry);
        Ok(
            VcenterChangeView {
                id: entry.id,
                password: password_action(entry, typed, Some(previous)),
                config: ConfigView { vcenters, ..config },
                retired: if previous.keyring_account() == entry.keyring_account() {
                    None
                } else {
                    config::retired_account(vcenters, previous)
                },
            },
        )
    } else {
        let entry = VcenterEntryView { id: ids::fresh_id(config.vcenters, nanos), ..entry };
        Ok(
            VcenterChangeView {
                id: entry.id,
                password: password_action(entry, typed, None),
                config: ConfigView { vcenters: config.vcenters.push(entry), ..config },
                retired: None,
            },
        )
    }
}

/// Whether a change or a message says what `expected` says.
pub open spec fn change_or_message(
    r: Result<VcenterChange, String>,
    expected: Result<VcenterChangeView, Seq<char>>,
) -> bool {
    match (r, expected) {
        (Ok(change), Ok(expected)) => change@ == expected,
        (Err(message), Err(expected)) => message@ == expected,
        _ => false,
    }
}

/// What to do about the password of an entry that is saved.
fn choose_password_action(
    entry: &VcenterEntry,
    typed: Option<String>,
    previous: Option<&VcenterEntry>,
) -> (action: PasswordAction)
    ensures
        action@ == password_action(
            entry@,
            text::option_view(typed),
            match previous {
                Some(previous) => Some(previous@),
                None => None,
            },
        ),
{
    let account = entry.keyring_account();
    if let Some(password) = typed {
        if !password.as_str().is_empty() {
            return PasswordAction::Store(account, password);
        }
    }
    match previous {
        Some(previous) => {
            // Address or username changed without a new password: carry the old one over.
            let before = previous.keyring_account();
            if text::same_text(&before, &account) {
                PasswordAction::Keep
            } else {
                PasswordAction::CarryOver(before, account)
            }
        },
        None => PasswordAction::Keep,
    }
}

/// What saving a vCenter comes to at the time `nanos`: it is added, unless one of the entries
/// goes by its id, which it then replaces.
pub fn save_vcenter_at(
    config: &Config,
    vcenter: VcenterEntry,
    typed: Option<String>,
    nanos: u128,
) -> (r: Result<VcenterChange, String>)
    requires
        config.vcenters@.len() < ids::ID_SPACE,
    ensures
        change_or_message(
            r,
            saved_vcenter(config@, vcenter@, text::option_view(typed), nanos as nat),
        ),
{
    let mut entry = vcenter.normalized();
    if !entry.is_complete() {
        return Err("Address and username are required.".to_owned());
    }
    let index = if entry.id.as_str().is_empty() {
        None
    } else {
        ids::index_of_id(&config.vcenters, &entry.id)
    };
    let mut next = config.clone();
    match index {
        Some(i) => {
            let previous = &config.vcenters[i];
            proof {
                ids::lemma_first_with_id(config@.vcenters, entry.id@, i as int);
                lemma_index_of(config@.vcenters, entry.id@, i as int);
                assert(next@.vcenters.len() == config@.vcenters.len());
            }
            let password = choose_password_action(&entry, typed, Some(previous));
            let login_changed = !text::same_text(
                &previous.keyring_account(),
                &entry.keyring_account(),
            );
            let id = entry.id.clone();
            let ghost (before, replaced) = (next@, entry@);
            next.vcenters.set(i, entry);
            assert(next@.vcenters == before.vcenters.update(i as int, replaced));
            let retired = if login_changed {
                next.unused_account(previous)
            } else {
                None
            };
            Ok(VcenterChange { id, password, config: next, retired })
        },
        None => {
            entry.id = ids::new_id_at(&config.vcenters, nanos);
            let password = choose_password_action(&entry, typed, None);
            let id = entry.id.clone();
            let ghost (before, added) = (next@, entry@);
            next.vcenters.push(entry);
            assert(next@.vcenters == before.vcenters.push(added));
            Ok(VcenterChange { id, password, config: next, retired: None })
        },
    }
}

/// There is only one first entry that goes by `id`.
proof fn lemma_index_of(entries: Seq<VcenterEntryView>, id: Seq<char>, i: int)
    requires
        ids::is_first_with_id(entries, id, i),
    ensures
        index_of(entries, id) == i,
{
    let j = index_of(entries, id);
    assert(ids::is_first_with_id(entries, id, j));
    assert(j < i ==> entries[j].id != id);
    assert(i < j ==> entries[i].id != id);
}

/// Whether saving a vCenter comes to `r` at some time.
pub open spec fn is_saved_vcenter(
    config: ConfigView,
    vcenter: VcenterEntryView,
    typed: Option<Seq<char>>,
    r: Result<VcenterChange, String>,
) -> bool {
    exists|nanos: u128|
        change_or_message(r, #[trigger] saved_vcenter(config, vcenter, typed, nanos as nat))
}

/// Adds (empty id) or updates a vCenter, by the time of day. The change names its id.
pub fn save_vcenter(config: &Config, vcenter: VcenterEntry, typed: Option<String>) -> (r: Result<
    VcenterChange,
    String,
>)
    requires
        config.vcenters@.len() < ids::ID_SPACE,
    ensures
        is_saved_vcenter(config@, vcenter@, text::option_view(typed), r),
{
    let nanos = clock::nanos_since_epoch();
    let r = save_vcenter_at(config, vcenter, typed, nanos);
    r
}

/// What deleting the vCenter `id` comes to, where there is such a vCenter.
pub open spec fn deleted_vcenter(config: ConfigView, id: Seq<char>) -> Option<VcenterChangeView> {
    if ids::has_id(config.vcenters, id) {
        let i = index_of(config.vcenters, id);
        let vcenters = config.vcenters.remove(i);
        Some(
            VcenterChangeView {
                id,
                password: PasswordActionView::Keep,
                config: ConfigView { vcenters, ..config },
                retired: config::retired_account(vcenters, config.vcenters[i]),
            },
        )
    } else {
        None
    }
}

/// What deleting the vCenter `id` comes to: nothing where there is no such vCenter.
pub fn delete_vcenter(config: &Config, id: String) -> (change: Option<VcenterChange>)
    ensures
        match (change, deleted_vcenter(config@, id@)) {
            (Some(change), Some(expected)) => change@ == expected,
            (None, None) => true,
            _ => false,
        },
{
    match ids::index_of_id(&config.vcenters, &id) {
        Some(i) => {
            let mut next = config.clone();
            proof {
                ids::lemma_first_with_id(config@.vcenters, id@, i as int);
                lemma_index_of(config@.vcenters, id@, i as int);
                assert(next@.vcenters.len() == config@.vcenters.len());
            }
            let ghost before = next@;
            let removed = next.vcenters.remove(i);
            assert(removed@ == before.vcenters[i as int]);
            assert(next@.vcenters == before.vcenters.remove(i as int));
            let retired = next.unused_account(&removed);
            Some(VcenterChange { id, password: PasswordAction::Keep, config: next, retired })
        },
        None => None,
    }
}

/// The vCenter to test, or that it is gone.
pub fn test_vcenter(config: &Config, id: &str) -> (r: Result<VcenterEntry, String>)
    ensures
        match r {
            Ok(entry) => {
                &&& ids::has_id(config@.vcenters, id@)
                &&& entry@ == ids::first_with_id(config@.vcenters, id@)
            },
            Err(message) => {
                &&& !ids::has_id(config@.vcenters, id@)
                &&& message@ == "That vCenter no longer exists."@
            },
        },
{
    match config.find(id) {
        Some(entry) => Ok(entry.clone()),
        None => Err("That vCenter no longer exists.".to_owned()),
    }
}

/// The entry as it is saved under `id`.
pub open spec fn saved_entry(vcenter: VcenterEntryView, id: Seq<char>) -> VcenterEntryView {
    VcenterEntryView { id, ..vcenter.normalized() }
}

/// Saving a vCenter keeps the configuration in the form in which it is kept. The vCenter is there
/// afterwards, cleaned up, under the id that the change names; all the others stay as and where
/// they were, and so do the other settings.
pub proof fn law_saving_keeps_the_rest(
    config: ConfigView,
    vcenter: VcenterEntryView,
    typed: Option<Seq<char>>,
    nanos: nat,
)
    requires
        config.is_settled(),
        config.vcenters.len() < ids::ID_SPACE,
        saved_vcenter(config, vcenter, typed, nanos) is Ok,
    ensures
        ({
            let change = saved_vcenter(config, vcenter, typed, nanos)->Ok_0;
            let (before, after) = (config.vcenters, change.config.vcenters);
            &&& change.config.is_settled()
            &&& change.config == ConfigView { vcenters: after, ..config }
            &&& after.contains(saved_entry(vcenter, change.id))
            &&& ids::first_with_id(after, change.id) == saved_entry(vcenter, change.id)
            &&& ids::has_id(before, change.id) ==> after.len() == before.len()
            &&& !ids::has_id(before, change.id) ==> after.len() == before.len() + 1
            &&& forall|i: int|
                0 <= i < before.len() && (#[trigger] before[i]).id != change.id ==> after[i]
                    == before[i]
        }),
{
    let change = saved_vcenter(config, vcenter, typed, nanos)->Ok_0;
    let (before, after) = (config.vcenters, change.config.vcenters);
    let entry = saved_entry(vcenter, change.id);
    let named = vcenter.normalized().id;
    if named.len() > 0 && ids::has_id(before, named) {
        ids::lemma_has_first(before, named);
        let i = index_of(before, named);
        assert(ids::is_first_with_id(before, named, i));
        assert(after[i] == entry);
        assert(ids::ids_are_unique(after)) by {
            assert forall|j: int, k: int| 0 <= j < k < after.len() implies (#[trigger] after[j]).id
                != (#[trigger] after[k]).id by {
                assert(before[j].id != before[k].id);
            }
        }
        assert(ids::is_first_with_id(after, change.id, i)) by {
            assert forall|j: int| 0 <= j < i implies (#[trigger] after[j]).id != change.id by {
                assert(before[j].id != change.id);
            }
        }
        ids::lemma_first_with_id(after, change.id, i);
    } else {
        ids::law_fresh_id_is_free(before, nanos);
        let n = before.len() as int;
        assert(after[n] == entry);
        assert forall|j: int| 0 <= j < n implies (#[trigger] after[j]).id != change.id by {
            assert(before[j].id != change.id);
        }
        assert(ids::ids_are_unique(after)) by {
            assert forall|j: int, k: int| 0 <= j < k < after.len() implies (#[trigger] after[j]).id
                != (#[trigger] after[k]).id by {
                if k < n {
                    assert(before[j].id != before[k].id);
                }
            }
        }
        assert(ids::is_first_with_id(after, change.id, n));
        ids::lemma_first_with_id(after, change.id, n);
    }
}

/// Deleting a vCenter keeps the configuration in the form in which it is kept. That vCenter is
/// gone, and the others stay as they were and in their order, as do the other settings.
pub proof fn law_deleting_keeps_the_rest(config: ConfigView, id: Seq<char>)
    requires
        config.is_settled(),
        deleted_vcenter(config, id) is Some,
    ensures
        ({
            let change = deleted_vcenter(config, id)->0;
            let (before, after) = (config.vcenters, change.config.vcenters);
            &&& change.config.is_settled()
            &&& change.config == ConfigView { vcenters: after, ..config }
            &&& !ids::has_id(after, id)
            &&& ids::is_first_with_id(before, id, index_of(before, id))
            &&& after == before.remove(index_of(before, id))
        }),
{
    let before = config.vcenters;
    ids::lemma_has_first(before, id);
    let i = index_of(before, id);
    assert(ids::is_first_with_id(before, id, i));
    let after = before.remove(i);
    assert(forall|j: int|
        0 <= j < after.len() ==> #[trigger] after[j] == before[if j < i {
            j
        } else {
            j + 1
        }]);
    assert forall|j: int, k: int| 0 <= j < k < after.len() implies (#[trigger] after[j]).id != (
    #[trigger] after[k]).id by {
        let (a, b) = (
            if j < i {
                j
            } else {
                j + 1
            },
            if k < i {
                k
            } else {
                k + 1
            },
        );
        assert(before[a].id != before[b].id);
    }
    assert forall|j: int| 0 <= j < after.len() implies (#[trigger] after[j]).id != id by {
        let a = if j < i {
            j
        } else {
            j + 1
        };
        assert(a < i ==> before[a].id != before[i].id);
        assert(i < a ==> before[i].id != before[a].id);
    }
    assert forall|j: int| 0 <= j < after.len() implies (#[trigger] after[j]).id.len() > 0 by {
        assert(before[if j < i {
            j
        } else {
            j + 1
        }].id.len() > 0);
    }
}

/// Deleting the vCenter that was just added gives the configuration from before.
pub proof fn law_deleting_undoes_adding(
    config: ConfigView,
    vcenter: VcenterEntryView,
    typed: Option<Seq<char>>,
    nanos: nat,
)
    requires
        config.vcenters.len() < ids::ID_SPACE,
        vcenter.id.len() == 0,
        saved_vcenter(config, vcenter, typed, nanos) is Ok,
    ensures
        ({
            let added = saved_vcenter(config, vcenter, typed, nanos)->Ok_0;
            deleted_vcenter(added.config, added.id) matches Some(deleted) && deleted.config
                == config
        }),
{
    let added = saved_vcenter(config, vcenter, typed, nanos)->Ok_0;
    let (before, after) = (config.vcenters, added.config.vcenters);
    let n = before.len() as int;
    ids::law_fresh_id_is_free(before, nanos);
    assert forall|j: int| 0 <= j < n implies (#[trigger] after[j]).id != added.id by {
        assert(before[j].id != added.id);
    }
    assert(ids::is_first_with_id(after, added.id, n));
    lemma_index_of(after, added.id, n);
    ids::lemma_first_with_id(after, added.id, n);
    assert(after.remove(n) == before);
}

/// A password is only deleted where no vCenter that is left has the same login.
pub proof fn law_passwords_in_use_are_kept(
    config: ConfigView,
    vcenter: VcenterEntryView,
    typed: Option<Seq<char>>,
    nanos: nat,
    id: Seq<char>,
)
    ensures
        saved_vcenter(config, vcenter, typed, nanos) matches Ok(change) ==> (
        change.retired matches Some(account) ==> !config::uses_account(
            change.config.vcenters,
            account,
        )),
        deleted_vcenter(config, id) matches Some(change) ==> (
        change.retired matches Some(account) ==> !config::uses_account(
            change.config.vcenters,
            account,
        )),
{
}

/// What is done about the password comes to an end before the configuration is written: carrying
/// one over takes one question to the keychain and at most one password to keep.
pub proof fn law_password_work_ends(
    change: VcenterChangeView,
    stored: Result<Option<Seq<char>>, Seq<char>>,
)
    ensures
        change.loaded(stored).password !is CarryOver,
        change.password !is CarryOver ==> change.loaded(stored) == change,
{
}

} // verus!

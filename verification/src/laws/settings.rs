//! What becomes of the settings, and of the server that they are for.

use crate::config;
use crate::config::{ConfigView, VcenterEntryView};
use crate::ids;
use crate::laws::texts;
use crate::listener;
use crate::listener::ServerStatusView;
use crate::settings;
use crate::settings::{
    GeneralSettingsView, PasswordActionView, VcenterChange, VcenterChangeView,
};
use crate::text;
use vstd::prelude::*;

verus! {

/// An address is cleaned up to the host in it: whatever white space is around it, one scheme in
/// front of it, and all the slashes behind it are taken off.
pub proof fn law_host_is_what_is_left_of_an_address(
    before: Seq<char>,
    host: Seq<char>,
    slashes: Seq<char>,
    after: Seq<char>,
)
    requires
        texts::is_all_white(before),
        texts::is_all_white(after),
        forall|i: int| 0 <= i < slashes.len() ==> (#[trigger] slashes[i]) == '/',
        host.len() > 0,
        host.last() != '/',
        texts::is_tight(host),
    ensures
        config::host_of(before + ("https://"@ + host + slashes) + after) == host,
        config::host_of(before + ("http://"@ + host + slashes) + after) == host,
        !"https://"@.is_prefix_of(host + slashes) && !"http://"@.is_prefix_of(host + slashes)
            ==> config::host_of(before + (host + slashes) + after) == host,
{
    reveal_strlit("https://");
    reveal_strlit("http://");
    lemma_slashes_are_taken_off(host, slashes);
    let tight = host + slashes;
    let (secure, plain) = ("https://"@ + host + slashes, "http://"@ + host + slashes);
    assert(!text::is_white_space('/') && !text::is_white_space('h'));
    assert(tight.len() > 0 && (slashes.len() > 0 ==> tight.last() == slashes[slashes.len() - 1]));
    assert(texts::is_tight(tight));
    assert(secure[0] == 'h' && plain[0] == 'h');
    assert(secure.last() == tight.last() && plain.last() == tight.last());
    texts::law_trimming_takes_off_the_white_space(before, secure, after);
    texts::law_trimming_takes_off_the_white_space(before, plain, after);
    texts::law_trimming_takes_off_the_white_space(before, tight, after);
    assert(secure.take(8) =~= "https://"@ && secure.skip(8) =~= tight);
    assert(plain[4] == ':' && "https://"@[4] == 's');
    assert(!"https://"@.is_prefix_of(plain));
    assert(plain.take(7) =~= "http://"@ && plain.skip(7) =~= tight);
}

proof fn lemma_slashes_are_taken_off(host: Seq<char>, slashes: Seq<char>)
    requires
        forall|i: int| 0 <= i < slashes.len() ==> (#[trigger] slashes[i]) == '/',
        host.len() == 0 || host.last() != '/',
    ensures
        text::trim_end_char(host + slashes, '/') == host,
    decreases slashes.len(),
{
    if slashes.len() == 0 {
        assert(host + slashes == host);
    } else {
        let less = slashes.drop_last();
        assert(slashes[slashes.len() - 1] == '/');
        assert((host + slashes).drop_last() == host + less);
        lemma_slashes_are_taken_off(host, less);
    }
}

/// Cleaning up an entry changes the host, the name and the user, and nothing else. The name and the
/// user lose the white space around them, and an entry without a name is named after its host.
pub proof fn law_entries_are_cleaned_up(entry: VcenterEntryView)
    ensures
        ({
            let clean = entry.normalized();
            &&& clean.id == entry.id
            &&& clean.accept_invalid_certs == entry.accept_invalid_certs
            &&& clean.host == config::host_of(entry.host)
            &&& clean.username == text::trim(entry.username)
            &&& text::trim(entry.name) != Seq::<char>::empty() ==> clean.name == text::trim(
                entry.name,
            )
            &&& text::trim(entry.name) == Seq::<char>::empty() ==> clean.name == clean.host
        }),
{
    assert(text::trim(entry.name).len() == 0 ==> text::trim(entry.name)
        =~= Seq::<char>::empty());
}

/// What an entry is reached by, and what its password is kept under, is made of its host and user
/// alone.
pub proof fn law_entries_are_reached_by_host_and_user(entry: VcenterEntryView)
    ensures
        entry.base_url() == "https://"@ + entry.host,
        entry.keyring_account() == entry.username + "@"@ + entry.host,
        entry.connection_fingerprint() == entry.host + "|"@ + entry.username + "|"@ + (
        if entry.accept_invalid_certs {
            "true"@
        } else {
            "false"@
        }),
        entry.is_complete() <==> entry.host.len() > 0 && entry.username.len() > 0,
{
}

/// An origin is compared in lower case and without slashes at its end, and "null" is a matter of
/// the setting for local files alone.
pub proof fn law_origins_are_compared_in_one_form(
    config: ConfigView,
    origin: Seq<char>,
    slashes: Seq<char>,
)
    requires
        origin.len() == 0 || origin.last() != '/',
        forall|i: int| 0 <= i < slashes.len() ==> (#[trigger] slashes[i]) == '/',
    ensures
        config::canonical_origin(origin + slashes) == text::lower(origin),
        config.origin_allowed(origin + slashes) <==> {
            ||| text::lower(origin) == "null"@ && config.allow_local_files
            ||| text::lower(origin) != "null"@ && exists|i: int|
                0 <= i < config.allowed_origins.len() && #[trigger] config.allowed_origins[i]
                    == text::lower(origin)
        },
{
    lemma_slashes_are_taken_off(origin, slashes);
    let name = text::lower(origin);
    if config.allowed_origins.contains(name) {
        let i = choose|i: int|
            0 <= i < config.allowed_origins.len() && config.allowed_origins[i] == name;
        assert(config.allowed_origins[i] == name);
    }
}

/// What is listed first stays first: the origins that are kept of a list begin with those that are
/// kept of its beginning, whatever follows.
pub proof fn law_origins_keep_their_order(first: Seq<Seq<char>>, more: Seq<Seq<char>>)
    ensures
        config::settled_origins(first).is_prefix_of(config::settled_origins(first + more)),
        config::settled_origins(first + more).len() <= config::settled_origins(first).len()
            + more.len(),
    decreases more.len(),
{
    if more.len() == 0 {
        assert(first + more == first);
    } else {
        let less = more.drop_last();
        law_origins_keep_their_order(first, less);
        assert((first + more).drop_last() == first + less);
        let (begun, kept, all) = (
            config::settled_origins(first),
            config::settled_origins(first + less),
            config::settled_origins(first + more),
        );
        assert(kept == all || kept == all.drop_last());
        assert(begun =~= all.take(begun.len() as int));
    }
}

/// Of an origin in a list, the first occurrence is kept, without the white space around it, unless
/// it is empty or "null". It is the last of what is kept up to there.
pub proof fn law_each_origin_is_kept_once(origins: Seq<Seq<char>>, origin: Seq<char>)
    ensures
        ({
            let name = config::canonical_origin(text::trim(origin));
            let (before, after) = (
                config::settled_origins(origins),
                config::settled_origins(origins.push(origin)),
            );
            let kept = name != Seq::<char>::empty() && name != "null"@ && !before.contains(name);
            &&& kept ==> after == before.push(name)
            &&& !kept ==> after == before
            &&& config::settled_origins(Seq::<Seq<char>>::empty()).len() == 0
        }),
{
    let name = config::canonical_origin(text::trim(origin));
    assert(origins.push(origin).drop_last() == origins);
    assert(name.len() == 0 ==> name =~= Seq::<char>::empty());
}

/// Normalizing keeps the port but for 0, which is no port. Local files are allowed afterwards where
/// they were, or where "null" is in the list, in any letter case. Nothing is left of a version 0.1
/// file.
pub proof fn law_normalizing_keeps_port_and_local_files(config: ConfigView, times: Seq<u128>)
    ensures
        ({
            let kept = config.normalized(times);
            &&& config.port != 0 ==> kept.port == config.port
            &&& config.port == 0 ==> kept.port == 8765
            &&& kept.allow_local_files <==> config.allow_local_files || exists|i: int|
                0 <= i < config.allowed_origins.len() && config::canonical_origin(
                    text::trim(#[trigger] config.allowed_origins[i]),
                ) == "null"@
            &&& kept.allowed_origins == config::settled_origins(config.allowed_origins)
            &&& kept.vcenter_host is None && kept.username is None
            &&& kept.accept_invalid_certs is None
        }),
{
    if config::lists_null(config.allowed_origins) {
        let i = choose|i: int|
            0 <= i < config.allowed_origins.len() && config::listed_origin(
                #[trigger] config.allowed_origins[i],
            ) == "null"@;
        assert(config::canonical_origin(text::trim(config.allowed_origins[i])) == "null"@);
    }
    if exists|i: int|
        0 <= i < config.allowed_origins.len() && config::canonical_origin(
            text::trim(#[trigger] config.allowed_origins[i]),
        ) == "null"@ {
        let i = choose|i: int|
            0 <= i < config.allowed_origins.len() && config::canonical_origin(
                text::trim(#[trigger] config.allowed_origins[i]),
            ) == "null"@;
        assert(config::listed_origin(config.allowed_origins[i]) == "null"@);
    }
}

/// Where there is no host from a version 0.1 file, or a blank one, or other vCenters, nothing is
/// added to the vCenters.
pub proof fn law_nothing_else_is_migrated(config: ConfigView, times: Seq<u128>)
    ensures
        config.vcenter_host is None ==> config.normalized(times).vcenters.len()
            == config.vcenters.len(),
        config.vcenter_host matches Some(host) ==> (text::trim(host).len() == 0
            ==> config.normalized(times).vcenters.len() == config.vcenters.len()),
        config.vcenters.len() > 0 ==> config.normalized(times).vcenters.len()
            == config.vcenters.len(),
{
    lemma_as_many_entries(config.vcenters, times);
    assert(text::trim(Seq::<char>::empty()) == Seq::<char>::empty());
}

proof fn lemma_as_many_entries(entries: Seq<VcenterEntryView>, times: Seq<u128>)
    ensures
        config::settled_entries(entries, times).len() == entries.len(),
    decreases entries.len(),
{
    if entries.len() > 0 {
        lemma_as_many_entries(entries.drop_last(), times);
    }
}

/// An entry that is added to others is cleaned up. It keeps its id where it has one that none of
/// the others has, and gets a new one, made of the time, where not.
pub proof fn law_entries_are_added_with_ids_of_their_own(
    entries: Seq<VcenterEntryView>,
    entry: VcenterEntryView,
    times: Seq<u128>,
)
    ensures
        ({
            let before = config::settled_entries(entries, times);
            let after = config::settled_entries(entries.push(entry), times);
            let taken = exists|i: int| 0 <= i < before.len() && (#[trigger] before[i]).id == entry.id;
            &&& after.len() == before.len() + 1
            &&& after.drop_last() == before
            &&& after.last() == VcenterEntryView { id: after.last().id, ..entry.normalized() }
            &&& entry.id.len() > 0 && !taken ==> after.last().id == entry.id
            &&& entry.id.len() == 0 || taken ==> after.last().id == ids::fresh_id(
                before,
                times[entries.len() as int] as nat,
            )
        }),
{
    assert(entries.push(entry).drop_last() == entries);
    let before = config::settled_entries(entries, times);
    assert(config::settled_entries(entries.push(entry), times).drop_last() == before);
}

/// A new id is made of the time: `vc-` and the time in hexadecimal, within 48 bits, where no entry
/// goes by that. Where one does, it is the id that a nanosecond later would give.
pub proof fn law_new_ids_are_made_of_the_time(entries: Seq<VcenterEntryView>, nanos: nat)
    requires
        entries.len() < ids::ID_SPACE,
    ensures
        ({
            let id = "vc-"@ + text::hex(nanos % 0xffff_ffff_ffff);
            let taken = exists|i: int| 0 <= i < entries.len() && (#[trigger] entries[i]).id == id;
            &&& !taken ==> ids::fresh_id(entries, nanos) == id
            &&& taken ==> ids::fresh_id(entries, nanos) == ids::fresh_id(entries, nanos + 1)
        }),
{
    let id = "vc-"@ + text::hex(nanos % 0xffff_ffff_ffff);
    assert(ids::candidate_id(nanos, 0) == id);
    if !ids::has_id(entries, id) {
        assert(ids::is_first_free(entries, nanos, 0));
        ids::lemma_fresh_id(entries, nanos, 0);
    } else {
        ids::lemma_first_free_exists(entries, nanos + 1);
        let k = choose|k: nat| #[trigger] ids::is_first_free(entries, nanos + 1, k);
        assert(ids::candidate_id(nanos + 1, k) == ids::candidate_id(nanos, k + 1));
        assert forall|j: nat| j < k + 1 implies ids::has_id(
            entries,
            #[trigger] ids::candidate_id(nanos, j),
        ) by {
            if j > 0 {
                let i = (j - 1) as nat;
                assert(ids::candidate_id(nanos + 1, i) == ids::candidate_id(nanos, j));
                assert(ids::has_id(entries, ids::candidate_id(nanos + 1, i)));
            }
        }
        assert(ids::is_first_free(entries, nanos, k + 1));
        ids::lemma_fresh_id(entries, nanos, k + 1);
        ids::lemma_fresh_id(entries, nanos + 1, k);
    }
}

/// A vCenter is saved exactly where it has a host and a user once it is cleaned up. An entry that
/// goes by its id is replaced, in its place; otherwise it is added at the end, under a new id.
pub proof fn law_saving_replaces_or_adds(
    config: ConfigView,
    vcenter: VcenterEntryView,
    typed: Option<Seq<char>>,
    nanos: nat,
)
    ensures
        ({
            let saved = settings::saved_vcenter(config, vcenter, typed, nanos);
            let clean = vcenter.normalized();
            let there = vcenter.id.len() > 0 && exists|i: int|
                0 <= i < config.vcenters.len() && (#[trigger] config.vcenters[i]).id == vcenter.id;
            &&& saved is Ok <==> clean.host.len() > 0 && clean.username.len() > 0
            &&& saved matches Err(message) ==> message == "Address and username are required."@
            &&& saved matches Ok(change) ==> {
                &&& there ==> change.id == vcenter.id
                &&& !there ==> {
                    &&& change.id == ids::fresh_id(config.vcenters, nanos)
                    &&& change.config.vcenters == config.vcenters.push(
                        VcenterEntryView { id: change.id, ..clean },
                    )
                }
                &&& change.config == ConfigView { vcenters: change.config.vcenters, ..config }
            }
        }),
{
}

/// An entry that is saved under the id of another takes the place of the first that goes by it, and
/// leaves all the others as they are.
pub proof fn law_saving_replaces_in_place(
    config: ConfigView,
    before: Seq<VcenterEntryView>,
    old_entry: VcenterEntryView,
    after: Seq<VcenterEntryView>,
    vcenter: VcenterEntryView,
    typed: Option<Seq<char>>,
    nanos: nat,
)
    requires
        config.vcenters == before.push(old_entry) + after,
        old_entry.id == vcenter.id,
        vcenter.id.len() > 0,
        forall|i: int| 0 <= i < before.len() ==> (#[trigger] before[i]).id != vcenter.id,
    ensures
        settings::saved_vcenter(config, vcenter, typed, nanos) matches Ok(change) ==> {
            let left = before.push(vcenter.normalized()) + after;
            let account = old_entry.keyring_account();
            &&& change.config.vcenters == left
            &&& change.retired == (if account == vcenter.normalized().keyring_account() || exists|
                i: int,
            |
                0 <= i < left.len() && (#[trigger] left[i]).keyring_account() == account {
                None
            } else {
                Some(account)
            })
        },
{
    let all = config.vcenters;
    let n = before.len() as int;
    lemma_first_is_there(before, old_entry, after, vcenter.id);
    assert(settings::index_of(all, vcenter.id) == n);
    let left = before.push(vcenter.normalized()) + after;
    assert(all.update(n, vcenter.normalized()) =~= left);
}

proof fn lemma_first_is_there(
    before: Seq<VcenterEntryView>,
    entry: VcenterEntryView,
    after: Seq<VcenterEntryView>,
    id: Seq<char>,
)
    requires
        entry.id == id,
        forall|i: int| 0 <= i < before.len() ==> (#[trigger] before[i]).id != id,
    ensures
        ids::has_id(before.push(entry) + after, id),
        settings::index_of(before.push(entry) + after, id) == before.len(),
{
    let all = before.push(entry) + after;
    let n = before.len() as int;
    assert(all[n] == entry);
    assert forall|j: int| 0 <= j < n implies (#[trigger] all[j]).id != id by {
        assert(before[j].id != id);
    }
    assert(ids::is_first_with_id(all, id, n));
    let j = settings::index_of(all, id);
    assert(ids::is_first_with_id(all, id, j));
    assert(j < n ==> all[j].id != id);
    assert(n < j ==> all[n].id != id);
}

/// A password that was typed is kept: whenever a vCenter is saved and a password that is not empty
/// was typed, exactly that is stored under the account of the entry as saved, whatever was there
/// before.
pub proof fn law_typed_passwords_are_stored(
    config: ConfigView,
    vcenter: VcenterEntryView,
    password: Seq<char>,
    nanos: nat,
)
    requires
        password.len() > 0,
    ensures
        settings::saved_vcenter(config, vcenter, Some(password), nanos) matches Ok(change)
            ==> change.password == PasswordActionView::Store(
            text::trim(vcenter.username) + "@"@ + config::host_of(vcenter.host),
            password,
        ),
{
}

/// Without a password typed, or with an empty one, a new vCenter stores none. Neither does one whose
/// login stays the same. One whose login changes carries the password of the old login over to the
/// new.
pub proof fn law_passwords_follow_a_changed_login(
    config: ConfigView,
    before: Seq<VcenterEntryView>,
    old_entry: VcenterEntryView,
    after: Seq<VcenterEntryView>,
    vcenter: VcenterEntryView,
    typed: Option<Seq<char>>,
    nanos: nat,
)
    requires
        typed matches Some(password) ==> password.len() == 0,
        config.vcenters == before.push(old_entry) + after,
        forall|i: int| 0 <= i < before.len() ==> (#[trigger] before[i]).id != old_entry.id,
    ensures
        settings::saved_vcenter(config, vcenter, typed, nanos) matches Ok(change) ==> {
            let new_account = text::trim(vcenter.username) + "@"@ + config::host_of(vcenter.host);
            let old_account = old_entry.username + "@"@ + old_entry.host;
            let there = exists|i: int|
                0 <= i < config.vcenters.len() && (#[trigger] config.vcenters[i]).id == vcenter.id;
            &&& vcenter.id.len() == 0 || !there ==> change.password is Keep && change.retired
                is None
            &&& vcenter.id.len() > 0 && vcenter.id == old_entry.id ==> change.password == (
            if new_account == old_account {
                PasswordActionView::Keep
            } else {
                PasswordActionView::CarryOver(old_account, new_account)
            })
        },
{
    if vcenter.id == old_entry.id {
        lemma_first_is_there(before, old_entry, after, vcenter.id);
        assert(config.vcenters[before.len() as int] == old_entry);
    }
}

/// A password that is carried over is stored under the new account where the old one has it, and
/// nothing is stored where it has none or cannot be read. Nothing else of the change is touched.
pub proof fn law_carried_passwords_are_stored(
    change: VcenterChangeView,
    from: Seq<char>,
    to: Seq<char>,
    password: Seq<char>,
    reason: Seq<char>,
)
    requires
        change.password == PasswordActionView::CarryOver(from, to),
    ensures
        change.loaded(Ok(Some(password))) == (VcenterChangeView {
            password: PasswordActionView::Store(to, password),
            ..change
        }),
        change.loaded(Ok(None)) == (VcenterChangeView {
            password: PasswordActionView::Keep,
            ..change
        }),
        change.loaded(Err(reason)) == change.loaded(Ok(None)),
{
}

/// Deleting takes the first vCenter that goes by the id out of the list and leaves the others as
/// and in the order they are. Its password goes exactly where no vCenter that is left has the same
/// login. Where no vCenter goes by the id, nothing is done.
pub proof fn law_deleting_takes_one_out(
    config: ConfigView,
    before: Seq<VcenterEntryView>,
    entry: VcenterEntryView,
    after: Seq<VcenterEntryView>,
    id: Seq<char>,
)
    requires
        config.vcenters == before.push(entry) + after,
        forall|i: int| 0 <= i < before.len() ==> (#[trigger] before[i]).id != entry.id,
    ensures
        settings::deleted_vcenter(config, entry.id) matches Some(change) && {
            let left = before + after;
            &&& change.id == entry.id
            &&& change.password is Keep
            &&& change.config == ConfigView { vcenters: left, ..config }
            &&& change.retired == (if exists|i: int|
                0 <= i < left.len() && (#[trigger] left[i]).keyring_account()
                    == entry.keyring_account() {
                None
            } else {
                Some(entry.keyring_account())
            })
        },
        settings::deleted_vcenter(config, id) is None <==> forall|i: int|
            0 <= i < config.vcenters.len() ==> (#[trigger] config.vcenters[i]).id != id,
{
    let n = before.len() as int;
    lemma_first_is_there(before, entry, after, entry.id);
    let left = before + after;
    assert(config.vcenters.remove(n) =~= left);
    assert(config.vcenters[n] == entry);
}

/// Where there are no vCenters, there is none to delete.
pub proof fn law_nothing_is_deleted_of_nothing(config: ConfigView, id: Seq<char>)
    requires
        config.vcenters.len() == 0,
    ensures
        settings::deleted_vcenter(config, id) is None,
{
}

/// The window shows every vCenter in its place, and with each whether the keychain answered with a
/// password for it.
pub proof fn law_window_shows_every_vcenter(
    entries: Seq<VcenterEntryView>,
    stored: Seq<Result<Option<String>, String>>,
    i: int,
)
    requires
        0 <= i < entries.len(),
    ensures
        settings::listed(entries, stored).len() == entries.len(),
        settings::listed(entries, stored)[i].entry == entries[i],
        settings::listed(entries, stored)[i].has_password <==> stored[i] is Ok && stored[i]->Ok_0
            is Some,
{
}

/// General settings are taken as they are: the port that was chosen, the origins of the list in the
/// form in which they are kept, and local files where that was chosen or "null" is listed. The
/// settings that were there before do not count.
pub proof fn law_general_settings_are_taken_over(
    config: ConfigView,
    other: ConfigView,
    general: GeneralSettingsView,
    times: Seq<u128>,
)
    requires
        general.port >= 1024,
    ensures
        ({
            let next = settings::with_general(config, general).normalized(times);
            let same = settings::with_general(other, general).normalized(times);
            &&& next.port == general.port
            &&& next.allowed_origins == config::settled_origins(general.allowed_origins)
            &&& general.allow_local_files ==> next.allow_local_files
            &&& next.allow_local_files == same.allow_local_files
            &&& next.allowed_origins == same.allowed_origins
            &&& next.vcenters == config.normalized(times).vcenters
        }),
        !general.allow_local_files && general.allowed_origins.len() == 0
            ==> !settings::with_general(config, general).normalized(times).allow_local_files,
{
}

/// What failed is told with the reason that was given.
pub proof fn law_failures_name_their_reason(reason: Seq<char>, port: u16)
    ensures
        settings::write_failure(reason) == "Could not write settings file: "@ + reason,
        settings::keychain_failure(reason) == "Could not save the password to the OS keychain: "@
            + reason,
        listener::listen_failure(port, reason) == "Could not listen on 127.0.0.1:"@ + text::decimal(
            port as nat,
        ) + ": "@ + reason,
{
}

/// A server that stops by itself while it is the current one is reported as no longer listening,
/// with the reason. The end of any other changes nothing.
pub proof fn law_stopped_servers_are_reported(
    status: ServerStatusView,
    port: u16,
    reason: Seq<char>,
)
    ensures
        status.port == port ==> status.stopped(port, reason) == (ServerStatusView {
            listening: false,
            port,
            error: Some("Server stopped: "@ + reason),
        }),
        status.port != port ==> status.stopped(port, reason) == status,
{
}

/// A change is what it is said to be, or the message is.
pub proof fn law_changes_are_told_in_full(
    r: Result<VcenterChange, String>,
    change: VcenterChangeView,
    message: Seq<char>,
)
    ensures
        settings::change_or_message(r, Ok(change)) <==> (r matches Ok(got) && got@ == change),
        settings::change_or_message(r, Err(message)) <==> (r matches Err(got) && got@ == message),
{
}

} // verus!

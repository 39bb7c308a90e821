//! The helper's settings: the vCenters it can reach and the websites that may use it.

use crate::clock;
use crate::ids;
use crate::text;
use vstd::prelude::*;
use vstd::string::{StrSliceExecFns, StringExecFns};

verus! {

/// The port the helper listens on unless the settings name another.
pub const DEFAULT_PORT: u16 = 8765;

/// The service under which the OS keychain holds the helper's passwords.
pub const KEYRING_SERVICE: &'static str = "dbh-insights-helper";

/// One vCenter the helper can reach. The password is not stored here; it lives in the OS keychain.
#[derive(Debug)]
pub struct VcenterEntry {
    /// Stable id the website uses to address this vCenter.
    pub id: String,
    /// Display name shown in the helper and on the website. Defaults to the host.
    pub name: String,
    /// FQDN or IP, optionally with :port. No scheme.
    pub host: String,
    pub username: String,
    /// vCenter usually ships with a self-signed certificate.
    pub accept_invalid_certs: bool,
}

/// What a [`VcenterEntry`] says.
#[verifier::ext_equal]
pub struct VcenterEntryView {
    pub id: Seq<char>,
    pub name: Seq<char>,
    pub host: Seq<char>,
    pub username: Seq<char>,
    pub accept_invalid_certs: bool,
}

impl View for VcenterEntry {
    type V = VcenterEntryView;

    open spec fn view(&self) -> VcenterEntryView {
        VcenterEntryView {
            id: self.id@,
            name: self.name@,
            host: self.host@,
            username: self.username@,
            accept_invalid_certs: self.accept_invalid_certs,
        }
    }
}

impl Clone for VcenterEntry {
    fn clone(&self) -> (copy: Self)
        ensures
            copy@ == self@,
    {
        VcenterEntry {
            id: self.id.clone(),
            name: self.name.clone(),
            host: self.host.clone(),
            username: self.username.clone(),
            accept_invalid_certs: self.accept_invalid_certs,
        }
    }
}

impl Default for VcenterEntry {
    fn default() -> (entry: Self)
        ensures
            entry@ == (VcenterEntryView {
                id: seq![],
                name: seq![],
                host: seq![],
                username: seq![],
                accept_invalid_certs: false,
            }),
    {
        VcenterEntry {
            id: String::new(),
            name: String::new(),
            host: String::new(),
            username: String::new(),
            accept_invalid_certs: false,
        }
    }
}

/// `address` without a leading `https://`, or else `http://`.
pub open spec fn without_scheme(address: Seq<char>) -> Seq<char> {
    if "https://"@.is_prefix_of(address) {
        address.skip("https://"@.len() as int)
    } else if "http://"@.is_prefix_of(address) {
        address.skip("http://"@.len() as int)
    } else {
        address
    }
}

/// The host that `address` names, as typed or pasted by the user.
pub open spec fn host_of(address: Seq<char>) -> Seq<char> {
    text::trim_end_char(without_scheme(text::trim(address)), '/')
}

impl VcenterEntryView {
    /// The entry with the host cleaned up, white space trimmed off, and the host for its name
    /// where it has none.
    pub open spec fn normalized(self) -> VcenterEntryView {
        let host = host_of(self.host);
        let name = text::trim(self.name);
        VcenterEntryView {
            id: self.id,
            name: if name.len() == 0 {
                host
            } else {
                name
            },
            host,
            username: text::trim(self.username),
            accept_invalid_certs: self.accept_invalid_certs,
        }
    }

    /// Whether the entry says where to connect and as whom.
    pub open spec fn is_complete(self) -> bool {
        self.host.len() > 0 && self.username.len() > 0
    }

    /// Where the vCenter's APIs are.
    pub open spec fn base_url(self) -> Seq<char> {
        "https://"@ + self.host
    }

    /// What decides which client and session serve the entry.
    pub open spec fn connection_fingerprint(self) -> Seq<char> {
        self.host + "|"@ + self.username + "|"@ + bool_text(self.accept_invalid_certs)
    }

    /// The keychain account that holds the entry's password.
    pub open spec fn keyring_account(self) -> Seq<char> {
        self.username + "@"@ + self.host
    }
}

/// `true` or `false`.
pub open spec fn bool_text(b: bool) -> Seq<char> {
    if b {
        "true"@
    } else {
        "false"@
    }
}

/// The part of `address` behind its scheme.
fn strip_scheme(address: &str) -> (rest: String)
    ensures
        rest@ == without_scheme(address@),
{
    let len = address.unicode_len();
    let scheme = if text::begins_with(address, "https://") {
        "https://"
    } else if text::begins_with(address, "http://") {
        "http://"
    } else {
        ""
    };
    proof {
        reveal_strlit("");
    }
    let rest = address.substring_char(scheme.unicode_len(), len);
    assert(scheme@.len() == 0 ==> address@.skip(0) == address@);
    assert(rest@ == address@.skip(scheme@.len() as int));
    rest.to_owned()
}

impl VcenterEntry {
    /// The entry as the helper keeps it: no scheme, no trailing slash, no stray white space.
    pub fn normalized(self) -> (entry: Self)
        ensures
            entry@ == self@.normalized(),
    {
        let address = text::trimmed(&self.host);
        let host = text::without_trailing(&strip_scheme(&address), '/');
        let mut name = text::trimmed(&self.name);
        if name.as_str().is_empty() {
            name = host.clone();
        }
        VcenterEntry {
            id: self.id,
            name,
            host,
            username: text::trimmed(&self.username),
            accept_invalid_certs: self.accept_invalid_certs,
        }
    }

    /// Whether the entry says where to connect and as whom.
    pub fn is_complete(&self) -> (complete: bool)
        ensures
            complete == self@.is_complete(),
    {
        !self.host.as_str().is_empty() && !self.username.as_str().is_empty()
    }

    /// Where the vCenter's APIs are.
    pub fn base_url(&self) -> (url: String)
        ensures
            url@ == self@.base_url(),
    {
        "https://".to_owned().concat(&self.host)
    }

    /// Changes to any of these invalidate the cached HTTP client and vCenter session.
    pub fn connection_fingerprint(&self) -> (fingerprint: String)
        ensures
            fingerprint@ == self@.connection_fingerprint(),
    {
        self.host.clone().concat("|").concat(&self.username).concat("|").concat(
            if self.accept_invalid_certs {
                "true"
            } else {
                "false"
            },
        )
    }

    /// The keychain account that holds the entry's password.
    pub fn keyring_account(&self) -> (account: String)
        ensures
            account@ == self@.keyring_account(),
    {
        self.username.clone().concat("@").concat(&self.host)
    }
}

/// Non-secret settings.
#[derive(Debug)]
pub struct Config {
    pub vcenters: Vec<VcenterEntry>,
    /// Port the helper listens on (127.0.0.1 only). Changing it in the settings window switches
    /// immediately.
    pub port: u16,
    /// Website origins allowed to use the pass-through, e.g. "https://insights.example.com".
    pub allowed_origins: Vec<String>,
    /// Allow the website when it's opened from a local file. Browsers send such pages
    /// with the origin "null", which any website can also produce from a sandboxed
    /// frame, so this is an explicit opt-in rather than an entry in `allowed_origins`.
    pub allow_local_files: bool,
    /// The host of the one vCenter in a version 0.1 file; moved into `vcenters` by
    /// [`Config::normalized`], like the two settings that follow.
    pub vcenter_host: Option<String>,
    pub username: Option<String>,
    pub accept_invalid_certs: Option<bool>,
}

/// What a [`Config`] says.
#[verifier::ext_equal]
pub struct ConfigView {
    pub vcenters: Seq<VcenterEntryView>,
    pub port: u16,
    pub allowed_origins: Seq<Seq<char>>,
    pub allow_local_files: bool,
    pub vcenter_host: Option<Seq<char>>,
    pub username: Option<Seq<char>>,
    pub accept_invalid_certs: Option<bool>,
}

impl View for Config {
    type V = ConfigView;

    open spec fn view(&self) -> ConfigView {
        ConfigView {
            vcenters: ids::entries_view(self.vcenters@),
            port: self.port,
            allowed_origins: text::texts_view(self.allowed_origins@),
            allow_local_files: self.allow_local_files,
            vcenter_host: text::option_view(self.vcenter_host),
            username: text::option_view(self.username),
            accept_invalid_certs: self.accept_invalid_certs,
        }
    }
}

impl Clone for Config {
    fn clone(&self) -> (copy: Self)
        ensures
            copy@ == self@,
    {
        let copy = Config {
            vcenters: ids::copy_entries(&self.vcenters),
            port: self.port,
            allowed_origins: text::copy_texts(&self.allowed_origins),
            allow_local_files: self.allow_local_files,
            vcenter_host: self.vcenter_host.clone(),
            username: self.username.clone(),
            accept_invalid_certs: self.accept_invalid_certs,
        };
        copy
    }
}

/// The settings of a helper that has none: no vCenter, and the published website and its local
/// development copies allowed.
pub open spec fn default_config() -> ConfigView {
    ConfigView {
        vcenters: seq![],
        port: DEFAULT_PORT,
        allowed_origins: seq![
            "https://dbh-insights.github.io"@,
            "http://localhost:5500"@,
            "http://127.0.0.1:5500"@,
        ],
        allow_local_files: false,
        vcenter_host: None,
        username: None,
        accept_invalid_certs: None,
    }
}

impl Default for Config {
    fn default() -> (config: Self)
        ensures
            config@ == default_config(),
    {
        let mut allowed_origins: Vec<String> = Vec::new();
        // The published DBH Insights website.
        allowed_origins.push("https://dbh-insights.github.io".to_owned());
        // Local development copies of the website.
        allowed_origins.push("http://localhost:5500".to_owned());
        allowed_origins.push("http://127.0.0.1:5500".to_owned());
        let config = Config {
            vcenters: Vec::new(),
            port: DEFAULT_PORT,
            allowed_origins,
            allow_local_files: false,
            vcenter_host: None,
            username: None,
            accept_invalid_certs: None,
        };
        assert(config@.allowed_origins == default_config().allowed_origins);
        assert(config@.vcenters == default_config().vcenters);
        config
    }
}

/// The form in which an origin is compared: without trailing slashes and in lower case.
pub open spec fn canonical_origin(origin: Seq<char>) -> Seq<char> {
    text::lower(text::trim_end_char(origin, '/'))
}

/// The form in which an origin of the list is kept.
pub open spec fn listed_origin(origin: Seq<char>) -> Seq<char> {
    canonical_origin(text::trim(origin))
}

/// The origins of a list, each in the form in which it is kept and each once, in the order of
/// their first occurrence. "null" and empty lines are left out.
pub open spec fn settled_origins(origins: Seq<Seq<char>>) -> Seq<Seq<char>>
    decreases origins.len(),
{
    if origins.len() == 0 {
        seq![]
    } else {
        let settled = settled_origins(origins.drop_last());
        let origin = listed_origin(origins.last());
        if origin == "null"@ || origin.len() == 0 || settled.contains(origin) {
            settled
        } else {
            settled.push(origin)
        }
    }
}

/// Whether "null" is in a list of origins.
pub open spec fn lists_null(origins: Seq<Seq<char>>) -> bool {
    exists|i: int| 0 <= i < origins.len() && listed_origin(#[trigger] origins[i]) == "null"@
}

/// `entry`, cleaned up, as it is added behind the entries `settled` at the time `nanos`: with a
/// new id where it has none or its id is taken.
pub open spec fn admitted(
    settled: Seq<VcenterEntryView>,
    entry: VcenterEntryView,
    nanos: nat,
) -> VcenterEntryView {
    let entry = entry.normalized();
    if entry.id.len() == 0 || ids::has_id(settled, entry.id) {
        VcenterEntryView { id: ids::fresh_id(settled, nanos), ..entry }
    } else {
        entry
    }
}

/// The entries, cleaned up and with ids of their own, the one at `i` admitted at the time
/// `times[i]`.
pub open spec fn settled_entries(entries: Seq<VcenterEntryView>, times: Seq<u128>) -> Seq<
    VcenterEntryView,
>
    decreases entries.len(),
{
    if entries.len() == 0 {
        seq![]
    } else {
        let settled = settled_entries(entries.drop_last(), times);
        settled.push(admitted(settled, entries.last(), times[entries.len() - 1] as nat))
    }
}

/// `value`, or nothing where there is none.
pub open spec fn or_empty(value: Option<Seq<char>>) -> Seq<char> {
    match value {
        Some(value) => value,
        None => seq![],
    }
}

impl ConfigView {
    /// The entries, with the vCenter of a version 0.1 file among them where it has one and there
    /// is no other.
    pub open spec fn migrated_entries(self, times: Seq<u128>) -> Seq<VcenterEntryView> {
        let host = or_empty(self.vcenter_host);
        if self.vcenters.len() == 0 && text::trim(host).len() > 0 {
            seq![
                VcenterEntryView {
                    id: ids::fresh_id(seq![], times[0] as nat),
                    name: seq![],
                    host,
                    username: or_empty(self.username),
                    accept_invalid_certs: match self.accept_invalid_certs {
                        Some(accept) => accept,
                        None => true,
                    },
                },
            ]
        } else {
            self.vcenters
        }
    }

    /// The settings as the helper keeps them, where `times` are the times at which the entries
    /// are looked at.
    pub open spec fn normalized(self, times: Seq<u128>) -> ConfigView {
        ConfigView {
            vcenters: settled_entries(self.migrated_entries(times), times),
            port: if self.port == 0 {
                DEFAULT_PORT
            } else {
                self.port
            },
            allowed_origins: settled_origins(self.allowed_origins),
            allow_local_files: self.allow_local_files || lists_null(self.allowed_origins),
            vcenter_host: None,
            username: None,
            accept_invalid_certs: None,
        }
    }

    /// Whether a page of `origin` may use the pass-through.
    pub open spec fn origin_allowed(self, origin: Seq<char>) -> bool {
        let origin = canonical_origin(origin);
        if origin == "null"@ {
            self.allow_local_files
        } else {
            self.allowed_origins.contains(origin)
        }
    }
}

impl ConfigView {
    /// Whether the settings are in the form in which the helper keeps them: every entry has an
    /// id of its own, there is a port, nothing of a version 0.1 file is left, and each origin is
    /// listed once, in the form in which it is compared, and is neither "null" nor empty.
    pub open spec fn is_settled(self) -> bool {
        &&& ids::ids_are_unique(self.vcenters)
        &&& self.port != 0
        &&& self.vcenter_host is None && self.username is None
        &&& self.accept_invalid_certs is None
        &&& self.allowed_origins.no_duplicates()
        &&& forall|i: int|
            0 <= i < self.allowed_origins.len() ==> {
                let origin = #[trigger] self.allowed_origins[i];
                origin != "null"@ && origin.len() > 0 && canonical_origin(origin) == origin
            }
    }
}

/// Settings are settled once they are normalized, at whatever times that happens.
pub proof fn law_normalized_is_settled(config: ConfigView, times: Seq<u128>)
    requires
        config.vcenters.len() <= ids::ID_SPACE,
    ensures
        config.normalized(times).is_settled(),
        config.vcenters.len() > 0 ==> config.normalized(times).vcenters.len()
            == config.vcenters.len(),
{
    lemma_settled_entries(config.migrated_entries(times), times);
    lemma_settled_origins(config.allowed_origins);
}

proof fn lemma_settled_entries(entries: Seq<VcenterEntryView>, times: Seq<u128>)
    requires
        entries.len() <= ids::ID_SPACE,
    ensures
        settled_entries(entries, times).len() == entries.len(),
        ids::ids_are_unique(settled_entries(entries, times)),
    decreases entries.len(),
{
    if entries.len() > 0 {
        let n = entries.len() - 1;
        let before = settled_entries(entries.drop_last(), times);
        lemma_settled_entries(entries.drop_last(), times);
        ids::law_fresh_id_is_free(before, times[n] as nat);
        let entry = admitted(before, entries.last(), times[n] as nat);
        assert(!ids::has_id(before, entry.id));
        assert(settled_entries(entries, times) == before.push(entry));
    }
}

proof fn lemma_settled_origins(origins: Seq<Seq<char>>)
    ensures
        settled_origins(origins).no_duplicates(),
        forall|i: int|
            0 <= i < settled_origins(origins).len() ==> {
                let origin = #[trigger] settled_origins(origins)[i];
                origin != "null"@ && origin.len() > 0 && canonical_origin(origin) == origin
            },
    decreases origins.len(),
{
    if origins.len() > 0 {
        lemma_settled_origins(origins.drop_last());
        lemma_canonical_twice(text::trim(origins.last()));
    }
}

/// The form in which an origin is compared is its own.
proof fn lemma_canonical_twice(origin: Seq<char>)
    ensures
        canonical_origin(canonical_origin(origin)) == canonical_origin(origin),
{
    let stripped = text::trim_end_char(origin, '/');
    text::lemma_trim_end_char(origin, '/');
    let lowered = text::lower(stripped);
    assert(lowered.len() > 0 ==> lowered.last() == text::lower_char(stripped.last()));
    assert(text::lower(lowered) == lowered);
}

impl Config {
    /// The settings as the helper keeps them, where the entry at `i` is looked at at the time
    /// `times[i]`: entries and origins cleaned up, every entry with an id of its own, and the
    /// vCenter of a version 0.1 file among the entries.
    pub fn normalized_at(self, times: &Vec<u128>) -> (config: Self)
        requires
            self.vcenters@.len() <= ids::ID_SPACE,
            self.vcenters@.len() <= times@.len(),
            times@.len() > 0,
        ensures
            config@ == self@.normalized(times@),
    {
        let ghost before = self@;
        let host = match self.vcenter_host {
            Some(host) => host,
            None => String::new(),
        };
        let username = match self.username {
            Some(username) => username,
            None => String::new(),
        };
        let accept_invalid_certs = match self.accept_invalid_certs {
            Some(accept) => accept,
            None => true,
        };
        assert(host@ == or_empty(before.vcenter_host));
        assert(username@ == or_empty(before.username));
        let mut entries = self.vcenters;
        if entries.len() == 0 && !text::trimmed(&host).as_str().is_empty() {
            let id = ids::new_id_at(&entries, times[0]);
            assert(ids::entries_view(entries@) == Seq::<VcenterEntryView>::empty());
            entries.push(
                VcenterEntry { id, name: String::new(), host, username, accept_invalid_certs },
            );
        }
        assert(ids::entries_view(entries@) == before.migrated_entries(times@));
        let (allowed_origins, lists_null) = settle_origins(&self.allowed_origins);
        Config {
            vcenters: settle_entries(entries, times),
            port: if self.port == 0 {
                DEFAULT_PORT
            } else {
                self.port
            },
            allowed_origins,
            allow_local_files: self.allow_local_files || lists_null,
            vcenter_host: None,
            username: None,
            accept_invalid_certs: None,
        }
    }

    /// The settings as the helper keeps them, by the time of day.
    pub fn normalized(self) -> (config: Self)
        requires
            self.vcenters@.len() <= ids::ID_SPACE,
        ensures
            exists|times: Seq<u128>|
                {
                    &&& self@.vcenters.len() < times.len()
                    &&& config@ == #[trigger] self@.normalized(times)
                },
            config@.is_settled(),
    {
        let mut times: Vec<u128> = Vec::new();
        times.push(clock::nanos_since_epoch());
        for i in 0..self.vcenters.len()
            invariant
                times@.len() == i + 1,
        {
            times.push(clock::nanos_since_epoch());
        }
        proof {
            law_normalized_is_settled(self@, times@);
        }
        self.normalized_at(&times)
    }

    /// The settings of a file, of what could be read of it: nothing where there is no such file
    /// or it does not hold settings.
    pub fn load(parsed: Option<Config>) -> (config: Self)
        requires
            parsed matches Some(config) ==> config.vcenters@.len() <= ids::ID_SPACE,
        ensures
            match parsed {
                Some(parsed) => exists|times: Seq<u128>|
                    {
                        &&& parsed@.vcenters.len() < times.len()
                        &&& config@ == #[trigger] parsed@.normalized(times)
                    },
                None => config@ == default_config(),
            },
            config@.is_settled(),
    {
        match parsed {
            Some(parsed) => parsed.normalized(),
            None => {
                proof {
                    lemma_default_is_settled();
                }
                Config::default()
            },
        }
    }

    /// The keychain account of `entry`, unless one of the entries has the same: the one whose
    /// password nothing needs any more once `entry` is gone.
    pub fn unused_account(&self, entry: &VcenterEntry) -> (account: Option<String>)
        ensures
            text::option_view(account) == retired_account(self@.vcenters, entry@),
    {
        let account = entry.keyring_account();
        for i in 0..self.vcenters.len()
            invariant
                account@ == entry@.keyring_account(),
                forall|j: int|
                    0 <= j < i ==> (#[trigger] self@.vcenters[j]).keyring_account() != account@,
        {
            if text::same_text(&self.vcenters[i].keyring_account(), &account) {
                assert(self@.vcenters[i as int].keyring_account() == account@);
                return None;
            }
        }
        Some(account)
    }

    /// The first entry that goes by `id`.
    pub fn find(&self, id: &str) -> (entry: Option<&VcenterEntry>)
        ensures
            match entry {
                Some(entry) => {
                    &&& ids::has_id(self@.vcenters, id@)
                    &&& entry@ == ids::first_with_id(self@.vcenters, id@)
                },
                None => !ids::has_id(self@.vcenters, id@),
            },
    {
        match ids::index_of_id(&self.vcenters, id) {
            Some(i) => {
                proof {
                    ids::lemma_first_with_id(self@.vcenters, id@, i as int);
                }
                Some(&self.vcenters[i])
            },
            None => None,
        }
    }

    /// An id that no entry goes by yet, made from the time of day.
    pub fn new_id(&self) -> (id: String)
        requires
            self.vcenters@.len() < ids::ID_SPACE,
        ensures
            ids::is_fresh_id(self@.vcenters, id@),
            !ids::has_id(self@.vcenters, id@),
    {
        let nanos = clock::nanos_since_epoch();
        ids::new_id_at(&self.vcenters, nanos)
    }

    /// Whether a page of `origin` may use the pass-through.
    pub fn origin_allowed(&self, origin: &str) -> (allowed: bool)
        ensures
            allowed == self@.origin_allowed(origin@),
    {
        let origin = text::lowered(&text::without_trailing(origin, '/'));
        if text::same_text(&origin, "null") {
            return self.allow_local_files;
        }
        text::is_listed(&self.allowed_origins, &origin)
    }
}

/// Whether one of the entries has the keychain account `account`.
pub open spec fn uses_account(entries: Seq<VcenterEntryView>, account: Seq<char>) -> bool {
    exists|i: int| 0 <= i < entries.len() && (#[trigger] entries[i]).keyring_account() == account
}

/// The keychain account of `entry`, unless one of the entries has the same.
pub open spec fn retired_account(
    entries: Seq<VcenterEntryView>,
    entry: VcenterEntryView,
) -> Option<Seq<char>> {
    if uses_account(entries, entry.keyring_account()) {
        None
    } else {
        Some(entry.keyring_account())
    }
}

/// The origins of a list as they are kept, and whether "null" was among them.
fn settle_origins(origins: &Vec<String>) -> (r: (Vec<String>, bool))
    ensures
        text::texts_view(r.0@) == settled_origins(text::texts_view(origins@)),
        r.1 == lists_null(text::texts_view(origins@)),
{
    let ghost view = text::texts_view(origins@);
    let mut settled: Vec<String> = Vec::new();
    let mut null = false;
    assert(text::texts_view(settled@) == settled_origins(view.take(0)));
    for i in 0..origins.len()
        invariant
            view == text::texts_view(origins@),
            text::texts_view(settled@) == settled_origins(view.take(i as int)),
            null == lists_null(view.take(i as int)),
    {
        let origin = text::lowered(&text::without_trailing(&text::trimmed(&origins[i]), '/'));
        let ghost seen = view.take(i as int);
        let ghost seen_now = view.take(i + 1);
        proof {
            assert(seen_now.drop_last() == seen);
            assert(seen_now.last() == origins@[i as int]@);
            assert(origin@ == listed_origin(seen_now.last()));
            assert(lists_null(seen_now) == (lists_null(seen) || origin@ == "null"@)) by {
                if lists_null(seen) {
                    let j = choose|j: int|
                        0 <= j < seen.len() && listed_origin(#[trigger] seen[j]) == "null"@;
                    assert(seen_now[j] == seen[j]);
                }
                if lists_null(seen_now) {
                    let j = choose|j: int|
                        0 <= j < seen_now.len() && listed_origin(#[trigger] seen_now[j])
                            == "null"@;
                    assert(j < i ==> seen[j] == seen_now[j]);
                }
                if origin@ == "null"@ {
                    assert(listed_origin(seen_now[i as int]) == "null"@);
                }
            }
        }
        if text::same_text(&origin, "null") {
            // "null" is the origin of pages opened from local files, but also of sandboxed
            // frames that any website can create. It's controlled by `allow_local_files`
            // instead; a "null" typed into the list turns that setting on.
            null = true;
        } else if !origin.as_str().is_empty() && !text::is_listed(&settled, &origin) {
            let ghost kept = text::texts_view(settled@);
            settled.push(origin);
            assert(text::texts_view(settled@) == kept.push(origin@));
        }
    }
    assert(view.take(view.len() as int) == view);
    (settled, null)
}

/// The entries, cleaned up and with ids of their own.
fn settle_entries(entries: Vec<VcenterEntry>, times: &Vec<u128>) -> (settled: Vec<VcenterEntry>)
    requires
        entries@.len() <= ids::ID_SPACE,
        entries@.len() <= times@.len(),
    ensures
        ids::entries_view(settled@) == settled_entries(ids::entries_view(entries@), times@),
{
    let ghost view = ids::entries_view(entries@);
    let mut settled: Vec<VcenterEntry> = Vec::new();
    assert(ids::entries_view(settled@) == settled_entries(view.take(0), times@));
    for i in 0..entries.len()
        invariant
            entries@.len() <= ids::ID_SPACE,
            entries@.len() <= times@.len(),
            view == ids::entries_view(entries@),
            settled@.len() == i,
            ids::entries_view(settled@) == settled_entries(view.take(i as int), times@),
    {
        let ghost kept = ids::entries_view(settled@);
        let mut entry = entries[i].clone().normalized();
        if entry.id.as_str().is_empty() || ids::index_of_id(&settled, &entry.id).is_some() {
            entry.id = ids::new_id_at(&settled, times[i]);
        }
        assert(view.take(i + 1).drop_last() == view.take(i as int));
        assert(view.take(i + 1).last() == entries@[i as int]@);
        assert(entry@ == admitted(kept, view[i as int], times@[i as int] as nat));
        settled.push(entry);
        assert(ids::entries_view(settled@) == kept.push(entry@));
    }
    assert(view.take(view.len() as int) == view);
    settled
}

/// The settings of a helper that has none are in the form in which settings are kept.
proof fn lemma_default_is_settled()
    ensures
        default_config().is_settled(),
{
    let (a, b, c) = (
        "https://dbh-insights.github.io"@,
        "http://localhost:5500"@,
        "http://127.0.0.1:5500"@,
    );
    reveal_strlit("https://dbh-insights.github.io");
    reveal_strlit("http://localhost:5500");
    reveal_strlit("http://127.0.0.1:5500");
    reveal_strlit("null");
    assert(a.len() != b.len() && b[7] != c[7]);
    assert(a.last() == 'o' && b.last() == '0' && c.last() == '0');
    assert(text::lower(a) == a && text::lower(b) == b && text::lower(c) == c);
    assert(canonical_origin(a) == a && canonical_origin(b) == b && canonical_origin(c) == c);
}

/// Whether pages opened from local files are let in is decided by that setting alone: a "null" in
/// the list of origins does not allow them.
pub proof fn law_local_files_need_opt_in(config: ConfigView, origin: Seq<char>)
    requires
        canonical_origin(origin) == "null"@,
    ensures
        config.origin_allowed(origin) == config.allow_local_files,
{
}

/// Neither letter case nor slashes at the end of an origin decide whether it is allowed.
pub proof fn law_origins_match_in_any_case(
    config: ConfigView,
    origin: Seq<char>,
    other: Seq<char>,
)
    requires
        text::lower(origin) == text::lower(other),
    ensures
        config.origin_allowed(origin) == config.origin_allowed(other),
        config.origin_allowed(origin.push('/')) == config.origin_allowed(origin),
{
    lemma_lower_then_trim(origin);
    lemma_lower_then_trim(other);
    assert(origin.push('/').drop_last() == origin);
}

/// Slashes at the end can be taken off before or after an origin is made lower case.
proof fn lemma_lower_then_trim(origin: Seq<char>)
    ensures
        text::lower(text::trim_end_char(origin, '/')) == text::trim_end_char(
            text::lower(origin),
            '/',
        ),
    decreases origin.len(),
{
    let lower = text::lower(origin);
    if origin.len() > 0 {
        assert(lower.last() == text::lower_char(origin.last()));
        assert(lower.drop_last() == text::lower(origin.drop_last()));
        lemma_lower_then_trim(origin.drop_last());
    }
}

/// Once settings are normalized, an origin is allowed exactly where it is one of those listed
/// before, but for white space around it, letter case and trailing slashes. For "null" the
/// setting for local files counts as well, and an origin that is nothing but slashes is never
/// allowed.
pub proof fn law_listed_origins_are_allowed(
    config: ConfigView,
    times: Seq<u128>,
    origin: Seq<char>,
)
    ensures
        config.normalized(times).origin_allowed(origin) <==> {
            let canonical = canonical_origin(origin);
            let listed = exists|i: int|
                0 <= i < config.allowed_origins.len() && listed_origin(
                    #[trigger] config.allowed_origins[i],
                ) == canonical;
            ||| canonical == "null"@ && config.allow_local_files
            ||| canonical.len() > 0 && listed
        },
{
    reveal_strlit("null");
    let canonical = canonical_origin(origin);
    if canonical != "null"@ {
        lemma_settled_contains(config.allowed_origins, canonical);
    }
}

proof fn lemma_settled_contains(origins: Seq<Seq<char>>, origin: Seq<char>)
    requires
        origin != "null"@,
    ensures
        settled_origins(origins).contains(origin) <==> origin.len() > 0 && exists|i: int|
            0 <= i < origins.len() && listed_origin(#[trigger] origins[i]) == origin,
    decreases origins.len(),
{
    if origins.len() > 0 {
        let n = origins.len() - 1;
        let before = origins.drop_last();
        let settled = settled_origins(before);
        let last = listed_origin(origins.last());
        lemma_settled_contains(before, origin);
        assert(settled.push(last).contains(origin) <==> settled.contains(origin) || last == origin)
            by {
            assert(settled.push(last)[settled.len() as int] == last);
            if settled.contains(origin) {
                let j = choose|j: int| 0 <= j < settled.len() && settled[j] == origin;
                assert(settled.push(last)[j] == origin);
            }
        }
        if exists|i: int| 0 <= i < before.len() && listed_origin(#[trigger] before[i]) == origin {
            let i = choose|i: int|
                0 <= i < before.len() && listed_origin(#[trigger] before[i]) == origin;
            assert(listed_origin(origins[i]) == origin);
        }
        if exists|i: int| 0 <= i < origins.len() && listed_origin(#[trigger] origins[i]) == origin {
            let i = choose|i: int|
                0 <= i < origins.len() && listed_origin(#[trigger] origins[i]) == origin;
            assert(i < n ==> listed_origin(before[i]) == origin);
        }
        assert(origins[n] == origins.last());
    }
}

/// Normalizing keeps every entry in its place and cleans it up. An entry keeps its id unless it
/// has none or an entry before it goes by the same.
pub proof fn law_entries_keep_their_places(config: ConfigView, times: Seq<u128>, i: int)
    requires
        0 <= i < config.vcenters.len(),
    ensures
        config.normalized(times).vcenters.len() == config.vcenters.len(),
        ({
            let entry = config.vcenters[i];
            let settled = config.normalized(times).vcenters;
            &&& settled[i] == VcenterEntryView { id: settled[i].id, ..entry.normalized() }
            &&& entry.id.len() > 0 && !ids::has_id(settled.take(i), entry.id) ==> settled[i].id
                == entry.id
        }),
{
    lemma_entry_in_place(config.vcenters, times, i);
}

proof fn lemma_entry_in_place(entries: Seq<VcenterEntryView>, times: Seq<u128>, i: int)
    requires
        0 <= i < entries.len(),
    ensures
        settled_entries(entries, times).len() == entries.len(),
        settled_entries(entries, times).take(i) == settled_entries(entries.take(i), times),
        settled_entries(entries, times)[i] == admitted(
            settled_entries(entries.take(i), times),
            entries[i],
            times[i] as nat,
        ),
    decreases entries.len(),
{
    let n = entries.len() - 1;
    let settled = settled_entries(entries, times);
    let before = settled_entries(entries.drop_last(), times);
    lemma_settled_len(entries.drop_last(), times);
    if i < n {
        lemma_entry_in_place(entries.drop_last(), times, i);
        assert(entries.drop_last().take(i) == entries.take(i));
        assert(settled.take(i) == before.take(i));
    } else {
        assert(entries.take(i) == entries.drop_last());
        assert(settled.take(i) == before);
    }
}

proof fn lemma_settled_len(entries: Seq<VcenterEntryView>, times: Seq<u128>)
    ensures
        settled_entries(entries, times).len() == entries.len(),
    decreases entries.len(),
{
    if entries.len() > 0 {
        lemma_settled_len(entries.drop_last(), times);
    }
}

/// The one vCenter of a version 0.1 file becomes the only entry, named after its host. Where the
/// file did not say otherwise, its certificate is not checked.
pub proof fn law_single_vcenter_is_migrated(config: ConfigView, times: Seq<u128>)
    requires
        config.vcenters.len() == 0,
        config.vcenter_host matches Some(host) && text::trim(host).len() > 0,
    ensures
        config.normalized(times).vcenters.len() == 1,
        ({
            let entry = config.normalized(times).vcenters[0];
            &&& entry.host == host_of(config.vcenter_host->0)
            &&& entry.name == entry.host
            &&& entry.username == text::trim(or_empty(config.username))
            &&& entry.accept_invalid_certs == (config.accept_invalid_certs matches Some(
                accept,
            ) ==> accept)
        }),
{
    let entries = config.migrated_entries(times);
    assert(entries.drop_last() == Seq::<VcenterEntryView>::empty());
    lemma_entry_in_place(entries, times, 0);
    assert(text::trim(Seq::<char>::empty()) == Seq::<char>::empty());
}

/// Settings that are settled, and whose entries and origins have nothing to clean up, stay as
/// they are when they are normalized again.
pub proof fn law_settled_config_stays(config: ConfigView, times: Seq<u128>)
    requires
        config.is_settled(),
        forall|i: int|
            0 <= i < config.vcenters.len() ==> (#[trigger] config.vcenters[i]).normalized()
                == config.vcenters[i],
        forall|i: int|
            0 <= i < config.allowed_origins.len() ==> text::trim(
                #[trigger] config.allowed_origins[i],
            ) == config.allowed_origins[i],
    ensures
        config.normalized(times) == config,
{
    lemma_settled_entries_stay(config.vcenters, times);
    lemma_settled_origins_stay(config.allowed_origins);
    if lists_null(config.allowed_origins) {
        let i = choose|i: int|
            0 <= i < config.allowed_origins.len() && listed_origin(
                #[trigger] config.allowed_origins[i],
            ) == "null"@;
        assert(config.allowed_origins[i] == "null"@);
    }
}

/// Settings that normalizing leaves as they are at one time stay so at any other: settings that
/// were saved that way and are read back unchanged are loaded as they were.
pub proof fn law_saved_settings_load_back(config: ConfigView, saved: Seq<u128>, loaded: Seq<u128>)
    requires
        config.vcenters.len() <= ids::ID_SPACE,
        config.normalized(saved) == config,
    ensures
        config.normalized(loaded) == config,
        config.is_settled(),
{
    law_normalized_is_settled(config, saved);
    assert forall|i: int| 0 <= i < config.vcenters.len() implies (
    #[trigger] config.vcenters[i]).normalized() == config.vcenters[i] by {
        law_entries_keep_their_places(config, saved, i);
    }
    lemma_settled_entries_stay(config.vcenters, loaded);
}

/// Entries that have ids of their own and nothing to clean up stay as they are.
pub proof fn lemma_settled_entries_stay(entries: Seq<VcenterEntryView>, times: Seq<u128>)
    requires
        ids::ids_are_unique(entries),
        forall|i: int|
            0 <= i < entries.len() ==> (#[trigger] entries[i]).normalized() == entries[i],
    ensures
        settled_entries(entries, times) == entries,
    decreases entries.len(),
{
    if entries.len() > 0 {
        let before = entries.drop_last();
        assert forall|i: int| 0 <= i < before.len() implies (#[trigger] before[i]).normalized()
            == before[i] by {
            assert(entries[i].normalized() == entries[i]);
        }
        assert(ids::ids_are_unique(before)) by {
            assert forall|i: int| 0 <= i < before.len() implies (#[trigger] before[i]).id.len()
                > 0 by {
                assert(entries[i].id.len() > 0);
            }
            assert forall|i: int, j: int| 0 <= i < j < before.len() implies (
            #[trigger] before[i]).id != (#[trigger] before[j]).id by {
                assert(entries[i].id != entries[j].id);
            }
        }
        lemma_settled_entries_stay(before, times);
        let last = entries[entries.len() - 1];
        assert(!ids::has_id(before, last.id)) by {
            if ids::has_id(before, last.id) {
                let i = choose|i: int|
                    0 <= i < before.len() && (#[trigger] before[i]).id == last.id;
                assert(entries[i].id == last.id);
            }
        }
        assert(last.id.len() > 0 && last.normalized() == last);
        assert(before.push(last) == entries);
    }
}

proof fn lemma_settled_origins_stay(origins: Seq<Seq<char>>)
    requires
        origins.no_duplicates(),
        forall|i: int|
            0 <= i < origins.len() ==> {
                let origin = #[trigger] origins[i];
                origin != "null"@ && origin.len() > 0 && listed_origin(origin) == origin
            },
    ensures
        settled_origins(origins) == origins,
    decreases origins.len(),
{
    if origins.len() > 0 {
        let before = origins.drop_last();
        assert forall|i: int| 0 <= i < before.len() implies {
            let origin = #[trigger] before[i];
            origin != "null"@ && origin.len() > 0 && listed_origin(origin) == origin
        } by {
            assert(origins[i] == before[i]);
        }
        lemma_settled_origins_stay(before);
        let last = origins[origins.len() - 1];
        assert(!before.contains(last));
        assert(before.push(last) == origins);
    }
}

/// Cleaning up an entry twice is cleaning it up once, unless what the first time left of the
/// host begins with a scheme again or has white space at an end.
pub proof fn law_entry_normalized_twice(entry: VcenterEntryView)
    requires
        text::trim(host_of(entry.host)) == host_of(entry.host),
        without_scheme(host_of(entry.host)) == host_of(entry.host),
    ensures
        entry.normalized().normalized() == entry.normalized(),
{
    text::lemma_trim_twice(entry.name);
    text::lemma_trim_twice(entry.username);
    let stripped = without_scheme(text::trim(entry.host));
    text::lemma_trim_end_char(stripped, '/');
    assert(host_of(host_of(entry.host)) == host_of(entry.host));
}

/// Two entries with one fingerprint are served by one client and session rightly: they name the
/// same host, the same user and the same choice on certificates. A host has no `|` in it.
pub proof fn law_fingerprint_tells_connections_apart(a: VcenterEntryView, b: VcenterEntryView)
    requires
        a.connection_fingerprint() == b.connection_fingerprint(),
        !a.host.contains('|'),
        !b.host.contains('|'),
    ensures
        a.host == b.host,
        a.username == b.username,
        a.accept_invalid_certs == b.accept_invalid_certs,
{
    reveal_strlit("|");
    reveal_strlit("true");
    reveal_strlit("false");
    let (f, g) = (a.connection_fingerprint(), b.connection_fingerprint());
    let (m, n) = (a.host.len() as int, b.host.len() as int);
    assert(f[m] == '|' && g[n] == '|');
    assert(m < n ==> g[m] == b.host[m]);
    assert(n < m ==> f[n] == a.host[n]);
    assert(m == n);
    assert(f.take(m) == a.host && g.take(n) == b.host);
    let (x, y) = (bool_text(a.accept_invalid_certs), bool_text(b.accept_invalid_certs));
    assert(f.last() == x.last() && g.last() == y.last());
    assert(f[f.len() - 3] == x[x.len() - 3]);
    assert(g[g.len() - 3] == y[y.len() - 3]);
    assert(x[x.len() - 3] != y[y.len() - 3] || x == y);
    let k = f.len() - x.len() - 1;
    assert(f.subrange(m + 1, k) == a.username);
    assert(g.subrange(m + 1, k) == b.username);
}

/// Two entries with one keychain account have the same user and host. A host has no `@` in it.
pub proof fn law_account_tells_logins_apart(a: VcenterEntryView, b: VcenterEntryView)
    requires
        a.keyring_account() == b.keyring_account(),
        !a.host.contains('@'),
        !b.host.contains('@'),
    ensures
        a.host == b.host,
        a.username == b.username,
{
    reveal_strlit("@");
    let (f, g) = (a.keyring_account(), b.keyring_account());
    let (m, n) = (a.username.len() as int, b.username.len() as int);
    assert(f[m] == '@' && g[n] == '@' && f.len() == g.len());
    assert(f.len() == m + 1 + a.host.len() && g.len() == n + 1 + b.host.len());
    assert(m < n ==> f[n] == a.host[n - m - 1]);
    assert(n < m ==> g[m] == b.host[m - n - 1]);
    assert(m == n);
    assert(f.take(m) == a.username && g.take(n) == b.username);
    assert(f.skip(m + 1) == a.host && g.skip(n + 1) == b.host);
}

} // verus!

//! The sessions the helper holds on the vCenters: one for REST and one for SOAP on each.

use crate::config::{VcenterEntry, VcenterEntryView};
use crate::request;
use crate::request::{HttpMethod, HttpRequest, HttpRequestView};
use crate::text;
use vstd::prelude::*;
use vstd::string::StringExecFns;

verus! {

/// Per-vCenter login state. REST and SOAP have separate sessions. `C` is the HTTP client.
pub struct Session<C> {
    fingerprint: String,
    base_url: String,
    client: Option<C>,
    /// REST `vmware-api-session-id`.
    token: Option<String>,
    /// SOAP `vmware_soap_session=…` cookie.
    soap_cookie: Option<String>,
}

/// What a [`Session`] holds.
#[verifier::ext_equal]
pub struct SessionView<C> {
    pub fingerprint: Seq<char>,
    pub base_url: Seq<char>,
    pub client: Option<C>,
    pub token: Option<Seq<char>>,
    pub soap_cookie: Option<Seq<char>>,
}

impl<C> View for Session<C> {
    type V = SessionView<C>;

    closed spec fn view(&self) -> SessionView<C> {
        SessionView {
            fingerprint: self.fingerprint@,
            base_url: self.base_url@,
            client: self.client,
            token: text::option_view(self.token),
            soap_cookie: text::option_view(self.soap_cookie),
        }
    }
}

impl<C> SessionView<C> {
    /// Nothing: no client and no session.
    pub open spec fn empty() -> SessionView<C> {
        SessionView {
            fingerprint: seq![],
            base_url: seq![],
            client: None,
            token: None,
            soap_cookie: None,
        }
    }

    /// `client`, for the entry, with no session yet.
    pub open spec fn connected(entry: VcenterEntryView, client: C) -> SessionView<C> {
        SessionView {
            fingerprint: entry.connection_fingerprint(),
            base_url: entry.base_url(),
            client: Some(client),
            token: None,
            soap_cookie: None,
        }
    }

    /// Whether the client serves the entry as it is now.
    pub open spec fn serves(self, entry: VcenterEntryView) -> bool {
        self.client is Some && self.fingerprint == entry.connection_fingerprint()
    }

    /// The requests that end the sessions on vCenter.
    pub open spec fn logout_requests(self) -> Seq<HttpRequestView> {
        let rest = match self.token {
            Some(token) => seq![
                HttpRequestView {
                    timeout: Some(request::LOGOUT_TIMEOUT),
                    ..request::rest_request_view(
                        HttpMethod::Delete,
                        self.base_url + "/api/session"@,
                        token,
                    )
                },
            ],
            None => seq![],
        };
        let soap = match self.soap_cookie {
            Some(cookie) => seq![
                HttpRequestView {
                    timeout: Some(request::LOGOUT_TIMEOUT),
                    ..request::soap_request_view(
                        self.base_url,
                        Some(cookie),
                        "<vim25:Logout><vim25:_this type=\"SessionManager\">SessionManager</vim25:_this></vim25:Logout>"@,
                    )
                },
            ],
            None => seq![],
        };
        rest + soap
    }
}

/// What it takes before a vCenter can be asked.
pub enum Readiness {
    /// A client has to be made.
    NeedsClient,
    /// There is a client, but no session.
    NeedsLogin,
    /// Nothing: there is a session, which the credential names.
    Ready(String),
}

/// What it takes before a vCenter can be asked.
#[verifier::ext_equal]
pub enum ReadinessView {
    NeedsClient,
    NeedsLogin,
    Ready(Seq<char>),
}

impl View for Readiness {
    type V = ReadinessView;

    open spec fn view(&self) -> ReadinessView {
        match self {
            Readiness::NeedsClient => ReadinessView::NeedsClient,
            Readiness::NeedsLogin => ReadinessView::NeedsLogin,
            Readiness::Ready(credential) => ReadinessView::Ready(credential@),
        }
    }
}

/// What it takes before a vCenter can be asked, by whether there is a client that serves it and by
/// the credential of the session.
pub open spec fn readiness(served: bool, credential: Option<Seq<char>>) -> ReadinessView {
    if !served {
        ReadinessView::NeedsClient
    } else {
        match credential {
            Some(credential) => ReadinessView::Ready(credential),
            None => ReadinessView::NeedsLogin,
        }
    }
}

/// What is left of a cached credential where `stale` is known to have expired.
pub open spec fn without_stale(cached: Option<Seq<char>>, stale: Option<Seq<char>>) -> Option<
    Seq<char>,
> {
    if stale is Some && cached == stale {
        None
    } else {
        cached
    }
}

/// What an optional borrowed text says.
pub open spec fn borrowed_view(text: Option<&str>) -> Option<Seq<char>> {
    match text {
        Some(text) => Some(text@),
        None => None,
    }
}

/// Drops a cached credential that is known to have expired.
fn drop_stale(cached: Option<String>, stale: Option<&str>) -> (left: Option<String>)
    ensures
        text::option_view(left) == without_stale(text::option_view(cached), borrowed_view(stale)),
{
    match (cached, stale) {
        (Some(cached), Some(stale)) => if text::same_text(&cached, stale) {
            None
        } else {
            Some(cached)
        },
        (cached, _) => cached,
    }
}

/// What the requests of a list say.
pub open spec fn requests_view(requests: Seq<HttpRequest>) -> Seq<HttpRequestView> {
    requests.map_values(|r: HttpRequest| r@)
}

impl<C> Session<C> {
    /// Nothing: no client and no session.
    pub fn new() -> (session: Self)
        ensures
            session@ == SessionView::<C>::empty(),
    {
        Session {
            fingerprint: String::new(),
            base_url: String::new(),
            client: None,
            token: None,
            soap_cookie: None,
        }
    }

    /// Whether a client has to be made before the entry can be served.
    fn needs_client(&self, entry: &VcenterEntry) -> (needed: bool)
        ensures
            needed == !self@.serves(entry@),
    {
        self.client.is_none() || !text::same_text(
            &self.fingerprint,
            &entry.connection_fingerprint(),
        )
    }

    /// Takes a new client for the entry. The sessions of the client before it are dropped.
    pub fn set_client(&mut self, entry: &VcenterEntry, client: C)
        ensures
            final(self)@ == SessionView::connected(entry@, client),
    {
        self.fingerprint = entry.connection_fingerprint();
        self.base_url = entry.base_url();
        self.client = Some(client);
        self.token = None;
        self.soap_cookie = None;
    }

    /// The client.
    pub fn client(&self) -> (client: Option<&C>)
        ensures
            match client {
                Some(client) => self@.client == Some(*client),
                None => self@.client is None,
            },
    {
        self.client.as_ref()
    }

    /// What it takes to ask the entry's REST API. `stale` names a token that has expired: a session
    /// that still has it is dropped.
    pub fn rest_session(&mut self, entry: &VcenterEntry, stale: Option<&str>) -> (r: Readiness)
        ensures
            final(self)@ == (if old(self)@.serves(entry@) {
                SessionView {
                    token: without_stale(old(self)@.token, borrowed_view(stale)),
                    ..old(self)@
                }
            } else {
                old(self)@
            }),
            r@ == readiness(old(self)@.serves(entry@), final(self)@.token),
    {
        if self.needs_client(entry) {
            return Readiness::NeedsClient;
        }
        let cached = self.token.take();
        self.token = drop_stale(cached, stale);
        match &self.token {
            Some(token) => Readiness::Ready(token.clone()),
            None => Readiness::NeedsLogin,
        }
    }

    /// Takes the token of a new REST session.
    pub fn set_rest_token(&mut self, token: String)
        ensures
            final(self)@ == (SessionView { token: Some(token@), ..old(self)@ }),
    {
        self.token = Some(token);
    }

    /// What it takes to ask the entry's SOAP API. `stale` names a cookie that has expired: a
    /// session that still has it is dropped.
    pub fn soap_session(&mut self, entry: &VcenterEntry, stale: Option<&str>) -> (r: Readiness)
        ensures
            final(self)@ == (if old(self)@.serves(entry@) {
                SessionView {
                    soap_cookie: without_stale(old(self)@.soap_cookie, borrowed_view(stale)),
                    ..old(self)@
                }
            } else {
                old(self)@
            }),
            r@ == readiness(old(self)@.serves(entry@), final(self)@.soap_cookie),
    {
        if self.needs_client(entry) {
            return Readiness::NeedsClient;
        }
        let cached = self.soap_cookie.take();
        self.soap_cookie = drop_stale(cached, stale);
        match &self.soap_cookie {
            Some(cookie) => Readiness::Ready(cookie.clone()),
            None => Readiness::NeedsLogin,
        }
    }

    /// Takes the cookie of a new SOAP session.
    pub fn set_soap_cookie(&mut self, cookie: String)
        ensures
            final(self)@ == (SessionView { soap_cookie: Some(cookie@), ..old(self)@ }),
    {
        self.soap_cookie = Some(cookie);
    }

    /// Ends both sessions: the client, and the requests to send with it. vCenter keeps abandoned
    /// sessions for ~30 minutes, so dropping them without logging out piles them up.
    pub fn logout(self) -> (r: Option<(C, Vec<HttpRequest>)>)
        ensures
            match r {
                Some((client, requests)) => {
                    &&& self@.client == Some(client)
                    &&& requests_view(requests@) == self@.logout_requests()
                },
                None => self@.client is None,
            },
    {
        let ghost view = self@;
        match self.client {
            Some(client) => {
                let mut requests: Vec<HttpRequest> = Vec::new();
                if let Some(token) = self.token {
                    let mut rest = request::rest_request(
                        HttpMethod::Delete,
                        self.base_url.clone().concat("/api/session"),
                        &token,
                    );
                    rest.timeout = Some(request::LOGOUT_TIMEOUT);
                    requests.push(rest);
                }
                if let Some(cookie) = self.soap_cookie {
                    let mut soap = request::soap_request(
                        self.base_url,
                        Some(cookie),
                        "<vim25:Logout><vim25:_this type=\"SessionManager\">SessionManager</vim25:_this></vim25:Logout>",
                    );
                    soap.timeout = Some(request::LOGOUT_TIMEOUT);
                    requests.push(soap);
                }
                assert(requests_view(requests@) == view.logout_requests());
                Some((client, requests))
            },
            None => None,
        }
    }
}

/// Asking for a credential with the one that has expired never gives that one back: the caller
/// has to log in again, unless another has done so meanwhile.
pub proof fn law_stale_credential_is_not_reused(cached: Option<Seq<char>>, stale: Seq<char>)
    ensures
        without_stale(cached, Some(stale)) != Some(stale),
        cached is Some && cached != Some(stale) ==> without_stale(cached, Some(stale)) == cached,
        without_stale(cached, None) == cached,
{
}

/// A vCenter whose client was just made needs a login first, and is then asked with what that
/// login gave.
pub proof fn law_new_client_logs_in<C>(
    entry: VcenterEntryView,
    client: C,
    credential: Seq<char>,
    stale: Option<Seq<char>>,
)
    ensures
        ({
            let session = SessionView::connected(entry, client);
            let rest = SessionView { token: Some(credential), ..session };
            let soap = SessionView { soap_cookie: Some(credential), ..session };
            &&& readiness(session.serves(entry), without_stale(session.token, stale)) is NeedsLogin
            &&& readiness(session.serves(entry), without_stale(session.soap_cookie, stale))
                is NeedsLogin
            &&& readiness(rest.serves(entry), without_stale(rest.token, None))
                == ReadinessView::Ready(credential)
            &&& readiness(soap.serves(entry), without_stale(soap.soap_cookie, None))
                == ReadinessView::Ready(credential)
        }),
{
}

/// A change of the host, the user or the choice on certificates calls for a new client, and with
/// it both sessions are gone. A host has no `|` in it.
pub proof fn law_changed_connection_is_reopened<C>(
    before: VcenterEntryView,
    after: VcenterEntryView,
    client: C,
)
    requires
        !before.host.contains('|'),
        !after.host.contains('|'),
        before.host != after.host || before.username != after.username
            || before.accept_invalid_certs != after.accept_invalid_certs,
    ensures
        !SessionView::connected(before, client).serves(after),
        SessionView::connected(after, client).token is None,
        SessionView::connected(after, client).soap_cookie is None,
{
    if before.connection_fingerprint() == after.connection_fingerprint() {
        crate::config::law_fingerprint_tells_connections_apart(before, after);
    }
}

/// Whether `slots` are those of the vCenters `ids`, which are all that have one.
pub open spec fn are_all_slots<S>(
    table: Map<Seq<char>, S>,
    ids: Seq<Seq<char>>,
    slots: Seq<S>,
) -> bool {
    &&& ids.no_duplicates()
    &&& ids.to_set() == table.dom()
    &&& slots == ids.map_values(|id: Seq<char>| table[id])
}

/// The sessions of all vCenters, one slot `S` for each.
pub struct VCenter<S> {
    sessions: Vec<(String, S)>,
}

impl<S> VCenter<S> {
    /// Whether no vCenter has two slots.
    pub closed spec fn is_valid(self) -> bool {
        forall|i: int, j: int|
            0 <= i < j < self.sessions@.len() ==> (#[trigger] self.sessions@[i]).0@ != (
            #[trigger] self.sessions@[j]).0@
    }

    /// Whether the slot at `i` is that of `id`.
    closed spec fn is_at(self, id: Seq<char>, i: int) -> bool {
        0 <= i < self.sessions@.len() && self.sessions@[i].0@ == id
    }

    /// The ids of the vCenters that have a slot, in order.
    closed spec fn ids(self) -> Seq<Seq<char>> {
        self.sessions@.map_values(|slot: (String, S)| slot.0@)
    }
}

impl<S> View for VCenter<S> {
    type V = Map<Seq<char>, S>;

    closed spec fn view(&self) -> Map<Seq<char>, S> {
        Map::new(
            |id: Seq<char>| exists|i: int| #[trigger] self.is_at(id, i),
            |id: Seq<char>| self.sessions@[choose|i: int| #[trigger] self.is_at(id, i)].1,
        )
    }
}

impl<S> VCenter<S> {
    /// No vCenter has a slot.
    pub fn new() -> (table: Self)
        ensures
            table.is_valid(),
            table@ == Map::<Seq<char>, S>::empty(),
    {
        let table = VCenter { sessions: Vec::new() };
        assert(table@ == Map::<Seq<char>, S>::empty());
        table
    }

    proof fn lemma_at(self, id: Seq<char>, i: int)
        requires
            self.is_valid(),
            self.is_at(id, i),
        ensures
            self@.contains_key(id),
            self@[id] == self.sessions@[i].1,
    {
        let j = choose|j: int| #[trigger] self.is_at(id, j);
        assert(i == j);
    }

    /// Where the slot of `id` is.
    fn position(&self, id: &str) -> (position: Option<usize>)
        ensures
            match position {
                Some(i) => self.is_at(id@, i as int),
                None => !self@.contains_key(id@),
            },
    {
        for i in 0..self.sessions.len()
            invariant
                forall|j: int| 0 <= j < i ==> !#[trigger] self.is_at(id@, j),
        {
            if text::same_text(&self.sessions[i].0, id) {
                return Some(i);
            }
        }
        None
    }

    /// The slot of the vCenter `id`, which is `fresh` where it has none yet.
    pub fn slot(&mut self, id: &str, fresh: S) -> (slot: &S)
        requires
            old(self).is_valid(),
        ensures
            final(self).is_valid(),
            final(self)@ == (if old(self)@.contains_key(id@) {
                old(self)@
            } else {
                old(self)@.insert(id@, fresh)
            }),
            *slot == final(self)@[id@],
    {
        let ghost before = *self;
        let i = match self.position(id) {
            Some(i) => i,
            None => {
                let i = self.sessions.len();
                self.sessions.push((id.to_owned(), fresh));
                proof {
                    assert forall|j: int| 0 <= j < i implies (#[trigger] self.sessions@[j]).0@
                        != id@ by {
                        assert(!before.is_at(id@, j));
                    }
                    assert(self.is_valid());
                    assert(self.is_at(id@, i as int));
                    self.lemma_at(id@, i as int);
                    assert forall|other: Seq<char>| #[trigger]
                        self@.contains_key(other) <==> before@.insert(id@, fresh).contains_key(
                            other,
                        ) by {
                        if before@.contains_key(other) {
                            let j = choose|j: int| #[trigger] before.is_at(other, j);
                            assert(self.is_at(other, j));
                        }
                        if self@.contains_key(other) {
                            let j = choose|j: int| #[trigger] self.is_at(other, j);
                            assert(j < i ==> before.is_at(other, j));
                        }
                    }
                    assert forall|other: Seq<char>| #[trigger] self@.contains_key(other) implies
                        self@[other] == before@.insert(id@, fresh)[other] by {
                        let j = choose|j: int| #[trigger] self.is_at(other, j);
                        self.lemma_at(other, j);
                        if j < i {
                            assert(before.is_at(other, j));
                            before.lemma_at(other, j);
                        }
                    }
                    assert(self@ == before@.insert(id@, fresh));
                }
                i
            },
        };
        proof {
            self.lemma_at(id@, i as int);
        }
        &self.sessions[i].1
    }

    /// Takes the slot of the vCenter `id` away (after it is edited, deleted, or re-tested).
    pub fn forget(&mut self, id: &str) -> (slot: Option<S>)
        requires
            old(self).is_valid(),
        ensures
            final(self).is_valid(),
            final(self)@ == old(self)@.remove(id@),
            match slot {
                Some(slot) => old(self)@.contains_key(id@) && slot == old(self)@[id@],
                None => !old(self)@.contains_key(id@),
            },
    {
        let ghost before = *self;
        match self.position(id) {
            Some(i) => {
                let (_, slot) = self.sessions.remove(i);
                proof {
                    before.lemma_at(id@, i as int);
                    let gap = |j: int| if j < i {
                        j
                    } else {
                        j + 1
                    };
                    assert(forall|j: int|
                        0 <= j < self.sessions@.len() ==> #[trigger] self.sessions@[j]
                            == before.sessions@[gap(j)]);
                    assert(self.is_valid());
                    assert forall|other: Seq<char>| #[trigger]
                        self@.contains_key(other) <==> before@.remove(id@).contains_key(other) by {
                        if before@.remove(id@).contains_key(other) {
                            let j = choose|j: int| #[trigger] before.is_at(other, j);
                            assert(j != i);
                            assert(self.is_at(other, if j < i {
                                j
                            } else {
                                j - 1
                            }));
                        }
                        if self@.contains_key(other) {
                            let j = choose|j: int| #[trigger] self.is_at(other, j);
                            assert(before.is_at(other, gap(j)));
                            before.lemma_at(other, gap(j));
                        }
                    }
                    assert forall|other: Seq<char>| #[trigger] self@.contains_key(other) implies
                        self@[other] == before@.remove(id@)[other] by {
                        let j = choose|j: int| #[trigger] self.is_at(other, j);
                        self.lemma_at(other, j);
                        assert(before.is_at(other, gap(j)));
                        before.lemma_at(other, gap(j));
                    }
                    assert(self@ == before@.remove(id@));
                }
                Some(slot)
            },
            None => {
                assert(self@.remove(id@) == self@);
                None
            },
        }
    }

    /// Takes the slots of all vCenters away. Called when the helper quits.
    pub fn logout_all(&mut self) -> (slots: Vec<S>)
        requires
            old(self).is_valid(),
        ensures
            final(self).is_valid(),
            final(self)@ == Map::<Seq<char>, S>::empty(),
            exists|ids: Seq<Seq<char>>| #[trigger] are_all_slots(old(self)@, ids, slots@),
    {
        let ghost before = *self;
        let mut sessions: Vec<(String, S)> = Vec::new();
        std::mem::swap(&mut sessions, &mut self.sessions);
        let mut slots: Vec<S> = Vec::new();
        for entry in iter: sessions.into_iter()
            invariant
                iter.seq() == before.sessions@,
                slots@.len() == iter.index(),
                forall|j: int|
                    0 <= j < slots@.len() ==> #[trigger] slots@[j] == before.sessions@[j].1,
        {
            let (_, slot) = entry;
            slots.push(slot);
        }
        proof {
            assert(self@ == Map::<Seq<char>, S>::empty());
            let ids = before.ids();
            assert(ids.no_duplicates());
            assert forall|id: Seq<char>| ids.to_set().contains(id) <==> #[trigger]
                before@.contains_key(id) by {
                if ids.contains(id) {
                    let j = choose|j: int| 0 <= j < ids.len() && ids[j] == id;
                    assert(before.is_at(id, j));
                }
                if before@.contains_key(id) {
                    let j = choose|j: int| #[trigger] before.is_at(id, j);
                    assert(ids[j] == id);
                }
            }
            assert(ids.to_set() == before@.dom());
            assert forall|j: int| 0 <= j < slots@.len() implies #[trigger] slots@[j]
                == before@[ids[j]] by {
                assert(before.is_at(ids[j], j));
                before.lemma_at(ids[j], j);
            }
            assert(slots@ =~= ids.map_values(|id: Seq<char>| before@[id]));
            assert(are_all_slots(before@, ids, slots@));
        }
        slots
    }
}

} // verus!

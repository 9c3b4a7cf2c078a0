//! What a device keeps between runs: its tunnels and the selected project.
use vstd::prelude::*;

use crate::numbers;
use crate::text;

verus! {

/// The local service behind a tunnel.
#[derive(Debug, Clone, PartialEq, Eq)]
pub struct TcpProxyData {
    /// The tunnel it belongs to.
    pub resource_id: String,
    pub host: String,
    pub port: u16,
}

/// The model of a [`TcpProxyData`].
#[verifier::ext_equal]
pub struct TcpProxyDataModel {
    pub resource_id: Seq<char>,
    pub host: Seq<char>,
    pub port: u16,
}

impl DeepView for TcpProxyData {
    type V = TcpProxyDataModel;

    open spec fn deep_view(&self) -> TcpProxyDataModel {
        TcpProxyDataModel {
            resource_id: self.resource_id.deep_view(),
            host: self.host.deep_view(),
            port: self.port,
        }
    }
}

/// What this device remembers of a tunnel.
#[derive(Debug, Clone, PartialEq, Eq)]
pub struct ProxyState {
    pub info: TcpProxyData,
    pub enabled: bool,
}

/// The model of a [`ProxyState`].
#[verifier::ext_equal]
pub struct ProxyStateModel {
    pub info: TcpProxyDataModel,
    pub enabled: bool,
}

impl DeepView for ProxyState {
    type V = ProxyStateModel;

    open spec fn deep_view(&self) -> ProxyStateModel {
        ProxyStateModel {
            info: self.info.deep_view(),
            enabled: self.enabled,
        }
    }
}

/// The tunnels that this device knows.
#[derive(Debug, Clone, PartialEq, Eq)]
pub struct State {
    pub proxies: Vec<ProxyState>,
}

/// The model of a [`State`].
#[verifier::ext_equal]
pub struct StateModel {
    pub proxies: Seq<ProxyStateModel>,
}

impl DeepView for State {
    type V = StateModel;

    open spec fn deep_view(&self) -> StateModel {
        StateModel {
            proxies: self.proxies.deep_view(),
        }
    }
}

/// The organization and project that commands act on.
#[derive(Debug, Clone, PartialEq, Eq)]
pub struct SelectedContext {
    pub org_id: String,
    pub org_name: String,
    pub project_id: String,
    pub project_name: String,
    /// The kind of organization, such as `personal` or `team`; empty where unknown.
    pub org_type: String,
}

/// The model of a [`SelectedContext`].
#[verifier::ext_equal]
pub struct SelectedContextModel {
    pub org_id: Seq<char>,
    pub org_name: Seq<char>,
    pub project_id: Seq<char>,
    pub project_name: Seq<char>,
    pub org_type: Seq<char>,
}

impl DeepView for SelectedContext {
    type V = SelectedContextModel;

    open spec fn deep_view(&self) -> SelectedContextModel {
        SelectedContextModel {
            org_id: self.org_id.deep_view(),
            org_name: self.org_name.deep_view(),
            project_id: self.project_id.deep_view(),
            project_name: self.project_name.deep_view(),
            org_type: self.org_type.deep_view(),
        }
    }
}

// ---------------------------------------------------------------------------
// The tunnels of this device
// ---------------------------------------------------------------------------
/// The index of the first proxy of the tunnel `id`, or the number of proxies.
pub open spec fn index_of_id(proxies: Seq<ProxyStateModel>, id: Seq<char>) -> int
    decreases proxies.len(),
{
    if proxies.len() == 0 || proxies[0].info.resource_id == id {
        0
    } else {
        1 + index_of_id(proxies.drop_first(), id)
    }
}

/// The proxies after setting `proxy`: it takes the place of the one for the
/// same tunnel, or comes last.
pub open spec fn with_proxy(proxies: Seq<ProxyStateModel>, proxy: ProxyStateModel) -> Seq<
    ProxyStateModel,
> {
    let i = index_of_id(proxies, proxy.info.resource_id);
    if i < proxies.len() {
        proxies.update(i, proxy)
    } else {
        proxies.push(proxy)
    }
}

/// The proxies after removing the one of the tunnel `id`.
pub open spec fn without_proxy(proxies: Seq<ProxyStateModel>, id: Seq<char>) -> Seq<
    ProxyStateModel,
> {
    let i = index_of_id(proxies, id);
    if i < proxies.len() {
        proxies.remove(i)
    } else {
        proxies
    }
}

/// The proxy of the tunnel `id`.
pub open spec fn proxy_of(proxies: Seq<ProxyStateModel>, id: Seq<char>) -> Option<ProxyStateModel> {
    let i = index_of_id(proxies, id);
    if i < proxies.len() {
        Some(proxies[i])
    } else {
        None
    }
}

/// No tunnel has two proxies.
pub open spec fn distinct_ids(proxies: Seq<ProxyStateModel>) -> bool {
    forall|i: int, j: int|
        0 <= i < j < proxies.len() ==> (#[trigger] proxies[i]).info.resource_id != (
        #[trigger] proxies[j]).info.resource_id
}

pub proof fn lemma_index_of_id(proxies: Seq<ProxyStateModel>, id: Seq<char>)
    ensures
        0 <= index_of_id(proxies, id) <= proxies.len(),
        forall|j: int|
            0 <= j < index_of_id(proxies, id) ==> (#[trigger] proxies[j]).info.resource_id != id,
        index_of_id(proxies, id) < proxies.len() ==> proxies[index_of_id(
            proxies,
            id,
        )].info.resource_id == id,
    decreases proxies.len(),
{
    if proxies.len() > 0 && proxies[0].info.resource_id != id {
        let rest = proxies.drop_first();
        lemma_index_of_id(rest, id);
        assert forall|j: int| 0 <= j < index_of_id(proxies, id) implies (
        #[trigger] proxies[j]).info.resource_id != id by {
            if j > 0 {
                assert(proxies[j] == rest[j - 1]);
            }
        }
    }
}

pub proof fn lemma_index_of_id_is(proxies: Seq<ProxyStateModel>, id: Seq<char>, i: int)
    requires
        0 <= i <= proxies.len(),
        forall|j: int| 0 <= j < i ==> (#[trigger] proxies[j]).info.resource_id != id,
        i < proxies.len() ==> proxies[i].info.resource_id == id,
    ensures
        index_of_id(proxies, id) == i,
{
    lemma_index_of_id(proxies, id);
    let k = index_of_id(proxies, id);
    if k < i {
        assert(proxies[k].info.resource_id != id);
    } else if i < k {
        assert(proxies[i].info.resource_id != id);
    }
}

/// Setting a proxy makes it the proxy of its tunnel, leaves the proxies of all
/// other tunnels as they were, and never gives a tunnel a second proxy.
pub proof fn set_proxy_replaces_only_its_tunnel(
    proxies: Seq<ProxyStateModel>,
    proxy: ProxyStateModel,
    other: Seq<char>,
)
    ensures
        proxy_of(with_proxy(proxies, proxy), proxy.info.resource_id) == Some(proxy),
        other != proxy.info.resource_id ==> proxy_of(with_proxy(proxies, proxy), other) == proxy_of(
            proxies,
            other,
        ),
        distinct_ids(proxies) ==> distinct_ids(with_proxy(proxies, proxy)),
{
    let id = proxy.info.resource_id;
    let after = with_proxy(proxies, proxy);
    lemma_index_of_id(proxies, id);
    let i = index_of_id(proxies, id);
    lemma_index_of_id_is(after, id, i);
    if other != id {
        lemma_index_of_id(proxies, other);
        let k = index_of_id(proxies, other);
        if k < proxies.len() {
            lemma_index_of_id_is(after, other, k);
        } else {
            lemma_index_of_id_is(after, other, after.len() as int);
        }
    }
}

/// Removing the proxy of a tunnel leaves that tunnel without one and the
/// proxies of all other tunnels as they were.
pub proof fn remove_proxy_removes_only_its_tunnel(
    proxies: Seq<ProxyStateModel>,
    id: Seq<char>,
    other: Seq<char>,
)
    requires
        distinct_ids(proxies),
    ensures
        proxy_of(without_proxy(proxies, id), id) is None,
        other != id ==> proxy_of(without_proxy(proxies, id), other) == proxy_of(proxies, other),
        distinct_ids(without_proxy(proxies, id)),
{
    let after = without_proxy(proxies, id);
    lemma_index_of_id(proxies, id);
    let i = index_of_id(proxies, id);
    lemma_index_of_id_is(after, id, after.len() as int);
    if other != id {
        lemma_index_of_id(proxies, other);
        let k = index_of_id(proxies, other);
        if k < proxies.len() {
            lemma_index_of_id_is(
                after,
                other,
                if i < k {
                    k - 1
                } else {
                    k
                },
            );
        } else {
            lemma_index_of_id_is(after, other, after.len() as int);
        }
    }
}

/// Removing what was just set gives it back, and undoes setting a proxy for a
/// tunnel that had none.
pub proof fn remove_undoes_set(proxies: Seq<ProxyStateModel>, proxy: ProxyStateModel)
    ensures
        proxy_of(with_proxy(proxies, proxy), proxy.info.resource_id) == Some(proxy),
        proxy_of(proxies, proxy.info.resource_id) is None ==> without_proxy(
            with_proxy(proxies, proxy),
            proxy.info.resource_id,
        ) == proxies,
{
    let id = proxy.info.resource_id;
    set_proxy_replaces_only_its_tunnel(proxies, proxy, id);
    lemma_index_of_id(proxies, id);
    if index_of_id(proxies, id) >= proxies.len() {
        let after = proxies.push(proxy);
        lemma_index_of_id_is(after, id, proxies.len() as int);
        assert(after.remove(proxies.len() as int) =~= proxies);
    }
}

impl State {
    /// No tunnels.
    pub fn empty() -> (r: Self)
        ensures
            r.deep_view().proxies == Seq::<ProxyStateModel>::empty(),
    {
        let r = State { proxies: Vec::new() };
        assert(r.deep_view().proxies =~= Seq::<ProxyStateModel>::empty());
        r
    }

    fn position(&self, id: &str) -> (r: usize)
        ensures
            r == index_of_id(self.deep_view().proxies, id@),
            r <= self.proxies@.len(),
    {
        let mut i: usize = 0;
        let ghost all = self.deep_view().proxies;
        while i < self.proxies.len() && !text::text_eq(&self.proxies[i].info.resource_id, id)
            invariant
                i <= self.proxies@.len(),
                all == self.deep_view().proxies,
                forall|j: int| 0 <= j < i ==> (#[trigger] all[j]).info.resource_id != id@,
            decreases self.proxies@.len() - i,
        {
            i = i + 1;
        }
        proof {
            lemma_index_of_id_is(all, id@, i as int);
        }
        i
    }

    /// Remembers `proxy` as the proxy of its tunnel.
    pub fn set_proxy(&mut self, proxy: ProxyState)
        ensures
            final(self).deep_view().proxies == with_proxy(
                old(self).deep_view().proxies,
                proxy.deep_view(),
            ),
    {
        let i: usize = self.position(&proxy.info.resource_id);
        let ghost before = self.deep_view().proxies;
        let ghost added = proxy.deep_view();
        if i < self.proxies.len() {
            self.proxies[i] = proxy;
            assert(self.deep_view().proxies =~= before.update(i as int, added));
        } else {
            self.proxies.push(proxy);
            assert(self.deep_view().proxies =~= before.push(added));
        }
    }

    /// Forgets the proxy of the tunnel `resource_id` and returns it.
    pub fn remove_proxy(&mut self, resource_id: &str) -> (r: Option<ProxyState>)
        ensures
            final(self).deep_view().proxies == without_proxy(
                old(self).deep_view().proxies,
                resource_id@,
            ),
            r.deep_view() == proxy_of(old(self).deep_view().proxies, resource_id@),
    {
        let i: usize = self.position(resource_id);
        let ghost before = self.deep_view().proxies;
        if i < self.proxies.len() {
            let removed = self.proxies.remove(i);
            assert(self.deep_view().proxies =~= before.remove(i as int));
            Some(removed)
        } else {
            None
        }
    }
}

impl ProxyState {
    /// An enabled proxy for `info`.
    pub fn new(info: TcpProxyData) -> (r: Self)
        ensures
            r.info == info,
            r.enabled,
    {
        ProxyState { info, enabled: true }
    }

    /// The tunnel that the proxy belongs to.
    pub fn id(&self) -> (r: &str)
        ensures
            r@ == self.deep_view().info.resource_id,
    {
        self.info.resource_id.as_str()
    }
}

// ---------------------------------------------------------------------------
// Sharing
// ---------------------------------------------------------------------------
/// What is shared after `next` was to be written down, and whether those who wait
/// for a change are told: the new state where it was written, and else the
/// present one, with nobody told.
pub fn settled(current: State, next: State, written: bool) -> (r: (State, bool))
    ensures
        r.0.deep_view() == (if written {
            next.deep_view()
        } else {
            current.deep_view()
        }),
        r.1 == written,
{
    if written {
        (next, true)
    } else {
        (current, false)
    }
}

// ---------------------------------------------------------------------------
// Host and port
// ---------------------------------------------------------------------------
/// Why a text is no `host:port`.
#[derive(Debug, Clone, Copy, PartialEq, Eq, Structural)]
pub enum HostPortError {
    MissingPort,
    InvalidPort,
}

/// The host and port that `s` names: what stands before and after its last
/// colon.
pub open spec fn host_port(s: Seq<char>) -> Result<(Seq<char>, nat), HostPortError> {
    let i = text::last_index(s, ':');
    if i < 0 {
        Err(HostPortError::MissingPort)
    } else {
        match numbers::read_number(s.skip(i + 1), 0xffff) {
            Some(port) => Ok((s.take(i), port)),
            None => Err(HostPortError::InvalidPort),
        }
    }
}

/// Reads `host:port`.
pub fn parse_host_port(s: &str) -> (r: Result<(String, u16), HostPortError>)
    ensures
        match r {
            Ok((host, port)) => host_port(s@) == Ok::<(Seq<char>, nat), HostPortError>(
                (host@, port as nat),
            ),
            Err(e) => host_port(s@) == Err::<(Seq<char>, nat), HostPortError>(e),
        },
{
    let v = text::chars_of(s);
    proof {
        text::lemma_last_index(s@, ':');
    }
    match text::rfind_char(&v, ':') {
        None => Err(HostPortError::MissingPort),
        Some(i) => {
            let host = text::string_between(&v, 0, i);
            let digits = text::string_between(&v, i + 1, v.len());
            assert(host@ =~= s@.take(i as int));
            assert(digits@ =~= s@.skip(i + 1));
            match numbers::parse_u16(&digits) {
                Some(port) => Ok((host, port)),
                None => Err(HostPortError::InvalidPort),
            }
        },
    }
}

impl HostPortError {
    pub open spec fn text(self) -> Seq<char> {
        match self {
            HostPortError::MissingPort => "missing port"@,
            HostPortError::InvalidPort => "invalid port"@,
        }
    }

    /// The message of this error.
    pub fn message(&self) -> (r: &'static str)
        ensures
            r@ == self.text(),
    {
        match self {
            HostPortError::MissingPort => "missing port",
            HostPortError::InvalidPort => "invalid port",
        }
    }
}

impl TcpProxyDataModel {
    /// The address of the service, as `host:port`.
    pub open spec fn address(self) -> Seq<char> {
        self.host + ":"@ + numbers::decimal(self.port as nat)
    }
}

impl TcpProxyData {
    /// The service at `s` for the tunnel `resource_id`.
    pub fn from_host_port_str(resource_id: &str, s: &str) -> (r: Result<Self, HostPortError>)
        ensures
            match r {
                Ok(data) => {
                    &&& host_port(s@) == Ok::<(Seq<char>, nat), HostPortError>(
                        (data.deep_view().host, data.port as nat),
                    )
                    &&& data.deep_view().resource_id == resource_id@
                },
                Err(e) => host_port(s@) == Err::<(Seq<char>, nat), HostPortError>(e),
            },
    {
        match parse_host_port(s) {
            Ok((host, port)) => Ok(TcpProxyData { resource_id: resource_id.to_owned(), host, port }),
            Err(e) => Err(e),
        }
    }

    /// The address of the service, as `host:port`.
    pub fn address(&self) -> (r: String)
        ensures
            r@ == self.deep_view().address(),
    {
        text::concat3(&self.host, ":", &numbers::decimal_text(self.port as u64))
    }
}

/// Reading the address of a service gives its host and port back.
pub proof fn address_round_trip(data: TcpProxyDataModel)
    ensures
        host_port(data.address()) == Ok::<(Seq<char>, nat), HostPortError>(
            (data.host, data.port as nat),
        ),
{
    let digits = numbers::decimal(data.port as nat);
    let s = data.address();
    reveal_strlit(":");
    numbers::lemma_decimal_len(data.port as nat);
    numbers::lemma_decimal_round_trip(data.port as nat);
    let i = data.host.len() as int;
    assert forall|j: int| i < j < s.len() implies #[trigger] s[j] != ':' by {
        assert(s[j] == digits[j - i - 1]);
        assert(text::is_digit(digits[j - i - 1]));
    }
    text::lemma_last_index_is(s, ':', i);
    assert(s.skip(i + 1) =~= digits);
    assert(s.take(i) =~= data.host);
    assert(digits[0] != '+') by {
        assert(text::is_digit(digits[0]));
    }
}

// ---------------------------------------------------------------------------
// The selected project
// ---------------------------------------------------------------------------
impl SelectedContextModel {
    /// Whether the organization is a personal one.
    pub open spec fn is_personal(self) -> bool {
        text::ascii_upper(self.org_type) == text::ascii_upper("personal"@)
    }
}

impl SelectedContext {
    /// `organization / project`.
    pub fn label(&self) -> (r: String)
        ensures
            r@ == self.deep_view().org_name + " / "@ + self.deep_view().project_name,
    {
        text::concat3(&self.org_name, " / ", &self.project_name)
    }

    /// Whether the organization is a personal one, in whatever case its type
    /// is written.
    pub fn is_personal_org(&self) -> (r: bool)
        ensures
            r == self.deep_view().is_personal(),
    {
        text::eq_ignore_ascii_case(&self.org_type, "personal")
    }

    /// Whether invitations can be sent: the type of the organization is known
    /// and is not personal.
    pub fn can_send_invite(&self) -> (r: bool)
        ensures
            r == (self.deep_view().org_type.len() > 0 && !self.deep_view().is_personal()),
    {
        !self.org_type.as_str().is_empty() && !self.is_personal_org()
    }

    /// Whether both name the same organization and project in every field.
    pub fn same_as(&self, other: &SelectedContext) -> (r: bool)
        ensures
            r == (self.deep_view() == other.deep_view()),
    {
        text::text_eq(&self.org_id, &other.org_id) && text::text_eq(
            &self.org_name,
            &other.org_name,
        ) && text::text_eq(&self.project_id, &other.project_id) && text::text_eq(
            &self.project_name,
            &other.project_name,
        ) && text::text_eq(&self.org_type, &other.org_type)
    }

    /// The context of a project of which nothing but its ID is known.
    pub fn for_project(project_id: &str) -> (r: Self)
        ensures
            r.deep_view() == (SelectedContextModel {
                org_id: Seq::empty(),
                org_name: Seq::empty(),
                project_id: project_id@,
                project_name: project_id@,
                org_type: Seq::empty(),
            }),
    {
        SelectedContext {
            org_id: String::new(),
            org_name: String::new(),
            project_id: project_id.to_owned(),
            project_name: project_id.to_owned(),
            org_type: String::new(),
        }
    }
}

} // verus!

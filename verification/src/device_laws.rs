//! Laws of what a device keeps and reads: its endpoints, its keys, its tunnels, and
//! the identifiers and errors it meets.
use vstd::prelude::*;

use crate::endpoint;
use crate::endpoint::{ParsedTargetModel, TargetError, UrlPartsModel};
use crate::identifiers;
use crate::identifiers::{ProjectIdFault, TunnelIdError};
use crate::json;
use crate::json::JsonModel;
use crate::kube_error;
use crate::kube_error::{ApiErrorModel, ControlPlaneErrorModel, ErrorChainModel};
use crate::numbers;
use crate::repo;
use crate::repo::{
    Disk, KeyActionModel, KeyFileModel, KeyLookupModel, KeyReplyModel, KeyScopeModel, KeyStepModel,
    KeyWriteModel, WriteActionModel, WriteReplyModel, WriteStepModel,
};
use crate::state;
use crate::state::{HostPortError, ProxyStateModel, SelectedContextModel, StateModel};
use crate::text;
use crate::text_laws;

verus! {

// ---------------------------------------------------------------------------
// Endpoints
// ---------------------------------------------------------------------------
/// An endpoint without a scheme is one of HTTP; every other stays as it is but for
/// the white space around it.
pub proof fn endpoint_is_http_unless_it_says_otherwise(endpoint: Seq<char>)
    ensures
        ({
            let e = text::trimmed(endpoint);
            let says = exists|i: int|
                0 <= i && i + 3 <= e.len() && #[trigger] e.subrange(i, i + 3) == "://"@;
            endpoint::normalized(endpoint) == if e.len() == 0 || says {
                e
            } else {
                "http://"@ + e
            }
        }),
{
    let e = text::trimmed(endpoint);
    reveal_strlit("://");
    if text::has_part(e, "://"@) {
        let i = choose|i: int| text::occurs_at(e, "://"@, i);
        assert(e.subrange(i, i + 3) == "://"@);
    }
    if exists|i: int| 0 <= i && i + 3 <= e.len() && #[trigger] e.subrange(i, i + 3) == "://"@ {
        let i = choose|i: int|
            0 <= i && i + 3 <= e.len() && #[trigger] e.subrange(i, i + 3) == "://"@;
        assert(text::occurs_at(e, "://"@, i));
    }
}

/// The target of a URL is its host at the port that it writes; without either, the
/// error says which.
pub proof fn url_names_its_target(parts: UrlPartsModel, t: Seq<char>)
    ensures
        match endpoint::target_of(Some(parts), t) {
            Ok(target) => parts.host == Some(target.address) && parts.port == Some(target.port),
            Err(e) => if parts.host is None {
                e is MissingHost
            } else {
                parts.port is None && e is MissingPort
            },
        },
        endpoint::target_of(None, t) == endpoint::plain_target(t),
{
}

proof fn lemma_host_and_digits(host: Seq<char>, digits: Seq<char>)
    requires
        !digits.contains(':'),
    ensures
        ({
            let s = host + seq![':'] + digits;
            &&& text::last_index(s, ':') == host.len()
            &&& s.take(host.len() as int) == host
            &&& s.skip(host.len() as int + 1) == digits
        }),
{
    let s = host + seq![':'] + digits;
    let i = host.len() as int;
    assert forall|j: int| i < j < s.len() implies #[trigger] s[j] != ':' by {
        assert(s[j] == digits[j - i - 1]);
        assert(digits.contains(digits[j - i - 1]));
    }
    text::lemma_last_index_is(s, ':', i);
    assert(s.take(i) =~= host);
    assert(s.skip(i + 1) =~= digits);
}

/// The host stands before the last colon, and the port, of at most 65535, behind it;
/// a text without a colon names no port, and one with other digits no valid one.
pub proof fn port_stands_behind_the_last_colon(host: Seq<char>, digits: Seq<char>)
    requires
        !digits.contains(':'),
    ensures
        state::host_port(digits) == Err::<(Seq<char>, nat), HostPortError>(
            HostPortError::MissingPort,
        ),
        state::host_port(host + seq![':'] + digits) == match numbers::read_number(digits, 65535) {
            Some(port) => Ok::<(Seq<char>, nat), HostPortError>((host, port)),
            None => Err(HostPortError::InvalidPort),
        },
        host.len() > 0 && host[0] != '[' ==> endpoint::plain_target(host + seq![':'] + digits)
            == match numbers::read_number(digits, 65535) {
            Some(port) => Ok::<ParsedTargetModel, TargetError>(
                ParsedTargetModel { address: host, port: port as u16 },
            ),
            None => Err(TargetError::InvalidPort),
        },
        digits.len() > 0 && digits[0] != '[' ==> endpoint::plain_target(digits) == Err::<
            ParsedTargetModel,
            TargetError,
        >(TargetError::MissingPort),
{
    lemma_host_and_digits(host, digits);
    text::lemma_last_index(digits, ':');
    let i = text::last_index(digits, ':');
    if i >= 0 {
        assert(digits.contains(digits[i]));
    }
    let s = host + seq![':'] + digits;
    if host.len() > 0 {
        assert(s[0] == host[0]);
    }
}

/// An address in brackets needs its closing bracket and a port behind it.
pub proof fn bracketed_address_needs_bracket_and_port(address: Seq<char>, digits: Seq<char>)
    requires
        !address.contains(']'),
    ensures
        endpoint::plain_target(seq!['['] + address) == Err::<ParsedTargetModel, TargetError>(
            TargetError::InvalidIpv6,
        ),
        endpoint::plain_target(seq!['['] + address + seq![']']) == Err::<
            ParsedTargetModel,
            TargetError,
        >(TargetError::MissingPort),
        endpoint::plain_target(seq!['['] + address + seq![']', ':'] + digits)
            == match numbers::read_number(digits, 65535) {
            Some(port) => Ok::<ParsedTargetModel, TargetError>(
                ParsedTargetModel { address, port: port as u16 },
            ),
            None => Err(TargetError::InvalidPort),
        },
{
    let open = seq!['['] + address;
    let end = open.len() as int;
    let p = text::exactly(']');
    let closed = open + seq![']'];
    let whole = open + seq![']', ':'] + digits;
    assert forall|j: int| 0 <= j < end implies !p(#[trigger] open[j]) by {
        if j > 0 {
            assert(open[j] == address[j - 1]);
            assert(address.contains(address[j - 1]));
        }
    }
    text::lemma_first_where_is(open, p, end);
    assert forall|j: int| 0 <= j < end implies !p(#[trigger] closed[j]) by {
        assert(closed[j] == open[j]);
    }
    text::lemma_first_where_is(closed, p, end);
    assert forall|j: int| 0 <= j < end implies !p(#[trigger] whole[j]) by {
        assert(whole[j] == open[j]);
    }
    text::lemma_first_where_is(whole, p, end);
    assert(whole[end + 1] == ':');
    assert(whole.subrange(1, end) =~= address);
    assert(whole.skip(end + 2) =~= digits);
}

/// The origin of a URL that writes its port is that host and port, and that of any
/// other text is what it names itself.
pub proof fn origin_is_that_of_the_url(
    url: Option<UrlPartsModel>,
    host: Seq<char>,
    port: u16,
    endpoint: Seq<char>,
)
    ensures
        url is Some && url->0.host == Some(host) && url->0.port == Some(port)
            ==> state::host_port(endpoint::stripped(url, endpoint)) == Ok::<
            (Seq<char>, nat),
            HostPortError,
        >((host, port as nat)),
        url is None || url->0.host is None || url->0.port is None ==> endpoint::stripped(
            url,
            endpoint,
        ) == endpoint,
        endpoint::default_port("http"@) == Some(80u16),
        endpoint::default_port("https"@) == Some(443u16),
        TargetError::MissingHost.text() == "missing host"@,
        TargetError::MissingPort.text() == "missing port"@,
        TargetError::InvalidIpv6.text() == "invalid IPv6 address"@,
        TargetError::InvalidPort.text() == "invalid port"@,
        HostPortError::MissingPort.text() == "missing port"@,
        HostPortError::InvalidPort.text() == "invalid port"@,
{
    let digits = numbers::decimal(port as nat);
    numbers::lemma_decimal_len(port as nat);
    numbers::lemma_decimal_round_trip(port as nat);
    reveal_strlit(":");
    reveal_strlit("http");
    reveal_strlit("https");
    reveal_strlit("ws");
    assert("http"@.len() == 4 && "https"@.len() == 5 && "ws"@.len() == 2);
    assert(":"@ =~= seq![':']);
    if digits.contains(':') {
        let i = choose|i: int| 0 <= i < digits.len() && digits[i] == ':';
        assert(text::is_digit(digits[i]));
    }
    assert(text::is_digit(digits[0]));
    port_stands_behind_the_last_colon(host, digits);
}

// ---------------------------------------------------------------------------
// Tunnels and the selected project
// ---------------------------------------------------------------------------
/// Setting a proxy leaves it as the only one of its tunnel where there were not two
/// before; all others stay, in their places.
pub proof fn set_proxy_is_in_the_list(
    proxies: Seq<ProxyStateModel>,
    proxy: ProxyStateModel,
    i: int,
)
    requires
        0 <= i < proxies.len(),
    ensures
        state::with_proxy(proxies, proxy).contains(proxy),
        proxies[i].info.resource_id != proxy.info.resource_id ==> state::with_proxy(
            proxies,
            proxy,
        )[i] == proxies[i],
        proxies[i].info.resource_id == proxy.info.resource_id && (forall|j: int|
            0 <= j < i ==> (#[trigger] proxies[j]).info.resource_id != proxy.info.resource_id)
            ==> state::with_proxy(proxies, proxy)[i] == proxy && state::with_proxy(
            proxies,
            proxy,
        ).len() == proxies.len(),
        (forall|j: int|
            0 <= j < proxies.len() ==> (#[trigger] proxies[j]).info.resource_id
                != proxy.info.resource_id) ==> state::with_proxy(proxies, proxy) == proxies.push(
            proxy,
        ),
{
    let id = proxy.info.resource_id;
    state::lemma_index_of_id(proxies, id);
    let k = state::index_of_id(proxies, id);
    let after = state::with_proxy(proxies, proxy);
    assert(after[k] == proxy);
    if k < proxies.len() {
        assert(proxies[k].info.resource_id == id);
    }
}

/// Removing takes the first proxy of the tunnel out of the list, gives it back, and
/// leaves the others in their order; where there is none, nothing changes.
pub proof fn removed_proxy_is_given_back(proxies: Seq<ProxyStateModel>, id: Seq<char>, k: int)
    requires
        0 <= k <= proxies.len(),
        forall|j: int| 0 <= j < k ==> (#[trigger] proxies[j]).info.resource_id != id,
        k < proxies.len() ==> proxies[k].info.resource_id == id,
    ensures
        k < proxies.len() ==> state::proxy_of(proxies, id) == Some(proxies[k]),
        k < proxies.len() ==> state::without_proxy(proxies, id) == proxies.take(k) + proxies.skip(
            k + 1,
        ),
        k == proxies.len() ==> state::proxy_of(proxies, id) is None,
        k == proxies.len() ==> state::without_proxy(proxies, id) == proxies,
{
    state::lemma_index_of_id_is(proxies, id, k);
    if k < proxies.len() {
        assert(proxies.remove(k) =~= proxies.take(k) + proxies.skip(k + 1));
    }
}

/// An organization is personal by its type, in whatever case that is written.
pub proof fn personal_organization_is_told_by_its_type(
    context: SelectedContextModel,
    other: SelectedContextModel,
)
    ensures
        context.org_type == "personal"@ ==> context.is_personal(),
        context.org_type.len() != 8 ==> !context.is_personal(),
        text::ascii_upper(context.org_type) == text::ascii_upper(other.org_type)
            ==> context.is_personal() == other.is_personal(),
        context.is_personal() && other.is_personal() ==> text::ascii_upper(context.org_type)
            == text::ascii_upper(other.org_type),
{
    reveal_strlit("personal");
    assert("personal"@.len() == 8);
    assert(text::ascii_upper(context.org_type).len() == context.org_type.len());
    assert(text::ascii_upper("personal"@).len() == 8);
}

// ---------------------------------------------------------------------------
// Keys
// ---------------------------------------------------------------------------
/// The place of a key, from the root of the repo.
pub open spec fn place(scope: KeyScopeModel) -> Seq<Seq<char>> {
    match scope {
        KeyScopeModel::Connect => seq!["connect_key"@],
        KeyScopeModel::Project { project } => seq![project, "listen_key"@],
        KeyScopeModel::Tunnel { project, tunnel } => seq![project, tunnel, "listen_key"@],
    }
}

/// Whether a lookup ends with these bytes: a key has 32 of them.
pub open spec fn gives(step: KeyStepModel, bytes: Seq<u8>) -> bool {
    step == if bytes.len() == 32 {
        KeyStepModel::Found { key: bytes }
    } else {
        KeyStepModel::Failed { message: "could not convert slice to array"@ }
    }
}

/// A key is read where it is. A key of a project or a tunnel that is not there is
/// taken from where all once were; else a new one is made, but for a tunnel. No other
/// file changes.
pub proof fn key_is_read_moved_or_made(disk: Disk, scope: KeyScopeModel, fresh: Seq<u8>)
    ensures
        ({
            let (after, step) = repo::looked_up(disk, scope, fresh);
            let old = seq!["listen_key"@];
            if disk.contains_key(place(scope)) {
                after == disk && gives(step, disk[place(scope)])
            } else if !(scope is Connect) && disk.contains_key(old) {
                after == disk.remove(old).insert(place(scope), disk[old]) && gives(step, disk[old])
            } else if scope is Tunnel {
                after == disk && step is Missing
            } else {
                after == disk.insert(place(scope), fresh) && gives(step, fresh)
            }
        }),
{
    repo::lookup_finds_moves_or_makes(disk, scope, fresh);
    assert(repo::key_path(scope) =~= place(scope));
    assert(repo::legacy_path() =~= seq!["listen_key"@]);
}

/// A lookup begins at the place of the key.
pub proof fn lookup_begins_at_the_place(scope: KeyScopeModel, message: Seq<char>, state: KeyLookupModel)
    ensures
        repo::key_path(scope) == place(scope),
        repo::key_step(state, scope, KeyReplyModel::Failed { message }) == (KeyStepModel::Failed {
            message,
        }),
        repo::STATE_FILE@ == "state.yml"@,
        repo::CONFIG_FILE@ == "config.yml"@,
{
    assert(repo::key_path(scope) =~= place(scope));
}

/// A key is written to the file beside its place, whole and onto the disk, before it
/// is moved there; whatever fails, the file beside it is removed, and that failure is
/// told.
pub proof fn key_is_written_beside_first(
    c: KeyFileModel,
    state: KeyWriteModel,
    message: Seq<char>,
    reply: WriteReplyModel,
)
    ensures
        repo::write_next(c, KeyWriteModel::Opening) == (WriteStepModel::Next {
            state: KeyWriteModel::Opening,
            action: WriteActionModel::Open { path: c.temporary },
        }),
        repo::write_step(c, KeyWriteModel::Opening, WriteReplyModel::Done) == (
        WriteStepModel::Next {
            state: KeyWriteModel::Writing,
            action: WriteActionModel::Write { bytes: c.key },
        }),
        repo::write_step(c, KeyWriteModel::Writing, WriteReplyModel::Done) == (
        WriteStepModel::Next { state: KeyWriteModel::Syncing, action: WriteActionModel::Sync }),
        repo::write_step(c, KeyWriteModel::Syncing, WriteReplyModel::Done) == (
        WriteStepModel::Next {
            state: KeyWriteModel::Renaming,
            action: WriteActionModel::Rename { from: c.temporary, to: c.path },
        }),
        repo::write_step(c, KeyWriteModel::Renaming, WriteReplyModel::Done) is Written,
        !(state is CleaningUp) ==> repo::write_step(
            c,
            state,
            WriteReplyModel::Failed { message },
        ) == (WriteStepModel::Next {
            state: KeyWriteModel::CleaningUp { message },
            action: WriteActionModel::Remove { path: c.temporary },
        }),
        repo::write_step(c, KeyWriteModel::CleaningUp { message }, reply) == (
        WriteStepModel::Failed { message }),
{
}

/// The names of the files of keys.
pub proof fn key_files_have_their_names(
    name: Seq<char>,
    process: u32,
    nanos: i64,
    project: Seq<char>,
    now: Seq<char>,
)
    ensures
        nanos >= 0 ==> repo::temporary_name(name, process, nanos) == name + "."@
            + numbers::decimal(process as nat) + "."@ + numbers::decimal(nanos as nat) + ".tmp"@,
        nanos < 0 ==> repo::temporary_name(name, process, nanos) == name + "."@ + numbers::decimal(
            process as nat,
        ) + "."@ + ("-"@ + numbers::decimal((-nanos) as nat)) + ".tmp"@,
        repo::dated_key_name(Some(project), now) == "listen_key"@ + "."@ + project + "."@ + now,
        repo::dated_key_name(None, now) == "listen_key"@ + "."@ + now,
{
}

// ---------------------------------------------------------------------------
// Identifiers
// ---------------------------------------------------------------------------
/// The names that Windows reserves for devices.
pub open spec fn is_device(s: Seq<char>) -> bool {
    ||| s == "CON"@ || s == "PRN"@ || s == "AUX"@ || s == "NUL"@
    ||| exists|d: char|
        '1' <= d <= '9' && (s == #[trigger] "COM"@.push(d) || s == "LPT"@.push(d))
}

/// The device names are those that Windows reserves.
pub proof fn devices_are_those_of_windows(s: Seq<char>)
    ensures
        identifiers::is_windows_device(s) <==> is_device(s),
{
    reveal_strlit("COM");
    reveal_strlit("LPT");
    if is_device(s) && !(s == "CON"@ || s == "PRN"@ || s == "AUX"@ || s == "NUL"@) {
        let d = choose|d: char|
            '1' <= d <= '9' && (s == #[trigger] "COM"@.push(d) || s == "LPT"@.push(d));
        assert("COM"@.push(d).take(3) =~= "COM"@);
        assert("LPT"@.push(d).take(3) =~= "LPT"@);
        assert(s[3] == d);
    }
    if s.len() == 4 && '1' <= s[3] <= '9' {
        if s.take(3) == "COM"@ {
            assert(s =~= "COM"@.push(s[3]));
        }
        if s.take(3) == "LPT"@ {
            assert(s =~= "LPT"@.push(s[3]));
            assert("COM"@.push(s[3]).len() == 4);
        }
    }
}

/// A project ID is one part of a path on every platform: not empty, no way up or
/// elsewhere, no separator, no control character, no dot or space at its end, and not
/// the name of a device, whatever extension follows it.
pub proof fn project_id_is_one_part_of_a_path(s: Seq<char>, name: Seq<char>, extension: Seq<char>)
    requires
        !name.contains('.'),
        s == name || s == name + seq!['.'] + extension,
    ensures
        identifiers::project_id_fault(s) is None <==> {
            &&& s.len() > 0
            &&& s != "."@
            &&& s != ".."@
            &&& !s.contains('/')
            &&& !s.contains('\\')
            &&& !s.contains(':')
            &&& s[s.len() - 1] != '.'
            &&& s[s.len() - 1] != ' '
            &&& !is_device(text::ascii_upper(name))
            &&& forall|i: int|
                0 <= i < s.len() ==> !(#[trigger] s[i] <= '\u{1f}' || '\u{7f}' <= s[i] <= '\u{9f}')
        },
{
    identifiers::project_id_accepts_exactly_safe_components(s);
    devices_are_those_of_windows(text::ascii_upper(name));
    let p = text::exactly('.');
    let n = name.len() as int;
    assert forall|j: int| 0 <= j < n implies !p(#[trigger] s[j]) by {
        assert(s[j] == name[j]);
        assert(name.contains(name[j]));
    }
    text::lemma_first_where_is(s, p, n);
    assert(s.take(n) =~= name);
    assert(identifiers::stem(s) == name);
    assert forall|i: int| 0 <= i < s.len() implies (text::is_control(#[trigger] s[i]) <==> s[i]
        <= '\u{1f}' || '\u{7f}' <= s[i] <= '\u{9f}') by {
        text_laws::classes_hold_their_characters(s[i]);
    }
}

/// What is wrong with a project ID is told by its first fault, with the byte at which
/// a character stands.
pub proof fn project_id_fault_is_told(s: Seq<char>, name: Seq<char>, i: int, c: char, rest: Seq<char>)
    ensures
        identifiers::project_id_fault(Seq::empty()) == Some(ProjectIdFault::Empty),
        identifiers::project_id_fault("."@) == Some(ProjectIdFault::CurrentDirectory),
        identifiers::project_id_fault(".."@) == Some(ProjectIdFault::ParentDirectory),
        s.len() > 0 && s[0] == '/' ==> identifiers::project_id_fault(s) == Some(
            ProjectIdFault::Absolute,
        ),
        s.len() > 0 && s[0] != '/' && (s.contains('/') || s.contains('\\'))
            ==> identifiers::project_id_fault(s) == Some(ProjectIdFault::PathSeparator),
        s.contains(':') && !s.contains('/') && !s.contains('\\') ==> identifiers::project_id_fault(
            s,
        ) == Some(ProjectIdFault::WindowsPathPrefix),
        identifiers::project_id_message(ProjectIdFault::Empty) == "project ID must not be empty"@,
        identifiers::project_id_message(ProjectIdFault::CurrentDirectory)
            == "project ID must not be '.'"@,
        identifiers::project_id_message(ProjectIdFault::ParentDirectory)
            == "project ID must not be '..'"@,
        identifiers::project_id_message(ProjectIdFault::Absolute)
            == "project ID must not be absolute"@,
        identifiers::project_id_message(ProjectIdFault::PathSeparator)
            == "project ID must not contain '/' or '\\'"@,
        identifiers::project_id_message(ProjectIdFault::WindowsPathPrefix)
            == "project ID must not contain ':'"@,
        identifiers::project_id_message(ProjectIdFault::WindowsTrailingDotOrSpace)
            == "project ID must not end in a dot or space"@,
        identifiers::project_id_message(ProjectIdFault::WindowsReservedName { name })
            == "project ID must not use reserved Windows device name '"@ + name + "'"@,
        identifiers::project_id_message(ProjectIdFault::Nul { index: i as nat })
            == "project ID must not contain NUL (at byte "@ + numbers::decimal(i as nat) + ")"@,
        identifiers::project_id_message(ProjectIdFault::ControlCharacter { index: i as nat })
            == "project ID must not contain control characters (at byte "@ + numbers::decimal(
            i as nat,
        ) + ")"@,
{
    reveal_strlit(".");
    reveal_strlit("..");
    assert("."@.len() == 1 && ".."@.len() == 2);
    assert("."@[0] == '.' && ".."@[0] == '.' && ".."@[1] == '.');
    if s == "."@ || s == ".."@ {
        assert(!s.contains('/') && !s.contains('\\') && !s.contains(':'));
    }
    if s.len() > 0 && s[0] == '/' {
        assert(s.contains(s[0]));
    }
}

/// Whether a text is a label of a DNS name: 1 to 63 characters, and a lower-case
/// letter or a digit at both ends.
pub open spec fn is_label(label: Seq<char>) -> bool {
    &&& 1 <= label.len() <= 63
    &&& 'a' <= label[0] <= 'z' || '0' <= label[0] <= '9'
    &&& 'a' <= label[label.len() - 1] <= 'z' || '0' <= label[label.len() - 1] <= '9'
}

/// A tunnel ID is a DNS name of lower-case letters, digits, hyphens and dots, of at
/// most 253 bytes, whose parts between the dots are labels.
pub proof fn tunnel_id_is_a_dns_name(s: Seq<char>)
    ensures
        identifiers::tunnel_id_fault(s) is None <==> {
            &&& s.len() > 0
            &&& text::utf8_len(s) <= 253
            &&& forall|i: int|
                0 <= i < s.len() ==> 'a' <= #[trigger] s[i] <= 'z' || '0' <= s[i] <= '9' || s[i]
                    == '-' || s[i] == '.'
            &&& forall|k: int|
                0 <= k < text::split_on(s, '.').len() ==> is_label(
                    #[trigger] text::split_on(s, '.')[k],
                )
        },
{
    identifiers::tunnel_id_accepts_exactly_dns_subdomains(s);
    if identifiers::is_dns_subdomain(s) {
        assert forall|i: int| 0 <= i < s.len() implies 'a' <= #[trigger] s[i] <= 'z' || '0' <= s[i]
            <= '9' || s[i] == '-' || s[i] == '.' by {
            assert(identifiers::is_subdomain_char(s[i]));
        }
        assert forall|k: int| 0 <= k < text::split_on(s, '.').len() implies is_label(
            #[trigger] text::split_on(s, '.')[k],
        ) by {
            assert(identifiers::is_dns_label(text::split_on(s, '.')[k]));
        }
    }
}

/// The label that is wrong, and how, by its number.
pub proof fn faulty_label_is_told(label: Seq<char>, k: usize, length: usize, c: char)
    ensures
        label.len() == 0 ==> identifiers::label_fault(label, k as int) == Some(
            TunnelIdError::EmptyLabel { label: k },
        ),
        label.len() > 63 ==> identifiers::label_fault(label, k as int) == Some(
            TunnelIdError::LabelTooLong { label: k, length: label.len() as usize },
        ),
        is_label(label) <==> identifiers::label_fault(label, k as int) is None,
        identifiers::tunnel_id_message(TunnelIdError::Empty) == "tunnel ID must not be empty"@,
        identifiers::tunnel_id_message(TunnelIdError::TooLong { length })
            == "tunnel ID must be at most 253 bytes, got "@ + numbers::decimal(length as nat),
        identifiers::tunnel_id_message(TunnelIdError::EmptyLabel { label: k })
            == "tunnel ID label "@ + numbers::decimal(k as nat) + " must not be empty"@,
        identifiers::tunnel_id_message(TunnelIdError::LabelTooLong { label: k, length })
            == "tunnel ID label "@ + numbers::decimal(k as nat)
            + " must be at most 63 bytes, got "@ + numbers::decimal(length as nat),
        identifiers::tunnel_id_message(
            TunnelIdError::InvalidCharacter { character: c, index: k },
        ) == "tunnel ID contains invalid character '"@ + seq![c] + "' at byte "@
            + numbers::decimal(k as nat),
        identifiers::tunnel_id_message(TunnelIdError::InvalidLabelStart { label: k })
            == "tunnel ID label "@ + numbers::decimal(k as nat)
            + " must start with a lowercase letter or digit"@,
        identifiers::tunnel_id_message(TunnelIdError::InvalidLabelEnd { label: k })
            == "tunnel ID label "@ + numbers::decimal(k as nat)
            + " must end with a lowercase letter or digit"@,
{
}

/// The first character that does not belong in an identifier is told, with the number
/// of bytes before it.
pub proof fn first_wrong_character_is_told(s: Seq<char>, i: int)
    requires
        0 <= i < s.len(),
        s.len() > 0,
        text::utf8_len(s) <= 253,
        forall|j: int|
            0 <= j < i ==> 'a' <= #[trigger] s[j] <= 'z' || '0' <= s[j] <= '9' || s[j] == '-'
                || s[j] == '.',
        !('a' <= s[i] <= 'z' || '0' <= s[i] <= '9' || s[i] == '-' || s[i] == '.'),
    ensures
        identifiers::tunnel_id_fault(s) == Some(
            TunnelIdError::InvalidCharacter {
                character: s[i],
                index: text::utf8_len(s.take(i)) as usize,
            },
        ),
{
    let p = identifiers::foreign_class();
    assert forall|j: int| 0 <= j < i implies !p(#[trigger] s[j]) by {}
    text::lemma_first_where_is(s, p, i);
}

/// The first control character of a project ID is told, with the number of bytes
/// before it, where nothing else is wrong; one that is zero comes first.
pub proof fn first_control_character_is_told(s: Seq<char>, i: int)
    requires
        0 <= i < s.len(),
        !s.contains('/'),
        !s.contains('\\'),
        !s.contains(':'),
        s[s.len() - 1] != '.',
        s[s.len() - 1] != ' ',
        !is_device(text::ascii_upper(identifiers::stem(s))),
        forall|j: int| 0 <= j < i ==> !text::is_control(#[trigger] s[j]),
        text::is_control(s[i]),
    ensures
        s[i] == '\0' ==> identifiers::project_id_fault(s) == Some(
            ProjectIdFault::Nul { index: text::utf8_len(s.take(i)) },
        ),
        !s.contains('\0') ==> identifiers::project_id_fault(s) == Some(
            ProjectIdFault::ControlCharacter { index: text::utf8_len(s.take(i)) },
        ),
{
    devices_are_those_of_windows(text::ascii_upper(identifiers::stem(s)));
    reveal_strlit(".");
    reveal_strlit("..");
    assert("."@.len() == 1 && ".."@.len() == 2);
    assert("."@[0] == '.' && ".."@[1] == '.');
    assert(s[0] != '/') by {
        assert(s.contains(s[0]));
    }
    let control = identifiers::control_class();
    assert forall|j: int| 0 <= j < i implies !control(#[trigger] s[j]) by {}
    text::lemma_first_where_is(s, control, i);
    let nul = text::exactly('\0');
    if s[i] == '\0' {
        assert forall|j: int| 0 <= j < i implies !nul(#[trigger] s[j]) by {
            assert(!text::is_control(s[j]));
        }
        text::lemma_first_where_is(s, nul, i);
    }
    if !s.contains('\0') {
        assert forall|j: int| 0 <= j < s.len() implies !nul(#[trigger] s[j]) by {
            assert(s.contains(s[j]));
        }
        text::lemma_first_where_is(s, nul, s.len() as int);
    }
}

/// The first label that is wrong is told.
pub proof fn first_faulty_label_is_told(labels: Seq<Seq<char>>, k: int)
    requires
        0 <= k < labels.len(),
        forall|j: int| 0 <= j < k ==> is_label(#[trigger] labels[j]),
        !is_label(labels[k]),
    ensures
        identifiers::labels_fault(labels, 0) == identifiers::label_fault(labels[k], k),
        identifiers::label_fault(labels[k], k) is Some,
{
    lemma_first_faulty_label(labels, 0, k);
}

proof fn lemma_first_faulty_label(labels: Seq<Seq<char>>, i: int, k: int)
    requires
        0 <= i <= k < labels.len(),
        forall|j: int| 0 <= j < k ==> is_label(#[trigger] labels[j]),
        !is_label(labels[k]),
    ensures
        identifiers::labels_fault(labels, i) == identifiers::label_fault(labels[k], k),
        identifiers::label_fault(labels[k], k) is Some,
    decreases k - i,
{
    if i < k {
        assert(is_label(labels[i]));
        lemma_first_faulty_label(labels, i + 1, k);
    }
}

// ---------------------------------------------------------------------------
// Errors
// ---------------------------------------------------------------------------
/// The status of a failed list says what it means for the project; the answer is
/// kept, and every other failure stays what it is.
pub proof fn list_failure_is_about_the_project(
    project_id: Seq<char>,
    status: Seq<char>,
    code: u16,
    reason: Seq<char>,
    message: Seq<char>,
    sources: Seq<Seq<char>>,
)
    ensures
        ({
            let answer = ApiErrorModel::Api { status, code, reason, message };
            let meaning = kube_error::classified(project_id, answer);
            &&& code == 404 ==> meaning == ErrorChainModel::ControlPlane(
                ControlPlaneErrorModel::ProjectNotFound { project_id, source: answer },
            )
            &&& code == 403 ==> meaning == ErrorChainModel::ControlPlane(
                ControlPlaneErrorModel::PermissionDenied { project_id, source: answer },
            )
            &&& code == 401 ==> meaning == ErrorChainModel::ControlPlane(
                ControlPlaneErrorModel::Unauthorized { project_id, source: answer },
            )
            &&& code != 401 && code != 403 && code != 404 ==> meaning == ErrorChainModel::Api(
                answer,
            )
        }),
        ({
            let lost = ApiErrorModel::Other { message, sources };
            kube_error::classified(project_id, lost) == ErrorChainModel::Api(lost)
        }),
{
}

/// An error says what was being done, then what went wrong, then the answer behind
/// it, each after a colon.
pub proof fn error_tells_its_whole_chain(
    context: Seq<char>,
    inner: ErrorChainModel,
    project_id: Seq<char>,
    status: Seq<char>,
    code: u16,
    reason: Seq<char>,
    message: Seq<char>,
    sources: Seq<Seq<char>>,
    last: Seq<char>,
)
    ensures
        ({
            let chain = ErrorChainModel::Context { context, source: Box::new(inner) };
            &&& chain.text() == context + ": "@ + inner.text()
            &&& chain.headline() == context
            &&& chain.control_plane() == inner.control_plane()
        }),
        ({
            let answer = ApiErrorModel::Api { status, code, reason, message };
            let said = "ApiError: "@ + (message + ": "@ + reason) + " ("@
                + kube_error::debug_answer(status, message, reason, code) + ")"@;
            let full = said + (": "@ + (message + ": "@ + reason));
            let missing = ControlPlaneErrorModel::ProjectNotFound { project_id, source: answer };
            let denied = ControlPlaneErrorModel::PermissionDenied { project_id, source: answer };
            let rejected = ControlPlaneErrorModel::Unauthorized { project_id, source: answer };
            &&& answer.text() == said
            &&& answer.full_text() == full
            &&& missing.text() == "control plane for project '"@ + project_id + "' not found"@
            &&& denied.text() == "permission denied in project '"@ + project_id + "'"@
            &&& rejected.text() == "authentication failed for project '"@ + project_id + "'"@
            &&& missing.about() == project_id && missing.answer() == answer
            &&& denied.about() == project_id && denied.answer() == answer
            &&& rejected.about() == project_id && rejected.answer() == answer
            &&& ErrorChainModel::ControlPlane(missing).text() == missing.text() + ": "@ + full
            &&& ErrorChainModel::ControlPlane(missing).control_plane() == Some(missing)
            &&& ErrorChainModel::Api(answer).control_plane() is None
        }),
        (ApiErrorModel::Other { message, sources: seq![] }).full_text() == message,
        (ApiErrorModel::Other { message, sources: sources.push(last) }).full_text() == (
        ApiErrorModel::Other { message, sources }).full_text() + ": "@ + last,
        ErrorChainModel::Message(message).text() == message,
{
    let answer = ApiErrorModel::Api { status, code, reason, message };
    let said = message + ": "@ + reason;
    assert(answer.behind() =~= seq![said]);
    assert(seq![said].drop_last() =~= Seq::<Seq<char>>::empty());
    reveal_with_fuel(kube_error::after_colons, 2);
    assert(Seq::<char>::empty() + ": "@ + said =~= ": "@ + said);
    assert(message + Seq::<char>::empty() =~= message);
    assert(sources.push(last).drop_last() =~= sources);
    assert(message + (kube_error::after_colons(sources) + ": "@ + last) =~= message
        + kube_error::after_colons(sources) + ": "@ + last);
    reveal_with_fuel(ErrorChainModel::text, 2);
    reveal_with_fuel(ErrorChainModel::control_plane, 2);
}

// ---------------------------------------------------------------------------
// Patches
// ---------------------------------------------------------------------------
/// A merge patch leaves what it does not name, takes out what it names as null, puts
/// in what it names, and goes into the objects that it names; what is no object takes
/// the place of the whole.
pub proof fn patch_changes_what_it_names(target: JsonModel, patch: JsonModel, key: Seq<char>)
    ensures
        !(patch is Object) ==> json::merged(target, patch) == patch,
        patch is Object ==> ({
            let changes = patch->Object_0;
            let after = json::merged(target, patch);
            let had = target is Object && target->Object_0.contains_key(key);
            &&& after is Object
            &&& !changes.contains_key(key) ==> after->Object_0.contains_key(key) == had
            &&& !changes.contains_key(key) && had ==> after->Object_0[key] == target->Object_0[key]
            &&& changes.contains_key(key) ==> (after->Object_0.contains_key(key) <==> !(
            changes[key] is Null))
            &&& changes.contains_key(key) && !(changes[key] is Null) && !(changes[key] is Object)
                ==> after->Object_0[key] == changes[key]
            &&& changes.contains_key(key) && changes[key] is Object && had
                ==> after->Object_0[key] == json::merged(target->Object_0[key], changes[key])
            &&& changes.contains_key(key) && changes[key] is Object && !had
                ==> after->Object_0[key] == json::merged(JsonModel::Null, changes[key])
        }),
{
    reveal_with_fuel(json::merged, 3);
}

} // verus!

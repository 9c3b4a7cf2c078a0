//! The local interface of a VPC attachment: the `ip` commands that configure
//! it and route traffic through it.
use vstd::prelude::*;

use crate::datum_cloud::helper;
use crate::numbers;
use crate::text;
use crate::vpc::router;

verus! {

/// What is routed through the interface.
#[derive(Debug, Clone, Copy, PartialEq, Eq, Structural)]
pub enum Mode {
    /// The prefixes of the VPC.
    VpcOnly,
    /// Everything.
    DefaultRoute,
}

/// The mode as the user writes it.
#[derive(Debug, Clone, Copy, PartialEq, Eq, Structural)]
pub enum ModeArg {
    VpcOnly,
    DefaultRoute,
}

/// The mode that the user means.
pub open spec fn meant_mode(arg: ModeArg) -> Mode {
    match arg {
        ModeArg::VpcOnly => Mode::VpcOnly,
        ModeArg::DefaultRoute => Mode::DefaultRoute,
    }
}

impl From<ModeArg> for Mode {
    fn from(v: ModeArg) -> (r: Self) {
        match v {
            ModeArg::VpcOnly => Mode::VpcOnly,
            ModeArg::DefaultRoute => Mode::DefaultRoute,
        }
    }
}

impl vstd::std_specs::convert::FromSpecImpl<ModeArg> for Mode {
    open spec fn obeys_from_spec() -> bool {
        true
    }

    open spec fn from_spec(v: ModeArg) -> Mode {
        meant_mode(v)
    }
}

/// The name of a mode on the command line and in events.
pub open spec fn mode_name(mode: ModeArg) -> Seq<char> {
    match mode {
        ModeArg::VpcOnly => "vpc-only"@,
        ModeArg::DefaultRoute => "default-route"@,
    }
}

impl ModeArg {
    /// The name of the mode.
    pub fn name(&self) -> (r: &'static str)
        ensures
            r@ == mode_name(*self),
    {
        match self {
            ModeArg::VpcOnly => "vpc-only",
            ModeArg::DefaultRoute => "default-route",
        }
    }
}

// ---------------------------------------------------------------------------
// Commands
// ---------------------------------------------------------------------------
/// The arguments of `ip route add` for a prefix.
pub open spec fn route_command(prefix: Seq<char>, name: Seq<char>) -> Seq<Seq<char>> {
    seq!["-6"@, "route"@, "add"@, prefix, "dev"@, name]
}

/// The arguments of `ip route add` for the router, through the gateway that was
/// the default before.
pub open spec fn pin_command(
    router_ip: Seq<char>,
    gateway: Seq<char>,
    interface: Seq<char>,
) -> Seq<Seq<char>> {
    seq!["-6"@, "route"@, "add"@, router_ip + "/128"@, "via"@, gateway, "dev"@, interface]
}

/// The commands that give the interface its MTU and address and bring it up.
pub open spec fn interface_command_texts(
    name: Seq<char>,
    address: Seq<char>,
    prefix_len: u8,
    mtu: u16,
) -> Seq<Seq<Seq<char>>> {
    seq![
        seq!["link"@, "set"@, "dev"@, name, "mtu"@, numbers::decimal(mtu as nat)],
        seq![
            "-6"@,
            "addr"@,
            "add"@,
            address + "/"@ + numbers::decimal(prefix_len as nat),
            "dev"@,
            name,
        ],
        seq!["link"@, "set"@, "dev"@, name, "up"@],
    ]
}

/// The commands that route the mode's traffic through the interface.
pub open spec fn route_command_texts(
    name: Seq<char>,
    mode: Mode,
    vpc_prefixes: Seq<Seq<char>>,
    router_ip: Option<Seq<char>>,
    default_route: Option<(Seq<char>, Seq<char>)>,
) -> Seq<Seq<Seq<char>>> {
    match mode {
        Mode::VpcOnly => Seq::new(
            vpc_prefixes.len(),
            |i: int| route_command(vpc_prefixes[i], name),
        ),
        Mode::DefaultRoute => pin_commands(router_ip, default_route) + seq![
            route_command("::/1"@, name),
            route_command("8000::/1"@, name),
        ],
    }
}

/// The command that keeps the way to the router out of the interface, where
/// both the router and the way are known.
pub open spec fn pin_commands(
    router_ip: Option<Seq<char>>,
    default_route: Option<(Seq<char>, Seq<char>)>,
) -> Seq<Seq<Seq<char>>> {
    match (router_ip, default_route) {
        (Some(router_ip), Some((gateway, interface))) => seq![
            pin_command(router_ip, gateway, interface),
        ],
        _ => seq![],
    }
}

fn owned(words: &[&str]) -> (r: Vec<String>)
    ensures
        r@.len() == words@.len(),
        forall|i: int| 0 <= i < words@.len() ==> (#[trigger] r@[i])@ == words@[i]@,
{
    let mut out: Vec<String> = Vec::new();
    let mut i: usize = 0;
    while i < words.len()
        invariant
            i <= words@.len(),
            out@.len() == i,
            forall|j: int| 0 <= j < i ==> (#[trigger] out@[j])@ == words@[j]@,
        decreases words@.len() - i,
    {
        out.push(words[i].to_owned());
        i = i + 1;
    }
    out
}

fn route_args(prefix: &str, name: &str) -> (r: Vec<String>)
    ensures
        r.deep_view() == route_command(prefix@, name@),
{
    let r = owned(&["-6", "route", "add", prefix, "dev", name]);
    assert(r.deep_view() =~= route_command(prefix@, name@));
    r
}

/// The commands that give the interface its MTU and address and bring it up.
pub fn configure_interface(name: &str, address: &str, prefix_len: u8, mtu: u16) -> (r: Vec<
    Vec<String>,
>)
    ensures
        r.deep_view() == interface_command_texts(name@, address@, prefix_len, mtu),
{
    let mtu_text = numbers::decimal_text(mtu as u64);
    let network = text::concat3(address, "/", &numbers::decimal_text(prefix_len as u64));
    let first = owned(&["link", "set", "dev", name, "mtu", &mtu_text]);
    let second = owned(&["-6", "addr", "add", &network, "dev", name]);
    let third = owned(&["link", "set", "dev", name, "up"]);
    let ghost wanted = interface_command_texts(name@, address@, prefix_len, mtu);
    assert(first.deep_view() =~= wanted[0]);
    assert(second.deep_view() =~= wanted[1]);
    assert(third.deep_view() =~= wanted[2]);
    let mut out: Vec<Vec<String>> = Vec::new();
    out.push(first);
    out.push(second);
    out.push(third);
    assert(out.deep_view() =~= wanted);
    out
}

/// Whether the present default route must be known before the commands are.
pub fn needs_default_route(mode: Mode, router_ip: &Option<String>) -> (r: bool)
    ensures
        r == (mode is DefaultRoute && router_ip is Some),
{
    mode == Mode::DefaultRoute && router_ip.is_some()
}

/// The model of a default route: the gateway and its interface.
pub open spec fn route_model(route: Option<(String, String)>) -> Option<(Seq<char>, Seq<char>)> {
    match route {
        Some((gateway, interface)) => Some((gateway@, interface@)),
        None => None,
    }
}

/// The commands that route the mode's traffic through the interface, and
/// whether the way to the router could not be kept out of it.
pub fn install_routes(
    name: &str,
    mode: Mode,
    vpc_prefixes: &Vec<String>,
    router_ip: &Option<String>,
    default_route: &Option<(String, String)>,
) -> (r: (Vec<Vec<String>>, bool))
    ensures
        r.0.deep_view() == route_command_texts(
            name@,
            mode,
            vpc_prefixes.deep_view(),
            router_ip.deep_view(),
            route_model(*default_route),
        ),
        r.1 == (mode is DefaultRoute && router_ip is Some && default_route is None),
{
    let mut out: Vec<Vec<String>> = Vec::new();
    match mode {
        Mode::VpcOnly => {
            let mut i: usize = 0;
            while i < vpc_prefixes.len()
                invariant
                    i <= vpc_prefixes@.len(),
                    out@.len() == i,
                    forall|j: int|
                        0 <= j < i ==> (#[trigger] out@[j]).deep_view() == route_command(
                            vpc_prefixes@[j]@,
                            name@,
                        ),
                decreases vpc_prefixes@.len() - i,
            {
                out.push(route_args(&vpc_prefixes[i], name));
                i = i + 1;
            }
            assert(out.deep_view() =~= route_command_texts(
                name@,
                mode,
                vpc_prefixes.deep_view(),
                router_ip.deep_view(),
                route_model(*default_route),
            ));
            (out, false)
        },
        Mode::DefaultRoute => {
            let mut unpinned: bool = false;
            match (router_ip, default_route) {
                (Some(router_ip), Some((gateway, interface))) => {
                    let host = text::concat2(router_ip, "/128");
                    let pin = owned(
                        &["-6", "route", "add", &host, "via", gateway, "dev", interface],
                    );
                    assert(pin.deep_view() =~= pin_command(router_ip@, gateway@, interface@));
                    out.push(pin);
                },
                (Some(_), None) => {
                    unpinned = true;
                },
                _ => {},
            }
            out.push(route_args("::/1", name));
            out.push(route_args("8000::/1", name));
            assert(out.deep_view() =~= route_command_texts(
                name@,
                mode,
                vpc_prefixes.deep_view(),
                router_ip.deep_view(),
                route_model(*default_route),
            ));
            (out, unpinned)
        },
    }
}

/// What is warned of where the way to the router could not be kept out of the
/// interface.
pub const UNPINNED_WARNING: &'static str =
    "no existing default route found; skipping the router host-route pin \u{2014} the VPC connection's own traffic may end up routed into itself once the split-default routes are installed";

// ---------------------------------------------------------------------------
// The present default route
// ---------------------------------------------------------------------------
/// The first line of a text.
pub open spec fn first_line(s: Seq<char>) -> Seq<char> {
    s.take(text::first_where(s, text::exactly('\n')) as int)
}

/// The words behind `via` and `dev`, from number `i` on; the last of each
/// counts.
pub open spec fn read_route(
    words: Seq<Seq<char>>,
    i: int,
    gateway: Option<Seq<char>>,
    interface: Option<Seq<char>>,
) -> Option<(Seq<char>, Seq<char>)>
    decreases words.len() - i,
{
    if i < 0 || i >= words.len() {
        match (gateway, interface) {
            (Some(gateway), Some(interface)) => Some((gateway, interface)),
            _ => None,
        }
    } else {
        let (next, after) = if i + 1 < words.len() {
            (Some(words[i + 1]), i + 2)
        } else {
            (None, i + 1)
        };
        if words[i] == "via"@ {
            read_route(words, after, next, interface)
        } else if words[i] == "dev"@ {
            read_route(words, after, gateway, next)
        } else {
            read_route(words, i + 1, gateway, interface)
        }
    }
}

/// The gateway and interface of the first default route that is listed.
pub open spec fn listed_route(listing: Seq<char>) -> Option<(Seq<char>, Seq<char>)> {
    read_route(text::words(first_line(listing)), 0, None, None)
}

/// The gateway and interface of the first default route that is listed.
pub fn parse_default_route(listing: &str) -> (r: Option<(String, String)>)
    ensures
        route_model(r) == listed_route(listing@),
{
    let v = text::chars_of(listing);
    let n: usize = text::find_char(&v, '\n');
    let line = text::string_between(&v, 0, n);
    assert(line@ =~= first_line(listing@));
    let words = text::split_whitespace(&line);
    let mut gateway: Option<String> = None;
    let mut interface: Option<String> = None;
    let mut i: usize = 0;
    while i < words.len()
        invariant
            words.deep_view() == text::words(first_line(listing@)),
            read_route(
                words.deep_view(),
                i as int,
                gateway.deep_view(),
                interface.deep_view(),
            ) == listed_route(listing@),
            i <= words@.len(),
        decreases words@.len() - i,
    {
        assert(words.deep_view()[i as int] == words@[i as int]@);
        let mut next: Option<String> = None;
        let mut after: usize = i + 1;
        if after < words.len() {
            assert(words.deep_view()[i + 1] == words@[i + 1]@);
            next = Some(words[after].clone());
            after = after + 1;
        }
        if text::text_eq(&words[i], "via") {
            gateway = next;
            i = after;
        } else if text::text_eq(&words[i], "dev") {
            interface = next;
            i = after;
        } else {
            i = i + 1;
        }
    }
    match (gateway, interface) {
        (Some(gateway), Some(interface)) => Some((gateway, interface)),
        _ => None,
    }
}

/// The default route that `ip -6 route show default` lists, where it succeeds.
pub fn current_default_route(success: bool, stdout: &[u8]) -> (r: Option<(String, String)>)
    ensures
        route_model(r) == (if success {
            listed_route(helper::lossy_text(stdout@))
        } else {
            None
        }),
{
    if success {
        parse_default_route(&helper::text_from_utf8_lossy(stdout))
    } else {
        None
    }
}

// ---------------------------------------------------------------------------
// Failures
// ---------------------------------------------------------------------------
/// What is said of a command that failed; `stderr` is what it wrote.
pub open spec fn ip_failure_text(
    args: Seq<Seq<char>>,
    status: Seq<char>,
    stderr: Seq<char>,
) -> Seq<char> {
    let said = text::trimmed(stderr);
    "`ip "@ + text::joined(args, " "@) + "` failed ("@ + status + "): "@ + said + (
    if text::has_part(text::ascii_lower(said), "operation not permitted"@) {
        PRIVILEGE_HINT@
    } else {
        Seq::empty()
    })
}

/// What a command that was not permitted needs.
pub const PRIVILEGE_HINT: &'static str =
    ". This needs CAP_NET_ADMIN \u{2014} re-run as root or with that capability granted; this will not attempt to elevate privileges itself.";

/// What is said of a command that failed, by the text that it wrote.
pub fn describe_ip_failure(args: &Vec<String>, status: &str, stderr: &str) -> (r: String)
    ensures
        r@ == ip_failure_text(args.deep_view(), status@, stderr@),
{
    let said = text::trim(stderr);
    let mut out = text::concat3("`ip ", &text::join(args, " "), "` failed (");
    out.append(status);
    out.append("): ");
    out.append(&said);
    let ghost before = out@;
    if text::contains_text(&text::to_ascii_lowercase(&said), "operation not permitted") {
        out.append(PRIVILEGE_HINT);
    } else {
        assert(before =~= before + Seq::<char>::empty());
    }
    out
}

/// What is said of a command that failed.
pub fn ip_failure(args: &Vec<String>, status: &str, stderr: &[u8]) -> (r: String)
    ensures
        r@ == ip_failure_text(args.deep_view(), status@, helper::lossy_text(stderr@)),
{
    describe_ip_failure(args, status, &helper::text_from_utf8_lossy(stderr))
}

/// Whether the kernel takes the name of a new interface: on macOS only one of
/// its own.
pub fn takes_name(macos: bool, name: &str) -> (r: bool)
    ensures
        r == (!macos || text::occurs_at(name@, "utun"@, 0)),
{
    !macos || text::starts_with_text(name, "utun")
}

/// What is said where the interface could not be created; `shown` is its name as
/// it is shown.
pub open spec fn tun_failure_text(shown: Seq<char>, error: Seq<char>, denied: bool) -> Seq<char> {
    if denied {
        "creating tun device "@ + shown + " failed (permission denied): "@ + error
            + TUN_PRIVILEGE_HINT@
    } else {
        "creating tun device "@ + shown + ": "@ + error
    }
}

/// What creating an interface needs.
pub const TUN_PRIVILEGE_HINT: &'static str =
    ". This needs CAP_NET_ADMIN / root \u{2014} re-run under sudo (or grant the capability); this will not attempt to elevate privileges itself.";

/// What is said where the interface could not be created.
pub fn tun_failure(name: &str, error: &str, denied: bool) -> (r: String)
    ensures
        r@ == tun_failure_text(router::debug_quoted(name@), error@, denied),
{
    describe_tun_failure(&router::quoted(name), error, denied)
}

/// What is said where the interface could not be created, by its name as it is
/// shown.
pub fn describe_tun_failure(shown: &str, error: &str, denied: bool) -> (r: String)
    ensures
        r@ == tun_failure_text(shown@, error@, denied),
{
    let mut out = text::concat2("creating tun device ", shown);
    if denied {
        out.append(" failed (permission denied): ");
        out.append(error);
        out.append(TUN_PRIVILEGE_HINT);
    } else {
        out.append(": ");
        out.append(error);
    }
    out
}

// ---------------------------------------------------------------------------
// Laws
// ---------------------------------------------------------------------------
/// In the mode for the VPC alone, a route is added for each of its prefixes, in
/// order, and for nothing else.
pub proof fn vpc_only_routes_the_prefixes(
    name: Seq<char>,
    vpc_prefixes: Seq<Seq<char>>,
    router_ip: Option<Seq<char>>,
    default_route: Option<(Seq<char>, Seq<char>)>,
    i: int,
)
    requires
        0 <= i < vpc_prefixes.len(),
    ensures
        route_command_texts(name, Mode::VpcOnly, vpc_prefixes, router_ip, default_route).len()
            == vpc_prefixes.len(),
        route_command_texts(name, Mode::VpcOnly, vpc_prefixes, router_ip, default_route)[i][3]
            == vpc_prefixes[i],
{
}

/// The way to the router is pinned before the interface takes everything: the
/// pin is the first command.
pub proof fn router_is_pinned_first(
    name: Seq<char>,
    vpc_prefixes: Seq<Seq<char>>,
    router_ip: Seq<char>,
    gateway: Seq<char>,
    interface: Seq<char>,
)
    ensures
        ({
            let commands = route_command_texts(
                name,
                Mode::DefaultRoute,
                vpc_prefixes,
                Some(router_ip),
                Some((gateway, interface)),
            );
            &&& commands.len() == 3
            &&& commands[0] == pin_command(router_ip, gateway, interface)
        }),
{
}

} // verus!

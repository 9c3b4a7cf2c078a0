//! Laws of a VPC attachment: how the interface ends up, who may connect, and
//! what the stream carries.
use vstd::prelude::*;

use crate::numbers;
use crate::text;
use crate::tunnels::requests::ServiceErrorModel;
use crate::vpc::admission;
use crate::vpc::admission::Admission;
use crate::vpc::frames;
use crate::vpc::frames::StreamEnd;
use crate::vpc::router;
use crate::vpc::routing;
use crate::vpc::routing::{Mode, ModeArg};
use crate::vpc::setup;
use crate::vpc::setup::{
    SetupActionModel, SetupContextModel, SetupModel, SetupReplyModel, SetupStepModel,
};

verus! {

// ---------------------------------------------------------------------------
// The interface
// ---------------------------------------------------------------------------
/// Whether a command adds a route to `prefix` through the interface `name`.
pub open spec fn adds_route(command: Seq<Seq<char>>, prefix: Seq<char>, name: Seq<char>) -> bool {
    command == seq!["-6"@, "route"@, "add"@, prefix, "dev"@, name]
}

/// Whether a command keeps the way to a host on the gateway and the interface that
/// it had.
pub open spec fn pins(
    command: Seq<Seq<char>>,
    host: Seq<char>,
    gateway: Seq<char>,
    interface: Seq<char>,
) -> bool {
    command == seq!["-6"@, "route"@, "add"@, host + "/128"@, "via"@, gateway, "dev"@, interface]
}

/// Whether the commands give the interface its MTU and its address, in this order,
/// and bring it up last.
pub open spec fn brings_up(commands: Seq<Seq<Seq<char>>>, c: SetupContextModel) -> bool {
    &&& commands.len() == 3
    &&& commands[0] == seq!["link"@, "set"@, "dev"@, c.name, "mtu"@, numbers::decimal(c.mtu as nat)]
    &&& commands[1] == seq![
        "-6"@,
        "addr"@,
        "add"@,
        c.address + "/"@ + numbers::decimal(c.prefix_len as nat),
        "dev"@,
        c.name,
    ]
    &&& commands[2] == seq!["link"@, "set"@, "dev"@, c.name, "up"@]
}

/// Whether the commands route what the mode says: every prefix of the VPC and
/// nothing else; or both halves of all addresses, behind the pin of the router where
/// it and the present default route are known.
pub open spec fn routes_the_mode(
    commands: Seq<Seq<Seq<char>>>,
    c: SetupContextModel,
    route: Option<(Seq<char>, Seq<char>)>,
) -> bool {
    match c.mode {
        Mode::VpcOnly => {
            &&& commands.len() == c.vpc_prefixes.len()
            &&& forall|i: int|
                0 <= i < commands.len() ==> adds_route(
                    #[trigger] commands[i],
                    c.vpc_prefixes[i],
                    c.name,
                )
        },
        Mode::DefaultRoute => {
            let n = commands.len() - 2;
            &&& n == if c.router_ip is Some && route is Some {
                1int
            } else {
                0
            }
            &&& match (c.router_ip, route) {
                (Some(host), Some((gateway, interface))) => pins(
                    commands[0],
                    host,
                    gateway,
                    interface,
                ),
                _ => true,
            }
            &&& adds_route(commands[n], "::/1"@, c.name)
            &&& adds_route(commands[n + 1], "8000::/1"@, c.name)
        },
    }
}

/// Where every command succeeds, the interface is brought up with the address that
/// was assigned, and then the traffic of the mode is routed through it.
pub proof fn setup_brings_up_and_routes(
    c: SetupContextModel,
    route: Option<(Seq<char>, Seq<char>)>,
    fuel: nat,
)
    requires
        fuel >= 7 + c.vpc_prefixes.len(),
    ensures
        ({
            let run = setup::commands_run(
                c,
                setup::configure_next(setup::configuring_commands(c)),
                route,
                fuel,
            );
            &&& run.len() >= 3
            &&& brings_up(run.take(3), c)
            &&& routes_the_mode(run.skip(3), c, route)
        }),
{
    let read = setup::route_read(c, route);
    let first = setup::configuring_commands(c);
    let rest = setup::routing_commands(c, read);
    setup::setup_runs_every_command(c, route, fuel);
    let run = setup::commands_run(c, setup::configure_next(first), route, fuel);
    assert(run.take(3) =~= first);
    assert(run.skip(3) =~= rest);
}

/// The present default route is read exactly where the router must be pinned, after
/// the interface is configured; and where there is none, that is warned of.
pub proof fn default_route_is_read_to_pin_the_router(
    c: SetupContextModel,
    route: Option<(Seq<char>, Seq<char>)>,
    message: Seq<char>,
    left: Seq<Seq<Seq<char>>>,
)
    ensures
        ({
            let step = setup::setup_step(
                c,
                SetupModel::Configuring { left: seq![] },
                SetupReplyModel::Ran,
            );
            let asks = step is Next && step->action is ShowDefaultRoute;
            asks <==> c.mode is DefaultRoute && c.router_ip is Some
        }),
        c.mode is DefaultRoute && c.router_ip is Some ==> ({
            let step = setup::setup_step(
                c,
                SetupModel::AskingDefaultRoute,
                SetupReplyModel::DefaultRoute { route },
            );
            step is Next && step->unpinned == (route is None)
        }),
        ({
            let configuring = setup::setup_step(
                c,
                SetupModel::Configuring { left },
                SetupReplyModel::Ran,
            );
            let routing = setup::setup_step(c, SetupModel::Routing { left }, SetupReplyModel::Ran);
            &&& configuring is Next ==> !configuring->unpinned
            &&& routing is Next ==> !routing->unpinned
            &&& !setup::configure_next(left)->unpinned
        }),
        setup::setup_step(
            c,
            SetupModel::Configuring { left },
            SetupReplyModel::Failed { message },
        ) == (SetupStepModel::Failed { message: "configure interface: "@ + message }),
        setup::setup_step(c, SetupModel::Routing { left }, SetupReplyModel::Failed { message }) == (
        SetupStepModel::Failed { message: "install routes: "@ + message }),
{
}

/// Each mode has its own name and meaning.
pub proof fn modes_have_their_names()
    ensures
        routing::mode_name(ModeArg::VpcOnly) == "vpc-only"@,
        routing::mode_name(ModeArg::DefaultRoute) == "default-route"@,
        routing::meant_mode(ModeArg::VpcOnly) is VpcOnly,
        routing::meant_mode(ModeArg::DefaultRoute) is DefaultRoute,
{
}

proof fn lemma_via_dev()
    ensures
        "via"@ != "dev"@,
{
    reveal_strlit("via");
    reveal_strlit("dev");
    assert("via"@[0] == 'v' && "dev"@[0] == 'd');
}

proof fn lemma_read_route(
    words: Seq<Seq<char>>,
    a: int,
    b: int,
    i: int,
    gateway: Option<Seq<char>>,
    interface: Option<Seq<char>>,
)
    requires
        0 <= a < words.len() - 1,
        0 <= b < words.len() - 1,
        words[a] == "via"@,
        words[b] == "dev"@,
        a + 1 != b,
        b + 1 != a,
        forall|k: int|
            0 <= k < words.len() && k != a && k != b ==> (#[trigger] words[k]) != "via"@ && words[k]
                != "dev"@,
        0 <= i <= words.len(),
        i != a + 1,
        i != b + 1,
        a < i ==> gateway == Some(words[a + 1]),
        b < i ==> interface == Some(words[b + 1]),
    ensures
        routing::read_route(words, i, gateway, interface) == Some((words[a + 1], words[b + 1])),
    decreases words.len() - i,
{
    lemma_via_dev();
    if i < words.len() {
        if i == a {
            lemma_read_route(words, a, b, i + 2, Some(words[a + 1]), interface);
        } else if i == b {
            lemma_read_route(words, a, b, i + 2, gateway, Some(words[b + 1]));
        } else {
            assert(words[i] != "via"@ && words[i] != "dev"@);
            lemma_read_route(words, a, b, i + 1, gateway, interface);
        }
    }
}

/// Of the first line of a listing, the gateway is the word behind `via`, and the
/// interface is the word behind `dev`.
pub proof fn default_route_is_read_from_the_first_line(listing: Seq<char>, a: int, b: int)
    requires
        ({
            let words = text::words(routing::first_line(listing));
            &&& 0 <= a < words.len() - 1
            &&& 0 <= b < words.len() - 1
            &&& words[a] == "via"@
            &&& words[b] == "dev"@
            &&& a + 1 != b
            &&& b + 1 != a
            &&& forall|k: int|
                0 <= k < words.len() && k != a && k != b ==> (#[trigger] words[k]) != "via"@
                    && words[k] != "dev"@
        }),
    ensures
        ({
            let words = text::words(routing::first_line(listing));
            routing::listed_route(listing) == Some((words[a + 1], words[b + 1]))
        }),
{
    let words = text::words(routing::first_line(listing));
    lemma_read_route(words, a, b, 0, None, None);
}

proof fn lemma_no_route(
    words: Seq<Seq<char>>,
    i: int,
    gateway: Option<Seq<char>>,
    interface: Option<Seq<char>>,
)
    requires
        0 <= i <= words.len(),
        ({
            ||| gateway is None && forall|k: int|
                0 <= k < words.len() ==> (#[trigger] words[k]) != "via"@
            ||| interface is None && forall|k: int|
                0 <= k < words.len() ==> (#[trigger] words[k]) != "dev"@
        }),
    ensures
        routing::read_route(words, i, gateway, interface) is None,
    decreases words.len() - i,
{
    if i < words.len() {
        let (next, after) = if i + 1 < words.len() {
            (Some(words[i + 1]), i + 2)
        } else {
            (None, i + 1)
        };
        if words[i] == "via"@ {
            lemma_no_route(words, after, next, interface);
        } else if words[i] == "dev"@ {
            lemma_no_route(words, after, gateway, next);
        } else {
            lemma_no_route(words, i + 1, gateway, interface);
        }
    }
}

/// Without a gateway or without an interface there is no default route.
pub proof fn half_a_route_is_none(listing: Seq<char>)
    requires
        ({
            let words = text::words(routing::first_line(listing));
            ||| forall|k: int| 0 <= k < words.len() ==> (#[trigger] words[k]) != "via"@
            ||| forall|k: int| 0 <= k < words.len() ==> (#[trigger] words[k]) != "dev"@
        }),
    ensures
        routing::listed_route(listing) is None,
{
    lemma_no_route(text::words(routing::first_line(listing)), 0, None, None);
}

/// What is before the first line break is the first line, and all of a text that
/// has none.
pub proof fn first_line_ends_at_the_break(line: Seq<char>, rest: Seq<char>)
    requires
        !line.contains('\n'),
    ensures
        routing::first_line(line + seq!['\n'] + rest) == line,
        routing::first_line(line) == line,
{
    let s = line + seq!['\n'] + rest;
    let p = text::exactly('\n');
    assert forall|j: int| 0 <= j < line.len() implies !p(#[trigger] s[j]) by {
        assert(s[j] == line[j]);
    }
    text::lemma_first_where_is(s, p, line.len() as int);
    assert(s.take(line.len() as int) =~= line);
    assert forall|j: int| 0 <= j < line.len() implies !p(#[trigger] line[j]) by {
        assert(line.contains(line[j]));
    }
    text::lemma_first_where_is(line, p, line.len() as int);
    assert(line.take(line.len() as int) =~= line);
}

/// A command that failed is named with its status and what it wrote, and with what
/// it needs exactly where it was not permitted.
pub proof fn failed_command_is_named(
    args: Seq<Seq<char>>,
    status: Seq<char>,
    stderr: Seq<char>,
    shown: Seq<char>,
    error: Seq<char>,
)
    ensures
        ({
            let said = text::trimmed(stderr);
            let denied = text::has_part(text::ascii_lower(said), "operation not permitted"@);
            let named = "`ip "@ + text::joined(args, " "@) + "` failed ("@ + status + "): "@ + said;
            let hint =
                ". This needs CAP_NET_ADMIN \u{2014} re-run as root or with that capability granted; this will not attempt to elevate privileges itself."@;
            &&& denied ==> routing::ip_failure_text(args, status, stderr) == named + hint
            &&& !denied ==> routing::ip_failure_text(args, status, stderr) == named
        }),
        routing::tun_failure_text(shown, error, false) == "creating tun device "@ + shown + ": "@
            + error,
        routing::tun_failure_text(shown, error, true) == "creating tun device "@ + shown
            + " failed (permission denied): "@ + error
            + ". This needs CAP_NET_ADMIN / root \u{2014} re-run under sudo (or grant the capability); this will not attempt to elevate privileges itself."@,
{
    let named = "`ip "@ + text::joined(args, " "@) + "` failed ("@ + status + "): "@
        + text::trimmed(stderr);
    assert(named + Seq::<char>::empty() =~= named);
}

// ---------------------------------------------------------------------------
// Who may connect
// ---------------------------------------------------------------------------
/// A connection is checked exactly where a router is set, and then accepted exactly
/// where it comes from that router.
pub proof fn router_alone_is_accepted(
    allowed_router: Option<Seq<char>>,
    allowed: Seq<char>,
    remote: Seq<char>,
)
    ensures
        admission::admission_of(allowed_router, remote) is AcceptedUnchecked <==> allowed_router
            is None,
        admission::admission_of(Some(allowed), remote) == if remote == allowed {
            Admission::Accepted
        } else {
            Admission::NotAllowed
        },
{
}

/// An ID that can be read is the ID; else the error says what was being read, and
/// why it could not be.
pub proof fn ids_are_read_as_they_are(context: Seq<char>, id: Seq<char>, cause: Seq<char>)
    ensures
        admission::read_id(context, Ok(id)) == Ok::<Seq<char>, ServiceErrorModel>(id),
        admission::read_id(context, Err(cause)) is Err,
        admission::read_id(context, Err(cause))->Err_0 == ServiceErrorModel::because(
            context,
            cause,
        ),
        admission::ROUTER_ID_CONTEXT@ == "parsing --router-id as an iroh endpoint id"@,
        admission::PEER_ID_CONTEXT@ == "parsing --peer-id as an endpoint id"@,
        admission::IROH_VPC_ALPN@ == "datum-connect/vpc/1"@,
{
}

// ---------------------------------------------------------------------------
// The stream
// ---------------------------------------------------------------------------
/// A frame is the length of the packet, the higher byte first, and the packet. Every
/// packet of at most 65535 bytes is read back as it was, and what follows it stays.
pub proof fn frame_is_the_length_and_the_packet(data: Seq<u8>, rest: Seq<u8>)
    requires
        data.len() <= 65535,
    ensures
        frames::frame(data).len() == data.len() + 2,
        frames::frame(data)[0] * 256 + frames::frame(data)[1] == data.len(),
        frames::frame(data).skip(2) == data,
        frames::has_frame(frames::frame(data) + rest),
        frames::first_packet(frames::frame(data) + rest) == data,
        frames::after_frame(frames::frame(data) + rest) == rest,
{
    frames::read_gives_back_what_was_written(data, rest);
    let n = data.len() as int;
    assert(n / 256 < 256);
    assert(n == 256 * (n / 256) + n % 256);
    assert(frames::frame(data).skip(2) =~= data);
}

/// A frame is whole once as many bytes as it says have come behind its length, and
/// the packet is those bytes.
pub proof fn frame_is_whole_when_its_bytes_are_there(bytes: Seq<u8>)
    ensures
        frames::has_frame(bytes) <==> bytes.len() >= 2 && bytes.len() >= 2 + bytes[0] * 256
            + bytes[1],
        frames::has_frame(bytes) ==> ({
            let n = bytes[0] * 256 + bytes[1];
            &&& frames::first_packet(bytes) == bytes.skip(2).take(n)
            &&& frames::after_frame(bytes) == bytes.skip(2).skip(n)
        }),
        bytes.len() < 2 ==> frames::end_of(bytes) is Clean,
        bytes.len() >= 2 ==> frames::end_of(bytes) is Truncated,
{
    if frames::has_frame(bytes) {
        let n = bytes[0] * 256 + bytes[1];
        assert(bytes.skip(2).take(n) =~= bytes.subrange(2, 2 + n));
        assert(bytes.skip(2).skip(n) =~= bytes.skip(2 + n));
    }
}

/// A read of nothing closes the stream; a read of more than was there is an error;
/// and of any other, exactly the bytes that were read are framed.
pub proof fn read_bytes_are_framed(buffer: Seq<u8>, n: int, rest: Seq<u8>)
    requires
        n >= 0,
    ensures
        n == 0 <==> frames::outbound(buffer, n) == Ok::<Option<Seq<u8>>, Seq<char>>(None),
        n > 0 && n > buffer.len() <==> frames::outbound(buffer, n) is Err,
        n > buffer.len() && n > 0 ==> frames::outbound(buffer, n) == Err::<
            Option<Seq<u8>>,
            Seq<char>,
        >("tun read length exceeded buffer"@),
        0 < n <= buffer.len() && n <= 65535 ==> frames::first_packet(
            frames::outbound(buffer, n)->Ok_0->0 + rest,
        ) == buffer.take(n),
{
    if 0 < n <= buffer.len() && n <= 65535 {
        frame_is_the_length_and_the_packet(buffer.take(n), rest);
    }
}

// ---------------------------------------------------------------------------
// The router of the lab
// ---------------------------------------------------------------------------
/// The number of bytes has the last byte as its last digit, and those before it as
/// the others: the highest byte comes first.
pub proof fn bytes_are_digits(bytes: Seq<u8>)
    ensures
        bytes.len() == 0 ==> router::number_of(bytes) == 0,
        bytes.len() > 0 ==> router::number_of(bytes) % 256 == bytes[bytes.len() - 1]
            && router::number_of(bytes) / 256 == router::number_of(bytes.take(bytes.len() - 1)),
{
    if bytes.len() > 0 {
        assert(bytes.drop_last() =~= bytes.take(bytes.len() - 1));
    }
}

proof fn lemma_client_found(clients: Seq<u128>, address: int, i: int)
    requires
        0 <= i <= clients.len(),
    ensures
        match router::client_from(clients, address, i) {
            Some(k) => i <= k < clients.len() && clients[k] == address && forall|j: int|
                i <= j < k ==> (#[trigger] clients[j]) != address,
            None => forall|j: int| i <= j < clients.len() ==> (#[trigger] clients[j]) != address,
        },
    decreases clients.len() - i,
{
    if i < clients.len() {
        lemma_client_found(clients, address, i + 1);
    }
}

/// A packet goes to the first client with the address in its bytes 24 to 39, and to
/// nobody where no client has it or the packet is too short for an address.
pub proof fn packet_goes_where_its_address_says(clients: Seq<u128>, packet: Seq<u8>)
    ensures
        packet.len() < 40 ==> router::receiver_of(clients, packet) is None,
        packet.len() >= 40 ==> ({
            let address = router::number_of(packet.subrange(24, 40));
            match router::receiver_of(clients, packet) {
                Some(k) => 0 <= k < clients.len() && clients[k] == address && forall|j: int|
                    0 <= j < k ==> (#[trigger] clients[j]) != address,
                None => forall|j: int|
                    0 <= j < clients.len() ==> (#[trigger] clients[j]) != address,
            }
        }),
{
    if packet.len() >= 40 {
        lemma_client_found(clients, router::number_of(packet.subrange(24, 40)), 0);
    }
}

/// The clients have the addresses of the pool from the third on.
pub proof fn clients_follow_the_router(base: u128, i: int)
    ensures
        router::client_address(base, 0) == base + 2,
        router::client_address(base, i + 1) == router::client_address(base, i) + 1,
{
}

/// What is said of a pool that is none shows it.
pub proof fn bad_pool_is_shown(shown: Seq<char>)
    ensures
        router::pool_error(shown) == "--pool must be a CIDR (e.g. fd00:cafe:1100::/64), got "@
            + shown,
{
}

} // verus!

use datum_connect::vpc::admission::{
    check_peer, in_context, read_peer_ids, read_router_id, Admission, IROH_VPC_ALPN,
};
use datum_connect::vpc::frames::{
    expect_assignment, filled_part, outbound_frame, write_frame, FrameReader, StreamEnd,
};
use datum_connect::vpc::router::{
    client_addresses, client_assignments, describe_bad_pool, packet_destination, parse_prefix_len,
    pinned_address, pool_nth, route_packet, split_pool, Assignment,
};
use datum_connect::vpc::routing::{
    configure_interface, current_default_route, describe_ip_failure, describe_tun_failure,
    install_routes, ip_failure, needs_default_route, parse_default_route, takes_name, tun_failure,
    Mode, ModeArg,
};
use datum_connect::vpc::setup::{Setup, SetupAction, SetupContext, SetupReply, SetupStep};

// Frames.

#[test]
fn a_frame_is_the_length_and_the_packet() {
    assert_eq!(write_frame(b"abc"), b"\x00\x03abc");
    assert_eq!(write_frame(b""), b"\x00\x00");
    assert_eq!(write_frame(&[7; 300])[..2], [1, 44]);
}

#[test]
fn frames_are_read_however_the_stream_is_cut() {
    let packets: Vec<Vec<u8>> = vec![b"hello".to_vec(), vec![], vec![9; 65535], b"end".to_vec()];
    let stream: Vec<u8> = packets.iter().flat_map(|p| write_frame(p)).collect();
    for size in [1, 2, 3, 1000, stream.len()] {
        let mut reader = FrameReader::new();
        let mut got = Vec::new();
        for piece in stream.chunks(size) {
            reader.receive(piece);
            while let Some(packet) = reader.read_frame() {
                got.push(packet);
            }
            if got.len() > 2 {
                break;
            }
        }
        assert_eq!(got, packets[..got.len()], "size {size}");
        assert!(got.len() > 2);
    }
}

#[test]
fn pump_round_trips_packets_in_both_directions() {
    let mut buffer = vec![0u8; 1500];
    let outbound = b"outbound icmp echo request";
    buffer[..outbound.len()].copy_from_slice(outbound);
    let framed = outbound_frame(&buffer, outbound.len()).unwrap().unwrap();
    assert_eq!(usize::from(framed[0]) * 256 + usize::from(framed[1]), outbound.len());
    assert_eq!(&framed[2..], outbound);
    let mut reader = FrameReader::new();
    reader.receive(&framed);
    reader.receive(&write_frame(b"inbound icmp echo reply"));
    assert_eq!(
        reader.read_frame().as_deref(),
        Some(b"outbound icmp echo request".as_slice())
    );
    assert_eq!(
        reader.read_frame().as_deref(),
        Some(b"inbound icmp echo reply".as_slice())
    );
    assert_eq!(reader.read_frame(), None);
    assert_eq!(reader.at_end(), StreamEnd::Clean);
}

#[test]
fn a_stream_may_end_between_frames_only() {
    let mut reader = FrameReader::new();
    reader.receive(&[0]);
    assert_eq!(reader.read_frame(), None);
    assert_eq!(reader.at_end(), StreamEnd::Clean);
    reader.receive(&[2, 1]);
    assert_eq!(reader.read_frame(), None);
    assert_eq!(reader.at_end(), StreamEnd::Truncated);
    reader.receive(&[5]);
    assert_eq!(reader.read_frame(), Some(vec![1, 5]));
}

#[test]
fn a_packet_that_is_too_long_says_the_longest_length() {
    let frame = write_frame(&[1; 65536]);
    assert_eq!(frame[..2], [255, 255]);
    assert_eq!(frame.len(), 65538);
}

#[test]
fn a_stream_starts_with_an_assignment() {
    assert_eq!(expect_assignment(Some(vec![1])), Ok(vec![1]));
    assert_eq!(
        expect_assignment(None),
        Err("stream closed before assignment".to_string())
    );
    assert_eq!(IROH_VPC_ALPN, "datum-connect/vpc/1");
}

const ASSIGNED: &str =
    r#"{"address":"fd00:cafe:1100::42","prefix_len":64,"vpc_prefixes":["fd00:cafe::/32"]}"#;

#[test]
fn assignment_round_trips_through_framing() {
    let mut reader = FrameReader::new();
    reader.receive(&write_frame(ASSIGNED.as_bytes()));
    let received = expect_assignment(reader.read_frame()).expect("an assignment");
    assert_eq!(received, ASSIGNED.as_bytes());
}

#[test]
fn pump_after_assignment_on_same_stream() {
    let assignment =
        r#"{"address":"fd00:cafe:1100::7","prefix_len":64,"vpc_prefixes":["fd00:cafe::/32"]}"#;
    let mut reader = FrameReader::new();
    reader.receive(&write_frame(assignment.as_bytes()));
    reader.receive(&write_frame(b"hello from router"));
    let got = expect_assignment(reader.read_frame()).expect("an assignment");
    assert_eq!(got, assignment.as_bytes());
    assert_eq!(
        reader.read_frame().as_deref(),
        Some(b"hello from router".as_slice())
    );
    assert_eq!(reader.read_frame(), None);
    assert_eq!(reader.at_end(), StreamEnd::Clean);
}

#[test]
fn a_read_fills_a_part_of_the_buffer() {
    assert_eq!(filled_part(&[1, 2, 3], 2), Some(vec![1, 2]));
    assert_eq!(filled_part(&[1, 2, 3], 4), None);
}

// Who may connect.

#[test]
fn only_the_router_that_is_set_gets_in() {
    let router = Some("r".to_string());
    assert_eq!(check_peer(&router, "r"), Admission::Accepted);
    assert_eq!(check_peer(&router, "x"), Admission::NotAllowed);
    assert_eq!(check_peer(&None, "x"), Admission::AcceptedUnchecked);
}

const ID: &str = "ae58ff8833241ac82d6ff7611046ed67b5072d142c588d0063e942d9a75502b6";

#[test]
fn ids_are_read_in_both_encodings() {
    let base32 = "VZMP7CBTEQNMQLLP65QRARXNM62QOLIUFRMI2ADD5FBNTJ2VAK3A";
    let read = |s: &str| read_router_id(&Some(s.to_string()));
    assert_eq!(read(ID), Ok(Some(ID.to_string())));
    assert_eq!(read(base32), Ok(Some(ID.to_string())));
    assert_eq!(read(&base32.to_lowercase()), Ok(Some(ID.to_string())));
    assert_eq!(read_router_id(&None), Ok(None));
    let error = read("router").unwrap_err();
    assert_eq!(error.context, "parsing --router-id as an iroh endpoint id");
    assert_eq!(error.cause.as_deref(), Some("invalid length"));
}

#[test]
fn every_client_must_be_named_by_its_id() {
    let peers = vec![ID.to_string(), ID.to_string()];
    assert_eq!(read_peer_ids(&peers), Ok(peers.clone()));
    let error = read_peer_ids(&vec![ID.to_string(), "x".to_string()]).unwrap_err();
    assert_eq!(error.context, "parsing --peer-id as an endpoint id");
    assert_eq!(in_context("c", Ok("id".to_string())), Ok("id".to_string()));
    assert_eq!(in_context("c", Err("e".to_string())).unwrap_err().message(), "c: e");
}

// The router of the lab.

#[test]
fn clients_get_addresses_behind_the_router() {
    let base = 0xfd00_cafe_1100_0000_0000_0000_0000_0000;
    assert_eq!(pool_nth(base, 1), base + 1);
    assert_eq!(client_addresses(base, 3), vec![base + 2, base + 3, base + 4]);
    assert!(client_addresses(u128::MAX, 0).is_empty());
}

#[test]
fn a_pool_is_a_network_and_a_prefix_length() {
    assert_eq!(
        split_pool("fd00:cafe:1100::/64"),
        Ok(("fd00:cafe:1100::".to_string(), "64".to_string()))
    );
    assert_eq!(
        split_pool("no \"cidr\""),
        Err(
            "--pool must be a CIDR (e.g. fd00:cafe:1100::/64), got \"no \\\"cidr\\\"\""
                .to_string()
        )
    );
    assert_eq!(
        describe_bad_pool("x"),
        "--pool must be a CIDR (e.g. fd00:cafe:1100::/64), got x"
    );
    assert_eq!(parse_prefix_len("64"), Some(64));
    assert_eq!(parse_prefix_len("256"), None);
    assert_eq!(parse_prefix_len("x"), None);
}

fn packet_to(address: u128) -> Vec<u8> {
    let mut packet = vec![0u8; 48];
    packet[24..40].copy_from_slice(&address.to_be_bytes());
    packet
}

#[test]
fn a_packet_goes_to_the_client_that_it_is_addressed_to() {
    let base = 0xfd00_cafe_1100_0000_0000_0000_0000_0000;
    let clients = client_addresses(base, 3);
    assert_eq!(packet_destination(&packet_to(base + 3)), Some(base + 3));
    assert_eq!(packet_destination(&packet_to(u128::MAX)), Some(u128::MAX));
    assert_eq!(route_packet(&clients, &packet_to(base + 3)), Some(1));
    assert_eq!(route_packet(&clients, &packet_to(base + 1)), None);
    assert_eq!(route_packet(&clients, &packet_to(base + 3)[..39]), None);
}

// The interface and its routes.

#[test]
fn the_interface_gets_its_mtu_and_address_and_is_brought_up() {
    let commands = configure_interface("datum-vpc0", "fd00::2", 64, 1280);
    let lines: Vec<String> = commands.iter().map(|c| c.join(" ")).collect();
    assert_eq!(
        lines,
        vec![
            "link set dev datum-vpc0 mtu 1280",
            "-6 addr add fd00::2/64 dev datum-vpc0",
            "link set dev datum-vpc0 up"
        ]
    );
}

fn routes(
    mode: Mode,
    router: Option<&str>,
    default: Option<(&str, &str)>,
) -> (Vec<String>, bool) {
    let prefixes = vec!["fd00:cafe::/32".to_string(), "fd00:beef::/32".to_string()];
    let router = router.map(String::from);
    let default = default.map(|(g, i)| (g.to_string(), i.to_string()));
    let (commands, warn) = install_routes("tun0", mode, &prefixes, &router, &default);
    (commands.iter().map(|c| c.join(" ")).collect(), warn)
}

#[test]
fn the_vpc_alone_is_routed_by_its_prefixes() {
    let (lines, warn) = routes(Mode::VpcOnly, Some("fd99::1"), None);
    assert_eq!(
        lines,
        vec![
            "-6 route add fd00:cafe::/32 dev tun0",
            "-6 route add fd00:beef::/32 dev tun0"
        ]
    );
    assert!(!warn);
}

#[test]
fn everything_is_routed_once_the_router_is_pinned() {
    let split = ["-6 route add ::/1 dev tun0", "-6 route add 8000::/1 dev tun0"];
    let (lines, warn) = routes(Mode::DefaultRoute, Some("fd99::1"), Some(("fe80::1", "eth0")));
    assert_eq!(lines[0], "-6 route add fd99::1/128 via fe80::1 dev eth0");
    assert_eq!(lines[1..], split);
    assert!(!warn);
    let (lines, warn) = routes(Mode::DefaultRoute, Some("fd99::1"), None);
    assert_eq!(lines, split);
    assert!(warn);
    let (lines, warn) = routes(Mode::DefaultRoute, None, None);
    assert_eq!(lines, split);
    assert!(!warn);
    assert!(needs_default_route(Mode::DefaultRoute, &Some("r".to_string())));
    assert!(!needs_default_route(Mode::VpcOnly, &Some("r".to_string())));
    assert!(!needs_default_route(Mode::DefaultRoute, &None));
}

#[test]
fn the_default_route_is_read_from_the_first_line() {
    let pair = |g: &str, i: &str| Some((g.to_string(), i.to_string()));
    assert_eq!(
        parse_default_route("default via fd00::1 dev eth0 metric 1024\ndefault via x dev y\n"),
        pair("fd00::1", "eth0")
    );
    assert_eq!(parse_default_route("default dev eth0"), None);
    assert_eq!(parse_default_route("default via"), None);
    assert_eq!(parse_default_route(""), None);
    assert_eq!(parse_default_route("via via dev dev\r\n"), pair("via", "dev"));
    assert_eq!(
        current_default_route(true, b"default via fd00::1 dev eth\xff"),
        pair("fd00::1", "eth\u{fffd}")
    );
    assert_eq!(current_default_route(false, b"default via a dev b"), None);
}

#[test]
fn a_failed_command_is_described() {
    let args: Vec<String> = ["link", "set"].iter().map(|s| s.to_string()).collect();
    assert_eq!(
        describe_ip_failure(&args, "exit status: 1", " Cannot find device\n"),
        "`ip link set` failed (exit status: 1): Cannot find device"
    );
    let denied = ip_failure(&args, "exit status: 2", b"RTNETLINK answers: Operation Not Permitted\n");
    assert!(denied.starts_with(
        "`ip link set` failed (exit status: 2): RTNETLINK answers: Operation Not Permitted. This needs CAP_NET_ADMIN"
    ));
}

#[test]
fn a_failed_interface_is_described() {
    assert_eq!(
        describe_tun_failure("\"tun0\"", "busy", false),
        "creating tun device \"tun0\": busy"
    );
    assert_eq!(
        tun_failure("tun\n0", "busy", false),
        "creating tun device \"tun\\n0\": busy"
    );
    assert!(tun_failure("tun0", "no", true)
        .starts_with("creating tun device \"tun0\" failed (permission denied): no. This needs CAP_NET_ADMIN / root"));
}

#[test]
fn macos_names_its_own_interfaces() {
    assert!(takes_name(false, "datum-vpc0"));
    assert!(!takes_name(true, "datum-vpc0"));
    assert!(takes_name(true, "utun7"));
}

#[test]
fn modes_have_names() {
    assert_eq!(Mode::from(ModeArg::VpcOnly), Mode::VpcOnly);
    assert_eq!(Mode::from(ModeArg::DefaultRoute), Mode::DefaultRoute);
    assert_eq!(ModeArg::VpcOnly.name(), "vpc-only");
    assert_eq!(ModeArg::DefaultRoute.name(), "default-route");
}

#[test]
fn the_interface_is_read_into_frames() {
    assert_eq!(outbound_frame(b"abcdef", 0), Ok(None));
    assert_eq!(outbound_frame(b"abcdef", 3), Ok(Some(b"\x00\x03abc".to_vec())));
    assert_eq!(
        outbound_frame(b"abc", 4),
        Err("tun read length exceeded buffer".to_string())
    );
    let mut reader = FrameReader::new();
    reader.receive(&outbound_frame(b"abcdef", 5).unwrap().unwrap());
    assert_eq!(reader.read_frame(), Some(b"abcde".to_vec()));
}

#[test]
fn every_client_is_given_its_own_address() {
    let base: u128 = 0xfd00_cafe_1100_0000_0000_0000_0000_0000;
    let advertise = vec!["fd00:cafe::/32".to_string()];
    let given = client_assignments(base, 64, &advertise, 2);
    assert_eq!(
        given,
        vec![
            Assignment {
                address: base + 2,
                prefix_len: 64,
                vpc_prefixes: advertise.clone(),
            },
            Assignment {
                address: base + 3,
                prefix_len: 64,
                vpc_prefixes: advertise.clone(),
            },
        ]
    );
    assert!(client_assignments(u128::MAX, 64, &advertise, 0).is_empty());
}

#[test]
fn only_a_single_client_is_pinned() {
    let given = Some("10.0.0.1:4".to_string());
    assert_eq!(pinned_address(1, given.clone()), given);
    assert_eq!(pinned_address(2, given), None);
    assert_eq!(pinned_address(1, None), None);
}

// Setting the interface up.

fn setup_context(mode: Mode, router_ip: Option<&str>) -> SetupContext {
    SetupContext {
        name: "datum-vpc0".to_string(),
        mtu: 1280,
        mode,
        router_ip: router_ip.map(str::to_string),
        address: "fd00::2".to_string(),
        prefix_len: 64,
        vpc_prefixes: vec!["fd00:cafe::/32".to_string(), "fd01::/48".to_string()],
    }
}

fn set_up(cx: &SetupContext, route: Option<(&str, &str)>) -> (Vec<String>, bool, bool) {
    let mut ran = Vec::new();
    let mut asked = false;
    let mut warned = false;
    let mut step = cx.start();
    loop {
        match step {
            SetupStep::Next {
                state,
                action,
                unpinned,
            } => {
                warned |= unpinned;
                let reply = match action {
                    SetupAction::Run { args } => {
                        ran.push(args.join(" "));
                        SetupReply::Ran
                    }
                    SetupAction::ShowDefaultRoute => {
                        asked = true;
                        SetupReply::DefaultRoute {
                            route: route.map(|(g, i)| (g.to_string(), i.to_string())),
                        }
                    }
                };
                step = state.step(cx, reply);
            }
            SetupStep::Ready => return (ran, asked, warned),
            other => panic!("{other:?}"),
        }
    }
}

const CONFIGURED: [&str; 3] = [
    "link set dev datum-vpc0 mtu 1280",
    "-6 addr add fd00::2/64 dev datum-vpc0",
    "link set dev datum-vpc0 up",
];

#[test]
fn the_interface_is_set_up_for_the_vpc_alone() {
    let (ran, asked, warned) = set_up(&setup_context(Mode::VpcOnly, Some("2001:db8::1")), None);
    assert_eq!(ran[..3], CONFIGURED);
    assert_eq!(
        ran[3..],
        [
            "-6 route add fd00:cafe::/32 dev datum-vpc0",
            "-6 route add fd01::/48 dev datum-vpc0"
        ]
    );
    assert!(!asked && !warned);
    let mut bare = setup_context(Mode::VpcOnly, None);
    bare.vpc_prefixes.clear();
    assert_eq!(set_up(&bare, None).0, CONFIGURED);
}

#[test]
fn the_interface_is_set_up_for_everything() {
    let cx = setup_context(Mode::DefaultRoute, Some("2001:db8::1"));
    let (ran, asked, warned) = set_up(&cx, Some(("fe80::1", "eth0")));
    assert_eq!(ran[..3], CONFIGURED);
    assert_eq!(
        ran[3..],
        [
            "-6 route add 2001:db8::1/128 via fe80::1 dev eth0",
            "-6 route add ::/1 dev datum-vpc0",
            "-6 route add 8000::/1 dev datum-vpc0"
        ]
    );
    assert!(asked && !warned);
    let (ran, asked, warned) = set_up(&cx, None);
    assert_eq!(ran.len(), 5);
    assert!(asked && warned);
    let (ran, asked, warned) = set_up(&setup_context(Mode::DefaultRoute, None), None);
    assert_eq!(ran.len(), 5);
    assert!(!asked && !warned);
}

#[test]
fn a_failure_ends_the_setup() {
    let cx = setup_context(Mode::DefaultRoute, Some("2001:db8::1"));
    let refused = || SetupReply::Failed {
        message: "no".to_string(),
    };
    let state = match cx.start() {
        SetupStep::Next { state, .. } => state,
        other => panic!("{other:?}"),
    };
    assert_eq!(
        state.clone().step(&cx, refused()),
        SetupStep::Failed {
            message: "configure interface: no".to_string()
        }
    );
    assert_eq!(
        Setup::AskingDefaultRoute.step(&cx, refused()),
        SetupStep::Failed {
            message: "install routes: no".to_string()
        }
    );
    assert_eq!(
        Setup::Routing { left: vec![] }.step(&cx, refused()),
        SetupStep::Failed {
            message: "install routes: no".to_string()
        }
    );
    assert_eq!(
        state.step(&cx, SetupReply::DefaultRoute { route: None }),
        SetupStep::Failed {
            message: "unexpected reply".to_string()
        }
    );
}

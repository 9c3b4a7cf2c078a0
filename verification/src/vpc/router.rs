//! The router of the lab: the addresses of its clients, and whose packet is
//! whose.
use vstd::prelude::*;

use crate::numbers;
use crate::text;

verus! {

/// What a client is given when it connects. Addresses are IPv6.
#[derive(Debug, Clone, PartialEq, Eq)]
pub struct Assignment {
    pub address: u128,
    pub prefix_len: u8,
    pub vpc_prefixes: Vec<String>,
}

/// The model of an [`Assignment`].
#[verifier::ext_equal]
pub struct AssignmentModel {
    pub address: u128,
    pub prefix_len: u8,
    pub vpc_prefixes: Seq<Seq<char>>,
}

impl DeepView for Assignment {
    type V = AssignmentModel;

    open spec fn deep_view(&self) -> AssignmentModel {
        AssignmentModel {
            address: self.address,
            prefix_len: self.prefix_len,
            vpc_prefixes: self.vpc_prefixes.deep_view(),
        }
    }
}

/// The address number `n` of a pool.
pub fn pool_nth(base: u128, n: u128) -> (r: u128)
    requires
        base + n <= u128::MAX,
    ensures
        r == base + n,
{
    base + n
}

/// The address of the client number `i`: the first address of the pool is left to
/// the router, and the clients' follow it.
pub open spec fn client_address(base: u128, i: int) -> int {
    base + i + 2
}

/// The addresses of the first `n` clients of a pool.
pub fn client_addresses(base: u128, n: usize) -> (r: Vec<u128>)
    requires
        n > 0 ==> base + n + 1 <= u128::MAX,
    ensures
        r@.len() == n,
        forall|i: int| 0 <= i < n ==> (#[trigger] r@[i]) == client_address(base, i),
{
    let mut out: Vec<u128> = Vec::new();
    let mut i: usize = 0;
    while i < n
        invariant
            i <= n,
            n > 0 ==> base + n + 1 <= u128::MAX,
            out@.len() == i,
            forall|j: int| 0 <= j < i ==> (#[trigger] out@[j]) == client_address(base, j),
        decreases n - i,
    {
        out.push(pool_nth(base, i as u128 + 2));
        i = i + 1;
    }
    out
}

/// What the first `n` clients of a pool are given: each its own address, and all
/// the prefixes that the router advertises.
pub fn client_assignments(base: u128, prefix_len: u8, advertise: &Vec<String>, n: usize) -> (r:
    Vec<Assignment>)
    requires
        n > 0 ==> base + n + 1 <= u128::MAX,
    ensures
        r@.len() == n,
        forall|i: int|
            0 <= i < n ==> (#[trigger] r@[i]).deep_view() == (AssignmentModel {
                address: client_address(base, i) as u128,
                prefix_len,
                vpc_prefixes: advertise.deep_view(),
            }),
{
    let addresses = client_addresses(base, n);
    let mut out: Vec<Assignment> = Vec::new();
    let mut i: usize = 0;
    while i < n
        invariant
            i <= n,
            addresses@.len() == n,
            forall|j: int|
                0 <= j < n ==> (#[trigger] addresses@[j]) == client_address(base, j),
            out@.len() == i,
            forall|j: int|
                0 <= j < i ==> (#[trigger] out@[j]).deep_view() == (AssignmentModel {
                    address: client_address(base, j) as u128,
                    prefix_len,
                    vpc_prefixes: advertise.deep_view(),
                }),
        decreases n - i,
    {
        out.push(
            Assignment {
                address: addresses[i],
                prefix_len,
                vpc_prefixes: text::copy_texts(advertise),
            },
        );
        i = i + 1;
    }
    out
}

/// The address at which a client is called, where it is not looked up: the one
/// that the user gives, if there is but one client.
pub fn pinned_address(peers: usize, given: Option<String>) -> (r: Option<String>)
    ensures
        r == (if peers == 1 {
            given
        } else {
            None
        }),
{
    if peers == 1 {
        given
    } else {
        None
    }
}

/// No two clients have the same address, and none has the first of the pool, which
/// is left to the router.
pub proof fn clients_have_their_own_addresses(base: u128, i: int, j: int)
    requires
        0 <= i < j,
    ensures
        client_address(base, i) != client_address(base, j),
        client_address(base, i) > base + 1,
{
}

// ---------------------------------------------------------------------------
// Pools
// ---------------------------------------------------------------------------
/// A text in quotes, with escapes, as Rust's debug format shows it.
pub uninterp spec fn debug_quoted(s: Seq<char>) -> Seq<char>;

/// Whether a character needs no escape.
pub open spec fn is_plain(c: char) -> bool {
    ' ' <= c <= '~' && c != '"' && c != '\\'
}

/// The `Debug` format of `str`. What is claimed: it depends on the text alone,
/// and is the text in quotes where no character needs an escape.
#[verifier::external_body]
pub(crate) fn quoted(s: &str) -> (r: String)
    ensures
        r@ == debug_quoted(s@),
        (forall|i: int| 0 <= i < s@.len() ==> is_plain(#[trigger] s@[i])) ==> r@ == seq!['"'] + s@
            + seq!['"'],
{
    format!("{s:?}")
}

/// What is said of a pool that is no network and prefix length.
pub open spec fn pool_error(shown: Seq<char>) -> Seq<char> {
    "--pool must be a CIDR (e.g. fd00:cafe:1100::/64), got "@ + shown
}

/// What is said of a pool that is no network and prefix length; `shown` is the
/// pool as it is shown.
pub fn describe_bad_pool(shown: &str) -> (r: String)
    ensures
        r@ == pool_error(shown@),
{
    text::concat2("--pool must be a CIDR (e.g. fd00:cafe:1100::/64), got ", shown)
}

/// The network and the prefix length of a pool, as texts.
pub fn split_pool(cidr: &str) -> (r: Result<(String, String), String>)
    ensures
        match r {
            Ok((network, prefix_len)) => text::split_once_at(cidr@, '/') == Some(
                (network@, prefix_len@),
            ),
            Err(message) => text::split_once_at(cidr@, '/') is None && message@ == pool_error(
                debug_quoted(cidr@),
            ),
        },
{
    match text::split_once(cidr, '/') {
        Some(parts) => Ok(parts),
        None => Err(describe_bad_pool(&quoted(cidr))),
    }
}

/// The prefix length that a text is.
pub fn parse_prefix_len(s: &str) -> (r: Option<u8>)
    ensures
        match r {
            Some(n) => numbers::read_number(s@, 255) == Some(n as nat),
            None => numbers::read_number(s@, 255) is None,
        },
{
    numbers::parse_u8(s)
}

// ---------------------------------------------------------------------------
// Packets
// ---------------------------------------------------------------------------
/// The number that bytes are, the highest first.
pub open spec fn number_of(bytes: Seq<u8>) -> int
    decreases bytes.len(),
{
    if bytes.len() == 0 {
        0
    } else {
        number_of(bytes.drop_last()) * 256 + bytes.last()
    }
}

/// The destination of an IPv6 packet, which stands in the bytes 24 to 39.
pub open spec fn destination_of(packet: Seq<u8>) -> Option<int> {
    if packet.len() < 40 {
        None
    } else {
        Some(number_of(packet.subrange(24, 40)))
    }
}

proof fn lemma_number_bound(bytes: Seq<u8>, n: nat)
    requires
        bytes.len() == n,
        n <= 16,
    ensures
        0 <= number_of(bytes) < vstd::arithmetic::power2::pow2(8 * n),
    decreases n,
{
    vstd::arithmetic::power2::lemma2_to64();
    if n > 0 {
        lemma_number_bound(bytes.drop_last(), (n - 1) as nat);
        vstd::arithmetic::power2::lemma_pow2_adds(8, (8 * (n - 1)) as nat);
    }
}

/// The destination of an IPv6 packet.
pub fn packet_destination(packet: &[u8]) -> (r: Option<u128>)
    ensures
        match r {
            Some(address) => destination_of(packet@) == Some(address as int),
            None => destination_of(packet@) is None,
        },
{
    if packet.len() < 40 {
        return None;
    }
    let ghost field = packet@.subrange(24, 40);
    let mut address: u128 = 0;
    let mut i: usize = 24;
    assert(field.take(0) =~= Seq::<u8>::empty());
    while i < 40
        invariant
            24 <= i <= 40 <= packet@.len(),
            field == packet@.subrange(24, 40),
            address == number_of(field.take(i - 24)),
        decreases 40 - i,
    {
        proof {
            assert(field.take(i - 24 + 1).drop_last() =~= field.take(i - 24));
            assert(field.take(i - 24 + 1).last() == packet@[i as int]);
            lemma_number_bound(field.take(i - 24 + 1), (i - 24 + 1) as nat);
            lemma_pow_bound((i - 24 + 1) as nat);
        }
        address = address * 256 + packet[i] as u128;
        i = i + 1;
    }
    assert(field.take(16) =~= field);
    Some(address)
}

proof fn lemma_pow_bound(n: nat)
    requires
        n <= 16,
    ensures
        vstd::arithmetic::power2::pow2(8 * n) <= u128::MAX + 1,
{
    vstd::arithmetic::power2::lemma2_to64();
    vstd::arithmetic::power2::lemma_pow2_adds(64, 64);
    assert(vstd::arithmetic::power2::pow2(128) == u128::MAX + 1) by (nonlinear_arith)
        requires
            vstd::arithmetic::power2::pow2(64) == 0x10000000000000000,
            vstd::arithmetic::power2::pow2(128) == vstd::arithmetic::power2::pow2(64)
                * vstd::arithmetic::power2::pow2(64),
    ;
    if n < 16 {
        vstd::arithmetic::power2::lemma_pow2_strictly_increases(8 * n, 128);
    }
}

/// The first client, from number `i` on, with this address.
pub open spec fn client_from(clients: Seq<u128>, address: int, i: int) -> Option<int>
    decreases clients.len() - i,
{
    if i < 0 || i >= clients.len() {
        None
    } else if clients[i] == address {
        Some(i)
    } else {
        client_from(clients, address, i + 1)
    }
}

/// Whose packet it is: the number of the client that it is addressed to.
pub open spec fn receiver_of(clients: Seq<u128>, packet: Seq<u8>) -> Option<int> {
    match destination_of(packet) {
        Some(address) => client_from(clients, address, 0),
        None => None,
    }
}

/// Whose packet it is. A packet for nobody is dropped.
pub fn route_packet(clients: &Vec<u128>, packet: &[u8]) -> (r: Option<usize>)
    ensures
        match r {
            Some(i) => receiver_of(clients@, packet@) == Some(i as int),
            None => receiver_of(clients@, packet@) is None,
        },
{
    let address: u128 = match packet_destination(packet) {
        Some(address) => address,
        None => {
            return None;
        },
    };
    let mut i: usize = 0;
    while i < clients.len()
        invariant
            i <= clients@.len(),
            destination_of(packet@) == Some(address as int),
            client_from(clients@, address as int, i as int) == client_from(
                clients@,
                address as int,
                0,
            ),
        decreases clients@.len() - i,
    {
        if clients[i] == address {
            return Some(i);
        }
        i = i + 1;
    }
    None
}

proof fn lemma_client_from(clients: Seq<u128>, address: int, i: int, k: int)
    requires
        0 <= i <= k < clients.len(),
        clients[k] == address,
        forall|j: int| i <= j < k ==> #[trigger] clients[j] != address,
    ensures
        client_from(clients, address, i) == Some(k),
    decreases k - i,
{
    if i < k {
        lemma_client_from(clients, address, i + 1, k);
    }
}

/// A packet for the address of a client goes to that client.
pub proof fn packet_reaches_its_client(
    base: u128,
    clients: Seq<u128>,
    packet: Seq<u8>,
    k: int,
)
    requires
        forall|i: int| 0 <= i < clients.len() ==> (#[trigger] clients[i]) == client_address(base, i),
        0 <= k < clients.len(),
        destination_of(packet) == Some(client_address(base, k)),
    ensures
        receiver_of(clients, packet) == Some(k),
{
    lemma_client_from(clients, client_address(base, k), 0, k);
}

} // verus!

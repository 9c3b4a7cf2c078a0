//! Who may connect to a VPC attachment.
use vstd::prelude::*;

use crate::text;
use crate::tunnels::requests::{ServiceError, ServiceErrorModel};

verus! {

/// The protocol of a VPC attachment's stream: first an assignment, then packets.
pub const IROH_VPC_ALPN: &'static str = "datum-connect/vpc/1";

// ---------------------------------------------------------------------------
// IDs
// ---------------------------------------------------------------------------
/// The ID that a text is, in its usual form, or what is wrong with the text.
pub uninterp spec fn endpoint_id_of(input: Seq<char>) -> Result<Seq<char>, Seq<char>>;

/// Whether a text is in the form that IDs usually have: 64 digits in lower-case
/// hexadecimal.
pub open spec fn is_id_form(id: Seq<char>) -> bool {
    id.len() == 64 && forall|i: int|
        0 <= i < id.len() ==> '0' <= #[trigger] id[i] <= '9' || 'a' <= id[i] <= 'f'
}

/// `iroh_base::EndpointId::from_str`, with the ID shown by its `Display`. What
/// is claimed: the ID, or the error's message, depends on the text alone; an ID
/// is shown in its usual form, and that form is read as the same ID.
#[verifier::external_body]
fn parse_endpoint_id(input: &str) -> (r: Result<String, String>)
    ensures
        match r {
            Ok(id) => endpoint_id_of(input@) == Ok::<Seq<char>, Seq<char>>(id@) && is_id_form(id@)
                && endpoint_id_of(id@) == Ok::<Seq<char>, Seq<char>>(id@),
            Err(e) => endpoint_id_of(input@) == Err::<Seq<char>, Seq<char>>(e@),
        },
{
    match input.parse::<iroh_base::EndpointId>() {
        Ok(id) => Ok(id.to_string()),
        Err(e) => Err(e.to_string()),
    }
}

pub const ROUTER_ID_CONTEXT: &'static str = "parsing --router-id as an iroh endpoint id";

pub const PEER_ID_CONTEXT: &'static str = "parsing --peer-id as an endpoint id";

/// An ID that was read, or what was being done when it could not be.
pub open spec fn read_id(
    context: Seq<char>,
    parsed: Result<Seq<char>, Seq<char>>,
) -> Result<Seq<char>, ServiceErrorModel> {
    match parsed {
        Ok(id) => Ok(id),
        Err(e) => Err(ServiceErrorModel::because(context, e)),
    }
}

/// The model of an ID that was read.
pub open spec fn id_model(id: Result<String, ServiceError>) -> Result<Seq<char>, ServiceErrorModel> {
    match id {
        Ok(id) => Ok(id@),
        Err(e) => Err(e.deep_view()),
    }
}

/// An ID that was read, or what was being done when it could not be.
pub fn in_context(context: &str, parsed: Result<String, String>) -> (r: Result<
    String,
    ServiceError,
>)
    ensures
        id_model(r) == read_id(
            context@,
            match parsed {
                Ok(id) => Ok(id@),
                Err(e) => Err(e@),
            },
        ),
{
    match parsed {
        Ok(id) => Ok(id),
        Err(e) => Err(ServiceError::because(context, e)),
    }
}

/// The router that may connect, where the user names one.
pub fn read_router_id(router_id: &Option<String>) -> (r: Result<Option<String>, ServiceError>)
    ensures
        match (r, router_id) {
            (Ok(None), None) => true,
            (Ok(Some(id)), Some(given)) => read_id(ROUTER_ID_CONTEXT@, endpoint_id_of(given@)) == Ok::<
                Seq<char>,
                ServiceErrorModel,
            >(id@) && is_id_form(id@),
            (Err(e), Some(given)) => read_id(ROUTER_ID_CONTEXT@, endpoint_id_of(given@)) == Err::<
                Seq<char>,
                ServiceErrorModel,
            >(e.deep_view()),
            _ => false,
        },
{
    match router_id {
        None => Ok(None),
        Some(given) => match in_context(ROUTER_ID_CONTEXT, parse_endpoint_id(given)) {
            Ok(id) => Ok(Some(id)),
            Err(e) => Err(e),
        },
    }
}

/// The clients that the router of the lab calls: all of them, or what is wrong
/// with the first that is no ID.
pub fn read_peer_ids(peers: &Vec<String>) -> (r: Result<Vec<String>, ServiceError>)
    ensures
        match r {
            Ok(ids) => ids@.len() == peers@.len() && forall|i: int|
                0 <= i < peers@.len() ==> endpoint_id_of((#[trigger] peers@[i])@) == Ok::<
                    Seq<char>,
                    Seq<char>,
                >(ids@[i]@),
            Err(e) => exists|n: int|
                0 <= n < peers@.len() && read_id(
                    PEER_ID_CONTEXT@,
                    endpoint_id_of((#[trigger] peers@[n])@),
                ) == Err::<Seq<char>, ServiceErrorModel>(e.deep_view()) && forall|i: int|
                    0 <= i < n ==> endpoint_id_of((#[trigger] peers@[i])@) is Ok,
        },
{
    let mut ids: Vec<String> = Vec::new();
    let mut i: usize = 0;
    while i < peers.len()
        invariant
            i <= peers@.len(),
            ids@.len() == i,
            forall|j: int|
                0 <= j < i ==> endpoint_id_of((#[trigger] peers@[j])@) == Ok::<
                    Seq<char>,
                    Seq<char>,
                >(ids@[j]@),
        decreases peers@.len() - i,
    {
        match in_context(PEER_ID_CONTEXT, parse_endpoint_id(&peers[i])) {
            Ok(id) => {
                ids.push(id);
            },
            Err(e) => {
                assert(read_id(PEER_ID_CONTEXT@, endpoint_id_of(peers@[i as int]@)) == Err::<
                    Seq<char>,
                    ServiceErrorModel,
                >(e.deep_view()));
                return Err(e);
            },
        }
        i = i + 1;
    }
    Ok(ids)
}

// ---------------------------------------------------------------------------
// Connections
// ---------------------------------------------------------------------------
/// What becomes of a connection.
#[derive(Debug, Clone, Copy, PartialEq, Eq, Structural)]
pub enum Admission {
    /// It comes from another than the router that may connect.
    NotAllowed,
    /// It comes from the router that may connect.
    Accepted,
    /// No router is set, so any may connect.
    AcceptedUnchecked,
}

/// What becomes of a connection from `remote`, where `allowed_router` may
/// connect.
pub open spec fn admission_of(allowed_router: Option<Seq<char>>, remote: Seq<char>) -> Admission {
    match allowed_router {
        Some(allowed) => if remote == allowed {
            Admission::Accepted
        } else {
            Admission::NotAllowed
        },
        None => Admission::AcceptedUnchecked,
    }
}

/// What becomes of a connection from `remote`.
pub fn check_peer(allowed_router: &Option<String>, remote: &str) -> (r: Admission)
    ensures
        r == admission_of(allowed_router.deep_view(), remote@),
{
    match allowed_router {
        Some(allowed) => if text::text_eq(remote, allowed) {
            Admission::Accepted
        } else {
            Admission::NotAllowed
        },
        None => Admission::AcceptedUnchecked,
    }
}

/// Once a router is set, no other gets in.
pub proof fn only_the_router_gets_in(allowed: Seq<char>, remote: Seq<char>)
    ensures
        admission_of(Some(allowed), remote) is NotAllowed <==> remote != allowed,
{
}

} // verus!

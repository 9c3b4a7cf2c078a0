//! The client of one project's control plane, and when it is built again.
use vstd::prelude::*;

use crate::text;

verus! {

/// What the client of a control plane was built with.
pub struct ProjectControlPlaneClient {
    project_id: String,
    server_url: String,
    access_token: String,
}

impl ProjectControlPlaneClient {
    pub closed spec fn project_view(&self) -> Seq<char> {
        self.project_id@
    }

    pub closed spec fn url_view(&self) -> Seq<char> {
        self.server_url@
    }

    pub closed spec fn token_view(&self) -> Seq<char> {
        self.access_token@
    }

    pub fn new(project_id: String, server_url: String, access_token: String) -> (r: Self)
        ensures
            r.project_view() == project_id@,
            r.url_view() == server_url@,
            r.token_view() == access_token@,
    {
        ProjectControlPlaneClient { project_id, server_url, access_token }
    }

    pub fn project_id(&self) -> (r: &str)
        ensures
            r@ == self.project_view(),
    {
        self.project_id.as_str()
    }

    pub fn server_url(&self) -> (r: &str)
        ensures
            r@ == self.url_view(),
    {
        self.server_url.as_str()
    }

    /// The token that the client was built with.
    pub fn access_token(&self) -> (r: String)
        ensures
            r@ == self.token_view(),
    {
        self.access_token.clone()
    }

    /// Whether the client has to be built again for this token.
    pub fn needs_rebuild(&self, access_token: &str) -> (r: bool)
        ensures
            r == (self.token_view() != access_token@),
    {
        !text::text_eq(&self.access_token, access_token)
    }

    /// The client was built again, with this token.
    pub fn rebuilt(&mut self, access_token: String)
        ensures
            final(self).token_view() == access_token@,
            final(self).project_view() == old(self).project_view(),
            final(self).url_view() == old(self).url_view(),
    {
        self.access_token = access_token;
    }
}

} // verus!

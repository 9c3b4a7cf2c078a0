//! The client of Datum Cloud in plugin mode: its token comes from outside, so
//! its user is always logged in.
use vstd::prelude::*;

use crate::datum_cloud::refresh::{ExternalTokenSource, TokenModel};
use crate::datum_cloud::session;
use crate::datum_cloud::session::{
    AccessToken, LoginState, OrganizationWithProjects, Session, SessionModel, UserProfile,
    UserProfileModel,
};
use crate::state::{SelectedContext, SelectedContextModel};
use crate::text;

verus! {

/// How long a token counts as valid, in seconds.
pub const ASSUMED_LIFETIME_SECS: u64 = 3600;

/// The tokens of a user. Times are in seconds since the epoch.
pub struct AuthTokens {
    pub access_token: AccessToken,
    pub refresh_token: Option<String>,
    pub issued_at: u64,
    pub expires_in: u64,
}

/// A user and their tokens.
pub struct AuthState {
    pub tokens: AuthTokens,
    pub profile: UserProfile,
}

/// A client in plugin mode.
pub struct DatumCloudClient {
    api_url: String,
    web_url: String,
    token_source: ExternalTokenSource,
    session: Session,
}

impl DatumCloudClient {
    pub closed spec fn api_url_view(&self) -> Seq<char> {
        self.api_url@
    }

    pub closed spec fn web_url_view(&self) -> Seq<char> {
        self.web_url@
    }

    pub closed spec fn source_view(&self) -> TokenModel {
        self.token_source@
    }

    pub closed spec fn session_view(&self) -> SessionModel {
        self.session.deep_view()
    }

    /// A client with this token source, which remembers nothing yet.
    pub fn with_external_token_source(
        api_url: String,
        web_url: String,
        token_source: ExternalTokenSource,
    ) -> (r: Self)
        ensures
            r.api_url_view() == api_url@,
            r.web_url_view() == web_url@,
            r.source_view() == token_source@,
            r.session_view() == (SessionModel { selected: None, orgs_projects: Seq::empty() }),
    {
        DatumCloudClient { api_url, web_url, token_source, session: Session::empty() }
    }

    /// The user is logged in as long as the plugin's host hands out tokens.
    pub fn login_state(&self) -> (r: LoginState)
        ensures
            r == LoginState::Valid,
    {
        LoginState::Valid
    }

    pub fn is_plugin_mode(&self) -> (r: bool)
        ensures
            r,
    {
        true
    }

    /// The current token.
    pub fn token(&self) -> (r: String)
        ensures
            r@ == self.source_view().token,
    {
        self.token_source.token()
    }

    pub fn api_url(&self) -> (r: &str)
        ensures
            r@ == self.api_url_view(),
    {
        self.api_url.as_str()
    }

    pub fn web_url(&self) -> (r: &str)
        ensures
            r@ == self.web_url_view(),
    {
        self.web_url.as_str()
    }

    /// The user that stands for whoever the token belongs to.
    pub fn auth_state(&self, now: u64) -> (r: AuthState)
        ensures
            r.tokens.access_token@ == self.source_view().token,
            r.tokens.refresh_token is None,
            r.tokens.issued_at == now,
            r.tokens.expires_in == ASSUMED_LIFETIME_SECS,
            r.profile.deep_view() == (UserProfileModel {
                user_id: "external"@,
                email: "external@plugin"@,
                first_name: None,
                last_name: None,
                avatar_url: None,
                registration_approval: None,
            }),
    {
        AuthState {
            tokens: AuthTokens {
                access_token: AccessToken::new(self.token()),
                refresh_token: None,
                issued_at: now,
                expires_in: ASSUMED_LIFETIME_SECS,
            },
            profile: UserProfile::external(),
        }
    }

    /// The selected project.
    pub fn selected_context(&self) -> (r: Option<&SelectedContext>)
        ensures
            match r {
                Some(context) => self.session_view().selected == Some(context.deep_view()),
                None => self.session_view().selected is None,
            },
    {
        self.session.selected.as_ref()
    }

    /// Selects a project. Says whether it is another one than before.
    pub fn set_selected_context(&mut self, context: Option<SelectedContext>) -> (changed: bool)
        ensures
            changed == (old(self).session_view().selected != context.deep_view()),
            final(self).session_view() == (SessionModel {
                selected: context.deep_view(),
                ..old(self).session_view()
            }),
            final(self).source_view() == old(self).source_view(),
            final(self).api_url_view() == old(self).api_url_view(),
            final(self).web_url_view() == old(self).web_url_view(),
    {
        self.session.set_selected_context(context)
    }

    /// The organizations and projects that are known.
    pub fn orgs_projects_cache(&self) -> (r: &Vec<OrganizationWithProjects>)
        ensures
            r.deep_view() == self.session_view().orgs_projects,
    {
        &self.session.orgs_projects
    }

    /// The URL of the control plane of a project.
    pub fn control_plane_url(&self, project_id: &str) -> (r: String)
        ensures
            r@ == session::control_plane_url(self.api_url_view(), project_id@),
    {
        session::project_control_plane_url(&self.api_url, project_id)
    }

    /// The URL of the control plane of the selected project, where one is
    /// selected.
    pub fn active_control_plane_url(&self) -> (r: Option<String>)
        ensures
            match (r, self.session_view().selected) {
                (Some(url), Some(context)) => url@ == session::control_plane_url(
                    self.api_url_view(),
                    context.project_id,
                ),
                (None, None) => true,
                _ => false,
            },
    {
        match self.selected_context() {
            Some(context) => Some(self.control_plane_url(&context.project_id)),
            None => None,
        }
    }

    /// Takes in a fresher token; every client that is built later uses it.
    pub fn swap_token(&mut self, token: String)
        ensures
            final(self).source_view() == old(self).source_view().swapped(token@),
            final(self).session_view() == old(self).session_view(),
            final(self).api_url_view() == old(self).api_url_view(),
            final(self).web_url_view() == old(self).web_url_view(),
    {
        self.token_source.swap_token(token);
    }
}

/// The value of the `Authorization` header for a token.
pub fn authorization_header(token: &str) -> (r: String)
    ensures
        r@ == "Bearer "@ + token@,
{
    text::concat2("Bearer ", token)
}

} // verus!

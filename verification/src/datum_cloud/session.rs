//! Users, their projects, and what a client remembers of them.
use vstd::prelude::*;

use crate::state::{SelectedContext, SelectedContextModel};
use crate::text;

verus! {

/// A bearer token.
pub struct AccessToken(String);

impl View for AccessToken {
    type V = Seq<char>;

    closed spec fn view(&self) -> Seq<char> {
        self.0@
    }
}

impl AccessToken {
    pub fn new(token: String) -> (r: Self)
        ensures
            r@ == token@,
    {
        AccessToken(token)
    }

    pub fn secret(&self) -> (r: &str)
        ensures
            r@ == self@,
    {
        self.0.as_str()
    }

    pub fn as_str(&self) -> (r: &str)
        ensures
            r@ == self@,
    {
        self.0.as_str()
    }
}

/// Whether the user is logged in.
#[derive(Debug, Clone, Copy, PartialEq, Eq, Structural)]
pub enum LoginState {
    Missing,
    Valid,
    Refreshing,
}

impl DeepView for LoginState {
    type V = LoginState;

    open spec fn deep_view(&self) -> LoginState {
        *self
    }
}

impl Default for LoginState {
    fn default() -> (r: Self)
        ensures
            r == LoginState::Missing,
    {
        LoginState::Missing
    }
}

/// What is known of a user.
#[derive(Debug, Clone, PartialEq, Eq)]
pub struct UserProfile {
    pub user_id: String,
    pub email: String,
    pub first_name: Option<String>,
    pub last_name: Option<String>,
    pub avatar_url: Option<String>,
    pub registration_approval: Option<String>,
}

/// The model of a [`UserProfile`].
#[verifier::ext_equal]
pub struct UserProfileModel {
    pub user_id: Seq<char>,
    pub email: Seq<char>,
    pub first_name: Option<Seq<char>>,
    pub last_name: Option<Seq<char>>,
    pub avatar_url: Option<Seq<char>>,
    pub registration_approval: Option<Seq<char>>,
}

impl DeepView for UserProfile {
    type V = UserProfileModel;

    open spec fn deep_view(&self) -> UserProfileModel {
        UserProfileModel {
            user_id: self.user_id.deep_view(),
            email: self.email.deep_view(),
            first_name: self.first_name.deep_view(),
            last_name: self.last_name.deep_view(),
            avatar_url: self.avatar_url.deep_view(),
            registration_approval: self.registration_approval.deep_view(),
        }
    }
}

/// An organization.
#[derive(Debug, Clone, PartialEq, Eq)]
pub struct Organization {
    pub resource_id: String,
    pub display_name: String,
    pub type_: String,
}

/// The model of a [`Organization`].
#[verifier::ext_equal]
pub struct OrganizationModel {
    pub resource_id: Seq<char>,
    pub display_name: Seq<char>,
    pub type_: Seq<char>,
}

impl DeepView for Organization {
    type V = OrganizationModel;

    open spec fn deep_view(&self) -> OrganizationModel {
        OrganizationModel {
            resource_id: self.resource_id.deep_view(),
            display_name: self.display_name.deep_view(),
            type_: self.type_.deep_view(),
        }
    }
}

/// A project.
#[derive(Debug, Clone, PartialEq, Eq)]
pub struct Project {
    pub resource_id: String,
    pub display_name: String,
}

/// The model of a [`Project`].
#[verifier::ext_equal]
pub struct ProjectModel {
    pub resource_id: Seq<char>,
    pub display_name: Seq<char>,
}

impl DeepView for Project {
    type V = ProjectModel;

    open spec fn deep_view(&self) -> ProjectModel {
        ProjectModel {
            resource_id: self.resource_id.deep_view(),
            display_name: self.display_name.deep_view(),
        }
    }
}

/// An organization and its projects.
#[derive(Debug, Clone, PartialEq, Eq)]
pub struct OrganizationWithProjects {
    pub org: Organization,
    pub projects: Vec<Project>,
}

/// The model of a [`OrganizationWithProjects`].
#[verifier::ext_equal]
pub struct OrganizationWithProjectsModel {
    pub org: OrganizationModel,
    pub projects: Seq<ProjectModel>,
}

impl DeepView for OrganizationWithProjects {
    type V = OrganizationWithProjectsModel;

    open spec fn deep_view(&self) -> OrganizationWithProjectsModel {
        OrganizationWithProjectsModel {
            org: self.org.deep_view(),
            projects: self.projects.deep_view(),
        }
    }
}

/// What a client remembers: the selected project, and the projects it knows.
#[derive(Debug, Clone, PartialEq, Eq)]
pub struct Session {
    pub selected: Option<SelectedContext>,
    pub orgs_projects: Vec<OrganizationWithProjects>,
}

/// The model of a [`Session`].
#[verifier::ext_equal]
pub struct SessionModel {
    pub selected: Option<SelectedContextModel>,
    pub orgs_projects: Seq<OrganizationWithProjectsModel>,
}

impl DeepView for Session {
    type V = SessionModel;

    open spec fn deep_view(&self) -> SessionModel {
        SessionModel {
            selected: self.selected.deep_view(),
            orgs_projects: self.orgs_projects.deep_view(),
        }
    }
}

impl UserProfile {
    /// The profile of a user whose token comes from outside.
    pub fn external() -> (r: Self)
        ensures
            r.deep_view() == (UserProfileModel {
                user_id: "external"@,
                email: "external@plugin"@,
                first_name: None,
                last_name: None,
                avatar_url: None,
                registration_approval: None,
            }),
    {
        UserProfile {
            user_id: "external".to_owned(),
            email: "external@plugin".to_owned(),
            first_name: None,
            last_name: None,
            avatar_url: None,
            registration_approval: None,
        }
    }
}

/// The URL of the control plane of a project.
pub open spec fn control_plane_url(api_url: Seq<char>, project_id: Seq<char>) -> Seq<char> {
    api_url + "/apis/resourcemanager.miloapis.com/v1alpha1/projects/"@ + project_id
        + "/control-plane"@
}

/// The URL of the control plane of a project.
pub fn project_control_plane_url(api_url: &str, project_id: &str) -> (r: String)
    ensures
        r@ == control_plane_url(api_url@, project_id@),
{
    let mut out = text::concat3(
        api_url,
        "/apis/resourcemanager.miloapis.com/v1alpha1/projects/",
        project_id,
    );
    out.append("/control-plane");
    out
}

impl Organization {
    fn same_as(&self, other: &Organization) -> (r: bool)
        ensures
            r == (self.deep_view() == other.deep_view()),
    {
        text::text_eq(&self.resource_id, &other.resource_id) && text::text_eq(
            &self.display_name,
            &other.display_name,
        ) && text::text_eq(&self.type_, &other.type_)
    }
}

impl Project {
    fn same_as(&self, other: &Project) -> (r: bool)
        ensures
            r == (self.deep_view() == other.deep_view()),
    {
        text::text_eq(&self.resource_id, &other.resource_id) && text::text_eq(
            &self.display_name,
            &other.display_name,
        )
    }
}

impl OrganizationWithProjects {
    fn same_as(&self, other: &OrganizationWithProjects) -> (r: bool)
        ensures
            r == (self.deep_view() == other.deep_view()),
    {
        let ghost a = self.deep_view().projects;
        let ghost b = other.deep_view().projects;
        if !self.org.same_as(&other.org) {
            return false;
        }
        if self.projects.len() != other.projects.len() {
            assert(a.len() != b.len());
            return false;
        }
        let mut i: usize = 0;
        while i < self.projects.len()
            invariant
                i <= self.projects@.len(),
                self.projects@.len() == other.projects@.len(),
                a == self.deep_view().projects,
                b == other.deep_view().projects,
                forall|j: int| 0 <= j < i ==> #[trigger] a[j] == b[j],
            decreases self.projects@.len() - i,
        {
            if !self.projects[i].same_as(&other.projects[i]) {
                assert(a[i as int] != b[i as int]);
                return false;
            }
            i = i + 1;
        }
        assert(a =~= b);
        true
    }
}

fn same_organizations(
    a: &Vec<OrganizationWithProjects>,
    b: &Vec<OrganizationWithProjects>,
) -> (r: bool)
    ensures
        r == (a.deep_view() == b.deep_view()),
{
    if a.len() != b.len() {
        return false;
    }
    let ghost x = a.deep_view();
    let ghost y = b.deep_view();
    let mut i: usize = 0;
    while i < a.len()
        invariant
            i <= a@.len(),
            a@.len() == b@.len(),
            x == a.deep_view(),
            y == b.deep_view(),
            forall|j: int| 0 <= j < i ==> #[trigger] x[j] == y[j],
        decreases a@.len() - i,
    {
        if !a[i].same_as(&b[i]) {
            assert(x[i as int] != y[i as int]);
            return false;
        }
        i = i + 1;
    }
    assert(x =~= y);
    true
}

impl Session {
    /// A session that remembers nothing.
    pub fn empty() -> (r: Self)
        ensures
            r.deep_view() == (SessionModel { selected: None, orgs_projects: Seq::empty() }),
    {
        let r = Session { selected: None, orgs_projects: Vec::new() };
        assert(r.deep_view().orgs_projects =~= Seq::<OrganizationWithProjectsModel>::empty());
        r
    }

    /// Whether selecting this context changes anything.
    pub fn differs(&self, context: &Option<SelectedContext>) -> (r: bool)
        ensures
            r == (self.deep_view().selected != context.deep_view()),
    {
        match (&self.selected, context) {
            (None, None) => false,
            (Some(a), Some(b)) => !a.same_as(b),
            _ => true,
        }
    }

    /// Selects a context. Says whether it is another one than before, which is
    /// when it has to be written down; watchers are told of it either way.
    pub fn set_selected_context(&mut self, context: Option<SelectedContext>) -> (changed: bool)
        ensures
            changed == (old(self).deep_view().selected != context.deep_view()),
            final(self).deep_view().selected == context.deep_view(),
            final(self).deep_view().orgs_projects == old(self).deep_view().orgs_projects,
    {
        let changed: bool = self.differs(&context);
        if changed {
            self.selected = context;
        }
        changed
    }

    /// Remembers the projects. Says whether they are others than before, which
    /// is when watchers are told.
    pub fn set_orgs_projects(&mut self, orgs_projects: Vec<OrganizationWithProjects>) -> (changed:
        bool)
        ensures
            changed == (old(self).deep_view().orgs_projects != orgs_projects.deep_view()),
            final(self).deep_view().orgs_projects == orgs_projects.deep_view(),
            final(self).deep_view().selected == old(self).deep_view().selected,
    {
        let changed: bool = !same_organizations(&self.orgs_projects, &orgs_projects);
        if changed {
            self.orgs_projects = orgs_projects;
        }
        changed
    }
}

// ---------------------------------------------------------------------------
// Keeping a control plane client fresh
// ---------------------------------------------------------------------------
/// Why the watch over a control plane client wakes up.
#[derive(Debug, Clone, Copy, PartialEq, Eq, Structural)]
pub enum AuthEvent {
    /// The watch begins.
    Started,
    /// The watched token, login or profile changed.
    Changed,
    /// Nothing can change any more.
    Closed,
}

/// What the watch then does.
#[derive(Debug, Clone, Copy, PartialEq, Eq, Structural)]
pub enum AuthAction {
    /// Rebuilds the client if the current token is another one.
    Refresh,
    /// Rebuilds the client if the token that was announced is another one.
    UseAnnounced,
    Wait,
    Stop,
}

/// What the watch over a client does. With a token to watch, the client is
/// refreshed at the start and follows every token that is announced. Without
/// one it follows the login, and leaves the client alone while there is none.
pub fn auth_watch_action(watches_token: bool, event: AuthEvent, login: LoginState) -> (r: AuthAction)
    ensures
        r == (match event {
            AuthEvent::Closed => AuthAction::Stop,
            AuthEvent::Started => if watches_token || login != LoginState::Missing {
                AuthAction::Refresh
            } else {
                AuthAction::Wait
            },
            AuthEvent::Changed => if watches_token {
                AuthAction::UseAnnounced
            } else if login != LoginState::Missing {
                AuthAction::Refresh
            } else {
                AuthAction::Wait
            },
        }),
{
    match event {
        AuthEvent::Closed => AuthAction::Stop,
        AuthEvent::Started => {
            if watches_token || login != LoginState::Missing {
                AuthAction::Refresh
            } else {
                AuthAction::Wait
            }
        },
        AuthEvent::Changed => {
            if watches_token {
                AuthAction::UseAnnounced
            } else if login != LoginState::Missing {
                AuthAction::Refresh
            } else {
                AuthAction::Wait
            }
        },
    }
}

} // verus!

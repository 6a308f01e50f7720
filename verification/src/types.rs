use vstd::prelude::*;

verus! {

/// The HTTP status of a successful request.
pub const STATUS_OK: u16 = 200;

/// Where a request the page sent stands.
pub enum FetchState<T> {
    /// Sent, or about to be sent, with no answer yet.
    Waiting,
    /// Answered with a value.
    Done(T),
    /// Failed, with the error's text where there is one.
    Failed(Option<String>),
}

/// The mathematical value of a `FetchState`.
pub enum FetchStateView<V> {
    Waiting,
    Done(V),
    Failed(Option<Seq<char>>),
}

impl<T: View> View for FetchState<T> {
    type V = FetchStateView<T::V>;

    open spec fn view(&self) -> FetchStateView<T::V> {
        match self {
            FetchState::Waiting => FetchStateView::Waiting,
            FetchState::Done(t) => FetchStateView::Done(t@),
            FetchState::Failed(e) => FetchStateView::Failed(e.deep_view()),
        }
    }
}

/// Who the signed-in user is to the server.
#[derive(PartialEq, Eq, Structural, Clone, Copy, Debug)]
pub enum AuthLevel {
    Guest,
    User,
    Admin,
}

/// What the server says of the signed-in user.
pub struct AuthDetails {
    pub auth_level: AuthLevel,
    pub picture: Option<String>,
    pub first_name: Option<String>,
    pub last_name: Option<String>,
}

/// The mathematical value of an `AuthDetails`.
pub struct AuthDetailsView {
    pub auth_level: AuthLevel,
    pub picture: Option<Seq<char>>,
    pub first_name: Option<Seq<char>>,
    pub last_name: Option<Seq<char>>,
}

impl View for AuthDetails {
    type V = AuthDetailsView;

    open spec fn view(&self) -> AuthDetailsView {
        AuthDetailsView {
            auth_level: self.auth_level,
            picture: self.picture.deep_view(),
            first_name: self.first_name.deep_view(),
            last_name: self.last_name.deep_view(),
        }
    }
}

/// The pages of the application.
#[derive(Clone, Debug)]
pub enum AppRoute {
    Login,
    Home,
    Search,
    SearchTerm { term: String },
    ClubForm,
    Details { id: i64 },
    NotFound,
}

/// Copies an optional string.
pub fn clone_opt(s: &Option<String>) -> (r: Option<String>)
    ensures
        r.deep_view() == s.deep_view(),
{
    match s {
        Some(v) => Some(v.clone()),
        None => None,
    }
}

} // verus!

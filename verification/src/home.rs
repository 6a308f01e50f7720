//! The home page: it fetches who the user is, then shows the page that the
//! route names, or sends the user to log in.
use vstd::prelude::*;
use crate::types::{AppRoute, AuthDetails, AuthDetailsView, AuthLevel, FetchState, FetchStateView, STATUS_OK, clone_opt};

verus! {

/// Where the page asks the server who the user is.
pub const AUTH_DETAILS_URL: &'static str = "/api/auth/details";
/// The failure reported when the server knows the user only as a guest.
pub const GUEST_REFUSED: &'static str = "Guests must log in";
/// Opens the failure reported for an answer whose status is not OK.
pub const WEIRD_STATUS_OPEN: &'static str = "Weird status code received: ";
/// Separates the first and the last name in the user's name.
pub const NAME_SEPARATOR: &'static str = " ";

/// The messages the page handles.
pub enum Msg {
    FetchUserInfo,
    ReceieveUserInfo(AuthDetails),
    FailToReceiveUserInfo(Option<String>),
}

/// The properties of the page: the route it was reached by.
pub struct Props {
    pub route: AppRoute,
}

/// The state of the home page.
pub struct Home {
    /// Whether the request for the user's details is under way.
    pub fetch_task: bool,
    pub fetch_state: FetchState<AuthDetails>,
    pub details: Option<AuthDetails>,
    pub props: Props,
}

/// The mathematical value of a route.
pub enum AppRouteView {
    Login,
    Home,
    Search,
    SearchTerm { term: Seq<char> },
    ClubForm,
    Details { id: i64 },
    NotFound,
}

impl View for AppRoute {
    type V = AppRouteView;

    open spec fn view(&self) -> AppRouteView {
        match self {
            AppRoute::Login => AppRouteView::Login,
            AppRoute::Home => AppRouteView::Home,
            AppRoute::Search => AppRouteView::Search,
            AppRoute::SearchTerm { term } => AppRouteView::SearchTerm { term: term@ },
            AppRoute::ClubForm => AppRouteView::ClubForm,
            AppRoute::Details { id } => AppRouteView::Details { id: *id },
            AppRoute::NotFound => AppRouteView::NotFound,
        }
    }
}

/// The mathematical value of the home page's state.
pub struct HomeView {
    pub fetch_task: bool,
    pub fetch_state: FetchStateView<AuthDetailsView>,
    pub details: Option<AuthDetailsView>,
    pub route: AppRouteView,
}

impl View for Home {
    type V = HomeView;

    open spec fn view(&self) -> HomeView {
        HomeView {
            fetch_task: self.fetch_task,
            fetch_state: self.fetch_state@,
            details: match self.details {
                Some(d) => Some(d@),
                None => None,
            },
            route: self.props.route@,
        }
    }
}

/// What the page asks the browser side to do after a message.
pub enum HomeCommand {
    Nothing,
    /// Ask the server at `AUTH_DETAILS_URL` who the user is, and report how
    /// the sending went.
    FetchDetails,
}

/// What the body of the page shows under the toolbar.
pub enum HomeContent {
    ClubView,
    SearchBar(Option<String>),
    NewClubPage,
    DetailsPage(i64),
}

/// What the page draws.
pub enum HomePage {
    /// The user's details are still awaited.
    Waiting,
    /// The toolbar with the user's picture and name, then the route's page.
    Loaded { pfp_url: String, username: String, content: HomeContent },
    /// The details could not be had: the user is sent to log in.
    RedirectToLogin,
}

/// The routes that the home page draws a page for.
pub open spec fn route_has_page(route: AppRouteView) -> bool {
    match route {
        AppRouteView::Home => true,
        AppRouteView::Search => true,
        AppRouteView::SearchTerm { .. } => true,
        AppRouteView::ClubForm => true,
        AppRouteView::Details { .. } => true,
        _ => false,
    }
}

/// The page can be drawn: once details have arrived they hold a picture and
/// both names, and the route is one the home page has a page for.
pub open spec fn can_draw(v: HomeView) -> bool {
    v.fetch_state matches FetchStateView::Done(d) ==> {
        &&& d.picture is Some
        &&& d.first_name is Some
        &&& d.last_name is Some
        &&& route_has_page(v.route)
    }
}

/// What the answer to the request for the user's details comes to: the
/// details to let the user in with, or the text of the failure.
pub open spec fn response_outcome(
    status: u16,
    status_text: Seq<char>,
    body: Result<AuthDetailsView, Seq<char>>,
) -> Result<AuthDetailsView, Seq<char>> {
    if status == STATUS_OK {
        match body {
            Ok(d) => if d.auth_level == AuthLevel::Guest {
                Err(GUEST_REFUSED@)
            } else {
                Ok(d)
            },
            Err(e) => Err(e),
        }
    } else {
        Err(WEIRD_STATUS_OPEN@ + status_text)
    }
}

/// The view of a body as the browser side decoded it.
pub open spec fn body_view(body: Result<AuthDetails, String>) -> Result<AuthDetailsView, Seq<char>> {
    match body {
        Ok(d) => Ok(d@),
        Err(e) => Err(e@),
    }
}

/// The message that the answer to the request for the user's details gives,
/// from its status, the status as the page writes it, and its decoded body.
pub fn auth_response_msg(status: u16, status_text: String, body: Result<AuthDetails, String>) -> (r: Msg)
    ensures
        match response_outcome(status, status_text@, body_view(body)) {
            Ok(d) => r matches Msg::ReceieveUserInfo(got) && got@ == d,
            Err(e) => r matches Msg::FailToReceiveUserInfo(Some(m)) && m@ == e,
        },
{
    if status == STATUS_OK {
        match body {
            Ok(deets) => match deets.auth_level {
                AuthLevel::Guest => Msg::FailToReceiveUserInfo(Some(String::from_str(GUEST_REFUSED))),
                _ => Msg::ReceieveUserInfo(deets),
            },
            Err(err) => Msg::FailToReceiveUserInfo(Some(err)),
        }
    } else {
        let mut text = String::from_str(WEIRD_STATUS_OPEN);
        text.append(status_text.as_str());
        Msg::FailToReceiveUserInfo(Some(text))
    }
}

impl Home {
    /// The page as it is first drawn: waiting, with nothing sent yet.
    pub fn create(props: Props) -> (r: Home)
        ensures
            r@ == (HomeView {
                fetch_task: false,
                fetch_state: FetchStateView::Waiting,
                details: None,
                route: props.route@,
            }),
    {
        Home { fetch_task: false, details: None, fetch_state: FetchState::Waiting, props }
    }

    /// Handles one message: changes the page's state and says what the
    /// browser side is to do. The page is always drawn again.
    pub fn update(&mut self, msg: Msg) -> (r: (bool, HomeCommand))
        ensures
            r.0,
            match msg {
                Msg::FetchUserInfo => {
                    &&& final(self)@ == (HomeView { fetch_state: FetchStateView::Waiting, ..old(self)@ })
                    &&& r.1 is FetchDetails
                },
                Msg::ReceieveUserInfo(data) => {
                    &&& final(self)@ == (HomeView {
                        fetch_state: FetchStateView::Done(data@),
                        fetch_task: false,
                        ..old(self)@
                    })
                    &&& r.1 is Nothing
                },
                Msg::FailToReceiveUserInfo(e) => {
                    &&& final(self)@ == (HomeView {
                        fetch_state: FetchStateView::Failed(e.deep_view()),
                        fetch_task: false,
                        ..old(self)@
                    })
                    &&& r.1 is Nothing
                },
            },
    {
        match msg {
            Msg::FetchUserInfo => {
                self.fetch_state = FetchState::Waiting;
                (true, HomeCommand::FetchDetails)
            },
            Msg::ReceieveUserInfo(data) => {
                self.fetch_state = FetchState::Done(data);
                self.fetch_task = false;
                (true, HomeCommand::Nothing)
            },
            Msg::FailToReceiveUserInfo(maybe_error) => {
                self.fetch_task = false;
                self.fetch_state = FetchState::Failed(maybe_error);
                (true, HomeCommand::Nothing)
            },
        }
    }

    /// Records how sending the request went: under way, or (refused) nothing.
    pub fn fetch_sent(&mut self, sent: bool)
        ensures
            sent ==> final(self)@ == (HomeView { fetch_task: true, ..old(self)@ }),
            !sent ==> final(self)@ == old(self)@,
    {
        if sent {
            self.fetch_task = true;
        }
    }

    /// Takes new properties; the page is always drawn again.
    pub fn change(&mut self, props: Props) -> (r: bool)
        ensures
            r,
            final(self)@ == (HomeView { route: props.route@, ..old(self)@ }),
    {
        self.props = props;
        true
    }

    /// The message to send once the page has been drawn: the first drawing
    /// asks for the user's details.
    pub fn rendered(&self, first: bool) -> (r: Option<Msg>)
        ensures
            first ==> r matches Some(Msg::FetchUserInfo),
            !first ==> r is None,
    {
        if first {
            Some(Msg::FetchUserInfo)
        } else {
            None
        }
    }

    /// What the page draws.
    pub fn normal_view(&self) -> (r: HomePage)
        requires
            can_draw(self@),
        ensures
            self@.fetch_state is Waiting ==> r is Waiting,
            self@.fetch_state is Failed ==> r is RedirectToLogin,
            self@.fetch_state matches FetchStateView::Done(d) ==> {
                &&& r matches HomePage::Loaded { pfp_url, username, content }
                &&& pfp_url@ == d.picture.unwrap()
                &&& username@ == d.first_name.unwrap() + NAME_SEPARATOR@ + d.last_name.unwrap()
                &&& match self@.route {
                    AppRouteView::Home => content is ClubView,
                    AppRouteView::Search => content matches HomeContent::SearchBar(None),
                    AppRouteView::SearchTerm { term } =>
                        content matches HomeContent::SearchBar(Some(t)) && t@ == term,
                    AppRouteView::ClubForm => content is NewClubPage,
                    AppRouteView::Details { id } =>
                        content matches HomeContent::DetailsPage(i) && i == id,
                    _ => false,
                }
            },
    {
        match &self.fetch_state {
            FetchState::Waiting => HomePage::Waiting,
            FetchState::Done(details) => {
                let pfp_url = clone_opt(&details.picture).unwrap();
                let mut username = clone_opt(&details.first_name).unwrap();
                username.append(NAME_SEPARATOR);
                username.append(clone_opt(&details.last_name).unwrap().as_str());
                let content = match &self.props.route {
                    AppRoute::Home => HomeContent::ClubView,
                    AppRoute::Search => HomeContent::SearchBar(None),
                    AppRoute::SearchTerm { term } => HomeContent::SearchBar(Some(term.clone())),
                    AppRoute::ClubForm => HomeContent::NewClubPage,
                    AppRoute::Details { id } => HomeContent::DetailsPage(*id),
                    _ => {
                        assert(false);
                        HomeContent::ClubView
                    },
                };
                HomePage::Loaded { pfp_url, username, content }
            },
            FetchState::Failed(_) => HomePage::RedirectToLogin,
        }
    }
}

/// A guest is never let in, and nobody is let in on an answer whose status
/// is not OK: a successful outcome has status OK and a level above guest.
pub proof fn lemma_guest_never_admitted(
    status: u16,
    status_text: Seq<char>,
    body: Result<AuthDetailsView, Seq<char>>,
)
    ensures
        response_outcome(status, status_text, body) matches Ok(d) ==> {
            &&& status == STATUS_OK
            &&& d.auth_level != AuthLevel::Guest
            &&& body == Ok::<AuthDetailsView, Seq<char>>(d)
        },
{
}

} // verus!

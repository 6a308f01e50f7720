use clientapp::home::{auth_response_msg, Home, HomeCommand, HomeContent, HomePage, Msg, Props};
use clientapp::notfound::{NotFound, Props as NotFoundProps};
use clientapp::types::{AppRoute, AuthDetails, AuthLevel, FetchState};

fn details(level: AuthLevel) -> AuthDetails {
    AuthDetails {
        auth_level: level,
        picture: Some("pic.png".to_string()),
        first_name: Some("Ada".to_string()),
        last_name: Some("Lovelace".to_string()),
    }
}

#[test]
fn first_render_fetches_details() {
    let mut h = Home::create(Props { route: AppRoute::Home });
    assert!(matches!(h.rendered(true), Some(Msg::FetchUserInfo)));
    assert!(h.rendered(false).is_none());
    let (render, cmd) = h.update(Msg::FetchUserInfo);
    assert!(render);
    assert!(matches!(cmd, HomeCommand::FetchDetails));
    h.fetch_sent(true);
    assert!(h.fetch_task);
    assert!(matches!(h.normal_view(), HomePage::Waiting));
}

#[test]
fn guest_is_refused() {
    match auth_response_msg(200, "200 OK".to_string(), Ok(details(AuthLevel::Guest))) {
        Msg::FailToReceiveUserInfo(Some(m)) => assert_eq!(m, "Guests must log in"),
        _ => panic!("guest let in"),
    }
}

#[test]
fn user_is_admitted() {
    assert!(matches!(
        auth_response_msg(200, "200 OK".to_string(), Ok(details(AuthLevel::User))),
        Msg::ReceieveUserInfo(d) if d.auth_level == AuthLevel::User
    ));
}

#[test]
fn bad_body_and_bad_status_fail() {
    match auth_response_msg(200, "200 OK".to_string(), Err("bad json".to_string())) {
        Msg::FailToReceiveUserInfo(Some(m)) => assert_eq!(m, "bad json"),
        _ => panic!(),
    }
    match auth_response_msg(404, "404 Not Found".to_string(), Ok(details(AuthLevel::Admin))) {
        Msg::FailToReceiveUserInfo(Some(m)) => assert_eq!(m, "Weird status code received: 404 Not Found"),
        _ => panic!(),
    }
}

#[test]
fn loaded_page_shows_user_and_route() {
    let mut h = Home::create(Props { route: AppRoute::SearchTerm { term: "chess".to_string() } });
    h.update(Msg::ReceieveUserInfo(details(AuthLevel::User)));
    assert!(!h.fetch_task);
    match h.normal_view() {
        HomePage::Loaded { pfp_url, username, content } => {
            assert_eq!(pfp_url, "pic.png");
            assert_eq!(username, "Ada Lovelace");
            assert!(matches!(content, HomeContent::SearchBar(Some(t)) if t == "chess"));
        }
        _ => panic!(),
    }
    assert!(h.change(Props { route: AppRoute::Details { id: 7 } }));
    assert!(matches!(h.normal_view(), HomePage::Loaded { content: HomeContent::DetailsPage(7), .. }));
    h.change(Props { route: AppRoute::ClubForm });
    assert!(matches!(h.normal_view(), HomePage::Loaded { content: HomeContent::NewClubPage, .. }));
    h.change(Props { route: AppRoute::Home });
    assert!(matches!(h.normal_view(), HomePage::Loaded { content: HomeContent::ClubView, .. }));
    h.change(Props { route: AppRoute::Search });
    assert!(matches!(h.normal_view(), HomePage::Loaded { content: HomeContent::SearchBar(None), .. }));
}

#[test]
fn failure_redirects_to_login() {
    let mut h = Home::create(Props { route: AppRoute::Home });
    h.update(Msg::FailToReceiveUserInfo(Some("nope".to_string())));
    assert!(matches!(&h.fetch_state, FetchState::Failed(Some(m)) if m == "nope"));
    assert!(matches!(h.normal_view(), HomePage::RedirectToLogin));
    h.update(Msg::FailToReceiveUserInfo(None));
    assert!(matches!(h.fetch_state, FetchState::Failed(None)));
}

#[test]
fn not_found_page() {
    let mut n = NotFound::create(NotFoundProps { route: Some("/x".to_string()) });
    assert_eq!(NotFound::get_random_404_msg(), "Are you lost?");
    assert!(!n.update(()));
    assert!(!n.change(NotFoundProps { route: None }));
    assert_eq!(n.props.route.as_deref(), Some("/x"));
}

use clientapp::pg_new_club::{
    post_response_msg, ClubPost, Command, FormError, LogoReading, Msg, NewClubPage, Props,
    SubmitStatus, WhichTextField,
};
use clientapp::types::FetchState;

fn no_logo() -> LogoReading {
    LogoReading::NoElement
}

fn page() -> NewClubPage {
    NewClubPage::create(Props {})
}

fn type_into(p: &mut NewClubPage, which: WhichTextField, text: &str) -> Command {
    let (render, cmd) = p.update(Msg::UpdateInfoState(which, text.to_string()), no_logo());
    assert!(render);
    cmd
}

#[test]
fn create_starts_empty() {
    let p = page();
    assert!(p.club_name_field_contents.is_none());
    assert!(p.club_body_field_contents.is_none());
    assert!(p.long_club_description_contents.is_none());
    assert!(p.form_errors.is_none());
    assert!(!p.post_task);
    assert!(matches!(p.post_task_state, FetchState::Waiting));
    assert_eq!(p.submit_status(), SubmitStatus::ResetButton);
}

#[test]
fn form_error_unwrap_gives_text() {
    assert_eq!(FormError::ClubName("a".to_string()).unwrap(), "a");
    assert_eq!(FormError::ClubDescription("b".to_string()).unwrap(), "b");
    assert_eq!(FormError::ClubLogo("c".to_string()).unwrap(), "c");
}

#[test]
fn typing_sets_and_clears_fields() {
    let mut p = page();
    assert!(matches!(type_into(&mut p, WhichTextField::TheNameOne, "Chess"), Command::Nothing));
    assert_eq!(p.club_name_field_contents.as_deref(), Some("Chess"));
    type_into(&mut p, WhichTextField::TheNameOne, "");
    assert!(p.club_name_field_contents.is_none());
    type_into(&mut p, WhichTextField::TheBodyOne, "short");
    assert_eq!(p.club_body_field_contents.as_deref(), Some("short"));
}

#[test]
fn description_gives_sanitized_markdown_preview() {
    let mut p = page();
    match type_into(&mut p, WhichTextField::TheLongDescriptionOne, "# Hi") {
        Command::SetMarkdownPreview(html) => assert_eq!(html, "<h1>Hi</h1>\n"),
        _ => panic!("expected a preview"),
    }
    match type_into(&mut p, WhichTextField::TheLongDescriptionOne, "**b**\n\n<script>alert(1)</script>") {
        Command::SetMarkdownPreview(html) => {
            assert!(!html.contains("script"));
            assert!(html.contains("<strong>b</strong>"));
        }
        _ => panic!("expected a preview"),
    }
    match type_into(&mut p, WhichTextField::TheLongDescriptionOne, "") {
        Command::SetMarkdownPreview(html) => assert_eq!(html, ""),
        _ => panic!("expected a preview"),
    }
    assert!(p.long_club_description_contents.is_none());
}

#[test]
fn validate_empty_form_reports_name_and_description() {
    let mut p = page();
    let (render, cmd) = p.update(Msg::ValidateForm, no_logo());
    assert!(render);
    assert!(matches!(cmd, Command::Nothing));
    let errors = p.form_errors.clone().unwrap();
    assert_eq!(errors.len(), 2);
    assert_eq!(errors[0].clone().unwrap(), "Club name cannot be empty.");
    assert_eq!(errors[1].clone().unwrap(), "Club description cannot be empty.");
    assert_eq!(p.get_form_errors(FormError::ClubName(String::new())), vec!["Club name cannot be empty.".to_string()]);
    assert_eq!(
        p.get_form_errors(FormError::ClubDescription(String::new())),
        vec!["Club description cannot be empty.".to_string()]
    );
    assert!(p.get_form_errors(FormError::ClubLogo(String::new())).is_empty());
}

#[test]
fn validate_logo_empty_and_too_large() {
    let mut p = page();
    type_into(&mut p, WhichTextField::TheNameOne, "Chess");
    type_into(&mut p, WhichTextField::TheLongDescriptionOne, "We play chess.");
    p.update(Msg::ValidateForm, LogoReading::Present { byte_len: 0, megabytes: "0".to_string() });
    assert_eq!(p.get_form_errors(FormError::ClubLogo(String::new())), vec!["Club logo cannot be empty.".to_string()]);
    p.update(Msg::ValidateForm, LogoReading::Present { byte_len: 1500000, megabytes: "1.5".to_string() });
    assert_eq!(
        p.get_form_errors(FormError::ClubLogo(String::new())),
        vec!["Club logo is too large. (1.5 MB > 1MB)".to_string()]
    );
    assert!(p.get_form_errors(FormError::ClubName(String::new())).is_empty());
}

#[test]
fn validate_logo_at_limit_is_accepted() {
    let mut p = page();
    type_into(&mut p, WhichTextField::TheNameOne, "Chess");
    type_into(&mut p, WhichTextField::TheLongDescriptionOne, "We play chess.");
    let (_, cmd) = p.update(Msg::ValidateForm, LogoReading::Present { byte_len: 1000000, megabytes: "1".to_string() });
    assert!(matches!(cmd, Command::SendMessage(Msg::PostClub)));
    assert!(p.form_errors.is_none());
}

#[test]
fn valid_form_keeps_earlier_errors_and_submits() {
    let mut p = page();
    p.update(Msg::ValidateForm, no_logo());
    type_into(&mut p, WhichTextField::TheNameOne, "Chess");
    type_into(&mut p, WhichTextField::TheLongDescriptionOne, "d");
    let (_, cmd) = p.update(Msg::ValidateForm, no_logo());
    assert!(matches!(cmd, Command::SendMessage(Msg::PostClub)));
    assert_eq!(p.form_errors.as_ref().map(|v| v.len()), Some(2));
}

#[test]
fn post_club_sends_name_and_cleaned_body() {
    let mut p = page();
    type_into(&mut p, WhichTextField::TheNameOne, "Chess");
    type_into(&mut p, WhichTextField::TheLongDescriptionOne, "hi <script>x</script><b>there</b>");
    let (_, cmd) = p.update(Msg::PostClub, no_logo());
    match cmd {
        Command::SendPost(ClubPost { name, body }) => {
            assert_eq!(name, "Chess");
            assert_eq!(body, "hi <b>there</b>");
        }
        _ => panic!("expected a post"),
    }
    assert!(matches!(p.post_task_state, FetchState::Waiting));
}

#[test]
fn post_club_without_name_sends_nothing() {
    let mut p = page();
    type_into(&mut p, WhichTextField::TheLongDescriptionOne, "d");
    let (_, cmd) = p.update(Msg::PostClub, no_logo());
    assert!(matches!(cmd, Command::Nothing));
}

#[test]
fn post_outcomes_and_submit_status() {
    let mut p = page();
    p.post_sent(Ok(()));
    assert!(p.post_task);
    assert_eq!(p.submit_status(), SubmitStatus::Submitting);
    p.post_sent(Err("offline".to_string()));
    assert!(matches!(&p.post_task_state, FetchState::Failed(Some(m)) if m == "offline"));
    assert_eq!(p.submit_status(), SubmitStatus::Failed);
    p.post_task_state = FetchState::Done(());
    assert_eq!(p.submit_status(), SubmitStatus::Done);
}

#[test]
fn post_response_decides_done_or_ignore() {
    assert!(matches!(post_response_msg(200), Msg::PostClubDone(20202)));
    assert!(matches!(post_response_msg(422), Msg::Ignore));
    assert!(matches!(post_response_msg(500), Msg::Ignore));
}

#[test]
fn post_done_resets_the_form() {
    let mut p = page();
    type_into(&mut p, WhichTextField::TheNameOne, "Chess");
    p.update(Msg::ValidateForm, no_logo());
    p.post_sent(Ok(()));
    let (_, cmd) = p.update(Msg::PostClubDone(20202), no_logo());
    assert!(matches!(cmd, Command::ClearInputs));
    assert!(p.club_name_field_contents.is_none());
    assert!(p.form_errors.is_none());
    assert!(!p.post_task);
}

#[test]
fn logo_bytes_decoded_or_reported() {
    let mut p = page();
    let (_, cmd) = p.update(Msg::UpdateClubLogoState(b"data:image/png;base64,AA==".to_vec()), no_logo());
    match cmd {
        Command::SetLogoSrc(src) => assert_eq!(src, "data:image/png;base64,AA=="),
        _ => panic!("expected a logo source"),
    }
    assert!(p.form_errors.is_none());
    let (_, cmd) = p.update(Msg::UpdateClubLogoState(vec![0xff, 0xfe]), no_logo());
    assert!(matches!(cmd, Command::Nothing));
    assert_eq!(p.get_form_errors(FormError::ClubLogo(String::new())), vec!["Invalid image.".to_string()]);
    p.update(Msg::UpdateClubLogoState(vec![0xc0]), no_logo());
    assert_eq!(p.form_errors.as_ref().map(|v| v.len()), Some(2));
}

#[test]
fn reset_asks_first_then_clears() {
    let mut p = page();
    type_into(&mut p, WhichTextField::TheNameOne, "Chess");
    let (_, cmd) = p.update(Msg::Reset, no_logo());
    assert!(matches!(cmd, Command::ConfirmReset));
    assert!(matches!(p.confirm_reset(false), Command::Nothing));
    assert_eq!(p.club_name_field_contents.as_deref(), Some("Chess"));
    assert!(matches!(p.confirm_reset(true), Command::ClearInputs));
    assert!(p.club_name_field_contents.is_none());
}

#[test]
fn reset_twice_same_as_once() {
    let mut p = page();
    type_into(&mut p, WhichTextField::TheNameOne, "Chess");
    p.add_form_error(FormError::ClubLogo("x".to_string()));
    p.reset();
    let once = (p.club_name_field_contents.clone(), p.form_errors.is_none(), p.post_task);
    p.reset();
    assert_eq!(once, (p.club_name_field_contents.clone(), p.form_errors.is_none(), p.post_task));
}

#[test]
fn other_messages_change_nothing() {
    let mut p = page();
    assert!(matches!(p.update(Msg::Ignore, no_logo()).1, Command::Nothing));
    assert!(matches!(p.update(Msg::PostClubLogo(3), no_logo()).1, Command::Nothing));
    assert!(matches!(p.update(Msg::ReadLogo, no_logo()).1, Command::ReadLogoFile));
    assert!(p.change(Props {}));
    assert!(p.form_errors.is_none());
}

#[test]
fn add_form_error_appends_in_order() {
    let mut p = page();
    p.add_form_error(FormError::ClubName("one".to_string()));
    p.add_form_error(FormError::ClubLogo("two".to_string()));
    p.add_form_error(FormError::ClubName("three".to_string()));
    assert_eq!(
        p.get_form_errors(FormError::ClubName(String::new())),
        vec!["one".to_string(), "three".to_string()]
    );
    let name = p.get_form_errors(FormError::ClubName(String::new())).len();
    let desc = p.get_form_errors(FormError::ClubDescription(String::new())).len();
    let logo = p.get_form_errors(FormError::ClubLogo(String::new())).len();
    assert_eq!(name + desc + logo, 3);
}

#[test]
fn form_error_same_field() {
    let a = FormError::ClubName("a".to_string());
    assert!(a.same_field(&FormError::ClubName("b".to_string())));
    assert!(!a.same_field(&FormError::ClubLogo("a".to_string())));
}

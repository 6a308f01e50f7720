//! The "create a new club" form: what it holds, how each message changes it,
//! and what it asks the browser side to do.
use vstd::prelude::*;
use vstd::utf8::{valid_utf8, decode_utf8};
use crate::types::{FetchState, FetchStateView, STATUS_OK, clone_opt};
use crate::markup::{
    runs_markdown, runs_html, simple_paragraph, markdown_plain, is_letter,
    ammonia_clean, comrak_markdown_html, sanitize_html, render_markdown, decode_utf8_text, Run,
    paragraphs_markdown, paragraphs_html, simple_paragraphs, html_plain, is_ascii_bytes, ascii_chars,
    lemma_simple_paragraphs_are_html_plain, simple_run_at,
};

verus! {

/// Shown when the form is sent without a club name.
pub const NAME_EMPTY: &'static str = "Club name cannot be empty.";
/// Shown when the form is sent without a description.
pub const DESCRIPTION_EMPTY: &'static str = "Club description cannot be empty.";
/// Shown when the form is sent without a logo.
pub const LOGO_EMPTY: &'static str = "Club logo cannot be empty.";
/// Opens the message shown for a logo over the size limit.
pub const LOGO_TOO_LARGE_OPEN: &'static str = "Club logo is too large. (";
/// Closes the message shown for a logo over the size limit.
pub const LOGO_TOO_LARGE_CLOSE: &'static str = " MB > 1MB)";
/// Shown when the chosen logo file is not text.
pub const LOGO_INVALID: &'static str = "Invalid image.";
/// The largest logo, in bytes of its data URL, that the form accepts.
pub const LOGO_MAX_BYTES: usize = 1000000;
/// The identifier the page reports once the server has taken a new club.
pub const POSTED_CLUB_ID: i64 = 20202;

/// The properties of the page: it takes none.
#[derive(Debug, Clone)]
pub struct Props {}

/// The three text fields of the form.
pub enum WhichTextField {
    TheNameOne,
    TheBodyOne,
    TheLongDescriptionOne,
}

/// Why a logo file could not be read.
#[derive(Debug)]
pub enum ReadImgResult {
    TooBig,
    EmptyFileList,
}

/// The messages the page handles.
pub enum Msg {
    Ignore,
    UpdateInfoState(WhichTextField, String),
    UpdateClubLogoState(Vec<u8>),
    ValidateForm,
    PostClubLogo(i64),
    ReadLogo,
    PostClub,
    PostClubDone(i64),
    Reset,
}

/// What the page element that previews the logo holds when the form is
/// checked: no such element, or a source of `byte_len` bytes, which is
/// `megabytes` millions of bytes as the page writes that number.
pub enum LogoReading {
    NoElement,
    Present { byte_len: usize, megabytes: String },
}

/// The club that the form sends to the server.
pub struct ClubPost {
    pub name: String,
    pub body: String,
}

/// What the page asks the browser side to do after a message.
pub enum Command {
    /// Nothing.
    Nothing,
    /// Show this HTML as the preview of the description.
    SetMarkdownPreview(String),
    /// Send this message to the page itself.
    SendMessage(Msg),
    /// Post this club to the server, and report how the sending went.
    SendPost(ClubPost),
    /// Show this source as the logo.
    SetLogoSrc(String),
    /// Read the chosen logo file.
    ReadLogoFile,
    /// Ask the user to confirm that the form be cleared, and report the answer.
    ConfirmReset,
    /// Empty the input elements and the previews.
    ClearInputs,
}

/// What the submit area of the form shows.
#[derive(PartialEq, Eq, Structural, Clone, Copy, Debug)]
pub enum SubmitStatus {
    ResetButton,
    Submitting,
    Done,
    Failed,
}

/// A problem found in the form, with the text shown for it.
#[derive(Clone)]
pub enum FormError {
    ClubName(String),
    ClubDescription(String),
    ClubLogo(String),
}

/// The mathematical value of a `FormError`.
pub enum FormErrorView {
    ClubName(Seq<char>),
    ClubDescription(Seq<char>),
    ClubLogo(Seq<char>),
}

impl View for FormError {
    type V = FormErrorView;

    open spec fn view(&self) -> FormErrorView {
        match self {
            FormError::ClubName(s) => FormErrorView::ClubName(s@),
            FormError::ClubDescription(s) => FormErrorView::ClubDescription(s@),
            FormError::ClubLogo(s) => FormErrorView::ClubLogo(s@),
        }
    }
}

impl FormErrorView {
    /// The text shown for the problem.
    pub open spec fn message(self) -> Seq<char> {
        match self {
            FormErrorView::ClubName(s) => s,
            FormErrorView::ClubDescription(s) => s,
            FormErrorView::ClubLogo(s) => s,
        }
    }

    /// Whether two problems concern the same field.
    pub open spec fn same_field(self, other: FormErrorView) -> bool {
        match (self, other) {
            (FormErrorView::ClubName(_), FormErrorView::ClubName(_)) => true,
            (FormErrorView::ClubDescription(_), FormErrorView::ClubDescription(_)) => true,
            (FormErrorView::ClubLogo(_), FormErrorView::ClubLogo(_)) => true,
            _ => false,
        }
    }
}

/// The views of a list of problems.
pub open spec fn errors_view(errors: Seq<FormError>) -> Seq<FormErrorView> {
    errors.map_values(|e: FormError| e@)
}

/// The texts of the problems in `errors` that concern the same field as
/// `field`, in the order in which they were found.
pub open spec fn messages_for_field(errors: Seq<FormErrorView>, field: FormErrorView) -> Seq<Seq<char>>
    decreases errors.len(),
{
    if errors.len() == 0 {
        Seq::empty()
    } else {
        let earlier = messages_for_field(errors.drop_last(), field);
        if errors.last().same_field(field) {
            earlier.push(errors.last().message())
        } else {
            earlier
        }
    }
}

impl FormError {
    /// The text shown for the problem.
    pub fn unwrap(self) -> (r: String)
        ensures
            r@ == self@.message(),
    {
        match self {
            Self::ClubName(string) => string,
            Self::ClubDescription(string) => string,
            Self::ClubLogo(string) => string,
        }
    }

    /// Whether two problems concern the same field.
    pub fn same_field(&self, other: &FormError) -> (r: bool)
        ensures
            r == self@.same_field(other@),
    {
        match (self, other) {
            (FormError::ClubName(_), FormError::ClubName(_)) => true,
            (FormError::ClubDescription(_), FormError::ClubDescription(_)) => true,
            (FormError::ClubLogo(_), FormError::ClubLogo(_)) => true,
            _ => false,
        }
    }
}

/// The state of the form, apart from the page elements it is drawn into.
pub struct NewClubPage {
    pub club_name_field_contents: Option<String>,
    pub club_body_field_contents: Option<String>,
    pub long_club_description_contents: Option<String>,
    pub club_logo_preview_src: Option<String>,
    pub props: Props,
    /// Whether a request that posts the club is under way.
    pub post_task: bool,
    /// Whether a request that posts the logo is under way.
    pub post_logo_task: bool,
    pub post_task_state: FetchState<()>,
    pub post_logo_task_state: FetchState<()>,
    pub form_errors: Option<Vec<FormError>>,
}

/// The mathematical value of the form's state.
pub struct NewClubPageView {
    pub name: Option<Seq<char>>,
    pub body: Option<Seq<char>>,
    pub description: Option<Seq<char>>,
    pub logo_preview: Option<Seq<char>>,
    pub post_task: bool,
    pub post_logo_task: bool,
    pub post_state: FetchStateView<()>,
    pub post_logo_state: FetchStateView<()>,
    pub errors: Option<Seq<FormErrorView>>,
}

impl View for NewClubPage {
    type V = NewClubPageView;

    open spec fn view(&self) -> NewClubPageView {
        NewClubPageView {
            name: self.club_name_field_contents.deep_view(),
            body: self.club_body_field_contents.deep_view(),
            description: self.long_club_description_contents.deep_view(),
            logo_preview: self.club_logo_preview_src.deep_view(),
            post_task: self.post_task,
            post_logo_task: self.post_logo_task,
            post_state: self.post_task_state@,
            post_logo_state: self.post_logo_task_state@,
            errors: match self.form_errors {
                Some(v) => Some(errors_view(v@)),
                None => None,
            },
        }
    }
}

/// A text field's contents after the user typed `value`: nothing when empty.
pub open spec fn text_value(value: Seq<char>) -> Option<Seq<char>> {
    if value.len() > 0 {
        Some(value)
    } else {
        None
    }
}

/// The HTML preview of the description: its Markdown rendered, then
/// sanitized; nothing when there is no description.
pub open spec fn preview_html(description: Option<Seq<char>>) -> Seq<char> {
    match description {
        Some(md) => ammonia_clean(comrak_markdown_html(md)),
        None => Seq::empty(),
    }
}

/// The problem with the logo, if any.
pub open spec fn logo_error(logo: LogoReading) -> Option<FormErrorView> {
    match logo {
        LogoReading::NoElement => None,
        LogoReading::Present { byte_len, megabytes } => {
            if byte_len == 0 {
                Some(FormErrorView::ClubLogo(LOGO_EMPTY@))
            } else if byte_len > LOGO_MAX_BYTES {
                Some(FormErrorView::ClubLogo(LOGO_TOO_LARGE_OPEN@ + megabytes@ + LOGO_TOO_LARGE_CLOSE@))
            } else {
                None
            }
        },
    }
}

/// The problems found when the form is checked, in this order: the name,
/// the description, the logo.
pub open spec fn validation_errors(
    name: Option<Seq<char>>,
    description: Option<Seq<char>>,
    logo: LogoReading,
) -> Seq<FormErrorView> {
    let name_errors = if name is None {
        seq![FormErrorView::ClubName(NAME_EMPTY@)]
    } else {
        Seq::empty()
    };
    let description_errors = if description is None {
        seq![FormErrorView::ClubDescription(DESCRIPTION_EMPTY@)]
    } else {
        Seq::empty()
    };
    let logo_errors = match logo_error(logo) {
        Some(e) => seq![e],
        None => Seq::empty(),
    };
    name_errors + description_errors + logo_errors
}

/// How a message changes the form, and what the page asks for in turn.
pub open spec fn update_transition(
    pre: NewClubPageView,
    msg: Msg,
    logo: LogoReading,
    post: NewClubPageView,
    cmd: Command,
) -> bool {
    match msg {
        Msg::Ignore => post == pre && cmd is Nothing,
        Msg::PostClubLogo(_) => post == pre && cmd is Nothing,
        Msg::UpdateInfoState(which, value) => match which {
            WhichTextField::TheBodyOne => {
                &&& post == (NewClubPageView { body: text_value(value@), ..pre })
                &&& cmd is Nothing
            },
            WhichTextField::TheNameOne => {
                &&& post == (NewClubPageView { name: text_value(value@), ..pre })
                &&& cmd is Nothing
            },
            WhichTextField::TheLongDescriptionOne => {
                &&& post == (NewClubPageView { description: text_value(value@), ..pre })
                &&& cmd matches Command::SetMarkdownPreview(html)
                &&& html@ == preview_html(text_value(value@))
            },
        },
        Msg::ValidateForm => {
            let errors = validation_errors(pre.name, pre.description, logo);
            if errors.len() == 0 {
                post == pre && cmd matches Command::SendMessage(Msg::PostClub)
            } else {
                post == (NewClubPageView { errors: Some(errors), ..pre }) && cmd is Nothing
            }
        },
        Msg::PostClub => {
            &&& post == (NewClubPageView { post_state: FetchStateView::Waiting, ..pre })
            &&& match (pre.name, pre.description) {
                (Some(name), Some(description)) => {
                    &&& cmd matches Command::SendPost(p)
                    &&& p.name@ == name
                    &&& p.body@ == ammonia_clean(description)
                },
                _ => cmd is Nothing,
            }
        },
        Msg::PostClubDone(_) => post == reset_view(pre) && cmd is ClearInputs,
        Msg::UpdateClubLogoState(bytes) => {
            if valid_utf8(bytes@) {
                &&& post == pre
                &&& cmd matches Command::SetLogoSrc(src)
                &&& src@ == decode_utf8(bytes@)
            } else {
                &&& post == (NewClubPageView {
                    errors: with_error(pre.errors, FormErrorView::ClubLogo(LOGO_INVALID@)),
                    ..pre
                })
                &&& cmd is Nothing
            }
        },
        Msg::ReadLogo => post == pre && cmd is ReadLogoFile,
        Msg::Reset => post == pre && cmd is ConfirmReset,
    }
}

/// `html` shows the Markdown text `md` whole when `md` is simple paragraphs
/// separated by blank lines: one `<p>` element per paragraph, in order, with
/// its emphasis and strong emphasis kept.
pub open spec fn previews_paragraphs(md: Seq<char>, html: Seq<char>) -> bool {
    forall|ps: Seq<Seq<Run>>| #[trigger] paragraphs_markdown(ps) == md && simple_paragraphs(ps)
        ==> html == paragraphs_html(ps)
}

/// Typing a description of simple paragraphs previews all of it.
pub open spec fn preview_shows_description(msg: Msg, cmd: Command) -> bool {
    match msg {
        Msg::UpdateInfoState(WhichTextField::TheLongDescriptionOne, value) => value@.len() > 0 ==> {
            &&& cmd matches Command::SetMarkdownPreview(html)
            &&& previews_paragraphs(value@, html@)
        },
        _ => true,
    }
}

/// Posting a club whose description holds no markup sends the description
/// unchanged, every paragraph of it.
pub open spec fn post_keeps_plain_description(pre: NewClubPageView, msg: Msg, cmd: Command) -> bool {
    match (msg, pre.name, pre.description) {
        (Msg::PostClub, Some(name), Some(description)) => html_plain(description) ==> {
            &&& cmd matches Command::SendPost(p)
            &&& p.body@ == description
        },
        _ => true,
    }
}

/// A logo given as ASCII bytes (as every data URL is), of any length, is
/// shown with one character per byte, and no problem is recorded.
pub open spec fn ascii_logo_accepted(pre: NewClubPageView, msg: Msg, post: NewClubPageView, cmd: Command) -> bool {
    match msg {
        Msg::UpdateClubLogoState(bytes) => is_ascii_bytes(bytes@) ==> {
            &&& post == pre
            &&& cmd matches Command::SetLogoSrc(src)
            &&& src@ == ascii_chars(bytes@)
        },
        _ => true,
    }
}

/// The form as it is first drawn: every field empty, nothing sent, no problem.
pub open spec fn initial_view() -> NewClubPageView {
    NewClubPageView {
        name: None,
        body: None,
        description: None,
        logo_preview: None,
        post_task: false,
        post_logo_task: false,
        post_state: FetchStateView::Waiting,
        post_logo_state: FetchStateView::Waiting,
        errors: None,
    }
}

/// The form after a reset: the text fields emptied, the post forgotten, the
/// problems dropped; the logo preview and the logo request are kept.
pub open spec fn reset_view(v: NewClubPageView) -> NewClubPageView {
    NewClubPageView {
        name: None,
        body: None,
        description: None,
        post_task: false,
        post_state: FetchStateView::Waiting,
        errors: None,
        ..v
    }
}

/// The problems after one more is recorded.
pub open spec fn with_error(errors: Option<Seq<FormErrorView>>, e: FormErrorView) -> Option<Seq<FormErrorView>> {
    match errors {
        Some(s) => Some(s.push(e)),
        None => Some(seq![e]),
    }
}

impl NewClubPage {
    /// The form as it is first drawn.
    pub fn create(props: Props) -> (r: NewClubPage)
        ensures
            r@ == initial_view(),
    {
        NewClubPage {
            club_name_field_contents: None,
            club_body_field_contents: None,
            long_club_description_contents: None,
            club_logo_preview_src: None,
            props,
            post_task: false,
            post_logo_task: false,
            post_task_state: FetchState::Waiting,
            post_logo_task_state: FetchState::Waiting,
            form_errors: None,
        }
    }

    /// Empties the form's state (the page elements are emptied by the caller).
    pub fn reset(&mut self)
        ensures
            final(self)@ == reset_view(old(self)@),
    {
        self.club_body_field_contents = None;
        self.club_name_field_contents = None;
        self.long_club_description_contents = None;
        self.post_task_state = FetchState::Waiting;
        self.post_task = false;
        if self.form_errors.is_some() {
            self.form_errors = None;
        }
    }

    /// Records one more problem, after those already found.
    pub fn add_form_error(&mut self, e: FormError)
        ensures
            final(self)@ == (NewClubPageView { errors: with_error(old(self)@.errors, e@), ..old(self)@ }),
    {
        let ghost ev = e@;
        match self.form_errors.take() {
            Some(mut v) => {
                let ghost before = v@;
                v.push(e);
                assert(errors_view(v@) =~= errors_view(before).push(ev));
                self.form_errors = Some(v);
            },
            None => {
                let mut v: Vec<FormError> = Vec::new();
                v.push(e);
                assert(errors_view(v@) =~= seq![ev]);
                self.form_errors = Some(v);
            },
        }
    }
}

/// What the browser side reports of an attempt to send a request: sent, or
/// refused with the error's text.
pub type SendOutcome = Result<(), String>;

impl NewClubPage {
    /// The HTML preview of the description held in the form.
    pub fn markdown_preview(&self) -> (r: String)
        ensures
            r@ == preview_html(self@.description),
            self@.description matches Some(md) ==> previews_paragraphs(md, r@),
    {
        match &self.long_club_description_contents {
            Some(md) => {
                let html = render_markdown(md.as_str());
                let r = sanitize_html(html.as_str());
                assert forall|ps: Seq<Seq<Run>>| #[trigger] paragraphs_markdown(ps) == md@ && simple_paragraphs(ps)
                    implies r@ == paragraphs_html(ps) by {
                    lemma_simple_paragraphs_are_html_plain(ps);
                    assert(html@ == paragraphs_html(ps));
                }
                r
            },
            None => String::new(),
        }
    }

    /// The problems the form holds, checked against the logo element's
    /// reading.
    pub fn validation_errors(&self, logo: LogoReading) -> (r: Vec<FormError>)
        ensures
            errors_view(r@) == validation_errors(self@.name, self@.description, logo),
    {
        let ghost logo_copy = logo;
        let mut v: Vec<FormError> = Vec::new();
        if self.club_name_field_contents.is_none() {
            v.push(FormError::ClubName(String::from_str(NAME_EMPTY)));
        }
        if self.long_club_description_contents.is_none() {
            v.push(FormError::ClubDescription(String::from_str(DESCRIPTION_EMPTY)));
        }
        match logo {
            LogoReading::NoElement => {},
            LogoReading::Present { byte_len, megabytes } => {
                if byte_len == 0 {
                    v.push(FormError::ClubLogo(String::from_str(LOGO_EMPTY)));
                } else if byte_len > LOGO_MAX_BYTES {
                    let mut text = String::from_str(LOGO_TOO_LARGE_OPEN);
                    text.append(megabytes.as_str());
                    text.append(LOGO_TOO_LARGE_CLOSE);
                    v.push(FormError::ClubLogo(text));
                }
            },
        }
        assert(errors_view(v@) =~= validation_errors(self@.name, self@.description, logo_copy));
        v
    }

    /// Handles one message: changes the form and says what the browser side
    /// is to do. The page is always drawn again.
    pub fn update(&mut self, msg: Msg, logo: LogoReading) -> (r: (bool, Command))
        ensures
            r.0,
            update_transition(old(self)@, msg, logo, final(self)@, r.1),
            preview_shows_description(msg, r.1),
            post_keeps_plain_description(old(self)@, msg, r.1),
            ascii_logo_accepted(old(self)@, msg, final(self)@, r.1),
    {
        match msg {
            Msg::Ignore => (true, Command::Nothing),
            Msg::UpdateInfoState(which, value) => match which {
                WhichTextField::TheBodyOne => {
                    self.club_body_field_contents = if value.as_str().is_empty() { None } else { Some(value) };
                    (true, Command::Nothing)
                },
                WhichTextField::TheNameOne => {
                    self.club_name_field_contents = if value.as_str().is_empty() { None } else { Some(value) };
                    (true, Command::Nothing)
                },
                WhichTextField::TheLongDescriptionOne => {
                    self.long_club_description_contents =
                        if value.as_str().is_empty() { None } else { Some(value) };
                    let html = self.markdown_preview();
                    (true, Command::SetMarkdownPreview(html))
                },
            },
            Msg::ValidateForm => {
                let v = self.validation_errors(logo);
                if v.len() == 0 {
                    (true, Command::SendMessage(Msg::PostClub))
                } else {
                    self.form_errors = Some(v);
                    (true, Command::Nothing)
                }
            },
            Msg::PostClub => {
                self.post_task_state = FetchState::Waiting;
                match (clone_opt(&self.club_name_field_contents), clone_opt(&self.long_club_description_contents)) {
                    (Some(name), Some(body)) => {
                        let body = sanitize_html(body.as_str());
                        (true, Command::SendPost(ClubPost { name, body }))
                    },
                    _ => (true, Command::Nothing),
                }
            },
            Msg::PostClubDone(_id) => {
                self.reset();
                (true, Command::ClearInputs)
            },
            Msg::UpdateClubLogoState(bytes) => {
                match decode_utf8_text(bytes.as_slice()) {
                    Some(src) => (true, Command::SetLogoSrc(src)),
                    None => {
                        self.add_form_error(FormError::ClubLogo(String::from_str(LOGO_INVALID)));
                        (true, Command::Nothing)
                    },
                }
            },
            Msg::PostClubLogo(_id) => (true, Command::Nothing),
            Msg::ReadLogo => (true, Command::ReadLogoFile),
            Msg::Reset => (true, Command::ConfirmReset),
        }
    }

    /// Records how sending the club went: under way, or failed with the
    /// error's text.
    pub fn post_sent(&mut self, outcome: SendOutcome)
        ensures
            match outcome {
                Ok(()) => final(self)@ == (NewClubPageView { post_task: true, ..old(self)@ }),
                Err(e) => final(self)@ == (NewClubPageView {
                    post_state: FetchStateView::Failed(Some(e@)),
                    ..old(self)@
                }),
            },
    {
        match outcome {
            Ok(()) => {
                self.post_task = true;
            },
            Err(e) => {
                self.post_task_state = FetchState::Failed(Some(e));
            },
        }
    }

    /// Takes the user's answer to the request to clear the form.
    pub fn confirm_reset(&mut self, confirmed: bool) -> (r: Command)
        ensures
            confirmed ==> final(self)@ == reset_view(old(self)@) && r is ClearInputs,
            !confirmed ==> final(self)@ == old(self)@ && r is Nothing,
    {
        if confirmed {
            self.reset();
            Command::ClearInputs
        } else {
            Command::Nothing
        }
    }

    /// Takes new properties; the page is always drawn again.
    pub fn change(&mut self, props: Props) -> (r: bool)
        ensures
            r,
            final(self)@ == old(self)@,
    {
        self.props = props;
        true
    }

    /// What the submit area shows: the reset button while nothing is being
    /// posted, else where the post stands.
    pub fn submit_status(&self) -> (r: SubmitStatus)
        ensures
            !self@.post_task ==> r == SubmitStatus::ResetButton,
            self@.post_task ==> r == match self@.post_state {
                FetchStateView::Waiting => SubmitStatus::Submitting,
                FetchStateView::Done(_) => SubmitStatus::Done,
                FetchStateView::Failed(_) => SubmitStatus::Failed,
            },
    {
        if self.post_task {
            match self.post_task_state {
                FetchState::Waiting => SubmitStatus::Submitting,
                FetchState::Done(_) => SubmitStatus::Done,
                FetchState::Failed(_) => SubmitStatus::Failed,
            }
        } else {
            SubmitStatus::ResetButton
        }
    }

    /// The texts of the recorded problems that concern the same field as `e`,
    /// in the order they were found; none when no problem is recorded.
    pub fn get_form_errors(&self, e: FormError) -> (r: Vec<String>)
        ensures
            r@.map_values(|s: String| s@) == match self@.errors {
                Some(errors) => messages_for_field(errors, e@),
                None => Seq::empty(),
            },
    {
        let mut ret_errors: Vec<String> = Vec::new();
        if let Some(errors) = &self.form_errors {
            let ghost all = errors_view(errors@);
            let n = errors.len();
            for i in 0..n
                invariant
                    n == errors@.len(),
                    all == errors_view(errors@),
                    ret_errors@.map_values(|s: String| s@) == messages_for_field(all.take(i as int), e@),
            {
                assert(all.take(i + 1).drop_last() =~= all.take(i as int));
                if errors[i].same_field(&e) {
                    let text = match &errors[i] {
                        FormError::ClubName(s) => s.clone(),
                        FormError::ClubDescription(s) => s.clone(),
                        FormError::ClubLogo(s) => s.clone(),
                    };
                    ret_errors.push(text);
                }
                assert(ret_errors@.map_values(|s: String| s@) =~= messages_for_field(all.take(i + 1), e@));
            }
            assert(all.take(n as int) =~= all);
        }
        ret_errors
    }
}

/// The message that the answer to the club's post gives: the club is done
/// when the server says OK, and anything else is ignored.
pub fn post_response_msg(status: u16) -> (r: Msg)
    ensures
        status == STATUS_OK ==> (r matches Msg::PostClubDone(id) && id == POSTED_CLUB_ID),
        status != STATUS_OK ==> r is Ignore,
{
    if status == STATUS_OK {
        Msg::PostClubDone(POSTED_CLUB_ID)
    } else {
        Msg::Ignore
    }
}

/// The form is found free of problems exactly when it holds a name and a
/// description and the logo element, where there is one, holds a source of at
/// most `LOGO_MAX_BYTES` bytes that is not empty; so the club is only ever
/// submitted with a name and a description.
pub proof fn lemma_valid_form_is_complete(
    name: Option<Seq<char>>,
    description: Option<Seq<char>>,
    logo: LogoReading,
)
    ensures
        validation_errors(name, description, logo).len() == 0 <==> {
            &&& name is Some
            &&& description is Some
            &&& logo_error(logo) is None
        },
{
}

/// Each field's error area shows exactly that field's problem from the last
/// check: the name's area its one text when the name is missing, and so on.
pub proof fn lemma_errors_shown_per_field(
    name: Option<Seq<char>>,
    description: Option<Seq<char>>,
    logo: LogoReading,
    any_text: Seq<char>,
)
    ensures
        messages_for_field(validation_errors(name, description, logo), FormErrorView::ClubName(any_text))
            == (if name is None { seq![NAME_EMPTY@] } else { Seq::<Seq<char>>::empty() }),
        messages_for_field(validation_errors(name, description, logo), FormErrorView::ClubDescription(any_text))
            == (if description is None { seq![DESCRIPTION_EMPTY@] } else { Seq::<Seq<char>>::empty() }),
        messages_for_field(validation_errors(name, description, logo), FormErrorView::ClubLogo(any_text))
            == match logo_error(logo) {
                Some(e) => seq![e.message()],
                None => Seq::<Seq<char>>::empty(),
            },
{
    reveal_with_fuel(messages_for_field, 4);
}

/// Adding a paragraph to a description adds its element to the preview and
/// loses nothing before it: the preview of simple paragraphs `ps`, a blank
/// line and a simple paragraph `p` is the preview of `ps` followed by `p`'s
/// `<p>` element.
pub proof fn lemma_preview_appends_paragraph(ps: Seq<Seq<Run>>, p: Seq<Run>, html: Seq<char>)
    requires
        ps.len() > 0,
        simple_paragraphs(ps),
        simple_paragraph(p),
        previews_paragraphs(paragraphs_markdown(ps) + "\n\n"@ + runs_markdown(p), html),
    ensures
        html == paragraphs_html(ps) + "<p>"@ + runs_html(p) + "</p>\n"@,
{
    let all = ps.push(p);
    assert(all.drop_last() =~= ps);
    assert(simple_paragraphs(all));
    assert(paragraphs_markdown(all) == paragraphs_markdown(ps) + "\n\n"@ + runs_markdown(p));
}

/// A description of one line of plain words (letters, digits, spaces, commas
/// and full stops, starting with a letter and not ending in a space) is
/// previewed as that line in one `<p>` element.
pub proof fn lemma_preview_of_plain_line(line: Seq<char>, html: Seq<char>)
    requires
        markdown_plain(line),
        is_letter(line[0]),
        line.last() != ' ',
        previews_paragraphs(line, html),
    ensures
        html == "<p>"@ + line + "</p>\n"@,
{
    let p = seq![Run::Text(line)];
    let ps = seq![p];
    assert(p.drop_last() =~= Seq::<Run>::empty());
    assert(runs_markdown(p.drop_last()) =~= Seq::<char>::empty());
    assert(runs_html(p.drop_last()) =~= Seq::<char>::empty());
    assert(runs_markdown(p) =~= line);
    assert(runs_html(p) =~= line);
    assert(simple_run_at(p, 0));
    assert(simple_paragraph(p));
    assert(simple_paragraphs(ps));
    assert(ps.drop_last() =~= Seq::<Seq<Run>>::empty());
    assert(paragraphs_markdown(ps) == line);
    assert(paragraphs_html(ps.drop_last()) =~= Seq::<char>::empty());
    assert(paragraphs_html(ps) =~= "<p>"@ + line + "</p>\n"@);
}

/// How many of the problems concern the same field as `field`.
pub open spec fn count_for_field(errors: Seq<FormErrorView>, field: FormErrorView) -> nat {
    messages_for_field(errors, field).len()
}

/// Every recorded problem is shown in exactly one of the three error areas:
/// the counts shown for the name, the description and the logo add up to the
/// number of problems.
pub proof fn lemma_every_error_shown_once(errors: Seq<FormErrorView>, a: Seq<char>, b: Seq<char>, c: Seq<char>)
    ensures
        count_for_field(errors, FormErrorView::ClubName(a))
            + count_for_field(errors, FormErrorView::ClubDescription(b))
            + count_for_field(errors, FormErrorView::ClubLogo(c)) == errors.len(),
    decreases errors.len(),
{
    if errors.len() > 0 {
        lemma_every_error_shown_once(errors.drop_last(), a, b, c);
    }
}

/// Clearing the form twice leaves it as clearing it once.
pub proof fn lemma_reset_idempotent(v: NewClubPageView)
    ensures
        reset_view(reset_view(v)) == reset_view(v),
{
}

} // verus!

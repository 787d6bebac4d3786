//! The screen controller: a login form that, once the entered credentials
//! match the configured ones, gives way for good to a dashboard.

use vstd::prelude::*;
use crate::config::{AppConfig, ConfigView};
use crate::image::{DecodedImage, image_from_bytes, image_view};

verus! {

/// The screen on show.
#[derive(Clone, Copy, Debug, PartialEq, Eq, Structural)]
pub enum AppScreen {
    Login,
    Dashboard,
}

/// What the user did during one frame.
#[derive(Clone, Debug)]
pub enum UiEvent {
    /// A frame drawn with no input.
    Frame,
    /// The username field now reads the given text.
    UsernameEdited(String),
    /// The password field now reads the given text.
    PasswordEdited(String),
    /// The Login button was clicked.
    LoginClicked,
}

/// What the host is asked to do after an event: report the outcome of a
/// login attempt on the console, or nothing.
#[derive(Clone, Copy, Debug, PartialEq, Eq, Structural)]
pub enum Action {
    Nothing,
    LoginSucceeded,
    LoginFailed,
}

/// The controller as values.
pub struct TrackerView {
    pub config: ConfigView,
    pub input_username: Seq<char>,
    pub input_password: Seq<char>,
    pub login_image: Option<(u32, u32, Seq<u8>)>,
    pub success_image: Option<(u32, u32, Seq<u8>)>,
    pub screen: AppScreen,
}

/// The entered credentials are the configured ones.
pub open spec fn credentials_match(m: TrackerView) -> bool {
    m.input_username == m.config.username && m.input_password == m.config.password
}

/// The controller's state after `e`, and what the host is asked to do. The
/// dashboard takes no input; on the login screen the fields follow the
/// edits, and a click lets the user in exactly when the credentials match.
/// Fields are never cleared.
pub open spec fn step(m: TrackerView, e: UiEvent) -> (TrackerView, Action) {
    match m.screen {
        AppScreen::Dashboard => (m, Action::Nothing),
        AppScreen::Login => match e {
            UiEvent::Frame => (m, Action::Nothing),
            UiEvent::UsernameEdited(s) => (TrackerView { input_username: s@, ..m }, Action::Nothing),
            UiEvent::PasswordEdited(s) => (TrackerView { input_password: s@, ..m }, Action::Nothing),
            UiEvent::LoginClicked => if credentials_match(m) {
                (TrackerView { screen: AppScreen::Dashboard, ..m }, Action::LoginSucceeded)
            } else {
                (m, Action::LoginFailed)
            },
        },
    }
}

/// The state after the events, one after the other.
pub open spec fn run(m: TrackerView, events: Seq<UiEvent>) -> TrackerView
    decreases events.len(),
{
    if events.len() == 0 {
        m
    } else {
        run(step(m, events[0]).0, events.drop_first())
    }
}

/// A fresh controller: configured, with empty fields, on the login screen.
pub open spec fn initial(
    config: ConfigView,
    login_image: Option<(u32, u32, Seq<u8>)>,
    success_image: Option<(u32, u32, Seq<u8>)>,
) -> TrackerView {
    TrackerView {
        config,
        input_username: Seq::empty(),
        input_password: Seq::empty(),
        login_image,
        success_image,
        screen: AppScreen::Login,
    }
}

/// The bitmap that optional file bytes decode to.
pub open spec fn image_from_file(bytes: Option<Vec<u8>>) -> Option<(u32, u32, Seq<u8>)> {
    match bytes {
        Some(b) => image_from_bytes(b@),
        None => None,
    }
}

/// The login screen and, after a successful login, the dashboard.
pub struct StoreTournamentTracker {
    config: AppConfig,
    input_username: String,
    input_password: String,
    login_image: Option<DecodedImage>,
    success_image: Option<DecodedImage>,
    current_screen: AppScreen,
}

impl View for StoreTournamentTracker {
    type V = TrackerView;

    closed spec fn view(&self) -> TrackerView {
        TrackerView {
            config: self.config@,
            input_username: self.input_username@,
            input_password: self.input_password@,
            login_image: image_view(self.login_image),
            success_image: image_view(self.success_image),
            screen: self.current_screen,
        }
    }
}

fn decode_file(bytes: Option<Vec<u8>>) -> (r: Option<DecodedImage>)
    ensures
        image_view(r) == image_from_file(bytes),
        r matches Some(img) ==> img.wf(),
{
    match bytes {
        Some(b) => DecodedImage::from_bytes(b.as_slice()),
        None => None,
    }
}

impl StoreTournamentTracker {
    /// The bitmaps the controller holds are complete.
    pub closed spec fn wf(&self) -> bool {
        &&& (self.login_image matches Some(img) ==> img.wf())
        &&& (self.success_image matches Some(img) ==> img.wf())
    }

    /// Builds the controller from the configuration and the bytes of the two
    /// image files, `None` where a file could not be read. An image that is
    /// missing or does not decode is simply not shown.
    pub fn new(
        config: AppConfig,
        login_image_bytes: Option<Vec<u8>>,
        success_image_bytes: Option<Vec<u8>>,
    ) -> (r: StoreTournamentTracker)
        ensures
            r@ == initial(
                config@,
                image_from_file(login_image_bytes),
                image_from_file(success_image_bytes),
            ),
            r.wf(),
    {
        let login_image = decode_file(login_image_bytes);
        let success_image = decode_file(success_image_bytes);
        StoreTournamentTracker {
            config,
            input_username: String::new(),
            input_password: String::new(),
            login_image,
            success_image,
            current_screen: AppScreen::Login,
        }
    }

    /// Takes one event and says what the host should do.
    pub fn handle_event(&mut self, event: UiEvent) -> (a: Action)
        ensures
            (final(self)@, a) == step(old(self)@, event),
            old(self).wf() ==> final(self).wf(),
    {
        match self.current_screen {
            AppScreen::Dashboard => Action::Nothing,
            AppScreen::Login => match event {
                UiEvent::Frame => Action::Nothing,
                UiEvent::UsernameEdited(s) => {
                    self.input_username = s;
                    Action::Nothing
                },
                UiEvent::PasswordEdited(s) => {
                    self.input_password = s;
                    Action::Nothing
                },
                UiEvent::LoginClicked => {
                    if self.input_username == *self.config.username() && self.input_password
                        == *self.config.password() {
                        self.current_screen = AppScreen::Dashboard;
                        Action::LoginSucceeded
                    } else {
                        Action::LoginFailed
                    }
                },
            },
        }
    }

    pub fn current_screen(&self) -> (r: AppScreen)
        ensures
            r == self@.screen,
    {
        self.current_screen
    }

    pub fn config(&self) -> (r: &AppConfig)
        ensures
            r@ == self@.config,
    {
        &self.config
    }

    pub fn input_username(&self) -> (r: &String)
        ensures
            r@ == self@.input_username,
    {
        &self.input_username
    }

    pub fn input_password(&self) -> (r: &String)
        ensures
            r@ == self@.input_password,
    {
        &self.input_password
    }

    /// The banner of the login screen, if it could be decoded.
    pub fn login_image(&self) -> (r: &Option<DecodedImage>)
        ensures
            image_view(*r) == self@.login_image,
            self.wf() ==> (r matches Some(img) ==> img.wf()),
    {
        &self.login_image
    }

    /// The banner of the dashboard, if it could be decoded.
    pub fn success_image(&self) -> (r: &Option<DecodedImage>)
        ensures
            image_view(*r) == self@.success_image,
            self.wf() ==> (r matches Some(img) ==> img.wf()),
    {
        &self.success_image
    }
}

/// Typing a username and a password into a fresh controller and clicking
/// Login reaches the dashboard exactly when the two are the configured ones;
/// any other pair leaves the login screen on show.
pub proof fn lemma_login_with_entered_credentials(
    config: ConfigView,
    login_image: Option<(u32, u32, Seq<u8>)>,
    success_image: Option<(u32, u32, Seq<u8>)>,
    username: String,
    password: String,
)
    ensures
        run(
            initial(config, login_image, success_image),
            seq![
                UiEvent::UsernameEdited(username),
                UiEvent::PasswordEdited(password),
                UiEvent::LoginClicked,
            ],
        ).screen == (if username@ == config.username && password@ == config.password {
            AppScreen::Dashboard
        } else {
            AppScreen::Login
        }),
{
    let events = seq![
        UiEvent::UsernameEdited(username),
        UiEvent::PasswordEdited(password),
        UiEvent::LoginClicked,
    ];
    reveal_with_fuel(run, 4);
    assert(events.drop_first() =~= seq![UiEvent::PasswordEdited(password), UiEvent::LoginClicked]);
    assert(events.drop_first().drop_first() =~= seq![UiEvent::LoginClicked]);
    assert(events.drop_first().drop_first().drop_first() =~= Seq::<UiEvent>::empty());
}

/// The dashboard is final: no sequence of events leads back to the login
/// screen, nor changes anything at all.
pub proof fn lemma_dashboard_is_final(m: TrackerView, events: Seq<UiEvent>)
    requires
        m.screen == AppScreen::Dashboard,
    ensures
        run(m, events) == m,
        run(m, events).screen == AppScreen::Dashboard,
    decreases events.len(),
{
    if events.len() > 0 {
        lemma_dashboard_is_final(m, events.drop_first());
    }
}

/// Frames with no input change nothing, whatever the screen.
pub proof fn lemma_frames_change_nothing(m: TrackerView, events: Seq<UiEvent>)
    requires
        forall|i: int| 0 <= i < events.len() ==> #[trigger] events[i] is Frame,
    ensures
        run(m, events) == m,
    decreases events.len(),
{
    if events.len() > 0 {
        assert(events[0] is Frame);
        lemma_frames_change_nothing(m, events.drop_first());
    }
}

/// On the login screen with credentials that do not match, clicking Login
/// any number of times, between any number of frames, changes nothing: the
/// screen stays the login screen and the fields keep what was typed.
pub proof fn lemma_failed_attempts_change_nothing(m: TrackerView, events: Seq<UiEvent>)
    requires
        m.screen == AppScreen::Login,
        !credentials_match(m),
        forall|i: int|
            0 <= i < events.len() ==> #[trigger] events[i] is LoginClicked || events[i] is Frame,
    ensures
        run(m, events) == m,
        run(m, events).screen == AppScreen::Login,
    decreases events.len(),
{
    if events.len() > 0 {
        assert(events[0] is LoginClicked || events[0] is Frame);
        lemma_failed_attempts_change_nothing(m, events.drop_first());
    }
}

} // verus!

//! The application state and what each event of the screen does to it.
//!
//! The redraw loop owns the widgets and the outside work: it closes menus,
//! opens the folder dialog, starts the login attempt and leaves the program.
//! What it should do, and what the state is afterwards, is decided here:
//! [`TemplateApp::update`] takes one event and gives back the action to
//! perform.

use crate::login::{lemma_login_moves_forward, login_rank, LoginHandle};
use crate::obscurer::{
    cipher_text, is_displayable, lemma_recover_after_obscure, obscure, recover_token,
    spec_recover_token,
};
use crate::settings::{default_settings, load_settings, loaded, Settings, SettingsModel, StoredSettings};
use vstd::prelude::*;
use vstd::string::*;
use vstd::utf8::*;

verus! {

/// The state of the application between two redraws.
#[derive(Debug)]
pub struct TemplateApp {
    label: String,
    encrypt_key: String,
    value_bits: u32,
    show_settings: bool,
    discord_token: String,
    stored_discord_token: String,
    download_to: String,
    discord_client: LoginHandle,
}

/// The application state as plain values.
pub struct AppModel {
    /// The label that the user typed.
    pub label: Seq<char>,
    /// The key that the credential is obscured under.
    pub encrypt_key: Seq<char>,
    /// The numeric value, as the bits of a single-precision number.
    pub value_bits: u32,
    /// Whether the settings window is open.
    pub show_settings: bool,
    /// The credential in clear text. It lives in memory only.
    pub discord_token: Seq<char>,
    /// The credential as it was last read or written, obscured.
    pub stored_discord_token: Seq<char>,
    /// The directory that downloads go to.
    pub download_to: Seq<char>,
    /// The login slot.
    pub discord_client: LoginHandle,
}

impl View for TemplateApp {
    type V = AppModel;

    closed spec fn view(&self) -> AppModel {
        AppModel {
            label: self.label@,
            encrypt_key: self.encrypt_key@,
            value_bits: self.value_bits,
            show_settings: self.show_settings,
            discord_token: self.discord_token@,
            stored_discord_token: self.stored_discord_token@,
            download_to: self.download_to@,
            discord_client: self.discord_client,
        }
    }
}

/// What the screen reports to the application.
#[derive(Clone, Debug, PartialEq, Eq)]
pub enum UiEvent {
    /// "Quit" was chosen from the file menu.
    QuitClicked,
    /// "Toggle" was chosen from the settings menu.
    SettingsToggleClicked,
    /// The settings window was closed by its own button.
    SettingsWindowClosed,
    /// The label field now holds this text.
    LabelEdited(String),
    /// The numeric value now has these bits: the slider was moved, or
    /// "Increment" was clicked and the value grew by one.
    ValueChanged(u32),
    /// The token field now holds this text.
    TokenEdited(String),
    /// The login button was clicked.
    LoginClicked,
    /// The login attempt has delivered its connection.
    LoginCompleted,
    /// The button that shows the download directory was clicked.
    FolderButtonClicked,
    /// The folder dialog was closed, with the folder picked or with none.
    FolderDialogClosed(Option<String>),
}

/// What the redraw loop is to do after an event.
#[derive(Clone, Debug, PartialEq, Eq)]
pub enum UiAction {
    /// Nothing beyond drawing the next frame.
    Nothing,
    /// Leave the program.
    Quit,
    /// Close the open menu.
    CloseMenu,
    /// Start the login attempt with this credential, off the redraw loop.
    StartLogin(String),
    /// Open the folder dialog.
    PickFolder,
}

/// An action as plain values.
pub enum ActionModel {
    Nothing,
    Quit,
    CloseMenu,
    StartLogin(Seq<char>),
    PickFolder,
}

impl View for UiAction {
    type V = ActionModel;

    open spec fn view(&self) -> ActionModel {
        match self {
            UiAction::Nothing => ActionModel::Nothing,
            UiAction::Quit => ActionModel::Quit,
            UiAction::CloseMenu => ActionModel::CloseMenu,
            UiAction::StartLogin(token) => ActionModel::StartLogin(token@),
            UiAction::PickFolder => ActionModel::PickFolder,
        }
    }
}

/// The state of a first run: the default settings, no credential, the login
/// slot empty.
pub open spec fn initial_model(encrypt_key: Seq<char>, working_dir: Seq<char>) -> AppModel {
    let settings = default_settings(working_dir);
    AppModel {
        label: settings.label,
        encrypt_key,
        value_bits: settings.value_bits,
        show_settings: settings.show_settings,
        discord_token: Seq::empty(),
        stored_discord_token: settings.stored_discord_token,
        download_to: settings.download_to,
        discord_client: LoginHandle::Absent,
    }
}

/// The state after one event.
pub open spec fn next_model(m: AppModel, event: UiEvent) -> AppModel {
    match event {
        UiEvent::QuitClicked => m,
        UiEvent::SettingsToggleClicked => AppModel { show_settings: !m.show_settings, ..m },
        UiEvent::SettingsWindowClosed => AppModel { show_settings: false, ..m },
        UiEvent::LabelEdited(text) => AppModel { label: text@, ..m },
        UiEvent::ValueChanged(bits) => AppModel { value_bits: bits, ..m },
        UiEvent::TokenEdited(text) => AppModel { discord_token: text@, ..m },
        UiEvent::LoginClicked => AppModel { discord_client: m.discord_client.spec_begin(), ..m },
        UiEvent::LoginCompleted => AppModel {
            discord_client: m.discord_client.spec_complete(),
            ..m
        },
        UiEvent::FolderButtonClicked => m,
        UiEvent::FolderDialogClosed(choice) => match choice {
            Some(folder) => AppModel { download_to: folder@, ..m },
            None => m,
        },
    }
}

/// The action that an event calls for in a state. A click on the login
/// button starts an attempt, with the credential of that moment, only while
/// the login slot is empty.
pub open spec fn action_for(m: AppModel, event: UiEvent) -> ActionModel {
    match event {
        UiEvent::QuitClicked => ActionModel::Quit,
        UiEvent::SettingsToggleClicked => ActionModel::CloseMenu,
        UiEvent::LoginClicked => if m.discord_client.spec_offers_login() {
            ActionModel::StartLogin(m.discord_token)
        } else {
            ActionModel::Nothing
        },
        UiEvent::FolderButtonClicked => ActionModel::PickFolder,
        _ => ActionModel::Nothing,
    }
}

/// The state after the stored settings were read: the settings are those
/// read, completed by the defaults, and the credential is recovered from its
/// stored form. The key and the login slot stay.
pub open spec fn after_setup(
    m: AppModel,
    read: Option<StoredSettings>,
    working_dir: Seq<char>,
) -> AppModel {
    let settings = loaded(read, default_settings(working_dir));
    AppModel {
        label: settings.label,
        encrypt_key: m.encrypt_key,
        value_bits: settings.value_bits,
        show_settings: settings.show_settings,
        discord_token: spec_recover_token(settings.stored_discord_token, m.encrypt_key),
        stored_discord_token: settings.stored_discord_token,
        download_to: settings.download_to,
        discord_client: m.discord_client,
    }
}

/// The state after saving: the stored form of the credential is renewed from
/// the credential in clear text.
pub open spec fn after_save(m: AppModel) -> AppModel {
    AppModel {
        stored_discord_token: cipher_text(m.encrypt_key, encode_utf8(m.discord_token)),
        ..m
    }
}

/// The record that a state is persisted as. The credential in clear text is
/// no part of it.
pub open spec fn persisted(m: AppModel) -> SettingsModel {
    SettingsModel {
        label: m.label,
        value_bits: m.value_bits,
        show_settings: m.show_settings,
        stored_discord_token: m.stored_discord_token,
        download_to: m.download_to,
    }
}

/// The caption of the button that shows the download directory.
pub open spec fn folder_caption(download_to: Seq<char>) -> Seq<char> {
    "select ["@ + download_to + "]"@
}

impl TemplateApp {
    /// The application as it starts on a first run, with the key that the
    /// credential is to be obscured under and the working directory.
    pub fn new(encrypt_key: String, working_dir: String) -> (app: TemplateApp)
        ensures
            app@ == initial_model(encrypt_key@, working_dir@),
    {
        let settings = Settings::defaults(working_dir);
        TemplateApp {
            label: settings.label,
            encrypt_key,
            value_bits: settings.value_bits,
            show_settings: settings.show_settings,
            discord_token: String::new(),
            stored_discord_token: settings.stored_discord_token,
            download_to: settings.download_to,
            discord_client: LoginHandle::new(),
        }
    }

    /// The name of the application.
    pub fn name(&self) -> (name: &'static str)
        ensures
            name@ == "eframe template"@,
    {
        "eframe template"
    }

    /// Takes over what was read from storage, before the first frame.
    ///
    /// `read` is the record found, or `None` where none could be read. Fields
    /// that the record lacks take their defaults, and the credential is
    /// recovered from its stored form; where that fails, the credential is
    /// empty.
    pub fn setup(&mut self, read: Option<StoredSettings>, working_dir: String)
        ensures
            final(self)@ == after_setup(old(self)@, read, working_dir@),
    {
        let settings = load_settings(read, Settings::defaults(working_dir));
        let token = recover_token(settings.stored_discord_token.as_str(), self.encrypt_key.as_str());
        self.label = settings.label;
        self.value_bits = settings.value_bits;
        self.show_settings = settings.show_settings;
        self.stored_discord_token = settings.stored_discord_token;
        self.download_to = settings.download_to;
        self.discord_token = token;
    }

    /// Renews the stored form of the credential and gives the record to
    /// persist.
    ///
    /// The record holds the credential obscured, as digits and upper-case
    /// letters, and a later `setup` on it recovers the credential of now.
    pub fn save(&mut self) -> (record: Settings)
        ensures
            final(self)@ == after_save(old(self)@),
            record@ == persisted(final(self)@),
            is_displayable(record@.stored_discord_token),
            spec_recover_token(record@.stored_discord_token, old(self)@.encrypt_key) == old(
                self,
            )@.discord_token,
    {
        let stored = obscure(self.discord_token.as_str(), self.encrypt_key.as_str());
        proof {
            lemma_recover_after_obscure(stored@, self.encrypt_key@, self.discord_token@);
        }
        self.stored_discord_token = stored;
        Settings {
            label: self.label.clone(),
            value_bits: self.value_bits,
            show_settings: self.show_settings,
            stored_discord_token: self.stored_discord_token.clone(),
            download_to: self.download_to.clone(),
        }
    }

    /// Takes one event of the screen: changes the state as the event asks and
    /// gives the action that the redraw loop is to perform.
    pub fn update(&mut self, event: UiEvent) -> (action: UiAction)
        ensures
            final(self)@ == next_model(old(self)@, event),
            action@ == action_for(old(self)@, event),
    {
        match event {
            UiEvent::QuitClicked => UiAction::Quit,
            UiEvent::SettingsToggleClicked => {
                self.show_settings = !self.show_settings;
                UiAction::CloseMenu
            },
            UiEvent::SettingsWindowClosed => {
                self.show_settings = false;
                UiAction::Nothing
            },
            UiEvent::LabelEdited(text) => {
                self.label = text;
                UiAction::Nothing
            },
            UiEvent::ValueChanged(bits) => {
                self.value_bits = bits;
                UiAction::Nothing
            },
            UiEvent::TokenEdited(text) => {
                self.discord_token = text;
                UiAction::Nothing
            },
            UiEvent::LoginClicked => {
                let (next, start) = self.discord_client.begin();
                self.discord_client = next;
                if start {
                    UiAction::StartLogin(self.discord_token.clone())
                } else {
                    UiAction::Nothing
                }
            },
            UiEvent::LoginCompleted => {
                self.discord_client = self.discord_client.complete();
                UiAction::Nothing
            },
            UiEvent::FolderButtonClicked => UiAction::PickFolder,
            UiEvent::FolderDialogClosed(choice) => {
                match choice {
                    Some(folder) => {
                        self.download_to = folder;
                    },
                    None => {},
                }
                UiAction::Nothing
            },
        }
    }

    /// Whether the screen offers to log in: only while the login slot is
    /// empty. A pending attempt and a completed one show the same.
    pub fn offers_login(&self) -> (offered: bool)
        ensures
            offered == self@.discord_client.spec_offers_login(),
    {
        self.discord_client.offers_login()
    }

    /// The caption of the button that shows the download directory.
    pub fn folder_button_caption(&self) -> (caption: String)
        ensures
            caption@ == folder_caption(self@.download_to),
    {
        "select [".to_owned().concat(self.download_to.as_str()).concat("]")
    }

    /// The label that the user typed.
    pub fn label(&self) -> (label: &str)
        ensures
            label@ == self@.label,
    {
        self.label.as_str()
    }

    /// The key that the credential is obscured under.
    pub fn encrypt_key(&self) -> (key: &str)
        ensures
            key@ == self@.encrypt_key,
    {
        self.encrypt_key.as_str()
    }

    /// The numeric value, as the bits of a single-precision number.
    pub fn value_bits(&self) -> (bits: u32)
        ensures
            bits == self@.value_bits,
    {
        self.value_bits
    }

    /// Whether the settings window is open.
    pub fn show_settings(&self) -> (open: bool)
        ensures
            open == self@.show_settings,
    {
        self.show_settings
    }

    /// The credential in clear text.
    pub fn discord_token(&self) -> (token: &str)
        ensures
            token@ == self@.discord_token,
    {
        self.discord_token.as_str()
    }

    /// The credential as it was last read or written, obscured.
    pub fn stored_discord_token(&self) -> (stored: &str)
        ensures
            stored@ == self@.stored_discord_token,
    {
        self.stored_discord_token.as_str()
    }

    /// The directory that downloads go to.
    pub fn download_to(&self) -> (folder: &str)
        ensures
            folder@ == self@.download_to,
    {
        self.download_to.as_str()
    }

    /// The login slot.
    pub fn discord_client(&self) -> (handle: LoginHandle)
        ensures
            handle == self@.discord_client,
    {
        self.discord_client
    }
}

/// The state after a run of events, first to last.
pub open spec fn run(m: AppModel, events: Seq<UiEvent>) -> AppModel
    decreases events.len(),
{
    if events.len() == 0 {
        m
    } else {
        next_model(run(m, events.drop_last()), events.last())
    }
}

/// `n` clicks on "Toggle" in a row.
pub open spec fn toggles(n: nat) -> Seq<UiEvent> {
    Seq::new(n, |i: int| UiEvent::SettingsToggleClicked)
}

/// No run of events takes the login slot back to an earlier state. Once the
/// slot is filled, the offer to log in does not come back.
pub proof fn lemma_login_never_goes_back(m: AppModel, events: Seq<UiEvent>)
    ensures
        login_rank(m.discord_client) <= login_rank(run(m, events).discord_client),
        !m.discord_client.spec_offers_login() ==> !run(m, events).discord_client.spec_offers_login(),
    decreases events.len(),
{
    if events.len() > 0 {
        lemma_login_never_goes_back(m, events.drop_last());
        lemma_login_moves_forward(run(m, events.drop_last()).discord_client);
    }
}

/// Neither reading the stored settings nor saving touches the login slot.
pub proof fn lemma_storage_keeps_login(
    m: AppModel,
    read: Option<StoredSettings>,
    working_dir: Seq<char>,
)
    ensures
        after_setup(m, read, working_dir).discord_client == m.discord_client,
        after_save(m).discord_client == m.discord_client,
{
}

/// An even number of clicks on "Toggle" leaves the state as it was, and an
/// odd number inverts the visibility of the settings window and changes
/// nothing else.
pub proof fn lemma_toggle_parity(m: AppModel, n: nat)
    ensures
        n % 2 == 0 ==> run(m, toggles(n)) == m,
        n % 2 == 1 ==> run(m, toggles(n)) == (AppModel { show_settings: !m.show_settings, ..m }),
    decreases n,
{
    if n > 0 {
        lemma_toggle_parity(m, (n - 1) as nat);
        assert(toggles(n).drop_last() =~= toggles((n - 1) as nat));
        assert(toggles(n).last() == UiEvent::SettingsToggleClicked);
    }
}

/// What is persisted does not depend on the credential in clear text.
pub proof fn lemma_persisted_without_plaintext(m: AppModel, token: Seq<char>)
    ensures
        persisted((AppModel { discord_token: token, ..m })) == persisted(m),
{
}

} // verus!

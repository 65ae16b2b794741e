//! The screen state machine: the core of the console.
//!
//! The machine holds the current screen, the menu selection, the list
//! cursor, the caches of namespaces and configuration entries, and zero or
//! one active form. A key press produces a local state change plus an
//! optional [`Intent`]: a description of the remote call to make. The
//! surrounding runtime performs the call and feeds its result back through
//! [`App::apply_outcome`]. Local caches are mutated only when a remote call
//! has succeeded; on failure the active screen stays active, local state is
//! untouched, and the error is surfaced in [`App::last_error`].
//!
//! The whole transition relation is written down as the spec functions
//! [`step_spec`] and [`outcome_spec`]; the executable methods are proved to
//! follow them exactly.

use vstd::prelude::*;
use vstd::string::*;

use crate::editor::FieldView;
use crate::error::{RemoteError, RemoteErrorView};
use crate::form::{advance_focus_spec, route_input_spec, Form, FormKind, FormView};
use crate::keys::KeyEvent;
use crate::model::{
    ConfigItem, ConfigItemView, NamespaceItem, NamespaceItemView, DEFAULT_QUOTA,
    NS_TYPE_DEFAULT, NS_TYPE_USER_CREATED,
};

verus! {

/// Whether the console is still taking input.
#[derive(Clone, Copy, PartialEq, Eq, Structural, Debug)]
pub enum AppState {
    Running,
    /// Terminal state: no further input is processed.
    Quitting,
}

/// Which menu section of the main screen is selected.
#[derive(Clone, Copy, PartialEq, Eq, Structural, Debug)]
pub enum CurrentMenu {
    Config,
    Service,
    Namespace,
}

/// Which screen is active. Exactly one is active at any time.
#[derive(Clone, Copy, PartialEq, Eq, Structural, Debug)]
pub enum CurrentScreen {
    /// List browsing across the menu sections.
    Main,
    /// Yes/no confirmation gate over the highlighted namespace.
    NamespaceDelete,
    /// Form with three fields: id, name, description.
    NamespaceAdd,
    /// Form with two fields, pre-filled from the highlighted namespace.
    NamespaceEdit,
}

/// A remote call the runtime should make on the machine's behalf.
#[derive(Debug, Clone, PartialEq, Eq)]
pub enum Intent {
    /// Tear down and exit.
    Quit,
    CreateNamespace { id: String, name: String, desc: String },
    UpdateNamespace { id: String, name: String, desc: String },
    DeleteNamespace { id: String },
    /// Fetch the configuration list of the namespace with this id.
    FetchConfigs { ns_id: String },
}

/// The abstract value of an [`Intent`].
pub enum IntentView {
    Quit,
    CreateNamespace { id: Seq<char>, name: Seq<char>, desc: Seq<char> },
    UpdateNamespace { id: Seq<char>, name: Seq<char>, desc: Seq<char> },
    DeleteNamespace { id: Seq<char> },
    FetchConfigs { ns_id: Seq<char> },
}

impl View for Intent {
    type V = IntentView;

    open spec fn view(&self) -> IntentView {
        match self {
            Intent::Quit => IntentView::Quit,
            Intent::CreateNamespace { id, name, desc } => IntentView::CreateNamespace {
                id: id@,
                name: name@,
                desc: desc@,
            },
            Intent::UpdateNamespace { id, name, desc } => IntentView::UpdateNamespace {
                id: id@,
                name: name@,
                desc: desc@,
            },
            Intent::DeleteNamespace { id } => IntentView::DeleteNamespace { id: id@ },
            Intent::FetchConfigs { ns_id } => IntentView::FetchConfigs { ns_id: ns_id@ },
        }
    }
}

/// The abstract value of the intent a step returned.
pub open spec fn opt_intent_view(intent: Option<Intent>) -> Option<IntentView> {
    match intent {
        Some(i) => Some(i@),
        None => None,
    }
}

/// The result of a remote call, fed back into the machine.
#[derive(Debug, PartialEq, Eq)]
pub enum Outcome {
    /// Result of a create call issued from the add screen.
    CreateResult(Result<bool, RemoteError>),
    /// Result of an update call issued from the edit screen.
    UpdateResult(Result<bool, RemoteError>),
    /// Result of a delete call issued from the confirmation gate.
    DeleteResult(Result<bool, RemoteError>),
    /// Result of a configuration listing for the selected namespace tab.
    ConfigList(Result<Vec<ConfigItem>, RemoteError>),
}

/// The abstract value of an [`Outcome`].
pub enum OutcomeView {
    CreateResult(Result<bool, RemoteErrorView>),
    UpdateResult(Result<bool, RemoteErrorView>),
    DeleteResult(Result<bool, RemoteErrorView>),
    ConfigList(Result<Seq<ConfigItemView>, RemoteErrorView>),
}

impl View for Outcome {
    type V = OutcomeView;

    open spec fn view(&self) -> OutcomeView {
        match self {
            Outcome::CreateResult(r) => OutcomeView::CreateResult(
                match r {
                    Ok(b) => Ok(*b),
                    Err(e) => Err(e@),
                },
            ),
            Outcome::UpdateResult(r) => OutcomeView::UpdateResult(
                match r {
                    Ok(b) => Ok(*b),
                    Err(e) => Err(e@),
                },
            ),
            Outcome::DeleteResult(r) => OutcomeView::DeleteResult(
                match r {
                    Ok(b) => Ok(*b),
                    Err(e) => Err(e@),
                },
            ),
            Outcome::ConfigList(r) => OutcomeView::ConfigList(
                match r {
                    Ok(list) => Ok(list@.map_values(|c: ConfigItem| c@)),
                    Err(e) => Err(e@),
                },
            ),
        }
    }
}

/// The abstract state of the machine.
#[verifier::ext_equal]
pub struct AppView {
    pub state: AppState,
    pub screen: CurrentScreen,
    pub menu: CurrentMenu,
    pub config_tab: int,
    pub configs: Seq<ConfigItemView>,
    pub namespaces: Seq<NamespaceItemView>,
    pub line: int,
    pub form: Option<FormView>,
    pub error: Option<RemoteErrorView>,
}

impl AppView {
    /// The machine's invariant.
    ///
    /// The list cursor and the configuration tab are valid indexes into the
    /// namespace list whenever it is non-empty, and zero otherwise; the
    /// cursor fits the byte it is stored in; a form exists exactly on the
    /// two form screens, with the field count its kind fixes; the
    /// confirmation and edit screens exist only over a non-empty list.
    pub open spec fn wf(self) -> bool {
        &&& 0 <= self.line <= u8::MAX
        &&& if self.namespaces.len() == 0 {
            self.line == 0
        } else {
            self.line < self.namespaces.len()
        }
        &&& if self.namespaces.len() == 0 {
            self.config_tab == 0
        } else {
            0 <= self.config_tab < self.namespaces.len()
        }
        &&& match self.screen {
            CurrentScreen::Main => self.form is None,
            CurrentScreen::NamespaceDelete => self.form is None && self.namespaces.len() > 0,
            CurrentScreen::NamespaceAdd => self.form matches Some(f) && f.wf() && f.kind is Add,
            CurrentScreen::NamespaceEdit => (self.form matches Some(f) && f.wf()
                && f.kind is Edit) && self.namespaces.len() > 0,
        }
    }

    /// The highlighted namespace.
    pub open spec fn selected_namespace(self) -> NamespaceItemView {
        self.namespaces[self.line]
    }
}

/// A one-line field holding `text`, cursor at the end: what pre-filling an
/// edit form produces.
pub open spec fn prefilled_field(text: Seq<char>) -> FieldView {
    FieldView { lines: seq![text], row: 0, col: text.len() as int }
}

/// An empty one-line field, cursor at the start.
pub open spec fn empty_field() -> FieldView {
    prefilled_field(Seq::empty())
}

/// The description a namespace shows in an edit form: its description, or
/// empty when it has none.
pub open spec fn desc_or_empty(ns: NamespaceItemView) -> Seq<char> {
    match ns.ns_desc {
        Some(d) => d,
        None => Seq::empty(),
    }
}

/// Moving the cursor up: one step, stopping at the top; active only while
/// the namespace menu is selected.
pub open spec fn nav_up_spec(s: AppView) -> AppView {
    if s.menu is Namespace && s.line > 0 {
        AppView { line: s.line - 1, ..s }
    } else {
        s
    }
}

/// Moving the cursor down: one step, stopping at the last entry (and at the
/// largest value the cursor byte can hold); active only while the namespace
/// menu is selected.
pub open spec fn nav_down_spec(s: AppView) -> AppView {
    if s.menu is Namespace && s.line + 1 < s.namespaces.len() && s.line < u8::MAX {
        AppView { line: s.line + 1, ..s }
    } else {
        s
    }
}

/// Opening the add screen: a fresh form with three empty fields.
pub open spec fn open_add_spec(s: AppView) -> AppView {
    AppView {
        screen: CurrentScreen::NamespaceAdd,
        form: Some(
            FormView {
                kind: FormKind::Add,
                fields: seq![empty_field(), empty_field(), empty_field()],
                focus: 0,
            },
        ),
        ..s
    }
}

/// Opening the edit screen: a form pre-filled from the highlighted
/// namespace.
pub open spec fn open_edit_spec(s: AppView) -> AppView {
    AppView {
        screen: CurrentScreen::NamespaceEdit,
        form: Some(
            FormView {
                kind: FormKind::Edit,
                fields: seq![
                    prefilled_field(s.selected_namespace().ns_name),
                    prefilled_field(desc_or_empty(s.selected_namespace())),
                ],
                focus: 0,
            },
        ),
        ..s
    }
}

/// Leaving a form screen: back to the main screen, the form destroyed.
pub open spec fn close_form_spec(s: AppView) -> AppView {
    AppView { screen: CurrentScreen::Main, form: None, ..s }
}

/// Cycling the configuration tab: one step forward over the namespace
/// list, wrapping. Landing on a different tab asks for a fresh listing of
/// that namespace's configurations.
pub open spec fn tab_step_spec(s: AppView) -> (AppView, Option<IntentView>) {
    if s.menu is Config && s.namespaces.len() > 0 {
        let t = (s.config_tab + 1) % (s.namespaces.len() as int);
        let s2 = AppView { config_tab: t, ..s };
        if t != s.config_tab {
            (s2, Some(IntentView::FetchConfigs { ns_id: s.namespaces[t].ns_id }))
        } else {
            (s2, Option::<IntentView>::None)
        }
    } else {
        (s, Option::<IntentView>::None)
    }
}

/// One key press on the main screen.
pub open spec fn main_step(s: AppView, key: KeyEvent) -> (AppView, Option<IntentView>) {
    match key {
        KeyEvent::Char(c) => if c == 'q' {
            (AppView { state: AppState::Quitting, ..s }, Some(IntentView::Quit))
        } else if c == '1' {
            (AppView { menu: CurrentMenu::Config, ..s }, Option::<IntentView>::None)
        } else if c == '2' {
            (AppView { menu: CurrentMenu::Service, ..s }, Option::<IntentView>::None)
        } else if c == '3' {
            (AppView { menu: CurrentMenu::Namespace, ..s }, Option::<IntentView>::None)
        } else if c == 'k' {
            (nav_up_spec(s), Option::<IntentView>::None)
        } else if c == 'j' {
            (nav_down_spec(s), Option::<IntentView>::None)
        } else if c == 'a' && s.menu is Namespace {
            (open_add_spec(s), Option::<IntentView>::None)
        } else if c == 'e' && s.menu is Namespace && s.namespaces.len() > 0 {
            (open_edit_spec(s), Option::<IntentView>::None)
        } else if c == 'd' && s.menu is Namespace && s.namespaces.len() > 0 {
            (AppView { screen: CurrentScreen::NamespaceDelete, ..s }, Option::<IntentView>::None)
        } else {
            (s, Option::<IntentView>::None)
        },
        KeyEvent::Up => (nav_up_spec(s), Option::<IntentView>::None),
        KeyEvent::Down => (nav_down_spec(s), Option::<IntentView>::None),
        KeyEvent::Tab => tab_step_spec(s),
        _ => (s, Option::<IntentView>::None),
    }
}

/// One key press on the delete-confirmation gate. `y` answers yes: back to
/// the main screen and a delete intent for the highlighted namespace —
/// nothing is removed locally until the call succeeds. `n` and `esc` answer
/// no: back to the main screen, nothing asked for.
pub open spec fn delete_step(s: AppView, key: KeyEvent) -> (AppView, Option<IntentView>) {
    match key {
        KeyEvent::Esc => (
            AppView { screen: CurrentScreen::Main, ..s },
            Option::<IntentView>::None,
        ),
        KeyEvent::Char(c) => if c == 'n' {
            (AppView { screen: CurrentScreen::Main, ..s }, Option::<IntentView>::None)
        } else if c == 'y' {
            (
                AppView { screen: CurrentScreen::Main, ..s },
                Some(IntentView::DeleteNamespace { id: s.selected_namespace().ns_id }),
            )
        } else {
            (s, Option::<IntentView>::None)
        },
        _ => (s, Option::<IntentView>::None),
    }
}

/// One key press on a form screen (add or edit). `esc` discards the form;
/// `tab` moves the focus; `enter` asks for the remote call built from the
/// form's content, leaving screen and form as they are until the result
/// comes back; every other key goes to the focused field.
pub open spec fn form_screen_step(s: AppView, key: KeyEvent) -> (AppView, Option<IntentView>) {
    let f = s.form.unwrap();
    match key {
        KeyEvent::Esc => (close_form_spec(s), Option::<IntentView>::None),
        KeyEvent::Tab => (
            AppView { form: Some(advance_focus_spec(f)), ..s },
            Option::<IntentView>::None,
        ),
        KeyEvent::Enter => (
            s,
            if s.screen is NamespaceAdd {
                Some(
                    IntentView::CreateNamespace {
                        id: f.field_text(0),
                        name: f.field_text(1),
                        desc: f.field_text(2),
                    },
                )
            } else {
                Some(
                    IntentView::UpdateNamespace {
                        id: s.selected_namespace().ns_id,
                        name: f.field_text(0),
                        desc: f.field_text(1),
                    },
                )
            },
        ),
        _ => (AppView { form: Some(route_input_spec(f, key)), ..s }, Option::<IntentView>::None),
    }
}

/// The transition function of the machine: what one key press does.
///
/// In the terminal state nothing is processed. Otherwise the key clears the
/// error indicator of the previous action and acts according to the active
/// screen.
pub open spec fn step_spec(pre: AppView, key: KeyEvent) -> (AppView, Option<IntentView>) {
    if pre.state is Quitting {
        (pre, Option::<IntentView>::None)
    } else {
        let s = AppView { error: None, ..pre };
        match pre.screen {
            CurrentScreen::Main => main_step(s, key),
            CurrentScreen::NamespaceDelete => delete_step(s, key),
            CurrentScreen::NamespaceAdd => form_screen_step(s, key),
            CurrentScreen::NamespaceEdit => form_screen_step(s, key),
        }
    }
}

/// The namespace a submitted add form builds: name, id and description from
/// the three fields (an empty description collapses to no description),
/// default quota, no configurations yet, user-created kind.
pub open spec fn submitted_namespace(f: FormView) -> NamespaceItemView {
    NamespaceItemView {
        ns_name: f.field_text(1),
        ns_id: f.field_text(0),
        ns_desc: if f.field_text(2).len() == 0 {
            None
        } else {
            Some(f.field_text(2))
        },
        quota: DEFAULT_QUOTA as int,
        config_count: 0,
        ns_typs: NS_TYPE_USER_CREATED as int,
    }
}

/// Committing a successful create: the new namespace is appended to the
/// local list and the add screen is left.
pub open spec fn add_submit_spec(s: AppView) -> AppView {
    AppView {
        namespaces: s.namespaces.push(submitted_namespace(s.form.unwrap())),
        screen: CurrentScreen::Main,
        form: None,
        ..s
    }
}

/// Committing a successful update: the highlighted namespace's name and
/// description are replaced in place and the edit screen is left.
pub open spec fn edit_submit_spec(s: AppView) -> AppView {
    let f = s.form.unwrap();
    let ns = s.selected_namespace();
    AppView {
        namespaces: s.namespaces.update(
            s.line,
            NamespaceItemView {
                ns_name: f.field_text(0),
                ns_desc: if f.field_text(1).len() == 0 {
                    None
                } else {
                    Some(f.field_text(1))
                },
                ..ns
            },
        ),
        screen: CurrentScreen::Main,
        form: None,
        ..s
    }
}

/// Committing a successful delete: the highlighted namespace leaves the
/// local list, the cursor moves one up when it can, and the configuration
/// tab is clamped to the shorter list.
pub open spec fn delete_commit_spec(s: AppView) -> AppView {
    if s.namespaces.len() > 0 && s.line < s.namespaces.len() {
        let rest = s.namespaces.remove(s.line);
        AppView {
            namespaces: rest,
            line: if s.line > 0 {
                s.line - 1
            } else {
                0
            },
            config_tab: if rest.len() == 0 {
                0
            } else if s.config_tab < rest.len() {
                s.config_tab
            } else {
                rest.len() - 1
            },
            screen: CurrentScreen::Main,
            ..s
        }
    } else {
        AppView { screen: CurrentScreen::Main, ..s }
    }
}

/// What a remote call's result does to the machine.
///
/// Local caches change only on success, and only while the screen the call
/// was issued from is still active; every failure leaves local state as it
/// was and surfaces the error. A result of `Ok(false)` — the service
/// declined without an error — changes nothing.
pub open spec fn outcome_spec(s: AppView, o: OutcomeView) -> AppView {
    match o {
        OutcomeView::CreateResult(r) => match r {
            Ok(b) => if b && s.screen is NamespaceAdd {
                add_submit_spec(s)
            } else {
                s
            },
            Err(e) => AppView { error: Some(e), ..s },
        },
        OutcomeView::UpdateResult(r) => match r {
            Ok(b) => if b && s.screen is NamespaceEdit {
                edit_submit_spec(s)
            } else {
                s
            },
            Err(e) => AppView { error: Some(e), ..s },
        },
        OutcomeView::DeleteResult(r) => match r {
            Ok(b) => if b && s.screen is Main {
                delete_commit_spec(s)
            } else {
                s
            },
            Err(e) => AppView { error: Some(e), ..s },
        },
        OutcomeView::ConfigList(r) => match r {
            Ok(list) => AppView { configs: list, ..s },
            Err(e) => AppView { error: Some(e), ..s },
        },
    }
}

/// Every key press preserves the machine's invariant.
pub proof fn lemma_step_spec_wf(s: AppView, key: KeyEvent)
    requires
        s.wf(),
    ensures
        step_spec(s, key).0.wf(),
{
    if s.state is Running {
        let s1 = AppView { error: None, ..s };
        if s.screen is NamespaceAdd || s.screen is NamespaceEdit {
            let f = s1.form.unwrap();
            crate::form::lemma_route_input_wf(f, key);
            crate::form::lemma_advance_focus_wf(f);
        }
        if s.screen is Main && key is Tab && s.menu is Config && s.namespaces.len() > 0 {
            vstd::arithmetic::div_mod::lemma_mod_bound(
                s.config_tab + 1,
                s.namespaces.len() as int,
            );
        }
    }
}

/// Every remote-call result preserves the machine's invariant.
pub proof fn lemma_outcome_spec_wf(s: AppView, o: OutcomeView)
    requires
        s.wf(),
    ensures
        outcome_spec(s, o).wf(),
{
}

/// The screen state machine.
pub struct App {
    pub state: AppState,
    pub current_screen: CurrentScreen,
    pub current_menu: CurrentMenu,
    /// Which namespace's configurations the configuration menu shows.
    pub config_current_tab: usize,
    /// Configuration entries of the namespace the tab selects.
    pub config_list: Vec<ConfigItem>,
    /// The namespace cache: the single rendering source for namespaces.
    pub namespace_list: Vec<NamespaceItem>,
    /// The list cursor of the namespace menu.
    pub namespace_current_line: u8,
    /// The active form, present exactly on the add and edit screens.
    pub form: Option<Form>,
    /// The error of the last failed remote call, until the next key press.
    pub last_error: Option<RemoteError>,
}

impl View for App {
    type V = AppView;

    open spec fn view(&self) -> AppView {
        AppView {
            state: self.state,
            screen: self.current_screen,
            menu: self.current_menu,
            config_tab: self.config_current_tab as int,
            configs: self.config_list@.map_values(|c: ConfigItem| c@),
            namespaces: self.namespace_list@.map_values(|n: NamespaceItem| n@),
            line: self.namespace_current_line as int,
            form: match &self.form {
                Some(f) => Some(f@),
                None => None,
            },
            error: match &self.last_error {
                Some(e) => Some(e@),
                None => None,
            },
        }
    }
}

/// The state the console starts in: main screen, configuration menu,
/// sample caches in place of the first remote listings.
pub open spec fn initial_app_view() -> AppView {
    AppView {
        state: AppState::Running,
        screen: CurrentScreen::Main,
        menu: CurrentMenu::Config,
        config_tab: 0,
        configs: seq![
            ConfigItemView {
                data_id: "example-data-id"@,
                group: "example-group"@,
                format: "json"@,
                content: "example content"@,
            },
            ConfigItemView {
                data_id: "another-data-id"@,
                group: "another-group"@,
                format: "xml"@,
                content: "another content"@,
            },
        ],
        namespaces: seq![
            NamespaceItemView {
                ns_name: "public"@,
                ns_id: ""@,
                ns_desc: None,
                quota: DEFAULT_QUOTA as int,
                config_count: 2,
                ns_typs: NS_TYPE_DEFAULT as int,
            },
            NamespaceItemView {
                ns_name: "cc-test"@,
                ns_id: "12a6c145-6632-4131-9f1d-a04e46d9e714"@,
                ns_desc: Some("cc-test desc"@),
                quota: DEFAULT_QUOTA as int,
                config_count: 2,
                ns_typs: NS_TYPE_USER_CREATED as int,
            },
            NamespaceItemView {
                ns_name: "cc-test2"@,
                ns_id: "12a6c145-6632-4131-9f1d-a04e46d9e715"@,
                ns_desc: Some("cc-test2 desc"@),
                quota: DEFAULT_QUOTA as int,
                config_count: 0,
                ns_typs: NS_TYPE_USER_CREATED as int,
            },
        ],
        line: 0,
        form: None,
        error: None,
    }
}

impl App {
    /// A console in its start state.
    pub fn new() -> (r: App)
        ensures
            r@ == initial_app_view(),
            r@.wf(),
    {
        let config_list: Vec<ConfigItem> = vec![
            ConfigItem {
                data_id: String::from_str("example-data-id"),
                group: String::from_str("example-group"),
                format: String::from_str("json"),
                content: String::from_str("example content"),
            },
            ConfigItem {
                data_id: String::from_str("another-data-id"),
                group: String::from_str("another-group"),
                format: String::from_str("xml"),
                content: String::from_str("another content"),
            },
        ];
        let namespace_list: Vec<NamespaceItem> = vec![
            NamespaceItem {
                ns_name: String::from_str("public"),
                ns_id: String::from_str(""),
                ns_desc: None,
                quota: DEFAULT_QUOTA,
                config_count: 2,
                ns_typs: NS_TYPE_DEFAULT,
            },
            NamespaceItem {
                ns_name: String::from_str("cc-test"),
                ns_id: String::from_str("12a6c145-6632-4131-9f1d-a04e46d9e714"),
                ns_desc: Some(String::from_str("cc-test desc")),
                quota: DEFAULT_QUOTA,
                config_count: 2,
                ns_typs: NS_TYPE_USER_CREATED,
            },
            NamespaceItem {
                ns_name: String::from_str("cc-test2"),
                ns_id: String::from_str("12a6c145-6632-4131-9f1d-a04e46d9e715"),
                ns_desc: Some(String::from_str("cc-test2 desc")),
                quota: DEFAULT_QUOTA,
                config_count: 0,
                ns_typs: NS_TYPE_USER_CREATED,
            },
        ];
        let r = App {
            state: AppState::Running,
            current_screen: CurrentScreen::Main,
            current_menu: CurrentMenu::Config,
            config_current_tab: 0,
            config_list,
            namespace_list,
            namespace_current_line: 0,
            form: None,
            last_error: None,
        };
        proof {
            assert(r@.configs =~= initial_app_view().configs);
            assert(r@.namespaces =~= initial_app_view().namespaces);
            assert(r@ =~= initial_app_view());
        }
        r
    }

    /// The id of the highlighted namespace.
    fn selected_ns_id(&self) -> (r: String)
        requires
            self@.wf(),
            self@.namespaces.len() > 0,
        ensures
            r@ == self@.selected_namespace().ns_id,
    {
        let i = self.namespace_current_line as usize;
        self.namespace_list[i].ns_id.clone()
    }

    /// Opens the add screen with a fresh three-field form.
    pub fn move_screen_main_to_ns_add(&mut self)
        requires
            old(self)@.wf(),
            old(self)@.screen is Main,
        ensures
            final(self)@.wf(),
            final(self)@ == open_add_spec(old(self)@),
    {
        self.current_screen = CurrentScreen::NamespaceAdd;
        let f = Form::new_add();
        proof {
            assert(f@.fields =~= open_add_spec(old(self)@).form.unwrap().fields);
            assert(f@ =~= open_add_spec(old(self)@).form.unwrap());
        }
        self.form = Some(f);
        proof {
            assert(self@ =~= open_add_spec(old(self)@));
        }
    }

    /// Opens the edit screen with a form pre-filled from the highlighted
    /// namespace.
    pub fn move_screen_main_to_ns_edit(&mut self)
        requires
            old(self)@.wf(),
            old(self)@.screen is Main,
            old(self)@.namespaces.len() > 0,
        ensures
            final(self)@.wf(),
            final(self)@ == open_edit_spec(old(self)@),
    {
        self.current_screen = CurrentScreen::NamespaceEdit;
        let i = self.namespace_current_line as usize;
        let name = self.namespace_list[i].ns_name.as_str();
        let desc = match &self.namespace_list[i].ns_desc {
            Some(d) => d.as_str(),
            None => "",
        };
        let f = Form::new_edit(name, desc);
        proof {
            let ghost ns = old(self)@.selected_namespace();
            if old(self)@.selected_namespace().ns_desc is None {
                reveal_strlit("");
                assert(""@ =~= Seq::<char>::empty());
            }
            assert(f@.fields[0] =~= prefilled_field(ns.ns_name));
            assert(f@.fields[1] =~= prefilled_field(desc_or_empty(ns)));
            assert(f@.fields =~= open_edit_spec(old(self)@).form.unwrap().fields);
            assert(f@ =~= open_edit_spec(old(self)@).form.unwrap());
        }
        self.form = Some(f);
        proof {
            assert(self@ =~= open_edit_spec(old(self)@));
        }
    }

    /// Opens the delete-confirmation gate over the highlighted namespace.
    pub fn move_screen_main_to_ns_delete(&mut self)
        requires
            old(self)@.wf(),
            old(self)@.screen is Main,
            old(self)@.namespaces.len() > 0,
        ensures
            final(self)@.wf(),
            final(self)@ == (AppView { screen: CurrentScreen::NamespaceDelete, ..old(self)@ }),
    {
        self.current_screen = CurrentScreen::NamespaceDelete;
        proof {
            assert(self@ =~= AppView { screen: CurrentScreen::NamespaceDelete, ..old(self)@ });
        }
    }

    /// Leaves a form screen for the main screen, destroying the form.
    pub fn move_screen_ns_add_to_main(&mut self)
        requires
            old(self)@.wf(),
        ensures
            final(self)@.wf(),
            final(self)@ == close_form_spec(old(self)@),
    {
        self.current_screen = CurrentScreen::Main;
        self.form = None;
        proof {
            assert(self@ =~= close_form_spec(old(self)@));
        }
    }

    /// Forwards a key press to the focused field of the active form.
    pub fn handle_input(&mut self, key: KeyEvent)
        requires
            old(self)@.wf(),
            old(self)@.form is Some,
        ensures
            final(self)@.wf(),
            final(self)@ == (AppView {
                form: Some(route_input_spec(old(self)@.form.unwrap(), key)),
                ..old(self)@
            }),
    {
        match &mut self.form {
            Some(f) => {
                f.route_input(key);
            },
            None => {},
        }
        proof {
            assert(self@ =~= AppView {
                form: Some(route_input_spec(old(self)@.form.unwrap(), key)),
                ..old(self)@
            });
        }
    }

    /// Moves the list cursor one up, stopping at the top.
    fn nav_up(&mut self)
        requires
            old(self)@.wf(),
        ensures
            final(self)@.wf(),
            final(self)@ == nav_up_spec(old(self)@),
    {
        if self.current_menu == CurrentMenu::Namespace && self.namespace_current_line > 0 {
            self.namespace_current_line = self.namespace_current_line - 1;
        }
        proof {
            assert(self@ =~= nav_up_spec(old(self)@));
        }
    }

    /// Moves the list cursor one down, stopping at the last entry.
    fn nav_down(&mut self)
        requires
            old(self)@.wf(),
        ensures
            final(self)@.wf(),
            final(self)@ == nav_down_spec(old(self)@),
    {
        if self.current_menu == CurrentMenu::Namespace {
            let line = self.namespace_current_line as usize;
            if line + 1 < self.namespace_list.len() && self.namespace_current_line < u8::MAX {
                self.namespace_current_line = self.namespace_current_line + 1;
            }
        }
        proof {
            assert(self@ =~= nav_down_spec(old(self)@));
        }
    }

    /// One key press on the main screen.
    fn step_main(&mut self, key: KeyEvent) -> (intent: Option<Intent>)
        requires
            old(self)@.wf(),
            old(self)@.screen is Main,
        ensures
            final(self)@.wf(),
            final(self)@ == main_step(old(self)@, key).0,
            opt_intent_view(intent) == main_step(old(self)@, key).1,
    {
        match key {
            KeyEvent::Char(c) => {
                if c == 'q' {
                    self.state = AppState::Quitting;
                    proof {
                        assert(self@ =~= main_step(old(self)@, key).0);
                    }
                    Some(Intent::Quit)
                } else if c == '1' {
                    self.current_menu = CurrentMenu::Config;
                    proof {
                        assert(self@ =~= main_step(old(self)@, key).0);
                    }
                    None
                } else if c == '2' {
                    self.current_menu = CurrentMenu::Service;
                    proof {
                        assert(self@ =~= main_step(old(self)@, key).0);
                    }
                    None
                } else if c == '3' {
                    self.current_menu = CurrentMenu::Namespace;
                    proof {
                        assert(self@ =~= main_step(old(self)@, key).0);
                    }
                    None
                } else if c == 'k' {
                    self.nav_up();
                    None
                } else if c == 'j' {
                    self.nav_down();
                    None
                } else if c == 'a' && self.current_menu == CurrentMenu::Namespace {
                    self.move_screen_main_to_ns_add();
                    None
                } else if c == 'e' && self.current_menu == CurrentMenu::Namespace
                    && self.namespace_list.len() > 0 {
                    self.move_screen_main_to_ns_edit();
                    None
                } else if c == 'd' && self.current_menu == CurrentMenu::Namespace
                    && self.namespace_list.len() > 0 {
                    self.move_screen_main_to_ns_delete();
                    None
                } else {
                    None
                }
            },
            KeyEvent::Up => {
                self.nav_up();
                None
            },
            KeyEvent::Down => {
                self.nav_down();
                None
            },
            KeyEvent::Tab => {
                if self.current_menu == CurrentMenu::Config && self.namespace_list.len() > 0 {
                    let n = self.namespace_list.len();
                    let t = (self.config_current_tab + 1) % n;
                    let moved = t != self.config_current_tab;
                    self.config_current_tab = t;
                    proof {
                        vstd::arithmetic::div_mod::lemma_mod_bound(
                            old(self)@.config_tab + 1,
                            old(self)@.namespaces.len() as int,
                        );
                        assert(self@ =~= tab_step_spec(old(self)@).0);
                    }
                    if moved {
                        let id = self.selected_tab_ns_id();
                        Some(Intent::FetchConfigs { ns_id: id })
                    } else {
                        None
                    }
                } else {
                    None
                }
            },
            _ => None,
        }
    }

    /// The id of the namespace the configuration tab selects.
    fn selected_tab_ns_id(&self) -> (r: String)
        requires
            self@.wf(),
            self@.namespaces.len() > 0,
        ensures
            r@ == self@.namespaces[self@.config_tab].ns_id,
    {
        self.namespace_list[self.config_current_tab].ns_id.clone()
    }

    /// One key press on the delete-confirmation gate.
    fn step_delete(&mut self, key: KeyEvent) -> (intent: Option<Intent>)
        requires
            old(self)@.wf(),
            old(self)@.screen is NamespaceDelete,
        ensures
            final(self)@.wf(),
            final(self)@ == delete_step(old(self)@, key).0,
            opt_intent_view(intent) == delete_step(old(self)@, key).1,
    {
        match key {
            KeyEvent::Esc => {
                self.current_screen = CurrentScreen::Main;
                proof {
                    assert(self@ =~= delete_step(old(self)@, key).0);
                }
                None
            },
            KeyEvent::Char(c) => {
                if c == 'n' {
                    self.current_screen = CurrentScreen::Main;
                    proof {
                        assert(self@ =~= delete_step(old(self)@, key).0);
                    }
                    None
                } else if c == 'y' {
                    let id = self.selected_ns_id();
                    self.current_screen = CurrentScreen::Main;
                    proof {
                        assert(self@ =~= delete_step(old(self)@, key).0);
                    }
                    Some(Intent::DeleteNamespace { id })
                } else {
                    None
                }
            },
            _ => None,
        }
    }

    /// One key press on a form screen.
    fn step_form(&mut self, key: KeyEvent) -> (intent: Option<Intent>)
        requires
            old(self)@.wf(),
            old(self)@.screen is NamespaceAdd || old(self)@.screen is NamespaceEdit,
        ensures
            final(self)@.wf(),
            final(self)@ == form_screen_step(old(self)@, key).0,
            opt_intent_view(intent) == form_screen_step(old(self)@, key).1,
    {
        match key {
            KeyEvent::Esc => {
                self.move_screen_ns_add_to_main();
                None
            },
            KeyEvent::Tab => {
                match &mut self.form {
                    Some(f) => {
                        f.advance_focus();
                    },
                    None => {},
                }
                proof {
                    crate::form::lemma_advance_focus_wf(old(self)@.form.unwrap());
                    assert(self@ =~= form_screen_step(old(self)@, key).0);
                }
                None
            },
            KeyEvent::Enter => {
                let intent = if self.current_screen == CurrentScreen::NamespaceAdd {
                    match &self.form {
                        Some(f) => Some(
                            Intent::CreateNamespace {
                                id: f.field_text(0),
                                name: f.field_text(1),
                                desc: f.field_text(2),
                            },
                        ),
                        None => None,
                    }
                } else {
                    let id = self.selected_ns_id();
                    match &self.form {
                        Some(f) => Some(
                            Intent::UpdateNamespace {
                                id,
                                name: f.field_text(0),
                                desc: f.field_text(1),
                            },
                        ),
                        None => None,
                    }
                };
                intent
            },
            _ => {
                self.handle_input(key);
                proof {
                    crate::form::lemma_route_input_wf(old(self)@.form.unwrap(), key);
                }
                None
            },
        }
    }

    /// Processes one key press: the machine takes one step of
    /// [`step_spec`], and the returned intent, if any, names the remote
    /// call the runtime should now make.
    pub fn handle_key(&mut self, key: KeyEvent) -> (intent: Option<Intent>)
        requires
            old(self)@.wf(),
        ensures
            final(self)@.wf(),
            final(self)@ == step_spec(old(self)@, key).0,
            opt_intent_view(intent) == step_spec(old(self)@, key).1,
    {
        match self.state {
            AppState::Quitting => None,
            AppState::Running => {
                self.last_error = None;
                proof {
                    assert(self@ =~= AppView { error: None, ..old(self)@ });
                }
                match self.current_screen {
                    CurrentScreen::Main => self.step_main(key),
                    CurrentScreen::NamespaceDelete => self.step_delete(key),
                    CurrentScreen::NamespaceAdd => self.step_form(key),
                    CurrentScreen::NamespaceEdit => self.step_form(key),
                }
            },
        }
    }

    /// Commits a successful create: builds the namespace from the form,
    /// appends it to the local list and leaves the add screen.
    pub fn ns_add_submit(&mut self)
        requires
            old(self)@.wf(),
            old(self)@.screen is NamespaceAdd,
        ensures
            final(self)@.wf(),
            final(self)@ == add_submit_spec(old(self)@),
    {
        let (id, name, desc) = match &self.form {
            Some(f) => (f.field_text(0), f.field_text(1), f.field_text(2)),
            None => (String::new(), String::new(), String::new()),
        };
        let new_ns = NamespaceItem {
            ns_name: name,
            ns_id: id,
            ns_desc: if desc.as_str().is_empty() {
                None
            } else {
                Some(desc)
            },
            quota: DEFAULT_QUOTA,
            config_count: 0,
            ns_typs: NS_TYPE_USER_CREATED,
        };
        proof {
            assert(new_ns@ =~= submitted_namespace(old(self)@.form.unwrap()));
        }
        self.namespace_list.push(new_ns);
        self.move_screen_ns_add_to_main();
        proof {
            assert(self@.namespaces =~= add_submit_spec(old(self)@).namespaces);
            assert(self@ =~= add_submit_spec(old(self)@));
        }
    }

    /// Commits a successful update: replaces the highlighted namespace's
    /// name and description in place and leaves the edit screen.
    pub fn ns_edit_submit(&mut self)
        requires
            old(self)@.wf(),
            old(self)@.screen is NamespaceEdit,
        ensures
            final(self)@.wf(),
            final(self)@ == edit_submit_spec(old(self)@),
    {
        let (name, desc) = match &self.form {
            Some(f) => (f.field_text(0), f.field_text(1)),
            None => (String::new(), String::new()),
        };
        let i = self.namespace_current_line as usize;
        let ns = &mut self.namespace_list[i];
        ns.ns_name = name;
        ns.ns_desc = if desc.as_str().is_empty() {
            None
        } else {
            Some(desc)
        };
        self.move_screen_ns_add_to_main();
        proof {
            assert(self@.namespaces =~= edit_submit_spec(old(self)@).namespaces);
            assert(self@ =~= edit_submit_spec(old(self)@));
        }
    }

    /// Commits a successful delete: removes the highlighted namespace from
    /// the local list, moving the cursor one up when it can and clamping
    /// the configuration tab.
    pub fn ns_delete(&mut self)
        requires
            old(self)@.wf(),
            old(self)@.form is None,
        ensures
            final(self)@.wf(),
            final(self)@ == delete_commit_spec(old(self)@),
    {
        let line = self.namespace_current_line as usize;
        if line < self.namespace_list.len() {
            self.namespace_list.remove(line);
            if self.namespace_current_line > 0 {
                self.namespace_current_line = self.namespace_current_line - 1;
            }
            let len = self.namespace_list.len();
            if len == 0 {
                self.config_current_tab = 0;
            } else if self.config_current_tab >= len {
                self.config_current_tab = len - 1;
            }
        }
        self.current_screen = CurrentScreen::Main;
        proof {
            assert(self@.namespaces =~= delete_commit_spec(old(self)@).namespaces);
            assert(self@ =~= delete_commit_spec(old(self)@));
        }
    }

    /// Feeds the result of a remote call back into the machine, as
    /// [`outcome_spec`] describes: caches change only on success, failures
    /// surface as the current error.
    pub fn apply_outcome(&mut self, outcome: Outcome)
        requires
            old(self)@.wf(),
        ensures
            final(self)@.wf(),
            final(self)@ == outcome_spec(old(self)@, outcome@),
    {
        match outcome {
            Outcome::CreateResult(r) => match r {
                Ok(b) => {
                    if b && self.current_screen == CurrentScreen::NamespaceAdd {
                        self.ns_add_submit();
                    }
                },
                Err(e) => {
                    self.last_error = Some(e);
                    proof {
                        assert(self@ =~= outcome_spec(old(self)@, outcome@));
                    }
                },
            },
            Outcome::UpdateResult(r) => match r {
                Ok(b) => {
                    if b && self.current_screen == CurrentScreen::NamespaceEdit {
                        self.ns_edit_submit();
                    }
                },
                Err(e) => {
                    self.last_error = Some(e);
                    proof {
                        assert(self@ =~= outcome_spec(old(self)@, outcome@));
                    }
                },
            },
            Outcome::DeleteResult(r) => match r {
                Ok(b) => {
                    if b && self.current_screen == CurrentScreen::Main {
                        self.ns_delete();
                    }
                },
                Err(e) => {
                    self.last_error = Some(e);
                    proof {
                        assert(self@ =~= outcome_spec(old(self)@, outcome@));
                    }
                },
            },
            Outcome::ConfigList(r) => match r {
                Ok(list) => {
                    self.config_list = list;
                    proof {
                        assert(self@ =~= outcome_spec(old(self)@, outcome@));
                    }
                },
                Err(e) => {
                    self.last_error = Some(e);
                    proof {
                        assert(self@ =~= outcome_spec(old(self)@, outcome@));
                    }
                },
            },
        }
    }
}

} // verus!

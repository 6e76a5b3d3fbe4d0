//! The application state machine.
//!
//! A single aggregate holds the current screen, the login form, the scan and
//! monitor state, the menu and its cursor, the quit flag and the log store.
//! The coordination loop drives it through three entry points — [`App::on_key`]
//! for key presses, [`App::on_tick`] for the periodic tick and
//! [`App::on_event`] for internal completion signals — and then performs the
//! returned [`Effect`]; the state machine itself does no I/O.

use crate::events::AppEvent;
use crate::logger::{LogEntry, LogStore};
use crate::monitor::{spec_record, Series};
use crate::runner::{compose_args, spec_compose_args, spec_quoted_list, quoted_list};
use crate::wave::{signal_centi, spec_cpu_centi, spec_mem_centi};
use vstd::prelude::*;

verus! {

/// Which screen is on display. `Login` is the unique initial screen; the
/// overlay screens `Monitor` and `UrlInput` are reached from `Table` only.
#[derive(Clone, Copy, PartialEq, Eq, Structural, Debug)]
pub enum CurrentScreen {
    Login,
    Table,
    Monitor,
    UrlInput,
}

/// Which field of the login form has focus.
#[derive(Clone, Copy, PartialEq, Eq, Structural, Debug)]
pub enum LoginField {
    Username,
    Password,
}

/// One key press, as the coordination loop hands it to the state machine.
#[derive(Clone, Copy, PartialEq, Eq, Structural, Debug)]
pub enum Key {
    Esc,
    Tab,
    Enter,
    Backspace,
    Up,
    Down,
    Char(char),
    Other,
}

/// What the caller must do after a transition. The state machine never
/// spawns or awaits anything itself; it hands the work out.
pub enum Effect {
    /// Nothing to do.
    NoOp,
    /// Launch the container-orchestration CLI with these arguments.
    RunDocker(Vec<String>),
    /// Open this URL in the platform browser.
    OpenBrowser(String),
    /// Open a terminal window running the fixed test command.
    RunTests,
    /// Launch exactly one scan task against this target URL.
    StartScan(String),
}

/// The number of menu rows.
pub const MENU_LEN: usize = 7;

/// Progress is kept in thousandths; this is the value meaning "done".
pub const PROGRESS_FULL: u32 = 1000;

/// How much one tick advances the progress estimate (in thousandths).
pub const PROGRESS_STEP: u32 = 5;

/// The one accepted username.
pub open spec fn spec_username() -> Seq<char> {
    "phishvault"@
}

/// The one accepted password.
pub open spec fn spec_password() -> Seq<char> {
    "phishvault-tp2"@
}

/// The fixed menu: id, category, status, description per row.
pub open spec fn spec_menu() -> Seq<(Seq<char>, Seq<char>, Seq<char>, Seq<char>)> {
    seq![
        ("scan-target"@, "Security Job"@, "Ready"@, "Start Phishing Scan"@),
        ("infra-up"@, "Infrastructure"@, "Stopped"@, "docker-compose up -d"@),
        ("infra-down"@, "Infrastructure"@, "-"@, "docker-compose down"@),
        ("view-graph"@, "Visual AI"@, "Online"@, "open neo4j browser"@),
        ("check-storage"@, "Storage"@, "Online"@, "open minio console"@),
        ("check-queue"@, "Messaging"@, "Active"@, "open rabbitmq"@),
        ("run-tests"@, "System"@, "-"@, "go test ./..."@),
    ]
}

/// The cursor row after moving one down, wrapping at the last row.
pub open spec fn spec_wrap_next(sel: int, len: int) -> int {
    if sel >= len - 1 {
        0
    } else {
        sel + 1
    }
}

/// The cursor row after moving one up, wrapping at row zero.
pub open spec fn spec_wrap_prev(sel: int, len: int) -> int {
    if sel == 0 {
        len - 1
    } else {
        sel - 1
    }
}

/// The other login field.
pub open spec fn spec_toggle(f: LoginField) -> LoginField {
    match f {
        LoginField::Username => LoginField::Password,
        LoginField::Password => LoginField::Username,
    }
}

/// The single mutable aggregate of the dashboard.
pub struct App {
    pub screen: CurrentScreen,
    pub logs: LogStore,
    pub login_field: LoginField,
    pub username_input: String,
    pub password_input: String,
    pub login_error: String,
    pub scan_active: bool,
    /// Synthetic progress estimate in thousandths, clamped to `[0, 1000]`.
    pub scan_progress: u32,
    pub scan_status: String,
    pub url_input: String,
    pub cpu_data: Series,
    pub mem_data: Series,
    /// The visible time window of the charts, in elapsed milliseconds.
    pub window: (u64, u64),
    pub items: Vec<(String, String, String, String)>,
    pub selected: usize,
    pub should_quit: bool,
}

impl App {
    /// Well-formedness: the menu is the fixed one, the cursor points at a
    /// row, progress is clamped and the series respect their cap.
    pub open spec fn wf(&self) -> bool {
        &&& self.items@.len() == MENU_LEN
        &&& self.items.deep_view() == spec_menu()
        &&& self.selected < MENU_LEN
        &&& self.scan_progress <= PROGRESS_FULL
        &&& self.cpu_data.wf()
        &&& self.mem_data.wf()
    }

    /// The freshly started application: login screen, empty form, locked
    /// scan state, empty charts, cursor on the first row, one greeting log
    /// entry.
    pub fn new() -> (app: App)
        ensures
            app.wf(),
            app.screen == CurrentScreen::Login,
            app.login_field == LoginField::Username,
            app.username_input@ == Seq::<char>::empty(),
            app.password_input@ == Seq::<char>::empty(),
            app.login_error@ == Seq::<char>::empty(),
            !app.scan_active,
            app.scan_progress == 0,
            app.scan_status@ == "LOCKED"@,
            app.url_input@ == "https://"@,
            app.cpu_data@ == Seq::<(u64, u64)>::empty(),
            app.mem_data@ == Seq::<(u64, u64)>::empty(),
            app.window == (0u64, 100000u64),
            app.selected == 0,
            !app.should_quit,
            app.logs@ == seq![("INFO"@, "Authentication Required."@)],
    {
        let mut logs = LogStore::new();
        logs.append(LogEntry::new("INFO", "Authentication Required."));
        proof {
            assert(logs@ =~= seq![("INFO"@, "Authentication Required."@)]);
        }
        let mut items: Vec<(String, String, String, String)> = Vec::new();
        items.push(
            (
                "scan-target".to_owned(),
                "Security Job".to_owned(),
                "Ready".to_owned(),
                "Start Phishing Scan".to_owned(),
            ),
        );
        items.push(
            (
                "infra-up".to_owned(),
                "Infrastructure".to_owned(),
                "Stopped".to_owned(),
                "docker-compose up -d".to_owned(),
            ),
        );
        items.push(
            (
                "infra-down".to_owned(),
                "Infrastructure".to_owned(),
                "-".to_owned(),
                "docker-compose down".to_owned(),
            ),
        );
        items.push(
            (
                "view-graph".to_owned(),
                "Visual AI".to_owned(),
                "Online".to_owned(),
                "open neo4j browser".to_owned(),
            ),
        );
        items.push(
            (
                "check-storage".to_owned(),
                "Storage".to_owned(),
                "Online".to_owned(),
                "open minio console".to_owned(),
            ),
        );
        items.push(
            (
                "check-queue".to_owned(),
                "Messaging".to_owned(),
                "Active".to_owned(),
                "open rabbitmq".to_owned(),
            ),
        );
        items.push(
            ("run-tests".to_owned(), "System".to_owned(), "-".to_owned(), "go test ./...".to_owned()),
        );
        proof {
            assert(items.deep_view() =~= spec_menu());
        }
        App {
            screen: CurrentScreen::Login,
            logs,
            login_field: LoginField::Username,
            username_input: String::new(),
            password_input: String::new(),
            login_error: String::new(),
            scan_active: false,
            scan_progress: 0,
            scan_status: "LOCKED".to_owned(),
            url_input: "https://".to_owned(),
            cpu_data: Series::new(),
            mem_data: Series::new(),
            window: (0, 100000),
            items,
            selected: 0,
            should_quit: false,
        }
    }

    /// Moves the menu cursor one row down, wrapping to the first row.
    pub fn next_row(&mut self)
        requires
            old(self).wf(),
        ensures
            final(self).wf(),
            final(self).selected == spec_wrap_next(
                old(self).selected as int,
                old(self).items@.len() as int,
            ),
            *final(self) == (App { selected: final(self).selected, ..*old(self) }),
    {
        self.selected = if self.selected >= self.items.len() - 1 {
            0
        } else {
            self.selected + 1
        };
    }

    /// Moves the menu cursor one row up, wrapping to the last row.
    pub fn prev_row(&mut self)
        requires
            old(self).wf(),
        ensures
            final(self).wf(),
            final(self).selected == spec_wrap_prev(
                old(self).selected as int,
                old(self).items@.len() as int,
            ),
            *final(self) == (App { selected: final(self).selected, ..*old(self) }),
    {
        self.selected = if self.selected == 0 {
            self.items.len() - 1
        } else {
            self.selected - 1
        };
    }

    /// Logs the browser launch and hands the URL out to be opened.
    pub fn action_run_browser(&mut self, url: &str) -> (eff: Effect)
        ensures
            final(self).logs@ == old(self).logs@.push(
                ("CMD"@, "Opening Browser: "@ + url@),
            ),
            *final(self) == (App { logs: final(self).logs, ..*old(self) }),
            eff matches Effect::OpenBrowser(u) && u@ == url@,
    {
        let mut message = String::from_str("Opening Browser: ");
        message.append(url);
        self.logs.append(LogEntry { level: "CMD".to_owned(), message });
        Effect::OpenBrowser(url.to_owned())
    }

    /// Logs the orchestration command and hands its argument vector out to
    /// be spawned.
    pub fn action_run_docker(&mut self, args: Vec<String>) -> (eff: Effect)
        ensures
            final(self).logs@ == old(self).logs@.push(
                ("CMD"@, "Running Docker: "@ + spec_quoted_list(args.deep_view())),
            ),
            *final(self) == (App { logs: final(self).logs, ..*old(self) }),
            eff matches Effect::RunDocker(a) && a.deep_view() == args.deep_view(),
    {
        let mut message = String::from_str("Running Docker: ");
        let list = quoted_list(&args);
        message.append(list.as_str());
        self.logs.append(LogEntry { level: "CMD".to_owned(), message });
        Effect::RunDocker(args)
    }

    /// Applies one internal completion signal: a finished scan unlocks the
    /// scan state, marks it complete and pins progress at the full mark.
    pub fn on_event(&mut self, event: AppEvent)
        requires
            old(self).wf(),
        ensures
            final(self).wf(),
            !final(self).scan_active,
            final(self).scan_progress == PROGRESS_FULL,
            final(self).scan_status@ == "COMPLETE"@,
            *final(self) == (App {
                scan_active: false,
                scan_progress: PROGRESS_FULL,
                scan_status: final(self).scan_status,
                ..*old(self)
            }),
    {
        match event {
            AppEvent::ScanComplete => {
                self.scan_active = false;
                self.scan_status = "COMPLETE".to_owned();
                self.scan_progress = PROGRESS_FULL;
            },
        }
    }

    /// Applies one tick, unless the login screen still shows: samples the
    /// waveform into both series, slides the chart window to the trailing
    /// fifty seconds and nudges the progress estimate while a scan runs.
    pub fn on_tick(&mut self, now_ms: u64)
        requires
            old(self).wf(),
        ensures
            final(self).wf(),
            old(self).screen is Login ==> *final(self) == *old(self),
            !(old(self).screen is Login) ==> spec_tick(*old(self), *final(self), now_ms),
    {
        if self.screen == CurrentScreen::Login {
            return ;
        }
        let (cpu, mem) = signal_centi(now_ms, self.scan_active);
        self.cpu_data.record(now_ms, cpu);
        self.mem_data.record(now_ms, mem);
        self.window = if now_ms >= 50000 {
            (now_ms - 50000, now_ms)
        } else {
            (0, now_ms)
        };
        if self.scan_active && self.scan_progress < PROGRESS_FULL {
            let stepped = self.scan_progress + PROGRESS_STEP;
            self.scan_progress = if stepped > PROGRESS_FULL {
                PROGRESS_FULL
            } else {
                stepped
            };
        }
    }

    /// Applies one key press according to the current screen.
    pub fn on_key(&mut self, key: Key) -> (eff: Effect)
        requires
            old(self).wf(),
        ensures
            final(self).wf(),
            spec_key_step(*old(self), key, *final(self), eff),
    {
        match self.screen {
            CurrentScreen::Login => self.on_key_login(key),
            CurrentScreen::Table => self.on_key_table(key),
            CurrentScreen::Monitor => self.on_key_monitor(key),
            CurrentScreen::UrlInput => self.on_key_url(key),
        }
    }

    fn on_key_login(&mut self, key: Key) -> (eff: Effect)
        requires
            old(self).wf(),
            old(self).screen is Login,
        ensures
            final(self).wf(),
            spec_login_key(*old(self), key, *final(self), eff),
    {
        match key {
            Key::Esc => {
                self.should_quit = true;
            },
            Key::Tab => {
                self.login_field = match self.login_field {
                    LoginField::Username => LoginField::Password,
                    LoginField::Password => LoginField::Username,
                };
            },
            Key::Enter => {
                match self.login_field {
                    LoginField::Username => {
                        self.login_field = LoginField::Password;
                    },
                    LoginField::Password => {
                        let user_ok = self.username_input == "phishvault".to_owned();
                        let pass_ok = self.password_input == "phishvault-tp2".to_owned();
                        if user_ok && pass_ok {
                            self.screen = CurrentScreen::Table;
                            self.scan_status = "IDLE".to_owned();
                            self.logs.append(LogEntry::new("SUCCESS", "Admin Authenticated."));
                            self.login_error = String::new();
                        } else {
                            self.login_error = "Invalid Credentials!".to_owned();
                            self.password_input = String::new();
                        }
                    },
                }
            },
            Key::Char(c) => {
                match self.login_field {
                    LoginField::Username => push_char(&mut self.username_input, c),
                    LoginField::Password => push_char(&mut self.password_input, c),
                }
            },
            Key::Backspace => {
                match self.login_field {
                    LoginField::Username => {
                        pop_char(&mut self.username_input);
                    },
                    LoginField::Password => {
                        pop_char(&mut self.password_input);
                    },
                }
            },
            _ => {},
        }
        Effect::NoOp
    }

    fn on_key_table(&mut self, key: Key) -> (eff: Effect)
        requires
            old(self).wf(),
            old(self).screen is Table,
        ensures
            final(self).wf(),
            spec_table_key(*old(self), key, *final(self), eff),
    {
        match key {
            Key::Char(c) => {
                if c == 'q' {
                    self.should_quit = true;
                } else if c == 'j' {
                    self.next_row();
                } else if c == 'k' {
                    self.prev_row();
                }
                Effect::NoOp
            },
            Key::Down => {
                self.next_row();
                Effect::NoOp
            },
            Key::Up => {
                self.prev_row();
                Effect::NoOp
            },
            Key::Tab => {
                self.screen = CurrentScreen::Monitor;
                Effect::NoOp
            },
            Key::Enter => {
                let id = self.items[self.selected].0.clone();
                if id == "scan-target".to_owned() {
                    self.screen = CurrentScreen::UrlInput;
                    self.url_input = "https://".to_owned();
                    Effect::NoOp
                } else if id == "infra-up".to_owned() {
                    let args = compose_args(true);
                    self.action_run_docker(args)
                } else if id == "infra-down".to_owned() {
                    let args = compose_args(false);
                    self.action_run_docker(args)
                } else if id == "view-graph".to_owned() {
                    self.action_run_browser("http://localhost:7474")
                } else if id == "check-storage".to_owned() {
                    self.action_run_browser("http://localhost:9001")
                } else if id == "check-queue".to_owned() {
                    self.action_run_browser("http://localhost:15672")
                } else if id == "run-tests".to_owned() {
                    self.logs.append(LogEntry::new("CMD", "Running Unit Tests..."));
                    Effect::RunTests
                } else {
                    Effect::NoOp
                }
            },
            _ => Effect::NoOp,
        }
    }

    fn on_key_monitor(&mut self, key: Key) -> (eff: Effect)
        requires
            old(self).wf(),
            old(self).screen is Monitor,
        ensures
            final(self).wf(),
            spec_monitor_key(*old(self), key, *final(self), eff),
    {
        match key {
            Key::Char(c) => {
                if c == 'q' {
                    self.should_quit = true;
                }
            },
            Key::Tab | Key::Esc => {
                self.screen = CurrentScreen::Table;
            },
            _ => {},
        }
        Effect::NoOp
    }

    fn on_key_url(&mut self, key: Key) -> (eff: Effect)
        requires
            old(self).wf(),
            old(self).screen is UrlInput,
        ensures
            final(self).wf(),
            spec_url_key(*old(self), key, *final(self), eff),
    {
        match key {
            Key::Enter => {
                self.screen = CurrentScreen::Table;
                if !self.scan_active {
                    self.scan_active = true;
                    self.scan_status = "SCANNING".to_owned();
                    self.scan_progress = 0;
                    let target = self.url_input.clone();
                    Effect::StartScan(target)
                } else {
                    Effect::NoOp
                }
            },
            Key::Esc => {
                self.screen = CurrentScreen::Table;
                Effect::NoOp
            },
            Key::Char(c) => {
                push_char(&mut self.url_input, c);
                Effect::NoOp
            },
            Key::Backspace => {
                pop_char(&mut self.url_input);
                Effect::NoOp
            },
            _ => Effect::NoOp,
        }
    }
}

/// Relies on String::push: appends one character at the end.
#[verifier::external_body]
fn push_char(s: &mut String, c: char)
    ensures
        final(s)@ == old(s)@.push(c),
{
    s.push(c)
}

/// Relies on String::pop: removes and returns the last character, or returns
/// `None` and leaves the string as it is when it is empty.
#[verifier::external_body]
fn pop_char(s: &mut String) -> (r: Option<char>)
    ensures
        old(s)@.len() == 0 ==> final(s)@ == old(s)@ && r is None,
        old(s)@.len() > 0 ==> final(s)@ == old(s)@.drop_last() && r == Some(old(s)@.last()),
{
    s.pop()
}

/// How one tick changes the state (on any screen but the login screen):
/// both series take one waveform sample, the window slides to the trailing
/// fifty seconds (clamped at zero) and progress steps forward while a scan
/// is active, clamped at the full mark. Nothing else changes.
pub open spec fn spec_tick(pre: App, post: App, now_ms: u64) -> bool {
    &&& spec_record(
        pre.cpu_data@,
        post.cpu_data@,
        (now_ms, spec_cpu_centi(now_ms as int, pre.scan_active) as u64),
    )
    &&& spec_record(
        pre.mem_data@,
        post.mem_data@,
        (now_ms, spec_mem_centi(now_ms as int, pre.scan_active) as u64),
    )
    &&& post.window == (if now_ms >= 50000 {
        ((now_ms - 50000) as u64, now_ms)
    } else {
        (0u64, now_ms)
    })
    &&& post.scan_progress == (if pre.scan_active && pre.scan_progress < PROGRESS_FULL {
        if pre.scan_progress + PROGRESS_STEP > PROGRESS_FULL {
            PROGRESS_FULL as int
        } else {
            pre.scan_progress + PROGRESS_STEP
        }
    } else {
        pre.scan_progress as int
    })
    &&& post == (App {
        cpu_data: post.cpu_data,
        mem_data: post.mem_data,
        window: post.window,
        scan_progress: post.scan_progress,
        ..pre
    })
}

/// Progress is clamped to the unit interval (in thousandths) and a tick
/// advances it only while a scan is active.
pub proof fn lemma_progress_clamped(pre: App, post: App, now_ms: u64)
    requires
        pre.wf(),
        spec_tick(pre, post, now_ms),
    ensures
        post.scan_progress <= PROGRESS_FULL,
        !pre.scan_active ==> post.scan_progress == pre.scan_progress,
        pre.scan_active ==> pre.scan_progress <= post.scan_progress,
{
}

/// The screen-graph invariants: the login screen is never re-entered once
/// left, and the monitor and URL-prompt screens are entered from the table
/// screen only.
pub proof fn lemma_screen_transitions(pre: App, key: Key, post: App, eff: Effect)
    requires
        spec_key_step(pre, key, post, eff),
    ensures
        !(pre.screen is Login) ==> !(post.screen is Login),
        post.screen is Monitor && pre.screen != CurrentScreen::Monitor ==> pre.screen is Table,
        post.screen is UrlInput && pre.screen != CurrentScreen::UrlInput ==> pre.screen is Table,
{
}

/// How one key press changes the state, by screen.
pub open spec fn spec_key_step(pre: App, key: Key, post: App, eff: Effect) -> bool {
    match pre.screen {
        CurrentScreen::Login => spec_login_key(pre, key, post, eff),
        CurrentScreen::Table => spec_table_key(pre, key, post, eff),
        CurrentScreen::Monitor => spec_monitor_key(pre, key, post, eff),
        CurrentScreen::UrlInput => spec_url_key(pre, key, post, eff),
    }
}

/// Login screen: Esc requests quit; Tab toggles focus; Enter on the username
/// moves focus on, Enter on the password submits the form; characters and
/// Backspace edit the focused field. No key here has an effect beyond the
/// state.
pub open spec fn spec_login_key(pre: App, key: Key, post: App, eff: Effect) -> bool {
    &&& eff is NoOp
    &&& match key {
        Key::Esc => post == (App { should_quit: true, ..pre }),
        Key::Tab => post == (App { login_field: spec_toggle(pre.login_field), ..pre }),
        Key::Enter => match pre.login_field {
            LoginField::Username => post == (App { login_field: LoginField::Password, ..pre }),
            LoginField::Password => spec_login_submit(pre, post),
        },
        Key::Char(c) => match pre.login_field {
            LoginField::Username => {
                &&& post.username_input@ == pre.username_input@.push(c)
                &&& post == (App { username_input: post.username_input, ..pre })
            },
            LoginField::Password => {
                &&& post.password_input@ == pre.password_input@.push(c)
                &&& post == (App { password_input: post.password_input, ..pre })
            },
        },
        Key::Backspace => match pre.login_field {
            LoginField::Username => {
                &&& post.username_input@ == spec_pop(pre.username_input@)
                &&& post == (App { username_input: post.username_input, ..pre })
            },
            LoginField::Password => {
                &&& post.password_input@ == spec_pop(pre.password_input@)
                &&& post == (App { password_input: post.password_input, ..pre })
            },
        },
        _ => post == pre,
    }
}

/// A string with its last character removed; empty stays empty.
pub open spec fn spec_pop(s: Seq<char>) -> Seq<char> {
    if s.len() > 0 {
        s.drop_last()
    } else {
        s
    }
}

/// Submitting the login form: exactly the fixed credential pair unlocks the
/// table screen, sets the scan status to `IDLE`, logs the success and clears
/// the error; any other pair stays on the login screen, shows the error and
/// clears the password buffer.
pub open spec fn spec_login_submit(pre: App, post: App) -> bool {
    if pre.username_input@ == spec_username() && pre.password_input@ == spec_password() {
        &&& post.screen is Table
        &&& post.scan_status@ == "IDLE"@
        &&& post.login_error@ == Seq::<char>::empty()
        &&& post.logs@ == pre.logs@.push(("SUCCESS"@, "Admin Authenticated."@))
        &&& post == (App {
            screen: post.screen,
            scan_status: post.scan_status,
            login_error: post.login_error,
            logs: post.logs,
            ..pre
        })
    } else {
        &&& post.login_error@ == "Invalid Credentials!"@
        &&& post.password_input@ == Seq::<char>::empty()
        &&& post == (App {
            login_error: post.login_error,
            password_input: post.password_input,
            ..pre
        })
    }
}

/// Table screen: `q` requests quit; `j`/Down and `k`/Up move the cursor with
/// wraparound; Tab opens the monitor; Enter dispatches the selected row by
/// its id.
pub open spec fn spec_table_key(pre: App, key: Key, post: App, eff: Effect) -> bool {
    match key {
        Key::Char(c) => if c == 'q' {
            post == (App { should_quit: true, ..pre }) && eff is NoOp
        } else if c == 'j' {
            spec_moved_cursor(pre, post, spec_wrap_next(pre.selected as int, 7)) && eff is NoOp
        } else if c == 'k' {
            spec_moved_cursor(pre, post, spec_wrap_prev(pre.selected as int, 7)) && eff is NoOp
        } else {
            post == pre && eff is NoOp
        },
        Key::Down => spec_moved_cursor(pre, post, spec_wrap_next(pre.selected as int, 7)) && eff
            is NoOp,
        Key::Up => spec_moved_cursor(pre, post, spec_wrap_prev(pre.selected as int, 7)) && eff
            is NoOp,
        Key::Tab => post == (App { screen: CurrentScreen::Monitor, ..pre }) && eff is NoOp,
        Key::Enter => spec_menu_action(pre, post, eff),
        _ => post == pre && eff is NoOp,
    }
}

/// Only the cursor moved, to `sel`.
pub open spec fn spec_moved_cursor(pre: App, post: App, sel: int) -> bool {
    post.selected == sel && post == (App { selected: post.selected, ..pre })
}

/// Enter on the table dispatches on the id of the selected row:
/// `scan-target` opens the URL prompt preset with the scheme prefix;
/// `infra-up`/`infra-down` log and hand out the orchestration command;
/// the three dashboard rows log and hand out a browser URL; `run-tests`
/// logs and hands out the test run; anything else is a no-op.
pub open spec fn spec_menu_action(pre: App, post: App, eff: Effect) -> bool {
    let id = pre.items.deep_view()[pre.selected as int].0;
    if id == "scan-target"@ {
        &&& post.screen is UrlInput
        &&& post.url_input@ == "https://"@
        &&& post == (App { screen: post.screen, url_input: post.url_input, ..pre })
        &&& eff is NoOp
    } else if id == "infra-up"@ {
        spec_docker_action(pre, post, eff, true)
    } else if id == "infra-down"@ {
        spec_docker_action(pre, post, eff, false)
    } else if id == "view-graph"@ {
        spec_browser_action(pre, post, eff, "http://localhost:7474"@)
    } else if id == "check-storage"@ {
        spec_browser_action(pre, post, eff, "http://localhost:9001"@)
    } else if id == "check-queue"@ {
        spec_browser_action(pre, post, eff, "http://localhost:15672"@)
    } else if id == "run-tests"@ {
        &&& post.logs@ == pre.logs@.push(("CMD"@, "Running Unit Tests..."@))
        &&& post == (App { logs: post.logs, ..pre })
        &&& eff is RunTests
    } else {
        post == pre && eff is NoOp
    }
}

/// The orchestration command was logged and handed out.
pub open spec fn spec_docker_action(pre: App, post: App, eff: Effect, up: bool) -> bool {
    &&& post.logs@ == pre.logs@.push(
        ("CMD"@, "Running Docker: "@ + spec_quoted_list(spec_compose_args(up))),
    )
    &&& post == (App { logs: post.logs, ..pre })
    &&& eff matches Effect::RunDocker(a) && a.deep_view() == spec_compose_args(up)
}

/// The browser launch was logged and the URL handed out.
pub open spec fn spec_browser_action(pre: App, post: App, eff: Effect, url: Seq<char>) -> bool {
    &&& post.logs@ == pre.logs@.push(("CMD"@, "Opening Browser: "@ + url))
    &&& post == (App { logs: post.logs, ..pre })
    &&& eff matches Effect::OpenBrowser(u) && u@ == url
}

/// Monitor screen: `q` requests quit; Tab or Esc returns to the table.
pub open spec fn spec_monitor_key(pre: App, key: Key, post: App, eff: Effect) -> bool {
    &&& eff is NoOp
    &&& match key {
        Key::Char(c) => if c == 'q' {
            post == (App { should_quit: true, ..pre })
        } else {
            post == pre
        },
        Key::Tab | Key::Esc => post == (App { screen: CurrentScreen::Table, ..pre }),
        _ => post == pre,
    }
}

/// URL prompt: Enter returns to the table and, when no scan is active,
/// arms the scan state and hands out exactly one scan launch (a no-op when
/// one is already active); Esc discards; characters and Backspace edit the
/// URL buffer.
pub open spec fn spec_url_key(pre: App, key: Key, post: App, eff: Effect) -> bool {
    match key {
        Key::Enter => if pre.scan_active {
            post == (App { screen: CurrentScreen::Table, ..pre }) && eff is NoOp
        } else {
            &&& post.scan_status@ == "SCANNING"@
            &&& post == (App {
                screen: CurrentScreen::Table,
                scan_active: true,
                scan_progress: 0,
                scan_status: post.scan_status,
                ..pre
            })
            &&& eff matches Effect::StartScan(u) && u@ == pre.url_input@
        },
        Key::Esc => post == (App { screen: CurrentScreen::Table, ..pre }) && eff is NoOp,
        Key::Char(c) => {
            &&& post.url_input@ == pre.url_input@.push(c)
            &&& post == (App { url_input: post.url_input, ..pre })
            &&& eff is NoOp
        },
        Key::Backspace => {
            &&& post.url_input@ == spec_pop(pre.url_input@)
            &&& post == (App { url_input: post.url_input, ..pre })
            &&& eff is NoOp
        },
        _ => post == pre && eff is NoOp,
    }
}

} // verus!

//! Application state: the identifiers and messages of the UI tree, the
//! model that owns the quit and redraw flags, and the event/update loop.

use vstd::prelude::*;

use crate::auth::{AuthClient, AuthError};
use crate::tui::playlist::{
    freshly_mounted, plan_matches, PlaylistComponent, RenderPlan,
};

verus! {

/// The identifiers under which components can be mounted in the UI tree;
/// stable for the lifetime of the process.
#[derive(Debug, PartialEq, Eq, Clone, Copy, Hash, Structural)]
pub enum Id {
    Playlist,
    Album,
    Song,
}

/// The closed set of application events: produced by components when they
/// translate a keystroke, consumed by the model's update function within
/// the same tick, never queued across ticks.
#[derive(Debug, PartialEq, Eq, Clone, Copy, Structural)]
pub enum Msg {
    AppClose,
    PlaylistBlur,
    PlaylistOpened,
    Nothing,
}

/// The query parameters of the authorization redirect: the one-time code.
pub struct Query {
    pub code: String,
}

/// The two credentials read once from the process environment at startup;
/// immutable for the lifetime of the process.
#[derive(Debug)]
pub struct Envs {
    pub client_id: String,
    pub client_secret: String,
}

impl Envs {
    /// Packs the credentials, which the caller read from the environment:
    /// present exactly when both are present.
    pub fn new(client_id: Option<String>, client_secret: Option<String>) -> (r: Option<Envs>)
        ensures
            r is Some <==> (client_id is Some && client_secret is Some),
            r matches Some(e) ==> (client_id matches Some(i) && e.client_id == i) && (
            client_secret matches Some(s) && e.client_secret == s),
    {
        let client_id = match client_id {
            Some(val) => val,
            None => {
                return None;
            },
        };
        let client_secret = match client_secret {
            Some(val) => val,
            None => {
                return None;
            },
        };
        Some(Envs { client_id, client_secret })
    }
}

/// The startup gate on credentials: both must be present before any
/// terminal work begins, and a missing one is the configuration error,
/// which is fatal.
pub fn startup_credentials(client_id: Option<String>, client_secret: Option<String>) -> (r:
    Result<Envs, crate::auth::AuthError>)
    ensures
        r is Ok <==> (client_id is Some && client_secret is Some),
        r matches Ok(e) ==> (client_id matches Some(i) && e.client_id == i) && (
        client_secret matches Some(s) && e.client_secret == s),
        r matches Err(err) ==> err == crate::auth::AuthError::ConfigError,
{
    match Envs::new(client_id, client_secret) {
        Some(envs) => Ok(envs),
        None => Err(crate::auth::AuthError::ConfigError),
    }
}

/// The terminal's mode as the loop manages it: whether raw mode and the
/// alternate screen are active, and how often the terminal has been
/// restored to its original mode.
pub struct TerminalState {
    pub raw_mode: bool,
    pub alternate_screen: bool,
    pub restores: u32,
}

impl TerminalState {
    /// A freshly acquired terminal: cooked mode, main screen, never
    /// restored.
    pub fn new() -> (r: Self)
        ensures
            !r.raw_mode,
            !r.alternate_screen,
            r.restores == 0,
    {
        TerminalState { raw_mode: false, alternate_screen: false, restores: 0 }
    }

    /// Switches the terminal into raw mode.
    pub fn enable_raw_mode(&mut self)
        ensures
            final(self).raw_mode,
            final(self).alternate_screen == old(self).alternate_screen,
            final(self).restores == old(self).restores,
    {
        self.raw_mode = true;
    }

    /// Switches to the alternate screen buffer.
    pub fn enter_alternate_screen(&mut self)
        ensures
            final(self).alternate_screen,
            final(self).raw_mode == old(self).raw_mode,
            final(self).restores == old(self).restores,
    {
        self.alternate_screen = true;
    }

    /// Restores the terminal to its original mode: leaves the alternate
    /// screen, disables raw mode, clears, and counts the restoration.
    pub fn restore(&mut self)
        requires
            old(self).restores < u32::MAX,
        ensures
            !final(self).raw_mode,
            !final(self).alternate_screen,
            final(self).restores == old(self).restores + 1,
    {
        self.alternate_screen = false;
        self.raw_mode = false;
        self.restores = self.restores + 1;
    }
}

/// The quit flag after one application of the update function: set by
/// `AppClose` and never unset by anything.
pub open spec fn quit_after_update(quit: bool, msg: Option<Msg>) -> bool {
    quit || msg == Some(Msg::AppClose)
}

/// The redraw flag after one application of the update function: every
/// present message marks the frame dirty, even the currently inert ones.
pub open spec fn redraw_after_update(redraw: bool, msg: Option<Msg>) -> bool {
    redraw || msg is Some
}

/// A prefix of a message batch contains `AppClose`.
pub open spec fn closes_before(msgs: Seq<Msg>, n: int) -> bool {
    exists|i: int| 0 <= i < n && msgs[i] == Msg::AppClose
}

/// A message batch contains `AppClose` somewhere.
pub open spec fn batch_closes(msgs: Seq<Msg>) -> bool {
    closes_before(msgs, msgs.len() as int)
}

/// Extending a prefix by one message closes it exactly when the shorter
/// prefix already closed it or the new message is `AppClose`.
proof fn lemma_closes_before_step(msgs: Seq<Msg>, n: int)
    requires
        0 <= n < msgs.len(),
    ensures
        closes_before(msgs, n + 1) == (closes_before(msgs, n) || msgs[n] == Msg::AppClose),
{
    if closes_before(msgs, n + 1) {
        let i = choose|i: int| 0 <= i < n + 1 && msgs[i] == Msg::AppClose;
        if i < n {
            assert(0 <= i < n && msgs[i] == Msg::AppClose);
        }
    }
    if closes_before(msgs, n) {
        let i = choose|i: int| 0 <= i < n && msgs[i] == Msg::AppClose;
        assert(0 <= i < n + 1 && msgs[i] == Msg::AppClose);
    }
    if msgs[n] == Msg::AppClose {
        assert(0 <= n < n + 1 && msgs[n] == Msg::AppClose);
    }
}

/// Applying `AppClose` twice can never unset the quit flag, and applying
/// any of the currently reserved messages — `PlaylistBlur`,
/// `PlaylistOpened`, `Nothing` — or no message at all never changes it.
pub proof fn lemma_update_idempotent(quit: bool, msg: Option<Msg>)
    ensures
        quit_after_update(quit_after_update(quit, Some(Msg::AppClose)), Some(Msg::AppClose)),
        msg != Some(Msg::AppClose) ==> quit_after_update(quit, msg) == quit,
{
}

/// The model: the mounted playlist panel, which component is active, the
/// quit and redraw flags, the terminal mode, and the OAuth client.
pub struct Model {
    /// The single mounted component of the UI tree.
    pub playlist: PlaylistComponent,
    /// The component currently holding focus.
    pub active: Option<Id>,
    /// Set by `AppClose`; the loop exits when it is set.
    pub quit: bool,
    /// Whether the frame must be painted again before the next tick.
    pub redraw: bool,
    /// The terminal mode the loop manages.
    pub terminal: TerminalState,
    /// The OAuth client with its token slot.
    pub auth: AuthClient,
}

impl Model {
    /// Builds the model: a fresh terminal, the OAuth client built from the
    /// given credentials, and the playlist panel mounted and focused under
    /// its identifier. Fails with the terminal error exactly when the
    /// caller could not acquire a terminal handle.
    pub fn new(envs: &Envs, terminal_acquired: bool) -> (r: Result<Model, AuthError>)
        ensures
            (r is Ok) == terminal_acquired,
            r matches Err(e) ==> e == AuthError::TerminalError,
            r matches Ok(m) ==> {
                &&& !m.quit
                &&& !m.redraw
                &&& !m.terminal.raw_mode
                &&& !m.terminal.alternate_screen
                &&& m.terminal.restores == 0
                &&& m.active == Some(Id::Playlist)
                &&& freshly_mounted(m.playlist, "test"@)
                &&& m.auth.token is None
                &&& crate::auth::is_default_config(m.auth.config)
            },
    {
        if !terminal_acquired {
            return Err(AuthError::TerminalError);
        }
        let terminal = TerminalState::new();
        let spotify = crate::auth::init_spotify(envs);
        let playlist = PlaylistComponent::new(String::from_str("test"));
        Ok(
            Model {
                playlist,
                active: Some(Id::Playlist),
                quit: false,
                redraw: false,
                terminal,
                auth: spotify,
            },
        )
    }

    /// The only state transition table of the loop: `AppClose` sets the
    /// quit flag; the reserved messages do nothing; every present message
    /// marks the frame dirty; no follow-up message is emitted today.
    pub fn update(&mut self, msg: Option<Msg>) -> (r: Option<Msg>)
        ensures
            r is None,
            final(self).quit == quit_after_update(old(self).quit, msg),
            final(self).redraw == redraw_after_update(old(self).redraw, msg),
            final(self).playlist == old(self).playlist,
            final(self).active == old(self).active,
            final(self).terminal == old(self).terminal,
            final(self).auth == old(self).auth,
    {
        if let Some(msg) = msg {
            self.redraw = true;
            match msg {
                Msg::AppClose => {
                    self.quit = true;
                    None
                },
                Msg::PlaylistBlur => None,
                Msg::PlaylistOpened => None,
                Msg::Nothing => None,
            }
        } else {
            None
        }
    }

    /// Drains one tick's batch of messages through the update function as
    /// a synchronous work queue: each message may enqueue a follow-up,
    /// processed before the next redraw. A non-empty batch marks the frame
    /// dirty; the quit flag ends up set exactly when it was set before or
    /// the batch contains `AppClose`.
    pub fn apply_messages(&mut self, messages: &Vec<Msg>)
        ensures
            final(self).quit == (old(self).quit || batch_closes(messages@)),
            final(self).redraw == (old(self).redraw || messages@.len() > 0),
            final(self).playlist == old(self).playlist,
            final(self).active == old(self).active,
            final(self).terminal == old(self).terminal,
            final(self).auth == old(self).auth,
    {
        if messages.len() > 0 {
            self.redraw = true;
            let mut idx: usize = 0;
            while idx < messages.len()
                invariant
                    idx <= messages@.len(),
                    self.redraw,
                    self.quit == (old(self).quit || closes_before(messages@, idx as int)),
                    self.playlist == old(self).playlist,
                    self.active == old(self).active,
                    self.terminal == old(self).terminal,
                    self.auth == old(self).auth,
                decreases messages@.len() - idx,
            {
                let mut pending: Option<Msg> = Some(messages[idx]);
                let ghost quit_entry = self.quit;
                while pending.is_some()
                    invariant
                        self.redraw,
                        self.playlist == old(self).playlist,
                        self.active == old(self).active,
                        self.terminal == old(self).terminal,
                        self.auth == old(self).auth,
                        idx < messages@.len(),
                        match pending {
                            Some(m) => m == messages@[idx as int] && self.quit == quit_entry,
                            None => self.quit == (quit_entry || messages@[idx as int]
                                == Msg::AppClose),
                        },
                    decreases (if pending.is_some() {
                        1int
                    } else {
                        0int
                    }),
                {
                    pending = self.update(pending);
                }
                proof {
                    lemma_closes_before_step(messages@, idx as int);
                }
                idx = idx + 1;
            }
        }
    }

    /// The plan for one redraw of the mounted components; painting it is
    /// the caller's affair.
    pub fn view_plan(&self) -> (r: Option<RenderPlan>)
        ensures
            plan_matches(self.playlist.component.props, r),
    {
        self.playlist.component.render_plan()
    }

    /// The steady-state loop over a schedule of polled tick batches: raw
    /// mode and the alternate screen are entered, each batch is drained
    /// through the update function (painting whenever the frame went
    /// dirty) until the quit flag is set or the schedule ends, and the
    /// terminal is restored to its original mode exactly once, whichever
    /// way the loop exited.
    pub fn application_loop(&mut self, batches: &Vec<Vec<Msg>>)
        requires
            old(self).terminal.restores < u32::MAX,
        ensures
            !final(self).terminal.raw_mode,
            !final(self).terminal.alternate_screen,
            final(self).terminal.restores == old(self).terminal.restores + 1,
            final(self).quit == (old(self).quit || exists|i: int|
                0 <= i < batches@.len() && batch_closes(batches@[i]@)),
            final(self).redraw == (if old(self).quit || batches@.len() == 0 {
                old(self).redraw
            } else {
                false
            }),
            final(self).playlist == old(self).playlist,
            final(self).active == old(self).active,
            final(self).auth == old(self).auth,
    {
        self.terminal.enter_alternate_screen();
        self.terminal.enable_raw_mode();
        let mut i: usize = 0;
        while !self.quit && i < batches.len()
            invariant
                i <= batches@.len(),
                old(self).quit ==> i == 0,
                self.terminal.raw_mode,
                self.terminal.alternate_screen,
                self.terminal.restores == old(self).terminal.restores,
                self.terminal.restores < u32::MAX,
                self.quit == (old(self).quit || exists|j: int|
                    0 <= j < i && batch_closes(batches@[j]@)),
                self.redraw == (if i == 0 {
                    old(self).redraw
                } else {
                    false
                }),
                self.playlist == old(self).playlist,
                self.active == old(self).active,
                self.auth == old(self).auth,
            decreases batches@.len() - i,
        {
            self.apply_messages(&batches[i]);
            if self.redraw {
                let _plan = self.view_plan();
                self.redraw = false;
            }
            proof {
                if self.quit && !old(self).quit {
                    if !closes_before(batches@[i as int]@, batches@[i as int]@.len() as int) {
                        let j = choose|j: int| 0 <= j < i && batch_closes(batches@[j]@);
                        assert(0 <= j < i + 1 && batch_closes(batches@[j]@));
                    } else {
                        assert(0 <= i < i + 1 && batch_closes(batches@[i as int]@));
                    }
                }
            }
            i = i + 1;
        }
        proof {
            if self.quit && !old(self).quit {
                let j = choose|j: int| 0 <= j < i && batch_closes(batches@[j]@);
                assert(0 <= j < batches@.len() && batch_closes(batches@[j]@));
            }
        }
        self.terminal.restore();
    }
}

} // verus!

//! The application's run state: whether a watch is running, and the
//! cancellation tokens of the running watchers and of the alarm player.
//!
//! Each command of the application is a transition of this state. The
//! transitions are stated over `AppStateView` by `next_state`, and each
//! method of `AppState` performs exactly one of them.
use vstd::prelude::*;
use tokio_util::sync::CancellationToken;
use crate::notice::{Notice, stop_notice, stop_title, stop_body};

verus! {

#[verifier::external_type_specification]
#[verifier::external_body]
pub struct ExCancellationToken(CancellationToken);

/// Calls `CancellationToken::new` while the tokens held in `held_a`,
/// `held_b` and `other` are alive. The new token has shared state of its
/// own, and tokio-util's `PartialEq` (pointer equality of that shared state)
/// says it differs from each of them. Nothing else is stated: whether it is
/// cancelled is state shared between tasks, not visible to the library.
#[verifier::external_body]
fn new_token_fresh(
    held_a: &Option<CancellationToken>,
    held_b: &Option<CancellationToken>,
    other: Option<&CancellationToken>,
) -> (token: CancellationToken)
    ensures
        held_a matches Some(x) ==> token != x,
        held_b matches Some(y) ==> token != y,
        other matches Some(z) ==> token != *z,
{
    CancellationToken::new()
}

/// Calls `<CancellationToken as Clone>::clone`. The clone shares the
/// cancellation state of the original, and tokio-util's `PartialEq` (pointer
/// equality of that shared state) says it is equal to the original; the
/// library holds the two as the same value.
#[verifier::external_body]
fn clone_token(token: &CancellationToken) -> (handle: CancellationToken)
    ensures
        handle == *token,
{
    token.clone()
}

/// Calls `CancellationToken::cancel`, which cancels the token and every
/// clone of it. The effect is on state shared between tasks, which the
/// library does not see, so nothing is stated.
#[verifier::external_body]
fn cancel_token(token: &CancellationToken) {
    token.cancel()
}

/// The abstract run state: the run flag and the registered tokens.
pub struct AppStateView {
    /// A watch or a test sound has been started and not stopped since.
    pub running: bool,
    /// The registered watcher token, that every watcher of the watch holds.
    pub watcher: Option<CancellationToken>,
    /// The registered player token, that the alarm player holds.
    pub player: Option<CancellationToken>,
}

/// The commands that change the run state.
pub enum Command {
    /// The start request of the user interface; `test` asks for the alarm
    /// sound alone, without watchers. `watcher` and `player` are the fresh
    /// tokens used if it starts something.
    Create { test: bool, watcher: CancellationToken, player: CancellationToken },
    /// Registering a new watch with the fresh tokens `watcher` and `player`.
    RegisterWatch { watcher: CancellationToken, player: CancellationToken },
    /// Registering a test sound with the fresh token `player`.
    RegisterTest { player: CancellationToken },
    /// Stopping everything.
    Stop,
    /// Stopping the watchers after one of them raised the alarm.
    StopWatcherOnly,
    /// The alarm player noticed that it was cancelled.
    PlayerCancelled,
}

/// The state with nothing running and nothing registered: that of a freshly
/// started application, and that after a stop.
pub open spec fn idle_state() -> AppStateView {
    AppStateView { running: false, watcher: None, player: None }
}

/// The invariant of the run state: a watcher token is only registered while
/// running.
pub open spec fn consistent(v: AppStateView) -> bool {
    v.watcher is Some ==> v.running
}

/// What each command does to the run state.
pub open spec fn next_state(v: AppStateView, cmd: Command) -> AppStateView {
    match cmd {
        Command::Create { test, watcher, player } => if v.running {
            idle_state()
        } else if test {
            AppStateView { running: true, watcher: v.watcher, player: Some(player) }
        } else {
            AppStateView { running: true, watcher: Some(watcher), player: Some(player) }
        },
        Command::RegisterWatch { watcher, player } => AppStateView {
            running: true,
            watcher: Some(watcher),
            player: Some(player),
        },
        Command::RegisterTest { player } => AppStateView {
            running: true,
            watcher: v.watcher,
            player: Some(player),
        },
        Command::Stop => idle_state(),
        Command::StopWatcherOnly => AppStateView { running: v.running, watcher: None, player: v.player },
        Command::PlayerCancelled => AppStateView { running: false, watcher: None, player: v.player },
    }
}

/// The tokens that a command takes out of the state to be cancelled, watcher
/// token first: a stop (or a start request on a running application)
/// releases both registered tokens, stopping the watchers releases the
/// watcher token, and no other command releases any.
pub open spec fn released_by(v: AppStateView, cmd: Command) -> (
    Option<CancellationToken>,
    Option<CancellationToken>,
) {
    match cmd {
        Command::Create { .. } => if v.running {
            (v.watcher, v.player)
        } else {
            (None, None)
        },
        Command::Stop => (v.watcher, v.player),
        Command::StopWatcherOnly => (v.watcher, None),
        _ => (None, None),
    }
}

/// Tokens taken out of the run state, to be cancelled by `cancel`.
#[must_use]
pub struct Released {
    pub watcher: Option<CancellationToken>,
    pub player: Option<CancellationToken>,
}

impl Released {
    /// Whether a watcher token was taken out.
    pub fn had_watcher(&self) -> (b: bool)
        ensures
            b == self.watcher is Some,
    {
        self.watcher.is_some()
    }

    /// Cancels the tokens taken out, watcher token first, which ends every
    /// task that holds a handle on them.
    pub fn cancel(self) {
        match &self.watcher {
            Some(token) => cancel_token(token),
            None => {},
        }
        match &self.player {
            Some(token) => cancel_token(token),
            None => {},
        }
    }
}

/// What a start request asks the application to do next.
pub enum Launch {
    /// A watch was running and has been stopped: cancel `released`, then send
    /// the notice.
    Stopped { notice: Notice, released: Released },
    /// Play the alarm sound once; the player watches `player`.
    TestSound { player: CancellationToken },
    /// Start the watchers, which watch `watcher`; an alarm player started by
    /// them watches `player`.
    Watch { watcher: CancellationToken, player: CancellationToken },
}

/// The run state of the application.
pub struct AppState {
    watcher_key: Option<CancellationToken>,
    player_key: Option<CancellationToken>,
    thestate: bool,
}

impl View for AppState {
    type V = AppStateView;

    closed spec fn view(&self) -> AppStateView {
        AppStateView { running: self.thestate, watcher: self.watcher_key, player: self.player_key }
    }
}

impl Default for AppState {
    fn default() -> (s: AppState)
        ensures
            s@ == idle_state(),
    {
        AppState { watcher_key: None, player_key: None, thestate: false }
    }
}

impl AppState {
    /// Registers a new watch: makes a watcher token and a distinct player
    /// token, both different from the tokens stored before, stores them (dropping any stored before, without cancelling
    /// them) and marks the application as running. Returns handles on the two stored
    /// tokens for the watchers, watcher first.
    pub fn register_watch(&mut self) -> (tokens: (CancellationToken, CancellationToken))
        ensures
            final(self)@ == next_state(
                old(self)@,
                Command::RegisterWatch { watcher: tokens.0, player: tokens.1 },
            ),
            tokens.0 != tokens.1,
            old(self)@.watcher matches Some(w) ==> tokens.0 != w && tokens.1 != w,
            old(self)@.player matches Some(p) ==> tokens.0 != p && tokens.1 != p,
    {
        let watcher_token = new_token_fresh(&self.watcher_key, &self.player_key, None);
        let player_token = new_token_fresh(
            &self.watcher_key,
            &self.player_key,
            Some(&watcher_token),
        );
        let active_token = clone_token(&watcher_token);
        let active_player_token = clone_token(&player_token);
        self.watcher_key = Some(watcher_token);
        self.player_key = Some(player_token);
        self.thestate = true;
        (active_token, active_player_token)
    }

    /// Registers a test sound: makes a player token, different from the
    /// tokens stored before, stores it (dropping
    /// any stored before, without cancelling it) and marks the application as
    /// running. Returns a handle on the stored token for the player.
    pub fn register_test(&mut self) -> (token: CancellationToken)
        ensures
            final(self)@ == next_state(old(self)@, Command::RegisterTest { player: token }),
            old(self)@.watcher matches Some(w) ==> token != w,
            old(self)@.player matches Some(p) ==> token != p,
    {
        let player_token = new_token_fresh(&self.watcher_key, &self.player_key, None);
        let active_player_token = clone_token(&player_token);
        self.player_key = Some(player_token);
        self.thestate = true;
        active_player_token
    }

    /// Stops everything: marks the application as not running and takes
    /// both tokens out, to be cancelled by the caller.
    pub fn stop(&mut self) -> (released: Released)
        ensures
            final(self)@ == next_state(old(self)@, Command::Stop),
            (released.watcher, released.player) == released_by(old(self)@, Command::Stop),
    {
        self.thestate = false;
        let watcher = self.watcher_key.take();
        let player = self.player_key.take();
        Released { watcher, player }
    }

    /// Stops the watchers only: takes the watcher token out, to be cancelled
    /// by the caller. The run flag and the player token stay.
    pub fn stop_watcher_only(&mut self) -> (released: Released)
        ensures
            final(self)@ == next_state(old(self)@, Command::StopWatcherOnly),
            (released.watcher, released.player) == released_by(
                old(self)@,
                Command::StopWatcherOnly,
            ),
    {
        let watcher = self.watcher_key.take();
        Released { watcher, player: None }
    }

    /// Records that the alarm player was cancelled: marks the application as
    /// not running and drops the watcher token, which is not released for
    /// cancelling. The player token stays registered.
    pub fn player_cancelled(&mut self)
        ensures
            final(self)@ == next_state(old(self)@, Command::PlayerCancelled),
    {
        self.thestate = false;
        let _watcher_token = self.watcher_key.take();
    }

    /// Handles a start request. A running application is stopped: its tokens
    /// are released for cancelling and a stop notice is returned. Otherwise a
    /// test sound (`test`) or a watch is registered and handles on its
    /// stored tokens are returned.
    pub fn create(&mut self, test: bool) -> (launch: Launch)
        ensures
            match launch {
                Launch::Stopped { notice, released } => {
                    &&& old(self)@.running
                    &&& final(self)@ == idle_state()
                    &&& (released.watcher, released.player) == released_by(
                        old(self)@,
                        Command::Stop,
                    )
                    &&& notice.title@ == stop_title()
                    &&& notice.body@ == stop_body()
                },
                Launch::TestSound { player } => {
                    &&& !old(self)@.running
                    &&& test
                    &&& old(self)@.watcher matches Some(w) ==> player != w
                    &&& old(self)@.player matches Some(p) ==> player != p
                    &&& final(self)@ == next_state(
                        old(self)@,
                        Command::Create { test, watcher: player, player },
                    )
                },
                Launch::Watch { watcher, player } => {
                    &&& !old(self)@.running
                    &&& !test
                    &&& watcher != player
                    &&& old(self)@.watcher matches Some(w) ==> watcher != w && player != w
                    &&& old(self)@.player matches Some(p) ==> watcher != p && player != p
                    &&& final(self)@ == next_state(
                        old(self)@,
                        Command::Create { test, watcher, player },
                    )
                },
            },
    {
        if self.thestate {
            let released = self.stop();
            Launch::Stopped { notice: stop_notice(), released }
        } else if test {
            let player = self.register_test();
            Launch::TestSound { player }
        } else {
            let (watcher, player) = self.register_watch();
            Launch::Watch { watcher, player }
        }
    }

    /// Whether a watch or a test sound is running.
    pub fn is_running(&self) -> (b: bool)
        ensures
            b == self@.running,
    {
        self.thestate
    }

    /// Whether a watcher token is registered.
    pub fn has_watcher(&self) -> (b: bool)
        ensures
            b == self@.watcher is Some,
    {
        self.watcher_key.is_some()
    }

    /// Whether a player token is registered.
    pub fn has_player(&self) -> (b: bool)
        ensures
            b == self@.player is Some,
    {
        self.player_key.is_some()
    }
}

/// The run state starts consistent, and every command keeps it consistent:
/// a watcher token is registered only while the application is running.
pub proof fn every_command_keeps_consistency(v: AppStateView, cmd: Command)
    requires
        consistent(v),
    ensures
        consistent(idle_state()),
        consistent(next_state(v, cmd)),
{
}

/// A start request toggles: once a start request has started something, the
/// next start request stops everything, whatever either of them asked for,
/// and releases for cancelling exactly the tokens that the first one handed
/// out.
pub proof fn second_create_stops(
    v: AppStateView,
    first_test: bool,
    w1: CancellationToken,
    p1: CancellationToken,
    second_test: bool,
    w2: CancellationToken,
    p2: CancellationToken,
)
    requires
        !v.running,
    ensures
        ({
            let v1 = next_state(v, Command::Create { test: first_test, watcher: w1, player: p1 });
            let second = Command::Create { test: second_test, watcher: w2, player: p2 };
            &&& v1.running
            &&& next_state(v1, second) == idle_state()
            &&& released_by(v1, second).1 == Some(p1)
            &&& !first_test ==> released_by(v1, second).0 == Some(w1)
        }),
{
}

/// Every token handed out for a watch is released for cancelling when the
/// session ends: a stop releases both; stopping the watchers releases the
/// watcher token, and a later stop the player token.
pub proof fn session_tokens_are_released(
    v: AppStateView,
    w: CancellationToken,
    p: CancellationToken,
)
    ensures
        ({
            let v1 = next_state(v, Command::RegisterWatch { watcher: w, player: p });
            let v2 = next_state(v1, Command::StopWatcherOnly);
            &&& released_by(v1, Command::Stop) == (Some(w), Some(p))
            &&& released_by(v1, Command::StopWatcherOnly) == (Some(w), None::<CancellationToken>)
            &&& released_by(v2, Command::Stop) == (None::<CancellationToken>, Some(p))
            &&& next_state(v2, Command::Stop) == idle_state()
        }),
{
}

/// Stopping leaves nothing running and nothing registered, and a second
/// stop releases nothing more.
pub proof fn stop_is_final_and_idempotent(v: AppStateView)
    ensures
        next_state(v, Command::Stop) == idle_state(),
        next_state(next_state(v, Command::Stop), Command::Stop) == idle_state(),
        released_by(next_state(v, Command::Stop), Command::Stop) == (
            None::<CancellationToken>,
            None::<CancellationToken>,
        ),
{
}

/// After the alarm player was cancelled, or after a stop, the next start
/// request starts again instead of stopping; the cancelled player's state
/// change releases nothing for cancelling.
pub proof fn create_after_shutdown_starts(
    v: AppStateView,
    test: bool,
    w: CancellationToken,
    p: CancellationToken,
)
    ensures
        released_by(v, Command::PlayerCancelled) == (
            None::<CancellationToken>,
            None::<CancellationToken>,
        ),
        next_state(
            next_state(v, Command::PlayerCancelled),
            Command::Create { test, watcher: w, player: p },
        ).running,
        next_state(
            next_state(v, Command::Stop),
            Command::Create { test, watcher: w, player: p },
        ).player == Some(p),
{
}

/// Stopping the watchers alone leaves the run flag and the player as they
/// were, and leaves no watcher registered.
pub proof fn stop_watcher_only_keeps_player(v: AppStateView)
    ensures
        next_state(v, Command::StopWatcherOnly).running == v.running,
        next_state(v, Command::StopWatcherOnly).player == v.player,
        next_state(v, Command::StopWatcherOnly).watcher is None,
{
}

} // verus!

//! The start-or-attach controller.
//!
//! Given the identity of a build and the id of the calling process, the
//! controller either creates a new activation record (start path) or waits
//! for an existing record to become ready and attaches the caller to it
//! (attach path), under a fixed wall-clock deadline and a bounded number of
//! top-level retries.
//!
//! The controller is written against plain observations: the registry as
//! last read, the current time, and whether the starter process is alive.
//! The caller performs the reads, the lock handling and the sleeping, and
//! persists the registry value a successful step hands back; a sequence of
//! such observations drives [`StartOrAttachArgs::handle_inner`] and
//! [`wait_for_activation_ready_and_attach_pid`] deterministically.

use vstd::prelude::*;

use crate::activations::{
    activation_index_for,
    activation_state_dir_path,
    activation_state_dir_path_spec,
    has_activation_for,
    has_activation_id,
    new_activation_view,
    registry_wf,
    upsert_attached,
    ActivationView,
    Activations,
};
use crate::error::{Error, RestartableReason};

verus! {

/// How long an attach attempt waits for the starter to finish the startup
/// work, in milliseconds.
pub const ATTACH_TIMEOUT_MS: i64 = 10_000;

/// How long the caller sleeps between two polls of the registry, in
/// milliseconds.
pub const POLL_INTERVAL_MS: u64 = 100;

/// How often the whole start-or-attach decision is attempted before a
/// restartable failure is surfaced to the caller.
pub const MAX_ATTEMPTS: u32 = 3;

/// What one poll of the registry decides, and the registry it leaves behind.
#[verifier::ext_equal]
pub ghost struct CheckResultView {
    /// `Ok(true)`: the record was ready and the caller is now attached.
    /// `Ok(false)`: keep waiting. `Err`: give up with that error.
    pub outcome: Result<bool, Error>,
    /// The registry after the poll; it changes only when the caller attaches.
    pub registry: Seq<ActivationView>,
}

/// The decision one poll of the registry takes for an attach attempt: the
/// definition of [`check_for_activation_ready_and_attach_pid`].
///
/// In order: a vanished record is a restartable failure; a ready record
/// attaches the caller at once; a dead starter of an unready record is a
/// restartable failure; an exceeded deadline while the starter still runs is
/// the fatal timeout; otherwise the caller should sleep and poll again.
pub open spec fn spec_check(
    s: Seq<ActivationView>,
    store_path: Seq<char>,
    attaching_pid: u32,
    attach_expiration: i64,
    now: i64,
    starter_alive: bool,
) -> CheckResultView {
    if !has_activation_for(s, store_path) {
        CheckResultView {
            outcome: Err(Error::RestartableFailure(RestartableReason::ActivationVanished)),
            registry: s,
        }
    } else {
        let i = activation_index_for(s, store_path);
        if s[i].ready {
            CheckResultView {
                outcome: Ok(true),
                registry: s.update(
                    i,
                    (ActivationView {
                        attached_pids: upsert_attached(s[i].attached_pids, attaching_pid, None),
                        ..s[i]
                    }),
                ),
            }
        } else if !starter_alive {
            CheckResultView {
                outcome: Err(Error::RestartableFailure(RestartableReason::StarterNotRunning)),
                registry: s,
            }
        } else if now > attach_expiration {
            CheckResultView { outcome: Err(Error::Timeout), registry: s }
        } else {
            CheckResultView { outcome: Ok(false), registry: s }
        }
    }
}

/// One poll of the attach wait loop, on the registry as just re-read under
/// the lock. Returns `Ok(true)` and registers `attaching_pid` on the record
/// when the record for `store_path` is ready (the caller must then persist
/// the registry); `Ok(false)` when the caller should sleep and poll again;
/// and an error as [`spec_check`] lays down otherwise, leaving the registry
/// untouched.
pub fn check_for_activation_ready_and_attach_pid(
    activations: &mut Activations,
    store_path: &str,
    attaching_pid: u32,
    attach_expiration: i64,
    now: i64,
    starter_alive: bool,
) -> (r: Result<bool, Error>)
    requires
        registry_wf(old(activations)@),
    ensures
        r == spec_check(
            old(activations)@,
            store_path@,
            attaching_pid,
            attach_expiration,
            now,
            starter_alive,
        ).outcome,
        final(activations)@ == spec_check(
            old(activations)@,
            store_path@,
            attaching_pid,
            attach_expiration,
            now,
            starter_alive,
        ).registry,
        registry_wf(final(activations)@),
{
    match activations.index_of_store_path(store_path) {
        None => Err(Error::RestartableFailure(RestartableReason::ActivationVanished)),
        Some(i) => {
            proof {
                let s = old(activations)@;
                let k = activation_index_for(s, store_path@);
                assert(0 <= k < s.len() && s[k].store_path == store_path@);
                assert(k == i);
            }
            if activations.get(i).ready() {
                activations.attach_pid_at(i, attaching_pid, None);
                Ok(true)
            } else if !starter_alive {
                Err(Error::RestartableFailure(RestartableReason::StarterNotRunning))
            } else if now > attach_expiration {
                Err(Error::Timeout)
            } else {
                Ok(false)
            }
        },
    }
}

/// During the attach wait the registry document is expected to exist; a
/// re-read that finds none means the awaited record — registry and all — is
/// gone, which is the same restartable failure as a vanished record: the
/// whole start-or-attach decision is retried from scratch and would then
/// start on an empty registry.
pub fn require_registry_exists(read: Option<Activations>) -> (r: Result<Activations, Error>)
    ensures
        read matches Some(a) ==> (r matches Ok(b) && b == a),
        read is None ==> r == Err::<Activations, Error>(Error::RestartableFailure(
            RestartableReason::ActivationVanished,
        )),
{
    match read {
        Some(a) => Ok(a),
        None => Err(Error::RestartableFailure(RestartableReason::ActivationVanished)),
    }
}

/// What one iteration of the attach wait loop observes: the registry as
/// re-read under the lock, the current time, and whether the starter of the
/// awaited record is alive. The caller gathers these; the protocol only
/// decides on them.
#[derive(Debug)]
pub struct PollObservation {
    pub registry: Option<Activations>,
    pub now: i64,
    pub starter_alive: bool,
}

/// The mathematical shape of one poll observation.
#[verifier::ext_equal]
pub ghost struct PollObservationView {
    pub registry: Option<Seq<ActivationView>>,
    pub now: i64,
    pub starter_alive: bool,
}

impl View for PollObservation {
    type V = PollObservationView;

    open spec fn view(&self) -> PollObservationView {
        PollObservationView {
            registry: match self.registry {
                Some(a) => Some(a@),
                None => None,
            },
            now: self.now,
            starter_alive: self.starter_alive,
        }
    }
}

/// The views of a sequence of poll observations.
pub open spec fn poll_views(s: Seq<PollObservation>) -> Seq<PollObservationView> {
    Seq::new(s.len(), |i: int| s[i]@)
}

/// Every registry a schedule of observations carries is well-formed.
pub open spec fn polls_wf(polls: Seq<PollObservationView>) -> bool {
    forall|i: int| 0 <= i < polls.len() ==> ((#[trigger] polls[i].registry) matches Some(s)
        ==> registry_wf(s))
}

/// How a wait over a schedule of observations ends.
#[verifier::ext_equal]
pub ghost struct WaitResultView {
    /// `Ok`: the registry to persist, with the caller attached. `Err`: the
    /// error of the poll that gave up.
    pub outcome: Result<Seq<ActivationView>, Error>,
    /// How many observations were consumed; the caller slept one poll
    /// interval after each but the last.
    pub polls_used: int,
}

/// What the attach wait loop does on a schedule of observations: poll after
/// poll as [`spec_check`] decides, sleeping between polls, until a poll
/// attaches the caller or gives up. A re-read that finds no registry
/// document at all fails restartably, like a vanished record. `None` when
/// the schedule ends before a poll is decisive (a real caller polls until
/// the deadline passes, so its schedule always is).
pub open spec fn spec_wait(
    polls: Seq<PollObservationView>,
    store_path: Seq<char>,
    attaching_pid: u32,
    attach_expiration: i64,
) -> Option<WaitResultView>
    decreases polls.len(),
{
    if polls.len() == 0 {
        None
    } else {
        match polls[0].registry {
            None => Some(WaitResultView {
                outcome: Err(Error::RestartableFailure(RestartableReason::ActivationVanished)),
                polls_used: 1,
            }),
            Some(s) => {
                let c = spec_check(
                    s,
                    store_path,
                    attaching_pid,
                    attach_expiration,
                    polls[0].now,
                    polls[0].starter_alive,
                );
                match c.outcome {
                    Ok(ready) => if ready {
                        Some(WaitResultView { outcome: Ok(c.registry), polls_used: 1 })
                    } else {
                        match spec_wait(polls.skip(1), store_path, attaching_pid, attach_expiration) {
                            None => None,
                            Some(w) => Some(WaitResultView {
                                outcome: w.outcome,
                                polls_used: w.polls_used + 1,
                            }),
                        }
                    },
                    Err(e) => Some(WaitResultView { outcome: Err(e), polls_used: 1 }),
                }
            },
        }
    }
}

/// Waits for the activation of `store_path` to become ready and attaches
/// `attaching_pid` to it, deciding on the given schedule of observations.
/// Returns what the decisive poll decided — on success the registry to
/// persist — and how many polls were consumed. A ready record ends the wait
/// on the first poll, with no sleep.
#[verifier::loop_isolation(false)]
pub fn wait_for_activation_ready_and_attach_pid(
    polls: Vec<PollObservation>,
    store_path: &str,
    attach_expiration: i64,
    attaching_pid: u32,
) -> (r: (Result<Activations, Error>, usize))
    requires
        polls_wf(poll_views(polls@)),
        spec_wait(poll_views(polls@), store_path@, attaching_pid, attach_expiration) is Some,
    ensures
        ({
            let w = spec_wait(
                poll_views(polls@),
                store_path@,
                attaching_pid,
                attach_expiration,
            )->Some_0;
            &&& r.1 == w.polls_used
            &&& (r.0 matches Ok(a) ==> w.outcome matches Ok(s) && a@ == s && registry_wf(a@))
            &&& (r.0 matches Err(e) ==> w.outcome == Err::<Seq<ActivationView>, Error>(e))
        }),
{
    let ghost full = poll_views(polls@);
    let ghost w_full = spec_wait(full, store_path@, attaching_pid, attach_expiration)->Some_0;
    let mut polls = polls;
    let total: usize = polls.len();
    let mut used: usize = 0;
    loop
        invariant
            polls_wf(poll_views(polls@)),
            spec_wait(poll_views(polls@), store_path@, attaching_pid, attach_expiration)
                is Some,
            spec_wait(full, store_path@, attaching_pid, attach_expiration) == Some(w_full),
            ({
                let w = spec_wait(
                    poll_views(polls@),
                    store_path@,
                    attaching_pid,
                    attach_expiration,
                )->Some_0;
                &&& w_full.outcome == w.outcome
                &&& w_full.polls_used == used + w.polls_used
            }),
            used + polls@.len() == total,
        decreases polls@.len(),
    {
        proof {
            if polls@.len() == 0 {
                assert(spec_wait(
                    poll_views(polls@),
                    store_path@,
                    attaching_pid,
                    attach_expiration,
                ) is None);
            }
        }
        let ghost remaining = poll_views(polls@);
        let ob = polls.remove(0);
        used = used + 1;
        proof {
            assert(remaining[0] == ob@);
            assert(poll_views(polls@) =~= remaining.skip(1));
        }
        let ghost w_here = spec_wait(remaining, store_path@, attaching_pid, attach_expiration)->Some_0;
        let read = ob.registry;
        let mut activations = match require_registry_exists(read) {
            Ok(a) => a,
            Err(e) => {
                proof {
                    assert(remaining[0].registry is None);
                    assert(w_here.outcome == Err::<Seq<ActivationView>, Error>(
                        Error::RestartableFailure(RestartableReason::ActivationVanished),
                    ) && w_here.polls_used == 1);
                }
                return (Err(e), used);
            },
        };
        match check_for_activation_ready_and_attach_pid(
            &mut activations,
            store_path,
            attaching_pid,
            attach_expiration,
            ob.now,
            ob.starter_alive,
        ) {
            Ok(true) => {
                proof {
                    let s1 = remaining[0].registry->Some_0;
                    let c = spec_check(
                        s1,
                        store_path@,
                        attaching_pid,
                        attach_expiration,
                        remaining[0].now,
                        remaining[0].starter_alive,
                    );
                    assert(c.outcome == Ok::<bool, Error>(true));
                    assert(w_here.outcome == Ok::<Seq<ActivationView>, Error>(c.registry)
                        && w_here.polls_used == 1);
                }
                return (Ok(activations), used);
            },
            Ok(false) => {
                // the caller sleeps one poll interval here before re-reading
            },
            Err(e) => {
                proof {
                    let s1 = remaining[0].registry->Some_0;
                    let c = spec_check(
                        s1,
                        store_path@,
                        attaching_pid,
                        attach_expiration,
                        remaining[0].now,
                        remaining[0].starter_alive,
                    );
                    assert(c.outcome == Err::<bool, Error>(e));
                    assert(w_here.outcome == Err::<Seq<ActivationView>, Error>(e)
                        && w_here.polls_used == 1);
                }
                return (Err(e), used);
            },
        }
    }
}

/// A wait that ends has consumed at least one poll.
pub proof fn lemma_wait_polls_at_least_once(
    polls: Seq<PollObservationView>,
    store_path: Seq<char>,
    attaching_pid: u32,
    attach_expiration: i64,
)
    requires
        spec_wait(polls, store_path, attaching_pid, attach_expiration) is Some,
    ensures
        spec_wait(polls, store_path, attaching_pid, attach_expiration)->Some_0.polls_used >= 1,
    decreases polls.len(),
{
    if polls.len() > 0 && polls[0].registry is Some {
        let s = polls[0].registry->Some_0;
        let c = spec_check(
            s,
            store_path,
            attaching_pid,
            attach_expiration,
            polls[0].now,
            polls[0].starter_alive,
        );
        if c.outcome == Ok::<bool, Error>(false) {
            lemma_wait_polls_at_least_once(
                polls.skip(1),
                store_path,
                attaching_pid,
                attach_expiration,
            );
        }
    }
}

/// A record that is already ready ends the wait on the very first poll —
/// no sleep happens — and the caller is attached.
pub proof fn lemma_ready_attaches_on_first_poll(
    polls: Seq<PollObservationView>,
    store_path: Seq<char>,
    attaching_pid: u32,
    attach_expiration: i64,
)
    requires
        polls.len() > 0,
        polls[0].registry matches Some(s) && has_activation_for(s, store_path)
            && s[activation_index_for(s, store_path)].ready,
    ensures
        spec_wait(polls, store_path, attaching_pid, attach_expiration) matches Some(w)
            && w.polls_used == 1 && w.outcome is Ok,
{
}

/// A record that is not yet ready, whose starter is alive, within the wait
/// window, is polled again: the wait never ends on that first poll, so the
/// caller sleeps and re-reads rather than failing at once.
pub proof fn lemma_pending_record_is_polled_again(
    polls: Seq<PollObservationView>,
    store_path: Seq<char>,
    attaching_pid: u32,
    attach_expiration: i64,
)
    requires
        polls.len() > 0,
        polls[0].registry matches Some(s) && has_activation_for(s, store_path) && !s[
            activation_index_for(s, store_path)
        ].ready,
        polls[0].starter_alive,
        polls[0].now <= attach_expiration,
        spec_wait(polls, store_path, attaching_pid, attach_expiration) is Some,
    ensures
        spec_wait(polls, store_path, attaching_pid, attach_expiration)->Some_0.polls_used >= 2,
{
    let s = polls[0].registry->Some_0;
    let c = spec_check(
        s,
        store_path,
        attaching_pid,
        attach_expiration,
        polls[0].now,
        polls[0].starter_alive,
    );
    assert(c.outcome == Ok::<bool, Error>(false));
    lemma_wait_polls_at_least_once(polls.skip(1), store_path, attaching_pid, attach_expiration);
}

/// The caller is attached only after readiness was observed: a wait that
/// ends attached saw a poll on which the record for the build was ready.
pub proof fn lemma_wait_attaches_only_when_ready(
    polls: Seq<PollObservationView>,
    store_path: Seq<char>,
    attaching_pid: u32,
    attach_expiration: i64,
)
    requires
        spec_wait(polls, store_path, attaching_pid, attach_expiration) matches Some(w)
            && w.outcome is Ok,
    ensures
        exists|k: int|
            0 <= k < polls.len() && ((#[trigger] polls[k]).registry matches Some(s)
                && has_activation_for(s, store_path) && s[activation_index_for(
                s,
                store_path,
            )].ready),
    decreases polls.len(),
{
    let s = polls[0].registry->Some_0;
    let c = spec_check(
        s,
        store_path,
        attaching_pid,
        attach_expiration,
        polls[0].now,
        polls[0].starter_alive,
    );
    if c.outcome == Ok::<bool, Error>(true) {
        assert(has_activation_for(s, store_path) && s[activation_index_for(s, store_path)].ready);
        assert(0 <= 0 < polls.len() && ((#[trigger] polls[0]).registry matches Some(s1)
            && has_activation_for(s1, store_path) && s1[activation_index_for(
            s1,
            store_path,
        )].ready));
    } else {
        lemma_wait_attaches_only_when_ready(
            polls.skip(1),
            store_path,
            attaching_pid,
            attach_expiration,
        );
        let k0 = choose|k: int|
            0 <= k < polls.skip(1).len() && ((#[trigger] polls.skip(1)[k]).registry matches Some(s1)
                && has_activation_for(s1, store_path) && s1[activation_index_for(
                s1,
                store_path,
            )].ready);
        assert(polls[k0 + 1] == polls.skip(1)[k0]);
        assert(0 <= k0 + 1 < polls.len() && ((#[trigger] polls[k0 + 1]).registry matches Some(s1)
            && has_activation_for(s1, store_path) && s1[activation_index_for(
            s1,
            store_path,
        )].ready));
    }
}

/// The three lines of shell-exportable output a successful start-or-attach
/// call hands its caller.
pub open spec fn render_exports_spec(
    attached: bool,
    state_dir: Seq<char>,
    activation_id: Seq<char>,
) -> Seq<char> {
    "_FLOX_ATTACH="@ + (if attached {
        "true"@
    } else {
        "false"@
    }) + "\n_FLOX_ACTIVATION_STATE_DIR="@ + state_dir + "\n_FLOX_ACTIVATION_ID="@ + activation_id
        + "\n"@
}

/// Renders the output of a successful start-or-attach call: whether the
/// caller attached, the state directory of the activation, and its
/// identifier, one export per line.
pub fn render_exports(attached: bool, state_dir: &str, activation_id: &str) -> (r: String)
    ensures
        r@ == render_exports_spec(attached, state_dir@, activation_id@),
{
    let mut out = "_FLOX_ATTACH=".to_owned();
    if attached {
        out.append("true");
    } else {
        out.append("false");
    }
    out.append("\n_FLOX_ACTIVATION_STATE_DIR=");
    out.append(state_dir);
    out.append("\n_FLOX_ACTIVATION_ID=");
    out.append(activation_id);
    out.append("\n");
    proof {
        assert(out@ =~= render_exports_spec(attached, state_dir@, activation_id@));
    }
    out
}

/// What the caller of a start-or-attach call must know afterwards: whether
/// it attached, to which activation, the registry value to persist, and the
/// rendered output lines.
#[derive(Debug)]
pub struct HandleOutcome {
    pub attached: bool,
    pub activation_id: String,
    pub activations: Activations,
    pub output: String,
}

/// The mathematical shape of a start-or-attach outcome.
#[verifier::ext_equal]
pub ghost struct HandleOutcomeView {
    pub attached: bool,
    pub activation_id: Seq<char>,
    pub activations: Seq<ActivationView>,
    pub output: Seq<char>,
}

impl View for HandleOutcome {
    type V = HandleOutcomeView;

    open spec fn view(&self) -> HandleOutcomeView {
        HandleOutcomeView {
            attached: self.attached,
            activation_id: self.activation_id@,
            activations: self.activations@,
            output: self.output@,
        }
    }
}

/// The views of a start-or-attach result.
pub open spec fn outcome_view(r: Result<HandleOutcome, Error>) -> Result<
    HandleOutcomeView,
    Error,
> {
    match r {
        Ok(out) => Ok(out@),
        Err(e) => Err(e),
    }
}

/// What one whole start-or-attach attempt observes: the registry as first
/// read (absent when the document does not exist yet), the deadline an
/// attach wait would run against, and the schedule of re-reads for that
/// wait.
#[derive(Debug)]
pub struct AttemptObservation {
    pub registry: Option<Activations>,
    pub attach_expiration: i64,
    pub polls: Vec<PollObservation>,
}

/// The mathematical shape of one attempt observation.
#[verifier::ext_equal]
pub ghost struct AttemptView {
    pub registry: Option<Seq<ActivationView>>,
    pub attach_expiration: i64,
    pub polls: Seq<PollObservationView>,
}

impl View for AttemptObservation {
    type V = AttemptView;

    open spec fn view(&self) -> AttemptView {
        AttemptView {
            registry: match self.registry {
                Some(a) => Some(a@),
                None => None,
            },
            attach_expiration: self.attach_expiration,
            polls: poll_views(self.polls@),
        }
    }
}

/// The registry an attempt starts from: a missing document is an empty
/// registry on the first read.
pub open spec fn attempt_registry(a: AttemptView) -> Seq<ActivationView> {
    match a.registry {
        Some(s) => s,
        None => Seq::empty(),
    }
}

/// How the attach wait of this attempt would end on its schedule.
pub open spec fn attempt_wait(a: AttemptView, store_path: Seq<char>, pid: u32) -> Option<
    WaitResultView,
> {
    spec_wait(a.polls, store_path, pid, a.attach_expiration)
}

/// Whether this attempt fails restartably: it finds a record to attach to,
/// and the wait gives up because the record vanished or its starter died.
/// Only such a failure makes the caller retry the whole decision.
pub open spec fn attempt_restarts(a: AttemptView, store_path: Seq<char>, pid: u32) -> bool {
    &&& has_activation_for(attempt_registry(a), store_path)
    &&& attempt_wait(a, store_path, pid) matches Some(w)
    &&& w.outcome matches Err(e)
    &&& e is RestartableFailure
}

/// An attempt's inputs are admissible: its registries are well-formed and,
/// when it would attach, its schedule of re-reads is decisive.
pub open spec fn attempt_admissible(a: AttemptView, store_path: Seq<char>, pid: u32) -> bool {
    &&& (a.registry matches Some(s) ==> registry_wf(s))
    &&& polls_wf(a.polls)
    &&& (has_activation_for(attempt_registry(a), store_path) ==> attempt_wait(a, store_path, pid)
        is Some)
}

/// What one start-or-attach attempt returns, as a relation between its
/// observations and its result: the definition of
/// [`StartOrAttachArgs::handle_inner`].
///
/// With a record for the build present, the attach wait decides; the
/// reported identifier is the one seen on the first read. With none, a new
/// record is created for the caller; only a collision of the freshly drawn
/// identifier can fail — which an empty registry rules out, so there the
/// start succeeds outright — and the result's identifier is left open
/// because it is freshly drawn.
pub open spec fn attempt_decides(
    a: AttemptView,
    store_path: Seq<char>,
    pid: u32,
    flox_env: Seq<char>,
    runtime_dir: Seq<char>,
    r: Result<HandleOutcomeView, Error>,
) -> bool {
    let s0 = attempt_registry(a);
    if has_activation_for(s0, store_path) {
        match attempt_wait(a, store_path, pid) {
            Some(w) => match w.outcome {
                Ok(s) => r matches Ok(out) && out.attached && out.activations == s
                    && out.activation_id == s0[activation_index_for(s0, store_path)].id
                    && out.output == render_exports_spec(
                    true,
                    activation_state_dir_path_spec(runtime_dir, flox_env, out.activation_id),
                    out.activation_id,
                ),
                Err(e) => r == Err::<HandleOutcomeView, Error>(e),
            },
            None => true,
        }
    } else {
        &&& (s0.len() == 0 ==> r is Ok)
        &&& (r matches Ok(out) ==> !out.attached && !has_activation_id(s0, out.activation_id)
            && out.activations == s0.push(new_activation_view(out.activation_id, store_path, pid))
            && out.output == render_exports_spec(
            false,
            activation_state_dir_path_spec(runtime_dir, flox_env, out.activation_id),
            out.activation_id,
        ))
        &&& (r matches Err(e) ==> e == Error::IdentifierTaken)
    }
}

/// The views of a sequence of attempt observations.
pub open spec fn attempt_views(s: Seq<AttemptObservation>) -> Seq<AttemptView> {
    Seq::new(s.len(), |i: int| s[i]@)
}

/// What a caller hands to the start-or-attach controller: its own process
/// id, the environment directory, and the store path of the rendered build
/// it wants to activate.
#[derive(Debug)]
pub struct StartOrAttachArgs {
    pub pid: u32,
    pub flox_env: String,
    pub store_path: String,
}

impl StartOrAttachArgs {
    /// One whole start-or-attach attempt, deciding on the given
    /// observations: attach to the record for the store path if one exists
    /// (waiting on the schedule of re-reads until it is ready), create a new
    /// record otherwise. On success the outcome carries the registry to
    /// persist and the rendered output lines.
    pub fn handle_inner(
        &self,
        runtime_dir: &str,
        registry: Option<Activations>,
        attach_expiration: i64,
        polls: Vec<PollObservation>,
    ) -> (r: Result<HandleOutcome, Error>)
        requires
            attempt_admissible(
                (AttemptView {
                    registry: match registry {
                        Some(a) => Some(a@),
                        None => None,
                    },
                    attach_expiration,
                    polls: poll_views(polls@),
                }),
                self.store_path@,
                self.pid,
            ),
        ensures
            attempt_decides(
                (AttemptView {
                    registry: match registry {
                        Some(a) => Some(a@),
                        None => None,
                    },
                    attach_expiration,
                    polls: poll_views(polls@),
                }),
                self.store_path@,
                self.pid,
                self.flox_env@,
                runtime_dir@,
                outcome_view(r),
            ),
            r matches Ok(out) ==> registry_wf(out.activations@),
    {
        let registry = match registry {
            Some(a) => a,
            None => Activations::default(),
        };
        match registry.index_of_store_path(self.store_path.as_str()) {
            Some(i) => {
                proof {
                    let s0 = registry@;
                    let k = activation_index_for(s0, self.store_path@);
                    assert(0 <= k < s0.len() && s0[k].store_path == self.store_path@);
                }
                let activation_id = registry.get(i).id().clone();
                let wait_outcome = wait_for_activation_ready_and_attach_pid(
                    polls,
                    self.store_path.as_str(),
                    attach_expiration,
                    self.pid,
                );
                match wait_outcome.0 {
                    Ok(activations) => {
                        let state_dir = activation_state_dir_path(
                            runtime_dir,
                            self.flox_env.as_str(),
                            activation_id.as_str(),
                        );
                        let output = render_exports(true, state_dir.as_str(), activation_id.as_str());
                        Ok(HandleOutcome { attached: true, activation_id, activations, output })
                    },
                    Err(e) => Err(e),
                }
            },
            None => {
                let mut registry = registry;
                match registry.create_activation(self.store_path.as_str(), self.pid) {
                    Ok(activation_id) => {
                        let state_dir = activation_state_dir_path(
                            runtime_dir,
                            self.flox_env.as_str(),
                            activation_id.as_str(),
                        );
                        let output = render_exports(false, state_dir.as_str(), activation_id.as_str());
                        Ok(HandleOutcome {
                            attached: false,
                            activation_id,
                            activations: registry,
                            output,
                        })
                    },
                    Err(e) => Err(e),
                }
            },
        }
    }

    /// The top-level retry wrapper: runs whole start-or-attach attempts, on
    /// one observation each, and retries only on a restartable failure, at
    /// most [`MAX_ATTEMPTS`] times in all. The first attempt that does not
    /// fail restartably decides the result; after [`MAX_ATTEMPTS`]
    /// restartable failures in a row the last of them is surfaced.
    #[verifier::loop_isolation(false)]
    pub fn handle(&self, runtime_dir: &str, attempts: Vec<AttemptObservation>) -> (r: Result<
        HandleOutcome,
        Error,
    >)
        requires
            attempts@.len() >= MAX_ATTEMPTS,
            forall|k: int| 0 <= k < attempts@.len() ==> attempt_admissible(
                #[trigger] attempt_views(attempts@)[k],
                self.store_path@,
                self.pid,
            ),
        ensures
            (forall|j: int| 0 <= j < MAX_ATTEMPTS ==> attempt_restarts(
                #[trigger] attempt_views(attempts@)[j],
                self.store_path@,
                self.pid,
            )) ==> ({
                let w = attempt_wait(
                    attempt_views(attempts@)[MAX_ATTEMPTS - 1],
                    self.store_path@,
                    self.pid,
                )->Some_0;
                outcome_view(r) == Result::<HandleOutcomeView, Error>::Err(w.outcome->Err_0)
            }),
            forall|k: int|
                (0 <= k < MAX_ATTEMPTS && !attempt_restarts(
                    #[trigger] attempt_views(attempts@)[k],
                    self.store_path@,
                    self.pid,
                ) && (forall|j: int| 0 <= j < k ==> attempt_restarts(
                    #[trigger] attempt_views(attempts@)[j],
                    self.store_path@,
                    self.pid,
                ))) ==> attempt_decides(
                    attempt_views(attempts@)[k],
                    self.store_path@,
                    self.pid,
                    self.flox_env@,
                    runtime_dir@,
                    outcome_view(r),
                ),
            r matches Ok(out) ==> registry_wf(out.activations@),
    {
        let ghost views = attempt_views(attempts@);
        let mut attempts = attempts;
        let mut retries: u32 = MAX_ATTEMPTS;
        loop
            invariant
                1 <= retries <= MAX_ATTEMPTS,
                attempt_views(attempts@) =~= views.skip(MAX_ATTEMPTS - retries),
                forall|j: int| 0 <= j < MAX_ATTEMPTS - retries ==> attempt_restarts(
                    #[trigger] views[j],
                    self.store_path@,
                    self.pid,
                ),
            decreases retries,
        {
            let ghost used = MAX_ATTEMPTS - retries;
            let ghost before = attempts@;
            let att = attempts.remove(0);
            proof {
                assert(attempt_views(before) == views.skip(used));
                assert(att@ == views[used]) by {
                    assert(attempt_views(before)[0] == before[0]@);
                    assert(views.skip(used)[0] == views[used]);
                }
                assert(attempt_views(attempts@) =~= views.skip(used + 1)) by {
                    assert(attempts@ == before.remove(0));
                    assert forall|i: int| 0 <= i < attempts@.len() implies attempt_views(
                        attempts@,
                    )[i] == views.skip(used + 1)[i] by {
                        assert(attempts@[i] == before[i + 1]);
                        assert(attempt_views(attempts@)[i] == attempts@[i]@);
                        assert(attempt_views(before)[i + 1] == before[i + 1]@);
                        assert(views.skip(used)[i + 1] == views[used + 1 + i]);
                        assert(views.skip(used + 1)[i] == views[used + 1 + i]);
                    }
                }
            }
            let result = self.handle_inner(
                runtime_dir,
                att.registry,
                att.attach_expiration,
                att.polls,
            );
            match result {
                Ok(out) => {
                    proof {
                        assert(!attempt_restarts(views[used], self.store_path@, self.pid));
                    }
                    return Ok(out);
                },
                Err(e) => {
                    proof {
                        if e is RestartableFailure {
                            assert(attempt_restarts(views[used], self.store_path@, self.pid));
                        } else {
                            assert(!attempt_restarts(views[used], self.store_path@, self.pid));
                        }
                    }
                    if e.is_restartable() {
                        retries = retries - 1;
                        if retries == 0 {
                            return Err(e);
                        }
                        // the caller logs the failure and the decision is
                        // retried from scratch on the next observation
                    } else {
                        return Err(e);
                    }
                },
            }
        }
    }
}

} // verus!

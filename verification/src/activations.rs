//! The registry of activations of an environment, and its single-record
//! operations.
//!
//! One [`Activations`] value is the in-memory form of the registry document
//! that is persisted per environment. A record ([`Activation`]) describes one
//! attempted, ongoing or completed activation of one specific build, named by
//! its store path. The registry upholds a well-formedness invariant
//! ([`registry_wf`]): store paths are unique among records, record
//! identifiers are unique, and no record lists the same attached process
//! twice.
//!
//! Reading and writing the registry file, and the lock around it, are the
//! caller's business; this module only computes where those files live
//! ([`activations_json_path`] and friends) and what the registry contains.

use vstd::prelude::*;

use crate::error::Error;

verus! {

/// A process attached to an activation, with an optional expiration time
/// (milliseconds since the epoch) after which its interest may be
/// discarded.
#[derive(Clone, Copy, Debug, PartialEq, Eq, Structural)]
pub struct AttachedPid {
    pub pid: u32,
    pub expiration: Option<i64>,
}

/// The mathematical shape of one activation record.
#[verifier::ext_equal]
pub ghost struct ActivationView {
    pub id: Seq<char>,
    pub store_path: Seq<char>,
    pub starter_pid: u32,
    pub ready: bool,
    pub attached_pids: Seq<AttachedPid>,
}

/// One attempted, ongoing or completed activation of one specific build.
#[derive(Debug)]
pub struct Activation {
    id: String,
    store_path: String,
    starter_pid: u32,
    ready: bool,
    attached_pids: Vec<AttachedPid>,
}

impl View for Activation {
    type V = ActivationView;

    closed spec fn view(&self) -> ActivationView {
        ActivationView {
            id: self.id@,
            store_path: self.store_path@,
            starter_pid: self.starter_pid,
            ready: self.ready,
            attached_pids: self.attached_pids@,
        }
    }
}

/// No process id occurs twice among the attached processes of a record.
pub open spec fn distinct_pids(s: Seq<AttachedPid>) -> bool {
    forall|i: int, j: int| 0 <= i < j < s.len() ==> s[i].pid != s[j].pid
}

/// Whether `pid` is listed among the attached processes.
pub open spec fn has_attached_pid(s: Seq<AttachedPid>, pid: u32) -> bool {
    exists|i: int| 0 <= i < s.len() && s[i].pid == pid
}

/// The position of `pid` among the attached processes; meaningful only when
/// `has_attached_pid(s, pid)` holds and the pids are distinct.
pub open spec fn attached_pid_index(s: Seq<AttachedPid>, pid: u32) -> int {
    choose|i: int| 0 <= i < s.len() && s[i].pid == pid
}

/// Upserting `(pid, expiration)`: replace the entry for `pid` if one exists,
/// append a new entry otherwise. Attaching is idempotent in the pid.
pub open spec fn upsert_attached(s: Seq<AttachedPid>, pid: u32, expiration: Option<i64>) -> Seq<
    AttachedPid,
> {
    if has_attached_pid(s, pid) {
        s.update(attached_pid_index(s, pid), AttachedPid { pid, expiration })
    } else {
        s.push(AttachedPid { pid, expiration })
    }
}

/// Upserting preserves distinctness of the attached pids, and afterwards the
/// upserted pid is listed.
pub proof fn lemma_upsert_preserves_distinct(s: Seq<AttachedPid>, pid: u32, expiration: Option<
    i64,
>)
    requires
        distinct_pids(s),
    ensures
        distinct_pids(upsert_attached(s, pid, expiration)),
        has_attached_pid(upsert_attached(s, pid, expiration), pid),
{
    let t = upsert_attached(s, pid, expiration);
    if has_attached_pid(s, pid) {
        let k = attached_pid_index(s, pid);
        assert(0 <= k < s.len() && s[k].pid == pid);
        assert(t[k].pid == pid);
        assert forall|i: int, j: int| 0 <= i < j < t.len() implies t[i].pid != t[j].pid by {
            assert(t[i].pid == s[i].pid);
            assert(t[j].pid == s[j].pid);
        }
    } else {
        assert(t[s.len() as int].pid == pid);
        assert forall|i: int, j: int| 0 <= i < j < t.len() implies t[i].pid != t[j].pid by {
            if j < s.len() {
                assert(t[i] == s[i] && t[j] == s[j]);
            } else {
                assert(t[i] == s[i]);
                assert(!(s[i].pid == pid)) by {
                    if s[i].pid == pid {
                        assert(has_attached_pid(s, pid));
                    }
                }
            }
        }
    }
}

/// The attached set grows by insertion and never shrinks: every pid listed
/// before an upsert is still listed afterwards.
pub proof fn lemma_upsert_keeps_attached(s: Seq<AttachedPid>, pid: u32, expiration: Option<i64>)
    requires
        distinct_pids(s),
    ensures
        forall|p: u32|
            has_attached_pid(s, p) ==> has_attached_pid(upsert_attached(s, pid, expiration), p),
{
    let t = upsert_attached(s, pid, expiration);
    lemma_upsert_preserves_distinct(s, pid, expiration);
    assert forall|p: u32| has_attached_pid(s, p) implies has_attached_pid(t, p) by {
        if p == pid {
            assert(has_attached_pid(t, pid));
        } else {
            let j = choose|j: int| 0 <= j < s.len() && s[j].pid == p;
            if has_attached_pid(s, pid) {
                let k = attached_pid_index(s, pid);
                assert(0 <= k < s.len() && s[k].pid == pid);
                assert(j != k);
                assert(t[j].pid == p);
            } else {
                assert(t[j].pid == p);
            }
        }
    }
}

/// Attaching is idempotent: upserting the same pid with the same expiration
/// twice leaves the same attached list as doing it once.
pub proof fn lemma_upsert_idempotent(s: Seq<AttachedPid>, pid: u32, expiration: Option<i64>)
    requires
        distinct_pids(s),
    ensures
        upsert_attached(upsert_attached(s, pid, expiration), pid, expiration) == upsert_attached(
            s,
            pid,
            expiration,
        ),
{
    let t = upsert_attached(s, pid, expiration);
    lemma_upsert_preserves_distinct(s, pid, expiration);
    let k = attached_pid_index(t, pid);
    assert(0 <= k < t.len() && t[k].pid == pid);
    if has_attached_pid(s, pid) {
        let k0 = attached_pid_index(s, pid);
        assert(0 <= k0 < s.len() && s[k0].pid == pid);
        assert(t[k0].pid == pid);
        assert(k == k0);
        assert(t[k0] == (AttachedPid { pid, expiration }));
        assert(upsert_attached(t, pid, expiration) =~= t);
    } else {
        assert(t[s.len() as int].pid == pid);
        assert(k == s.len() as int);
        assert(t[k] == (AttachedPid { pid, expiration }));
        assert(upsert_attached(t, pid, expiration) =~= t);
    }
}

impl Activation {
    /// The unique identifier of this record, assigned at creation.
    pub fn id(&self) -> (r: &String)
        ensures
            r@ == self@.id,
    {
        &self.id
    }

    /// The store path of the build this activation runs.
    pub fn store_path(&self) -> (r: &String)
        ensures
            r@ == self@.store_path,
    {
        &self.store_path
    }

    /// The process that created this record and performs the startup work.
    pub fn starter_pid(&self) -> (r: u32)
        ensures
            r == self@.starter_pid,
    {
        self.starter_pid
    }

    /// Whether the starter has completed the startup work.
    pub fn ready(&self) -> (r: bool)
        ensures
            r == self@.ready,
    {
        self.ready
    }

    /// The processes currently registered as consumers of this activation.
    pub fn attached_pids(&self) -> (r: &Vec<AttachedPid>)
        ensures
            r@ == self@.attached_pids,
    {
        &self.attached_pids
    }

    /// Marks the startup work of this activation as completed. Monotone:
    /// a ready record never becomes unready again.
    pub fn set_ready(&mut self)
        ensures
            final(self)@ == (ActivationView { ready: true, ..old(self)@ }),
    {
        self.ready = true;
    }

    /// Registers `pid` as a consumer of this activation. Attaching the same
    /// pid twice keeps a single entry (upsert).
    pub fn attach_pid(&mut self, pid: u32, expiration: Option<i64>)
        requires
            distinct_pids(old(self)@.attached_pids),
        ensures
            final(self)@ == (ActivationView {
                attached_pids: upsert_attached(old(self)@.attached_pids, pid, expiration),
                ..old(self)@
            }),
            distinct_pids(final(self)@.attached_pids),
    {
        let ghost s0 = old(self)@.attached_pids;
        let n = self.attached_pids.len();
        let mut i: usize = 0;
        while i < n
            invariant
                self@ == old(self)@,
                self.attached_pids@ == s0,
                distinct_pids(s0),
                n == self.attached_pids@.len(),
                0 <= i <= n,
                forall|j: int| 0 <= j < i ==> s0[j].pid != pid,
            decreases n - i,
        {
            if self.attached_pids[i].pid == pid {
                self.attached_pids[i] = AttachedPid { pid, expiration };
                proof {
                    assert(s0[i as int].pid == pid);
                    assert(has_attached_pid(s0, pid));
                    let k = attached_pid_index(s0, pid);
                    assert(0 <= k < s0.len() && s0[k].pid == pid);
                    assert(k == i);
                    lemma_upsert_preserves_distinct(s0, pid, expiration);
                    assert(self@ =~= (ActivationView {
                        attached_pids: upsert_attached(s0, pid, expiration),
                        ..old(self)@
                    }));
                }
                return ;
            }
            i = i + 1;
        }
        self.attached_pids.push(AttachedPid { pid, expiration });
        proof {
            assert(!has_attached_pid(s0, pid));
            lemma_upsert_preserves_distinct(s0, pid, expiration);
            assert(self@ =~= (ActivationView {
                attached_pids: upsert_attached(s0, pid, expiration),
                ..old(self)@
            }));
        }
    }
}

/// Store paths are unique among the records of a registry.
pub open spec fn distinct_store_paths(s: Seq<ActivationView>) -> bool {
    forall|i: int, j: int| 0 <= i < j < s.len() ==> s[i].store_path != s[j].store_path
}

/// Record identifiers are unique among the records of a registry.
pub open spec fn distinct_ids(s: Seq<ActivationView>) -> bool {
    forall|i: int, j: int| 0 <= i < j < s.len() ==> s[i].id != s[j].id
}

/// Well-formedness of a registry: unique store paths, unique identifiers,
/// and no record lists the same attached process twice.
pub open spec fn registry_wf(s: Seq<ActivationView>) -> bool {
    &&& distinct_store_paths(s)
    &&& distinct_ids(s)
    &&& forall|i: int| 0 <= i < s.len() ==> distinct_pids(#[trigger] s[i].attached_pids)
}

/// Whether some record of the registry is for the build `store_path`.
pub open spec fn has_activation_for(s: Seq<ActivationView>, store_path: Seq<char>) -> bool {
    exists|i: int| 0 <= i < s.len() && s[i].store_path == store_path
}

/// The position of the record for `store_path`; meaningful only when
/// `has_activation_for(s, store_path)` holds and store paths are distinct.
pub open spec fn activation_index_for(s: Seq<ActivationView>, store_path: Seq<char>) -> int {
    choose|i: int| 0 <= i < s.len() && s[i].store_path == store_path
}

/// Whether some record of the registry carries the identifier `id`.
pub open spec fn has_activation_id(s: Seq<ActivationView>, id: Seq<char>) -> bool {
    exists|i: int| 0 <= i < s.len() && s[i].id == id
}

/// The record a fresh start creates: not ready, no attached consumers.
pub open spec fn new_activation_view(
    id: Seq<char>,
    store_path: Seq<char>,
    starter_pid: u32,
) -> ActivationView {
    ActivationView {
        id,
        store_path,
        starter_pid,
        ready: false,
        attached_pids: Seq::empty(),
    }
}

/// All known activations of one environment: the in-memory form of the
/// persisted registry document.
#[derive(Debug)]
pub struct Activations {
    activations: Vec<Activation>,
}

impl View for Activations {
    type V = Seq<ActivationView>;

    closed spec fn view(&self) -> Seq<ActivationView> {
        Seq::new(self.activations@.len(), |i: int| self.activations@[i]@)
    }
}

/// Relies on str's `PartialEq`: two string slices are equal exactly when
/// their text is equal.
#[verifier::external_body]
pub(crate) fn str_eq(a: &str, b: &str) -> (r: bool)
    ensures
        r == (a@ == b@),
{
    a == b
}

/// Relies on `uuid::Uuid::new_v4` and its `Display` form: a freshly drawn
/// random version-4 UUID, rendered as its hyphenated string. The result is
/// random; nothing is promised of it.
#[verifier::external_body]
fn fresh_activation_id() -> (r: String) {
    uuid::Uuid::new_v4().to_string()
}

impl Default for Activations {
    /// The registry of an environment that was never activated: no records.
    fn default() -> (r: Self)
        ensures
            r@ == Seq::<ActivationView>::empty(),
            registry_wf(r@),
    {
        let r = Activations { activations: Vec::new() };
        proof {
            assert(r@ =~= Seq::<ActivationView>::empty());
        }
        r
    }
}

impl Activations {
    /// How many records the registry holds.
    pub fn len(&self) -> (r: usize)
        ensures
            r == self@.len(),
    {
        self.activations.len()
    }

    /// The record at position `i`.
    pub fn get(&self, i: usize) -> (r: &Activation)
        requires
            i < self@.len(),
        ensures
            r@ == self@[i as int],
    {
        &self.activations[i]
    }

    /// The position of the record for `store_path`, if there is one: the
    /// exact-match lookup of the registry.
    pub fn index_of_store_path(&self, store_path: &str) -> (r: Option<usize>)
        ensures
            r matches Some(i) ==> i < self@.len() && self@[i as int].store_path == store_path@
                && (forall|j: int| 0 <= j < i ==> self@[j].store_path != store_path@),
            r is None ==> !has_activation_for(self@, store_path@),
            has_activation_for(self@, store_path@) ==> r is Some,
    {
        let n = self.activations.len();
        let mut i: usize = 0;
        while i < n
            invariant
                n == self@.len(),
                0 <= i <= n,
                forall|j: int| 0 <= j < i ==> self@[j].store_path != store_path@,
            decreases n - i,
        {
            if str_eq(self.activations[i].store_path.as_str(), store_path) {
                return Some(i);
            }
            i = i + 1;
        }
        None
    }

    /// The record for `store_path`, if there is one.
    pub fn activation_for_store_path(&self, store_path: &str) -> (r: Option<&Activation>)
        ensures
            r matches Some(a) ==> has_activation_for(self@, store_path@) && (exists|i: int|
                0 <= i < self@.len() && self@[i] == a@ && a@.store_path == store_path@),
            r is None ==> !has_activation_for(self@, store_path@),
            has_activation_for(self@, store_path@) ==> r is Some,
            registry_wf(self@) ==> (r matches Some(a) ==> a@ == self@[activation_index_for(
                self@,
                store_path@,
            )]),
    {
        match self.index_of_store_path(store_path) {
            Some(i) => Some(&self.activations[i]),
            None => None,
        }
    }

    /// Marks the record at position `i` ready.
    pub fn set_ready_at(&mut self, i: usize)
        requires
            i < old(self)@.len(),
        ensures
            final(self)@ == old(self)@.update(
                i as int,
                (ActivationView { ready: true, ..old(self)@[i as int] }),
            ),
            registry_wf(old(self)@) ==> registry_wf(final(self)@),
    {
        let a = &mut self.activations[i];
        a.set_ready();
        proof {
            assert(final(self)@ =~= old(self)@.update(
                i as int,
                (ActivationView { ready: true, ..old(self)@[i as int] }),
            ));
        }
    }

    /// Upserts `(pid, expiration)` into the attached processes of the record
    /// at position `i`.
    pub fn attach_pid_at(&mut self, i: usize, pid: u32, expiration: Option<i64>)
        requires
            i < old(self)@.len(),
            distinct_pids(old(self)@[i as int].attached_pids),
        ensures
            final(self)@ == old(self)@.update(
                i as int,
                (ActivationView {
                    attached_pids: upsert_attached(
                        old(self)@[i as int].attached_pids,
                        pid,
                        expiration,
                    ),
                    ..old(self)@[i as int]
                }),
            ),
            registry_wf(old(self)@) ==> registry_wf(final(self)@),
    {
        let a = &mut self.activations[i];
        a.attach_pid(pid, expiration);
        proof {
            assert(final(self)@ =~= old(self)@.update(
                i as int,
                (ActivationView {
                    attached_pids: upsert_attached(
                        old(self)@[i as int].attached_pids,
                        pid,
                        expiration,
                    ),
                    ..old(self)@[i as int]
                }),
            ));
        }
    }

    /// Appends a new record for `store_path` under the given identifier.
    /// Fails if a record for `store_path` exists ([`Error::ActivationAlreadyExists`])
    /// or if the identifier is already taken ([`Error::IdentifierTaken`]);
    /// in either case the registry is unchanged.
    pub fn create_activation_with_id(&mut self, store_path: &str, pid: u32, id: &str) -> (r:
        Result<(), Error>)
        ensures
            has_activation_for(old(self)@, store_path@) ==> r == Err::<(), Error>(
                Error::ActivationAlreadyExists,
            ),
            !has_activation_for(old(self)@, store_path@) && has_activation_id(old(self)@, id@)
                ==> r == Err::<(), Error>(Error::IdentifierTaken),
            !has_activation_for(old(self)@, store_path@) && !has_activation_id(old(self)@, id@)
                ==> r is Ok,
            r is Ok ==> !has_activation_for(old(self)@, store_path@) && !has_activation_id(
                old(self)@,
                id@,
            ) && final(self)@ == old(self)@.push(
                new_activation_view(id@, store_path@, pid),
            ),
            r is Err ==> final(self)@ == old(self)@,
            registry_wf(old(self)@) ==> registry_wf(final(self)@),
    {
        if self.index_of_store_path(store_path).is_some() {
            return Err(Error::ActivationAlreadyExists);
        }
        proof {
            assert(!has_activation_for(old(self)@, store_path@));
        }
        let n = self.activations.len();
        let mut i: usize = 0;
        while i < n
            invariant
                self@ == old(self)@,
                !has_activation_for(old(self)@, store_path@),
                n == self@.len(),
                0 <= i <= n,
                forall|j: int| 0 <= j < i ==> self@[j].id != id@,
            decreases n - i,
        {
            if str_eq(self.activations[i].id.as_str(), id) {
                proof {
                    assert(self@[i as int].id == id@);
                    assert(has_activation_id(old(self)@, id@));
                }
                return Err(Error::IdentifierTaken);
            }
            i = i + 1;
        }
        let record = Activation {
            id: id.to_owned(),
            store_path: store_path.to_owned(),
            starter_pid: pid,
            ready: false,
            attached_pids: Vec::new(),
        };
        self.activations.push(record);
        proof {
            assert(final(self)@ =~= old(self)@.push(new_activation_view(id@, store_path@, pid)));
            if registry_wf(old(self)@) {
                lemma_push_fresh_preserves_wf(old(self)@, new_activation_view(id@, store_path@, pid));
            }
        }
        Ok(())
    }

    /// Creates a new record for `store_path` with a freshly drawn identifier
    /// and returns that identifier. If a record for `store_path` exists the
    /// registry is unchanged and the call fails with
    /// [`Error::ActivationAlreadyExists`]; if the drawn identifier collides
    /// with an existing record the registry is unchanged and the call fails
    /// with [`Error::IdentifierTaken`]. On an empty registry no identifier
    /// can collide, so there success is owed outright.
    pub fn create_activation(&mut self, store_path: &str, pid: u32) -> (r: Result<String, Error>)
        ensures
            has_activation_for(old(self)@, store_path@) ==> r == Err::<String, Error>(
                Error::ActivationAlreadyExists,
            ),
            old(self)@.len() == 0 ==> r is Ok,
            r matches Ok(id) ==> !has_activation_for(old(self)@, store_path@)
                && !has_activation_id(old(self)@, id@) && final(self)@ == old(self)@.push(
                new_activation_view(id@, store_path@, pid),
            ),
            r matches Err(e) ==> final(self)@ == old(self)@ && ((e
                == Error::ActivationAlreadyExists && has_activation_for(old(self)@, store_path@))
                || (e == Error::IdentifierTaken && !has_activation_for(old(self)@, store_path@))),
            registry_wf(old(self)@) ==> registry_wf(final(self)@),
    {
        let id = fresh_activation_id();
        match self.create_activation_with_id(store_path, pid, id.as_str()) {
            Ok(()) => Ok(id),
            Err(e) => Err(e),
        }
    }
}

/// The directory that holds the registry and the per-activation state
/// directories of one environment, as a sequence of characters.
pub open spec fn env_dir_path_spec(runtime_dir: Seq<char>, flox_env: Seq<char>) -> Seq<char> {
    runtime_dir + "/"@ + flox_env
}

/// Where the registry document of an environment lives.
pub open spec fn activations_json_path_spec(runtime_dir: Seq<char>, flox_env: Seq<char>) -> Seq<
    char,
> {
    env_dir_path_spec(runtime_dir, flox_env) + "/activations.json"@
}

/// Where the lock file paired with the registry document lives.
pub open spec fn activations_json_lock_path_spec(
    runtime_dir: Seq<char>,
    flox_env: Seq<char>,
) -> Seq<char> {
    activations_json_path_spec(runtime_dir, flox_env) + ".lock"@
}

/// Where the state directory of one activation of an environment lives.
pub open spec fn activation_state_dir_path_spec(
    runtime_dir: Seq<char>,
    flox_env: Seq<char>,
    activation_id: Seq<char>,
) -> Seq<char> {
    env_dir_path_spec(runtime_dir, flox_env) + "/"@ + activation_id
}

/// Deterministically derives the location of the registry document of
/// `flox_env` under `runtime_dir`. Pure path computation, no side effect.
pub fn activations_json_path(runtime_dir: &str, flox_env: &str) -> (r: String)
    ensures
        r@ == activations_json_path_spec(runtime_dir@, flox_env@),
{
    let mut p = runtime_dir.to_owned();
    p.append("/");
    p.append(flox_env);
    p.append("/activations.json");
    proof {
        assert(p@ =~= activations_json_path_spec(runtime_dir@, flox_env@));
    }
    p
}

/// Deterministically derives the location of the lock file paired with the
/// registry document of `flox_env` under `runtime_dir`.
pub fn activations_json_lock_path(runtime_dir: &str, flox_env: &str) -> (r: String)
    ensures
        r@ == activations_json_lock_path_spec(runtime_dir@, flox_env@),
{
    let mut p = activations_json_path(runtime_dir, flox_env);
    p.append(".lock");
    p
}

/// Deterministically derives the state directory of the activation
/// `activation_id` of `flox_env` under `runtime_dir`.
pub fn activation_state_dir_path(runtime_dir: &str, flox_env: &str, activation_id: &str) -> (r:
    String)
    ensures
        r@ == activation_state_dir_path_spec(runtime_dir@, flox_env@, activation_id@),
{
    let mut p = runtime_dir.to_owned();
    p.append("/");
    p.append(flox_env);
    p.append("/");
    p.append(activation_id);
    proof {
        assert(p@ =~= activation_state_dir_path_spec(runtime_dir@, flox_env@, activation_id@));
    }
    p
}

/// Under one runtime directory, two environments share a registry document
/// location only if they are the same environment.
pub proof fn lemma_registry_path_injective(
    runtime_dir: Seq<char>,
    env1: Seq<char>,
    env2: Seq<char>,
)
    requires
        activations_json_path_spec(runtime_dir, env1) == activations_json_path_spec(
            runtime_dir,
            env2,
        ),
    ensures
        env1 == env2,
{
    reveal_strlit("/");
    reveal_strlit("/activations.json");
    let p1 = activations_json_path_spec(runtime_dir, env1);
    let p2 = activations_json_path_spec(runtime_dir, env2);
    assert(p1.len() == runtime_dir.len() + 1 + env1.len() + "/activations.json"@.len());
    assert(p2.len() == runtime_dir.len() + 1 + env2.len() + "/activations.json"@.len());
    assert(env1.len() == env2.len());
    assert forall|k: int| 0 <= k < env1.len() implies env1[k] == env2[k] by {
        let off = runtime_dir.len() + 1;
        assert(p1[off + k] == env1[k]);
        assert(p2[off + k] == env2[k]);
    }
    assert(env1 =~= env2);
}

/// Appending a record whose store path and identifier are fresh, whose
/// attached list is empty, preserves registry well-formedness.
proof fn lemma_push_fresh_preserves_wf(s: Seq<ActivationView>, a: ActivationView)
    requires
        registry_wf(s),
        !has_activation_for(s, a.store_path),
        !has_activation_id(s, a.id),
        distinct_pids(a.attached_pids),
    ensures
        registry_wf(s.push(a)),
{
    let t = s.push(a);
    assert forall|i: int, j: int| 0 <= i < j < t.len() implies t[i].store_path != t[j].store_path by {
        if j == s.len() {
            assert(t[i] == s[i]);
            if t[i].store_path == a.store_path {
                assert(has_activation_for(s, a.store_path));
            }
        }
    }
    assert forall|i: int, j: int| 0 <= i < j < t.len() implies t[i].id != t[j].id by {
        if j == s.len() {
            assert(t[i] == s[i]);
            if t[i].id == a.id {
                assert(has_activation_id(s, a.id));
            }
        }
    }
    assert forall|i: int| 0 <= i < t.len() implies distinct_pids(#[trigger] t[i].attached_pids) by {
        if i < s.len() {
            assert(t[i] == s[i]);
        }
    }
}

/// A start on a registry with no record for the build creates exactly one
/// new record — unique identifier, not ready, no attached consumers, found
/// by its build's store path — and leaves every prior record unchanged.
/// (The identifier's freshness is what the registry's constructors check of
/// the drawn value before pushing the record.)
pub proof fn lemma_start_creates_one_record(
    s: Seq<ActivationView>,
    store_path: Seq<char>,
    pid: u32,
    id: Seq<char>,
)
    requires
        registry_wf(s),
        !has_activation_for(s, store_path),
        !has_activation_id(s, id),
    ensures
        ({
            let t = s.push(new_activation_view(id, store_path, pid));
            &&& t.len() == s.len() + 1
            &&& registry_wf(t)
            &&& has_activation_for(t, store_path)
            &&& activation_index_for(t, store_path) == s.len()
            &&& t[s.len() as int] == new_activation_view(id, store_path, pid)
            &&& !t[s.len() as int].ready
            &&& t[s.len() as int].attached_pids.len() == 0
            &&& forall|i: int| 0 <= i < s.len() ==> t[i] == s[i]
        }),
{
    let a = new_activation_view(id, store_path, pid);
    let t = s.push(a);
    lemma_push_fresh_preserves_wf(s, a);
    assert(t[s.len() as int] == a);
    assert(has_activation_for(t, store_path));
    let k = activation_index_for(t, store_path);
    assert(0 <= k < t.len() && t[k].store_path == store_path);
    assert(k == s.len()) by {
        if k < s.len() {
            assert(t[k] == s[k]);
            assert(has_activation_for(s, store_path));
        }
    }
}

} // verus!

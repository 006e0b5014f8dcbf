//! The local inference service: reading its replies, and the decisions of
//! starting it and of pulling a model into it.
use vstd::prelude::*;
use vstd::string::*;
use crate::text::views;

verus! {

/// The service's base address.
pub open spec fn base_url() -> Seq<char> {
    "http://localhost:11434"@
}

/// The address that lists installed models; a reply from it means the service is up.
pub fn tags_url() -> (r: String)
    ensures
        r@ == base_url() + "/api/tags"@,
{
    String::from_str("http://localhost:11434").concat("/api/tags")
}

/// The address that completes a prompt.
pub fn generate_url() -> (r: String)
    ensures
        r@ == base_url() + "/api/generate"@,
{
    String::from_str("http://localhost:11434").concat("/api/generate")
}

/// What came of one HTTP request.
#[derive(Clone, Debug)]
pub enum HttpOutcome {
    /// A reply: its status code, the status as text (`404 Not Found`) and the body.
    Reply { status: u16, status_text: String, body: String },
    /// The request failed in transport (refused, reset, unreadable).
    TransportError(String),
    /// No reply came within the time allowed.
    TimedOut,
}

/// A status code of the success class.
pub open spec fn is_success(status: u16) -> bool {
    200 <= status <= 299
}

/// Whether a request to the service's listing address shows it alive: only a
/// success reply does; a failed or late request is an answer too, `false`.
pub fn check_ollama_status(outcome: &HttpOutcome) -> (r: bool)
    ensures
        r == (outcome matches HttpOutcome::Reply { status, .. } && is_success(*status)),
{
    match outcome {
        HttpOutcome::Reply { status, .. } => 200 <= *status && *status <= 299,
        _ => false,
    }
}

/// The executable's file name in the application's bundle.
pub fn bundled_ollama_binary(is_windows: bool) -> (r: String)
    ensures
        is_windows ==> r@ == "ollama.exe"@,
        !is_windows ==> r@ == "ollama"@,
{
    if is_windows {
        String::from_str("ollama.exe")
    } else {
        String::from_str("ollama")
    }
}

/// The executables to try, in order: the bundled one (or why its place is not
/// known), then the one on the system's search path.
pub fn ollama_candidates(bundled: Result<String, String>) -> (r: Vec<Result<String, String>>)
    ensures
        r@.len() == 2,
        r@[0] == bundled,
        r@[1] matches Ok(p) && p@ == "ollama"@,
{
    let mut v: Vec<Result<String, String>> = Vec::new();
    v.push(bundled);
    v.push(Ok(String::from_str("ollama")));
    v
}

/// Where a start of the service stands.
#[derive(Clone, Copy, Debug, PartialEq, Eq, Structural)]
pub enum StartPhase {
    /// First health check.
    Checking,
    /// The candidate at this position is being spawned.
    Spawning(usize),
    /// Waiting out the grace period after a spawn.
    Waiting(usize),
    /// Health check after the grace period.
    Verifying(usize),
    Done,
}

/// What the host is asked to do to start the service.
#[derive(Clone, Debug)]
pub enum StartAction {
    CheckHealth,
    /// Spawn the executable with `serve`, detached, output discarded.
    Spawn { path: String },
    Wait { seconds: u64 },
    Finish,
}

/// What came of the last start action.
#[derive(Clone, Debug)]
pub enum StartEvent {
    Health(bool),
    Spawned,
    SpawnFailed(String),
    Waited,
}

/// The grace period after a spawn, in seconds.
pub const GRACE_SECONDS: u64 = 3;

pub open spec fn already_running_text() -> Seq<char> {
    "Ollama is already running"@
}

pub open spec fn started_text() -> Seq<char> {
    "Ollama started successfully"@
}

pub open spec fn not_responding_text() -> Seq<char> {
    "Ollama process started but service is not responding"@
}

pub open spec fn spawn_failure_text(path: Seq<char>, detail: Seq<char>) -> Seq<char> {
    "Failed to start Ollama at \""@ + path + "\": "@ + detail
}

pub open spec fn start_failure_text(last: Seq<char>) -> Seq<char> {
    "Failed to start Ollama. Last error: "@ + last
}

/// The error recorded after giving up candidates `from..to`, all of which
/// had no known place: the last of their errors, else the one before.
pub open spec fn error_after(
    cands: Seq<Result<String, String>>,
    from: int,
    to: int,
    before: Seq<char>,
) -> Seq<char> {
    if to > from {
        cands[to - 1]->Err_0@
    } else {
        before
    }
}

/// Where trying the candidates from `from` on leads, with `before` the last
/// error so far: to the first candidate whose place is known, or, with none
/// left, to the end of the attempt.
pub open spec fn resumed(
    cands: Seq<Result<String, String>>,
    from: int,
    before: Seq<char>,
    phase: StartPhase,
    last: Seq<char>,
) -> bool {
    match phase {
        StartPhase::Spawning(j) => {
            &&& from <= j
            &&& forall|k: int| from <= k < j ==> cands[k] is Err
            &&& last == error_after(cands, from, j as int, before)
        },
        StartPhase::Done => {
            &&& forall|k: int| from <= k < cands.len() ==> cands[k] is Err
            &&& last == error_after(cands, from, cands.len() as int, before)
        },
        _ => false,
    }
}

/// The detail of a failed spawn.
pub open spec fn spawn_detail(ev: StartEvent) -> Seq<char> {
    match ev {
        StartEvent::SpawnFailed(e) => e@,
        _ => "unexpected event"@,
    }
}

/// One attempt to make the service run.
pub struct StartSupervisor {
    phase: StartPhase,
    candidates: Vec<Result<String, String>>,
    last_error: String,
    spawns: usize,
    outcome: Option<Result<String, String>>,
}

impl StartSupervisor {
    pub closed spec fn phase_spec(&self) -> StartPhase {
        self.phase
    }

    pub closed spec fn candidates_spec(&self) -> Seq<Result<String, String>> {
        self.candidates@
    }

    pub closed spec fn spawns_spec(&self) -> nat {
        self.spawns as nat
    }

    pub closed spec fn last_error_spec(&self) -> Seq<char> {
        self.last_error@
    }

    pub closed spec fn outcome_spec(&self) -> Option<Result<String, String>> {
        self.outcome
    }

    /// How far the attempt has gone; every step moves it forward.
    pub open spec fn position(&self) -> int {
        match self.phase_spec() {
            StartPhase::Checking => 0,
            StartPhase::Spawning(i) => 3 * i + 1,
            StartPhase::Waiting(i) => 3 * i + 2,
            StartPhase::Verifying(i) => 3 * i + 3,
            StartPhase::Done => 3 * (self.candidates_spec().len() as int) + 1,
        }
    }

    /// The supervisor's invariant: a phase names a candidate that exists and
    /// can be run, each candidate is spawned at most once, an outcome stands
    /// exactly when the attempt is done, and a failure reports the last error.
    pub open spec fn wf(&self) -> bool {
        &&& self.outcome_spec() is Some <==> self.phase_spec() is Done
        &&& self.outcome_spec() matches Some(Err(e)) ==> e@ == start_failure_text(
            self.last_error_spec(),
        )
        &&& match self.phase_spec() {
            StartPhase::Spawning(i) => i < self.candidates_spec().len()
                && self.candidates_spec()[i as int] is Ok && self.spawns_spec() <= i,
            StartPhase::Waiting(i) => i < self.candidates_spec().len()
                && self.candidates_spec()[i as int] is Ok && self.spawns_spec() <= i + 1,
            StartPhase::Verifying(i) => i < self.candidates_spec().len()
                && self.candidates_spec()[i as int] is Ok && self.spawns_spec() <= i + 1,
            StartPhase::Checking => self.spawns_spec() == 0,
            StartPhase::Done => self.spawns_spec() <= self.candidates_spec().len(),
        }
    }

    /// A start that tries `candidates` in order; it begins with a health check.
    pub fn new(candidates: Vec<Result<String, String>>) -> (r: Self)
        ensures
            r.wf(),
            r.phase_spec() == StartPhase::Checking,
            r.candidates_spec() == candidates@,
            r.spawns_spec() == 0,
    {
        StartSupervisor {
            phase: StartPhase::Checking,
            candidates,
            last_error: String::new(),
            spawns: 0,
            outcome: None,
        }
    }

    /// The current phase.
    pub fn phase(&self) -> (r: StartPhase)
        ensures
            r == self.phase_spec(),
    {
        self.phase
    }

    /// The number of spawns asked for so far.
    pub fn spawns(&self) -> (r: usize)
        ensures
            r == self.spawns_spec(),
    {
        self.spawns
    }

    /// The result, once the attempt is done.
    pub fn outcome(&self) -> (r: &Option<Result<String, String>>)
        ensures
            *r == self.outcome_spec(),
    {
        &self.outcome
    }

    /// What the host is to do next.
    pub fn action(&self) -> (r: StartAction)
        requires
            self.wf(),
        ensures
            (self.phase_spec() is Checking || self.phase_spec() is Verifying) ==> r is CheckHealth,
            self.phase_spec() matches StartPhase::Spawning(i) ==> (r matches StartAction::Spawn {
                path,
            } && self.candidates_spec()[i as int] == Ok::<String, String>(path)),
            self.phase_spec() is Waiting ==> r == (StartAction::Wait { seconds: GRACE_SECONDS }),
            self.phase_spec() is Done ==> r is Finish,
    {
        match self.phase {
            StartPhase::Checking => StartAction::CheckHealth,
            StartPhase::Verifying(_) => StartAction::CheckHealth,
            StartPhase::Spawning(i) => {
                let path = match &self.candidates[i] {
                    Ok(p) => p.clone(),
                    Err(_) => String::new(),
                };
                StartAction::Spawn { path }
            },
            StartPhase::Waiting(_) => StartAction::Wait { seconds: GRACE_SECONDS },
            StartPhase::Done => StartAction::Finish,
        }
    }

    /// Goes to the first candidate at or after `from` whose place is known,
    /// recording why each one before it could not be used; with none left the
    /// attempt fails with the last error seen.
    fn try_from(&mut self, from: usize)
        requires
            from <= old(self).candidates_spec().len(),
            old(self).spawns_spec() <= from,
            old(self).outcome_spec() is None,
        ensures
            final(self).candidates_spec() == old(self).candidates_spec(),
            final(self).spawns_spec() == old(self).spawns_spec(),
            final(self).wf(),
            resumed(
                old(self).candidates_spec(),
                from as int,
                old(self).last_error_spec(),
                final(self).phase_spec(),
                final(self).last_error_spec(),
            ),
            final(self).phase_spec() is Done ==> (final(self).outcome_spec() matches Some(Err(e))
                && e@ == start_failure_text(final(self).last_error_spec())),
    {
        let mut i = from;
        while i < self.candidates.len()
            invariant
                self.candidates@ == old(self).candidates@,
                self.spawns == old(self).spawns,
                self.outcome is None,
                from <= i <= self.candidates@.len(),
                self.spawns <= from,
                forall|k: int| from <= k < i ==> self.candidates@[k] is Err,
                self.last_error@ == error_after(
                    old(self).candidates@,
                    from as int,
                    i as int,
                    old(self).last_error@,
                ),
            decreases self.candidates@.len() - i,
        {
            match &self.candidates[i] {
                Ok(_) => {
                    self.phase = StartPhase::Spawning(i);
                    return;
                },
                Err(e) => {
                    self.last_error = e.clone();
                },
            }
            i = i + 1;
        }
        let msg = String::from_str("Failed to start Ollama. Last error: ").concat(
            self.last_error.as_str(),
        );
        self.outcome = Some(Err(msg));
        self.phase = StartPhase::Done;
    }

    /// Takes what came of the last action and moves the attempt on.
    ///
    /// A healthy service at the first check ends it at once, with no spawn. A
    /// spawned candidate is given the grace period and one health check; a
    /// candidate that cannot be spawned, or that is spawned but stays silent,
    /// is given up for the next one. Each step moves the attempt forward, so
    /// it ends after at most three steps per candidate.
    pub fn advance(&mut self, ev: StartEvent)
        requires
            old(self).wf(),
        ensures
            final(self).wf(),
            final(self).candidates_spec() == old(self).candidates_spec(),
            old(self).phase_spec() is Done ==> *final(self) == *old(self),
            !(old(self).phase_spec() is Done) ==> final(self).position() > old(self).position(),
            final(self).position() <= 3 * final(self).candidates_spec().len() + 1,
            (old(self).phase_spec() is Checking && ev == StartEvent::Health(true)) ==> {
                &&& final(self).phase_spec() is Done
                &&& final(self).spawns_spec() == 0
                &&& final(self).outcome_spec() matches Some(Ok(m)) && m@ == already_running_text()
            },
            (old(self).phase_spec() is Checking && ev != StartEvent::Health(true)) ==> resumed(
                old(self).candidates_spec(),
                0,
                old(self).last_error_spec(),
                final(self).phase_spec(),
                final(self).last_error_spec(),
            ),
            (old(self).phase_spec() is Spawning && !(ev is Spawned)) ==> resumed(
                old(self).candidates_spec(),
                old(self).phase_spec()->Spawning_0 + 1,
                spawn_failure_text(
                    old(self).candidates_spec()[old(self).phase_spec()->Spawning_0 as int]->Ok_0@,
                    spawn_detail(ev),
                ),
                final(self).phase_spec(),
                final(self).last_error_spec(),
            ),
            (old(self).phase_spec() is Verifying && ev != StartEvent::Health(true)) ==> resumed(
                old(self).candidates_spec(),
                old(self).phase_spec()->Verifying_0 + 1,
                not_responding_text(),
                final(self).phase_spec(),
                final(self).last_error_spec(),
            ),
            final(self).outcome_spec() matches Some(Err(e)) ==> e@ == start_failure_text(
                final(self).last_error_spec(),
            ),
            (!(old(self).phase_spec() is Done) && final(self).phase_spec() is Done && !(ev
                == StartEvent::Health(true) && (old(self).phase_spec() is Checking
                || old(self).phase_spec() is Verifying))) ==> final(self).outcome_spec() matches Some(
                Err(_),
            ),
            (old(self).phase_spec() is Verifying && ev == StartEvent::Health(true)) ==> {
                &&& final(self).phase_spec() is Done
                &&& final(self).outcome_spec() matches Some(Ok(m)) && m@ == started_text()
            },
            (old(self).phase_spec() is Spawning && ev is Spawned) ==> final(self).phase_spec()
                == StartPhase::Waiting(old(self).phase_spec()->Spawning_0) && final(self).spawns_spec()
                == old(self).spawns_spec() + 1,
            old(self).phase_spec() is Waiting ==> final(self).phase_spec() == StartPhase::Verifying(
                old(self).phase_spec()->Waiting_0,
            ),
            final(self).outcome_spec() matches Some(Ok(_)) ==> (old(self).phase_spec() is Checking
                || old(self).phase_spec() is Verifying || old(self).phase_spec() is Done),
            !(old(self).phase_spec() is Spawning && ev is Spawned) ==> final(self).spawns_spec()
                == old(self).spawns_spec(),
    {
        match self.phase {
            StartPhase::Done => {},
            StartPhase::Checking => {
                if matches!(ev, StartEvent::Health(true)) {
                    self.outcome = Some(Ok(String::from_str("Ollama is already running")));
                    self.phase = StartPhase::Done;
                } else {
                    self.try_from(0);
                }
            },
            StartPhase::Spawning(i) => {
                let n = self.candidates.len();
                assert(i < n);
                match ev {
                    StartEvent::Spawned => {
                        self.spawns = self.spawns + 1;
                        self.phase = StartPhase::Waiting(i);
                    },
                    other => {
                        let detail = match other {
                            StartEvent::SpawnFailed(e) => e,
                            _ => String::from_str("unexpected event"),
                        };
                        let path = match &self.candidates[i] {
                            Ok(p) => p.clone(),
                            Err(_) => String::new(),
                        };
                        self.last_error = String::from_str("Failed to start Ollama at \"").concat(
                            path.as_str(),
                        ).concat("\": ").concat(detail.as_str());
                        self.try_from(i + 1);
                    },
                }
            },
            StartPhase::Waiting(i) => {
                self.phase = StartPhase::Verifying(i);
            },
            StartPhase::Verifying(i) => {
                let n = self.candidates.len();
                assert(i < n);
                if matches!(ev, StartEvent::Health(true)) {
                    self.outcome = Some(Ok(String::from_str("Ollama started successfully")));
                    self.phase = StartPhase::Done;
                } else {
                    self.last_error = String::from_str(
                        "Ollama process started but service is not responding",
                    );
                    self.try_from(i + 1);
                }
            },
        }
    }
}

/// The first candidate at or after `from` whose place is known.
pub fn first_usable(candidates: &Vec<Result<String, String>>, from: usize) -> (r: Option<usize>)
    ensures
        r matches Some(j) ==> from <= j < candidates@.len() && candidates@[j as int] is Ok
            && forall|k: int| from <= k < j ==> candidates@[k] is Err,
        r is None ==> forall|k: int| from <= k < candidates@.len() ==> candidates@[k] is Err,
{
    let mut i = from;
    while i < candidates.len()
        invariant
            from <= i,
            forall|k: int| from <= k < i && k < candidates@.len() ==> candidates@[k] is Err,
        decreases candidates@.len() - i,
    {
        if candidates[i].is_ok() {
            return Some(i);
        }
        i = i + 1;
    }
    None
}

/// What came of one run of the service's `pull` command.
#[derive(Clone, Debug)]
pub enum PullEvent {
    /// The command ran and exited; its error output is kept for the log.
    Exited { success: bool, stderr: String },
    /// The command could not be run.
    RunFailed(String),
}

/// What the host is asked to do for a model pull.
#[derive(Clone, Debug)]
pub enum PullAction {
    /// Run the executable with the arguments and wait for it.
    Run { path: String, args: Vec<String> },
    Finish,
}

pub open spec fn pulled_text(model: Seq<char>) -> Seq<char> {
    "Model "@ + model + " downloaded successfully"@
}

pub open spec fn pull_failed_text(model: Seq<char>) -> Seq<char> {
    "Failed to download model "@ + model + ". Please ensure Ollama is running."@
}

/// One request to fetch a model into the service, tried with each candidate
/// executable in order until one reports success.
pub struct ModelPull {
    model: String,
    candidates: Vec<Result<String, String>>,
    current: Option<usize>,
    outcome: Option<Result<String, String>>,
}

impl ModelPull {
    pub closed spec fn model_spec(&self) -> Seq<char> {
        self.model@
    }

    pub closed spec fn candidates_spec(&self) -> Seq<Result<String, String>> {
        self.candidates@
    }

    /// The candidate being run, or `None` once the request is done.
    pub closed spec fn current_spec(&self) -> Option<usize> {
        self.current
    }

    pub closed spec fn outcome_spec(&self) -> Option<Result<String, String>> {
        self.outcome
    }

    pub open spec fn wf(&self) -> bool {
        &&& self.current_spec() is None <==> self.outcome_spec() is Some
        &&& self.current_spec() matches Some(i) ==> i < self.candidates_spec().len()
            && self.candidates_spec()[i as int] is Ok
    }

    fn settle(&mut self, from: usize)
        requires
            from <= old(self).candidates_spec().len(),
        ensures
            final(self).model_spec() == old(self).model_spec(),
            final(self).candidates_spec() == old(self).candidates_spec(),
            final(self).wf(),
            final(self).current_spec() matches Some(j) ==> from <= j && forall|k: int|
                from <= k < j ==> old(self).candidates_spec()[k] is Err,
            final(self).current_spec() is None ==> {
                &&& forall|k: int| from <= k < old(self).candidates_spec().len()
                    ==> old(self).candidates_spec()[k] is Err
                &&& final(self).outcome_spec() matches Some(Err(e)) && e@ == pull_failed_text(
                    old(self).model_spec(),
                )
            },
    {
        match first_usable(&self.candidates, from) {
            Some(j) => {
                self.current = Some(j);
                self.outcome = None;
            },
            None => {
                self.current = None;
                self.outcome = Some(
                    Err(
                        String::from_str("Failed to download model ").concat(
                            self.model.as_str(),
                        ).concat(". Please ensure Ollama is running."),
                    ),
                );
            },
        }
    }

    /// A request for `model`, starting at the first candidate whose place is known.
    pub fn new(model: String, candidates: Vec<Result<String, String>>) -> (r: Self)
        ensures
            r.wf(),
            r.model_spec() == model@,
            r.candidates_spec() == candidates@,
            r.current_spec() matches Some(j) ==> forall|k: int| 0 <= k < j ==> candidates@[k] is Err,
            r.current_spec() is None ==> (r.outcome_spec() matches Some(Err(e)) && e@
                == pull_failed_text(model@)),
            r.current_spec() is None ==> forall|k: int| 0 <= k < candidates@.len() ==> candidates@[k] is Err,
    {
        let mut r = ModelPull { model, candidates, current: None, outcome: None };
        r.settle(0);
        r
    }

    /// The result, once the request is done.
    pub fn outcome(&self) -> (r: &Option<Result<String, String>>)
        ensures
            *r == self.outcome_spec(),
    {
        &self.outcome
    }

    /// What the host is to do next.
    pub fn action(&self) -> (r: PullAction)
        requires
            self.wf(),
        ensures
            self.current_spec() matches Some(i) ==> (r matches PullAction::Run { path, args }
                && self.candidates_spec()[i as int] == Ok::<String, String>(path) && views(args@) == seq!["pull"@, self.model_spec()]),
            self.current_spec() is None ==> r is Finish,
    {
        match self.current {
            Some(i) => {
                let path = match &self.candidates[i] {
                    Ok(p) => p.clone(),
                    Err(_) => String::new(),
                };
                let mut args: Vec<String> = Vec::new();
                args.push(String::from_str("pull"));
                args.push(self.model.clone());
                assert(views(args@) =~= seq!["pull"@, self.model@]);
                PullAction::Run { path, args }
            },
            None => PullAction::Finish,
        }
    }

    /// Takes what came of the last run: success ends the request well; any
    /// failure moves on to the next candidate, or ends the request with an
    /// error once none is left.
    pub fn advance(&mut self, ev: PullEvent)
        requires
            old(self).wf(),
        ensures
            final(self).wf(),
            final(self).model_spec() == old(self).model_spec(),
            final(self).candidates_spec() == old(self).candidates_spec(),
            old(self).current_spec() is None ==> *final(self) == *old(self),
            (old(self).current_spec() is Some && ev matches PullEvent::Exited { success: true, .. })
                ==> (final(self).outcome_spec() matches Some(Ok(m)) && m@ == pulled_text(
                old(self).model_spec(),
            )),
            (old(self).current_spec() is Some && !(ev matches PullEvent::Exited { success: true, .. }))
                ==> match final(self).current_spec() {
                Some(j) => j > old(self).current_spec()->Some_0 && forall|k: int|
                    old(self).current_spec()->Some_0 < k < j ==> old(self).candidates_spec()[k] is Err,
                None => (forall|k: int|
                    old(self).current_spec()->Some_0 < k < old(self).candidates_spec().len()
                        ==> old(self).candidates_spec()[k] is Err) && (final(self).outcome_spec() matches Some(
                    Err(e),
                ) && e@ == pull_failed_text(old(self).model_spec())),
            },
    {
        match self.current {
            None => {},
            Some(i) => {
                if matches!(ev, PullEvent::Exited { success: true, .. }) {
                    self.current = None;
                    self.outcome = Some(
                        Ok(
                            String::from_str("Model ").concat(self.model.as_str()).concat(
                                " downloaded successfully",
                            ),
                        ),
                    );
                } else {
                    let n = self.candidates.len();
                    assert(i < n);
                    self.settle(i + 1);
                }
            },
        }
    }
}

/// A request to fetch `model` into the service with the candidate executables.
pub fn download_model(model: String, candidates: Vec<Result<String, String>>) -> (r: ModelPull)
    ensures
        r.wf(),
        r.model_spec() == model@,
        r.candidates_spec() == candidates@,
        r.current_spec() matches Some(j) ==> forall|k: int| 0 <= k < j ==> candidates@[k] is Err,
        r.current_spec() is None ==> (r.outcome_spec() matches Some(Err(e)) && e@ == pull_failed_text(
            model@,
        )),
        r.current_spec() is None ==> forall|k: int| 0 <= k < candidates@.len() ==> candidates@[k] is Err,
{
    ModelPull::new(model, candidates)
}

/// An attempt to make the service run with the candidate executables; it
/// begins with a health check.
pub fn start_ollama(candidates: Vec<Result<String, String>>) -> (r: StartSupervisor)
    ensures
        r.wf(),
        r.phase_spec() == StartPhase::Checking,
        r.candidates_spec() == candidates@,
        r.spawns_spec() == 0,
{
    StartSupervisor::new(candidates)
}

/// Whether the bundled executable can be used: it must exist.
pub fn setup_bundled_ollama(exists: bool) -> (r: Result<String, String>)
    ensures
        exists ==> (r matches Ok(m) && m@ == "Bundled Ollama is ready"@),
        !exists ==> (r matches Err(e) && e@
            == "Bundled Ollama binary not found. Please download and install the complete application package."@),
{
    if exists {
        Ok(String::from_str("Bundled Ollama is ready"))
    } else {
        Err(
            String::from_str(
                "Bundled Ollama binary not found. Please download and install the complete application package.",
            ),
        )
    }
}

} // verus!

//! The installation pipeline of the embedded runtime, as a state machine.
//!
//! The host performs each requested action (a download, an extraction, a
//! process run) and hands back what came of it; the pipeline decides what
//! happens next and records one progress event per step it enters.
use vstd::prelude::*;
use vstd::string::*;
use crate::runtime::{PythonStatus, SourceOrigin};
use crate::text::{contains, contains_seq, views};
use crate::guard::RunLocks;

verus! {

/// The ordered stages of an installation run.
#[derive(Clone, Copy, Debug, PartialEq, Eq, Structural)]
pub enum InstallStep {
    Initializing,
    Downloading,
    Extracting,
    Configuring,
    InstallingPackageManager,
    InstallingRequiredLibraries,
    InstallingOptionalLibraries,
    Verifying,
    Completed,
}

/// Number of stages.
pub const STEP_COUNT: usize = 9;

/// The stage at position `i` of the fixed order.
pub open spec fn step_at(i: int) -> InstallStep {
    if i <= 0 {
        InstallStep::Initializing
    } else if i == 1 {
        InstallStep::Downloading
    } else if i == 2 {
        InstallStep::Extracting
    } else if i == 3 {
        InstallStep::Configuring
    } else if i == 4 {
        InstallStep::InstallingPackageManager
    } else if i == 5 {
        InstallStep::InstallingRequiredLibraries
    } else if i == 6 {
        InstallStep::InstallingOptionalLibraries
    } else if i == 7 {
        InstallStep::Verifying
    } else {
        InstallStep::Completed
    }
}

impl InstallStep {
    /// Position of the stage in the fixed order.
    pub open spec fn index(self) -> int {
        match self {
            InstallStep::Initializing => 0,
            InstallStep::Downloading => 1,
            InstallStep::Extracting => 2,
            InstallStep::Configuring => 3,
            InstallStep::InstallingPackageManager => 4,
            InstallStep::InstallingRequiredLibraries => 5,
            InstallStep::InstallingOptionalLibraries => 6,
            InstallStep::Verifying => 7,
            InstallStep::Completed => 8,
        }
    }

    /// The fixed progress weight of the stage, in percent.
    pub open spec fn weight_spec(self) -> u8 {
        match self {
            InstallStep::Initializing => 0,
            InstallStep::Downloading => 10,
            InstallStep::Extracting => 30,
            InstallStep::Configuring => 50,
            InstallStep::InstallingPackageManager => 60,
            InstallStep::InstallingRequiredLibraries => 70,
            InstallStep::InstallingOptionalLibraries => 80,
            InstallStep::Verifying => 90,
            InstallStep::Completed => 100,
        }
    }

    pub fn weight(&self) -> (r: u8)
        ensures
            r == self.weight_spec(),
    {
        match self {
            InstallStep::Initializing => 0,
            InstallStep::Downloading => 10,
            InstallStep::Extracting => 30,
            InstallStep::Configuring => 50,
            InstallStep::InstallingPackageManager => 60,
            InstallStep::InstallingRequiredLibraries => 70,
            InstallStep::InstallingOptionalLibraries => 80,
            InstallStep::Verifying => 90,
            InstallStep::Completed => 100,
        }
    }

    pub open spec fn name_spec(self) -> Seq<char> {
        match self {
            InstallStep::Initializing => "initializing"@,
            InstallStep::Downloading => "downloading"@,
            InstallStep::Extracting => "extracting"@,
            InstallStep::Configuring => "configuring"@,
            InstallStep::InstallingPackageManager => "installing_package_manager"@,
            InstallStep::InstallingRequiredLibraries => "installing_required_libraries"@,
            InstallStep::InstallingOptionalLibraries => "installing_optional_libraries"@,
            InstallStep::Verifying => "verifying"@,
            InstallStep::Completed => "completed"@,
        }
    }

    /// The name under which the stage is reported.
    pub fn name(&self) -> (r: String)
        ensures
            r@ == self.name_spec(),
    {
        match self {
            InstallStep::Initializing => String::from_str("initializing"),
            InstallStep::Downloading => String::from_str("downloading"),
            InstallStep::Extracting => String::from_str("extracting"),
            InstallStep::Configuring => String::from_str("configuring"),
            InstallStep::InstallingPackageManager => String::from_str("installing_package_manager"),
            InstallStep::InstallingRequiredLibraries => String::from_str(
                "installing_required_libraries",
            ),
            InstallStep::InstallingOptionalLibraries => String::from_str(
                "installing_optional_libraries",
            ),
            InstallStep::Verifying => String::from_str("verifying"),
            InstallStep::Completed => String::from_str("completed"),
        }
    }

    pub open spec fn message_spec(self) -> Seq<char> {
        match self {
            InstallStep::Initializing => "Initializing Python setup..."@,
            InstallStep::Downloading => "Downloading Python 3.11.7 embedded..."@,
            InstallStep::Extracting => "Extracting Python runtime..."@,
            InstallStep::Configuring => "Configuring Python environment..."@,
            InstallStep::InstallingPackageManager => "Installing package manager..."@,
            InstallStep::InstallingRequiredLibraries => "Installing medical analysis libraries..."@,
            InstallStep::InstallingOptionalLibraries => "Installing optional libraries..."@,
            InstallStep::Verifying => "Verifying installation..."@,
            InstallStep::Completed => "Medical Python environment ready!"@,
        }
    }

    /// The text shown when the stage begins.
    pub fn message(&self) -> (r: String)
        ensures
            r@ == self.message_spec(),
    {
        match self {
            InstallStep::Initializing => String::from_str("Initializing Python setup..."),
            InstallStep::Downloading => String::from_str("Downloading Python 3.11.7 embedded..."),
            InstallStep::Extracting => String::from_str("Extracting Python runtime..."),
            InstallStep::Configuring => String::from_str("Configuring Python environment..."),
            InstallStep::InstallingPackageManager => String::from_str(
                "Installing package manager...",
            ),
            InstallStep::InstallingRequiredLibraries => String::from_str(
                "Installing medical analysis libraries...",
            ),
            InstallStep::InstallingOptionalLibraries => String::from_str(
                "Installing optional libraries...",
            ),
            InstallStep::Verifying => String::from_str("Verifying installation..."),
            InstallStep::Completed => String::from_str("Medical Python environment ready!"),
        }
    }
}

/// Progress weights never decrease along the fixed order.
pub proof fn lemma_weight_monotonic(i: int, j: int)
    requires
        0 <= i <= j,
    ensures
        step_at(i).weight_spec() <= step_at(j).weight_spec(),
{
}

/// One progress report of an installation run.
#[derive(Clone, Debug)]
pub struct PythonSetupProgress {
    pub step: InstallStep,
    pub progress: u8,
    pub message: String,
    /// Set on the last event of a run, and on that one only.
    pub completed: bool,
    pub error: Option<String>,
}

/// Where a run stands: a stage can take several actions.
#[derive(Clone, Copy, Debug, PartialEq, Eq, Structural)]
pub enum SetupPhase {
    CreateDirectory,
    DownloadArchive,
    ExtractArchive,
    RemoveArchive,
    ReadPathConfig,
    WritePathConfig,
    DownloadBootstrap,
    RunBootstrap,
    RemoveBootstrap,
    Required(usize),
    Optional(usize),
    Verify,
    Finished,
}

/// What the host is asked to do next. File names are relative to the runtime
/// directory; `RunScript` and `RunPython` run the runtime's interpreter, on the
/// named script or on the arguments alone.
#[derive(Clone, Debug)]
pub enum SetupAction {
    CreateDirectory,
    Download { url: String, file_name: String },
    Extract { archive: String },
    RemoveFile { file_name: String },
    ReadFile { file_name: String },
    WriteFile { file_name: String, content: String },
    RunScript { file_name: String, args: Vec<String> },
    RunPython { args: Vec<String> },
    Inspect,
    Nothing,
}

/// What came of the last action.
#[derive(Clone, Debug)]
pub enum SetupEvent {
    Succeeded,
    Failed(String),
    /// A file's text, or `None` where the file does not exist.
    FileRead(Option<String>),
    ProcessExited { success: bool, stderr: String },
    Inspected { version: Option<String>, core_ready: bool },
    Cancelled,
}

/// Number of required libraries.
pub const REQUIRED_COUNT: usize = 8;

/// Number of optional libraries.
pub const OPTIONAL_COUNT: usize = 2;

pub open spec fn required_library_spec(i: int) -> Seq<char> {
    if i <= 0 {
        "pandas==2.1.4"@
    } else if i == 1 {
        "numpy==1.24.4"@
    } else if i == 2 {
        "scipy==1.11.4"@
    } else if i == 3 {
        "matplotlib==3.8.2"@
    } else if i == 4 {
        "seaborn==0.13.0"@
    } else if i == 5 {
        "statsmodels==0.14.1"@
    } else if i == 6 {
        "scikit-learn==1.3.2"@
    } else {
        "plotly==5.18.0"@
    }
}

/// The pinned required library at position `i`.
pub fn required_library(i: usize) -> (r: String)
    requires
        i < REQUIRED_COUNT,
    ensures
        r@ == required_library_spec(i as int),
{
    if i == 0 {
        String::from_str("pandas==2.1.4")
    } else if i == 1 {
        String::from_str("numpy==1.24.4")
    } else if i == 2 {
        String::from_str("scipy==1.11.4")
    } else if i == 3 {
        String::from_str("matplotlib==3.8.2")
    } else if i == 4 {
        String::from_str("seaborn==0.13.0")
    } else if i == 5 {
        String::from_str("statsmodels==0.14.1")
    } else if i == 6 {
        String::from_str("scikit-learn==1.3.2")
    } else {
        String::from_str("plotly==5.18.0")
    }
}

pub open spec fn optional_library_spec(i: int) -> Seq<char> {
    if i <= 0 {
        "pingouin"@
    } else {
        "lifelines"@
    }
}

/// The optional library at position `i`.
pub fn optional_library(i: usize) -> (r: String)
    requires
        i < OPTIONAL_COUNT,
    ensures
        r@ == optional_library_spec(i as int),
{
    if i == 0 {
        String::from_str("pingouin")
    } else {
        String::from_str("lifelines")
    }
}

/// The stage that a phase belongs to.
pub open spec fn phase_step(p: SetupPhase) -> InstallStep {
    match p {
        SetupPhase::CreateDirectory => InstallStep::Initializing,
        SetupPhase::DownloadArchive => InstallStep::Downloading,
        SetupPhase::ExtractArchive => InstallStep::Extracting,
        SetupPhase::RemoveArchive => InstallStep::Extracting,
        SetupPhase::ReadPathConfig => InstallStep::Configuring,
        SetupPhase::WritePathConfig => InstallStep::Configuring,
        SetupPhase::DownloadBootstrap => InstallStep::InstallingPackageManager,
        SetupPhase::RunBootstrap => InstallStep::InstallingPackageManager,
        SetupPhase::RemoveBootstrap => InstallStep::InstallingPackageManager,
        SetupPhase::Required(_) => InstallStep::InstallingRequiredLibraries,
        SetupPhase::Optional(_) => InstallStep::InstallingOptionalLibraries,
        SetupPhase::Verify => InstallStep::Verifying,
        SetupPhase::Finished => InstallStep::Completed,
    }
}

/// A phase that a run can be in.
pub open spec fn phase_valid(p: SetupPhase) -> bool {
    match p {
        SetupPhase::Required(i) => i < REQUIRED_COUNT,
        SetupPhase::Optional(i) => i < OPTIONAL_COUNT,
        _ => true,
    }
}

/// Whether an event reports that the action did what it was asked.
pub open spec fn event_succeeded(ev: SetupEvent) -> bool {
    match ev {
        SetupEvent::Succeeded => true,
        SetupEvent::FileRead(_) => true,
        SetupEvent::ProcessExited { success, .. } => success,
        SetupEvent::Inspected { .. } => true,
        _ => false,
    }
}

/// The line that turns on site packages in the runtime's path file.
pub open spec fn site_line() -> Seq<char> {
    "import site"@
}

/// The phase after `p` on event `ev`, or `None` where the run fails there.
pub open spec fn next_phase(p: SetupPhase, ev: SetupEvent) -> Option<SetupPhase> {
    if ev is Cancelled {
        None
    } else {
        match p {
            SetupPhase::CreateDirectory => if ev is Succeeded {
                Some(SetupPhase::DownloadArchive)
            } else {
                None
            },
            SetupPhase::DownloadArchive => if ev is Succeeded {
                Some(SetupPhase::ExtractArchive)
            } else {
                None
            },
            SetupPhase::ExtractArchive => if ev is Succeeded {
                Some(SetupPhase::RemoveArchive)
            } else {
                None
            },
            SetupPhase::RemoveArchive => Some(SetupPhase::ReadPathConfig),
            SetupPhase::ReadPathConfig => match ev {
                SetupEvent::FileRead(Some(c)) => if contains_seq(c@, site_line()) {
                    Some(SetupPhase::DownloadBootstrap)
                } else {
                    Some(SetupPhase::WritePathConfig)
                },
                SetupEvent::FileRead(None) => Some(SetupPhase::DownloadBootstrap),
                _ => None,
            },
            SetupPhase::WritePathConfig => if ev is Succeeded {
                Some(SetupPhase::DownloadBootstrap)
            } else {
                None
            },
            SetupPhase::DownloadBootstrap => if ev is Succeeded {
                Some(SetupPhase::RunBootstrap)
            } else {
                None
            },
            SetupPhase::RunBootstrap => if ev is ProcessExited && event_succeeded(ev) {
                Some(SetupPhase::RemoveBootstrap)
            } else {
                None
            },
            SetupPhase::RemoveBootstrap => Some(SetupPhase::Required(0)),
            SetupPhase::Required(i) => if i + 1 < REQUIRED_COUNT {
                Some(SetupPhase::Required((i + 1) as usize))
            } else {
                Some(SetupPhase::Optional(0))
            },
            SetupPhase::Optional(i) => if i + 1 < OPTIONAL_COUNT {
                Some(SetupPhase::Optional((i + 1) as usize))
            } else {
                Some(SetupPhase::Verify)
            },
            SetupPhase::Verify => match ev {
                SetupEvent::Inspected { core_ready, .. } => if core_ready {
                    Some(SetupPhase::Finished)
                } else {
                    None
                },
                _ => None,
            },
            SetupPhase::Finished => Some(SetupPhase::Finished),
        }
    }
}

/// The outside detail that a failure carries.
pub open spec fn event_detail(ev: SetupEvent) -> Seq<char> {
    match ev {
        SetupEvent::Failed(m) => m@,
        SetupEvent::ProcessExited { stderr, .. } => stderr@,
        _ => "unexpected event"@,
    }
}

/// The error of a run that fails in phase `p` on event `ev`.
pub open spec fn failure_text(p: SetupPhase, ev: SetupEvent) -> Seq<char> {
    if ev is Cancelled {
        "Python setup cancelled"@
    } else {
        match p {
            SetupPhase::CreateDirectory => "Failed to create Python directory: "@ + event_detail(ev),
            SetupPhase::DownloadArchive => "Failed to download Python: "@ + event_detail(ev),
            SetupPhase::ExtractArchive => "Failed to extract Python: "@ + event_detail(ev),
            SetupPhase::ReadPathConfig => "Failed to read pth file: "@ + event_detail(ev),
            SetupPhase::WritePathConfig => "Failed to write pth file: "@ + event_detail(ev),
            SetupPhase::DownloadBootstrap => "Failed to download get-pip.py: "@ + event_detail(ev),
            SetupPhase::RunBootstrap => if ev is ProcessExited {
                "Pip installation failed: "@ + event_detail(ev)
            } else {
                "Failed to install pip: "@ + event_detail(ev)
            },
            _ => "Medical libraries verification failed"@,
        }
    }
}

/// Events `0..n` are the first `n` stages in order, each reported as begun.
pub open spec fn ordered_prefix(evs: Seq<PythonSetupProgress>, n: int) -> bool {
    &&& 0 <= n <= evs.len()
    &&& forall|i: int|
        0 <= i < n ==> {
            &&& (#[trigger] evs[i]).step == step_at(i)
            &&& evs[i].progress == step_at(i).weight_spec()
            &&& evs[i].message@ == step_at(i).message_spec()
            &&& !evs[i].completed
            &&& evs[i].error.is_none()
        }
}

/// The events of a run that ended well: every stage once, in order, the last
/// one `Completed` and terminal.
pub open spec fn successful_events(evs: Seq<PythonSetupProgress>) -> bool {
    &&& evs.len() == STEP_COUNT
    &&& ordered_prefix(evs, STEP_COUNT - 1)
    &&& evs.last().step == InstallStep::Completed
    &&& evs.last().progress == 100
    &&& evs.last().message@ == InstallStep::Completed.message_spec()
    &&& evs.last().completed
    &&& evs.last().error.is_none()
}

/// The events of a run that failed: the stages up to the failing one in
/// order, then one terminal event at that stage that carries the error.
pub open spec fn failed_events(evs: Seq<PythonSetupProgress>) -> bool {
    &&& evs.len() >= 2
    &&& ordered_prefix(evs, evs.len() - 1)
    &&& evs.last().step == evs[evs.len() - 2].step
    &&& evs.last().progress == evs[evs.len() - 2].progress
    &&& evs.last().completed
    &&& evs.last().error matches Some(e) && e@.len() > 0
}

/// The events of a run still in progress: the stages begun so far, in order,
/// none terminal.
pub open spec fn running_events(evs: Seq<PythonSetupProgress>, p: SetupPhase) -> bool {
    &&& evs.len() >= 1
    &&& ordered_prefix(evs, evs.len() as int)
    &&& phase_step(p) == step_at(evs.len() - 1)
}

pub open spec fn archive_url() -> Seq<char> {
    "https://www.python.org/ftp/python/3.11.7/python-3.11.7-embed-amd64.zip"@
}

pub open spec fn archive_file() -> Seq<char> {
    "python-embed.zip"@
}

pub open spec fn path_config_file() -> Seq<char> {
    "python311._pth"@
}

pub open spec fn bootstrap_url() -> Seq<char> {
    "https://bootstrap.pypa.io/get-pip.py"@
}

pub open spec fn bootstrap_file() -> Seq<char> {
    "get-pip.py"@
}

/// The arguments that install `lib` with the runtime's package manager.
pub open spec fn pip_install_args(lib: Seq<char>) -> Seq<Seq<char>> {
    seq!["-m"@, "pip"@, "install"@, lib, "--quiet"@, "--disable-pip-version-check"@]
}

/// The action that phase `p` asks for; `config` is the path file's new text.
pub open spec fn action_of(p: SetupPhase, config: Seq<char>, a: SetupAction) -> bool {
    match p {
        SetupPhase::CreateDirectory => a is CreateDirectory,
        SetupPhase::DownloadArchive => a matches SetupAction::Download { url, file_name } && url@
            == archive_url() && file_name@ == archive_file(),
        SetupPhase::ExtractArchive => a matches SetupAction::Extract { archive } && archive@
            == archive_file(),
        SetupPhase::RemoveArchive => a matches SetupAction::RemoveFile { file_name } && file_name@
            == archive_file(),
        SetupPhase::ReadPathConfig => a matches SetupAction::ReadFile { file_name } && file_name@
            == path_config_file(),
        SetupPhase::WritePathConfig => a matches SetupAction::WriteFile { file_name, content }
            && file_name@ == path_config_file() && content@ == config,
        SetupPhase::DownloadBootstrap => a matches SetupAction::Download { url, file_name } && url@
            == bootstrap_url() && file_name@ == bootstrap_file(),
        SetupPhase::RunBootstrap => a matches SetupAction::RunScript { file_name, args }
            && file_name@ == bootstrap_file() && views(args@) == seq![
            "--no-warn-script-location"@,
        ],
        SetupPhase::RemoveBootstrap => a matches SetupAction::RemoveFile { file_name }
            && file_name@ == bootstrap_file(),
        SetupPhase::Required(i) => a matches SetupAction::RunPython { args } && views(args@)
            == pip_install_args(required_library_spec(i as int)),
        SetupPhase::Optional(i) => a matches SetupAction::RunPython { args } && views(args@)
            == pip_install_args(optional_library_spec(i as int)),
        SetupPhase::Verify => a is Inspect,
        SetupPhase::Finished => a is Nothing,
    }
}

fn pip_install(lib: String) -> (r: Vec<String>)
    ensures
        views(r@) == pip_install_args(lib@),
{
    let mut v: Vec<String> = Vec::new();
    v.push(String::from_str("-m"));
    v.push(String::from_str("pip"));
    v.push(String::from_str("install"));
    v.push(lib);
    v.push(String::from_str("--quiet"));
    v.push(String::from_str("--disable-pip-version-check"));
    assert(views(v@) =~= pip_install_args(lib@));
    v
}

/// The stage of a phase.
pub fn step_of(p: SetupPhase) -> (r: InstallStep)
    ensures
        r == phase_step(p),
{
    match p {
        SetupPhase::CreateDirectory => InstallStep::Initializing,
        SetupPhase::DownloadArchive => InstallStep::Downloading,
        SetupPhase::ExtractArchive => InstallStep::Extracting,
        SetupPhase::RemoveArchive => InstallStep::Extracting,
        SetupPhase::ReadPathConfig => InstallStep::Configuring,
        SetupPhase::WritePathConfig => InstallStep::Configuring,
        SetupPhase::DownloadBootstrap => InstallStep::InstallingPackageManager,
        SetupPhase::RunBootstrap => InstallStep::InstallingPackageManager,
        SetupPhase::RemoveBootstrap => InstallStep::InstallingPackageManager,
        SetupPhase::Required(_) => InstallStep::InstallingRequiredLibraries,
        SetupPhase::Optional(_) => InstallStep::InstallingOptionalLibraries,
        SetupPhase::Verify => InstallStep::Verifying,
        SetupPhase::Finished => InstallStep::Completed,
    }
}

fn succeeded(ev: &SetupEvent) -> (r: bool)
    ensures
        r == event_succeeded(*ev),
{
    match ev {
        SetupEvent::Succeeded => true,
        SetupEvent::FileRead(_) => true,
        SetupEvent::ProcessExited { success, .. } => *success,
        SetupEvent::Inspected { .. } => true,
        _ => false,
    }
}

/// The phase that follows `p` on `ev`, or `None` where the run fails.
pub fn phase_after(p: SetupPhase, ev: &SetupEvent) -> (r: Option<SetupPhase>)
    requires
        phase_valid(p),
    ensures
        r == next_phase(p, *ev),
{
    if matches!(ev, SetupEvent::Cancelled) {
        return None;
    }
    let ok = matches!(ev, SetupEvent::Succeeded);
    match p {
        SetupPhase::CreateDirectory => if ok {
            Some(SetupPhase::DownloadArchive)
        } else {
            None
        },
        SetupPhase::DownloadArchive => if ok {
            Some(SetupPhase::ExtractArchive)
        } else {
            None
        },
        SetupPhase::ExtractArchive => if ok {
            Some(SetupPhase::RemoveArchive)
        } else {
            None
        },
        SetupPhase::RemoveArchive => Some(SetupPhase::ReadPathConfig),
        SetupPhase::ReadPathConfig => match ev {
            SetupEvent::FileRead(Some(c)) => if contains(c.as_str(), "import site") {
                Some(SetupPhase::DownloadBootstrap)
            } else {
                Some(SetupPhase::WritePathConfig)
            },
            SetupEvent::FileRead(None) => Some(SetupPhase::DownloadBootstrap),
            _ => None,
        },
        SetupPhase::WritePathConfig => if ok {
            Some(SetupPhase::DownloadBootstrap)
        } else {
            None
        },
        SetupPhase::DownloadBootstrap => if ok {
            Some(SetupPhase::RunBootstrap)
        } else {
            None
        },
        SetupPhase::RunBootstrap => match ev {
            SetupEvent::ProcessExited { success, .. } => if *success {
                Some(SetupPhase::RemoveBootstrap)
            } else {
                None
            },
            _ => None,
        },
        SetupPhase::RemoveBootstrap => Some(SetupPhase::Required(0)),
        SetupPhase::Required(i) => if i + 1 < REQUIRED_COUNT {
            Some(SetupPhase::Required(i + 1))
        } else {
            Some(SetupPhase::Optional(0))
        },
        SetupPhase::Optional(i) => if i + 1 < OPTIONAL_COUNT {
            Some(SetupPhase::Optional(i + 1))
        } else {
            Some(SetupPhase::Verify)
        },
        SetupPhase::Verify => match ev {
            SetupEvent::Inspected { core_ready, .. } => if *core_ready {
                Some(SetupPhase::Finished)
            } else {
                None
            },
            _ => None,
        },
        SetupPhase::Finished => Some(SetupPhase::Finished),
    }
}

fn detail_of(ev: &SetupEvent) -> (r: String)
    ensures
        r@ == event_detail(*ev),
{
    match ev {
        SetupEvent::Failed(m) => m.clone(),
        SetupEvent::ProcessExited { stderr, .. } => stderr.clone(),
        _ => String::from_str("unexpected event"),
    }
}

/// Every error that a run can end with says something.
pub proof fn lemma_failure_text_nonempty(p: SetupPhase, ev: SetupEvent)
    ensures
        failure_text(p, ev).len() > 0,
{
    reveal_strlit("Python setup cancelled");
    reveal_strlit("Failed to create Python directory: ");
    reveal_strlit("Failed to download Python: ");
    reveal_strlit("Failed to extract Python: ");
    reveal_strlit("Failed to read pth file: ");
    reveal_strlit("Failed to write pth file: ");
    reveal_strlit("Failed to download get-pip.py: ");
    reveal_strlit("Pip installation failed: ");
    reveal_strlit("Failed to install pip: ");
    reveal_strlit("Medical libraries verification failed");
}

/// The error text of a run that fails in phase `p` on `ev`.
pub fn failure_message(p: SetupPhase, ev: &SetupEvent) -> (r: String)
    ensures
        r@ == failure_text(p, *ev),
{
    if matches!(ev, SetupEvent::Cancelled) {
        return String::from_str("Python setup cancelled");
    }
    let d = detail_of(ev);
    match p {
        SetupPhase::CreateDirectory => String::from_str("Failed to create Python directory: ").concat(
            d.as_str(),
        ),
        SetupPhase::DownloadArchive => String::from_str("Failed to download Python: ").concat(
            d.as_str(),
        ),
        SetupPhase::ExtractArchive => String::from_str("Failed to extract Python: ").concat(
            d.as_str(),
        ),
        SetupPhase::ReadPathConfig => String::from_str("Failed to read pth file: ").concat(
            d.as_str(),
        ),
        SetupPhase::WritePathConfig => String::from_str("Failed to write pth file: ").concat(
            d.as_str(),
        ),
        SetupPhase::DownloadBootstrap => String::from_str("Failed to download get-pip.py: ").concat(
            d.as_str(),
        ),
        SetupPhase::RunBootstrap => if matches!(ev, SetupEvent::ProcessExited { .. }) {
            String::from_str("Pip installation failed: ").concat(d.as_str())
        } else {
            String::from_str("Failed to install pip: ").concat(d.as_str())
        },
        _ => String::from_str("Medical libraries verification failed"),
    }
}

/// The libraries recorded as failed after phase `p` took `ev`.
pub open spec fn failed_after(p: SetupPhase, ev: SetupEvent, before: Seq<Seq<char>>) -> Seq<
    Seq<char>,
> {
    match p {
        SetupPhase::Required(i) => if event_succeeded(ev) {
            before
        } else {
            before.push(required_library_spec(i as int))
        },
        SetupPhase::Optional(i) => if event_succeeded(ev) {
            before
        } else {
            before.push(optional_library_spec(i as int))
        },
        _ => before,
    }
}

/// The status of a runtime that a run installed and verified.
pub open spec fn installed_status(path: Option<String>, ev: SetupEvent) -> PythonStatus {
    PythonStatus {
        is_available: true,
        python_path: path,
        version: ev->Inspected_version,
        source: SourceOrigin::Bundled,
        medical_libraries_available: true,
        setup_required: false,
    }
}

/// One installation run.
pub struct SetupPipeline {
    phase: SetupPhase,
    events: Vec<PythonSetupProgress>,
    failed_libraries: Vec<String>,
    outcome: Option<Result<PythonStatus, String>>,
    python_path: String,
    path_config: String,
}

impl SetupPipeline {
    pub closed spec fn phase_spec(&self) -> SetupPhase {
        self.phase
    }

    pub closed spec fn events_spec(&self) -> Seq<PythonSetupProgress> {
        self.events@
    }

    pub closed spec fn failed_spec(&self) -> Seq<Seq<char>> {
        views(self.failed_libraries@)
    }

    pub closed spec fn outcome_spec(&self) -> Option<Result<PythonStatus, String>> {
        self.outcome
    }

    pub closed spec fn python_path_spec(&self) -> Seq<char> {
        self.python_path@
    }

    pub closed spec fn path_config_spec(&self) -> Seq<char> {
        self.path_config@
    }

    /// The run's invariant: its events are those of a run in progress, or of a
    /// finished one with the matching outcome.
    pub open spec fn wf(&self) -> bool {
        &&& phase_valid(self.phase_spec())
        &&& if self.phase_spec() is Finished {
            ||| successful_events(self.events_spec()) && (self.outcome_spec() matches Some(Ok(st))
                && st.wf() && st.is_available && !st.setup_required)
            ||| failed_events(self.events_spec()) && (self.outcome_spec() matches Some(Err(e))
                && self.events_spec().last().error == Some(e))
        } else {
            running_events(self.events_spec(), self.phase_spec()) && self.outcome_spec().is_none()
        }
    }

    /// A run that installs into the runtime whose interpreter is `python_path`;
    /// its first event announces the first stage.
    pub fn new(python_path: String) -> (r: Self)
        ensures
            r.wf(),
            r.phase_spec() == SetupPhase::CreateDirectory,
            r.events_spec().len() == 1,
            r.failed_spec().len() == 0,
            r.python_path_spec() == python_path@,
    {
        let mut events: Vec<PythonSetupProgress> = Vec::new();
        let step = InstallStep::Initializing;
        events.push(
            PythonSetupProgress {
                step,
                progress: step.weight(),
                message: step.message(),
                completed: false,
                error: None,
            },
        );
        let r = SetupPipeline {
            phase: SetupPhase::CreateDirectory,
            events,
            failed_libraries: Vec::new(),
            outcome: None,
            python_path,
            path_config: String::new(),
        };
        assert(r.failed_spec() =~= Seq::<Seq<char>>::empty());
        r
    }

    /// The current phase.
    pub fn phase(&self) -> (r: SetupPhase)
        ensures
            r == self.phase_spec(),
    {
        self.phase
    }

    /// The progress events recorded so far, oldest first.
    pub fn events(&self) -> (r: &Vec<PythonSetupProgress>)
        ensures
            r@ == self.events_spec(),
    {
        &self.events
    }

    /// The libraries whose installation did not succeed.
    pub fn failed_libraries(&self) -> (r: &Vec<String>)
        ensures
            views(r@) == self.failed_spec(),
    {
        &self.failed_libraries
    }

    /// Whether the run has ended.
    pub fn is_finished(&self) -> (r: bool)
        ensures
            r == (self.phase_spec() is Finished),
    {
        matches!(self.phase, SetupPhase::Finished)
    }

    /// What the host is to do next.
    pub fn action(&self) -> (r: SetupAction)
        requires
            self.wf(),
        ensures
            action_of(self.phase_spec(), self.path_config_spec(), r),
    {
        match self.phase {
            SetupPhase::CreateDirectory => SetupAction::CreateDirectory,
            SetupPhase::DownloadArchive => SetupAction::Download {
                url: String::from_str(
                    "https://www.python.org/ftp/python/3.11.7/python-3.11.7-embed-amd64.zip",
                ),
                file_name: String::from_str("python-embed.zip"),
            },
            SetupPhase::ExtractArchive => SetupAction::Extract {
                archive: String::from_str("python-embed.zip"),
            },
            SetupPhase::RemoveArchive => SetupAction::RemoveFile {
                file_name: String::from_str("python-embed.zip"),
            },
            SetupPhase::ReadPathConfig => SetupAction::ReadFile {
                file_name: String::from_str("python311._pth"),
            },
            SetupPhase::WritePathConfig => SetupAction::WriteFile {
                file_name: String::from_str("python311._pth"),
                content: self.path_config.clone(),
            },
            SetupPhase::DownloadBootstrap => SetupAction::Download {
                url: String::from_str("https://bootstrap.pypa.io/get-pip.py"),
                file_name: String::from_str("get-pip.py"),
            },
            SetupPhase::RunBootstrap => {
                let mut args: Vec<String> = Vec::new();
                args.push(String::from_str("--no-warn-script-location"));
                assert(views(args@) =~= seq!["--no-warn-script-location"@]);
                SetupAction::RunScript { file_name: String::from_str("get-pip.py"), args }
            },
            SetupPhase::RemoveBootstrap => SetupAction::RemoveFile {
                file_name: String::from_str("get-pip.py"),
            },
            SetupPhase::Required(i) => SetupAction::RunPython {
                args: pip_install(required_library(i)),
            },
            SetupPhase::Optional(i) => SetupAction::RunPython {
                args: pip_install(optional_library(i)),
            },
            SetupPhase::Verify => SetupAction::Inspect,
            SetupPhase::Finished => SetupAction::Nothing,
        }
    }

    /// Takes what came of the last action and moves the run on.
    ///
    /// A failure of a fatal action, a failed verification or a cancellation
    /// ends the run with one terminal event that carries the error. A library
    /// whose installation failed is recorded and the run goes on. Entering a
    /// new stage records one event for it, before its work is asked for; the
    /// last stage ends the run with the runtime's status.
    pub fn advance(&mut self, ev: SetupEvent)
        requires
            old(self).wf(),
        ensures
            final(self).wf(),
            final(self).python_path_spec() == old(self).python_path_spec(),
            old(self).phase_spec() is Finished ==> *final(self) == *old(self),
            !(old(self).phase_spec() is Finished) ==> match next_phase(old(self).phase_spec(), ev) {
                None => {
                    &&& final(self).phase_spec() is Finished
                    &&& final(self).outcome_spec() matches Some(Err(e)) && e@ == failure_text(
                        old(self).phase_spec(),
                        ev,
                    )
                    &&& final(self).events_spec().len() == old(self).events_spec().len() + 1
                    &&& final(self).events_spec().drop_last() == old(self).events_spec()
                },
                Some(np) => {
                    &&& final(self).phase_spec() == np
                    &&& np is Finished ==> final(self).outcome_spec() == Some(
                        Ok::<PythonStatus, String>(installed_status(final(self).outcome_spec()->Some_0->Ok_0.python_path, ev)),
                    )
                    &&& np is Finished ==> final(self).outcome_spec()->Some_0->Ok_0.python_path->Some_0@
                        == old(self).python_path_spec()
                    &&& phase_step(np) == phase_step(old(self).phase_spec())
                        ==> final(self).events_spec() == old(self).events_spec()
                    &&& phase_step(np) != phase_step(old(self).phase_spec()) ==> {
                        &&& final(self).events_spec().len() == old(self).events_spec().len() + 1
                        &&& final(self).events_spec().drop_last() == old(self).events_spec()
                        &&& final(self).events_spec().last().step == phase_step(np)
                    }
                    &&& final(self).failed_spec() == failed_after(
                        old(self).phase_spec(),
                        ev,
                        old(self).failed_spec(),
                    )
                    &&& np is WritePathConfig ==> final(self).path_config_spec()
                        == ev->FileRead_0->Some_0@ + "\nimport site\n"@
                },
            },
    {
        if matches!(self.phase, SetupPhase::Finished) {
            return;
        }
        let p = self.phase;
        let next = phase_after(p, &ev);
        match next {
            None => {
                let msg = failure_message(p, &ev);
                proof {
                    lemma_failure_text_nonempty(p, ev);
                }
                let k = self.events.len();
                let last_step = self.events[k - 1].step;
                let last_progress = self.events[k - 1].progress;
                let ghost before = self.events@;
                self.events.push(
                    PythonSetupProgress {
                        step: last_step,
                        progress: last_progress,
                        message: String::from_str("Python setup failed"),
                        completed: true,
                        error: Some(msg.clone()),
                    },
                );
                assert(self.events@.drop_last() == before);
                self.outcome = Some(Err(msg));
                self.phase = SetupPhase::Finished;
                proof {
                    assert(ordered_prefix(self.events@, self.events@.len() - 1)) by {
                        assert forall|i: int| 0 <= i < self.events@.len() - 1 implies #[trigger] self.events@[i] == before[i] by {}
                    }
                }
            },
            Some(np) => {
                match p {
                    SetupPhase::Required(i) => {
                        if !succeeded(&ev) {
                            self.failed_libraries.push(required_library(i));
                        }
                    },
                    SetupPhase::Optional(i) => {
                        if !succeeded(&ev) {
                            self.failed_libraries.push(optional_library(i));
                        }
                    },
                    _ => {},
                }
                if let SetupEvent::FileRead(Some(c)) = &ev {
                    self.path_config = c.clone().concat("\nimport site\n");
                }
                let ghost before = self.events@;
                let old_step = step_of(p);
                let new_step = step_of(np);
                if matches!(np, SetupPhase::Finished) {
                    let version = match &ev {
                        SetupEvent::Inspected { version, .. } => match version {
                            Some(v) => Some(v.clone()),
                            None => None,
                        },
                        _ => None,
                    };
                    let st = PythonStatus {
                        is_available: true,
                        python_path: Some(self.python_path.clone()),
                        version,
                        source: SourceOrigin::Bundled,
                        medical_libraries_available: true,
                        setup_required: false,
                    };
                    self.events.push(
                        PythonSetupProgress {
                            step: InstallStep::Completed,
                            progress: 100,
                            message: InstallStep::Completed.message(),
                            completed: true,
                            error: None,
                        },
                    );
                    self.outcome = Some(Ok(st));
                } else if new_step != old_step {
                    self.events.push(
                        PythonSetupProgress {
                            step: new_step,
                            progress: new_step.weight(),
                            message: new_step.message(),
                            completed: false,
                            error: None,
                        },
                    );
                }
                self.phase = np;
                proof {
                    if self.events@.len() > before.len() {
                        assert(self.events@.drop_last() == before);
                        assert forall|i: int| 0 <= i < before.len() implies #[trigger] self.events@[i] == before[i] by {}
                    }
                }
            },
        }
    }

    /// The outcome of a finished run.
    pub fn outcome(&self) -> (r: &Option<Result<PythonStatus, String>>)
        ensures
            *r == self.outcome_spec(),
    {
        &self.outcome
    }
}

pub open spec fn busy_text() -> Seq<char> {
    "An installation into this directory is already running"@
}

/// An installation run into the directory `target`, whose interpreter is
/// `python_path`. The run takes `target` in `locks` for its whole length
/// (the host gives it back with `RunLocks::release` once the run is
/// finished); while another run holds it the request is refused and
/// nothing changes.
pub fn setup_embedded_python(locks: &mut RunLocks, target: &str, python_path: String) -> (r: Result<
    SetupPipeline,
    String,
>)
    requires
        old(locks).wf(),
    ensures
        final(locks).wf(),
        r is Ok <==> !old(locks).held().contains(target@),
        r is Ok ==> final(locks).held() == old(locks).held().insert(target@),
        r matches Err(e) ==> e@ == busy_text() && final(locks).held() == old(locks).held(),
        r matches Ok(run) ==> {
            &&& run.wf()
            &&& run.phase_spec() == SetupPhase::CreateDirectory
            &&& run.events_spec().len() == 1
            &&& run.events_spec()[0].step == InstallStep::Initializing
            &&& run.failed_spec().len() == 0
            &&& run.python_path_spec() == python_path@
        },
{
    if locks.try_acquire(target) {
        Ok(SetupPipeline::new(python_path))
    } else {
        Err(String::from_str("An installation into this directory is already running"))
    }
}

/// Two installation runs never work on one directory at once: after a run
/// was granted `target`, the target is held, so a second request for it
/// (which `setup_embedded_python` grants exactly when the target is not
/// held) is refused, with its own state unchanged, until the first run
/// releases it.
pub proof fn lemma_concurrent_installation_refused(
    before: RunLocks,
    after_first: RunLocks,
    target: Seq<char>,
)
    requires
        after_first.held() == before.held().insert(target),
    ensures
        after_first.held().contains(target),
{
}

/// In every run, finished or not, the stages of the events follow the fixed
/// order: event `i` is at stage `i`, except a failure's terminal event, which
/// repeats the stage it failed at; so stages and progress never go back.
pub proof fn lemma_events_in_order(run: &SetupPipeline, i: int, j: int)
    requires
        run.wf(),
        0 <= i <= j < run.events_spec().len(),
    ensures
        run.events_spec()[i].step.index() <= run.events_spec()[j].step.index(),
        run.events_spec()[i].progress <= run.events_spec()[j].progress,
        !run.events_spec()[i].completed ==> run.events_spec()[i].step == step_at(i),
        (run.phase_spec() is Finished && (run.outcome_spec() matches Some(Ok(_))))
            ==> run.events_spec()[i].step == step_at(i),
        (run.phase_spec() is Finished && (run.outcome_spec() matches Some(Err(_))) && i
            == run.events_spec().len() - 1) ==> run.events_spec()[i].step == step_at(i - 1),
{
    let evs = run.events_spec();
    let n = evs.len();
    if run.phase_spec() is Finished && !(run.outcome_spec() matches Some(Ok(_))) {
        if j == n - 1 {
            assert(evs[j].step == evs[n - 2].step);
            assert(evs[n - 2].step == step_at(n - 2));
            if i < n - 1 {
                lemma_weight_monotonic(i, n - 2);
            }
        } else {
            lemma_weight_monotonic(i, j);
        }
    } else {
        lemma_weight_monotonic(i, j);
    }
}

/// Every run has exactly one terminal event once it has finished, and it is
/// the last one; a run in progress has none.
pub proof fn lemma_one_terminal_event(run: &SetupPipeline, i: int)
    requires
        run.wf(),
        0 <= i < run.events_spec().len(),
    ensures
        run.events_spec()[i].completed <==> (run.phase_spec() is Finished && i
            == run.events_spec().len() - 1),
        run.phase_spec() is Finished ==> run.events_spec().last().completed,
{
}

/// A library whose installation fails does not end the run: the run moves to
/// the next library, or to the next stage, whatever came of the install.
pub proof fn lemma_library_failure_continues(p: SetupPhase, ev: SetupEvent)
    requires
        p is Required || p is Optional,
        phase_valid(p),
        !(ev is Cancelled),
    ensures
        next_phase(p, ev) is Some,
        !(next_phase(p, ev)->Some_0 is Finished),
{
}

/// When verification finds the foundational libraries, the run ends well and
/// reports an available runtime that needs no setup, whatever other libraries
/// failed to install before.
pub proof fn lemma_verified_run_is_available(
    failed: Seq<Seq<char>>,
    path: Option<String>,
    version: Option<String>,
)
    requires
        path is Some,
    ensures
        next_phase(SetupPhase::Verify, SetupEvent::Inspected { version, core_ready: true })
            == Some(SetupPhase::Finished),
        installed_status(path, SetupEvent::Inspected { version, core_ready: true }).wf(),
        installed_status(path, SetupEvent::Inspected { version, core_ready: true }).is_available,
        !installed_status(path, SetupEvent::Inspected { version, core_ready: true }).setup_required,
{
}

/// When verification does not find the foundational libraries, the run fails
/// at the verifying stage with an error that says something.
pub proof fn lemma_missing_foundation_fails(version: Option<String>)
    ensures
        next_phase(SetupPhase::Verify, SetupEvent::Inspected { version, core_ready: false })
            is None,
        failure_text(SetupPhase::Verify, SetupEvent::Inspected { version, core_ready: false }).len()
            > 0,
        phase_step(SetupPhase::Verify) == InstallStep::Verifying,
{
    lemma_failure_text_nonempty(
        SetupPhase::Verify,
        SetupEvent::Inspected { version, core_ready: false },
    );
}

} // verus!

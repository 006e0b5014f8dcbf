//! The embedded analysis runtime: what a probe of a candidate found, what its
//! library report says, and which candidate a status reports.
use vstd::prelude::*;
use vstd::string::*;
use crate::text::{first_line, first_line_of, trim, trimmed, views};

verus! {

/// Where a runtime comes from, in order of preference.
#[derive(Clone, Copy, Debug, PartialEq, Eq, Structural)]
pub enum SourceOrigin {
    Bundled,
    System,
    Absent,
}

impl SourceOrigin {
    pub open spec fn name_spec(self) -> Seq<char> {
        match self {
            SourceOrigin::Bundled => "bundled"@,
            SourceOrigin::System => "system"@,
            SourceOrigin::Absent => "none"@,
        }
    }

    /// The name under which the origin is reported.
    pub fn name(&self) -> (r: String)
        ensures
            r@ == self.name_spec(),
    {
        match self {
            SourceOrigin::Bundled => String::from_str("bundled"),
            SourceOrigin::System => String::from_str("system"),
            SourceOrigin::Absent => String::from_str("none"),
        }
    }
}

/// What is known of the runtime after a query.
#[derive(Clone, Debug)]
pub struct PythonStatus {
    pub is_available: bool,
    pub python_path: Option<String>,
    pub version: Option<String>,
    pub source: SourceOrigin,
    pub medical_libraries_available: bool,
    pub setup_required: bool,
}

impl PythonStatus {
    /// The status invariant: setup is required exactly when no runtime is
    /// available or the available one lacks a foundational library; an
    /// unavailable runtime has no path, no version and the origin `None`.
    pub open spec fn wf(&self) -> bool {
        &&& self.setup_required == (!self.is_available || !self.medical_libraries_available)
        &&& self.is_available == (self.source != SourceOrigin::Absent)
        &&& self.is_available == self.python_path.is_some()
        &&& !self.is_available ==> self.version.is_none() && !self.medical_libraries_available
    }
}

/// What came of running a program to its end.
#[derive(Clone, Debug)]
pub struct ProcessOutput {
    pub success: bool,
    /// The standard output, or `None` where it is not UTF-8.
    pub stdout: Option<String>,
    pub stderr: String,
}

/// The foundational libraries: a runtime without them is not usable.
pub open spec fn foundational_library(i: int) -> Seq<char> {
    if i <= 0 {
        "pandas"@
    } else if i == 1 {
        "numpy"@
    } else {
        "scipy"@
    }
}

/// Number of foundational libraries.
pub const FOUNDATIONAL_COUNT: usize = 3;

fn foundational_name(i: usize) -> (r: &'static str)
    requires
        i < FOUNDATIONAL_COUNT,
    ensures
        r@ == foundational_library(i as int),
{
    if i == 0 {
        "pandas"
    } else if i == 1 {
        "numpy"
    } else {
        "scipy"
    }
}

/// The program that the runtime runs to report, as a JSON object, which of
/// the analysis libraries it can import.
pub fn library_check_script() -> (r: String)
    ensures
        r@ == library_check_script_text(),
{
    String::from_str(
        "import json\nlibraries = [\"pandas\", \"numpy\", \"scipy\", \"matplotlib\", \"seaborn\", \"statsmodels\", \"sklearn\"]\navailable = {}\nfor lib in libraries:\n    try:\n        if lib == \"sklearn\":\n            import sklearn\n        else:\n            __import__(lib)\n        available[lib] = True\n    except ImportError:\n        available[lib] = False\nprint(json.dumps(available))\n",
    )
}

pub open spec fn library_check_script_text() -> Seq<char> {
    "import json\nlibraries = [\"pandas\", \"numpy\", \"scipy\", \"matplotlib\", \"seaborn\", \"statsmodels\", \"sklearn\"]\navailable = {}\nfor lib in libraries:\n    try:\n        if lib == \"sklearn\":\n            import sklearn\n        else:\n            __import__(lib)\n        available[lib] = True\n    except ImportError:\n        available[lib] = False\nprint(json.dumps(available))\n"@
}

/// A name for what serde_json reads of a library report for `lib`: `None`
/// where the report is not a JSON object of booleans, else the entry for
/// `lib`, `None` where the report has none.
pub uninterp spec fn library_report_entry(report: Seq<char>, lib: Seq<char>) -> Option<Option<bool>>;

/// Relies on `serde_json::from_str` into a `HashMap<String, bool>` and on
/// `HashMap::get`: the report's entry for `lib`, or `None` where the report
/// does not parse.
#[verifier::external_body]
fn report_entry(report: &str, lib: &str) -> (r: Option<Option<bool>>)
    ensures
        r == library_report_entry(report@, lib@),
{
    serde_json::from_str::<std::collections::HashMap<String, bool>>(report).ok().map(|m| m.get(lib).copied())
}

/// Whether report entries for the foundational libraries, in order, all say
/// the library is there.
pub fn core_ready(entries: &Vec<Option<Option<bool>>>) -> (r: bool)
    ensures
        r == (entries@.len() == FOUNDATIONAL_COUNT && forall|i: int|
            0 <= i < FOUNDATIONAL_COUNT ==> #[trigger] entries@[i] == Some(Some(true))),
{
    if entries.len() != FOUNDATIONAL_COUNT {
        return false;
    }
    let mut i: usize = 0;
    while i < FOUNDATIONAL_COUNT
        invariant
            entries@.len() == FOUNDATIONAL_COUNT,
            i <= FOUNDATIONAL_COUNT,
            forall|k: int| 0 <= k < i ==> #[trigger] entries@[k] == Some(Some(true)),
        decreases FOUNDATIONAL_COUNT - i,
    {
        match entries[i] {
            Some(Some(true)) => {},
            _ => {
                return false;
            },
        }
        i = i + 1;
    }
    true
}

/// Whether a runtime's library report shows every foundational library.
pub open spec fn report_core_ready(report: Seq<char>) -> bool {
    forall|i: int| 0 <= i < FOUNDATIONAL_COUNT ==> #[trigger] library_report_entry(report, foundational_library(i))
        == Some(Some(true))
}

/// Whether the run of the library check shows the foundational libraries: a
/// run that could not start, failed, or printed something else counts as a
/// runtime without them.
pub fn check_medical_libraries(run: &Result<ProcessOutput, String>) -> (r: bool)
    ensures
        r == (run matches Ok(o) && o.success && o.stdout is Some && report_core_ready(
            o.stdout->Some_0@,
        )),
{
    match run {
        Ok(o) => {
            if !o.success {
                return false;
            }
            match &o.stdout {
                None => false,
                Some(out) => {
                    let mut entries: Vec<Option<Option<bool>>> = Vec::new();
                    let mut i: usize = 0;
                    while i < FOUNDATIONAL_COUNT
                        invariant
                            i <= FOUNDATIONAL_COUNT,
                            entries@.len() == i,
                            forall|k: int| 0 <= k < i ==> #[trigger] entries@[k] == library_report_entry(
                                out@,
                                foundational_library(k),
                            ),
                        decreases FOUNDATIONAL_COUNT - i,
                    {
                        entries.push(report_entry(out.as_str(), foundational_name(i)));
                        i = i + 1;
                    }
                    let r = core_ready(&entries);
                    assert(r == report_core_ready(out@)) by {
                        if r {
                            assert forall|i: int| 0 <= i < FOUNDATIONAL_COUNT implies #[trigger] library_report_entry(out@, foundational_library(i)) == Some(Some(true)) by {
                                assert(entries@[i] == Some(Some(true)));
                            }
                        } else {
                            if report_core_ready(out@) {
                                assert forall|i: int| 0 <= i < FOUNDATIONAL_COUNT implies #[trigger] entries@[i] == Some(Some(true)) by {
                                    assert(library_report_entry(out@, foundational_library(i)) == Some(Some(true)));
                                }
                            }
                        }
                    }
                    r
                },
            }
        },
        Err(_) => false,
    }
}

/// What the version command's run says: the trimmed output, or why there is none.
pub open spec fn version_result(run: Result<ProcessOutput, String>) -> Result<Seq<char>, Seq<char>> {
    match run {
        Err(e) => Err("Failed to get Python version: "@ + e@),
        Ok(o) => if !o.success {
            Err("Failed to execute Python version command"@)
        } else {
            match o.stdout {
                Some(s) => Ok(trimmed(s@)),
                None => Err("Failed to parse version output: invalid UTF-8"@),
            }
        },
    }
}

/// The runtime's version, from the run of its version command.
pub fn get_python_version(run: &Result<ProcessOutput, String>) -> (r: Result<String, String>)
    ensures
        match r {
            Ok(v) => version_result(*run) == Ok::<Seq<char>, Seq<char>>(v@),
            Err(e) => version_result(*run) == Err::<Seq<char>, Seq<char>>(e@),
        },
{
    match run {
        Err(e) => Err(String::from_str("Failed to get Python version: ").concat(e.as_str())),
        Ok(o) => {
            if !o.success {
                Err(String::from_str("Failed to execute Python version command"))
            } else {
                match &o.stdout {
                    Some(s) => Ok(trim(s.as_str())),
                    None => Err(String::from_str("Failed to parse version output: invalid UTF-8")),
                }
            }
        },
    }
}

/// The places where a bundled runtime may be, in order: two relative to the
/// working directory, then the one beside the executable where that is known.
pub fn bundled_python_candidates(beside_executable: Option<String>) -> (r: Vec<String>)
    ensures
        r@.len() == 2 + (if beside_executable is Some { 1int } else { 0 }),
        r@[0]@ == "resources/python/python.exe"@,
        r@[1]@ == "python/python.exe"@,
        beside_executable matches Some(p) ==> r@[2] == p,
{
    let mut v: Vec<String> = Vec::new();
    v.push(String::from_str("resources/python/python.exe"));
    v.push(String::from_str("python/python.exe"));
    match beside_executable {
        Some(p) => v.push(p),
        None => {},
    }
    v
}

/// The first candidate place that exists: each probe is a path and whether a
/// file is there.
pub fn check_bundled_python(probes: &Vec<(String, bool)>) -> (r: Option<String>)
    ensures
        r matches Some(p) ==> exists|i: int| 0 <= i < probes@.len() && (#[trigger] probes@[i]).1
            && probes@[i].0@ == p@ && forall|k: int| 0 <= k < i ==> !(#[trigger] probes@[k]).1,
        r is None ==> forall|k: int| 0 <= k < probes@.len() ==> !(#[trigger] probes@[k]).1,
{
    let mut i: usize = 0;
    while i < probes.len()
        invariant
            i <= probes@.len(),
            forall|k: int| 0 <= k < i ==> !(#[trigger] probes@[k]).1,
        decreases probes@.len() - i,
    {
        if probes[i].1 {
            let p = probes[i].0.clone();
            assert(probes@[i as int].1);
            return Some(p);
        }
        i = i + 1;
    }
    None
}

/// The commands tried for a system runtime, in order.
pub fn system_python_commands() -> (r: Vec<String>)
    ensures
        views(r@) == seq!["python"@, "python3"@, "py"@],
{
    let mut v: Vec<String> = Vec::new();
    v.push(String::from_str("python"));
    v.push(String::from_str("python3"));
    v.push(String::from_str("py"));
    assert(views(v@) =~= seq!["python"@, "python3"@, "py"@]);
    v
}

/// What was learnt of one system command.
#[derive(Clone, Debug)]
pub struct SystemProbe {
    pub command: String,
    /// Whether `<command> --version` ran and succeeded.
    pub version_ok: bool,
    /// The output of the lookup of the command's full path, where it ran
    /// and gave UTF-8 text.
    pub location: Option<String>,
}

/// The path to report for a working command: the first line of its lookup,
/// trimmed, else the command itself.
pub open spec fn system_choice(p: SystemProbe) -> Seq<char> {
    match p.location {
        Some(out) => match first_line_of(out@) {
            Some(l) => trimmed(l),
            None => p.command@,
        },
        None => p.command@,
    }
}

/// The first command that works, as `system_choice` reports it.
pub fn check_system_python(probes: &Vec<SystemProbe>) -> (r: Option<String>)
    ensures
        r matches Some(p) ==> exists|i: int| 0 <= i < probes@.len() && (#[trigger] probes@[i]).version_ok
            && p@ == system_choice(probes@[i]) && forall|k: int| 0 <= k < i ==> !(#[trigger] probes@[k]).version_ok,
        r is None ==> forall|k: int| 0 <= k < probes@.len() ==> !(#[trigger] probes@[k]).version_ok,
{
    let mut i: usize = 0;
    while i < probes.len()
        invariant
            i <= probes@.len(),
            forall|k: int| 0 <= k < i ==> !(#[trigger] probes@[k]).version_ok,
        decreases probes@.len() - i,
    {
        if probes[i].version_ok {
            let p = &probes[i];
            let chosen = match &p.location {
                Some(out) => match first_line(out.as_str()) {
                    Some(l) => trim(l.as_str()),
                    None => p.command.clone(),
                },
                None => p.command.clone(),
            };
            assert(probes@[i as int].version_ok);
            return Some(chosen);
        }
        i = i + 1;
    }
    None
}

/// What a probe found of one candidate runtime.
#[derive(Clone, Debug)]
pub struct RuntimeProbe {
    pub path: String,
    /// The reported version, where the version command worked.
    pub version: Option<String>,
    /// Whether its library check showed the foundational libraries.
    pub core_ready: bool,
}

/// The status of a usable runtime, or of one found but not usable.
pub open spec fn found_status(p: RuntimeProbe, origin: SourceOrigin) -> PythonStatus {
    PythonStatus {
        is_available: true,
        python_path: Some(p.path),
        version: p.version,
        source: origin,
        medical_libraries_available: p.core_ready,
        setup_required: !p.core_ready,
    }
}

/// The status when no runtime was found.
pub open spec fn absent_status() -> PythonStatus {
    PythonStatus {
        is_available: false,
        python_path: None,
        version: None,
        source: SourceOrigin::Absent,
        medical_libraries_available: false,
        setup_required: true,
    }
}

/// The resolution policy: the most preferred usable runtime; with none
/// usable, the most preferred one found, marked as needing setup; with none
/// found, no runtime.
pub open spec fn resolved_status(bundled: Option<RuntimeProbe>, system: Option<RuntimeProbe>) -> PythonStatus {
    if bundled matches Some(b) && b.core_ready {
        found_status(bundled->Some_0, SourceOrigin::Bundled)
    } else if system matches Some(s) && s.core_ready {
        found_status(system->Some_0, SourceOrigin::System)
    } else if bundled is Some {
        found_status(bundled->Some_0, SourceOrigin::Bundled)
    } else if system is Some {
        found_status(system->Some_0, SourceOrigin::System)
    } else {
        absent_status()
    }
}

/// The runtime's status from what the probes of the bundled and the system
/// candidates found (`None` where nothing was found there).
pub fn check_python_status(bundled: Option<RuntimeProbe>, system: Option<RuntimeProbe>) -> (r: PythonStatus)
    ensures
        r == resolved_status(bundled, system),
        r.wf(),
{
    let b_ready = match &bundled {
        Some(b) => b.core_ready,
        None => false,
    };
    let s_ready = match &system {
        Some(s) => s.core_ready,
        None => false,
    };
    let pick_bundled = b_ready || (!s_ready && bundled.is_some());
    if pick_bundled {
        match bundled {
            Some(b) => {
                let ready = b.core_ready;
                PythonStatus {
                    is_available: true,
                    python_path: Some(b.path),
                    version: b.version,
                    source: SourceOrigin::Bundled,
                    medical_libraries_available: ready,
                    setup_required: !ready,
                }
            },
            None => absent(),
        }
    } else {
        match system {
            Some(s) => {
                let ready = s.core_ready;
                PythonStatus {
                    is_available: true,
                    python_path: Some(s.path),
                    version: s.version,
                    source: SourceOrigin::System,
                    medical_libraries_available: ready,
                    setup_required: !ready,
                }
            },
            None => absent(),
        }
    }
}

fn absent() -> (r: PythonStatus)
    ensures
        r == absent_status(),
{
    PythonStatus {
        is_available: false,
        python_path: None,
        version: None,
        source: SourceOrigin::Absent,
        medical_libraries_available: false,
        setup_required: true,
    }
}

/// Resolution depends on what the probes found and on nothing else: two
/// resolutions over the same findings give the same status.
pub proof fn lemma_resolution_repeatable(
    bundled: Option<RuntimeProbe>,
    system: Option<RuntimeProbe>,
    first: PythonStatus,
    second: PythonStatus,
)
    requires
        first == resolved_status(bundled, system),
        second == resolved_status(bundled, system),
    ensures
        first == second,
{
}

/// The interpreter's path that a status reports.
pub fn get_python_path(status: &PythonStatus) -> (r: Result<String, String>)
    ensures
        status.python_path matches Some(p) ==> (r matches Ok(q) && q@ == p@),
        status.python_path is None ==> (r matches Err(e) && e@ == "No Python installation found"@),
{
    match &status.python_path {
        Some(p) => Ok(p.clone()),
        None => Err(String::from_str("No Python installation found")),
    }
}

} // verus!

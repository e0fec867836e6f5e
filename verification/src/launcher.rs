//! Launch planning for the backend process: which mode applies, which
//! program is invoked with which arguments and working directory, where
//! its log goes, and which errors a start attempt can surface.
//!
//! The host application resolves directories, checks the file system and
//! performs the spawn; everything decided from those plain answers is
//! here.

use crate::numfmt::{dec_digits, u64_to_string};
use crate::textutil::opt_text_view;
use vstd::prelude::*;

verus! {

/// Whether the host runs the backend in development mode (an external
/// package runner over the project sources) rather than production mode
/// (a bundled executable): development exactly in a debug build.
pub fn is_dev_mode(debug_build: bool) -> (r: bool)
    ensures
        r == debug_build,
{
    debug_build
}

/// The platforms a bundled backend binary exists for.
#[derive(Clone, Copy, PartialEq, Eq, Structural)]
pub enum Platform {
    MacAarch64,
    MacX64,
    LinuxAarch64,
    LinuxX64,
    WindowsX64,
}

/// The per-platform directory of bundled binaries.
pub open spec fn spec_sidecar_dir_name(platform: Platform) -> Seq<char> {
    match platform {
        Platform::MacAarch64 => "sidecar-aarch64-apple-darwin"@,
        Platform::MacX64 => "sidecar-x86_64-apple-darwin"@,
        Platform::LinuxAarch64 => "sidecar-aarch64-unknown-linux-gnu"@,
        Platform::LinuxX64 => "sidecar-x86_64-unknown-linux-gnu"@,
        Platform::WindowsX64 => "sidecar-x86_64-pc-windows-msvc"@,
    }
}

/// The platform-specific directory name holding the bundled backend.
pub fn get_sidecar_dir_name(platform: Platform) -> (r: &'static str)
    ensures
        r@ == spec_sidecar_dir_name(platform),
{
    match platform {
        Platform::MacAarch64 => "sidecar-aarch64-apple-darwin",
        Platform::MacX64 => "sidecar-x86_64-apple-darwin",
        Platform::LinuxAarch64 => "sidecar-aarch64-unknown-linux-gnu",
        Platform::LinuxX64 => "sidecar-x86_64-unknown-linux-gnu",
        Platform::WindowsX64 => "sidecar-x86_64-pc-windows-msvc",
    }
}

/// The per-platform file name of the bundled backend binary.
pub open spec fn spec_sidecar_binary_name(platform: Platform) -> Seq<char> {
    match platform {
        Platform::MacAarch64 => "backend-sidecar-aarch64-apple-darwin"@,
        Platform::MacX64 => "backend-sidecar-x86_64-apple-darwin"@,
        Platform::LinuxAarch64 => "backend-sidecar-aarch64-unknown-linux-gnu"@,
        Platform::LinuxX64 => "backend-sidecar-x86_64-unknown-linux-gnu"@,
        Platform::WindowsX64 => "backend-sidecar-x86_64-pc-windows-msvc.exe"@,
    }
}

/// The platform-specific file name of the bundled backend binary.
pub fn get_sidecar_binary_name(platform: Platform) -> (r: &'static str)
    ensures
        r@ == spec_sidecar_binary_name(platform),
{
    match platform {
        Platform::MacAarch64 => "backend-sidecar-aarch64-apple-darwin",
        Platform::MacX64 => "backend-sidecar-x86_64-apple-darwin",
        Platform::LinuxAarch64 => "backend-sidecar-aarch64-unknown-linux-gnu",
        Platform::LinuxX64 => "backend-sidecar-x86_64-unknown-linux-gnu",
        Platform::WindowsX64 => "backend-sidecar-x86_64-pc-windows-msvc.exe",
    }
}

/// The fixed ordered locations where the package runner is looked for,
/// given the user's home directory: the host process does not inherit
/// the interactive shell's search path.
pub open spec fn spec_uv_candidates(home: Seq<char>) -> Seq<Seq<char>> {
    seq![
        home + "/.local/bin/uv"@,
        home + "/.cargo/bin/uv"@,
        "/usr/local/bin/uv"@,
        "/opt/homebrew/bin/uv"@,
    ]
}

/// Builds the ordered candidate locations of the package runner.
pub fn uv_candidate_paths(home: &str) -> (r: Vec<String>)
    ensures
        r@.len() == 4,
        r@[0]@ == spec_uv_candidates(home@)[0],
        r@[1]@ == spec_uv_candidates(home@)[1],
        r@[2]@ == spec_uv_candidates(home@)[2],
        r@[3]@ == spec_uv_candidates(home@)[3],
{
    let mut r: Vec<String> = Vec::new();
    let mut local = String::from_str(home);
    local.append("/.local/bin/uv");
    r.push(local);
    let mut cargo = String::from_str(home);
    cargo.append("/.cargo/bin/uv");
    r.push(cargo);
    r.push(String::from_str("/usr/local/bin/uv"));
    r.push(String::from_str("/opt/homebrew/bin/uv"));
    r
}

/// The smallest index holding `true`, or the length if none does.
pub open spec fn first_true(flags: Seq<bool>) -> int
    decreases flags.len(),
{
    if flags.len() == 0 {
        0
    } else if flags[0] {
        0
    } else {
        1 + first_true(flags.subrange(1, flags.len() as int))
    }
}

proof fn lemma_first_true_at(flags: Seq<bool>, i: int)
    requires
        0 <= i <= flags.len(),
        forall|j: int| 0 <= j < i ==> !flags[j],
        i < flags.len() ==> flags[i],
    ensures
        first_true(flags) == i,
    decreases i,
{
    if i > 0 {
        let rest = flags.subrange(1, flags.len() as int);
        assert(forall|j: int| 0 <= j < i - 1 ==> !rest[j]);
        assert(i - 1 < rest.len() ==> rest[i - 1]);
        lemma_first_true_at(rest, i - 1);
    }
}

/// Picks the package runner: the first candidate that the file system
/// shows to exist, and the unqualified name as a last resort, so the
/// operating system's own search path gets a final chance.
pub fn find_uv_path(candidates: &Vec<String>, exists: &Vec<bool>) -> (r: String)
    requires
        candidates@.len() == exists@.len(),
    ensures
        first_true(exists@) < exists@.len() ==> r@ == candidates@[first_true(exists@)]@,
        first_true(exists@) == exists@.len() ==> r@ == "uv"@,
{
    let n: usize = exists.len();
    let mut i: usize = 0;
    while i < n
        invariant
            n == exists@.len() == candidates@.len(),
            i <= n,
            forall|j: int| 0 <= j < i ==> !exists@[j],
        decreases n - i,
    {
        if exists[i] {
            proof {
                lemma_first_true_at(exists@, i as int);
            }
            return candidates[i].clone();
        }
        i = i + 1;
    }
    proof {
        lemma_first_true_at(exists@, exists@.len() as int);
    }
    String::from_str("uv")
}

/// Where the backend log goes, by preference: the platform log
/// directory, then the data directory's `logs` subfolder, then a
/// temp-directory fallback; the file name is fixed.
pub open spec fn spec_resolve_log_path(
    app_log_dir: Option<Seq<char>>,
    app_data_dir: Option<Seq<char>>,
    temp_dir: Seq<char>,
) -> Seq<char> {
    match app_log_dir {
        Some(d) => d + "/backend-sidecar.log"@,
        None => match app_data_dir {
            Some(d) => d + "/logs/backend-sidecar.log"@,
            None => temp_dir + "/alproj-gui/backend-sidecar.log"@,
        },
    }
}

/// Resolves the backend log path from the directories the platform
/// offers.
pub fn resolve_backend_log_path(
    app_log_dir: &Option<String>,
    app_data_dir: &Option<String>,
    temp_dir: &str,
) -> (r: String)
    ensures
        r@ == spec_resolve_log_path(
            opt_text_view(*app_log_dir),
            opt_text_view(*app_data_dir),
            temp_dir@,
        ),
{
    match app_log_dir {
        Some(d) => {
            let mut r = d.clone();
            r.append("/backend-sidecar.log");
            r
        },
        None => match app_data_dir {
            Some(d) => {
                let mut r = d.clone();
                r.append("/logs/backend-sidecar.log");
                r
            },
            None => {
                let mut r = String::from_str(temp_dir);
                r.append("/alproj-gui/backend-sidecar.log");
                r
            },
        },
    }
}

/// Everything a spawn needs: the program, its arguments, the working
/// directory it must run from, and where its output is captured.
#[derive(Debug)]
pub struct StartPlan {
    pub program: String,
    pub args: Vec<String>,
    pub working_dir: String,
    pub log_path: String,
}

/// Why a start attempt cannot even spawn.
#[derive(Debug)]
pub enum SpawnError {
    /// Development mode: the backend source directory is absent.
    MissingBackendDir { path: String },
    /// Development mode: no home directory, so the package runner
    /// cannot be looked for.
    UvUnavailable,
    /// Production mode: the bundled binary is absent.
    MissingSidecarBinary { path: String },
}

/// The message each spawn failure surfaces, naming the path attempted.
pub open spec fn spec_spawn_error_message(e: SpawnError) -> Seq<char> {
    match e {
        SpawnError::MissingBackendDir { path } => "Backend directory does not exist: "@ + path@,
        SpawnError::UvUnavailable => "Could not find uv. Please ensure uv is installed."@,
        SpawnError::MissingSidecarBinary { path } => "Sidecar binary not found: "@ + path@,
    }
}

impl SpawnError {
    /// Renders the failure for the error event surfaced to the frontend.
    pub fn message(&self) -> (r: String)
        ensures
            r@ == spec_spawn_error_message(*self),
    {
        match self {
            SpawnError::MissingBackendDir { path } => {
                let mut r = String::from_str("Backend directory does not exist: ");
                r.append(path.as_str());
                r
            },
            SpawnError::UvUnavailable => {
                String::from_str("Could not find uv. Please ensure uv is installed.")
            },
            SpawnError::MissingSidecarBinary { path } => {
                let mut r = String::from_str("Sidecar binary not found: ");
                r.append(path.as_str());
                r
            },
        }
    }
}

/// Plans a development-mode start: the package runner serves the backend
/// sources from the backend directory, output to the log file. Fails if
/// the backend directory is absent, naming it; fails if no package
/// runner could be looked for.
pub fn plan_dev_start(
    backend_dir: &str,
    backend_dir_exists: bool,
    uv_path: &Option<String>,
    log_path: &str,
) -> (r: Result<StartPlan, SpawnError>)
    ensures
        !backend_dir_exists ==> (r matches Err(e) && e matches SpawnError::MissingBackendDir {
            path,
        } && path@ == backend_dir@),
        backend_dir_exists && (*uv_path) is None ==> (r matches Err(e) && e
            == SpawnError::UvUnavailable),
        backend_dir_exists && (*uv_path) is Some ==> (r matches Ok(p) && {
            &&& p.program@ == uv_path->Some_0@
            &&& p.working_dir@ == backend_dir@
            &&& p.log_path@ == log_path@
            &&& p.args@.len() == 7
            &&& p.args@[0]@ == "run"@
            &&& p.args@[1]@ == "uvicorn"@
            &&& p.args@[2]@ == "app.main:app"@
            &&& p.args@[3]@ == "--host"@
            &&& p.args@[4]@ == "127.0.0.1"@
            &&& p.args@[5]@ == "--port"@
            &&& p.args@[6]@ == dec_digits(crate::BACKEND_PORT as nat)
        }),
{
    if !backend_dir_exists {
        return Result::Err(
            SpawnError::MissingBackendDir { path: String::from_str(backend_dir) },
        );
    }
    match uv_path {
        None => Result::Err(SpawnError::UvUnavailable),
        Some(uv) => {
            let mut args: Vec<String> = Vec::new();
            args.push(String::from_str("run"));
            args.push(String::from_str("uvicorn"));
            args.push(String::from_str("app.main:app"));
            args.push(String::from_str("--host"));
            args.push(String::from_str("127.0.0.1"));
            args.push(String::from_str("--port"));
            args.push(u64_to_string(crate::BACKEND_PORT as u64));
            Result::Ok(
                StartPlan {
                    program: uv.clone(),
                    args,
                    working_dir: String::from_str(backend_dir),
                    log_path: String::from_str(log_path),
                },
            )
        },
    }
}

/// The directory of bundled binaries for the platform.
pub open spec fn spec_sidecar_dir(resource_dir: Seq<char>, platform: Platform) -> Seq<char> {
    resource_dir + "/binaries/"@ + spec_sidecar_dir_name(platform)
}

/// The full path of the bundled backend binary.
pub open spec fn spec_sidecar_path(resource_dir: Seq<char>, platform: Platform) -> Seq<char> {
    spec_sidecar_dir(resource_dir, platform) + "/"@ + spec_sidecar_binary_name(platform)
}

/// Plans a production-mode start: the bundled binary, run from its own
/// directory so it finds its adjacent runtime assets, output to the log
/// file. Fails if the binary is absent, naming the path attempted.
pub fn plan_prod_start(
    resource_dir: &str,
    platform: Platform,
    binary_exists: bool,
    log_path: &str,
) -> (r: Result<StartPlan, SpawnError>)
    ensures
        !binary_exists ==> (r matches Err(e) && e matches SpawnError::MissingSidecarBinary {
            path,
        } && path@ == spec_sidecar_path(resource_dir@, platform)),
        binary_exists ==> (r matches Ok(p) && {
            &&& p.program@ == spec_sidecar_path(resource_dir@, platform)
            &&& p.working_dir@ == spec_sidecar_dir(resource_dir@, platform)
            &&& p.log_path@ == log_path@
            &&& p.args@.len() == 4
            &&& p.args@[0]@ == "--host"@
            &&& p.args@[1]@ == "127.0.0.1"@
            &&& p.args@[2]@ == "--port"@
            &&& p.args@[3]@ == dec_digits(crate::BACKEND_PORT as nat)
        }),
{
    let mut sidecar_dir = String::from_str(resource_dir);
    sidecar_dir.append("/binaries/");
    sidecar_dir.append(get_sidecar_dir_name(platform));
    let mut sidecar_path = sidecar_dir.clone();
    sidecar_path.append("/");
    sidecar_path.append(get_sidecar_binary_name(platform));
    if !binary_exists {
        return Result::Err(SpawnError::MissingSidecarBinary { path: sidecar_path });
    }
    let mut args: Vec<String> = Vec::new();
    args.push(String::from_str("--host"));
    args.push(String::from_str("127.0.0.1"));
    args.push(String::from_str("--port"));
    args.push(u64_to_string(crate::BACKEND_PORT as u64));
    Result::Ok(
        StartPlan {
            program: sidecar_path,
            args,
            working_dir: sidecar_dir,
            log_path: String::from_str(log_path),
        },
    )
}

} // verus!

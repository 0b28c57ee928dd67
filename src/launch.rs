//! What the resource directory must hold and how the bundled server is
//! started: its files, its environment and the mode chosen on the command line.
use vstd::prelude::*;

verus! {

/// The platform the shell runs on; it decides the runtime binary's file name.
#[derive(Clone, Copy, Debug, PartialEq, Eq, Structural)]
pub enum Platform {
    Windows,
    Unix,
}

/// Whether the shell opens windows or only runs the server.
#[derive(Clone, Copy, Debug, PartialEq, Eq, Structural)]
pub enum Mode {
    Windowed,
    ServerOnly,
}

/// The command-line switch that selects server-only mode.
pub open spec fn server_only_switch() -> Seq<char> {
    "--server"@
}

/// Path of the runtime binary, relative to the resource directory.
pub open spec fn node_binary_spec(platform: Platform) -> Seq<char> {
    match platform {
        Platform::Windows => "bin/node.exe"@,
        Platform::Unix => "bin/node"@,
    }
}

pub fn node_binary_path(platform: Platform) -> (r: &'static str)
    ensures
        r@ == node_binary_spec(platform),
{
    match platform {
        Platform::Windows => "bin/node.exe",
        Platform::Unix => "bin/node",
    }
}

/// Path of the server's entry script, relative to the resource directory.
pub fn entry_script_path() -> (r: &'static str)
    ensures
        r@ == "app/index.js"@,
{
    "app/index.js"
}

/// Path of the splash page, relative to the resource directory.
pub fn splash_page_path() -> (r: &'static str)
    ensures
        r@ == "splash.html"@,
{
    "splash.html"
}

/// Loopback address of the bundled server; the main window loads it.
pub fn server_url() -> (r: &'static str)
    ensures
        r@ == "http://127.0.0.1:9897"@,
{
    "http://127.0.0.1:9897"
}

/// The endpoint that reports whether the server is ready.
pub fn health_url() -> (r: &'static str)
    ensures
        r@ == "http://127.0.0.1:9897/api/health"@,
{
    "http://127.0.0.1:9897/api/health"
}

/// Server-only mode is chosen exactly when one argument is the switch.
pub open spec fn mode_of_args(args: Seq<Seq<char>>) -> Mode {
    if exists|i: int| 0 <= i < args.len() && args[i] == server_only_switch() {
        Mode::ServerOnly
    } else {
        Mode::Windowed
    }
}

/// Reads the mode from the command-line arguments.
pub fn mode_from_args(args: &Vec<String>) -> (r: Mode)
    ensures
        r == mode_of_args(args@.map_values(|a: String| a@)),
{
    let ghost views = args@.map_values(|a: String| a@);
    let switch = "--server".to_owned();
    let mut i: usize = 0;
    while i < args.len()
        invariant
            i <= args@.len(),
            views == args@.map_values(|a: String| a@),
            switch@ == server_only_switch(),
            forall|j: int| 0 <= j < i ==> views[j] != server_only_switch(),
        decreases args@.len() - i,
    {
        if args[i] == switch {
            assert(views[i as int] == server_only_switch());
            return Mode::ServerOnly;
        }
        i = i + 1;
    }
    Mode::Windowed
}

/// The environment the server is started with, as (name, value) pairs: a
/// production build, the mode flag, and no colour codes in its output.
pub open spec fn child_env_spec(mode: Mode) -> Seq<(Seq<char>, Seq<char>)> {
    seq![
        ("NODE_ENV"@, "production"@),
        ("SERVER_ONLY"@, if mode == Mode::ServerOnly { "true"@ } else { "false"@ }),
        ("FORCE_COLOR"@, "0"@),
    ]
}

/// Views of a list of (name, value) string pairs.
pub open spec fn pairs_view(v: Seq<(String, String)>) -> Seq<(Seq<char>, Seq<char>)> {
    v.map_values(|p: (String, String)| (p.0@, p.1@))
}

/// Builds the server's environment for the given mode.
pub fn child_env(mode: Mode) -> (r: Vec<(String, String)>)
    ensures
        r@.len() == 3,
        forall|i: int| 0 <= i < 3 ==> (#[trigger] r@[i].0@, r@[i].1@) == child_env_spec(mode)[i],
        pairs_view(r@) == child_env_spec(mode),
{
    let mut r: Vec<(String, String)> = Vec::new();
    r.push(("NODE_ENV".to_owned(), "production".to_owned()));
    let flag = match mode {
        Mode::ServerOnly => "true".to_owned(),
        Mode::Windowed => "false".to_owned(),
    };
    r.push(("SERVER_ONLY".to_owned(), flag));
    r.push(("FORCE_COLOR".to_owned(), "0".to_owned()));
    assert(pairs_view(r@) =~= child_env_spec(mode));
    r
}

/// Which of the packaged files were found in the resource directory.
#[derive(Clone, Copy, Debug, PartialEq, Eq, Structural)]
pub struct ResourceCheck {
    pub binary_present: bool,
    pub entry_present: bool,
    pub splash_present: bool,
}

/// A packaging defect: a file the build should have shipped is absent.
#[derive(Clone, Copy, Debug, PartialEq, Eq, Structural)]
pub enum PackagingError {
    MissingSplashPage,
    MissingBinary,
    MissingEntryScript,
}

impl PackagingError {
    /// The missing file, relative to the resource directory.
    pub open spec fn missing_spec(self, platform: Platform) -> Seq<char> {
        match self {
            PackagingError::MissingSplashPage => "splash.html"@,
            PackagingError::MissingBinary => node_binary_spec(platform),
            PackagingError::MissingEntryScript => "app/index.js"@,
        }
    }

    pub fn missing_file(&self, platform: Platform) -> (r: &'static str)
        ensures
            r@ == self.missing_spec(platform),
    {
        match self {
            PackagingError::MissingSplashPage => splash_page_path(),
            PackagingError::MissingBinary => node_binary_path(platform),
            PackagingError::MissingEntryScript => entry_script_path(),
        }
    }

    /// What the missing file is for, in words.
    pub fn describe(&self) -> (r: &'static str)
        ensures
            r@ == match self {
                PackagingError::MissingSplashPage => "splash page not found"@,
                PackagingError::MissingBinary => "runtime binary not found"@,
                PackagingError::MissingEntryScript => "server entry script not found"@,
            },
    {
        match self {
            PackagingError::MissingSplashPage => "splash page not found",
            PackagingError::MissingBinary => "runtime binary not found",
            PackagingError::MissingEntryScript => "server entry script not found",
        }
    }
}

/// Every packaged file is present: the binary, the entry script and the
/// splash page. A build that lacks one is broken whatever the mode.
pub open spec fn files_complete(files: ResourceCheck) -> bool {
    files.binary_present && files.entry_present && files.splash_present
}

/// The first defect found, in startup order: the splash page is looked for
/// first, as windowed startup opens it before the server is launched, then
/// the binary, then the entry script.
pub open spec fn first_defect(files: ResourceCheck) -> PackagingError {
    if !files.splash_present {
        PackagingError::MissingSplashPage
    } else if !files.binary_present {
        PackagingError::MissingBinary
    } else {
        PackagingError::MissingEntryScript
    }
}

/// What startup will do once the packaged files are known to be there.
#[derive(Clone, Copy, Debug, PartialEq, Eq, Structural)]
pub struct StartupPlan {
    mode: Mode,
}

impl StartupPlan {
    /// The mode the plan was made for.
    pub closed spec fn mode_spec(self) -> Mode {
        self.mode
    }

    pub fn mode(&self) -> (r: Mode)
        ensures
            r == self.mode_spec(),
    {
        self.mode
    }

    pub open spec fn shows_windows_spec(self) -> bool {
        self.mode_spec() == Mode::Windowed
    }

    /// Whether the splash window is opened and readiness is polled, which is
    /// the only way the main window is ever opened.
    pub fn shows_windows(&self) -> (r: bool)
        ensures
            r == self.shows_windows_spec(),
    {
        match self.mode {
            Mode::Windowed => true,
            Mode::ServerOnly => false,
        }
    }

    /// The environment the server is started with.
    pub fn server_env(&self) -> (r: Vec<(String, String)>)
        ensures
            r@.len() == 3,
            forall|i: int| 0 <= i < 3 ==> (#[trigger] r@[i].0@, r@[i].1@) == child_env_spec(self.mode_spec())[i],
            pairs_view(r@) == child_env_spec(self.mode_spec()),
    {
        child_env(self.mode)
    }
}

/// The plan for a mode whose files are all present.
pub closed spec fn plan_for(mode: Mode) -> StartupPlan {
    StartupPlan { mode }
}

/// The outcome of the startup check.
pub open spec fn plan_spec(mode: Mode, files: ResourceCheck) -> Result<StartupPlan, PackagingError> {
    if files_complete(files) {
        Ok(plan_for(mode))
    } else {
        Err(first_defect(files))
    }
}

/// Decides whether startup may go on. The server may be spawned only from
/// the plan this returns, so a missing file means no server is started.
pub fn plan_startup(mode: Mode, files: ResourceCheck) -> (r: Result<StartupPlan, PackagingError>)
    ensures
        r == plan_spec(mode, files),
        r is Ok <==> files_complete(files),
        r is Ok ==> r->Ok_0.mode_spec() == mode,
        r is Err ==> r->Err_0 == first_defect(files),
        mode == Mode::ServerOnly && r is Ok ==> !r->Ok_0.shows_windows_spec(),
{
    if !files.splash_present {
        Err(PackagingError::MissingSplashPage)
    } else if !files.binary_present {
        Err(PackagingError::MissingBinary)
    } else if !files.entry_present {
        Err(PackagingError::MissingEntryScript)
    } else {
        Ok(StartupPlan { mode })
    }
}

/// A resource directory that lacks any packaged file, be it the binary, the
/// entry script or the splash page, stops startup with that defect in either
/// mode, so no server is launched.
pub proof fn lemma_missing_file_stops_startup(mode: Mode, files: ResourceCheck)
    requires
        !files_complete(files),
    ensures
        plan_spec(mode, files) == Err::<StartupPlan, PackagingError>(first_defect(files)),
        plan_spec(mode, files) is Err,
{
}

/// In server-only mode no window is shown, and the server still gets the
/// full environment, with its mode flag set to "true".
pub proof fn lemma_server_only_plan(files: ResourceCheck)
    requires
        files.binary_present,
        files.entry_present,
        files.splash_present,
    ensures
        plan_spec(Mode::ServerOnly, files) is Ok,
        !plan_spec(Mode::ServerOnly, files)->Ok_0.shows_windows_spec(),
        child_env_spec(plan_spec(Mode::ServerOnly, files)->Ok_0.mode_spec()) == seq![
            ("NODE_ENV"@, "production"@),
            ("SERVER_ONLY"@, "true"@),
            ("FORCE_COLOR"@, "0"@),
        ],
{
}

} // verus!

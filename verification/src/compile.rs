//! The compiler invocation, and what its outcome means.
use vstd::prelude::*;
use crate::error::{LaunchError, LaunchErrorView};

verus! {

/// The family of operating system the tool runs on. It decides how the
/// shared library is named, and nothing else.
#[derive(Clone, Copy, Debug, PartialEq, Eq, Structural)]
pub enum Platform {
    Windows,
    MacOs,
    /// Every other system; shared libraries are named as on Linux.
    Other,
}

/// The file the compiler writes the shared library to. It depends on the
/// platform alone, never on what is compiled.
pub open spec fn artifact_name_spec(platform: Platform) -> Seq<char> {
    match platform {
        Platform::Windows => "example.dll"@,
        Platform::MacOs => "libexample.dylib"@,
        Platform::Other => "libexample.so"@,
    }
}

/// Names the file the compiler writes the shared library to.
pub fn artifact_name(platform: Platform) -> (r: &'static str)
    ensures
        r@ == artifact_name_spec(platform),
{
    match platform {
        Platform::Windows => "example.dll",
        Platform::MacOs => "libexample.dylib",
        Platform::Other => "libexample.so",
    }
}

/// Directories to search for headers and libraries to link, beyond what
/// every invocation passes.
#[derive(Clone, Debug, PartialEq, Eq)]
pub struct CompilerFlags {
    pub extra_include_dirs: Vec<String>,
    pub extra_link_libs: Vec<String>,
}

/// The mathematical content of [`CompilerFlags`].
pub ghost struct CompilerFlagsView {
    pub extra_include_dirs: Seq<Seq<char>>,
    pub extra_link_libs: Seq<Seq<char>>,
}

impl View for CompilerFlags {
    type V = CompilerFlagsView;

    open spec fn view(&self) -> CompilerFlagsView {
        CompilerFlagsView {
            extra_include_dirs: self.extra_include_dirs.deep_view(),
            extra_link_libs: self.extra_link_libs.deep_view(),
        }
    }
}

/// The flags for building against the core module of Qt 5. Mind the
/// spelling of the second directory: it is passed exactly so.
pub open spec fn qt5_core_flags() -> CompilerFlagsView {
    CompilerFlagsView {
        extra_include_dirs: seq!["/usr/include/qt5"@, "/usr/invlude/qt5/QtCore"@],
        extra_link_libs: seq!["Qt5Core"@],
    }
}

impl CompilerFlags {
    /// The flags the tool passes when it is not told otherwise.
    pub fn qt5_core() -> (r: CompilerFlags)
        ensures
            r@ == qt5_core_flags(),
    {
        let mut dirs: Vec<String> = Vec::new();
        dirs.push(String::from_str("/usr/include/qt5"));
        dirs.push(String::from_str("/usr/invlude/qt5/QtCore"));
        let mut libs: Vec<String> = Vec::new();
        libs.push(String::from_str("Qt5Core"));
        let r = CompilerFlags { extra_include_dirs: dirs, extra_link_libs: libs };
        assert(r@.extra_include_dirs =~= qt5_core_flags().extra_include_dirs);
        assert(r@.extra_link_libs =~= qt5_core_flags().extra_link_libs);
        r
    }
}

/// One `-I` argument followed by the directory, for each directory in turn.
pub open spec fn include_args(dirs: Seq<Seq<char>>) -> Seq<Seq<char>> {
    Seq::new(
        2 * dirs.len(),
        |i: int|
            if i % 2 == 0 {
                "-I"@
            } else {
                dirs[i / 2]
            },
    )
}

/// One argument for each library in turn: `-l` joined to its name.
pub open spec fn link_args(libs: Seq<Seq<char>>) -> Seq<Seq<char>> {
    Seq::new(libs.len(), |i: int| "-l"@ + libs[i])
}

/// The arguments handed to the compiler: position-independent code, shared
/// output, the output file, the source file, then the extra flags.
pub open spec fn compiler_args_spec(
    platform: Platform,
    source: Seq<char>,
    flags: CompilerFlagsView,
) -> Seq<Seq<char>> {
    seq!["-fPIC"@, "-shared"@, "-o"@, artifact_name_spec(platform), source] + include_args(
        flags.extra_include_dirs,
    ) + link_args(flags.extra_link_libs)
}

/// A program to run and the arguments to run it with.
#[derive(Clone, Debug, PartialEq, Eq)]
pub struct CompilerCommand {
    pub program: String,
    pub args: Vec<String>,
}

/// The mathematical content of a [`CompilerCommand`].
pub ghost struct CompilerCommandView {
    pub program: Seq<char>,
    pub args: Seq<Seq<char>>,
}

impl View for CompilerCommand {
    type V = CompilerCommandView;

    open spec fn view(&self) -> CompilerCommandView {
        CompilerCommandView { program: self.program@, args: self.args.deep_view() }
    }
}

/// The invocation that compiles `source` with the given extra flags.
pub open spec fn compiler_command_spec(
    platform: Platform,
    source: Seq<char>,
    flags: CompilerFlagsView,
) -> CompilerCommandView {
    CompilerCommandView { program: "g++"@, args: compiler_args_spec(platform, source, flags) }
}

/// With the Qt 5 flags the invocation has exactly these ten arguments.
pub proof fn lemma_qt5_core_args(platform: Platform, source: Seq<char>)
    ensures
        compiler_args_spec(platform, source, qt5_core_flags()) == seq![
            "-fPIC"@,
            "-shared"@,
            "-o"@,
            artifact_name_spec(platform),
            source,
            "-I"@,
            "/usr/include/qt5"@,
            "-I"@,
            "/usr/invlude/qt5/QtCore"@,
            "-lQt5Core"@,
        ],
{
    reveal_strlit("-l");
    reveal_strlit("Qt5Core");
    reveal_strlit("-lQt5Core");
    assert("-l"@ + "Qt5Core"@ =~= "-lQt5Core"@);
    let flags = qt5_core_flags();
    let includes = include_args(flags.extra_include_dirs);
    assert(includes =~= seq!["-I"@, "/usr/include/qt5"@, "-I"@, "/usr/invlude/qt5/QtCore"@]);
    assert(link_args(flags.extra_link_libs) =~= seq!["-lQt5Core"@]);
    assert(compiler_args_spec(platform, source, flags) =~= seq![
        "-fPIC"@,
        "-shared"@,
        "-o"@,
        artifact_name_spec(platform),
        source,
        "-I"@,
        "/usr/include/qt5"@,
        "-I"@,
        "/usr/invlude/qt5/QtCore"@,
        "-lQt5Core"@,
    ]);
}

/// Builds the invocation that compiles `source` into the platform's shared
/// library, searching `flags.extra_include_dirs` for headers and linking
/// `flags.extra_link_libs`.
pub fn compiler_command_with(platform: Platform, source: &str, flags: &CompilerFlags) -> (r:
    CompilerCommand)
    ensures
        r@ == compiler_command_spec(platform, source@, flags@),
{
    let ghost head = seq!["-fPIC"@, "-shared"@, "-o"@, artifact_name_spec(platform), source@];
    let ghost dirs = flags.extra_include_dirs.deep_view();
    let ghost libs = flags.extra_link_libs.deep_view();
    let mut args: Vec<String> = Vec::new();
    args.push(String::from_str("-fPIC"));
    args.push(String::from_str("-shared"));
    args.push(String::from_str("-o"));
    args.push(String::from_str(artifact_name(platform)));
    args.push(String::from_str(source));
    assert(args.deep_view() =~= head);
    let n: usize = flags.extra_include_dirs.len();
    let mut i: usize = 0;
    while i < n
        invariant
            n == flags.extra_include_dirs@.len(),
            dirs == flags.extra_include_dirs.deep_view(),
            i <= n,
            args.deep_view() == head + include_args(dirs.take(i as int)),
        decreases n - i,
    {
        let ghost before = args.deep_view();
        args.push(String::from_str("-I"));
        args.push(flags.extra_include_dirs[i].clone());
        assert(args.deep_view() =~= before + seq!["-I"@, dirs[i as int]]);
        assert(include_args(dirs.take(i + 1)) =~= include_args(dirs.take(i as int)) + seq![
            "-I"@,
            dirs[i as int],
        ]);
        i += 1;
    }
    assert(dirs.take(n as int) =~= dirs);
    let ghost middle = head + include_args(dirs);
    let m: usize = flags.extra_link_libs.len();
    let mut k: usize = 0;
    while k < m
        invariant
            m == flags.extra_link_libs@.len(),
            libs == flags.extra_link_libs.deep_view(),
            k <= m,
            args.deep_view() == middle + link_args(libs.take(k as int)),
        decreases m - k,
    {
        let ghost before = args.deep_view();
        let mut arg = String::from_str("-l");
        arg.append(flags.extra_link_libs[k].as_str());
        args.push(arg);
        assert(args.deep_view() =~= before + seq!["-l"@ + libs[k as int]]);
        assert(link_args(libs.take(k + 1)) =~= link_args(libs.take(k as int)) + seq![
            "-l"@ + libs[k as int],
        ]);
        k += 1;
    }
    assert(libs.take(m as int) =~= libs);
    CompilerCommand { program: String::from_str("g++"), args }
}

/// Builds the invocation the tool uses: `source` compiled against the core
/// module of Qt 5.
pub fn compiler_command(platform: Platform, source: &str) -> (r: CompilerCommand)
    ensures
        r@ == compiler_command_spec(platform, source@, qt5_core_flags()),
        r@.program == "g++"@,
        r@.args == seq![
            "-fPIC"@,
            "-shared"@,
            "-o"@,
            artifact_name_spec(platform),
            source@,
            "-I"@,
            "/usr/include/qt5"@,
            "-I"@,
            "/usr/invlude/qt5/QtCore"@,
            "-lQt5Core"@,
        ],
{
    proof {
        lemma_qt5_core_args(platform, source@);
    }
    let flags = CompilerFlags::qt5_core();
    compiler_command_with(platform, source, &flags)
}

/// What became of the attempt to run the compiler.
#[derive(Clone, Debug, PartialEq, Eq)]
pub enum CompilerOutcome {
    /// The compiler could not be started; `reason` is what the system said.
    NotStarted { reason: String },
    /// The compiler ran to its end; `success` tells whether it reported so.
    Exited { success: bool },
}

/// The mathematical content of a [`CompilerOutcome`].
pub ghost enum CompilerOutcomeView {
    NotStarted { reason: Seq<char> },
    Exited { success: bool },
}

impl View for CompilerOutcome {
    type V = CompilerOutcomeView;

    open spec fn view(&self) -> CompilerOutcomeView {
        match self {
            CompilerOutcome::NotStarted { reason } => CompilerOutcomeView::NotStarted {
                reason: reason@,
            },
            CompilerOutcome::Exited { success } => CompilerOutcomeView::Exited {
                success: *success,
            },
        }
    }
}

/// The path of the shared library when the compiler succeeded, else the
/// compile error: with the system's reason when the compiler never ran,
/// without one when it ran and failed.
pub open spec fn compile_result_spec(platform: Platform, outcome: CompilerOutcomeView) -> Result<
    Seq<char>,
    LaunchErrorView,
> {
    match outcome {
        CompilerOutcomeView::Exited { success: true } => Ok(artifact_name_spec(platform)),
        CompilerOutcomeView::Exited { success: false } => Err(
            LaunchErrorView::Compile { cause: None },
        ),
        CompilerOutcomeView::NotStarted { reason } => Err(
            LaunchErrorView::Compile { cause: Some(reason) },
        ),
    }
}

/// Decides what the compiler's outcome means for the launch.
///
/// Only a compiler that ran and reported success yields a library to load.
pub fn compile_result(platform: Platform, outcome: CompilerOutcome) -> (r: Result<
    String,
    LaunchError,
>)
    ensures
        r is Ok <==> outcome@ == (CompilerOutcomeView::Exited { success: true }),
        match r {
            Ok(path) => Ok(path@),
            Err(e) => Err(e@),
        } == compile_result_spec(platform, outcome@),
{
    match outcome {
        CompilerOutcome::Exited { success } => {
            if success {
                Ok(String::from_str(artifact_name(platform)))
            } else {
                Err(LaunchError::Compile { cause: None })
            }
        },
        CompilerOutcome::NotStarted { reason } => Err(
            LaunchError::Compile { cause: Some(reason) },
        ),
    }
}

} // verus!

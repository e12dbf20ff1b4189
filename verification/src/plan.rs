//! From the command line to the plan of a launch.
use vstd::prelude::*;
use vstd::utf8::encode_utf8;
use crate::compile::{
    artifact_name, artifact_name_spec, compile_result_spec, compiler_command,
    compiler_command_spec, lemma_qt5_core_args, qt5_core_flags, CompilerCommand,
    CompilerCommandView, CompilerOutcomeView, Platform,
};
use crate::error::{LaunchError, LaunchErrorView};
use crate::symbol::{encode_symbol_name, encode_symbol_spec, has_nul};

verus! {

/// What the user asked for: a source file and a function in it.
#[derive(Clone, Debug, PartialEq, Eq)]
pub struct Request {
    pub source: String,
    pub function: String,
}

/// The mathematical content of a [`Request`].
pub ghost struct RequestView {
    pub source: Seq<char>,
    pub function: Seq<char>,
}

impl View for Request {
    type V = RequestView;

    open spec fn view(&self) -> RequestView {
        RequestView { source: self.source@, function: self.function@ }
    }
}

/// The name the tool was started under: the first argument, or nothing
/// where the command line is empty.
pub open spec fn program_name(args: Seq<Seq<char>>) -> Seq<char> {
    if args.len() > 0 {
        args[0]
    } else {
        Seq::empty()
    }
}

/// A command line is a request exactly when it holds the program's name
/// and two more arguments: the source file, then the function name.
pub open spec fn parse_args_spec(args: Seq<Seq<char>>) -> Result<RequestView, LaunchErrorView> {
    if args.len() == 3 {
        Ok(RequestView { source: args[1], function: args[2] })
    } else {
        Err(LaunchErrorView::Usage { program: program_name(args) })
    }
}

/// Reads the request off the command line, the program's name included.
pub fn parse_args(args: &[String]) -> (r: Result<Request, LaunchError>)
    ensures
        r is Ok <==> args@.len() == 3,
        match r {
            Ok(request) => Ok(request@),
            Err(e) => Err(e@),
        } == parse_args_spec(args.deep_view()),
{
    if args.len() == 3 {
        Ok(Request { source: args[1].clone(), function: args[2].clone() })
    } else if args.len() > 0 {
        Err(LaunchError::Usage { program: args[0].clone() })
    } else {
        Err(LaunchError::Usage { program: String::new() })
    }
}

/// Everything that is settled before the first outside step is taken.
#[derive(Clone, Debug, PartialEq, Eq)]
pub struct LaunchPlan {
    pub request: Request,
    /// The invocation that builds the shared library.
    pub command: CompilerCommand,
    /// The file that invocation writes, which is then loaded.
    pub artifact: String,
    /// The function name as the loader takes it: zero-terminated.
    pub symbol: Vec<u8>,
}

/// The mathematical content of a [`LaunchPlan`].
pub ghost struct LaunchPlanView {
    pub request: RequestView,
    pub command: CompilerCommandView,
    pub artifact: Seq<char>,
    pub symbol: Seq<u8>,
}

impl View for LaunchPlan {
    type V = LaunchPlanView;

    open spec fn view(&self) -> LaunchPlanView {
        LaunchPlanView {
            request: self.request@,
            command: self.command@,
            artifact: self.artifact@,
            symbol: self.symbol@,
        }
    }
}

/// The plan for a command line, or the error that stops the launch before
/// anything is compiled: a usage error first, an encoding error second.
pub open spec fn prepare_spec(args: Seq<Seq<char>>, platform: Platform) -> Result<
    LaunchPlanView,
    LaunchErrorView,
> {
    match parse_args_spec(args) {
        Err(e) => Err(e),
        Ok(request) => match encode_symbol_spec(encode_utf8(request.function)) {
            Err(e) => Err(e),
            Ok(symbol) => Ok(
                LaunchPlanView {
                    request,
                    command: compiler_command_spec(platform, request.source, qt5_core_flags()),
                    artifact: artifact_name_spec(platform),
                    symbol,
                },
            ),
        },
    }
}

/// Validates the command line and plans the launch.
///
/// A plan exists exactly when the command line holds two arguments beyond
/// the program's name and the function name is free of zero bytes. In every
/// other case the result is an error and holds no compiler invocation:
/// nothing is compiled.
pub fn prepare(args: &[String], platform: Platform) -> (r: Result<LaunchPlan, LaunchError>)
    ensures
        match r {
            Ok(plan) => Ok(plan@),
            Err(e) => Err(e@),
        } == prepare_spec(args.deep_view(), platform),
        r is Ok <==> args@.len() == 3 && !has_nul(encode_utf8(args@[2]@)),
        args@.len() != 3 ==> (r matches Err(e) && e@ is Usage),
        args@.len() == 3 && has_nul(encode_utf8(args@[2]@)) ==> (r matches Err(e) && e@
            is Encoding),
{
    let request = match parse_args(args) {
        Ok(request) => request,
        Err(e) => {
            return Err(e);
        },
    };
    let symbol = match encode_symbol_name(request.function.as_str()) {
        Ok(symbol) => symbol,
        Err(e) => {
            return Err(e);
        },
    };
    let command = compiler_command(platform, request.source.as_str());
    let artifact = String::from_str(artifact_name(platform));
    Ok(LaunchPlan { request, command, artifact, symbol })
}

/// The shared library is always written to the same file on one platform,
/// whatever is compiled: any two plans name the same artifact, each passes
/// it to the compiler as the output file, and a successful compilation
/// hands back that very path. A repeated launch therefore overwrites the
/// artifact of the one before.
pub proof fn lemma_artifact_is_fixed(
    first: Seq<Seq<char>>,
    second: Seq<Seq<char>>,
    platform: Platform,
)
    requires
        prepare_spec(first, platform) is Ok,
        prepare_spec(second, platform) is Ok,
    ensures
        ({
            let a = prepare_spec(first, platform)->Ok_0;
            let b = prepare_spec(second, platform)->Ok_0;
            &&& a.artifact == b.artifact
            &&& a.command.args[2] == "-o"@
            &&& a.command.args[3] == a.artifact
            &&& b.command.args[2] == "-o"@
            &&& b.command.args[3] == b.artifact
            &&& compile_result_spec(platform, CompilerOutcomeView::Exited { success: true })
                == Ok::<Seq<char>, LaunchErrorView>(a.artifact)
        }),
{
    let a = prepare_spec(first, platform)->Ok_0;
    let b = prepare_spec(second, platform)->Ok_0;
    lemma_qt5_core_args(platform, a.request.source);
    lemma_qt5_core_args(platform, b.request.source);
}

} // verus!

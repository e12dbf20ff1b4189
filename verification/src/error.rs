//! The ways a launch can fail, and the line printed for each.
use vstd::prelude::*;
use crate::text::{decimal, decimal_spec};

verus! {

/// A fatal failure of the tool. Each is reported once, as a single line.
#[derive(Clone, Debug, PartialEq, Eq)]
pub enum LaunchError {
    /// The command line did not hold exactly a source file and a function
    /// name. `program` is the name the tool was started under, empty when
    /// the command line did not even hold that.
    Usage { program: String },
    /// The function name holds a zero byte, so it cannot be handed to the
    /// loader as a C string. `position` is the index of the first such byte.
    Encoding { position: usize },
    /// The compiler could not be started (`cause` holds the reason the
    /// system gave) or it ran and reported failure (`cause` is `None`).
    Compile { cause: Option<String> },
    /// The shared library could not be loaded.
    Load { diagnostic: String },
    /// The shared library holds no symbol of the requested name.
    SymbolNotFound { diagnostic: String },
}

/// The mathematical content of a [`LaunchError`].
pub ghost enum LaunchErrorView {
    Usage { program: Seq<char> },
    Encoding { position: nat },
    Compile { cause: Option<Seq<char>> },
    Load { diagnostic: Seq<char> },
    SymbolNotFound { diagnostic: Seq<char> },
}

impl View for LaunchError {
    type V = LaunchErrorView;

    open spec fn view(&self) -> LaunchErrorView {
        match self {
            LaunchError::Usage { program } => LaunchErrorView::Usage { program: program@ },
            LaunchError::Encoding { position } => LaunchErrorView::Encoding {
                position: *position as nat,
            },
            LaunchError::Compile { cause } => LaunchErrorView::Compile {
                cause: match cause {
                    Some(reason) => Some(reason@),
                    None => None,
                },
            },
            LaunchError::Load { diagnostic } => LaunchErrorView::Load { diagnostic: diagnostic@ },
            LaunchError::SymbolNotFound { diagnostic } => LaunchErrorView::SymbolNotFound {
                diagnostic: diagnostic@,
            },
        }
    }
}

impl LaunchErrorView {
    /// The line that reports this failure.
    pub open spec fn message(self) -> Seq<char> {
        match self {
            LaunchErrorView::Usage { program } => "Usage: "@ + program
                + " <cpp_file> <function_name>"@,
            LaunchErrorView::Encoding { position } => "failed to convert function name to CString: "@
                + "nul byte found in provided data at position: "@ + decimal_spec(position),
            LaunchErrorView::Compile { cause: Some(reason) } => "failed to compile cpp file: "@
                + reason,
            LaunchErrorView::Compile { cause: None } => "failed to compile cpp file"@,
            LaunchErrorView::Load { diagnostic } => "failed to load shared library: "@
                + diagnostic,
            LaunchErrorView::SymbolNotFound { diagnostic } =>
                "failed to find function in shared library: "@ + diagnostic,
        }
    }
}

impl LaunchError {
    /// Renders the line that reports this failure.
    pub fn message(&self) -> (r: String)
        ensures
            r@ == self@.message(),
    {
        match self {
            LaunchError::Usage { program } => {
                let mut r = String::from_str("Usage: ");
                r.append(program.as_str());
                r.append(" <cpp_file> <function_name>");
                r
            },
            LaunchError::Encoding { position } => {
                let mut r = String::from_str("failed to convert function name to CString: ");
                r.append("nul byte found in provided data at position: ");
                let digits = decimal(*position);
                r.append(digits.as_str());
                r
            },
            LaunchError::Compile { cause: Some(reason) } => {
                let mut r = String::from_str("failed to compile cpp file: ");
                r.append(reason.as_str());
                r
            },
            LaunchError::Compile { cause: None } => String::from_str("failed to compile cpp file"),
            LaunchError::Load { diagnostic } => {
                let mut r = String::from_str("failed to load shared library: ");
                r.append(diagnostic.as_str());
                r
            },
            LaunchError::SymbolNotFound { diagnostic } => {
                let mut r = String::from_str("failed to find function in shared library: ");
                r.append(diagnostic.as_str());
                r
            },
        }
    }
}

} // verus!

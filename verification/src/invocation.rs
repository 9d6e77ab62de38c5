use vstd::prelude::*;

verus! {

/// A not-yet-executed external process call: a program name and its
/// ordered argument list. It is consumed by the caller, which launches
/// the process.
#[derive(Debug, PartialEq, Eq)]
pub struct Invocation {
    pub program: String,
    pub args: Vec<String>,
}

impl Invocation {
    /// The argument list as a sequence of character sequences.
    pub open spec fn args_view(&self) -> Seq<Seq<char>> {
        Seq::new(self.args@.len(), |i: int| self.args@[i]@)
    }
}

/// Why a builder could not produce an invocation.
#[derive(Clone, Copy, Debug, PartialEq, Eq, Structural)]
pub enum BuildError {
    /// A required identifier (contest id or problem id) was absent.
    MissingArgument,
    /// The compile override was set but holds no tokens.
    InvalidConfiguration,
}

} // verus!

use vstd::prelude::*;

use crate::error::HarnessError;

verus! {

/// The program to benchmark and the arguments it is started with. Each
/// argument is handed to the program as one token, exactly as given: no
/// shell ever reads them.
#[derive(Debug)]
pub struct RunSpec {
    path: String,
    args: Vec<String>,
}

impl RunSpec {
    /// The program's path.
    pub closed spec fn path_view(&self) -> Seq<char> {
        self.path@
    }

    /// The argument tokens, in order.
    pub closed spec fn args_view(&self) -> Seq<Seq<char>> {
        self.args@.map_values(|a: String| a@)
    }

    /// The program's path.
    pub fn path(&self) -> (p: &String)
        ensures
            p@ == self.path_view(),
    {
        &self.path
    }

    /// The argument tokens, in order.
    pub fn args(&self) -> (a: &Vec<String>)
        ensures
            a@.map_values(|t: String| t@) == self.args_view(),
    {
        &self.args
    }
}

/// Builds the run specification from a command line: the first token names
/// this tool, the second the program to benchmark, and every later token is
/// an argument for that program, kept verbatim. A command line that names
/// no program, or names it by an empty path, is a usage error.
pub fn validate_args(args: &Vec<String>) -> (r: Result<RunSpec, HarnessError>)
    ensures
        r is Ok <==> args.len() >= 2 && args[1]@.len() > 0,
        r is Err ==> r->Err_0 == HarnessError::UsageError,
        r is Ok ==> r->Ok_0.path_view() == args[1]@,
        r is Ok ==> r->Ok_0.args_view() == args@.subrange(2, args.len() as int).map_values(
            |a: String| a@,
        ),
{
    if args.len() < 2 || args[1].as_str().is_empty() {
        return Err(HarnessError::UsageError);
    }
    let path = args[1].clone();
    let mut rest: Vec<String> = Vec::new();
    let mut i: usize = 2;
    while i < args.len()
        invariant
            2 <= i <= args.len(),
            rest@.len() == i - 2,
            forall|k: int| 0 <= k < rest@.len() ==> #[trigger] rest@[k]@ == args@[k + 2]@,
        decreases args.len() - i,
    {
        rest.push(args[i].clone());
        i = i + 1;
    }
    let spec = RunSpec { path, args: rest };
    assert(spec.args_view() =~= args@.subrange(2, args.len() as int).map_values(|a: String| a@));
    Ok(spec)
}

} // verus!

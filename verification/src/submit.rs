use crate::config::Config;
use crate::invocation::BuildError;
use crate::invocation::Invocation;
use crate::text::opt_chars;
use crate::text::resolve_file_name;
use crate::text::resolved_file_name_chars;
use crate::text::task_url;
use crate::text::task_url_chars;
use vstd::prelude::*;

verus! {

/// Whether `inv` submits the file to the judge:
/// `oj s {task url} {file}`.
pub open spec fn is_submit_invocation(
    inv: Invocation,
    contest: Seq<char>,
    problem: Seq<char>,
    file: Seq<char>,
) -> bool {
    inv.program@ == "oj"@ && inv.args_view() == seq![
        "s"@,
        task_url_chars(contest, problem),
        file,
    ]
}

/// Builds the submission invocation for a contest/problem pair. The
/// submitted file is the explicit one when given, else the default
/// `{contest}_{problem}.{extension}`.
pub fn make_submit_command(
    contest_name: Option<&String>,
    problem_name: Option<&String>,
    file_name: Option<&String>,
    config: &Config,
) -> (r: Result<Invocation, BuildError>)
    ensures
        (match (contest_name, problem_name) {
            (Some(c), Some(p)) => r matches Ok(inv) && is_submit_invocation(
                inv,
                c@,
                p@,
                resolved_file_name_chars(c@, p@, opt_chars(file_name), config.extension@),
            ),
            _ => r matches Err(e) && e == BuildError::MissingArgument,
        }),
{
    let (contest_name, problem_name) = match (contest_name, problem_name) {
        (Some(c), Some(p)) => (c, p),
        _ => {
            return Err(BuildError::MissingArgument);
        },
    };
    let url = task_url(contest_name.as_str(), problem_name.as_str());
    let file = resolve_file_name(contest_name.as_str(), problem_name.as_str(), file_name, config);
    let mut args: Vec<String> = Vec::new();
    args.push("s".to_owned());
    args.push(url);
    args.push(file);
    let inv = Invocation { program: "oj".to_owned(), args };
    proof {
        assert(inv.args_view() =~= seq![
            "s"@,
            task_url_chars(contest_name@, problem_name@),
            resolved_file_name_chars(
                contest_name@,
                problem_name@,
                opt_chars(file_name),
                config.extension@,
            ),
        ]);
    }
    Ok(inv)
}

/// Builds the invocation of a submit run; the caller executes it.
pub fn run_submit_command(
    contest_name: Option<&String>,
    problem_name: Option<&String>,
    file_name: Option<&String>,
    config: &Config,
) -> (r: Result<Invocation, BuildError>)
    ensures
        (match (contest_name, problem_name) {
            (Some(c), Some(p)) => r matches Ok(inv) && is_submit_invocation(
                inv,
                c@,
                p@,
                resolved_file_name_chars(c@, p@, opt_chars(file_name), config.extension@),
            ),
            _ => r matches Err(e) && e == BuildError::MissingArgument,
        }),
{
    make_submit_command(contest_name, problem_name, file_name, config)
}

} // verus!

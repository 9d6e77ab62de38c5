use crate::config::Config;
use crate::invocation::BuildError;
use crate::invocation::Invocation;
use crate::text::copy_dest_chars;
use crate::text::copy_destination;
use crate::text::is_problem_letter;
use crate::text::letter_char;
use crate::text::nth_letter;
use vstd::prelude::*;

verus! {

/// Whether `inv` creates the contest directory: `mkdir {contest}`.
pub open spec fn is_mkdir_invocation(inv: Invocation, contest: Seq<char>) -> bool {
    inv.program@ == "mkdir"@ && inv.args_view() == seq![contest]
}

/// Whether `inv` copies the template to one solution file:
/// `cp --no-clobber {template} ./{contest}/{contest}_{letter}.{extension}`.
/// The `--no-clobber` flag keeps a re-run from overwriting files that
/// already exist.
pub open spec fn is_copy_invocation(
    inv: Invocation,
    contest: Seq<char>,
    letter: char,
    config: Config,
) -> bool {
    inv.program@ == "cp"@ && inv.args_view() == seq![
        "--no-clobber"@,
        config.template_file@,
        copy_dest_chars(contest, letter, config.extension@),
    ]
}

/// How many solution files a scaffold run creates: the requested count,
/// or 8 when none was given.
pub open spec fn scaffold_count(problem_number: Option<&u8>) -> int {
    match problem_number {
        Some(n) => *n as int,
        None => 8,
    }
}

/// Builds the invocation that creates the contest directory.
pub fn make_contest_directory(contest_name: Option<&String>) -> (r: Result<
    Invocation,
    BuildError,
>)
    ensures
        (match contest_name {
            Some(c) => r matches Ok(inv) && is_mkdir_invocation(inv, c@),
            None => r matches Err(e) && e == BuildError::MissingArgument,
        }),
{
    let contest_name = match contest_name {
        Some(c) => c,
        None => {
            return Err(BuildError::MissingArgument);
        },
    };
    let mut args: Vec<String> = Vec::new();
    args.push(contest_name.clone());
    let inv = Invocation { program: "mkdir".to_owned(), args };
    proof {
        assert(inv.args_view() =~= seq![contest_name@]);
    }
    Ok(inv)
}

/// Builds the invocation that copies the template to the solution file
/// of one problem letter.
pub fn make_cp_command(contest_name: &String, problem: char, config: &Config) -> (r: Invocation)
    requires
        is_problem_letter(problem),
    ensures
        is_copy_invocation(r, contest_name@, problem, *config),
{
    let dest = copy_destination(contest_name.as_str(), problem, config.extension.as_str());
    let mut args: Vec<String> = Vec::new();
    args.push("--no-clobber".to_owned());
    args.push(config.template_file.clone());
    args.push(dest);
    let inv = Invocation { program: "cp".to_owned(), args };
    proof {
        assert(inv.args_view() =~= seq![
            "--no-clobber"@,
            config.template_file@,
            copy_dest_chars(contest_name@, problem, config.extension@),
        ]);
    }
    inv
}

/// Builds one copy invocation per problem letter, `a` through the
/// `count`-th letter; the count defaults to 8 when absent.
pub fn make_solution_files(
    contest_name: Option<&String>,
    problem_number: Option<&u8>,
    config: &Config,
) -> (r: Result<Vec<Invocation>, BuildError>)
    requires
        (match problem_number {
            Some(n) => 1 <= *n <= 26,
            None => true,
        }),
    ensures
        (match contest_name {
            Some(c) => r matches Ok(v) && v@.len() == scaffold_count(problem_number) && (forall|
                i: int,
            |
                0 <= i < v@.len() ==> is_copy_invocation(
                    #[trigger] v@[i],
                    c@,
                    letter_char(i),
                    *config,
                )),
            None => r matches Err(e) && e == BuildError::MissingArgument,
        }),
{
    let contest_name = match contest_name {
        Some(c) => c,
        None => {
            return Err(BuildError::MissingArgument);
        },
    };
    let count: u8 = match problem_number {
        Some(n) => *n,
        None => 8,
    };
    let mut v: Vec<Invocation> = Vec::new();
    let mut i: u8 = 0;
    while i < count
        invariant
            i <= count,
            count <= 26,
            count as int == scaffold_count(problem_number),
            v@.len() == i as int,
            forall|k: int|
                0 <= k < i as int ==> is_copy_invocation(
                    #[trigger] v@[k],
                    contest_name@,
                    letter_char(k),
                    *config,
                ),
        decreases count - i,
    {
        let letter = nth_letter(i);
        let inv = make_cp_command(contest_name, letter, config);
        v.push(inv);
        i = i + 1;
    }
    Ok(v)
}

/// Builds the whole scaffold for a contest: the directory invocation
/// first, then exactly one copy invocation per problem letter. Every
/// copy invocation carries `--no-clobber`, so a second run on the same
/// contest never overwrites existing files.
pub fn run_make_command(
    contest_name: Option<&String>,
    problem_number: Option<&u8>,
    config: &Config,
) -> (r: Result<Vec<Invocation>, BuildError>)
    requires
        (match problem_number {
            Some(n) => 1 <= *n <= 26,
            None => true,
        }),
    ensures
        (match contest_name {
            Some(c) => r matches Ok(v) && v@.len() == 1 + scaffold_count(problem_number)
                && is_mkdir_invocation(v@[0], c@) && (forall|i: int|
                1 <= i < v@.len() ==> is_copy_invocation(
                    #[trigger] v@[i],
                    c@,
                    letter_char(i - 1),
                    *config,
                )) && (forall|i: int|
                1 <= i < v@.len() ==> (#[trigger] v@[i]).args@.len() == 3 && v@[i].args@[0]@
                    == "--no-clobber"@),
            None => r matches Err(e) && e == BuildError::MissingArgument,
        }),
{
    let dir_inv = match make_contest_directory(contest_name) {
        Ok(inv) => inv,
        Err(e) => {
            return Err(e);
        },
    };
    let mut copies = match make_solution_files(contest_name, problem_number, config) {
        Ok(v) => v,
        Err(e) => {
            return Err(e);
        },
    };
    let mut v: Vec<Invocation> = Vec::new();
    v.push(dir_inv);
    v.append(&mut copies);
    proof {
        assert(forall|i: int|
            1 <= i < v@.len() ==> is_copy_invocation(
                #[trigger] v@[i],
                contest_name->Some_0@,
                letter_char(i - 1),
                *config,
            ));
        assert forall|i: int| 1 <= i < v@.len() implies (#[trigger] v@[i]).args@.len() == 3
            && v@[i].args@[0]@ == "--no-clobber"@ by {
            assert(v@[i].args_view().len() == 3);
            assert(v@[i].args_view()[0] == "--no-clobber"@);
        }
    }
    Ok(v)
}

} // verus!


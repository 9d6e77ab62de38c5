use raj::config::Config;
use raj::invocation::BuildError;
use raj::test::compile;
use raj::test::get_test_file_info;
use raj::test::make_compile_command;
use raj::test::make_download_command;
use raj::test::make_test_command;
use raj::test::run_oj_download;
use raj::test::run_oj_test;
use raj::test::run_test_command;

fn default_config() -> Config {
    Config::from_env(None, None, None)
}

#[test]
fn success_get_test_file_info() {
    let contest_name = String::from("abc150");
    let problem_name = String::from("a");
    let file_name = String::from("template.rs");
    let (contest_name, problem_name, file_name) = get_test_file_info(
        Some(&contest_name),
        Some(&problem_name),
        Some(&file_name),
        &default_config(),
    )
    .unwrap();
    assert_eq!(contest_name, String::from("abc150"));
    assert_eq!(problem_name, String::from("a"));
    assert_eq!(file_name, String::from("template.rs"));
}

#[test]
fn success_get_test_file_info_with_extension() {
    let contest_name = String::from("abc150");
    let problem_name = String::from("a");
    let config = Config::from_env(Some(String::from("cpp")), None, None);
    let (contest_name, problem_name, file_name) =
        get_test_file_info(Some(&contest_name), Some(&problem_name), None, &config).unwrap();
    assert_eq!(contest_name, String::from("abc150"));
    assert_eq!(problem_name, String::from("a"));
    assert_eq!(file_name, String::from("abc150_a.cpp"));
}

#[test]
fn success_get_test_file_info_default_extension() {
    let contest_name = String::from("abc150");
    let problem_name = String::from("a");
    let (contest_name, problem_name, file_name) =
        get_test_file_info(Some(&contest_name), Some(&problem_name), None, &default_config())
            .unwrap();
    assert_eq!(contest_name, String::from("abc150"));
    assert_eq!(problem_name, String::from("a"));
    assert_eq!(file_name, String::from("abc150_a.rs"));
}

#[test]
fn get_test_file_info_requires_both_identifiers() {
    let contest_name = String::from("abc150");
    assert_eq!(
        get_test_file_info(None, None, None, &default_config()),
        Err(BuildError::MissingArgument)
    );
    assert_eq!(
        get_test_file_info(Some(&contest_name), None, None, &default_config()),
        Err(BuildError::MissingArgument)
    );
}

#[test]
fn success_make_download_command() {
    let contest_name = String::from("abc150");
    let problem_name = String::from("a");
    let inv = make_download_command(&contest_name, &problem_name);
    assert_eq!(inv.program, String::from("oj"));
    assert_eq!(
        inv.args,
        vec![
            String::from("d"),
            String::from("https://abc150.contest.atcoder.jp/tasks/abc150_a")
        ]
    );
}

#[test]
fn run_oj_download_builds_the_download_invocation() {
    let contest_name = String::from("xyz");
    let problem_name = String::from("c");
    let inv = run_oj_download(&contest_name, &problem_name);
    assert_eq!(inv.program, String::from("oj"));
    assert_eq!(
        inv.args,
        vec![
            String::from("d"),
            String::from("https://xyz.contest.atcoder.jp/tasks/xyz_c")
        ]
    );
}

#[test]
fn success_make_compile_command() {
    let file_name = String::from("template.rs");
    let inv = make_compile_command(&file_name, &default_config()).unwrap();
    assert_eq!(inv.program, String::from("rustc"));
    assert_eq!(
        inv.args,
        vec![
            String::from("-o"),
            String::from("a.out"),
            String::from("template.rs")
        ]
    );
}

#[test]
fn success_make_compile_command_with_args() {
    let file_name = String::from("template.rs");
    let config = Config::from_env(None, None, Some(String::from("test compile command")));
    let inv = make_compile_command(&file_name, &config).unwrap();
    assert_eq!(inv.program, String::from("test"));
    assert_eq!(
        inv.args,
        vec![
            String::from("compile"),
            String::from("command"),
            String::from("template.rs")
        ]
    );
}

#[test]
fn fail_make_compile_command_invalid_args() {
    let file_name = String::from("template.rs");
    let config = Config::from_env(None, None, Some(String::from("")));
    assert_eq!(
        make_compile_command(&file_name, &config),
        Err(BuildError::InvalidConfiguration)
    );
}

#[test]
fn blank_compile_override_is_invalid_configuration() {
    let file_name = String::from("template.rs");
    let config = Config::from_env(None, None, Some(String::from(" \t  ")));
    assert_eq!(
        compile(&file_name, &config),
        Err(BuildError::InvalidConfiguration)
    );
}

#[test]
fn compile_override_splits_on_runs_of_whitespace() {
    let file_name = String::from("main.rs");
    let config = Config::from_env(None, None, Some(String::from("  cc   -O2\t-g ")));
    let inv = make_compile_command(&file_name, &config).unwrap();
    assert_eq!(inv.program, String::from("cc"));
    assert_eq!(
        inv.args,
        vec![String::from("-O2"), String::from("-g"), String::from("main.rs")]
    );
}

#[test]
fn success_make_test_command() {
    let tolerance: u8 = 8;
    let inv = make_test_command(Some(&tolerance));
    assert_eq!(inv.program, String::from("oj"));
    assert_eq!(
        inv.args,
        vec![String::from("t"), String::from("-e"), String::from("1e-8")]
    );
}

#[test]
fn success_make_test_command_no_tolerance() {
    let inv = make_test_command(None);
    assert_eq!(inv.program, String::from("oj"));
    assert_eq!(inv.args, vec![String::from("t")]);
}

#[test]
fn judge_tolerance_bounds_format_exactly() {
    let one: u8 = 1;
    let nine: u8 = 9;
    assert_eq!(run_oj_test(Some(&one)).args[2], String::from("1e-1"));
    assert_eq!(run_oj_test(Some(&nine)).args[2], String::from("1e-9"));
}

#[test]
fn test_run_orders_download_compile_judge() {
    let contest_name = String::from("abc150");
    let problem_name = String::from("a");
    let tolerance: u8 = 8;
    let invs = run_test_command(
        Some(&contest_name),
        Some(&problem_name),
        None,
        Some(&tolerance),
        &default_config(),
    )
    .unwrap();
    assert_eq!(invs.len(), 3);
    assert_eq!(invs[0].program, String::from("oj"));
    assert_eq!(
        invs[0].args,
        vec![
            String::from("d"),
            String::from("https://abc150.contest.atcoder.jp/tasks/abc150_a")
        ]
    );
    assert_eq!(invs[1].program, String::from("rustc"));
    assert_eq!(
        invs[1].args,
        vec![
            String::from("-o"),
            String::from("a.out"),
            String::from("abc150_a.rs")
        ]
    );
    assert_eq!(invs[2].program, String::from("oj"));
    assert_eq!(
        invs[2].args,
        vec![String::from("t"), String::from("-e"), String::from("1e-8")]
    );
}

#[test]
fn test_run_uses_explicit_file_for_compile_only() {
    let contest_name = String::from("abc150");
    let problem_name = String::from("b");
    let file_name = String::from("mine.rs");
    let invs = run_test_command(
        Some(&contest_name),
        Some(&problem_name),
        Some(&file_name),
        None,
        &default_config(),
    )
    .unwrap();
    assert_eq!(
        invs[0].args[1],
        String::from("https://abc150.contest.atcoder.jp/tasks/abc150_b")
    );
    assert_eq!(invs[1].args[2], String::from("mine.rs"));
    assert_eq!(invs[2].args, vec![String::from("t")]);
}

#[test]
fn test_run_requires_both_identifiers() {
    let problem_name = String::from("a");
    assert_eq!(
        run_test_command(None, Some(&problem_name), None, None, &default_config()),
        Err(BuildError::MissingArgument)
    );
}

#[test]
fn test_run_reports_invalid_compile_override() {
    let contest_name = String::from("abc150");
    let problem_name = String::from("a");
    let config = Config::from_env(None, None, Some(String::from("")));
    assert_eq!(
        run_test_command(Some(&contest_name), Some(&problem_name), None, None, &config),
        Err(BuildError::InvalidConfiguration)
    );
}

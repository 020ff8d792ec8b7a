use condor_revive::locator::parse_invocation;
use condor_revive::locator::ParsedLaunch;

fn parse(tokens: &[&str]) -> ParsedLaunch {
    let args: Vec<String> = tokens.iter().map(|t| t.to_string()).collect();
    parse_invocation(&args)
}

#[test]
fn exe_token_with_switch_args() {
    let p = parse(&["C:\\Sim\\Condor.exe", "-server", "demo"]);
    assert_eq!(p.target_path, "C:\\Sim\\Condor.exe");
    assert_eq!(p.pass_through_args, vec!["-server".to_string(), "demo".to_string()]);
}

#[test]
fn spaced_path_without_suffix_is_all_path() {
    let p = parse(&["C:\\Program", "Files\\Sim\\Condor"]);
    assert_eq!(p.target_path, "C:\\Program Files\\Sim\\Condor");
    assert!(p.pass_through_args.is_empty());
}

#[test]
fn spaced_path_ending_in_exe() {
    let p = parse(&["C:\\Program", "Files\\Sim\\Condor.exe"]);
    assert_eq!(p.target_path, "C:\\Program Files\\Sim\\Condor.exe");
    assert!(p.pass_through_args.is_empty());
}

#[test]
fn first_switch_ends_path_and_joins_pass_through() {
    let p = parse(&["C:\\Games\\Sim", "-window", "C:\\other.exe"]);
    assert_eq!(p.target_path, "C:\\Games\\Sim");
    assert_eq!(
        p.pass_through_args,
        vec!["-window".to_string(), "C:\\other.exe".to_string()]
    );
}

#[test]
fn slash_switch_counts_too() {
    let p = parse(&["C:\\Games\\Sim", "/window", "800"]);
    assert_eq!(p.target_path, "C:\\Games\\Sim");
    assert_eq!(p.pass_through_args, vec!["/window".to_string(), "800".to_string()]);
}

#[test]
fn exe_suffix_is_case_insensitive() {
    let p = parse(&["C:\\Sim\\CONDOR.EXE", "demo"]);
    assert_eq!(p.target_path, "C:\\Sim\\CONDOR.EXE");
    assert_eq!(p.pass_through_args, vec!["demo".to_string()]);

    let p = parse(&["C:\\Sim\\Condor.ExE", "demo"]);
    assert_eq!(p.target_path, "C:\\Sim\\Condor.ExE");
    assert_eq!(p.pass_through_args, vec!["demo".to_string()]);
}

#[test]
fn tokens_after_exe_stay_in_order() {
    let p = parse(&["a.exe", "one", "-two", "three"]);
    assert_eq!(p.target_path, "a.exe");
    assert_eq!(
        p.pass_through_args,
        vec!["one".to_string(), "-two".to_string(), "three".to_string()]
    );
}

#[test]
fn switch_as_first_token_leaves_empty_path() {
    let p = parse(&["-server", "demo"]);
    assert_eq!(p.target_path, "");
    assert_eq!(p.pass_through_args, vec!["-server".to_string(), "demo".to_string()]);
}

#[test]
fn empty_argument_list_parses_to_nothing() {
    let p = parse(&[]);
    assert_eq!(p.target_path, "");
    assert!(p.pass_through_args.is_empty());
}

#[test]
fn bare_exe_requires_a_dot() {
    // "exe" at the end without the dot does not close the path group.
    let p = parse(&["C:\\Games\\exe", "more"]);
    assert_eq!(p.target_path, "C:\\Games\\exe more");
    assert!(p.pass_through_args.is_empty());
}

#[test]
fn dot_exe_alone_closes_the_group() {
    let p = parse(&[".exe", "rest"]);
    assert_eq!(p.target_path, ".exe");
    assert_eq!(p.pass_through_args, vec!["rest".to_string()]);
}

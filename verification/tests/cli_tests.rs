use codemie_gitops::cli::cli_surface;
use codemie_gitops::output::OutputMode;

#[test]
fn cli_binary_name_is_codemie_gitops() {
    assert_eq!(cli_surface().name, "codemie-gitops");
}

#[test]
fn cli_has_lint_subcommand() {
    assert!(cli_surface().subcommands.iter().any(|s| s.name == "lint"), "lint subcommand must be defined");
}

#[test]
fn cli_has_apply_subcommand() {
    assert!(cli_surface().subcommands.iter().any(|s| s.name == "apply"), "apply subcommand must be defined");
}

#[test]
fn cli_has_login_subcommand() {
    assert!(cli_surface().subcommands.iter().any(|s| s.name == "login"), "login subcommand must be defined");
}

#[test]
fn cli_does_not_have_token_flag_on_login() {
    let surface = cli_surface();
    let login = surface.subcommands.iter().find(|s| s.name == "login").expect("login subcommand must exist");
    assert!(login.flags.iter().all(|a| a.long != "token"), "--token flag must not exist on login");
}

#[test]
fn cli_does_not_have_client_secret_flag_on_login() {
    let surface = cli_surface();
    let login = surface.subcommands.iter().find(|s| s.name == "login").expect("login subcommand must exist");
    assert!(login.flags.iter().all(|a| a.long != "client-secret"), "--client-secret flag must not exist on login");
}

#[test]
fn cli_does_not_have_password_flag_on_login() {
    let surface = cli_surface();
    let login = surface.subcommands.iter().find(|s| s.name == "login").expect("login subcommand must exist");
    assert!(login.flags.iter().all(|a| a.long != "password"), "--password flag must not exist on login");
}

#[test]
fn apply_has_url_flag() {
    let surface = cli_surface();
    let apply = surface.subcommands.iter().find(|s| s.name == "apply").expect("apply subcommand must exist");
    assert!(apply.flags.iter().any(|a| a.long == "url"), "apply must have --url flag");
}

#[test]
fn apply_has_adopt_workflow_id_flag() {
    let surface = cli_surface();
    let apply = surface.subcommands.iter().find(|s| s.name == "apply").expect("apply subcommand must exist");
    assert!(apply.flags.iter().any(|a| a.long == "adopt-workflow-id"), "apply must have --adopt-workflow-id flag");
}

#[test]
fn output_mode_default_is_text() {
    assert_eq!("text".parse::<OutputMode>().unwrap(), OutputMode::Text);
}

#[test]
fn no_subcommand_takes_a_secret_flag() {
    for sub in cli_surface().subcommands {
        for flag in sub.flags {
            assert!(!["token", "client-secret", "password"].contains(&flag.long));
        }
    }
}

use vstd::prelude::*;

use crate::output::OutputMode;

verus! {

/// The parsed command line: one subcommand.
#[derive(Debug)]
pub struct Cli {
    pub command: Command,
}

/// The subcommands and their arguments. No subcommand takes a secret: the
/// token, client secret and password come from the environment only.
#[derive(Debug)]
pub enum Command {
    /// Validate one declaration offline.
    Lint {
        file: std::path::PathBuf,
        repo_root: Option<std::path::PathBuf>,
        follow_symlinks: bool,
        output: OutputMode,
    },
    /// Apply one declaration to the server.
    Apply {
        file: std::path::PathBuf,
        repo_root: Option<std::path::PathBuf>,
        url: Option<String>,
        follow_symlinks: bool,
        adopt_workflow_id: Option<String>,
        output: OutputMode,
    },
    /// Obtain and print a bearer token.
    Login {
        url: Option<String>,
        auth_url: Option<String>,
        client_id: Option<String>,
        email: Option<String>,
    },
}

/// One flag of a subcommand: its long name, its short letter, the
/// environment variable it falls back to, whether it takes a value, and its
/// default value.
#[derive(Debug, Clone, Copy)]
pub struct FlagSpec {
    pub long: &'static str,
    pub short: Option<char>,
    pub env: Option<&'static str>,
    pub takes_value: bool,
    pub required: bool,
    pub default_value: Option<&'static str>,
}

/// One subcommand and its flags.
#[derive(Debug, Clone)]
pub struct SubcommandSpec {
    pub name: &'static str,
    pub about: &'static str,
    pub flags: Vec<FlagSpec>,
}

/// The whole command surface.
#[derive(Debug, Clone)]
pub struct CliSurface {
    pub name: &'static str,
    pub about: &'static str,
    pub subcommands: Vec<SubcommandSpec>,
}

/// A flag that no subcommand may define: one that would carry a secret.
pub open spec fn secret_flag(long: Seq<char>) -> bool {
    long == "token"@ || long == "client-secret"@ || long == "password"@
}

/// A flag.
fn flag(
    long: &'static str,
    short: Option<char>,
    env: Option<&'static str>,
    takes_value: bool,
    required: bool,
    default_value: Option<&'static str>,
) -> (f: FlagSpec)
    ensures
        f.long == long,
{
    FlagSpec { long, short, env, takes_value, required, default_value }
}

/// The flags of `lint`.
fn lint_flags() -> (flags: Vec<FlagSpec>)
    ensures
        flags@.len() == 4,
        flags@[0].long@ == "file"@,
        flags@[1].long@ == "repo-root"@,
        flags@[2].long@ == "follow-symlinks"@,
        flags@[3].long@ == "output"@,
{
    let mut flags: Vec<FlagSpec> = Vec::new();
    flags.push(flag("file", Some('f'), None, true, true, None));
    flags.push(flag("repo-root", None, None, true, false, None));
    flags.push(flag("follow-symlinks", None, None, false, false, None));
    flags.push(flag("output", None, None, true, false, Some("text")));
    flags
}

/// The flags of `apply`.
fn apply_flags() -> (flags: Vec<FlagSpec>)
    ensures
        flags@.len() == 6,
        flags@[0].long@ == "file"@,
        flags@[1].long@ == "repo-root"@,
        flags@[2].long@ == "url"@,
        flags@[3].long@ == "follow-symlinks"@,
        flags@[4].long@ == "adopt-workflow-id"@,
        flags@[5].long@ == "output"@,
{
    let mut flags: Vec<FlagSpec> = Vec::new();
    flags.push(flag("file", Some('f'), None, true, true, None));
    flags.push(flag("repo-root", None, None, true, false, None));
    flags.push(flag("url", None, Some("CODEMIE_URL"), true, false, None));
    flags.push(flag("follow-symlinks", None, None, false, false, None));
    flags.push(flag("adopt-workflow-id", None, None, true, false, None));
    flags.push(flag("output", None, None, true, false, Some("text")));
    flags
}

/// The flags of `login`.
fn login_flags() -> (flags: Vec<FlagSpec>)
    ensures
        flags@.len() == 4,
        flags@[0].long@ == "url"@,
        flags@[1].long@ == "auth-url"@,
        flags@[2].long@ == "client-id"@,
        flags@[3].long@ == "email"@,
{
    let mut flags: Vec<FlagSpec> = Vec::new();
    flags.push(flag("url", None, Some("CODEMIE_URL"), true, false, None));
    flags.push(flag("auth-url", None, Some("CODEMIE_AUTH_URL"), true, false, None));
    flags.push(flag("client-id", None, Some("CODEMIE_CLIENT_ID"), true, false, None));
    flags.push(flag("email", None, Some("CODEMIE_EMAIL"), true, false, None));
    flags
}

/// The command surface of `codemie-gitops`: `lint`, `apply` and `login`.
/// No subcommand defines `--token`, `--client-secret` or `--password`.
pub fn cli_surface() -> (s: CliSurface)
    ensures
        s.name@ == "codemie-gitops"@,
        s.subcommands@.len() == 3,
        s.subcommands@[0].name@ == "lint"@,
        s.subcommands@[1].name@ == "apply"@,
        s.subcommands@[2].name@ == "login"@,
        exists|i: int| 0 <= i < s.subcommands@[1].flags@.len() && #[trigger] s.subcommands@[1].flags@[i].long@ == "url"@,
        exists|i: int| 0 <= i < s.subcommands@[1].flags@.len() && #[trigger] s.subcommands@[1].flags@[i].long@ == "adopt-workflow-id"@,
        forall|c: int, i: int|
            0 <= c < s.subcommands@.len() && 0 <= i < s.subcommands@[c].flags@.len() ==> !secret_flag(
                #[trigger] s.subcommands@[c].flags@[i].long@,
            ),
{
    let mut subcommands: Vec<SubcommandSpec> = Vec::new();
    subcommands.push(
        SubcommandSpec { name: "lint", about: "Validate declarations offline (no network access).", flags: lint_flags() },
    );
    subcommands.push(
        SubcommandSpec { name: "apply", about: "Apply declarations to CodeMie (requires network access).", flags: apply_flags() },
    );
    subcommands.push(
        SubcommandSpec {
            name: "login",
            about: "Obtain and print a bearer token to stdout (no other output on success).",
            flags: login_flags(),
        },
    );
    proof {
        reveal_strlit("token");
        reveal_strlit("client-secret");
        reveal_strlit("password");
        reveal_strlit("file");
        reveal_strlit("repo-root");
        reveal_strlit("follow-symlinks");
        reveal_strlit("output");
        reveal_strlit("url");
        reveal_strlit("adopt-workflow-id");
        reveal_strlit("auth-url");
        reveal_strlit("client-id");
        reveal_strlit("email");
        assert(subcommands@[1].flags@[2].long@ == "url"@);
        assert(subcommands@[1].flags@[4].long@ == "adopt-workflow-id"@);
        assert("token"@.len() == 5 && "client-secret"@.len() == 13 && "password"@.len() == 8);
        assert("file"@.len() == 4 && "repo-root"@.len() == 9 && "follow-symlinks"@.len() == 15);
        assert("output"@.len() == 6 && "url"@.len() == 3 && "adopt-workflow-id"@.len() == 17);
        assert(!secret_flag("file"@) && !secret_flag("repo-root"@) && !secret_flag("follow-symlinks"@));
        assert(!secret_flag("output"@) && !secret_flag("url"@) && !secret_flag("adopt-workflow-id"@));
        assert(!secret_flag("auth-url"@)) by {
            assert("auth-url"@[0] != "password"@[0]);
        }
        assert(!secret_flag("client-id"@)) by {
            assert("client-id"@.len() != "client-secret"@.len());
        }
        assert(!secret_flag("email"@)) by {
            assert("email"@[0] != "token"@[0]);
        }
        assert forall|c: int, i: int|
            0 <= c < subcommands@.len() && 0 <= i < subcommands@[c].flags@.len() implies !secret_flag(
                #[trigger] subcommands@[c].flags@[i].long@,
            ) by {
            if c == 0 {
                assert(0 <= i < 4);
            } else if c == 1 {
                assert(0 <= i < 6);
            } else {
                assert(0 <= i < 4);
            }
        }
    }
    CliSurface { name: "codemie-gitops", about: "CodeMie declarative CI/CD CLI", subcommands }
}

} // verus!

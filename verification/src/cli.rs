//! The `wsb` command lines this library runs, and how it reads the way a
//! `wsb` process ended. Running the process is left to the caller.
use vstd::prelude::*;

use crate::error::SandboxError;
use crate::types::{opt_id, uuid_display, RunAs, SandboxId};
use crate::wide::{encode_utf16, opt_units, utf16_encode};

verus! {

/// The text of each argument of a command line.
pub open spec fn args_view(args: Seq<Vec<u16>>) -> Seq<Seq<u16>> {
    args.map_values(|a: Vec<u16>| a@)
}

/// The first arguments of every `wsb` command line: `--raw`, which makes
/// `wsb` answer in JSON, and the subcommand.
pub open spec fn base_args(subcommand: Seq<char>) -> Seq<Seq<u16>> {
    seq![utf16_encode("--raw"@), utf16_encode(subcommand)]
}

/// `--id` and the hyphenated form of the sandbox ID.
pub open spec fn id_args(id: u128) -> Seq<Seq<u16>> {
    seq![utf16_encode("--id"@), utf16_encode(uuid_display(id))]
}

/// The arguments of `wsb start`.
pub open spec fn start_args_spec(id: Option<u128>, config: Option<Seq<u16>>) -> Seq<Seq<u16>> {
    base_args("start"@) + match id {
        Some(v) => id_args(v),
        None => seq![],
    } + match config {
        Some(c) => seq![utf16_encode("--config"@), c],
        None => seq![],
    }
}

/// The name that `wsb exec --run-as` takes for a user context.
pub open spec fn run_as_text(run_as: RunAs) -> Seq<u16> {
    match run_as {
        RunAs::ExistingLogin => utf16_encode("ExistingLogin"@),
        RunAs::System => utf16_encode("System"@),
    }
}

/// The arguments of `wsb exec`.
pub open spec fn exec_args_spec(
    id: u128,
    command: Seq<u16>,
    run_as: RunAs,
    working_directory: Option<Seq<u16>>,
) -> Seq<Seq<u16>> {
    base_args("exec"@) + id_args(id) + seq![utf16_encode("--command"@), command] + seq![
        utf16_encode("--run-as"@),
        run_as_text(run_as),
    ] + match working_directory {
        Some(d) => seq![utf16_encode("--working-directory"@), d],
        None => seq![],
    }
}

/// The arguments of `wsb share`.
pub open spec fn share_args_spec(
    id: u128,
    host_path: Seq<u16>,
    sandbox_path: Seq<u16>,
    allow_write: bool,
) -> Seq<Seq<u16>> {
    base_args("share"@) + id_args(id) + seq![utf16_encode("--host-path"@), host_path] + seq![
        utf16_encode("--sandbox-path"@),
        sandbox_path,
    ] + if allow_write {
        seq![utf16_encode("--allow-write"@)]
    } else {
        seq![]
    }
}

proof fn lemma_args_view_push(args: Seq<Vec<u16>>, a: Vec<u16>)
    ensures
        args_view(args.push(a)) == args_view(args).push(a@),
{
    assert(args_view(args.push(a)) =~= args_view(args).push(a@));
}

fn push_arg(args: &mut Vec<Vec<u16>>, a: Vec<u16>)
    ensures
        args_view(final(args)@) == args_view(old(args)@).push(a@),
{
    proof {
        lemma_args_view_push(args@, a);
    }
    args.push(a);
}

fn base_command(subcommand: &str) -> (res: Vec<Vec<u16>>)
    ensures
        args_view(res@) == base_args(subcommand@),
{
    let mut args: Vec<Vec<u16>> = Vec::new();
    assert(args_view(args@) =~= Seq::<Seq<u16>>::empty());
    push_arg(&mut args, encode_utf16("--raw"));
    push_arg(&mut args, encode_utf16(subcommand));
    assert(args_view(args@) =~= base_args(subcommand@));
    args
}

fn push_id(args: &mut Vec<Vec<u16>>, id: SandboxId)
    ensures
        args_view(final(args)@) == args_view(old(args)@) + id_args(id@),
{
    let ghost before = args_view(args@);
    push_arg(args, encode_utf16("--id"));
    push_arg(args, id.to_wide());
    assert(args_view(args@) =~= before + id_args(id@));
}

/// The command line of `wsb start`, with the sandbox ID and the
/// configuration XML where they are given.
pub fn start_args(id: Option<SandboxId>, config: Option<Vec<u16>>) -> (res: Vec<Vec<u16>>)
    ensures
        args_view(res@) == start_args_spec(opt_id(id), opt_units(config)),
{
    let ghost idv = opt_id(id);
    let ghost cv = opt_units(config);
    let mut args = base_command("start");
    let ghost b = args_view(args@);
    match id {
        Some(i) => {
            push_id(&mut args, i);
        },
        None => {
            assert(args_view(args@) =~= b + Seq::<Seq<u16>>::empty());
        },
    }
    match config {
        Some(cfg) => {
            push_arg(&mut args, encode_utf16("--config"));
            push_arg(&mut args, cfg);
        },
        None => {},
    }
    assert(args_view(args@) =~= start_args_spec(idv, cv));
    args
}

/// The command line of `wsb list`.
pub fn list_args() -> (res: Vec<Vec<u16>>)
    ensures
        args_view(res@) == base_args("list"@),
{
    base_command("list")
}

/// The command line of `wsb exec`, with the working directory where it is
/// given.
pub fn exec_args(
    id: SandboxId,
    command: Vec<u16>,
    run_as: RunAs,
    working_directory: Option<Vec<u16>>,
) -> (res: Vec<Vec<u16>>)
    ensures
        args_view(res@) == exec_args_spec(id@, command@, run_as, opt_units(working_directory)),
{
    let ghost command_view = command@;
    let ghost dv = opt_units(working_directory);
    let mut args = base_command("exec");
    push_id(&mut args, id);
    push_arg(&mut args, encode_utf16("--command"));
    push_arg(&mut args, command);
    push_arg(&mut args, encode_utf16("--run-as"));
    let run_as_str = match run_as {
        RunAs::ExistingLogin => encode_utf16("ExistingLogin"),
        RunAs::System => encode_utf16("System"),
    };
    push_arg(&mut args, run_as_str);
    match working_directory {
        Some(d) => {
            push_arg(&mut args, encode_utf16("--working-directory"));
            push_arg(&mut args, d);
        },
        None => {},
    }
    assert(args_view(args@) =~= exec_args_spec(id@, command_view, run_as, dv));
    args
}

/// The command line of `wsb share`, with `--allow-write` where writing is
/// allowed.
pub fn share_args(
    id: SandboxId,
    host_path: Vec<u16>,
    sandbox_path: Vec<u16>,
    allow_write: bool,
) -> (res: Vec<Vec<u16>>)
    ensures
        args_view(res@) == share_args_spec(id@, host_path@, sandbox_path@, allow_write),
{
    let ghost host_view = host_path@;
    let ghost sandbox_view = sandbox_path@;
    let mut args = base_command("share");
    push_id(&mut args, id);
    push_arg(&mut args, encode_utf16("--host-path"));
    push_arg(&mut args, host_path);
    push_arg(&mut args, encode_utf16("--sandbox-path"));
    push_arg(&mut args, sandbox_path);
    if allow_write {
        push_arg(&mut args, encode_utf16("--allow-write"));
    }
    assert(args_view(args@) =~= share_args_spec(id@, host_view, sandbox_view, allow_write));
    args
}

/// The command line of `wsb <subcommand> --id <id>`.
fn id_command(subcommand: &str, id: SandboxId) -> (res: Vec<Vec<u16>>)
    ensures
        args_view(res@) == base_args(subcommand@) + id_args(id@),
{
    let mut args = base_command(subcommand);
    push_id(&mut args, id);
    args
}

/// The command line of `wsb stop`.
pub fn stop_args(id: SandboxId) -> (res: Vec<Vec<u16>>)
    ensures
        args_view(res@) == base_args("stop"@) + id_args(id@),
{
    id_command("stop", id)
}

/// The command line of `wsb connect`.
pub fn connect_args(id: SandboxId) -> (res: Vec<Vec<u16>>)
    ensures
        args_view(res@) == base_args("connect"@) + id_args(id@),
{
    id_command("connect", id)
}

/// The command line of `wsb ip`.
pub fn ip_args(id: SandboxId) -> (res: Vec<Vec<u16>>)
    ensures
        args_view(res@) == base_args("ip"@) + id_args(id@),
{
    id_command("ip", id)
}

/// What `wsb` wrote to standard error, as the detail of an error; nothing
/// where it wrote nothing.
pub fn stderr_error(message: &str) -> (res: Option<String>)
    ensures
        match res {
            None => message@.len() == 0,
            Some(s) => message@.len() > 0 && s@ == message@,
        },
{
    if message.is_empty() {
        return None;
    }
    Some(message.to_owned())
}

/// How a finished `wsb` process is judged: success, or the error that
/// carries its exit code and what it wrote to standard error.
pub fn check_status(success: bool, exit_code: Option<i32>, stderr: &str) -> (res: Result<
    (),
    SandboxError,
>)
    ensures
        success <==> res is Ok,
        match res {
            Ok(_) => true,
            Err(SandboxError::WsbCommand { exit_code: c, message: m }) => c == exit_code && match m {
                None => stderr@.len() == 0,
                Some(t) => stderr@.len() > 0 && t@ == stderr@,
            },
            Err(_) => false,
        },
{
    if !success {
        return Err(SandboxError::WsbCommand { exit_code, message: stderr_error(stderr) });
    }
    Ok(())
}

/// The message that stands for standard error when reading it failed with
/// the error `err`, after `partial` had been read.
pub fn stderr_read_failure_message(err: &str, partial: &str) -> (res: String)
    ensures
        res@ == "failed to read stderr from wsb process: "@ + err@ + if partial@.len() > 0 {
            "\npartial stderr: "@ + partial@
        } else {
            Seq::<char>::empty()
        },
{
    let mut message = String::from_str("failed to read stderr from wsb process: ");
    message.append(err);
    if !partial.is_empty() {
        message.append("\npartial stderr: ");
        message.append(partial);
    }
    message
}

} // verus!

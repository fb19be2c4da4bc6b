//! Laws of the `wsb` command lines: where each given value lands.
use vstd::prelude::*;

use crate::cli::{base_args, exec_args_spec, id_args, run_as_text, share_args_spec, start_args_spec};
use crate::types::{uuid_display, RunAs};
use crate::wide::utf16_encode;

verus! {

/// `wsb start`: `--raw` and `start` come first; a given ID follows as
/// `--id` and its hyphenated form, whether or not a configuration is given;
/// a given configuration follows last as `--config` and its text, unchanged;
/// nothing else is passed.
pub proof fn law_start_args(id: Option<u128>, config: Option<Seq<u16>>)
    ensures
        ({
            let a = start_args_spec(id, config);
            &&& a.len() == 2 + (if id is Some { 2int } else { 0 }) + (if config is Some {
                2int
            } else {
                0
            })
            &&& a[0] == utf16_encode("--raw"@)
            &&& a[1] == utf16_encode("start"@)
            &&& id matches Some(v) ==> a[2] == utf16_encode("--id"@) && a[3] == utf16_encode(
                uuid_display(v),
            )
            &&& config matches Some(c) ==> a[a.len() - 2] == utf16_encode("--config"@) && a[a.len()
                - 1] == c
        }),
{
}

/// `wsb exec`: the ID, the command and the user context stand at fixed
/// places whatever the others are; the command is passed unchanged; a given
/// working directory follows last as `--working-directory` and the
/// directory, unchanged, for either user context.
pub proof fn law_exec_args(id: u128, command: Seq<u16>, run_as: RunAs, dir: Option<Seq<u16>>)
    ensures
        ({
            let a = exec_args_spec(id, command, run_as, dir);
            &&& a.len() == 8 + (if dir is Some { 2int } else { 0 })
            &&& a[0] == utf16_encode("--raw"@)
            &&& a[1] == utf16_encode("exec"@)
            &&& a[2] == utf16_encode("--id"@)
            &&& a[3] == utf16_encode(uuid_display(id))
            &&& a[4] == utf16_encode("--command"@)
            &&& a[5] == command
            &&& a[6] == utf16_encode("--run-as"@)
            &&& a[7] == run_as_text(run_as)
            &&& dir matches Some(d) ==> a[8] == utf16_encode("--working-directory"@) && a[9] == d
        }),
        run_as_text(RunAs::ExistingLogin) == utf16_encode("ExistingLogin"@),
        run_as_text(RunAs::System) == utf16_encode("System"@),
{
}

/// `wsb share`: the host path and the sandbox path are passed unchanged,
/// each as one argument after its option; `--allow-write` is passed last,
/// and only where writing is allowed.
pub proof fn law_share_args(id: u128, host_path: Seq<u16>, sandbox_path: Seq<u16>, allow_write: bool)
    ensures
        ({
            let a = share_args_spec(id, host_path, sandbox_path, allow_write);
            &&& a.len() == 8 + (if allow_write { 1int } else { 0 })
            &&& a[0] == utf16_encode("--raw"@)
            &&& a[1] == utf16_encode("share"@)
            &&& a[2] == utf16_encode("--id"@)
            &&& a[3] == utf16_encode(uuid_display(id))
            &&& a[4] == utf16_encode("--host-path"@)
            &&& a[5] == host_path
            &&& a[6] == utf16_encode("--sandbox-path"@)
            &&& a[7] == sandbox_path
            &&& allow_write ==> a[8] == utf16_encode("--allow-write"@)
        }),
{
}

/// `wsb list` is `--raw list`; `wsb stop`, `connect` and `ip` pass the ID
/// and nothing else.
pub proof fn law_id_commands(subcommand: Seq<char>, id: u128)
    ensures
        base_args("list"@) == seq![utf16_encode("--raw"@), utf16_encode("list"@)],
        base_args(subcommand) + id_args(id) == seq![
            utf16_encode("--raw"@),
            utf16_encode(subcommand),
            utf16_encode("--id"@),
            utf16_encode(uuid_display(id)),
        ],
{
    assert(base_args(subcommand) + id_args(id) =~= seq![
        utf16_encode("--raw"@),
        utf16_encode(subcommand),
        utf16_encode("--id"@),
        utf16_encode(uuid_display(id)),
    ]);
}

} // verus!

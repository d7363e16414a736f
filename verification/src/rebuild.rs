//! The decisions around running `nixos-rebuild`: its arguments, how each
//! line of its output is logged, and the response once it has finished.

use vstd::prelude::*;

use crate::actions::opt_view;
use crate::commands::is_error;
use crate::config::ConfigMode;
use crate::ipc::{HelperResponse, LogLevel, RebuildType};
use crate::text::{contains, owned, push_str, signed_decimal, str_contains, trim, trim_str, views};

verus! {

/// The level at which a line of `nixos-rebuild` output is logged.
pub open spec fn spec_line_level(line: Seq<char>) -> LogLevel {
    if contains(line, "error:"@) || contains(line, "Error:"@) {
        LogLevel::Error
    } else if contains(line, "warning:"@) || contains(line, "Warning:"@) {
        LogLevel::Warning
    } else {
        LogLevel::Info
    }
}

/// The level at which a line of `nixos-rebuild`'s error output is logged.
pub fn classify_output_line(line: &str) -> (r: LogLevel)
    ensures
        r == spec_line_level(line@),
{
    if str_contains(line, "error:") || str_contains(line, "Error:") {
        LogLevel::Error
    } else if str_contains(line, "warning:") || str_contains(line, "Warning:") {
        LogLevel::Warning
    } else {
        LogLevel::Info
    }
}

/// The flake reference to rebuild: `/etc/nixos#` and the trimmed content
/// of `/etc/hostname`, or `nixos` when that file could not be read.
pub open spec fn spec_flake_target(hostname_file: Option<Seq<char>>) -> Seq<char> {
    "/etc/nixos#"@ + match hostname_file {
        Some(h) => trim(h),
        None => "nixos"@,
    }
}

/// The arguments of `nixos-rebuild`: the rebuild type, and for a flake
/// configuration `--flake` with the flake reference.
pub open spec fn spec_rebuild_args(
    rebuild_type: RebuildType,
    mode: ConfigMode,
    hostname_file: Option<Seq<char>>,
) -> Seq<Seq<char>> {
    seq![rebuild_type.spec_as_arg()] + if mode == ConfigMode::Flake {
        seq!["--flake"@, spec_flake_target(hostname_file)]
    } else {
        Seq::empty()
    }
}

/// The arguments of `nixos-rebuild` for this rebuild.
pub fn rebuild_args(rebuild_type: RebuildType, mode: ConfigMode, hostname_file: &Option<String>) -> (r:
    Vec<String>)
    ensures
        views(r@) == spec_rebuild_args(rebuild_type, mode, opt_view(*hostname_file)),
{
    let mut r: Vec<String> = Vec::new();
    r.push(owned(rebuild_type.as_arg()));
    match mode {
        ConfigMode::Flake => {
            let mut target = owned("/etc/nixos#");
            match hostname_file {
                Some(h) => {
                    let t = trim_str(h.as_str());
                    push_str(&mut target, t.as_str());
                },
                None => push_str(&mut target, "nixos"),
            }
            r.push(owned("--flake"));
            r.push(target);
        },
        _ => {},
    }
    assert(views(r@) =~= spec_rebuild_args(rebuild_type, mode, opt_view(*hostname_file)));
    r
}

/// The log line that announces the rebuild.
pub fn running_message(rebuild_type: RebuildType) -> (r: String)
    ensures
        r@ == "Running: nixos-rebuild "@ + rebuild_type.spec_as_arg(),
{
    let mut r = owned("Running: nixos-rebuild ");
    push_str(&mut r, rebuild_type.as_arg());
    r
}

/// How the rebuild process ended: whether it succeeded and its exit code,
/// or the error of waiting for it.
pub enum RebuildExit {
    Finished { success: bool, code: Option<i32> },
    WaitFailed { error: String },
}

/// What is logged and answered once the rebuild has ended.
pub struct RebuildOutcome {
    pub log_level: LogLevel,
    pub log_message: String,
    pub response: HelperResponse,
}

/// Whether `r` is the completion response with this success and message.
pub open spec fn is_apply_complete(r: HelperResponse, success: bool, message: Seq<char>) -> bool {
    match r {
        HelperResponse::ApplyComplete { success: s, message: m } => s == success && m@ == message,
        _ => false,
    }
}

/// What is logged and answered once the rebuild has ended: success, failure
/// with the exit code (`-1` when there is none), or the error of waiting.
pub fn rebuild_finished(rebuild_type: RebuildType, exit: RebuildExit) -> (r: RebuildOutcome)
    ensures
        match exit {
            RebuildExit::Finished { success: true, .. } => r.log_level == LogLevel::Info
                && r.log_message@ == "Build completed successfully!"@ && is_apply_complete(
                r.response,
                true,
                "nixos-rebuild "@ + rebuild_type.spec_as_arg() + " completed successfully"@,
            ),
            RebuildExit::Finished { success: false, code } => {
                let c = signed_decimal(
                    match code {
                        Some(c) => c as int,
                        None => -1,
                    },
                );
                &&& r.log_level == LogLevel::Error
                &&& r.log_message@ == "Build failed with exit code "@ + c
                &&& is_apply_complete(
                    r.response,
                    false,
                    "nixos-rebuild "@ + rebuild_type.spec_as_arg() + " failed with exit code "@ + c,
                )
            },
            RebuildExit::WaitFailed { error } => {
                &&& r.log_level == LogLevel::Error
                &&& r.log_message@ == "Process error: "@ + error@
                &&& is_error(r.response, "Failed to wait for nixos-rebuild"@, Some(error@))
            },
        },
{
    match exit {
        RebuildExit::Finished { success, code } => {
            if success {
                let mut m = owned("nixos-rebuild ");
                push_str(&mut m, rebuild_type.as_arg());
                push_str(&mut m, " completed successfully");
                RebuildOutcome {
                    log_level: LogLevel::Info,
                    log_message: owned("Build completed successfully!"),
                    response: HelperResponse::ApplyComplete { success: true, message: m },
                }
            } else {
                let c: i32 = match code {
                    Some(c) => c,
                    None => -1,
                };
                let cs = crate::text::i64_to_string(c as i64);
                let mut log = owned("Build failed with exit code ");
                push_str(&mut log, cs.as_str());
                let mut m = owned("nixos-rebuild ");
                push_str(&mut m, rebuild_type.as_arg());
                push_str(&mut m, " failed with exit code ");
                push_str(&mut m, cs.as_str());
                RebuildOutcome {
                    log_level: LogLevel::Error,
                    log_message: log,
                    response: HelperResponse::ApplyComplete { success: false, message: m },
                }
            }
        },
        RebuildExit::WaitFailed { error } => {
            let mut log = owned("Process error: ");
            push_str(&mut log, error.as_str());
            RebuildOutcome {
                log_level: LogLevel::Error,
                log_message: log,
                response: HelperResponse::Error {
                    message: owned("Failed to wait for nixos-rebuild"),
                    details: Some(error),
                },
            }
        },
    }
}

} // verus!

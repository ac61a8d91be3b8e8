//! The privileged invocation: the shell line that pipes the secret into
//! `sudo`, and the masked form of it that diagnostics show instead.
use vstd::prelude::*;
use vstd::string::*;

verus! {

/// Shell that runs the privileged line.
pub const SHELL: &'static str = "bash";

/// The installation that the elevated shell runs.
pub const INSTALL_SCRIPT: &'static str = "apt update && apt install -y mysql-server";

/// What stands for the secret in diagnostics.
pub const SECRET_MASK: &'static str = "******";

/// The shell line that feeds `secret` to `sudo -S` and runs the installation
/// under it.
pub open spec fn privileged_line(secret: Seq<char>) -> Seq<char> {
    "echo "@ + secret + " | sudo -S bash -c '"@ + INSTALL_SCRIPT@ + "'"@
}

/// Builds the privileged shell line for `secret`.
pub fn privileged_command(secret: &str) -> (r: String)
    ensures
        r@ == privileged_line(secret@),
{
    let line = String::from_str("echo ");
    let line = line.concat(secret);
    let line = line.concat(" | sudo -S bash -c '");
    let line = line.concat(INSTALL_SCRIPT);
    line.concat("'")
}

/// The privileged line as diagnostics show it: the mask stands where the
/// secret goes, so the secret never reaches a log.
pub fn masked_command() -> (r: String)
    ensures
        r@ == privileged_line(SECRET_MASK@),
{
    privileged_command(SECRET_MASK)
}

/// Arguments for the shell: run the privileged line for `secret`.
pub fn privileged_args(secret: &str) -> (r: Vec<String>)
    ensures
        r@.len() == 2,
        r@[0]@ == "-c"@,
        r@[1]@ == privileged_line(secret@),
{
    let mut args: Vec<String> = Vec::new();
    args.push(String::from_str("-c"));
    args.push(privileged_command(secret));
    args
}

} // verus!

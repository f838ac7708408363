use vstd::prelude::*;
use vstd::string::StringSliceAdditionalSpecFns;
use vstd::utf8::{decode_utf8, valid_utf8};

use crate::model::{append_bytes, byte_views, CommandSpec, Output, WrapError};
use crate::text::ToUtf8;

verus! {

/// The command that builds a package: `cargo build -vv`, where `cargo` is the program that the
/// `CARGO` variable names when it is set (given here as `cargo`). The doubled `-v` shows what
/// build helpers print.
pub fn cargo_build(cargo: Option<Vec<u8>>) -> (r: CommandSpec)
    ensures
        r.program@ == (match cargo {
            Some(c) => c@,
            None => "cargo".spec_bytes(),
        }),
        byte_views(r.args@) == seq!["build".spec_bytes(), "-vv".spec_bytes()],
{
    let program = match cargo {
        Some(c) => c,
        None => {
            let mut p: Vec<u8> = Vec::new();
            append_bytes(&mut p, "cargo".as_bytes());
            p
        },
    };
    let mut build: Vec<u8> = Vec::new();
    append_bytes(&mut build, "build".as_bytes());
    let mut verbose: Vec<u8> = Vec::new();
    append_bytes(&mut verbose, "-vv".as_bytes());
    let mut args: Vec<Vec<u8>> = Vec::new();
    args.push(build);
    args.push(verbose);
    assert(byte_views(args@) =~= seq!["build".spec_bytes(), "-vv".spec_bytes()]);
    CommandSpec { program, args }
}

/// The command that looks `filename` up on the search path: `which <filename>`.
pub fn which_command(filename: &str) -> (r: CommandSpec)
    ensures
        r.program@ == "which".spec_bytes(),
        byte_views(r.args@) == seq![filename.spec_bytes()],
{
    let mut program: Vec<u8> = Vec::new();
    append_bytes(&mut program, "which".as_bytes());
    let mut name: Vec<u8> = Vec::new();
    append_bytes(&mut name, filename.as_bytes());
    let mut args: Vec<Vec<u8>> = Vec::new();
    args.push(name);
    assert(byte_views(args@) =~= seq![filename.spec_bytes()]);
    CommandSpec { program, args }
}

/// White space as `char::is_whitespace` has it: the characters of Unicode's `White_Space`
/// property.
pub open spec fn is_white_space(c: char) -> bool {
    let u = c as u32;
    (0x09 <= u <= 0x0d) || u == 0x20 || u == 0x85 || u == 0xa0 || u == 0x1680 || (0x2000 <= u
        <= 0x200a) || u == 0x2028 || u == 0x2029 || u == 0x202f || u == 0x205f || u == 0x3000
}

/// `s` without the white space at its end.
pub open spec fn trimmed_end(s: Seq<char>) -> Seq<char>
    decreases s.len(),
{
    if s.len() > 0 && is_white_space(s.last()) {
        trimmed_end(s.drop_last())
    } else {
        s
    }
}

/// Relies on `str::trim_end`: it removes the white space (as `char::is_whitespace` has it) at
/// the end of the text, and nothing else.
#[verifier::external_body]
fn trim_end(s: &str) -> (r: &str)
    ensures
        r@ == trimmed_end(s@),
{
    s.trim_end()
}

/// The path that `which` printed, given the command that ran and what it left behind: its
/// output, read as UTF-8, without the white space at the end. Making the path canonical is left
/// to the caller, on the file system.
pub fn which_path(command: CommandSpec, output: Output) -> (r: Result<String, WrapError>)
    ensures
        !output.succeeded() ==> r == Err::<String, WrapError>(
            WrapError::CommandFailed(command, output),
        ),
        output.succeeded() && !valid_utf8(output.stdout@) ==> r == Err::<String, WrapError>(
            WrapError::InvalidPath,
        ),
        output.succeeded() && valid_utf8(output.stdout@) ==> r is Ok && r->Ok_0@ == trimmed_end(
            decode_utf8(output.stdout@),
        ),
{
    if !output.success() {
        return Err(WrapError::CommandFailed(command, output));
    }
    match output.stdout.to_utf8() {
        Ok(s) => Ok(trim_end(s).to_owned()),
        Err(e) => Err(e),
    }
}

} // verus!

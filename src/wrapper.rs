use vstd::prelude::*;
use vstd::string::StringSliceAdditionalSpecFns;
use vstd::utf8::valid_utf8;

use crate::model::{append_bytes, WrapError};
use crate::text::ToUtf8;

verus! {

/// The manifest of a wrapper unit: one binary package, with the two crates its program uses.
pub const CARGO_TOML: &'static str = r#"
[package]
name = "build_script_wrapper"
version = "0.1.0"
edition = "2021"
publish = false

[dependencies]
anyhow = "1.0"
tempfile = "3.9"
"#;

/// The fixed part of a wrapper unit's program: it unpacks the embedded helper to a fresh
/// executable file, runs it through the command that `BUILD_WRAP_CMD` named when the program was
/// built, forwards what it writes, and exits with its status.
pub const SHIM_RS: &'static str = r#"use std::{
    fs::{set_permissions, Permissions},
    io::Write,
    os::unix::fs::PermissionsExt,
    process::{exit, Command, Stdio},
};
use tempfile::NamedTempFile;

fn unpack_and_exec(bytes: &[u8]) -> anyhow::Result<i32> {
    let (mut file, temp_path) = NamedTempFile::new().map(NamedTempFile::into_parts)?;
    file.write_all(bytes)?;
    drop(file);
    set_permissions(&temp_path, Permissions::from_mode(0o755))?;

    // The command is the one set when this program was compiled, not when it runs.
    let s = option_env!("BUILD_WRAP_CMD")
        .ok_or_else(|| anyhow::anyhow!("`BUILD_WRAP_CMD` is undefined"))?;
    let args = s.split_ascii_whitespace().collect::<Vec<_>>();
    anyhow::ensure!(!args.is_empty(), "`BUILD_WRAP_CMD` is empty");

    let mut command = Command::new(args[0]);
    command.args(&args[1..]);
    command.arg(&temp_path);
    command.stdout(Stdio::piped());
    command.stderr(Stdio::piped());
    let output = command.output()?;

    // Cargo reads a build script's instructions from its stdout, so both streams are forwarded.
    println!("{}", String::from_utf8_lossy(&output.stdout));
    eprintln!("{}", String::from_utf8_lossy(&output.stderr));

    if !output.status.success() {
        eprintln!("command failed: {command:?}");
    }
    drop(temp_path);
    Ok(output.status.code().unwrap_or(1))
}
"#;

/// What comes before the helper's path in the embedding directive.
pub const EMBED_HEAD: &'static str = r#"
const BYTES: &[u8] = include_bytes!(""#;

/// What follows the helper's path: the end of the directive and the program's entry point.
pub const EMBED_TAIL: &'static str = r#"");

fn main() {
    let code = match unpack_and_exec(BYTES) {
        Ok(code) => code,
        Err(error) => {
            eprintln!("Error: {error:?}");
            1
        }
    };
    exit(code);
}
"#;

/// How byte `b` of a path is written inside a string literal: a backslash, a double quote and a
/// carriage return are escaped, every other byte stands for itself.
pub open spec fn escape_byte(b: u8) -> Seq<u8> {
    if b == 0x5c {
        seq![0x5cu8, 0x5cu8]
    } else if b == 0x22 {
        seq![0x5cu8, 0x22u8]
    } else if b == 0x0d {
        seq![0x5cu8, 0x72u8]
    } else {
        seq![b]
    }
}

/// The path `p` as it is written inside a string literal.
pub open spec fn escaped(p: Seq<u8>) -> Seq<u8>
    decreases p.len(),
{
    if p.len() == 0 {
        Seq::empty()
    } else {
        escaped(p.drop_last()) + escape_byte(p.last())
    }
}

/// What comes before the path in every wrapper program.
pub open spec fn shim_prefix() -> Seq<u8> {
    SHIM_RS.spec_bytes() + EMBED_HEAD.spec_bytes()
}

/// What follows the path in every wrapper program.
pub open spec fn shim_suffix() -> Seq<u8> {
    EMBED_TAIL.spec_bytes()
}

/// The program of the wrapper unit for the helper at `path`.
pub open spec fn shim_source(path: Seq<u8>) -> Seq<u8> {
    shim_prefix() + escaped(path) + shim_suffix()
}

/// Appends `p`, as it is written inside a string literal, to `v`.
fn append_escaped(v: &mut Vec<u8>, p: &[u8])
    ensures
        final(v)@ == old(v)@ + escaped(p@),
{
    let mut i: usize = 0;
    assert(p@.take(0) == Seq::<u8>::empty());
    while i < p.len()
        invariant
            i <= p@.len(),
            v@ == old(v)@ + escaped(p@.take(i as int)),
        decreases p@.len() - i,
    {
        let b = p[i];
        let ghost before = v@;
        assert(p@.take(i + 1).drop_last() == p@.take(i as int));
        if b == 0x5c {
            v.push(0x5c);
            v.push(0x5c);
        } else if b == 0x22 {
            v.push(0x5c);
            v.push(0x22);
        } else if b == 0x0d {
            v.push(0x5c);
            v.push(0x72);
        } else {
            v.push(b);
        }
        assert(v@ =~= before + escape_byte(b));
        assert(v@ =~= old(v)@ + escaped(p@.take(i + 1)));
        i = i + 1;
    }
    assert(p@.take(p@.len() as int) == p@);
}

/// The program of a wrapper unit: the fixed logic, a directive that embeds the bytes of the
/// helper at `build_script_path_as_str` when the unit is compiled, and an entry point.
pub fn main_rs(build_script_path_as_str: &str) -> (r: Vec<u8>)
    ensures
        r@ == shim_source(build_script_path_as_str.spec_bytes()),
{
    let mut source: Vec<u8> = Vec::new();
    append_bytes(&mut source, SHIM_RS.as_bytes());
    append_bytes(&mut source, EMBED_HEAD.as_bytes());
    append_escaped(&mut source, build_script_path_as_str.as_bytes());
    append_bytes(&mut source, EMBED_TAIL.as_bytes());
    assert(source@ =~= shim_source(build_script_path_as_str.spec_bytes()));
    source
}

/// The two files of a wrapper unit: its manifest and its program.
#[derive(Debug, Clone)]
pub struct WrapperUnit {
    pub manifest: Vec<u8>,
    pub main_rs: Vec<u8>,
}

/// `u` is the wrapper unit for the helper at `path`.
pub open spec fn unit_for(path: Seq<u8>, u: WrapperUnit) -> bool {
    u.manifest@ == CARGO_TOML.spec_bytes() && u.main_rs@ == shim_source(path)
}

/// The files of the wrapper unit for the helper at `build_script_path` (the bytes of an OS
/// string), which must be valid UTF-8. Writing them to a fresh directory is left to the caller.
pub fn wrapper_unit(build_script_path: &[u8]) -> (r: Result<WrapperUnit, WrapError>)
    ensures
        r is Ok <==> valid_utf8(build_script_path@),
        r matches Ok(u) ==> unit_for(build_script_path@, u),
        r matches Err(e) ==> e == WrapError::InvalidPath,
{
    let path = build_script_path.to_utf8()?;
    let mut manifest: Vec<u8> = Vec::new();
    append_bytes(&mut manifest, CARGO_TOML.as_bytes());
    assert(manifest@ =~= CARGO_TOML.spec_bytes());
    Ok(WrapperUnit { manifest, main_rs: main_rs(path) })
}

/// Two wrapper units differ only in the path of the helper they embed: their manifests are the
/// same, their programs share what comes before and after the path, and units for the same path
/// are the same.
pub proof fn lemma_units_differ_only_in_path(
    p: Seq<u8>,
    q: Seq<u8>,
    u: WrapperUnit,
    v: WrapperUnit,
)
    requires
        unit_for(p, u),
        unit_for(q, v),
    ensures
        u.manifest@ == v.manifest@,
        u.main_rs@ == shim_prefix() + escaped(p) + shim_suffix(),
        v.main_rs@ == shim_prefix() + escaped(q) + shim_suffix(),
        p == q ==> u.main_rs@ == v.main_rs@,
{
}

} // verus!

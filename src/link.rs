use vstd::prelude::*;
use vstd::string::StringSliceAdditionalSpecFns;

use crate::model::{append_bytes, byte_views};

verus! {

/// The linker that does the actual linking.
pub const DEFAULT_LD: &'static str = "cc";

/// How the file name of a build helper begins, as the toolchain links it.
pub const BUILD_SCRIPT_PREFIX: &'static str = "build_script_build-";

/// The output path of a linker invocation: the argument that follows the last `-o`.
pub open spec fn output_path_of(args: Seq<Seq<u8>>) -> Option<Seq<u8>>
    decreases args.len(),
{
    if args.len() < 2 {
        None
    } else if args[args.len() - 2] == "-o".spec_bytes() {
        Some(args.last())
    } else {
        output_path_of(args.drop_last())
    }
}

/// The last component of `p`: what follows its last `/`.
pub open spec fn file_name(p: Seq<u8>) -> Seq<u8>
    decreases p.len(),
{
    if p.len() == 0 {
        p
    } else if p.last() == 0x2f {
        Seq::empty()
    } else {
        file_name(p.drop_last()).push(p.last())
    }
}

/// A path names a build helper when its file name begins with the helper prefix.
pub open spec fn names_build_script(p: Seq<u8>) -> bool {
    let f = file_name(p);
    let pre = BUILD_SCRIPT_PREFIX.spec_bytes();
    f.len() >= pre.len() && f.take(pre.len() as int) == pre
}

fn bytes_equal(a: &[u8], b: &[u8]) -> (r: bool)
    ensures
        r == (a@ == b@),
{
    if a.len() != b.len() {
        return false;
    }
    let mut i: usize = 0;
    while i < a.len()
        invariant
            a@.len() == b@.len(),
            i <= a@.len(),
            a@.take(i as int) == b@.take(i as int),
        decreases a@.len() - i,
    {
        if a[i] != b[i] {
            return false;
        }
        i = i + 1;
        assert(a@.take(i as int) == a@.take(i - 1).push(a@[i - 1]));
        assert(b@.take(i as int) == b@.take(i - 1).push(b@[i - 1]));
    }
    assert(a@.take(a@.len() as int) == a@);
    assert(b@.take(b@.len() as int) == b@);
    true
}

/// The output path of the linker invocation whose arguments are `args`.
pub fn output_path(args: &Vec<Vec<u8>>) -> (r: Option<&Vec<u8>>)
    ensures
        match r {
            Some(p) => output_path_of(byte_views(args@)) == Some(p@),
            None => output_path_of(byte_views(args@)) is None,
        },
{
    let flag = "-o".as_bytes();
    let mut n: usize = args.len();
    assert(byte_views(args@).take(n as int) == byte_views(args@));
    while n >= 2
        invariant
            n <= args@.len(),
            flag@ == "-o".spec_bytes(),
            output_path_of(byte_views(args@)) == output_path_of(byte_views(args@).take(n as int)),
        decreases n,
    {
        let ghost t = byte_views(args@).take(n as int);
        assert(t.drop_last() == byte_views(args@).take(n - 1));
        if bytes_equal(args[n - 2].as_slice(), flag) {
            return Some(&args[n - 1]);
        }
        n = n - 1;
    }
    None
}

/// The last component of `p`.
fn file_name_start(p: &[u8]) -> (r: usize)
    ensures
        r <= p@.len(),
        file_name(p@) == p@.subrange(r as int, p@.len() as int),
{
    let mut i: usize = p.len();
    assert(p@.take(i as int) == p@);
    assert(p@.subrange(i as int, i as int) == Seq::<u8>::empty());
    while i > 0 && p[i - 1] != 0x2f
        invariant
            i <= p@.len(),
            forall|k: int| i <= k < p@.len() ==> p@[k] != 0x2f,
            file_name(p@) == file_name(p@.take(i as int)) + p@.subrange(i as int, p@.len() as int),
        decreases i,
    {
        let ghost t = p@.take(i as int);
        assert(t.drop_last() == p@.take(i - 1));
        assert(p@.subrange(i - 1, p@.len() as int) == seq![t.last()] + p@.subrange(
            i as int,
            p@.len() as int,
        ));
        i = i - 1;
    }
    if i > 0 {
        let ghost t = p@.take(i as int);
        assert(t.last() == 0x2f);
    } else {
        assert(p@.take(0) == Seq::<u8>::empty());
    }
    i
}

/// Whether `path` names a build helper: its file name begins with the helper prefix.
pub fn is_build_script(path: &[u8]) -> (r: bool)
    ensures
        r == names_build_script(path@),
{
    let start = file_name_start(path);
    let pre = BUILD_SCRIPT_PREFIX.as_bytes();
    if path.len() - start < pre.len() {
        return false;
    }
    let mut i: usize = 0;
    while i < pre.len()
        invariant
            start + pre@.len() <= path@.len(),
            path@.len() <= usize::MAX,
            file_name(path@) == path@.subrange(start as int, path@.len() as int),
            pre@ == BUILD_SCRIPT_PREFIX.spec_bytes(),
            i <= pre@.len(),
            forall|k: int| 0 <= k < i ==> path@[start + k] == pre@[k],
        decreases pre@.len() - i,
    {
        if path[start + i] != pre[i] {
            assert(file_name(path@).take(pre@.len() as int)[i as int] != pre@[i as int]);
            return false;
        }
        i = i + 1;
    }
    assert(file_name(path@).take(pre@.len() as int) =~= pre@);
    true
}

/// What a linker substitute does with one invocation.
#[derive(Debug, Clone)]
pub enum LinkPlan {
    /// Link as asked, and nothing more.
    Direct,
    /// Link as asked, then wrap the build helper linked at this path.
    Wrap(Vec<u8>),
}

/// Decides, from the arguments of a linker invocation, whether what it links is a build helper
/// to wrap: one whose output path names a build helper.
pub fn link_plan(args: &Vec<Vec<u8>>) -> (r: LinkPlan)
    ensures
        match output_path_of(byte_views(args@)) {
            Some(p) => if names_build_script(p) {
                r matches LinkPlan::Wrap(q) && q@ == p
            } else {
                r is Direct
            },
            None => r is Direct,
        },
{
    match output_path(args) {
        Some(p) => {
            if is_build_script(p.as_slice()) {
                let mut q: Vec<u8> = Vec::new();
                append_bytes(&mut q, p.as_slice());
                LinkPlan::Wrap(q)
            } else {
                LinkPlan::Direct
            }
        },
        None => LinkPlan::Direct,
    }
}

} // verus!

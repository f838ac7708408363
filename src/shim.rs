//! How the program in a wrapper unit forms the command that runs its unpacked helper: the words
//! of the configured command line, then the helper's path.

use vstd::prelude::*;

use crate::model::{byte_views, CommandSpec, WrapError};

verus! {

/// White space as `u8::is_ascii_whitespace` has it: space, tab, line feed, form feed and
/// carriage return.
pub open spec fn is_ascii_space(b: u8) -> bool {
    b == 0x20 || b == 0x09 || b == 0x0a || b == 0x0c || b == 0x0d
}

/// The words of `s`, in order: its longest runs of bytes that are not ASCII white space. Each
/// byte that is not white space either starts a word (at the start, or after white space) or
/// extends the last one.
pub open spec fn ascii_words(s: Seq<u8>) -> Seq<Seq<u8>>
    decreases s.len(),
{
    if s.len() == 0 {
        Seq::empty()
    } else {
        let w = ascii_words(s.drop_last());
        let b = s.last();
        if is_ascii_space(b) {
            w
        } else if s.len() >= 2 && !is_ascii_space(s[s.len() - 2]) {
            w.drop_last().push(w.last().push(b))
        } else {
            w.push(seq![b])
        }
    }
}

/// Splits `s` into its words, at ASCII white space.
pub fn split_ascii_words(s: &[u8]) -> (r: Vec<Vec<u8>>)
    ensures
        byte_views(r@) == ascii_words(s@),
{
    let mut words: Vec<Vec<u8>> = Vec::new();
    let mut current: Vec<u8> = Vec::new();
    let mut i: usize = 0;
    assert(s@.take(0) == Seq::<u8>::empty());
    while i < s.len()
        invariant
            i <= s@.len(),
            current@.len() > 0 <==> (i > 0 && !is_ascii_space(s@[i - 1])),
            (if current@.len() > 0 {
                byte_views(words@).push(current@)
            } else {
                byte_views(words@)
            }) == ascii_words(s@.take(i as int)),
        decreases s@.len() - i,
    {
        let b = s[i];
        let ghost prefix = s@.take(i + 1);
        assert(prefix.drop_last() == s@.take(i as int));
        assert(prefix.last() == b);
        if b == 0x20 || b == 0x09 || b == 0x0a || b == 0x0c || b == 0x0d {
            if current.len() > 0 {
                let ghost before = words@;
                words.push(current);
                assert(byte_views(words@) =~= byte_views(before).push(current@));
                current = Vec::new();
            }
        } else {
            let ghost before = current@;
            current.push(b);
            proof {
                assert(current@ =~= before.push(b));
                if before.len() == 0 {
                    assert(before.push(b) =~= seq![b]);
                }
                if before.len() > 0 {
                    assert(prefix[prefix.len() - 2] == s@[i - 1]);
                    let w = byte_views(words@).push(before);
                    assert(w.drop_last() =~= byte_views(words@));
                }
            }
        }
        i = i + 1;
    }
    assert(s@.take(s@.len() as int) == s@);
    if current.len() > 0 {
        let ghost before = words@;
        words.push(current);
        assert(byte_views(words@) =~= byte_views(before).push(current@));
    }
    words
}

/// The command that runs an unpacked helper: the words of the configured command, then the
/// path of the unpacked helper.
pub open spec fn shim_command_of(words: Seq<Seq<u8>>, unpacked: Seq<u8>) -> (Seq<u8>, Seq<Seq<u8>>) {
    (words[0], words.subrange(1, words.len() as int).push(unpacked))
}

/// Forms the command that runs an unpacked helper from the configured command line `wrap_cmd`
/// (its words, split at ASCII white space) and the path of the unpacked helper, which comes
/// last.
pub fn shim_command(wrap_cmd: Option<&[u8]>, unpacked: &[u8]) -> (r: Result<CommandSpec, WrapError>)
    ensures
        match wrap_cmd {
            None => r == Err::<CommandSpec, WrapError>(WrapError::MissingConfig),
            Some(c) => if ascii_words(c@).len() == 0 {
                r == Err::<CommandSpec, WrapError>(WrapError::EmptyCommand)
            } else {
                r is Ok && r->Ok_0@ == shim_command_of(ascii_words(c@), unpacked@)
            },
        },
{
    let cmd = match wrap_cmd {
        Some(c) => c,
        None => {
            return Err(WrapError::MissingConfig);
        },
    };
    let mut words = split_ascii_words(cmd);
    if words.len() == 0 {
        return Err(WrapError::EmptyCommand);
    }
    let ghost all = words@;
    let program = words.remove(0);
    assert(words@ =~= all.subrange(1, all.len() as int));
    let mut tail: Vec<u8> = Vec::new();
    crate::model::append_bytes(&mut tail, unpacked);
    let ghost before = words@;
    words.push(tail);
    assert(byte_views(words@) =~= byte_views(before).push(unpacked@));
    assert(byte_views(before) =~= byte_views(all).subrange(1, all.len() as int));
    Ok(CommandSpec { program, args: words })
}

} // verus!

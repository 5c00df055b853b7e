//! The executable token of a command line.

use vstd::prelude::*;
use vstd::std_specs::iter::IteratorSpec;
use vstd::string::StrSliceExecFns;

verus! {

/// The executable name of a command line: the characters before its first
/// space, or the whole line where it holds no space.
pub open spec fn spec_executable_token(command: Seq<char>) -> Seq<char> {
    match command.index_of_first(' ') {
        Some(end) => command.take(end),
        None => command,
    }
}

/// `token` is the prefix of `command` that ends just before the first space.
pub open spec fn is_executable_token(token: Seq<char>, command: Seq<char>) -> bool {
    &&& token.len() <= command.len()
    &&& token == command.take(token.len() as int)
    &&& !token.contains(' ')
    &&& token.len() < command.len() ==> command[token.len() as int] == ' '
}

/// The executable token is the one prefix of the command that holds no space
/// and is followed by a space or by the end of the command.
pub proof fn lemma_executable_token_unique(token: Seq<char>, command: Seq<char>)
    ensures
        is_executable_token(token, command) <==> token == spec_executable_token(command),
{
    command.index_of_first_ensures(' ');
    let expected = spec_executable_token(command);
    assert(is_executable_token(expected, command)) by {
        match command.index_of_first(' ') {
            Some(end) => {
                assert(expected == command.take(expected.len() as int));
                assert forall|i: int| 0 <= i < expected.len() implies expected[i] != ' ' by {
                    assert(expected[i] == command[i]);
                }
            },
            None => {
                assert(expected == command.take(expected.len() as int));
            },
        }
    }
    if is_executable_token(token, command) {
        assert(token.len() == expected.len()) by {
            if token.len() < expected.len() {
                assert(expected[token.len() as int] == command[token.len() as int]);
                assert(expected.contains(' '));
            } else if expected.len() < token.len() {
                assert(token[expected.len() as int] == command[expected.len() as int]);
                assert(token.contains(' '));
            }
        }
    }
}

/// Splits the executable name off a command line.
pub fn executable_token(command: &str) -> (token: &str)
    ensures
        token@ == spec_executable_token(command@),
        is_executable_token(token@, command@),
{
    let len = command.unicode_len();
    let mut rest = command.chars();
    let mut end: usize = 0;
    loop
        invariant_except_break
            rest.obeys_prophetic_iter_laws(),
            rest.remaining() == command@.skip(end as int),
        invariant
            end <= len,
            len == command@.len(),
            forall|i: int| 0 <= i < end ==> command@[i] != ' ',
        ensures
            end < len ==> command@[end as int] == ' ',
        decreases len - end,
    {
        match rest.next() {
            Some(c) => {
                assert(c == command@[end as int]);
                if c == ' ' {
                    break ;
                }
                assert(command@.skip(end as int).drop_first() == command@.skip(end + 1));
                end += 1;
            },
            None => {
                break ;
            },
        }
    }
    let token = command.substring_char(0, end);
    proof {
        assert(token@ == command@.take(end as int));
        assert forall|i: int| 0 <= i < token@.len() implies token@[i] != ' ' by {
            assert(token@[i] == command@[i]);
        }
        lemma_executable_token_unique(token@, command@);
    }
    token
}

} // verus!

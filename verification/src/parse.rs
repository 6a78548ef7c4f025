//! Turning a submitted line of text into a [`Command`].
//!
//! The front end hands over each line the user submits. An empty line is
//! rejected; any other line is cut at every single space character, and
//! the pieces — kept verbatim, so two spaces in a row yield an empty
//! piece — form the command's URL set.

use vstd::prelude::*;
use vstd::string::*;

use crate::messages::{views_of, Command};

verus! {

/// The pieces of `s`, cut at every space: one more piece than there are
/// spaces, each piece the text between two neighbouring cuts, possibly
/// empty.
pub open spec fn split_on_space(s: Seq<char>) -> Seq<Seq<char>>
    decreases s.len(),
{
    if s.len() == 0 {
        seq![Seq::<char>::empty()]
    } else if s.last() == ' ' {
        split_on_space(s.drop_last()).push(Seq::<char>::empty())
    } else {
        let parts = split_on_space(s.drop_last());
        parts.update(parts.len() - 1, parts.last().push(s.last()))
    }
}

/// Splitting always yields at least one piece.
pub proof fn lemma_split_nonempty(s: Seq<char>)
    ensures
        split_on_space(s).len() >= 1,
    decreases s.len(),
{
    if s.len() > 0 {
        lemma_split_nonempty(s.drop_last());
    }
}

/// Cuts the line at every space, keeping each piece verbatim.
fn split_tokens(line: &str) -> (tokens: Vec<String>)
    ensures
        views_of(tokens@) == split_on_space(line@),
{
    let len = line.unicode_len();
    let mut tokens: Vec<String> = Vec::new();
    let mut start: usize = 0;
    let mut i: usize = 0;
    while i < len
        invariant
            i <= len,
            start <= i,
            len == line@.len(),
            split_on_space(line@.take(i as int)).len() >= 1,
            views_of(tokens@) =~= split_on_space(line@.take(i as int)).drop_last(),
            line@.subrange(start as int, i as int) =~= split_on_space(
                line@.take(i as int),
            ).last(),
        decreases len - i,
    {
        let ghost parts = split_on_space(line@.take(i as int));
        proof {
            assert(line@.take(i + 1).drop_last() =~= line@.take(i as int));
            assert(line@.take(i + 1).last() == line@[i as int]);
            lemma_split_nonempty(line@.take(i + 1));
        }
        let c = line.get_char(i);
        if c == ' ' {
            let token = line.substring_char(start, i).to_owned();
            let ghost prev = tokens@;
            tokens.push(token);
            start = i + 1;
            proof {
                assert(token@ =~= parts.last());
                assert(views_of(tokens@) =~= views_of(prev).push(parts.last()));
                assert(views_of(prev).push(parts.last()) =~= parts);
                assert(split_on_space(line@.take(i + 1)) =~= parts.push(Seq::<char>::empty()));
                assert(views_of(tokens@) =~= split_on_space(line@.take(i + 1)).drop_last());
                assert(line@.subrange(i + 1, i + 1) =~= split_on_space(line@.take(i + 1)).last());
            }
        } else {
            proof {
                let extended = parts.update(parts.len() - 1, parts.last().push(line@[i as int]));
                assert(split_on_space(line@.take(i + 1)) =~= extended);
                assert(extended.drop_last() =~= parts.drop_last());
                assert(line@.subrange(start as int, i + 1) =~= line@.subrange(
                    start as int,
                    i as int,
                ).push(line@[i as int]));
            }
        }
        i = i + 1;
    }
    proof {
        assert(line@.take(len as int) =~= line@);
        lemma_split_nonempty(line@);
    }
    let last = line.substring_char(start, len).to_owned();
    let ghost prev = tokens@;
    tokens.push(last);
    proof {
        assert(last@ =~= split_on_space(line@).last());
        assert(views_of(tokens@) =~= views_of(prev).push(split_on_space(line@).last()));
        assert(views_of(prev) =~= split_on_space(line@).drop_last());
        assert(views_of(tokens@) =~= split_on_space(line@));
    }
    tokens
}

/// Parses one submitted line.
///
/// An empty line carries no command and is rejected. Any other line is
/// cut at every space and its pieces, duplicates collapsed, become the
/// URL set of the command.
pub fn parse_command(line: &str) -> (cmd: Option<Command>)
    ensures
        (cmd is None) <==> line@.len() == 0,
        cmd matches Some(c) ==> c.wf() && c.url_set() == split_on_space(line@).to_set(),
{
    if line.unicode_len() == 0 {
        None
    } else {
        let tokens = split_tokens(line);
        Some(Command::new(tokens))
    }
}

/// The words on which the front end quits instead of submitting a command.
pub fn create_quit_commands() -> (words: Vec<&'static str>)
    ensures
        views_of_str(words@) =~= seq![seq!['q'], seq!['q', 'u', 'i', 't']],
{
    let mut words: Vec<&'static str> = Vec::new();
    words.push("q");
    words.push("quit");
    proof {
        reveal_strlit("q");
        reveal_strlit("quit");
        assert(words@[0]@ =~= seq!['q']);
        assert(words@[1]@ =~= seq!['q', 'u', 'i', 't']);
    }
    words
}

/// The character views of a sequence of borrowed strings.
pub open spec fn views_of_str(words: Seq<&'static str>) -> Seq<Seq<char>> {
    words.map_values(|w: &'static str| w@)
}

} // verus!

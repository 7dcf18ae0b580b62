//! The command line of the client: a command word, then its arguments,
//! separated by single spaces.
use vstd::prelude::*;

use crate::utils::text::{str_chars, string_push};

verus! {

/// The commands of the client.
#[derive(PartialEq, Eq, Structural, Debug, Clone, Copy)]
pub enum Command {
    Help,
    Quit,
    SetAddr,
    Empty,
    Connect,
}

/// The text up to the first space, or all of it when it has none.
pub open spec fn spec_first_token(s: Seq<char>) -> Seq<char>
    decreases s.len(),
{
    if s.len() == 0 {
        s
    } else if s[0] == ' ' {
        Seq::empty()
    } else {
        seq![s[0]] + spec_first_token(s.drop_first())
    }
}

/// The text after the first space, or `None` when it has none.
pub open spec fn spec_after_first_space(s: Seq<char>) -> Option<Seq<char>>
    decreases s.len(),
{
    if s.len() == 0 {
        None
    } else if s[0] == ' ' {
        Some(s.drop_first())
    } else {
        spec_after_first_space(s.drop_first())
    }
}

/// The command a word names: `q`, `quit` or `exit`; `.`, `?`, `h` or `help`;
/// `a`, `setaddr` or `addr`; `c`, `connect` or `conn`; or nothing at all.
pub open spec fn spec_command_of(word: Seq<char>) -> Option<Command> {
    if word == "q"@ || word == "quit"@ || word == "exit"@ {
        Some(Command::Quit)
    } else if word == "."@ || word == "?"@ || word == "h"@ || word == "help"@ {
        Some(Command::Help)
    } else if word == "a"@ || word == "setaddr"@ || word == "addr"@ {
        Some(Command::SetAddr)
    } else if word == "c"@ || word == "connect"@ || word == "conn"@ {
        Some(Command::Connect)
    } else if word.len() == 0 {
        Some(Command::Empty)
    } else {
        None
    }
}

/// The text of `chars` up to the first space at or after `from`.
fn token_from(chars: &Vec<char>, from: usize) -> (t: String)
    requires
        from <= chars@.len(),
    ensures
        t@ == spec_first_token(chars@.skip(from as int)),
    decreases chars@.len() - from,
{
    if from == chars.len() {
        assert(chars@.skip(from as int) =~= Seq::<char>::empty());
        return String::new();
    }
    if chars[from] == ' ' {
        return String::new();
    }
    let rest = token_from(chars, from + 1);
    let mut t = String::new();
    string_push(&mut t, chars[from]);
    let mut s = t;
    let rest_chars = str_chars(rest.as_str());
    let mut i: usize = 0;
    while i < rest_chars.len()
        invariant
            i <= rest_chars@.len(),
            rest_chars@ == rest@,
            s@ == seq![chars@[from as int]] + rest_chars@.take(i as int),
        decreases rest_chars.len() - i,
    {
        string_push(&mut s, rest_chars[i]);
        i = i + 1;
        assert(s@ =~= seq![chars@[from as int]] + rest_chars@.take(i as int));
    }
    assert(rest_chars@.take(rest_chars@.len() as int) =~= rest_chars@);
    assert(chars@.skip(from as int).drop_first() =~= chars@.skip(from + 1));
    s
}

/// The command of a line, named by its first word; a line whose first word
/// names no command is returned as the error.
pub fn parse_line(line: &str) -> (r: Result<Command, String>)
    ensures
        match spec_command_of(spec_first_token(line@)) {
            Some(c) => r == Ok::<Command, String>(c),
            None => r matches Err(s) && s@ == line@,
        },
{
    let chars = str_chars(line);
    let word = token_from(&chars, 0);
    assert(chars@.skip(0) =~= chars@);
    proof {
        reveal_strlit("q");
        reveal_strlit("quit");
        reveal_strlit("exit");
        reveal_strlit(".");
        reveal_strlit("?");
        reveal_strlit("h");
        reveal_strlit("help");
        reveal_strlit("a");
        reveal_strlit("setaddr");
        reveal_strlit("addr");
        reveal_strlit("c");
        reveal_strlit("connect");
        reveal_strlit("conn");
    }
    if word == "q".to_owned() || word == "quit".to_owned() || word == "exit".to_owned() {
        Ok(Command::Quit)
    } else if word == ".".to_owned() || word == "?".to_owned() || word == "h".to_owned() || word
        == "help".to_owned() {
        Ok(Command::Help)
    } else if word == "a".to_owned() || word == "setaddr".to_owned() || word == "addr".to_owned() {
        Ok(Command::SetAddr)
    } else if word == "c".to_owned() || word == "connect".to_owned() || word == "conn".to_owned() {
        Ok(Command::Connect)
    } else if str_chars(word.as_str()).len() == 0 {
        Ok(Command::Empty)
    } else {
        Err(line.to_owned())
    }
}

/// The address argument of a `setaddr` line: its second word, or `None`
/// when the line has a single word.
pub fn set_addr_argument(line: &str) -> (r: Option<String>)
    ensures
        match spec_after_first_space(line@) {
            None => r is None,
            Some(rest) => r matches Some(a) && a@ == spec_first_token(rest),
        },
{
    let chars = str_chars(line);
    let mut i: usize = 0;
    assert(chars@.skip(0) =~= chars@);
    while i < chars.len()
        invariant
            i <= chars@.len(),
            chars@ == line@,
            forall|k: int| 0 <= k < i ==> chars@[k] != ' ',
            spec_after_first_space(chars@) == spec_after_first_space(chars@.skip(i as int)),
        decreases chars.len() - i,
    {
        if chars[i] == ' ' {
            assert(spec_after_first_space(chars@.skip(i as int)) == Some(chars@.skip(i + 1))) by {
                assert(chars@.skip(i as int).drop_first() =~= chars@.skip(i + 1));
            }
            return Some(token_from(&chars, i + 1));
        }
        assert(chars@.skip(i as int).drop_first() =~= chars@.skip(i + 1));
        i = i + 1;
    }
    assert(chars@.skip(i as int) =~= Seq::<char>::empty());
    None
}

/// A line made of `word`, then, when `rest` is `Some`, a space and the rest.
pub open spec fn spec_line_of(word: Seq<char>, rest: Option<Seq<char>>) -> Seq<char> {
    match rest {
        None => word,
        Some(r) => word + seq![' '] + r,
    }
}

/// The first word of a line that starts with a word free of spaces is that
/// word.
proof fn lemma_first_word(word: Seq<char>, rest: Option<Seq<char>>)
    requires
        forall|i: int| 0 <= i < word.len() ==> #[trigger] word[i] != ' ',
    ensures
        spec_first_token(spec_line_of(word, rest)) == word,
    decreases word.len(),
{
    let line = spec_line_of(word, rest);
    if word.len() == 0 {
        match rest {
            None => {},
            Some(r) => {
                assert(line[0] == ' ');
            },
        }
    } else {
        lemma_first_word(word.drop_first(), rest);
        assert(line.drop_first() =~= spec_line_of(word.drop_first(), rest));
        assert(line[0] == word[0]);
        assert(seq![word[0]] + word.drop_first() =~= word);
    }
}

/// The words of the client, whatever follows them on the line: `q`, `quit`
/// and `exit` quit; `.`, `?`, `h` and `help` ask for help; `a`, `setaddr` and
/// `addr` set the node's address; `c`, `connect` and `conn` connect; and an
/// empty line is empty.
pub proof fn lemma_command_words(rest: Option<Seq<char>>)
    ensures
        spec_command_of(spec_first_token(spec_line_of("q"@, rest))) == Some(Command::Quit),
        spec_command_of(spec_first_token(spec_line_of("quit"@, rest))) == Some(Command::Quit),
        spec_command_of(spec_first_token(spec_line_of("exit"@, rest))) == Some(Command::Quit),
        spec_command_of(spec_first_token(spec_line_of("."@, rest))) == Some(Command::Help),
        spec_command_of(spec_first_token(spec_line_of("?"@, rest))) == Some(Command::Help),
        spec_command_of(spec_first_token(spec_line_of("h"@, rest))) == Some(Command::Help),
        spec_command_of(spec_first_token(spec_line_of("help"@, rest))) == Some(Command::Help),
        spec_command_of(spec_first_token(spec_line_of("a"@, rest))) == Some(Command::SetAddr),
        spec_command_of(spec_first_token(spec_line_of("setaddr"@, rest))) == Some(Command::SetAddr),
        spec_command_of(spec_first_token(spec_line_of("addr"@, rest))) == Some(Command::SetAddr),
        spec_command_of(spec_first_token(spec_line_of("c"@, rest))) == Some(Command::Connect),
        spec_command_of(spec_first_token(spec_line_of("connect"@, rest))) == Some(Command::Connect),
        spec_command_of(spec_first_token(spec_line_of("conn"@, rest))) == Some(Command::Connect),
        spec_command_of(spec_first_token(spec_line_of(Seq::empty(), rest))) == Some(Command::Empty),
{
    reveal_strlit("exit");
    reveal_strlit("quit");
    reveal_strlit("q");
    reveal_strlit("help");
    reveal_strlit("h");
    reveal_strlit("?");
    reveal_strlit(".");
    reveal_strlit("addr");
    reveal_strlit("setaddr");
    reveal_strlit("a");
    reveal_strlit("conn");
    reveal_strlit("connect");
    reveal_strlit("c");
    lemma_first_word("q"@, rest);
    lemma_first_word("quit"@, rest);
    lemma_first_word("exit"@, rest);
    lemma_first_word("."@, rest);
    lemma_first_word("?"@, rest);
    lemma_first_word("h"@, rest);
    lemma_first_word("help"@, rest);
    lemma_first_word("a"@, rest);
    lemma_first_word("setaddr"@, rest);
    lemma_first_word("addr"@, rest);
    lemma_first_word("c"@, rest);
    lemma_first_word("connect"@, rest);
    lemma_first_word("conn"@, rest);
    lemma_first_word(Seq::empty(), rest);
}

} // verus!

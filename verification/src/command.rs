//! The command line of the input box.
//!
//! A line is a word and, behind the first space, an argument. The word
//! names the command; a line with another word is no command.

use vstd::prelude::*;

verus! {

#[derive(Debug)]
pub enum Command {
    /// Unknown Command
    Unknown,
    /// Search the streaming service for the provided query
    Search(String),
    /// Play the first track that the streaming service finds for the provided query
    Play(String),
    /// Get the songs saved in the user's library
    Library,
    /// Pause, or go on playing if paused
    Pause,
    /// Search the video site for the provided query
    YTSearch(String),
}

/// The mathematical value of a [`Command`].
pub enum CommandView {
    Unknown,
    Search(Seq<char>),
    Play(Seq<char>),
    Library,
    Pause,
    YTSearch(Seq<char>),
}

impl View for Command {
    type V = CommandView;

    open spec fn view(&self) -> CommandView {
        match self {
            Command::Unknown => CommandView::Unknown,
            Command::Search(query) => CommandView::Search(query@),
            Command::Play(query) => CommandView::Play(query@),
            Command::Library => CommandView::Library,
            Command::Pause => CommandView::Pause,
            Command::YTSearch(query) => CommandView::YTSearch(query@),
        }
    }
}

/// Whether the first space of `line` stands at `at`.
pub open spec fn is_first_space(line: Seq<char>, at: int) -> bool {
    &&& 0 <= at < line.len()
    &&& line[at] == ' '
    &&& forall|before: int| 0 <= before < at ==> line[before] != ' '
}

/// The word of a line: what stands before its first space, or all of it.
pub open spec fn word_of(line: Seq<char>) -> Seq<char> {
    if exists|at: int| is_first_space(line, at) {
        line.take(choose|at: int| is_first_space(line, at))
    } else {
        line
    }
}

/// The argument of a line: what stands behind its first space, or nothing.
pub open spec fn argument_of(line: Seq<char>) -> Seq<char> {
    if exists|at: int| is_first_space(line, at) {
        line.skip((choose|at: int| is_first_space(line, at)) + 1)
    } else {
        Seq::empty()
    }
}

/// The command that a word and an argument make.
pub open spec fn command_of(word: Seq<char>, argument: Seq<char>) -> CommandView {
    if word == "search"@ {
        CommandView::Search(argument)
    } else if word == "play"@ {
        CommandView::Play(argument)
    } else if word == "library"@ {
        CommandView::Library
    } else if word == "pause"@ {
        CommandView::Pause
    } else if word == "ytsearch"@ {
        CommandView::YTSearch(argument)
    } else {
        CommandView::Unknown
    }
}

/// The command that a line stands for.
pub open spec fn parsed(line: Seq<char>) -> CommandView {
    command_of(word_of(line), argument_of(line))
}

/// Whether two texts hold the same characters.
fn same_text(a: &str, b: &str) -> (same: bool)
    ensures
        same == (a@ == b@),
{
    let left = String::from_str(a);
    let right = String::from_str(b);
    left == right
}

/// The position of the first space of `line`, or its length where it has
/// none.
fn first_space(line: &str) -> (at: usize)
    ensures
        at <= line@.len(),
        at < line@.len() ==> is_first_space(line@, at as int),
        at == line@.len() ==> forall|any: int| !is_first_space(line@, any),
{
    let length = line.unicode_len();
    let mut at: usize = 0;
    while at < length
        invariant
            at <= length,
            length == line@.len(),
            forall|before: int| 0 <= before < at ==> line@[before] != ' ',
        decreases length - at,
    {
        if line.get_char(at) == ' ' {
            return at;
        }
        at += 1;
    }
    at
}

impl Command {
    /// Reads a command line.
    pub fn parse(line: &str) -> (command: Command)
        ensures
            command@ == parsed(line@),
    {
        let length = line.unicode_len();
        let at = first_space(line);
        let word = line.substring_char(0, at);
        let argument = if at < length {
            line.substring_char(at + 1, length)
        } else {
            line.substring_char(length, length)
        };
        proof {
            if at < length {
                let chosen = choose|c: int| is_first_space(line@, c);
                assert(is_first_space(line@, at as int));
                assert(chosen == at);
            } else {
                assert(word@ =~= line@);
            }
            assert(word@ =~= word_of(line@));
            assert(argument@ =~= argument_of(line@));
        }
        if same_text(word, "search") {
            Command::Search(String::from_str(argument))
        } else if same_text(word, "play") {
            Command::Play(String::from_str(argument))
        } else if same_text(word, "library") {
            Command::Library
        } else if same_text(word, "pause") {
            Command::Pause
        } else if same_text(word, "ytsearch") {
            Command::YTSearch(String::from_str(argument))
        } else {
            Command::Unknown
        }
    }
}

} // verus!

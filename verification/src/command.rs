//! What a typed line asks for.
//!
//! A line is cut into words at every single space, after the white space at
//! its end is taken off. The first word names the command; the others are
//! what it works on, and there have to be exactly as many as it needs.

use crate::input::{
    answer, parse, parse_index, parse_index_spec, parse_spec, trimmed,
};
use crate::items::same_text;
use crate::market::texts;
use vstd::prelude::*;

verus! {

/// What a line asks for.
#[derive(Clone, Debug, PartialEq, Eq)]
pub enum Command {
    /// `l`: list the items.
    List,
    /// `h`: show the help.
    Help,
    /// `a <kind>`: add an item of the kind with that tag.
    Add(String),
    /// `cp <index> <price>`: set the price of the item at that place.
    ChangePrice(usize, i32),
    /// `d <index>`: take the item at that place out.
    Remove(usize),
    /// `s`: store the registry.
    Save,
    /// A known command with too few or too many words behind it. Nothing
    /// is to be done and nothing to be said.
    Skip,
    /// A known command with a word behind it that is no number.
    BadFormat,
    /// No command that there is.
    Unknown,
}

/// What a line asks for, by the texts it holds.
pub enum CommandView {
    List,
    Help,
    Add(Seq<char>),
    ChangePrice(usize, i32),
    Remove(usize),
    Save,
    Skip,
    BadFormat,
    Unknown,
}

impl View for Command {
    type V = CommandView;

    open spec fn view(&self) -> CommandView {
        match self {
            Command::List => CommandView::List,
            Command::Help => CommandView::Help,
            Command::Add(kind) => CommandView::Add(kind@),
            Command::ChangePrice(index, price) => CommandView::ChangePrice(*index, *price),
            Command::Remove(index) => CommandView::Remove(*index),
            Command::Save => CommandView::Save,
            Command::Skip => CommandView::Skip,
            Command::BadFormat => CommandView::BadFormat,
            Command::Unknown => CommandView::Unknown,
        }
    }
}

/// The words of a text: what stands between its spaces. There is always
/// one word at least, and between two spaces side by side an empty one.
pub open spec fn words(s: Seq<char>) -> Seq<Seq<char>>
    decreases s.len(),
{
    if s.len() == 0 {
        seq![Seq::empty()]
    } else {
        let before = words(s.drop_last());
        if s.last() == ' ' {
            before.push(Seq::empty())
        } else {
            before.update(before.len() - 1, before.last().push(s.last()))
        }
    }
}

/// What the words of a line ask for.
pub open spec fn command_of(words: Seq<Seq<char>>) -> CommandView {
    if words.len() == 0 {
        CommandView::Unknown
    } else if words[0] == "l"@ {
        CommandView::List
    } else if words[0] == "h"@ {
        CommandView::Help
    } else if words[0] == "a"@ {
        if words.len() == 2 {
            CommandView::Add(words[1])
        } else {
            CommandView::Skip
        }
    } else if words[0] == "cp"@ {
        if words.len() == 3 {
            match (parse_index_spec(words[1]), parse_spec(words[2])) {
                (Some(index), Some(price)) => CommandView::ChangePrice(index, price),
                _ => CommandView::BadFormat,
            }
        } else {
            CommandView::Skip
        }
    } else if words[0] == "d"@ {
        if words.len() == 2 {
            match parse_index_spec(words[1]) {
                Some(index) => CommandView::Remove(index),
                None => CommandView::BadFormat,
            }
        } else {
            CommandView::Skip
        }
    } else if words[0] == "s"@ {
        CommandView::Save
    } else {
        CommandView::Unknown
    }
}

/// A text has one word at least.
pub proof fn lemma_words_some(s: Seq<char>)
    ensures
        words(s).len() >= 1,
    decreases s.len(),
{
    if s.len() > 0 {
        lemma_words_some(s.drop_last());
    }
}

/// Words put together again, with a space between one and the next.
pub open spec fn joined(words: Seq<Seq<char>>) -> Seq<char>
    decreases words.len(),
{
    if words.len() == 0 {
        Seq::empty()
    } else if words.len() == 1 {
        words[0]
    } else {
        joined(words.drop_last()).push(' ') + words.last()
    }
}

/// The words of a text are the text cut at its spaces: none of them holds
/// a space, and put together again they are the text.
pub proof fn lemma_words_cut_at_spaces(s: Seq<char>)
    ensures
        forall|i: int, j: int|
            0 <= i < words(s).len() && 0 <= j < words(s)[i].len() ==> words(s)[i][j] != ' ',
        joined(words(s)) == s,
    decreases s.len(),
{
    if s.len() > 0 {
        let front = s.drop_last();
        let before = words(front);
        lemma_words_cut_at_spaces(front);
        lemma_words_some(front);
        if s.last() == ' ' {
            let after = before.push(Seq::<char>::empty());
            assert(after.drop_last() =~= before);
        } else {
            let after = before.update(before.len() - 1, before.last().push(s.last()));
            assert(after.drop_last() =~= before.drop_last());
            assert(joined(after) =~= joined(before).push(s.last()));
        }
    }
}

/// Cuts a text into its words.
pub fn split_words(text: &str) -> (parts: Vec<String>)
    ensures
        texts(parts@) == words(text@),
{
    let end = text.unicode_len();
    let mut parts: Vec<String> = Vec::new();
    let mut start: usize = 0;
    let mut at: usize = 0;
    while at < end
        invariant
            start <= at <= end,
            end == text@.len(),
            texts(parts@) == words(text@.take(at as int)).drop_last(),
            words(text@.take(at as int)).last() == text@.subrange(start as int, at as int),
        decreases end - at,
    {
        let ghost before = words(text@.take(at as int));
        proof {
            lemma_words_some(text@.take(at as int));
            assert(text@.take(at + 1).drop_last() =~= text@.take(at as int));
        }
        if text.get_char(at) == ' ' {
            let part = text.substring_char(start, at).to_owned();
            parts.push(part);
            start = at + 1;
            proof {
                assert(before =~= before.drop_last().push(before.last()));
            }
        } else {
            proof {
                assert(text@.subrange(start as int, at + 1) =~= text@.subrange(
                    start as int,
                    at as int,
                ).push(text@[at as int]));
            }
        }
        at += 1;
    }
    let part = text.substring_char(start, end).to_owned();
    parts.push(part);
    proof {
        lemma_words_some(text@);
        assert(text@.take(end as int) =~= text@);
        assert(words(text@) =~= words(text@).drop_last().push(words(text@).last()));
    }
    parts
}

/// Reads a line as it was typed: the command that its words ask for, the
/// white space at its end not counted.
pub fn read_command(line: &str) -> (command: Command)
    ensures
        command@ == command_of(words(trimmed(line@))),
{
    let text = answer(line);
    let parts = split_words(text.as_str());
    proof {
        lemma_words_some(text@);
    }
    let name = parts[0].as_str();
    if same_text(name, "l") {
        Command::List
    } else if same_text(name, "h") {
        Command::Help
    } else if same_text(name, "a") {
        if parts.len() == 2 {
            Command::Add(parts[1].clone())
        } else {
            Command::Skip
        }
    } else if same_text(name, "cp") {
        if parts.len() == 3 {
            match (parse_index(parts[1].as_str()), parse(parts[2].as_str())) {
                (Some(index), Some(price)) => Command::ChangePrice(index, price),
                _ => Command::BadFormat,
            }
        } else {
            Command::Skip
        }
    } else if same_text(name, "d") {
        if parts.len() == 2 {
            match parse_index(parts[1].as_str()) {
                Some(index) => Command::Remove(index),
                None => Command::BadFormat,
            }
        } else {
            Command::Skip
        }
    } else if same_text(name, "s") {
        Command::Save
    } else {
        Command::Unknown
    }
}

} // verus!

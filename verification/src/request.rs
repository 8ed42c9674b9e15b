//! A request: the command that a line of input names, and its arguments.

use crate::text::{ascii_whitespace, is_word, trimmed_end, whitespace, words};
use crate::text::{lemma_no_words, lemma_trimmed_end, lemma_words_are_words};
use crate::text::{split_ascii_whitespace, trim_end};
use vstd::prelude::*;

verus! {

/// What a request holds: the command's name and the arguments in order.
pub ghost struct RequestView {
    pub key: Seq<char>,
    pub args: Seq<Seq<char>>,
}

/// One line of input, parsed. The key is never empty.
#[derive(Debug)]
pub struct Request {
    key: String,
    args: Vec<String>,
}

impl View for Request {
    type V = RequestView;

    closed spec fn view(&self) -> RequestView {
        RequestView { key: self.key@, args: self.args.deep_view() }
    }
}

impl Request {
    #[verifier::type_invariant]
    spec fn names_a_command(&self) -> bool {
        self.key@.len() > 0
    }

    /// A request for the command `key` with the arguments `args`.
    pub fn new(key: String, args: Vec<String>) -> (request: Self)
        requires
            key@.len() > 0,
        ensures
            request@.key == key@,
            request@.args == args.deep_view(),
    {
        Self { key, args }
    }

    /// The name of the command.
    pub fn get_key(&self) -> (key: &str)
        ensures
            key@ == self@.key,
            key@.len() > 0,
    {
        proof {
            use_type_invariant(self);
        }
        self.key.as_str()
    }

    /// The arguments, in order.
    pub fn get_args(&self) -> (args: &Vec<String>)
        ensures
            args.deep_view() == self@.args,
    {
        &self.args
    }

    /// Takes the request apart into its key and its arguments.
    pub fn into_parts(self) -> (parts: (String, Vec<String>))
        ensures
            parts.0@ == self@.key,
            parts.0@.len() > 0,
            parts.1.deep_view() == self@.args,
    {
        proof {
            use_type_invariant(&self);
        }
        (self.key, self.args)
    }
}

impl Clone for Request {
    fn clone(&self) -> (copy: Self)
        ensures
            copy@ == self@,
    {
        proof {
            use_type_invariant(self);
        }
        let key = self.key.clone();
        let mut args: Vec<String> = Vec::new();
        let mut i: usize = 0;
        while i < self.args.len()
            invariant
                i <= self.args.len(),
                args.deep_view() == self.args.deep_view().take(i as int),
            decreases self.args.len() - i,
        {
            let ghost before = args.deep_view();
            args.push(self.args[i].clone());
            assert(args.deep_view() =~= before.push(self.args[i as int]@));
            assert(self.args.deep_view().take(i as int).push(self.args[i as int]@)
                =~= self.args.deep_view().take(i as int + 1));
            i = i + 1;
        }
        assert(self.args.deep_view().take(i as int) =~= self.args.deep_view());
        Self { key, args }
    }
}

/// The request that `input` spells: its first word is the key, the words
/// after it are the arguments. An input without a word spells none.
pub open spec fn parsed(input: Seq<char>) -> Option<RequestView> {
    let parts = words(input);
    if parts.len() == 0 {
        None
    } else {
        Some(RequestView { key: parts[0], args: parts.skip(1) })
    }
}

/// The request that a submitted line stands for: what the line spells once
/// the whitespace at its end is cut off.
pub open spec fn submitted(line: Seq<char>) -> Option<RequestView> {
    parsed(trimmed_end(line))
}

/// Splits `input` into a key and arguments.
pub fn parse_request(input: &str) -> (request: Option<Request>)
    ensures
        match request {
            Some(r) => parsed(input@) == Some(r@),
            None => parsed(input@) is None,
        },
{
    let mut parts = split_ascii_whitespace(input);
    if parts.len() == 0 {
        return None;
    }
    let ghost all = parts.deep_view();
    let key = parts.remove(0);
    proof {
        lemma_words_are_words(input@);
        assert(is_word(words(input@)[0]));
        assert(key@ == all[0]);
        assert(parts.deep_view() =~= all.skip(1));
    }
    Some(Request::new(key, parts))
}

/// The request that a submitted line stands for, if it stands for one.
pub fn request_from_line(line: &str) -> (request: Option<Request>)
    ensures
        match request {
            Some(r) => submitted(line@) == Some(r@),
            None => submitted(line@) is None,
        },
{
    let trimmed = trim_end(line);
    parse_request(trimmed.as_str())
}

/// The key of a request that was parsed is a word: it holds a character, and
/// no separator.
pub proof fn lemma_parsed_key_is_word(input: Seq<char>)
    requires
        parsed(input) is Some,
    ensures
        is_word(parsed(input)->0.key),
{
    lemma_words_are_words(input);
}

/// A submitted line stands for a request exactly when something other than a
/// separator is left once the whitespace at its end is cut off.
pub proof fn lemma_request_iff_word(line: Seq<char>)
    ensures
        submitted(line) is None <==> forall|i: int|
            0 <= i < trimmed_end(line).len() ==> ascii_whitespace(#[trigger] trimmed_end(line)[i]),
{
    lemma_no_words(trimmed_end(line));
}

/// A line that holds nothing but whitespace, the empty line among them,
/// stands for no request.
pub proof fn lemma_blank_line_has_no_request(line: Seq<char>)
    requires
        forall|i: int| 0 <= i < line.len() ==> whitespace(#[trigger] line[i]),
    ensures
        submitted(line) is None,
{
    lemma_trimmed_end(line);
    let t = trimmed_end(line);
    if t.len() > 0 {
        assert(t.last() == line[t.len() - 1]);
    }
    assert(words(t).len() == 0);
}

} // verus!

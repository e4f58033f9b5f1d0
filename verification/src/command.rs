//! The command grammar: the first word of a message addressed to the bot is
//! the directive `!bd`, and the phrase after it names one of a fixed set of
//! intents, tried in order.

use crate::text::{
    after_head_word, chars_of, contains_word, contains_word_in, find_whitespace,
    find_whitespace_in, head_word, is_whitespace, lemma_find_whitespace, lemma_trimmed,
    same_letter, to_lower, trim_bounds, trimmed,
};
use vstd::prelude::*;
use vstd::string::*;

verus! {

/// What a command asks for.
#[derive(Clone, Copy, Debug, PartialEq, Eq, Structural)]
pub enum Intent {
    /// The sender greets the bot.
    Greet,
    /// The sender asks for the birthday registered for them.
    SelfLookup,
    /// The phrase names no known command.
    Unknown,
}

/// The word "hello".
pub open spec fn hello_token() -> Seq<char> {
    seq!['h', 'e', 'l', 'l', 'o']
}

/// The word "hi".
pub open spec fn hi_token() -> Seq<char> {
    seq!['h', 'i']
}

/// The word "me".
pub open spec fn me_token() -> Seq<char> {
    seq!['m', 'e']
}

/// `s` begins with `!bd`, in either letter case.
pub open spec fn has_command_prefix(s: Seq<char>) -> bool {
    &&& s.len() >= 3
    &&& s[0] == '!'
    &&& to_lower(s[1]) == 'b'
    &&& to_lower(s[2]) == 'd'
}

/// `s` is the command token: `!bd`, in either letter case, and nothing more.
pub open spec fn is_command_token(s: Seq<char>) -> bool {
    has_command_prefix(s) && s.len() == 3
}

/// The phrase holds the word "hello" or the word "hi", in any letter case.
pub open spec fn is_greeting(argument: Seq<char>) -> bool {
    contains_word(argument, hello_token()) || contains_word(argument, hi_token())
}

/// The phrase holds the word "me", in any letter case.
pub open spec fn is_self_lookup(argument: Seq<char>) -> bool {
    contains_word(argument, me_token())
}

/// The intent of an argument phrase. The patterns are tried in a fixed order
/// and the first that matches decides: a greeting wins over a self-lookup.
pub open spec fn classify(argument: Seq<char>) -> Intent {
    if is_greeting(argument) {
        Intent::Greet
    } else if is_self_lookup(argument) {
        Intent::SelfLookup
    } else {
        Intent::Unknown
    }
}

/// The directive of a message: its trimmed text up to the first whitespace.
pub open spec fn directive_of(text: Seq<char>) -> Seq<char> {
    head_word(trimmed(text))
}

/// The argument phrase of a message: what follows the first whitespace of its
/// trimmed text, empty when there is none.
pub open spec fn argument_of(text: Seq<char>) -> Seq<char> {
    after_head_word(trimmed(text))
}

/// The intent of a message, or `None` for text that is not a command. A
/// message is a command exactly when its directive is the command token: a
/// directive that goes on after `!bd` is not.
pub open spec fn command_of(text: Seq<char>) -> Option<Intent> {
    if is_command_token(directive_of(text)) {
        Some(classify(argument_of(text)))
    } else {
        None
    }
}

/// The trimmed text of a command begins with `!bd`, in either letter case:
/// text that begins otherwise is never a command, whatever follows.
pub proof fn lemma_command_begins_with_prefix(text: Seq<char>)
    ensures
        command_of(text) is Some ==> has_command_prefix(trimmed(text)),
{
    lemma_command_iff_token_stands_alone(text);
}

/// A message is a command exactly when its trimmed text begins with `!bd`, in
/// either letter case, and either ends there or goes on with whitespace.
pub proof fn lemma_command_iff_token_stands_alone(text: Seq<char>)
    ensures
        command_of(text) is Some <==> {
            &&& has_command_prefix(trimmed(text))
            &&& (trimmed(text).len() == 3 || is_whitespace(trimmed(text)[3]))
        },
{
    lemma_trimmed(text);
    let t = trimmed(text);
    lemma_find_whitespace(t, 0);
    let cut = find_whitespace(t, 0);
    let d = head_word(t);
    if is_command_token(d) {
        assert(d[0] == t[0] && d[1] == t[1] && d[2] == t[2]);
    }
    if has_command_prefix(t) && (t.len() == 3 || is_whitespace(t[3])) {
        assert(!is_whitespace(t[0]) && !is_whitespace(t[1]) && !is_whitespace(t[2]));
        if cut < 3 {
            assert(is_whitespace(t[cut]));
        }
        if cut > 3 {
            assert(!is_whitespace(t[3]));
        }
        assert(d[0] == t[0] && d[1] == t[1] && d[2] == t[2]);
    }
}

/// Splits the trimmed text of a message at its first whitespace character
/// into directive and argument phrase.
pub fn split_command(text: &str) -> (parts: (String, String))
    ensures
        parts.0@ == directive_of(text@),
        parts.1@ == argument_of(text@),
{
    let chars = chars_of(text);
    let (start, end) = trim_bounds(&chars);
    let cut = find_whitespace_in(&chars, start, end);
    let directive = String::from_str(text.substring_char(start, cut));
    let argument = if cut < end {
        String::from_str(text.substring_char(cut + 1, end))
    } else {
        String::new()
    };
    proof {
        let t = trimmed(text@);
        assert(t == text@.subrange(start as int, end as int));
        assert(directive@ =~= head_word(t));
        assert(argument@ =~= after_head_word(t));
    }
    (directive, argument)
}

/// Whether `directive` addresses the bot: whether it is the command token.
pub fn is_command_directive(directive: &str) -> (b: bool)
    ensures
        b == is_command_token(directive@),
{
    let chars = chars_of(directive);
    chars.len() == 3 && chars[0] == '!' && same_letter(chars[1], 'b') && same_letter(
        chars[2],
        'd',
    )
}

/// The intent that an argument phrase names.
pub fn classify_argument(argument: &str) -> (intent: Intent)
    ensures
        intent == classify(argument@),
{
    let chars = chars_of(argument);
    let hello: Vec<char> = vec!['h', 'e', 'l', 'l', 'o'];
    let hi: Vec<char> = vec!['h', 'i'];
    let me: Vec<char> = vec!['m', 'e'];
    proof {
        assert(hello@ =~= hello_token());
        assert(hi@ =~= hi_token());
        assert(me@ =~= me_token());
    }
    if contains_word_in(&chars, &hello) || contains_word_in(&chars, &hi) {
        Intent::Greet
    } else if contains_word_in(&chars, &me) {
        Intent::SelfLookup
    } else {
        Intent::Unknown
    }
}

/// Reads a message: `None` when it is not a command, else its intent. Text
/// that, once trimmed, does not begin with `!bd` is never a command.
pub fn parse_command(text: &str) -> (r: Option<Intent>)
    ensures
        r == command_of(text@),
        r is Some <==> is_command_token(directive_of(text@)),
        r is Some ==> has_command_prefix(trimmed(text@)),
{
    proof {
        lemma_command_begins_with_prefix(text@);
    }
    let (directive, argument) = split_command(text);
    if is_command_directive(directive.as_str()) {
        Some(classify_argument(argument.as_str()))
    } else {
        None
    }
}

} // verus!

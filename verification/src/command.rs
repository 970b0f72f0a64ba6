//! Command lines: a program and its arguments, parted at white space.

use vstd::prelude::*;
use vstd::std_specs::iter::IteratorSpec;
use vstd::string::*;

verus! {

/// Whether a character is white space: the characters that Unicode gives the
/// property `White_Space`.
pub open spec fn is_space(c: char) -> bool {
    let u = c as u32;
    ||| 0x09 <= u <= 0x0d
    ||| u == 0x20
    ||| u == 0x85
    ||| u == 0xa0
    ||| u == 0x1680
    ||| 0x2000 <= u <= 0x200a
    ||| u == 0x2028
    ||| u == 0x2029
    ||| u == 0x202f
    ||| u == 0x205f
    ||| u == 0x3000
}

/// The words of a text, in order: its longest runs of characters that are
/// not white space. White space parts the words and belongs to none; there
/// is no quoting and no escape.
///
/// Read from the end: a final white space adds nothing; another final
/// character lengthens the last word if the character before it belongs to a
/// word, and else starts a new one.
pub open spec fn words_of(text: Seq<char>) -> Seq<Seq<char>>
    decreases text.len(),
{
    if text.len() == 0 {
        Seq::empty()
    } else if is_space(text.last()) {
        words_of(text.drop_last())
    } else if text.len() >= 2 && !is_space(text[text.len() - 2]) {
        let before = words_of(text.drop_last());
        before.drop_last().push(before.last().push(text.last()))
    } else {
        words_of(text.drop_last()).push(seq![text.last()])
    }
}

/// Whether a text holds white space alone, or nothing.
pub open spec fn is_blank(text: Seq<char>) -> bool {
    forall|i: int| 0 <= i < text.len() ==> is_space(#[trigger] text[i])
}

/// The texts of a list of strings.
pub open spec fn texts(strings: Seq<String>) -> Seq<Seq<char>> {
    Seq::new(strings.len(), |i: int| strings[i]@)
}

/// Tells whether a character is white space.
pub fn is_whitespace(c: char) -> (b: bool)
    ensures
        b == is_space(c),
{
    let u: u32 = c as u32;
    (0x09 <= u && u <= 0x0d) || u == 0x20 || u == 0x85 || u == 0xa0 || u == 0x1680 || (0x2000 <= u
        && u <= 0x200a) || u == 0x2028 || u == 0x2029 || u == 0x202f || u == 0x205f || u == 0x3000
}

/// Parts `text` into its words.
pub fn split_whitespace(text: &str) -> (words: Vec<String>)
    ensures
        texts(words@) == words_of(text@),
{
    let n: usize = text.unicode_len();
    let mut chars = text.chars();
    let mut words: Vec<String> = Vec::new();
    let mut i: usize = 0;
    let mut start: usize = 0;
    let mut in_word = false;
    assert(text@.skip(0) =~= text@);
    assert(texts(words@) =~= words_of(text@.take(0)));
    loop
        invariant
            n == text@.len(),
            i <= n,
            chars.remaining() == text@.skip(i as int),
            chars.obeys_prophetic_iter_laws(),
            in_word <==> (i > 0 && !is_space(text@[i - 1])),
            in_word ==> start < i && words_of(text@.take(i as int)) == texts(words@).push(
                text@.subrange(start as int, i as int),
            ),
            !in_word ==> words_of(text@.take(i as int)) == texts(words@),
        ensures
            i == n,
        decreases n - i,
    {
        let next = chars.next();
        match next {
            None => {
                break ;
            },
            Some(c) => {
                let ghost before = text@.take(i as int);
                let ghost after = text@.take(i + 1);
                assert(c == text@[i as int]);
                assert(after.drop_last() =~= before);
                assert(after.last() == c);
                if is_whitespace(c) {
                    if in_word {
                        let word = String::from_str(text.substring_char(start, i));
                        let ghost old_words = words@;
                        words.push(word);
                        assert(texts(words@) =~= texts(old_words).push(
                            text@.subrange(start as int, i as int),
                        ));
                        in_word = false;
                    }
                } else {
                    if !in_word {
                        start = i;
                        in_word = true;
                        assert(text@.subrange(i as int, i + 1) =~= seq![c]);
                    } else {
                        assert(after[after.len() - 2] == text@[i - 1]);
                        assert(text@.subrange(start as int, i + 1) =~= text@.subrange(
                            start as int,
                            i as int,
                        ).push(c));
                        let ghost prev = words_of(before);
                        assert(prev.drop_last() =~= texts(words@));
                    }
                }
                assert(text@.skip(i as int).drop_first() =~= text@.skip(i + 1));
                i = i + 1;
            },
        }
    }
    assert(text@.take(n as int) =~= text@);
    if in_word {
        let word = String::from_str(text.substring_char(start, n));
        let ghost old_words = words@;
        words.push(word);
        assert(texts(words@) =~= texts(old_words).push(text@.subrange(start as int, n as int)));
    }
    words
}

/// Every word holds at least one character, and none of them is white space.
pub proof fn lemma_words_hold_no_space(text: Seq<char>)
    ensures
        forall|k: int|
            0 <= k < words_of(text).len() ==> (#[trigger] words_of(text)[k]).len() > 0,
        forall|k: int, j: int|
            0 <= k < words_of(text).len() && 0 <= j < words_of(text)[k].len() ==> !is_space(
                #[trigger] words_of(text)[k][j],
            ),
        text.len() > 0 && !is_space(text.last()) ==> words_of(text).len() > 0,
    decreases text.len(),
{
    if text.len() > 0 {
        lemma_words_hold_no_space(text.drop_last());
        if !is_space(text.last()) && text.len() >= 2 && !is_space(text[text.len() - 2]) {
            assert(text.drop_last().last() == text[text.len() - 2]);
        }
    }
}

/// A text of white space alone, the empty text among them, has no words;
/// any other text has one at least.
pub proof fn lemma_words_empty_iff_blank(text: Seq<char>)
    ensures
        words_of(text).len() == 0 <==> is_blank(text),
    decreases text.len(),
{
    if text.len() > 0 {
        let rest = text.drop_last();
        lemma_words_empty_iff_blank(rest);
        lemma_words_hold_no_space(text);
        if is_space(text.last()) {
            if words_of(text).len() == 0 {
                assert forall|i: int| 0 <= i < text.len() implies is_space(#[trigger] text[i]) by {
                    if i < rest.len() {
                        assert(rest[i] == text[i]);
                    }
                }
            } else {
                let i = choose|i: int| 0 <= i < rest.len() && !is_space(#[trigger] rest[i]);
                assert(!is_space(text[i]));
            }
        } else {
            assert(!is_space(text[text.len() - 1]));
        }
    }
}

/// A command line in parts: the program to start and what is handed to it.
#[derive(Debug, Clone, PartialEq, Eq)]
pub struct CommandLine {
    /// The program: the first word of the line.
    pub program: String,
    /// The arguments: the other words, in their order.
    pub args: Vec<String>,
}

impl CommandLine {
    /// The words of the command line: the program, then the arguments.
    pub open spec fn words(&self) -> Seq<Seq<char>> {
        seq![self.program@] + texts(self.args@)
    }
}

/// Reads a command line: its first word is the program, the others are the
/// arguments. A blank line names no program and gives nothing.
pub fn parse_command_line(text: &str) -> (command: Option<CommandLine>)
    ensures
        command is None <==> is_blank(text@),
        command matches Some(c) ==> c.words() == words_of(text@),
{
    proof {
        lemma_words_empty_iff_blank(text@);
    }
    let mut words = split_whitespace(text);
    assert(texts(words@).len() == words@.len());
    if words.len() == 0 {
        None
    } else {
        let ghost all = words@;
        let program = words.remove(0);
        let command = CommandLine { program, args: words };
        assert(command.words() =~= texts(all));
        Some(command)
    }
}

} // verus!

//! Resolution of text arguments and assembly of the user message.
//!
//! A text argument is either the standard-input marker, the path of a
//! file, or literal text. The library says where to look; the caller
//! reads and hands back what it found.

use vstd::prelude::*;
use vstd::string::StringExecFns;
use vstd::string::StrSliceExecFns;

verus! {

/// Where the content of a text argument comes from.
#[derive(Clone, Copy, Debug, PartialEq, Eq, Structural)]
pub enum TextSource {
    /// The argument is the marker: read all of standard input.
    Stdin,
    /// The argument may name a file: read it if it exists, else keep the text.
    FileOrLiteral,
}

/// The single character that stands for standard input.
pub open spec fn stdin_marker() -> Seq<char> {
    seq!['-']
}

/// The content of an argument, given what the caller read for it.
pub open spec fn resolved_text(arg: Seq<char>, read: Option<Seq<char>>) -> Seq<char> {
    match read {
        Some(text) => text,
        None => arg,
    }
}

/// The first of two optional texts that is present.
pub open spec fn preferred(first: Option<Seq<char>>, second: Option<Seq<char>>) -> Option<
    Seq<char>,
> {
    match first {
        Some(_) => first,
        None => second,
    }
}

/// The fragments joined by a newline between each two neighbours.
pub open spec fn joined(parts: Seq<Seq<char>>) -> Seq<char>
    decreases parts.len(),
{
    if parts.len() == 0 {
        Seq::empty()
    } else if parts.len() == 1 {
        parts[0]
    } else {
        joined(parts.drop_last()) + seq!['\n'] + parts.last()
    }
}

/// The characters of each string of a list, in order.
pub open spec fn texts_view(texts: Seq<String>) -> Seq<Seq<char>> {
    Seq::new(texts.len(), |i: int| texts[i]@)
}

/// Says where the content of `arg` is to be read from.
pub fn text_source(arg: &String) -> (source: TextSource)
    ensures
        source == TextSource::Stdin <==> arg@ == stdin_marker(),
{
    let s = arg.as_str();
    if s.unicode_len() == 1 && s.get_char(0) == '-' {
        assert(arg@ =~= stdin_marker());
        TextSource::Stdin
    } else {
        TextSource::FileOrLiteral
    }
}

/// Resolves an argument to its content: what the caller read from standard
/// input or from the file that the argument names, or else the argument itself.
pub fn resolve_text(arg: String, read: Option<String>) -> (content: String)
    ensures
        content@ == resolved_text(arg@, crate::message::text_view(read)),
{
    match read {
        Some(text) => text,
        None => arg,
    }
}

/// Picks the source of the system prompt: the flag if given, else the
/// environment's default, else none.
pub fn choose_system_source(flag: Option<String>, default: Option<String>) -> (chosen: Option<
    String,
>)
    ensures
        crate::message::text_view(chosen) == preferred(
            crate::message::text_view(flag),
            crate::message::text_view(default),
        ),
{
    match flag {
        Some(text) => Some(text),
        None => default,
    }
}

/// Joins the resolved fragments, in the order given, with one newline
/// between each two.
pub fn join_fragments(parts: &Vec<String>) -> (content: String)
    ensures
        content@ == joined(texts_view(parts@)),
{
    let mut content = String::new();
    let mut i: usize = 0;
    while i < parts.len()
        invariant
            i <= parts.len(),
            content@ == joined(texts_view(parts@).take(i as int)),
        decreases parts.len() - i,
    {
        let ghost before = texts_view(parts@).take(i as int);
        let ghost after = texts_view(parts@).take(i + 1);
        proof {
            reveal_strlit("\n");
            assert(after.drop_last() =~= before);
            assert(after.last() == parts[i as int]@);
            assert("\n"@ =~= seq!['\n']);
        }
        if i > 0 {
            content.append("\n");
        }
        content.append(parts[i].as_str());
        proof {
            if i == 0 {
                assert(before.len() == 0);
                assert(content@ =~= parts[0]@);
            } else {
                assert(content@ =~= joined(before) + seq!['\n'] + parts[i as int]@);
            }
        }
        i += 1;
    }
    assert(texts_view(parts@).take(parts.len() as int) =~= texts_view(parts@));
    content
}

/// Joining two fragments puts exactly one newline between them.
pub proof fn lemma_join_two(a: Seq<char>, b: Seq<char>)
    ensures
        joined(seq![a, b]) == a + seq!['\n'] + b,
{
    let parts = seq![a, b];
    assert(parts.drop_last() =~= seq![a]);
    assert(joined(seq![a]) == a);
    assert(parts.last() == b);
}

} // verus!

//! What a whole conversation on the wire amounts to.
//!
//! A stream of characters is read one line at a time, each line up to and with its
//! newline, the last one perhaps without. How a message is written as text, and
//! read back from it, is left open: the laws hold of every way of doing so whose
//! texts stay on one line and read back as the message that they were written for.
use vstd::prelude::*;

use crate::protocol;
use crate::protocol::IncomingView;
use crate::text;

verus! {

/// How many characters the first line of `stream` takes, its newline counted.
pub open spec fn line_len(stream: Seq<char>) -> nat
    decreases stream.len(),
{
    if stream.len() == 0 {
        0
    } else if stream[0] == '\n' {
        1
    } else {
        1 + line_len(stream.drop_first())
    }
}

/// Whether `encoded` stays on one line: it holds no newline and closes with no
/// carriage return.
pub open spec fn on_one_line(encoded: Seq<char>) -> bool {
    &&& !encoded.contains('\n')
    &&& encoded.len() > 0 ==> encoded.last() != '\r'
}

/// What is written for `messages`, one after the other.
pub open spec fn written<T>(messages: Seq<T>, encode: spec_fn(T) -> Seq<char>) -> Seq<char>
    decreases messages.len(),
{
    if messages.len() == 0 {
        Seq::empty()
    } else {
        protocol::framed(encode(messages[0])) + written(messages.drop_first(), encode)
    }
}

/// What `stream` brings, read line by line until it has ended.
pub open spec fn read<T>(
    stream: Seq<char>,
    decode: spec_fn(Seq<char>) -> Result<T, Seq<char>>,
) -> Seq<IncomingView<T>>
    decreases stream.len(),
{
    let line = stream.take(line_len(stream) as int);
    let first = protocol::brought(line, decode(text::without_line_end(line)));
    if stream.len() == 0 {
        seq![first]
    } else {
        proof {
            lemma_line_len(stream);
        }
        seq![first] + read(stream.skip(line_len(stream) as int), decode)
    }
}

/// A line takes at least one character, and no more than there are.
pub proof fn lemma_line_len(stream: Seq<char>)
    ensures
        line_len(stream) <= stream.len(),
        stream.len() > 0 ==> line_len(stream) > 0,
    decreases stream.len(),
{
    if stream.len() > 0 && stream[0] != '\n' {
        lemma_line_len(stream.drop_first());
    }
}

proof fn lemma_first_line(encoded: Seq<char>, rest: Seq<char>)
    requires
        !encoded.contains('\n'),
    ensures
        line_len(protocol::framed(encoded) + rest) == encoded.len() + 1,
    decreases encoded.len(),
{
    let stream = protocol::framed(encoded) + rest;
    if encoded.len() > 0 {
        assert(stream[0] == encoded[0]);
        assert(encoded.contains(encoded[0]));
        let shorter = encoded.drop_first();
        assert forall|i: int| 0 <= i < shorter.len() implies shorter[i] != '\n' by {
            assert(encoded.contains(encoded[i + 1]));
        }
        assert(stream.drop_first() =~= protocol::framed(shorter) + rest);
        lemma_first_line(shorter, rest);
    }
}

/// A text that stays on one line comes out of its line unchanged.
pub proof fn law_a_framed_text_comes_back(encoded: Seq<char>)
    requires
        on_one_line(encoded),
    ensures
        text::without_line_end(protocol::framed(encoded)) == encoded,
{
    let line = protocol::framed(encoded);
    assert(line.drop_last() =~= encoded);
    assert(text::without_line_end(line) == text::without_line_end(encoded));
    if encoded.len() > 0 {
        assert(encoded.contains(encoded.last()));
    }
}

/// A message whose text holds no newline is written as exactly one line: it closes with a
/// newline, and holds it nowhere else.
pub proof fn law_a_written_message_is_one_line(encoded: Seq<char>, i: int)
    requires
        !encoded.contains('\n'),
        0 <= i < protocol::framed(encoded).len(),
    ensures
        protocol::framed(encoded)[i] == '\n' <==> i == protocol::framed(encoded).len() - 1,
        line_len(protocol::framed(encoded)) == protocol::framed(encoded).len(),
{
    if i < encoded.len() {
        assert(encoded.contains(encoded[i]));
    }
    lemma_first_line(encoded, Seq::empty());
    assert(protocol::framed(encoded) + Seq::empty() =~= protocol::framed(encoded));
}

/// Messages that were written one after the other are exactly as many lines, and each of them
/// brings what came of reading its own text, whatever texts are read as messages.
pub proof fn law_messages_are_as_many_lines<T, U>(
    messages: Seq<T>,
    encode: spec_fn(T) -> Seq<char>,
    decode: spec_fn(Seq<char>) -> Result<U, Seq<char>>,
)
    requires
        forall|i: int| 0 <= i < messages.len() ==> on_one_line(encode(#[trigger] messages[i])),
    ensures
        read(written(messages, encode), decode) == messages.map_values(
            |message: T|
                protocol::brought(protocol::framed(encode(message)), decode(encode(message))),
        ).push(IncomingView::Ended),
    decreases messages.len(),
{
    let brings = |message: T|
        protocol::brought(protocol::framed(encode(message)), decode(encode(message)));
    if messages.len() == 0 {
        law_a_closed_source_ends_the_conversation(decode);
        assert(messages.map_values(brings).push(IncomingView::Ended) =~= seq![
            IncomingView::<U>::Ended,
        ]);
    } else {
        let rest = messages.drop_first();
        assert forall|i: int| 0 <= i < rest.len() implies #[trigger] rest[i] == messages[i + 1] by {
        }
        law_messages_are_as_many_lines(rest, encode, decode);
        law_lines_are_read_one_at_a_time(encode(messages[0]), written(rest, encode), decode);
        assert(messages.map_values(brings).push(IncomingView::Ended) =~= seq![brings(messages[0])]
            + rest.map_values(brings).push(IncomingView::Ended));
    }
}

/// Each line is taken for itself: whatever it says, readable or not, what follows it
/// is read as if it had not been there.
pub proof fn law_lines_are_read_one_at_a_time<T>(
    encoded: Seq<char>,
    rest: Seq<char>,
    decode: spec_fn(Seq<char>) -> Result<T, Seq<char>>,
)
    requires
        on_one_line(encoded),
    ensures
        read(protocol::framed(encoded) + rest, decode) == seq![
            protocol::brought(protocol::framed(encoded), decode(encoded)),
        ] + read(rest, decode),
{
    let line = protocol::framed(encoded);
    let stream = line + rest;
    lemma_first_line(encoded, rest);
    law_a_framed_text_comes_back(encoded);
    assert(stream.take(line.len() as int) =~= line);
    assert(stream.skip(line.len() as int) =~= rest);
}

/// Every message survives the wire: what was written for messages brings exactly these
/// messages, in order, and then the end.
pub proof fn law_every_message_survives_the_wire<T>(
    messages: Seq<T>,
    encode: spec_fn(T) -> Seq<char>,
    decode: spec_fn(Seq<char>) -> Result<T, Seq<char>>,
)
    requires
        forall|i: int| 0 <= i < messages.len() ==> on_one_line(encode(#[trigger] messages[i])),
        forall|i: int|
            0 <= i < messages.len() ==> decode(encode(#[trigger] messages[i])) == Result::<
                T,
                Seq<char>,
            >::Ok(messages[i]),
    ensures
        read(written(messages, encode), decode) == messages.map_values(
            |message: T| IncomingView::Message(message),
        ).push(IncomingView::Ended),
{
    law_messages_are_as_many_lines(messages, encode, decode);
    assert(read(written(messages, encode), decode) =~= messages.map_values(
        |message: T| IncomingView::Message(message),
    ).push(IncomingView::Ended));
}

/// A source that has ended brings nothing but its end.
pub proof fn law_a_closed_source_ends_the_conversation<T>(
    decode: spec_fn(Seq<char>) -> Result<T, Seq<char>>,
)
    ensures
        read(Seq::empty(), decode) == seq![IncomingView::<T>::Ended],
{
    assert(Seq::<char>::empty().take(0) =~= Seq::empty());
}

} // verus!

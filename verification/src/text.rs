//! Small helpers on strings and lists of strings.

use vstd::prelude::*;

verus! {

/// The texts of a list of strings.
pub open spec fn texts(list: Seq<String>) -> Seq<Seq<char>> {
    Seq::new(list.len(), |i: int| list[i]@)
}

/// Appends one character to a string.
///
/// Calls `String::push` of the standard library; the contract restates its
/// documentation: the character is added at the end and nothing else changes.
#[verifier::external_body]
pub(crate) fn push_char(text: &mut String, c: char)
    ensures
        final(text)@ == old(text)@.push(c),
{
    text.push(c);
}

/// The fields of `text` between the occurrences of `sep`: one more field
/// than there are separators, each as long as the separators leave it, empty
/// ones included.
pub open spec fn split(text: Seq<char>, sep: char) -> Seq<Seq<char>>
    decreases text.len(),
{
    if text.len() == 0 {
        seq![Seq::empty()]
    } else {
        let head = split(text.drop_last(), sep);
        if text.last() == sep {
            head.push(Seq::empty())
        } else {
            head.drop_last().push(head.last().push(text.last()))
        }
    }
}

/// A text without a separator is one field.
pub proof fn lemma_split_plain(text: Seq<char>, sep: char)
    requires
        !text.contains(sep),
    ensures
        split(text, sep) == seq![text],
    decreases text.len(),
{
    if text.len() == 0 {
        assert(text =~= Seq::<char>::empty());
    } else {
        let front = text.drop_last();
        assert forall|i: int| 0 <= i < front.len() implies front[i] != sep by {
            assert(front[i] == text[i]);
        }
        assert(text.last() == text[text.len() - 1]);
        lemma_split_plain(front, sep);
        assert(front.push(text.last()) =~= text);
        assert(seq![front].drop_last().push(text) =~= seq![text]);
    }
}

/// What follows the last separator of a text is its last field, and what
/// stands before that separator gives the fields before it.
pub proof fn lemma_split_last_field(head: Seq<char>, tail: Seq<char>, sep: char)
    requires
        !tail.contains(sep),
    ensures
        split(head + seq![sep] + tail, sep) == split(head, sep).push(tail),
    decreases tail.len(),
{
    let text = head + seq![sep] + tail;
    if tail.len() == 0 {
        assert(text.drop_last() =~= head);
        assert(text.last() == sep);
        assert(tail =~= Seq::<char>::empty());
    } else {
        let front = tail.drop_last();
        assert forall|i: int| 0 <= i < front.len() implies front[i] != sep by {
            assert(front[i] == tail[i]);
        }
        assert(tail.last() == tail[tail.len() - 1]);
        lemma_split_last_field(head, front, sep);
        assert(text.drop_last() =~= head + seq![sep] + front);
        assert(text.last() == tail.last());
        let before = split(head, sep).push(front);
        assert(before.drop_last() =~= split(head, sep));
        assert(front.push(tail.last()) =~= tail);
    }
}

/// Cuts `text` at every occurrence of `sep`.
pub fn split_text(text: &str, sep: char) -> (fields: Vec<String>)
    ensures
        texts(fields@) == split(text@, sep),
{
    let mut fields: Vec<String> = Vec::new();
    let mut current = String::new();
    assert(texts(fields@).push(current@) =~= split(text@.take(0), sep));
    for c in iter: text.chars()
        invariant
            iter.seq() == text@,
            texts(fields@).push(current@) == split(text@.take(iter.index()), sep),
    {
        let ghost at = iter.index();
        let ghost head = split(text@.take(at), sep);
        assert(text@.take(at + 1).drop_last() == text@.take(at));
        assert(text@.take(at + 1).last() == c);
        assert(head.drop_last() == texts(fields@));
        assert(head.last() == current@);
        if c == sep {
            fields.push(current);
            current = String::new();
            assert(texts(fields@).push(current@) =~= head.push(Seq::empty()));
        } else {
            push_char(&mut current, c);
            assert(texts(fields@).push(current@) =~= head.drop_last().push(head.last().push(c)));
        }
    }
    assert(text@.take(text@.len() as int) == text@);
    let ghost all = texts(fields@).push(current@);
    fields.push(current);
    assert(texts(fields@) =~= all);
    fields
}

} // verus!

//! Cutting a sequence at every occurrence of a separator.

use vstd::prelude::*;

verus! {

/// A sequence in which `sep` does not occur.
pub open spec fn free_of<T>(text: Seq<T>, sep: T) -> bool {
    forall|i: int| 0 <= i < text.len() ==> text[i] != sep
}

/// Reads `text` from left to right and cuts it at every `sep`.  The first
/// part of the result holds the fields that a separator has ended, without
/// the separator; the second part holds what follows the last separator.
pub open spec fn scan_fields<T>(text: Seq<T>, sep: T) -> (Seq<Seq<T>>, Seq<T>)
    decreases text.len(),
{
    if text.len() == 0 {
        (Seq::empty(), Seq::empty())
    } else {
        let (done, open) = scan_fields(text.drop_last(), sep);
        if text.last() == sep {
            (done.push(open), Seq::empty())
        } else {
            (done, open.push(text.last()))
        }
    }
}

/// The fields of `text` between its separators; one more than there are
/// separators, so never none.
pub open spec fn fields_of<T>(text: Seq<T>, sep: T) -> Seq<Seq<T>> {
    scan_fields(text, sep).0.push(scan_fields(text, sep).1)
}

/// Fields put together again, with one separator between neighbours.
pub open spec fn joined<T>(fields: Seq<Seq<T>>, sep: T) -> Seq<T>
    decreases fields.len(),
{
    if fields.len() == 0 {
        Seq::empty()
    } else if fields.len() == 1 {
        fields[0]
    } else {
        joined(fields.drop_last(), sep) + seq![sep] + fields.last()
    }
}

/// Cutting is the inverse of joining: the fields of a text hold no
/// separator, and joined by the separator they give the text back.
pub proof fn fields_join_to_the_text<T>(text: Seq<T>, sep: T)
    ensures
        fields_of(text, sep).len() >= 1,
        forall|i: int|
            0 <= i < fields_of(text, sep).len() ==> free_of(#[trigger] fields_of(text, sep)[i], sep),
        joined(fields_of(text, sep), sep) == text,
    decreases text.len(),
{
    if text.len() > 0 {
        let (done, open) = scan_fields(text.drop_last(), sep);
        fields_join_to_the_text(text.drop_last(), sep);
        assert(done.push(open).drop_last() =~= done);
        if text.last() == sep {
            let fields = done.push(open).push(Seq::<T>::empty());
            assert(fields.drop_last() =~= done.push(open));
        } else {
            let fields = done.push(open.push(text.last()));
            assert(fields.drop_last() =~= done);
            assert forall|i: int| 0 <= i < fields.len() implies free_of(#[trigger] fields[i], sep) by {
                assert(free_of(done.push(open)[i], sep));
            }
            if done.len() > 0 {
                assert(joined(fields, sep) =~= (joined(done, sep) + seq![sep] + open).push(
                    text.last(),
                ));
            }
        }
    }
}

/// Reading one element further: a separator ends the open field, any other
/// element lengthens it.
pub proof fn lemma_scan_step<T>(text: Seq<T>, sep: T, i: int)
    requires
        0 <= i < text.len(),
    ensures
        scan_fields(text.take(i + 1), sep) == if text[i] == sep {
            (
                scan_fields(text.take(i), sep).0.push(scan_fields(text.take(i), sep).1),
                Seq::<T>::empty(),
            )
        } else {
            (scan_fields(text.take(i), sep).0, scan_fields(text.take(i), sep).1.push(text[i]))
        },
{
    assert(text.take(i + 1).drop_last() =~= text.take(i));
}

/// Elements without a separator, put behind `head`, only lengthen the field
/// that `head` left open.
pub proof fn lemma_scan_plain<T>(head: Seq<T>, plain: Seq<T>, sep: T)
    requires
        free_of(plain, sep),
    ensures
        scan_fields(head + plain, sep) == (
            scan_fields(head, sep).0,
            scan_fields(head, sep).1 + plain,
        ),
    decreases plain.len(),
{
    if plain.len() > 0 {
        let shorter = plain.drop_last();
        lemma_scan_plain(head, shorter, sep);
        assert((head + plain).drop_last() =~= head + shorter);
    }
}

/// A field and its separator, put behind `head`, finish the field that
/// `head` left open and leave nothing open.
pub proof fn lemma_scan_field<T>(head: Seq<T>, field: Seq<T>, sep: T)
    requires
        free_of(field, sep),
    ensures
        scan_fields(head + (field + seq![sep]), sep) == (
            scan_fields(head, sep).0.push(scan_fields(head, sep).1 + field),
            Seq::<T>::empty(),
        ),
{
    let whole = head + (field + seq![sep]);
    lemma_scan_plain(head, field, sep);
    assert(whole.drop_last() =~= head + field);
}

} // verus!

//! Reading a text as a sequence of lines, each ended by a line feed.

use vstd::prelude::*;
use crate::split::{free_of, lemma_scan_field, scan_fields};

verus! {

/// A text that holds no line feed.
pub open spec fn single_line(text: Seq<char>) -> bool {
    free_of(text, '\n')
}

/// The lines of `text` that are ended by a line feed, without the line
/// feed.
pub open spec fn lines_of(text: Seq<char>) -> Seq<Seq<char>> {
    scan_fields(text, '\n').0
}

/// What follows the last line feed of `text`.
pub open spec fn unfinished_line(text: Seq<char>) -> Seq<char> {
    scan_fields(text, '\n').1
}

/// The lines of a text that is put together entry by entry, where an item
/// either is kept and gives one line with its line feed, or gives nothing:
/// the lines are those of the kept items, in order, and no line stays open.
pub proof fn lemma_lines_of_entries<A>(
    items: Seq<A>,
    keep: spec_fn(A) -> bool,
    line: spec_fn(A) -> Seq<char>,
    entry: spec_fn(A) -> Seq<char>,
)
    requires
        forall|a: A| keep(a) ==> #[trigger] entry(a) == line(a) + seq!['\n'],
        forall|a: A| !keep(a) ==> #[trigger] entry(a) == Seq::<char>::empty(),
        forall|i: int|
            0 <= i < items.len() && keep(items[i]) ==> single_line(#[trigger] line(items[i])),
    ensures
        lines_of(items.flat_map(entry)) == items.filter(keep).map_values(line),
        unfinished_line(items.flat_map(entry)) == Seq::<char>::empty(),
    decreases items.len(),
{
    reveal(Seq::filter);
    if items.len() > 0 {
        let init = items.drop_last();
        let last = items.last();
        assert forall|i: int| 0 <= i < init.len() && keep(init[i]) implies single_line(
            #[trigger] line(init[i]),
        ) by {
            assert(init[i] == items[i]);
        }
        lemma_lines_of_entries(init, keep, line, entry);
        assert(items =~= init.push(last));
        init.lemma_flat_map_push(entry, last);
        if keep(last) {
            lemma_scan_field(init.flat_map(entry), line(last), '\n');
            assert(init.filter(keep).push(last).map_values(line) =~= init.filter(keep).map_values(
                line,
            ).push(line(last)));
        }
    }
}

} // verus!

//! What holds of every snapshot of the discovery files.

use vstd::prelude::*;
use crate::lines::{lemma_lines_of_entries, lines_of, single_line, unfinished_line};
use crate::server_info::{
    hex_alphabet, hex_of, hex_pair, info_packs, info_refs, is_hex_digit, is_pack_name,
    is_resolvable, is_snapshot_of, pack_entry, ref_entry, ref_text, valid_id_len, RefRecord,
    ServerInfo,
};

verus! {

/// A text of 40 or 64 lower case hexadecimal digits.
pub open spec fn is_hex_id(text: Seq<char>) -> bool {
    &&& text.len() == 40 || text.len() == 64
    &&& forall|i: int| 0 <= i < text.len() ==> is_hex_digit(#[trigger] text[i])
}

/// The line that a listed reference has in `info/refs`, without line feed.
pub open spec fn ref_line(r: RefRecord) -> Seq<char> {
    ref_text(r.name->0@, r.target->0@)
}

/// The line that a pack file has in `info/packs`, without line feed.
pub open spec fn pack_line(name: Seq<char>) -> Seq<char> {
    seq!['P', ' '] + name
}

/// The references that a snapshot lists: those with a name and a target.
pub open spec fn listed_refs(refs: Seq<RefRecord>) -> Seq<RefRecord> {
    refs.filter(|r: RefRecord| is_resolvable(r))
}

/// The entries of the pack directory that a snapshot lists.
pub open spec fn listed_packs(names: Seq<Seq<char>>) -> Seq<Seq<char>> {
    names.filter(|n: Seq<char>| is_pack_name(n))
}

/// Hexadecimal text has two digits for each byte, and nothing but digits.
pub proof fn hex_text_is_digits(bytes: Seq<u8>)
    ensures
        hex_of(bytes).len() == 2 * bytes.len(),
        forall|i: int| 0 <= i < hex_of(bytes).len() ==> is_hex_digit(#[trigger] hex_of(bytes)[i]),
        single_line(hex_of(bytes)),
    decreases bytes.len(),
{
    if bytes.len() > 0 {
        let init = bytes.drop_last();
        hex_text_is_digits(init);
        assert(bytes =~= init.push(bytes.last()));
        init.lemma_flat_map_push(|b: u8| hex_pair(b), bytes.last());
    }
    assert forall|i: int| 0 <= i < hex_of(bytes).len() implies hex_of(bytes)[i] != '\n' by {
        let c = hex_of(bytes)[i];
        let k = choose|k: int| 0 <= k < hex_alphabet().len() && hex_alphabet()[k] == c;
    }
}

/// The id of an object is written as 40 or 64 hexadecimal digits.
pub proof fn object_id_is_written_as_hex_id(id: Seq<u8>)
    requires
        valid_id_len(id.len()),
    ensures
        is_hex_id(hex_of(id)),
{
    hex_text_is_digits(id);
}

/// `info/refs` holds exactly one line for every reference that has a name
/// and a resolved target, in iteration order and with nothing behind the
/// last line; each line is the id, a tab and the name.  This holds where no
/// listed name contains a line feed.
pub proof fn info_refs_has_one_line_per_listed_ref(refs: Seq<RefRecord>)
    requires
        forall|i: int|
            0 <= i < refs.len() && is_resolvable(refs[i]) ==> single_line(
                (#[trigger] refs[i]).name->0@,
            ),
    ensures
        lines_of(info_refs(refs)) == listed_refs(refs).map_values(|r: RefRecord| ref_line(r)),
        lines_of(info_refs(refs)).len() == listed_refs(refs).len(),
        unfinished_line(info_refs(refs)) == Seq::<char>::empty(),
{
    let keep = |r: RefRecord| is_resolvable(r);
    let line = |r: RefRecord| ref_line(r);
    let entry = |r: RefRecord| ref_entry(r);
    assert forall|i: int| 0 <= i < refs.len() && keep(refs[i]) implies single_line(
        #[trigger] line(refs[i]),
    ) by {
        hex_text_is_digits(refs[i].target->0@);
    }
    lemma_lines_of_entries(refs, keep, line, entry);
}

/// Every line of `info/refs` begins with the 40 or 64 hexadecimal digits of
/// the target, where the target is an object id.
pub proof fn listed_ref_line_begins_with_hex_id(r: RefRecord)
    requires
        is_resolvable(r),
        valid_id_len(r.target->0@.len()),
    ensures
        ref_line(r) == hex_of(r.target->0@) + seq!['\t'] + r.name->0@,
        is_hex_id(hex_of(r.target->0@)),
{
    hex_text_is_digits(r.target->0@);
}

/// `info/packs` holds exactly one line `P <name>` for every entry of the
/// pack directory whose extension is `pack`, in enumeration order, and
/// nothing else.  This holds where no listed name contains a line feed.
pub proof fn info_packs_has_one_line_per_pack(names: Seq<Seq<char>>)
    requires
        forall|i: int|
            0 <= i < names.len() && is_pack_name(names[i]) ==> single_line(#[trigger] names[i]),
    ensures
        lines_of(info_packs(names)) == listed_packs(names).map_values(
            |n: Seq<char>| pack_line(n),
        ),
        lines_of(info_packs(names)).len() == listed_packs(names).len(),
        unfinished_line(info_packs(names)) == Seq::<char>::empty(),
{
    let keep = |n: Seq<char>| is_pack_name(n);
    let line = |n: Seq<char>| pack_line(n);
    let entry = |n: Seq<char>| pack_entry(n);
    assert forall|n: Seq<char>| keep(n) implies #[trigger] entry(n) == line(n) + seq!['\n'] by {
        assert(pack_entry(n) =~= pack_line(n) + seq!['\n']);
    }
    lemma_lines_of_entries(names, keep, line, entry);
}

/// Two snapshots of the same reading of a repository hold the same two
/// files, character for character.
pub proof fn snapshots_of_one_reading_are_equal(
    first: ServerInfo,
    second: ServerInfo,
    refs: Seq<RefRecord>,
    pack_dir: Option<Vec<String>>,
)
    requires
        is_snapshot_of(first, refs, pack_dir),
        is_snapshot_of(second, refs, pack_dir),
    ensures
        first.refs@ == second.refs@,
        first.packs@ == second.packs@,
{
}

} // verus!

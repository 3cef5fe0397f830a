//! The discovery files of the plain file protocol: `info/refs` and
//! `info/packs`.
//!
//! A client without a negotiating endpoint learns from `info/refs` which
//! references exist and from `info/packs` which pack files to fetch.  Both
//! files are rebuilt from scratch out of one reading of the repository.

use vstd::prelude::*;
use crate::text::names_of;

verus! {

/// The sixteen digits of lower case hexadecimal, in order of value.
pub open spec fn hex_alphabet() -> Seq<char> {
    seq!['0', '1', '2', '3', '4', '5', '6', '7', '8', '9', 'a', 'b', 'c', 'd', 'e', 'f']
}

/// Whether `c` is a lower case hexadecimal digit.
pub open spec fn is_hex_digit(c: char) -> bool {
    hex_alphabet().contains(c)
}

/// The two hexadecimal digits of a byte, high half first.
pub open spec fn hex_pair(b: u8) -> Seq<char> {
    seq![hex_alphabet()[b as int / 16], hex_alphabet()[b as int % 16]]
}

/// The hexadecimal text of a byte string: two digits per byte.
pub open spec fn hex_of(bytes: Seq<u8>) -> Seq<char> {
    bytes.flat_map(|b: u8| hex_pair(b))
}

/// An object id is 20 bytes (SHA-1) or 32 bytes (SHA-256) long.
pub open spec fn valid_id_len(len: nat) -> bool {
    len == 20 || len == 32
}

/// The id of a git object.
#[derive(Debug, PartialEq, Eq)]
pub struct ObjectId {
    bytes: Vec<u8>,
}

impl View for ObjectId {
    type V = Seq<u8>;

    closed spec fn view(&self) -> Seq<u8> {
        self.bytes@
    }
}

impl Clone for ObjectId {
    fn clone(&self) -> (copy: Self)
        ensures
            copy@ == self@,
    {
        proof {
            use_type_invariant(self);
        }
        ObjectId { bytes: self.bytes.clone() }
    }
}

impl ObjectId {
    #[verifier::type_invariant]
    spec fn well_formed(&self) -> bool {
        valid_id_len(self.bytes@.len())
    }

    /// Takes the raw bytes of an id.  Anything but 20 or 32 bytes is no id.
    pub fn from_bytes(bytes: Vec<u8>) -> (id: Option<ObjectId>)
        ensures
            id is Some <==> valid_id_len(bytes@.len()),
            id matches Some(oid) ==> oid@ == bytes@,
    {
        if bytes.len() == 20 || bytes.len() == 32 {
            Some(ObjectId { bytes })
        } else {
            None
        }
    }

    /// The raw bytes of the id.
    pub fn as_bytes(&self) -> (bytes: &Vec<u8>)
        ensures
            bytes@ == self@,
            valid_id_len(bytes@.len()),
    {
        proof {
            use_type_invariant(self);
        }
        &self.bytes
    }

    /// The id in lower case hexadecimal, 40 or 64 digits.
    pub fn to_hex(&self) -> (text: String)
        ensures
            text@ == hex_of(self@),
            text@.len() == 2 * self@.len(),
            valid_id_len(self@.len()),
    {
        let digits = "0123456789abcdef";
        proof {
            use_type_invariant(self);
            reveal_strlit("0123456789abcdef");
        }
        let ghost pair = |b: u8| hex_pair(b);
        let mut text = String::new();
        let mut i: usize = 0;
        while i < self.bytes.len()
            invariant
                0 <= i <= self.bytes.len(),
                digits@ == hex_alphabet(),
                digits.is_ascii(),
                pair == |b: u8| hex_pair(b),
                text@ == self.bytes@.take(i as int).flat_map(pair),
                text@.len() == 2 * i,
            decreases self.bytes.len() - i,
        {
            let b: u8 = self.bytes[i];
            let hi: usize = (b / 16) as usize;
            let lo: usize = (b % 16) as usize;
            let high = digits.substring_ascii(hi, hi + 1);
            let low = digits.substring_ascii(lo, lo + 1);
            text.append(high);
            text.append(low);
            proof {
                self.bytes@.lemma_flat_map_take_append(pair, i as int);
            }
            i += 1;
        }
        assert(self.bytes@.take(i as int) =~= self.bytes@);
        text
    }
}

/// One reference of the repository, as one reading of it reports it.
#[derive(Clone, Debug, PartialEq, Eq)]
pub struct RefRecord {
    /// The full name of the reference, where it has a readable one.
    pub name: Option<String>,
    /// The object that the reference points at in the end, symbolic
    /// references followed; `None` where it does not resolve.
    pub target: Option<ObjectId>,
}

/// A reference is listed iff it has both a name and a resolved target.
pub open spec fn is_resolvable(r: RefRecord) -> bool {
    r.name is Some && r.target is Some
}

/// The line of `info/refs` without its line end: the id in hexadecimal, a
/// tab, the reference name.
pub open spec fn ref_text(name: Seq<char>, id: Seq<u8>) -> Seq<char> {
    hex_of(id) + seq!['\t'] + name
}

/// What one reference adds to `info/refs`: its line, ended by a line feed,
/// or nothing where the reference is not listed.
pub open spec fn ref_entry(r: RefRecord) -> Seq<char> {
    if is_resolvable(r) {
        ref_text(r.name->0@, r.target->0@) + seq!['\n']
    } else {
        Seq::empty()
    }
}

/// The content of `info/refs` for the references in iteration order.
pub open spec fn info_refs(refs: Seq<RefRecord>) -> Seq<char> {
    refs.flat_map(|r: RefRecord| ref_entry(r))
}

/// The ending that marks a pack file.
pub open spec fn pack_suffix() -> Seq<char> {
    seq!['.', 'p', 'a', 'c', 'k']
}

/// A file name has the extension `pack` iff it is a non-empty stem followed
/// by `.pack`.  The bare name `.pack` is a hidden file without extension.
pub open spec fn is_pack_name(name: Seq<char>) -> bool {
    name.len() > 5 && name.subrange(name.len() - 5, name.len() as int) == pack_suffix()
}

/// What one entry of the pack directory adds to `info/packs`: the line
/// `P <name>` for a pack file, nothing for any other entry.
pub open spec fn pack_entry(name: Seq<char>) -> Seq<char> {
    if is_pack_name(name) {
        seq!['P', ' '] + name + seq!['\n']
    } else {
        Seq::empty()
    }
}

/// The content of `info/packs` for the entries of the pack directory in
/// enumeration order.
pub open spec fn info_packs(names: Seq<Seq<char>>) -> Seq<char> {
    names.flat_map(|n: Seq<char>| pack_entry(n))
}

/// Decides whether a directory entry of this name is a pack file.
pub fn is_pack_file(name: &str) -> (is_pack: bool)
    ensures
        is_pack == is_pack_name(name@),
{
    let len: usize = name.unicode_len();
    if len <= 5 {
        return false;
    }
    let start: usize = len - 5;
    let matches = name.get_char(start) == '.' && name.get_char(start + 1) == 'p'
        && name.get_char(start + 2) == 'a' && name.get_char(start + 3) == 'c'
        && name.get_char(start + 4) == 'k';
    proof {
        let ending = name@.subrange(name@.len() - 5, name@.len() as int);
        if matches {
            assert(ending =~= pack_suffix());
        } else {
            assert(pack_suffix()[0] == '.' && pack_suffix()[1] == 'p' && pack_suffix()[2] == 'a'
                && pack_suffix()[3] == 'c' && pack_suffix()[4] == 'k');
        }
    }
    matches
}

/// Writes out `info/refs`: one line `<id>\t<name>\n` for every reference
/// that has a name and a resolved target, in the order given.  References
/// without either are passed over.
pub fn render_info_refs(refs: &Vec<RefRecord>) -> (text: String)
    ensures
        text@ == info_refs(refs@),
{
    let ghost entry = |r: RefRecord| ref_entry(r);
    let mut text = String::new();
    let mut i: usize = 0;
    while i < refs.len()
        invariant
            0 <= i <= refs.len(),
            entry == |r: RefRecord| ref_entry(r),
            text@ == refs@.take(i as int).flat_map(entry),
        decreases refs.len() - i,
    {
        let record = &refs[i];
        match (&record.name, &record.target) {
            (Some(name), Some(target)) => {
                let hex = target.to_hex();
                text.append(hex.as_str());
                text.append("\t");
                text.append(name.as_str());
                text.append("\n");
            },
            _ => {},
        }
        proof {
            reveal_strlit("\t");
            reveal_strlit("\n");
            refs@.lemma_flat_map_take_append(entry, i as int);
        }
        i += 1;
    }
    assert(refs@.take(i as int) =~= refs@);
    text
}

/// Writes out `info/packs`: one line `P <name>\n` for every entry of the
/// pack directory whose extension is `pack`, in the order given.
pub fn render_info_packs(entries: &Vec<String>) -> (text: String)
    ensures
        text@ == info_packs(names_of(entries@)),
{
    let ghost entry = |n: Seq<char>| pack_entry(n);
    let ghost names = names_of(entries@);
    let mut text = String::new();
    let mut i: usize = 0;
    while i < entries.len()
        invariant
            0 <= i <= entries.len(),
            names == names_of(entries@),
            names.len() == entries.len(),
            entry == |n: Seq<char>| pack_entry(n),
            text@ == names.take(i as int).flat_map(entry),
        decreases entries.len() - i,
    {
        let name = entries[i].as_str();
        if is_pack_file(name) {
            text.append("P ");
            text.append(name);
            text.append("\n");
        }
        proof {
            reveal_strlit("P ");
            reveal_strlit("\n");
            names.lemma_flat_map_take_append(entry, i as int);
        }
        i += 1;
    }
    assert(names.take(i as int) =~= names);
    text
}

/// The two discovery files of one reading of a repository.
#[derive(Clone, Debug, PartialEq, Eq)]
pub struct ServerInfo {
    /// The content of `info/refs`.
    pub refs: String,
    /// The content of `info/packs`.
    pub packs: String,
}

/// The names in the pack directory; a missing directory holds none.
pub open spec fn pack_listing(pack_dir: Option<Vec<String>>) -> Seq<Seq<char>> {
    match pack_dir {
        Some(entries) => names_of(entries@),
        None => Seq::empty(),
    }
}

/// Whether `info` is what one reading of a repository gives: `refs` are
/// its references, `pack_dir` the entries of `objects/pack`.
pub open spec fn is_snapshot_of(
    info: ServerInfo,
    refs: Seq<RefRecord>,
    pack_dir: Option<Vec<String>>,
) -> bool {
    info.refs@ == info_refs(refs) && info.packs@ == info_packs(pack_listing(pack_dir))
}

/// Rebuilds both discovery files from one reading of the repository.
///
/// `refs` are the references in the repository's own iteration order;
/// `pack_dir` holds the file names found in `objects/pack`, or `None` where
/// that directory does not exist, which gives an empty `info/packs`.
/// Nothing of an earlier snapshot enters the result.
pub fn update_server_info(refs: &Vec<RefRecord>, pack_dir: &Option<Vec<String>>) -> (info:
    ServerInfo)
    ensures
        is_snapshot_of(info, refs@, *pack_dir),
{
    let refs_text = render_info_refs(refs);
    let packs_text = match pack_dir {
        Some(entries) => render_info_packs(entries),
        None => {
            assert(Seq::<Seq<char>>::empty().flat_map(|n: Seq<char>| pack_entry(n))
                =~= Seq::<char>::empty());
            String::new()
        },
    };
    ServerInfo { refs: refs_text, packs: packs_text }
}

} // verus!

//! Finding the repositories below a serving root.

use vstd::prelude::*;
use crate::error::ServeError;
use crate::text::names_of;

verus! {

/// One entry of the serving root, as the directory scan reports it.
#[derive(Clone, Debug)]
pub struct Candidate {
    /// Base name of the entry.
    pub name: String,
    /// Whether the entry is a directory.
    pub is_dir: bool,
    /// Whether the entry opens as a bare repository.
    pub opens_as_bare: bool,
}

/// The name of a repository's own metadata directory.  An entry of this
/// name is never listed, even though it opens as a bare repository.
pub open spec fn reserved_name() -> Seq<char> {
    seq!['.', 'g', 'i', 't']
}

/// An entry is a served repository iff it is a directory that opens as a
/// bare repository and is not named like the metadata directory.
pub open spec fn qualifies(c: Candidate) -> bool {
    c.is_dir && c.opens_as_bare && c.name@ != reserved_name()
}

/// The base names of the served repositories among `entries`, in the order
/// of the scan.
pub open spec fn discovered(entries: Seq<Candidate>) -> Seq<Seq<char>> {
    entries.filter(|c: Candidate| qualifies(c)).map_values(|c: Candidate| c.name@)
}

/// There is something to serve iff at least one entry qualifies.
pub open spec fn holds_repository(entries: Seq<Candidate>) -> bool {
    exists|i: int| 0 <= i < entries.len() && qualifies(#[trigger] entries[i])
}

/// Nothing is discovered exactly where no entry qualifies, and every
/// discovered name belongs to an entry that qualifies.
pub proof fn discovered_names_are_of_qualifying_entries(entries: Seq<Candidate>)
    ensures
        discovered(entries).len() == 0 <==> !holds_repository(entries),
        discovered(entries).len() <= entries.len(),
        forall|k: int|
            0 <= k < discovered(entries).len() ==> exists|i: int|
                0 <= i < entries.len() && qualifies(entries[i]) && #[trigger] entries[i].name@
                    == #[trigger] discovered(entries)[k],
        forall|k: int|
            0 <= k < discovered(entries).len() ==> #[trigger] discovered(entries)[k]
                != reserved_name(),
    decreases entries.len(),
{
    let keep = |c: Candidate| qualifies(c);
    reveal(Seq::filter);
    if entries.len() == 0 {
        assert(entries.filter(keep) =~= Seq::<Candidate>::empty());
    } else {
        let init = entries.drop_last();
        let last = entries.last();
        discovered_names_are_of_qualifying_entries(init);
        if qualifies(last) {
            assert(entries.filter(keep) == init.filter(keep).push(last));
            assert(discovered(entries) =~= discovered(init).push(last.name@));
            assert(qualifies(entries[entries.len() - 1]));
        } else {
            assert(entries.filter(keep) == init.filter(keep));
            assert(discovered(entries) == discovered(init));
            if holds_repository(entries) {
                let i = choose|i: int| 0 <= i < entries.len() && qualifies(entries[i]);
                assert(i < init.len());
                assert(qualifies(init[i]));
            }
        }
        assert forall|k: int| 0 <= k < discovered(entries).len() implies exists|i: int|
            0 <= i < entries.len() && qualifies(entries[i]) && #[trigger] entries[i].name@
                == #[trigger] discovered(entries)[k] by {
            if k < discovered(init).len() {
                assert(discovered(entries)[k] == discovered(init)[k]);
                let i = choose|i: int|
                    0 <= i < init.len() && qualifies(init[i]) && #[trigger] init[i].name@
                        == discovered(init)[k];
                assert(entries[i].name@ == discovered(entries)[k]);
            } else {
                let i = entries.len() - 1;
                assert(entries[i].name@ == discovered(entries)[k]);
            }
        }
    }
}

impl Candidate {
    /// Decides whether this entry is a served repository.
    pub fn is_served(&self) -> (served: bool)
        ensures
            served == qualifies(*self),
    {
        if !self.is_dir || !self.opens_as_bare {
            return false;
        }
        let reserved = ".git";
        proof {
            reveal_strlit(".git");
            assert(reserved@ =~= reserved_name());
        }
        let reserved_owned = reserved.to_owned();
        !(self.name == reserved_owned)
    }
}

/// Lists the served repositories among the entries of a serving root.
///
/// The result holds the base name of every qualifying entry, in scan order.
/// An empty result is an error: there is nothing to serve.
pub fn list_repos(entries: &Vec<Candidate>) -> (found: Result<Vec<String>, ServeError>)
    ensures
        match found {
            Ok(names) => names_of(names@) == discovered(entries@) && names@.len() > 0,
            Err(e) => e == ServeError::NoRepositoriesFound && discovered(entries@).len() == 0,
        },
        found is Ok <==> holds_repository(entries@),
{
    proof {
        discovered_names_are_of_qualifying_entries(entries@);
    }
    let ghost keep = |c: Candidate| qualifies(c);
    let ghost name = |c: Candidate| c.name@;
    let mut repos: Vec<String> = Vec::new();
    let mut i: usize = 0;
    assert(entries@.take(0).filter(keep) =~= Seq::<Candidate>::empty()) by {
        reveal(Seq::filter);
    }
    while i < entries.len()
        invariant
            0 <= i <= entries.len(),
            keep == |c: Candidate| qualifies(c),
            name == |c: Candidate| c.name@,
            names_of(repos@) == entries@.take(i as int).filter(keep).map_values(name),
        decreases entries.len() - i,
    {
        let entry = &entries[i];
        proof {
            let before = entries@.take(i as int);
            let next = entries@.take(i + 1);
            assert(next.drop_last() =~= before);
            reveal(Seq::filter);
            assert(next.filter(keep) == if keep(entries@[i as int]) {
                before.filter(keep).push(entries@[i as int])
            } else {
                before.filter(keep)
            });
        }
        if entry.is_served() {
            repos.push(entry.name.clone());
            assert(entries@.take(i + 1).filter(keep).map_values(name)
                =~= entries@.take(i as int).filter(keep).map_values(name).push(entry.name@));
        }
        i += 1;
    }
    assert(entries@.take(i as int) =~= entries@);
    if repos.len() == 0 {
        Err(ServeError::NoRepositoriesFound)
    } else {
        Ok(repos)
    }
}

} // verus!

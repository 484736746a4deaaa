use vstd::prelude::*;

verus! {

/// Where each team of the battle stands in the list of teams, keyed by the
/// team's id, held in a `hashbrown` map.
#[verifier::external_body]
pub struct TeamDirectory {
    map: hashbrown::HashMap<u64, usize>,
}

/// The entries of a directory.
pub uninterp spec fn directory_entries(d: TeamDirectory) -> Map<u64, usize>;

/// Relies on hashbrown::HashMap::new: the map starts empty.
#[verifier::external_body]
pub(crate) fn directory_new() -> (r: TeamDirectory)
    ensures
        forall|k: u64| !directory_entries(r).contains_key(k),
{
    TeamDirectory { map: hashbrown::HashMap::new() }
}

/// Relies on hashbrown::HashMap::insert: the key maps to the value afterwards,
/// every other key keeps its entry.
#[verifier::external_body]
pub(crate) fn directory_insert(d: &mut TeamDirectory, key: u64, value: usize)
    ensures
        directory_entries(*final(d)) == directory_entries(*old(d)).insert(key, value),
{
    d.map.insert(key, value);
}

/// Relies on hashbrown::HashMap::get: the value of the key, if it has one.
#[verifier::external_body]
pub(crate) fn directory_get(d: &TeamDirectory, key: u64) -> (r: Option<usize>)
    ensures
        r == (if directory_entries(*d).contains_key(key) {
            Some(directory_entries(*d)[key])
        } else {
            None
        }),
{
    d.map.get(&key).copied()
}

} // verus!

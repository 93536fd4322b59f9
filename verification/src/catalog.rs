//! The list of installed runtime versions, from what a scan of the runtime
//! directory found.

use crate::descriptor::{ProtonVersion, ProtonVersionView};
use crate::path::{join, path_join};
use crate::text::{lemma_text_le_total, lemma_text_le_transitive, precedes_or_equals, text_le};
use vstd::prelude::*;

verus! {

/// Name of the runtime's entry point inside the directory of a version.
pub const RUNTIME_ENTRY: &'static str = "proton";

/// One entry of the runtime directory, as the scan saw it.
#[derive(Clone, Debug, PartialEq, Eq)]
pub struct ScanEntry {
    /// The entry's file name.
    pub name: String,
    /// Whether the entry is a directory.
    pub is_dir: bool,
    /// Whether the entry holds the runtime's entry point.
    pub has_runtime: bool,
}

/// A `ScanEntry` as contracts see it.
pub struct ScanEntryView {
    pub name: Seq<char>,
    pub is_dir: bool,
    pub has_runtime: bool,
}

impl View for ScanEntry {
    type V = ScanEntryView;

    open spec fn view(&self) -> ScanEntryView {
        ScanEntryView { name: self.name@, is_dir: self.is_dir, has_runtime: self.has_runtime }
    }
}

/// The views of the entries of `v`, in order.
pub open spec fn entry_views(v: Seq<ScanEntry>) -> Seq<ScanEntryView> {
    v.map_values(|e: ScanEntry| e@)
}

/// The views of the versions of `v`, in order.
pub open spec fn version_views(v: Seq<ProtonVersion>) -> Seq<ProtonVersionView> {
    v.map_values(|p: ProtonVersion| p@)
}

/// Whether an entry is an installed version: a directory with the entry point.
pub open spec fn is_version(entry: ScanEntryView) -> bool {
    entry.is_dir && entry.has_runtime
}

/// The version that the directory `name` below `base_path` holds.
pub open spec fn version_at(base_path: Seq<char>, name: Seq<char>) -> ProtonVersionView {
    ProtonVersionView { name, path: path_join(path_join(base_path, name), RUNTIME_ENTRY@) }
}

/// The versions among `entries`, in the order of the scan.
pub open spec fn found_versions(base_path: Seq<char>, entries: Seq<ScanEntryView>) -> Seq<
    ProtonVersionView,
>
    decreases entries.len(),
{
    if entries.len() == 0 {
        Seq::empty()
    } else {
        let before = found_versions(base_path, entries.drop_last());
        if is_version(entries.last()) {
            before.push(version_at(base_path, entries.last().name))
        } else {
            before
        }
    }
}

/// Whether the names of `versions` go down, so that the newest comes first.
pub open spec fn newest_first(versions: Seq<ProtonVersionView>) -> bool {
    forall|i: int, j: int|
        0 <= i < j < versions.len() ==> text_le(
            (#[trigger] versions[j]).name,
            (#[trigger] versions[i]).name,
        )
}

/// Puts `version` into `out`, which is ordered newest first and stays so: behind
/// every version whose name is not smaller, before the first whose name is.
fn insert_ordered(out: &mut Vec<ProtonVersion>, version: ProtonVersion)
    requires
        newest_first(version_views(old(out)@)),
    ensures
        newest_first(version_views(final(out)@)),
        version_views(final(out)@).to_multiset() == version_views(old(out)@).to_multiset().insert(
            version@,
        ),
{
    let ghost before = version_views(out@);
    let mut at: usize = 0;
    while at < out.len() && precedes_or_equals(version.name.as_str(), out[at].name.as_str())
        invariant
            at <= out.len(),
            out@ == old(out)@,
            before == version_views(out@),
            forall|i: int| 0 <= i < at ==> text_le(version@.name, (#[trigger] before[i]).name),
        decreases out.len() - at,
    {
        at += 1;
    }
    proof {
        let after = before.insert(at as int, version@);
        assert(version_views(out@.insert(at as int, version)) =~= after);
        vstd::seq_lib::to_multiset_insert(before, at as int, version@);
        assert forall|i: int, j: int| 0 <= i < j < after.len() implies text_le(
            (#[trigger] after[j]).name,
            (#[trigger] after[i]).name,
        ) by {
            if j < at {
                assert(after[i] == before[i] && after[j] == before[j]);
            } else if j == at {
                assert(after[i] == before[i]);
            } else if i == at {
                assert(after[j] == before[j - 1]);
                lemma_text_le_total(version@.name, before[at as int].name);
                if j - 1 > at {
                    assert(text_le(before[j - 1].name, before[at as int].name));
                    lemma_text_le_transitive(
                        before[j - 1].name,
                        before[at as int].name,
                        version@.name,
                    );
                }
            } else if i < at {
                assert(after[i] == before[i] && after[j] == before[j - 1]);
            } else {
                assert(after[i] == before[i - 1] && after[j] == before[j - 1]);
            }
        }
    }
    out.insert(at, version);
}

/// The installed versions below `base_path`, from the entries that a scan of
/// that directory found: every entry that is a directory and holds the runtime's
/// entry point, and no other, ordered by name so that the newest comes first.
pub fn scan_manual_proton(base_path: &str, entries: &Vec<ScanEntry>) -> (versions: Vec<
    ProtonVersion,
>)
    ensures
        newest_first(version_views(versions@)),
        version_views(versions@).to_multiset() == found_versions(
            base_path@,
            entry_views(entries@),
        ).to_multiset(),
{
    let mut versions: Vec<ProtonVersion> = Vec::new();
    let mut i: usize = 0;
    proof {
        assert(entry_views(entries@).take(0) =~= Seq::<ScanEntryView>::empty());
        assert(version_views(versions@) =~= Seq::<ProtonVersionView>::empty());
    }
    while i < entries.len()
        invariant
            i <= entries.len(),
            newest_first(version_views(versions@)),
            version_views(versions@).to_multiset() == found_versions(
                base_path@,
                entry_views(entries@).take(i as int),
            ).to_multiset(),
        decreases entries.len() - i,
    {
        let entry = &entries[i];
        proof {
            let upto = entry_views(entries@).take(i + 1);
            assert(upto.drop_last() =~= entry_views(entries@).take(i as int));
            assert(upto.last() == entry@);
            vstd::seq_lib::to_multiset_build(
                found_versions(base_path@, upto.drop_last()),
                version_at(base_path@, entry@.name),
            );
        }
        if entry.is_dir && entry.has_runtime {
            let dir = join(base_path, entry.name.as_str());
            let version = ProtonVersion {
                name: entry.name.clone(),
                path: join(dir.as_str(), RUNTIME_ENTRY),
            };
            insert_ordered(&mut versions, version);
        }
        i += 1;
    }
    proof {
        assert(entry_views(entries@).take(i as int) =~= entry_views(entries@));
    }
    versions
}

} // verus!

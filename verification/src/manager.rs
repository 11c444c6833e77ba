//! The registry of download jobs.
//!
//! The registry maps identifiers to records. It keeps them in the order in
//! which they were added; an identifier occurs once.

use vstd::prelude::*;
use vstd::string::StringExecFns;
use crate::download::{Download, DownloadView};
use crate::progress::Progress;
use crate::status::{DownloadStatus, StatusView};

verus! {

/// The map that a list of distinct keys and the list of their records
/// stand for.
pub open spec fn registry_map(keys: Seq<Seq<char>>, records: Seq<DownloadView>) -> Map<
    Seq<char>,
    DownloadView,
> {
    Map::new(|key: Seq<char>| keys.contains(key), |key: Seq<char>| records[keys.index_of(key)])
}

/// The identifiers of the jobs that have ended.
pub open spec fn terminal_ids(jobs: Map<Seq<char>, DownloadView>) -> Set<Seq<char>> {
    Set::new(|id: Seq<char>| jobs.contains_key(id) && jobs[id].status.is_terminal())
}

/// The jobs that have not ended.
pub open spec fn without_terminal(jobs: Map<Seq<char>, DownloadView>) -> Map<
    Seq<char>,
    DownloadView,
> {
    jobs.remove_keys(terminal_ids(jobs))
}

/// The jobs with one of them canceled.
pub open spec fn with_canceled(jobs: Map<Seq<char>, DownloadView>, id: Seq<char>) -> Map<
    Seq<char>,
    DownloadView,
> {
    jobs.insert(id, DownloadView { status: StatusView::Canceled, ..jobs[id] })
}

/// What is reported when no job has the identifier.
pub open spec fn not_found_text(id: Seq<char>) -> Seq<char> {
    "Download with id "@ + id + " not found"@
}

/// A key that stands at a place in a list without repeats is found there.
proof fn lemma_found_at(keys: Seq<Seq<char>>, records: Seq<DownloadView>, place: int)
    requires
        keys.no_duplicates(),
        0 <= place < keys.len(),
    ensures
        keys.contains(keys[place]),
        keys.index_of(keys[place]) == place,
        registry_map(keys, records).contains_key(keys[place]),
        registry_map(keys, records)[keys[place]] == records[place],
{
    let found = keys.index_of(keys[place]);
    assert(0 <= found < keys.len() && keys[found] == keys[place]);
}

/// Changing the record at a place changes the map at the key of that place.
proof fn lemma_record_changed(
    keys: Seq<Seq<char>>,
    records: Seq<DownloadView>,
    place: int,
    record: DownloadView,
)
    requires
        keys.no_duplicates(),
        keys.len() == records.len(),
        0 <= place < keys.len(),
    ensures
        registry_map(keys, records.update(place, record)) == registry_map(keys, records).insert(
            keys[place],
            record,
        ),
{
    let changed = registry_map(keys, records.update(place, record));
    let inserted = registry_map(keys, records).insert(keys[place], record);
    lemma_found_at(keys, records, place);
    assert forall|key: Seq<char>| changed.contains_key(key) implies #[trigger] changed[key]
        == inserted[key] by {
        let at = keys.index_of(key);
        assert(0 <= at < keys.len() && keys[at] == key);
    }
    assert(changed =~= inserted);
}

/// A new key with its record at the end adds one entry to the map.
proof fn lemma_entry_added(
    keys: Seq<Seq<char>>,
    records: Seq<DownloadView>,
    key: Seq<char>,
    record: DownloadView,
)
    requires
        keys.no_duplicates(),
        keys.len() == records.len(),
        !keys.contains(key),
    ensures
        keys.push(key).no_duplicates(),
        registry_map(keys.push(key), records.push(record)) == registry_map(keys, records).insert(
            key,
            record,
        ),
{
    let longer = keys.push(key);
    assert forall|i: int, j: int|
        0 <= i < longer.len() && 0 <= j < longer.len() && i != j implies longer[i]
        != longer[j] by {
        if i < keys.len() {
            assert(keys[i] == longer[i]);
        }
        if j < keys.len() {
            assert(keys[j] == longer[j]);
        }
    }
    let added = registry_map(longer, records.push(record));
    let inserted = registry_map(keys, records).insert(key, record);
    assert forall|k: Seq<char>| added.contains_key(k) <==> inserted.contains_key(k) by {
        if longer.contains(k) {
            let at = longer.index_of(k);
            assert(0 <= at < longer.len() && longer[at] == k);
            if at < keys.len() {
                assert(keys[at] == k);
            }
        }
        if keys.contains(k) {
            let at = keys.index_of(k);
            assert(0 <= at < keys.len() && keys[at] == k);
            assert(longer[at] == k);
        }
        if k == key {
            assert(longer[keys.len() as int] == k);
        }
    }
    assert forall|k: Seq<char>| added.contains_key(k) implies #[trigger] added[k]
        == inserted[k] by {
        let at = longer.index_of(k);
        assert(0 <= at < longer.len() && longer[at] == k);
        if at < keys.len() {
            assert(keys[at] == k);
            lemma_found_at(keys, records, at);
        }
    }
    assert(added =~= inserted);
}

/// Taking the entry at a place away removes its key from the map.
proof fn lemma_entry_removed(keys: Seq<Seq<char>>, records: Seq<DownloadView>, place: int)
    requires
        keys.no_duplicates(),
        keys.len() == records.len(),
        0 <= place < keys.len(),
    ensures
        keys.remove(place).no_duplicates(),
        !keys.remove(place).contains(keys[place]),
        registry_map(keys.remove(place), records.remove(place)) == registry_map(
            keys,
            records,
        ).remove(keys[place]),
{
    let shorter = keys.remove(place);
    let fewer = records.remove(place);
    assert forall|i: int| 0 <= i < shorter.len() implies #[trigger] shorter[i] == keys[if i
        < place {
        i
    } else {
        i + 1
    }] && fewer[i] == records[if i < place {
        i
    } else {
        i + 1
    }] by {}
    assert(shorter.no_duplicates());
    if shorter.contains(keys[place]) {
        let at = shorter.index_of(keys[place]);
        assert(0 <= at < shorter.len() && shorter[at] == keys[place]);
    }
    let removed = registry_map(shorter, fewer);
    let expected = registry_map(keys, records).remove(keys[place]);
    assert forall|k: Seq<char>| removed.contains_key(k) <==> expected.contains_key(k) by {
        if shorter.contains(k) {
            let at = shorter.index_of(k);
            assert(0 <= at < shorter.len() && shorter[at] == k);
            let origin = if at < place {
                at
            } else {
                at + 1
            };
            assert(keys[origin] == k);
        }
        if keys.contains(k) && k != keys[place] {
            let at = keys.index_of(k);
            assert(0 <= at < keys.len() && keys[at] == k);
            let target = if at < place {
                at
            } else {
                at - 1
            };
            assert(shorter[target] == k);
        }
    }
    assert forall|k: Seq<char>| removed.contains_key(k) implies #[trigger] removed[k]
        == expected[k] by {
        let at = shorter.index_of(k);
        assert(0 <= at < shorter.len() && shorter[at] == k);
        let origin = if at < place {
            at
        } else {
            at + 1
        };
        assert(keys[origin] == k);
        lemma_found_at(keys, records, origin);
    }
    assert(removed =~= expected);
}

/// A list of keys without repeats has as many keys as its map.
proof fn lemma_as_many_keys(keys: Seq<Seq<char>>, records: Seq<DownloadView>)
    requires
        keys.no_duplicates(),
    ensures
        registry_map(keys, records).dom().finite(),
        registry_map(keys, records).dom().len() == keys.len(),
{
    keys.unique_seq_to_set();
    assert(registry_map(keys, records).dom() =~= keys.to_set());
}

/// The registry of download jobs.
#[derive(Debug)]
pub struct DownloadManager {
    ids: Vec<String>,
    records: Vec<Download>,
}

impl Default for DownloadManager {
    fn default() -> (r: DownloadManager)
        ensures
            r.wf(),
            r@ == Map::<Seq<char>, DownloadView>::empty(),
            r.keys() == Seq::<Seq<char>>::empty(),
    {
        DownloadManager::new()
    }
}

impl View for DownloadManager {
    type V = Map<Seq<char>, DownloadView>;

    open spec fn view(&self) -> Map<Seq<char>, DownloadView> {
        registry_map(self.keys(), self.listing())
    }
}

impl DownloadManager {
    /// The identifiers in the registry, in the order in which they were
    /// added.
    pub closed spec fn keys(&self) -> Seq<Seq<char>> {
        self.ids.deep_view()
    }

    /// The records in the registry, each at the place of its identifier.
    pub closed spec fn listing(&self) -> Seq<DownloadView> {
        self.records.deep_view()
    }

    /// Every identifier has its record, and none occurs twice.
    pub open spec fn wf(&self) -> bool {
        &&& self.keys().len() == self.listing().len()
        &&& self.keys().no_duplicates()
    }

    /// In a registry that is well formed the records are listed one per
    /// identifier: the record at a place is the one that the map holds under
    /// the identifier at that place, and the map holds no others.
    pub proof fn lemma_listing_is_the_map(&self)
        requires
            self.wf(),
        ensures
            self@.dom().finite(),
            self@.dom().len() == self.keys().len(),
            self@.dom() == self.keys().to_set(),
            forall|place: int|
                0 <= place < self.keys().len() ==> self@.contains_key(
                    #[trigger] self.keys()[place],
                ) && self@[self.keys()[place]] == self.listing()[place],
    {
        lemma_as_many_keys(self.keys(), self.listing());
        assert(self@.dom() =~= self.keys().to_set());
        assert forall|place: int| 0 <= place < self.keys().len() implies self@.contains_key(
            #[trigger] self.keys()[place],
        ) && self@[self.keys()[place]] == self.listing()[place] by {
            lemma_found_at(self.keys(), self.listing(), place);
        }
    }

    /// A registry without jobs.
    pub fn new() -> (r: DownloadManager)
        ensures
            r.wf(),
            r@ == Map::<Seq<char>, DownloadView>::empty(),
            r.keys() == Seq::<Seq<char>>::empty(),
    {
        let manager = DownloadManager { ids: Vec::new(), records: Vec::new() };
        assert(manager.keys() =~= Seq::<Seq<char>>::empty());
        assert(manager.listing() =~= Seq::<DownloadView>::empty());
        assert(manager@ =~= Map::<Seq<char>, DownloadView>::empty());
        manager
    }

    /// The place of an identifier in the registry.
    fn position(&self, id: &str) -> (r: Option<usize>)
        requires
            self.wf(),
        ensures
            match r {
                Some(place) => {
                    &&& place < self.keys().len()
                    &&& self.keys()[place as int] == id@
                    &&& self@.contains_key(id@)
                    &&& self@[id@] == self.listing()[place as int]
                },
                None => !self.keys().contains(id@) && !self@.contains_key(id@),
            },
    {
        let wanted = id.to_owned();
        let mut place: usize = 0;
        while place < self.ids.len()
            invariant
                self.wf(),
                place <= self.ids.len(),
                wanted@ == id@,
                forall|p: int| 0 <= p < place ==> self.ids@[p]@ != id@,
            decreases self.ids.len() - place,
        {
            if self.ids[place] == wanted {
                proof {
                    lemma_found_at(self.keys(), self.listing(), place as int);
                }
                return Some(place);
            }
            place = place + 1;
        }
        None
    }

    /// Adds a record under its own identifier and returns the identifier. A
    /// record that was there under the same identifier is replaced.
    pub fn add_download(&mut self, download: Download) -> (id: String)
        requires
            old(self).wf(),
        ensures
            final(self).wf(),
            id@ == download@.id,
            final(self)@ == old(self)@.insert(download@.id, download@),
            final(self).keys() == if old(self).keys().contains(download@.id) {
                old(self).keys()
            } else {
                old(self).keys().push(download@.id)
            },
    {
        let id = download.id.clone();
        match self.position(id.as_str()) {
            Some(place) => {
                proof {
                    lemma_record_changed(self.keys(), self.listing(), place as int, download@);
                }
                let ghost before = self.listing();
                self.records[place] = download;
                assert(self.listing() =~= before.update(place as int, download@));
            },
            None => {
                proof {
                    lemma_entry_added(self.keys(), self.listing(), id@, download@);
                }
                let ghost keys_before = self.keys();
                let ghost records_before = self.listing();
                self.ids.push(id.clone());
                self.records.push(download);
                assert(self.keys() =~= keys_before.push(id@));
                assert(self.listing() =~= records_before.push(download@));
            },
        }
        id
    }

    /// The record under an identifier.
    pub fn get_download(&self, id: &str) -> (r: Option<&Download>)
        requires
            self.wf(),
        ensures
            match r {
                Some(download) => self@.contains_key(id@) && self@[id@] == download@,
                None => !self@.contains_key(id@),
            },
    {
        match self.position(id) {
            Some(place) => Some(&self.records[place]),
            None => None,
        }
    }

    /// The record under an identifier, to be changed in place.
    pub fn get_download_mut(&mut self, id: &str) -> (r: Option<&mut Download>)
        requires
            old(self).wf(),
        ensures
            final(self).wf(),
            final(self).keys() == old(self).keys(),
            match r {
                Some(download) => {
                    &&& old(self)@.contains_key(id@)
                    &&& download@ == old(self)@[id@]
                    &&& final(self)@ == old(self)@.insert(id@, final(download)@)
                },
                None => !old(self)@.contains_key(id@) && final(self)@ == old(self)@,
            },
    {
        match self.position(id) {
            Some(place) => {
                let ghost keys = self.keys();
                let ghost before = self.listing();
                let record = &mut self.records[place];
                proof {
                    lemma_record_changed(keys, before, place as int, final(record)@);
                    assert(after_borrow(self.records).deep_view() =~= before.update(
                        place as int,
                        final(record)@,
                    ));
                }
                Some(record)
            },
            None => None,
        }
    }

    /// Copies of all records, in the order in which their identifiers were
    /// added.
    pub fn get_all_downloads(&self) -> (r: Vec<Download>)
        ensures
            r.deep_view() == self.listing(),
    {
        let mut all: Vec<Download> = Vec::new();
        let mut place: usize = 0;
        while place < self.records.len()
            invariant
                place <= self.records.len(),
                all.len() == place,
                forall|p: int| 0 <= p < place ==> all@[p]@ == self.records@[p]@,
            decreases self.records.len() - place,
        {
            all.push(self.records[place].clone());
            place = place + 1;
        }
        assert(all.deep_view() =~= self.listing());
        all
    }

    /// Sets the status of the job under an identifier. Fails where no job
    /// has the identifier.
    pub fn update_download_status(&mut self, id: &str, status: DownloadStatus) -> (r: Result<
        (),
        String,
    >)
        requires
            old(self).wf(),
        ensures
            final(self).wf(),
            final(self).keys() == old(self).keys(),
            match r {
                Ok(_) => {
                    &&& old(self)@.contains_key(id@)
                    &&& final(self)@ == old(self)@.insert(
                        id@,
                        DownloadView { status: status@, ..old(self)@[id@] },
                    )
                },
                Err(message) => {
                    &&& !old(self)@.contains_key(id@)
                    &&& final(self)@ == old(self)@
                    &&& message@ == not_found_text(id@)
                },
            },
    {
        match self.get_download_mut(id) {
            Some(download) => {
                download.update_status(status);
                Ok(())
            },
            None => Err(not_found_message(id)),
        }
    }

    /// Sets the progress of the job under an identifier. Fails where no job
    /// has the identifier.
    pub fn update_download_progress(&mut self, id: &str, progress: Progress) -> (r: Result<
        (),
        String,
    >)
        requires
            old(self).wf(),
        ensures
            final(self).wf(),
            final(self).keys() == old(self).keys(),
            match r {
                Ok(_) => {
                    &&& old(self)@.contains_key(id@)
                    &&& final(self)@ == old(self)@.insert(
                        id@,
                        DownloadView { progress: Some(progress@), ..old(self)@[id@] },
                    )
                },
                Err(message) => {
                    &&& !old(self)@.contains_key(id@)
                    &&& final(self)@ == old(self)@
                    &&& message@ == not_found_text(id@)
                },
            },
    {
        match self.get_download_mut(id) {
            Some(download) => {
                download.update_progress(progress);
                Ok(())
            },
            None => Err(not_found_message(id)),
        }
    }

    /// Takes the job under an identifier out of the registry and returns its
    /// record.
    pub fn remove_download(&mut self, id: &str) -> (r: Option<Download>)
        requires
            old(self).wf(),
        ensures
            final(self).wf(),
            final(self)@ == old(self)@.remove(id@),
            match r {
                Some(download) => old(self)@.contains_key(id@) && download@ == old(self)@[id@],
                None => !old(self)@.contains_key(id@),
            },
    {
        match self.position(id) {
            Some(place) => {
                proof {
                    lemma_entry_removed(self.keys(), self.listing(), place as int);
                }
                let ghost keys_before = self.keys();
                let ghost records_before = self.listing();
                self.ids.remove(place);
                let record = self.records.remove(place);
                assert(self.keys() =~= keys_before.remove(place as int));
                assert(self.listing() =~= records_before.remove(place as int));
                Some(record)
            },
            None => {
                assert(self@.remove(id@) =~= self@);
                None
            },
        }
    }

    /// Takes every job that has ended out of the registry and returns how
    /// many they were.
    pub fn clear_completed_downloads(&mut self) -> (count: usize)
        requires
            old(self).wf(),
        ensures
            final(self).wf(),
            final(self)@ == without_terminal(old(self)@),
            count == terminal_ids(old(self)@).len(),
    {
        let ghost before = self@;
        let ghost size_before = self.keys().len();
        assert(size_before == self.ids.len());
        proof {
            lemma_as_many_keys(self.keys(), self.listing());
        }
        let mut count: usize = 0;
        let mut place: usize = 0;
        while place < self.records.len()
            invariant
                self.wf(),
                place <= self.records.len(),
                self.records.len() == self.listing().len(),
                count + self.keys().len() == size_before,
                size_before <= usize::MAX,
                forall|p: int|
                    0 <= p < place ==> !(#[trigger] self.listing()[p]).status.is_terminal(),
                forall|id: Seq<char>| #[trigger]
                    self@.contains_key(id) ==> before.contains_key(id) && self@[id] == before[id],
                forall|id: Seq<char>| #[trigger]
                    before.contains_key(id) && !before[id].status.is_terminal()
                        ==> self@.contains_key(id),
            decreases self.records.len() - place,
        {
            if self.records[place].status.is_terminal() {
                proof {
                    lemma_entry_removed(self.keys(), self.listing(), place as int);
                    lemma_found_at(self.keys(), self.listing(), place as int);
                }
                let ghost jobs_before = self@;
                let ghost keys_before = self.keys();
                let ghost records_before = self.listing();
                self.ids.remove(place);
                self.records.remove(place);
                assert(self.keys() =~= keys_before.remove(place as int));
                assert(self.listing() =~= records_before.remove(place as int));
                assert(self@ == jobs_before.remove(keys_before[place as int]));
                count = count + 1;
            } else {
                place = place + 1;
            }
        }
        proof {
            let after = self@;
            let keys = self.keys();
            let records = self.listing();
            assert forall|id: Seq<char>| after.contains_key(id) implies !before[
                id
            ].status.is_terminal() by {
                let at = keys.index_of(id);
                assert(0 <= at < keys.len() && keys[at] == id);
                lemma_found_at(keys, records, at);
            }
            assert(after =~= without_terminal(before));
            lemma_as_many_keys(keys, records);
            assert(terminal_ids(before) =~= before.dom().difference(after.dom()));
            assert(before.dom().intersect(after.dom()) =~= after.dom());
            vstd::set_lib::lemma_set_difference_len(before.dom(), after.dom());
        }
        count
    }

    /// Marks the job under an identifier as canceled and returns a copy of
    /// its record, for observers. Fails where no job has the identifier.
    pub fn cancel_download(&mut self, id: &str) -> (r: Result<Download, String>)
        requires
            old(self).wf(),
        ensures
            final(self).wf(),
            final(self).keys() == old(self).keys(),
            match r {
                Ok(download) => {
                    &&& old(self)@.contains_key(id@)
                    &&& final(self)@ == with_canceled(old(self)@, id@)
                    &&& download@ == final(self)@[id@]
                },
                Err(message) => {
                    &&& !old(self)@.contains_key(id@)
                    &&& final(self)@ == old(self)@
                    &&& message@ == not_found_text(id@)
                },
            },
    {
        match self.update_download_status(id, DownloadStatus::Canceled) {
            Ok(_) => match self.get_download(id) {
                Some(download) => Ok(download.clone()),
                None => Err(not_found_message(id)),
            },
            Err(message) => Err(message),
        }
    }
}

/// What is reported when no job has the identifier.
pub fn not_found_message(id: &str) -> (r: String)
    ensures
        r@ == not_found_text(id@),
{
    let mut message = "Download with id ".to_owned();
    message.append(id);
    message.append(" not found");
    message
}

} // verus!

//! The State Store: a keyed record store for `Cluster` aggregates and the
//! append-only audit log. The operations here are the store's whole logic;
//! durability (reading and writing a backing file) is a thin shim outside the
//! library that holds one `Repository` value.
use crate::model::{Cluster, ClusterView, LogEntry, LogEntryView};
use crate::text::str_eq;
use vstd::prelude::*;

verus! {

/// Whether some cluster in `s` carries the name.
pub open spec fn has_cluster(s: Seq<ClusterView>, name: Seq<char>) -> bool {
    exists|i: int| 0 <= i < s.len() && #[trigger] s[i].cluster_name == name
}

/// The first cluster in `s` carrying the name, if any.
pub open spec fn spec_get(s: Seq<ClusterView>, name: Seq<char>) -> Option<ClusterView>
    decreases s.len(),
{
    if s.len() == 0 {
        None
    } else if s[0].cluster_name == name {
        Some(s[0])
    } else {
        spec_get(s.drop_first(), name)
    }
}

/// Replacement of any record carrying `c`'s name by `c` itself.
pub open spec fn replace_fn(c: ClusterView) -> spec_fn(ClusterView) -> ClusterView {
    |x: ClusterView|
        if x.cluster_name == c.cluster_name {
            c
        } else {
            x
        }
}

/// What saving `c` makes of the stored list: every record carrying `c`'s
/// name is replaced by `c`; if none does, `c` is appended.
pub open spec fn spec_save(s: Seq<ClusterView>, c: ClusterView) -> Seq<ClusterView> {
    if has_cluster(s, c.cluster_name) {
        s.map_values(replace_fn(c))
    } else {
        s.push(c)
    }
}

/// Insertion of an entry into a most-recent-first list: it lands after every
/// entry with an equal or later date, so equal dates keep their order.
pub open spec fn insert_desc(s: Seq<LogEntryView>, e: LogEntryView) -> Seq<LogEntryView>
    decreases s.len(),
{
    if s.len() == 0 {
        seq![e]
    } else if e.date > s[0].date {
        seq![e] + s
    } else {
        seq![s[0]] + insert_desc(s.drop_first(), e)
    }
}

/// The most-recent-first ordering of a log slice: each entry inserted in
/// turn by [`insert_desc`].
pub open spec fn sort_desc(s: Seq<LogEntryView>) -> Seq<LogEntryView>
    decreases s.len(),
{
    if s.len() == 0 {
        Seq::empty()
    } else {
        insert_desc(sort_desc(s.drop_last()), s.last())
    }
}

/// Entries kept when the log is purged of one cluster's entries.
pub open spec fn log_without(s: Seq<LogEntryView>, name: Seq<char>) -> Seq<LogEntryView> {
    s.filter(|e: LogEntryView| e.cluster_name != name)
}

/// Entries of one cluster, in append order.
pub open spec fn log_of(s: Seq<LogEntryView>, name: Seq<char>) -> Seq<LogEntryView> {
    s.filter(|e: LogEntryView| e.cluster_name == name)
}

/// Clusters kept when one name is deleted.
pub open spec fn clusters_without(s: Seq<ClusterView>, name: Seq<char>) -> Seq<ClusterView> {
    s.filter(|c: ClusterView| c.cluster_name != name)
}

/// No two records in `s` carry the same cluster name.
pub open spec fn unique_names(s: Seq<ClusterView>) -> bool {
    forall|i: int, j: int|
        0 <= i < s.len() && 0 <= j < s.len() && i != j ==> (#[trigger] s[i]).cluster_name != (
        #[trigger] s[j]).cluster_name
}

/// Saving keeps cluster names unique: when no two stored records share a
/// name, `spec_save` replaces a matching record in place or appends a record
/// with a name not yet stored, so no duplicate name ever appears.
pub proof fn lemma_save_keeps_unique_names(s: Seq<ClusterView>, c: ClusterView)
    requires
        unique_names(s),
    ensures
        unique_names(spec_save(s, c)),
{
    if has_cluster(s, c.cluster_name) {
        let t = s.map_values(replace_fn(c));
        assert forall|i: int, j: int|
            0 <= i < t.len() && 0 <= j < t.len() && i != j implies (#[trigger] t[i]).cluster_name
            != (#[trigger] t[j]).cluster_name by {
            assert(t[i] == replace_fn(c)(s[i]));
            assert(t[j] == replace_fn(c)(s[j]));
            assert(t[i].cluster_name == s[i].cluster_name);
            assert(t[j].cluster_name == s[j].cluster_name);
        }
    } else {
        let t = s.push(c);
        assert forall|i: int, j: int|
            0 <= i < t.len() && 0 <= j < t.len() && i != j implies (#[trigger] t[i]).cluster_name
            != (#[trigger] t[j]).cluster_name by {
            if i < s.len() && j < s.len() {
                assert(t[i] == s[i] && t[j] == s[j]);
            } else if i < s.len() {
                assert(t[j] == c && t[i] == s[i]);
            } else {
                assert(t[i] == c && t[j] == s[j]);
            }
        }
    }
}

/// The in-memory record store: cluster aggregates keyed by name, and the
/// append-only audit log.
#[derive(Debug)]
pub struct Repository {
    clusters: Vec<Cluster>,
    action_log: Vec<LogEntry>,
}

impl Repository {
    /// The stored cluster records, in storage order.
    pub closed spec fn clusters_view(&self) -> Seq<ClusterView> {
        self.clusters.deep_view()
    }

    /// The audit log, in append order.
    pub closed spec fn log_view(&self) -> Seq<LogEntryView> {
        self.action_log.deep_view()
    }

    /// An empty store.
    pub fn new() -> (r: Self)
        ensures
            r.clusters_view() =~= Seq::<ClusterView>::empty(),
            r.log_view() =~= Seq::<LogEntryView>::empty(),
    {
        Repository { clusters: Vec::new(), action_log: Vec::new() }
    }

    /// The index of the first record carrying `name`, if any.
    fn find_index(&self, name: &str) -> (r: Option<usize>)
        ensures
            match r {
                Some(i) => i < self.clusters_view().len() && self.clusters_view()[i as int].cluster_name
                    == name@ && (forall|j: int|
                    0 <= j < i ==> #[trigger] self.clusters_view()[j].cluster_name != name@),
                None => forall|j: int|
                    0 <= j < self.clusters_view().len()
                        ==> #[trigger] self.clusters_view()[j].cluster_name != name@,
            },
    {
        let mut i: usize = 0;
        while i < self.clusters.len()
            invariant
                i <= self.clusters_view().len(),
                self.clusters_view().len() == self.clusters@.len(),
                forall|j: int| 0 <= j < i ==> #[trigger] self.clusters_view()[j].cluster_name != name@,
            decreases self.clusters@.len() - i,
        {
            if str_eq(self.clusters[i].cluster_name.as_str(), name) {
                return Some(i);
            }
            i = i + 1;
        }
        None
    }

    /// Looks up the first cluster carrying `name`; `None` when there is none.
    pub fn get_cluster(&self, name: &str) -> (r: Option<Cluster>)
        ensures
            match r {
                Some(c) => spec_get(self.clusters_view(), name@) == Some(c@) && has_cluster(
                    self.clusters_view(),
                    name@,
                ),
                None => spec_get(self.clusters_view(), name@) is None && !has_cluster(
                    self.clusters_view(),
                    name@,
                ),
            },
    {
        match self.find_index(name) {
            Some(i) => {
                let c = self.clusters[i].clone();
                proof {
                    lemma_spec_get_at(self.clusters_view(), name@, i as int);
                    assert(self.clusters_view()[i as int].cluster_name == name@);
                }
                Some(c)
            },
            None => {
                proof {
                    lemma_spec_get_none(self.clusters_view(), name@);
                }
                None
            },
        }
    }

    /// Copies of all stored clusters, in storage order.
    pub fn get_clusters(&self) -> (r: Vec<Cluster>)
        ensures
            r.deep_view() =~= self.clusters_view(),
    {
        let mut out: Vec<Cluster> = Vec::new();
        let mut i: usize = 0;
        while i < self.clusters.len()
            invariant
                i <= self.clusters@.len(),
                self.clusters_view().len() == self.clusters@.len(),
                out.deep_view() =~= self.clusters_view().subrange(0, i as int),
            decreases self.clusters@.len() - i,
        {
            let c = self.clusters[i].clone();
            proof {
                assert(self.clusters_view()[i as int] == self.clusters@[i as int]@);
                assert(self.clusters_view().subrange(0, i + 1) =~= self.clusters_view().subrange(
                    0,
                    i as int,
                ).push(self.clusters_view()[i as int]));
            }
            out.push(c);
            i = i + 1;
        }
        out
    }

    /// Saves `cluster`, replacing every record of the same name or appending
    /// it as new. The audit log is untouched.
    pub fn save_cluster(&mut self, cluster: Cluster)
        ensures
            final (self).clusters_view() =~= spec_save(old(self).clusters_view(), cluster@),
            final (self).log_view() == old(self).log_view(),
    {
        let ghost orig = self.clusters_view();
        let ghost cv = cluster@;
        match self.find_index(cluster.cluster_name.as_str()) {
            Some(_) => {
                let mut out: Vec<Cluster> = Vec::new();
                let mut i: usize = 0;
                while i < self.clusters.len()
                    invariant
                        i <= orig.len(),
                        self.clusters.deep_view() == orig,
                        orig.len() == self.clusters@.len(),
                        cluster@ == cv,
                        out.deep_view() =~= orig.subrange(0, i as int).map_values(replace_fn(cv)),
                    decreases self.clusters@.len() - i,
                {
                    proof {
                        assert(orig[i as int] == self.clusters@[i as int]@);
                        assert(orig.subrange(0, i + 1) =~= orig.subrange(0, i as int).push(
                            orig[i as int],
                        ));
                        assert(orig.subrange(0, i + 1).map_values(replace_fn(cv)) =~= orig.subrange(
                            0,
                            i as int,
                        ).map_values(replace_fn(cv)).push(replace_fn(cv)(orig[i as int])));
                    }
                    if str_eq(self.clusters[i].cluster_name.as_str(), cluster.cluster_name.as_str())
                         {
                        out.push(cluster.clone());
                    } else {
                        out.push(self.clusters[i].clone());
                    }
                    i = i + 1;
                }
                proof {
                    assert(orig.subrange(0, orig.len() as int) =~= orig);
                    assert(has_cluster(orig, cv.cluster_name));
                }
                self.clusters = out;
            },
            None => {
                self.clusters.push(cluster);
                proof {
                    assert(self.clusters.deep_view() =~= orig.push(cv));
                }
            },
        }
    }

    /// Removes every cluster record and every log entry carrying `name`.
    pub fn delete_cluster(&mut self, name: &str)
        ensures
            final (self).clusters_view() =~= clusters_without(old(self).clusters_view(), name@),
            final (self).log_view() =~= log_without(old(self).log_view(), name@),
    {
        let ghost orig = self.clusters_view();
        let mut kept: Vec<Cluster> = Vec::new();
        let mut i: usize = 0;
        while i < self.clusters.len()
            invariant
                i <= orig.len(),
                self.clusters.deep_view() == orig,
                orig.len() == self.clusters@.len(),
                kept.deep_view() =~= orig.subrange(0, i as int).filter(
                    |c: ClusterView| c.cluster_name != name@,
                ),
            decreases self.clusters@.len() - i,
        {
            let ghost prefix = orig.subrange(0, i as int);
            if !str_eq(self.clusters[i].cluster_name.as_str(), name) {
                kept.push(self.clusters[i].clone());
            }
            proof {
                reveal(Seq::filter);
                assert(orig.subrange(0, i + 1).drop_last() =~= prefix);
            }
            i = i + 1;
        }
        proof {
            assert(orig.subrange(0, orig.len() as int) =~= orig);
        }
        self.clusters = kept;
        self.delete_logs(name);
    }

    /// Appends one entry to the audit log.
    pub fn save_log(&mut self, entry: LogEntry)
        ensures
            final (self).log_view() =~= old(self).log_view().push(entry@),
            final (self).clusters_view() == old(self).clusters_view(),
    {
        let ghost orig = self.log_view();
        let ghost ev = entry@;
        self.action_log.push(entry);
        proof {
            assert(self.action_log.deep_view() =~= orig.push(ev));
        }
    }

    /// Removes every log entry carrying `cluster_name`.
    pub fn delete_logs(&mut self, cluster_name: &str)
        ensures
            final (self).log_view() =~= log_without(old(self).log_view(), cluster_name@),
            final (self).clusters_view() == old(self).clusters_view(),
    {
        let ghost orig = self.log_view();
        let mut kept: Vec<LogEntry> = Vec::new();
        let mut i: usize = 0;
        while i < self.action_log.len()
            invariant
                i <= orig.len(),
                self.action_log.deep_view() == orig,
                orig.len() == self.action_log@.len(),
                kept.deep_view() =~= orig.subrange(0, i as int).filter(
                    |e: LogEntryView| e.cluster_name != cluster_name@,
                ),
            decreases self.action_log@.len() - i,
        {
            let ghost prefix = orig.subrange(0, i as int);
            if !str_eq(self.action_log[i].cluster_name.as_str(), cluster_name) {
                kept.push(self.action_log[i].clone());
            }
            proof {
                reveal(Seq::filter);
                assert(orig.subrange(0, i + 1).drop_last() =~= prefix);
            }
            i = i + 1;
        }
        proof {
            assert(orig.subrange(0, orig.len() as int) =~= orig);
        }
        self.action_log = kept;
    }

    /// The entries of one cluster, most recent first; entries of equal date
    /// keep their append order.
    pub fn logs(&self, cluster_name: &str) -> (r: Vec<LogEntry>)
        ensures
            r.deep_view() =~= sort_desc(log_of(self.log_view(), cluster_name@)),
    {
        let ghost orig = self.log_view();
        let mut filtered: Vec<LogEntry> = Vec::new();
        let mut i: usize = 0;
        while i < self.action_log.len()
            invariant
                i <= orig.len(),
                self.action_log.deep_view() == orig,
                orig.len() == self.action_log@.len(),
                filtered.deep_view() =~= orig.subrange(0, i as int).filter(
                    |e: LogEntryView| e.cluster_name == cluster_name@,
                ),
            decreases self.action_log@.len() - i,
        {
            let ghost prefix = orig.subrange(0, i as int);
            if str_eq(self.action_log[i].cluster_name.as_str(), cluster_name) {
                filtered.push(self.action_log[i].clone());
            }
            proof {
                reveal(Seq::filter);
                assert(orig.subrange(0, i + 1).drop_last() =~= prefix);
            }
            i = i + 1;
        }
        proof {
            assert(orig.subrange(0, orig.len() as int) =~= orig);
        }
        let mut out: Vec<LogEntry> = Vec::new();
        let mut k: usize = 0;
        while k < filtered.len()
            invariant
                k <= filtered@.len(),
                filtered@.len() == filtered.deep_view().len(),
                out.deep_view() =~= sort_desc(filtered.deep_view().subrange(0, k as int)),
            decreases filtered@.len() - k,
        {
            let entry = filtered[k].clone();
            let ghost sorted_prefix = out.deep_view();
            let mut p: usize = 0;
            while p < out.len() && entry.date <= out[p].date
                invariant
                    p <= out@.len(),
                    out.deep_view() == sorted_prefix,
                    sorted_prefix.len() == out@.len(),
                    entry@ == filtered.deep_view()[k as int],
                    forall|j: int| 0 <= j < p ==> !(entry@.date > #[trigger] sorted_prefix[j].date),
                decreases out@.len() - p,
            {
                p = p + 1;
            }
            proof {
                assert(p < sorted_prefix.len() ==> entry@.date > sorted_prefix[p as int].date);
            }
            proof {
                lemma_insert_desc_at(sorted_prefix, entry@, p as int);
                assert(filtered.deep_view().subrange(0, k + 1).drop_last() =~= filtered.deep_view(
                ).subrange(0, k as int));
            }
            out.insert(p, entry);
            proof {
                assert(out.deep_view() =~= sorted_prefix.insert(p as int, filtered.deep_view()[k as int]));
                assert(sorted_prefix.insert(p as int, filtered.deep_view()[k as int]) =~= sorted_prefix.subrange(0, p as int) + seq![
                    filtered.deep_view()[k as int],
                ] + sorted_prefix.subrange(p as int, sorted_prefix.len() as int));
            }
            k = k + 1;
        }
        proof {
            assert(filtered.deep_view().subrange(0, filtered.deep_view().len() as int)
                =~= filtered.deep_view());
        }
        out
    }
}

/// `spec_get` finds exactly the first record whose name matches.
proof fn lemma_spec_get_at(s: Seq<ClusterView>, name: Seq<char>, i: int)
    requires
        0 <= i < s.len(),
        s[i].cluster_name == name,
        forall|j: int| 0 <= j < i ==> #[trigger] s[j].cluster_name != name,
    ensures
        spec_get(s, name) == Some(s[i]),
    decreases i,
{
    if i > 0 {
        assert(forall|j: int|
            0 <= j < i - 1 ==> #[trigger] s.drop_first()[j].cluster_name != name);
        lemma_spec_get_at(s.drop_first(), name, i - 1);
    }
}

/// `spec_get` finds nothing when no record's name matches.
proof fn lemma_spec_get_none(s: Seq<ClusterView>, name: Seq<char>)
    requires
        forall|j: int| 0 <= j < s.len() ==> #[trigger] s[j].cluster_name != name,
    ensures
        spec_get(s, name) is None,
    decreases s.len(),
{
    if s.len() > 0 {
        assert(forall|j: int|
            0 <= j < s.drop_first().len() ==> #[trigger] s.drop_first()[j].cluster_name != name);
        lemma_spec_get_none(s.drop_first(), name);
    }
}

/// Inserting at the first position whose date is strictly older reproduces
/// [`insert_desc`].
proof fn lemma_insert_desc_at(s: Seq<LogEntryView>, e: LogEntryView, p: int)
    requires
        0 <= p <= s.len(),
        forall|j: int| 0 <= j < p ==> !(e.date > #[trigger] s[j].date),
        p < s.len() ==> e.date > s[p].date,
    ensures
        insert_desc(s, e) =~= s.subrange(0, p) + seq![e] + s.subrange(p, s.len() as int),
    decreases p,
{
    if p == 0 {
        if s.len() == 0 {
            assert(insert_desc(s, e) =~= seq![e]);
        }
    } else {
        assert(forall|j: int| 0 <= j < p - 1 ==> !(e.date > #[trigger] s.drop_first()[j].date));
        lemma_insert_desc_at(s.drop_first(), e, p - 1);
        assert(insert_desc(s, e) =~= seq![s[0]] + insert_desc(s.drop_first(), e));
        assert(s.drop_first().subrange(0, p - 1) =~= s.subrange(1, p));
        assert(s.drop_first().subrange(p - 1, s.drop_first().len() as int) =~= s.subrange(
            p,
            s.len() as int,
        ));
    }
}


/// After a deletion, no stored cluster carries the deleted name.
pub proof fn lemma_without_has_none(s: Seq<ClusterView>, name: Seq<char>)
    ensures
        !has_cluster(clusters_without(s, name), name),
{
    let kept = clusters_without(s, name);
    assert forall|i: int| 0 <= i < kept.len() implies #[trigger] kept[i].cluster_name != name by {
        kept_cluster_satisfies(s, name, i);
    }
}

/// Every kept cluster record satisfies the deletion filter.
proof fn kept_cluster_satisfies(s: Seq<ClusterView>, name: Seq<char>, i: int)
    requires
        0 <= i < clusters_without(s, name).len(),
    ensures
        clusters_without(s, name)[i].cluster_name != name,
    decreases s.len(),
{
    reveal(Seq::filter);
    if s.len() > 0 {
        let prefix = s.drop_last().filter(|c: ClusterView| c.cluster_name != name);
        if i < prefix.len() {
            kept_cluster_satisfies(s.drop_last(), name, i);
        }
    }
}

/// After a log purge, no kept entry carries the purged name.
pub proof fn lemma_log_without_has_none(s: Seq<LogEntryView>, name: Seq<char>)
    ensures
        forall|i: int|
            0 <= i < log_without(s, name).len() ==> #[trigger] log_without(s, name)[i].cluster_name
                != name,
{
    assert forall|i: int|
        0 <= i < log_without(s, name).len() implies #[trigger] log_without(
        s,
        name,
    )[i].cluster_name != name by {
        kept_entry_satisfies(s, name, i);
    }
}

/// Every kept log entry satisfies the purge filter.
proof fn kept_entry_satisfies(s: Seq<LogEntryView>, name: Seq<char>, i: int)
    requires
        0 <= i < log_without(s, name).len(),
    ensures
        log_without(s, name)[i].cluster_name != name,
    decreases s.len(),
{
    reveal(Seq::filter);
    if s.len() > 0 {
        let prefix = s.drop_last().filter(|e: LogEntryView| e.cluster_name != name);
        if i < prefix.len() {
            kept_entry_satisfies(s.drop_last(), name, i);
        }
    }
}

/// A name that some record carries is found by `spec_get`.
pub proof fn lemma_has_get(s: Seq<ClusterView>, name: Seq<char>)
    requires
        has_cluster(s, name),
    ensures
        spec_get(s, name) is Some,
    decreases s.len(),
{
    if s.len() > 0 && s[0].cluster_name != name {
        let i = choose|i: int| 0 <= i < s.len() && #[trigger] s[i].cluster_name == name;
        assert(s.drop_first()[i - 1].cluster_name == name);
        lemma_has_get(s.drop_first(), name);
    }
}

/// Whatever `spec_get` finds proves the name is carried by some record.
pub proof fn lemma_get_has(s: Seq<ClusterView>, name: Seq<char>)
    ensures
        spec_get(s, name) is Some ==> has_cluster(s, name),
    decreases s.len(),
{
    if s.len() > 0 {
        if s[0].cluster_name == name {
            assert(has_cluster(s, name));
        } else {
            lemma_get_has(s.drop_first(), name);
            if spec_get(s, name) is Some {
                let i = choose|i: int|
                    0 <= i < s.drop_first().len() && #[trigger] s.drop_first()[i].cluster_name
                        == name;
                assert(s[i + 1].cluster_name == name);
            }
        }
    }
}

/// Whatever `spec_get` finds carries the looked-up name.
pub proof fn lemma_spec_get_name(s: Seq<ClusterView>, name: Seq<char>)
    ensures
        spec_get(s, name) matches Some(cv) ==> cv.cluster_name == name,
    decreases s.len(),
{
    if s.len() > 0 && s[0].cluster_name != name {
        lemma_spec_get_name(s.drop_first(), name);
    }
}

/// Law: a cluster saved to the store and then looked up by its name is
/// reproduced in full — node order, lock states and embedded Helm and
/// resource ids included.
pub proof fn lemma_store_round_trip(s: Seq<ClusterView>, c: ClusterView)
    ensures
        spec_get(spec_save(s, c), c.cluster_name) == Some(c),
    decreases s.len(),
{
    if has_cluster(s, c.cluster_name) {
        lemma_get_after_replace(s, c);
        assert(spec_save(s, c) == s.map_values(replace_fn(c)));
    } else {
        lemma_get_after_push(s, c);
        assert(spec_save(s, c) == s.push(c));
    }
}

/// Looking up after a replace-save finds the saved value.
proof fn lemma_get_after_replace(s: Seq<ClusterView>, c: ClusterView)
    requires
        has_cluster(s, c.cluster_name),
    ensures
        spec_get(s.map_values(replace_fn(c)), c.cluster_name) == Some(c),
    decreases s.len(),
{
    let f = replace_fn(c);
    let m = s.map_values(f);
    if s[0].cluster_name == c.cluster_name {
        assert(m[0] == c);
    } else {
        let i = choose|i: int| 0 <= i < s.len() && #[trigger] s[i].cluster_name == c.cluster_name;
        assert(s.drop_first()[i - 1].cluster_name == c.cluster_name);
        assert(has_cluster(s.drop_first(), c.cluster_name));
        lemma_get_after_replace(s.drop_first(), c);
        assert(m.drop_first() =~= s.drop_first().map_values(f));
    }
}

/// Looking up after an append-save finds the saved value.
proof fn lemma_get_after_push(s: Seq<ClusterView>, c: ClusterView)
    requires
        !has_cluster(s, c.cluster_name),
    ensures
        spec_get(s.push(c), c.cluster_name) == Some(c),
    decreases s.len(),
{
    if s.len() == 0 {
        assert(s.push(c)[0] == c);
    } else {
        assert(s[0].cluster_name != c.cluster_name);
        assert(!has_cluster(s.drop_first(), c.cluster_name)) by {
            if has_cluster(s.drop_first(), c.cluster_name) {
                let i = choose|i: int|
                    0 <= i < s.drop_first().len() && #[trigger] s.drop_first()[i].cluster_name
                        == c.cluster_name;
                assert(s[i + 1].cluster_name == c.cluster_name);
            }
        }
        lemma_get_after_push(s.drop_first(), c);
        assert(s.push(c).drop_first() =~= s.drop_first().push(c));
    }
}

} // verus!

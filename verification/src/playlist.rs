//! Playlist ingestion: turning a provider's playlist listing into
//! per-track queries, and the running progress report while the
//! items are resolved and enqueued one by one.
//!
//! A per-item failure increments the failure counter and moves on to
//! the next item; it never aborts the rest of the playlist.

use vstd::prelude::*;
use vstd::string::StringExecFns;

use crate::text::dec_str;
use crate::text::u64_to_string;

verus! {

/// One item of a playlist listing on the dedicated playlist
/// provider: a track name and the names of its artists, any of
/// which the listing may lack.
pub struct PlaylistItem {
    pub name: Option<String>,
    pub artists: Vec<String>,
}

/// The free-text query an item resolves through: its name, a dash,
/// and its first artist — or nothing when either is missing.
pub open spec fn item_query_spec(item: PlaylistItem) -> Option<Seq<char>> {
    if item.name is Some && item.artists@.len() > 0 {
        Some(item.name->0@ + " - "@ + item.artists@[0]@)
    } else {
        None
    }
}

/// The queries of a whole listing, in order, skipping the items
/// that lack a name or an artist.
pub open spec fn item_queries_spec(items: Seq<PlaylistItem>) -> Seq<Seq<char>>
    decreases items.len(),
{
    if items.len() == 0 {
        Seq::empty()
    } else {
        item_queries_spec(items.drop_last()) + (match item_query_spec(items.last()) {
            Some(q) => seq![q],
            None => Seq::empty(),
        })
    }
}

/// Builds the per-track search queries of a playlist listing:
/// `name - artist` for every item that has both, skipping the rest.
pub fn item_queries(items: &Vec<PlaylistItem>) -> (qs: Vec<String>)
    ensures
        qs.deep_view() == item_queries_spec(items@),
{
    let mut qs: Vec<String> = Vec::new();
    let mut i: usize = 0;
    while i < items.len()
        invariant
            i <= items@.len(),
            qs.deep_view() == item_queries_spec(items@.subrange(0, i as int)),
        decreases items@.len() - i,
    {
        let item = &items[i];
        match &item.name {
            Some(name) => {
                if item.artists.len() > 0 {
                    let q = name.clone().concat(" - ").concat(item.artists[0].as_str());
                    proof {
                        assert(item_query_spec(items@[i as int]) matches Some(expected)
                            && q@ =~= expected);
                    }
                    qs.push(q);
                } else {
                }
            },
            None => {},
        }
        proof {
            assert(items@.subrange(0, i + 1).drop_last() =~= items@.subrange(0, i as int));
            assert(items@.subrange(0, i + 1).last() == items@[i as int]);
            assert(qs.deep_view() =~~= item_queries_spec(items@.subrange(0, i + 1)));
        }
        i = i + 1;
    }
    proof {
        assert(items@.subrange(0, items@.len() as int) =~= items@);
    }
    qs
}

/// One entry of a flat playlist dump on the default provider; the
/// dump may lack the link of an entry.
pub struct PlaylistEntry {
    pub link: Option<String>,
}

/// The links of a whole dump, in order, skipping entries without one.
pub open spec fn entry_links_spec(entries: Seq<PlaylistEntry>) -> Seq<Seq<char>>
    decreases entries.len(),
{
    if entries.len() == 0 {
        Seq::empty()
    } else {
        entry_links_spec(entries.drop_last()) + (match entries.last().link {
            Some(l) => seq![l@],
            None => Seq::empty(),
        })
    }
}

/// Collects the per-track links of a flat playlist dump, skipping
/// entries that carry none.
pub fn entry_links(entries: &Vec<PlaylistEntry>) -> (links: Vec<String>)
    ensures
        links.deep_view() == entry_links_spec(entries@),
{
    let mut links: Vec<String> = Vec::new();
    let mut i: usize = 0;
    while i < entries.len()
        invariant
            i <= entries@.len(),
            links.deep_view() == entry_links_spec(entries@.subrange(0, i as int)),
        decreases entries@.len() - i,
    {
        match &entries[i].link {
            Some(l) => {
                links.push(l.clone());
            },
            None => {},
        }
        proof {
            assert(entries@.subrange(0, i + 1).drop_last() =~= entries@.subrange(0, i as int));
            assert(entries@.subrange(0, i + 1).last() == entries@[i as int]);
            assert(links.deep_view() =~~= entry_links_spec(entries@.subrange(0, i + 1)));
        }
        i = i + 1;
    }
    proof {
        assert(entries@.subrange(0, entries@.len() as int) =~= entries@);
    }
    links
}

/// The running progress of one playlist ingestion: how many items
/// were taken up, and of those how many resolved and how many failed.
pub struct IngestProgress {
    pub total: u64,
    pub done: u64,
    pub ok: u64,
    pub failed: u64,
}

/// The counter after one more item: taken up, and counted on the
/// side its resolution came out on.
pub open spec fn ingest_step_spec(p: IngestProgress, resolved: bool) -> IngestProgress {
    IngestProgress {
        total: p.total,
        done: (p.done + 1) as u64,
        ok: if resolved {
            (p.ok + 1) as u64
        } else {
            p.ok
        },
        failed: if resolved {
            p.failed
        } else {
            (p.failed + 1) as u64
        },
    }
}

/// The counter after a whole run of item outcomes, first first.
pub open spec fn ingest_fold_spec(p: IngestProgress, outcomes: Seq<bool>) -> IngestProgress
    decreases outcomes.len(),
{
    if outcomes.len() == 0 {
        p
    } else {
        ingest_fold_spec(ingest_step_spec(p, outcomes[0]), outcomes.drop_first())
    }
}

/// How many of the outcomes are failures.
pub open spec fn failure_count(outcomes: Seq<bool>) -> nat
    decreases outcomes.len(),
{
    if outcomes.len() == 0 {
        0
    } else {
        (if outcomes[0] {
            0nat
        } else {
            1nat
        }) + failure_count(outcomes.drop_first())
    }
}

impl IngestProgress {
    /// Nothing taken up yet, everything still to come.
    pub open spec fn spec_new(total: u64) -> IngestProgress {
        IngestProgress { total, done: 0, ok: 0, failed: 0 }
    }

    /// The counts always add up, and never pass the playlist length.
    pub open spec fn wf(&self) -> bool {
        self.ok + self.failed == self.done && self.done <= self.total
    }

    /// Starts a progress report over `total` playlist items.
    pub fn new(total: u64) -> (p: IngestProgress)
        ensures
            p == IngestProgress::spec_new(total),
            p.wf(),
    {
        IngestProgress { total, done: 0, ok: 0, failed: 0 }
    }

    /// Counts one more item, on the side its resolution came out on.
    pub fn step(&mut self, resolved: bool)
        requires
            old(self).wf(),
            old(self).done < old(self).total,
        ensures
            final(self).wf(),
            *final(self) == ingest_step_spec(*old(self), resolved),
    {
        self.done = self.done + 1;
        if resolved {
            self.ok = self.ok + 1;
        } else {
            self.failed = self.failed + 1;
        }
    }

    /// The status line shown after each item:
    /// `` `Loading... <done>/<total>` `` then `` `Ok: <ok> | Failed: <failed>` ``.
    pub open spec fn status_text(&self) -> Seq<char> {
        "`Loading... "@ + dec_str(self.done as nat) + "/"@ + dec_str(self.total as nat)
            + "`\n`Ok: "@ + dec_str(self.ok as nat) + " | Failed: "@ + dec_str(
            self.failed as nat,
        ) + "`"@
    }

    /// Renders the current status line.
    pub fn status_message(&self) -> (s: String)
        ensures
            s@ == self.status_text(),
    {
        let s = String::from_str("`Loading... ").concat(u64_to_string(self.done).as_str()).concat(
            "/",
        ).concat(u64_to_string(self.total).as_str()).concat("`\n`Ok: ").concat(
            u64_to_string(self.ok).as_str(),
        ).concat(" | Failed: ").concat(u64_to_string(self.failed).as_str()).concat("`");
        proof {
            assert(s@ =~= self.status_text());
        }
        s
    }
}

/// Ingesting a playlist of `k` items of which `f` fail reports the
/// final counts `ok == k - f` and `failed == f` — and since exactly
/// the resolved items are enqueued, exactly `k - f` tracks are.
pub proof fn lemma_ingest_counts(p: IngestProgress, outcomes: Seq<bool>)
    requires
        p.wf(),
        p.done + outcomes.len() <= p.total,
    ensures
        ingest_fold_spec(p, outcomes).wf(),
        ingest_fold_spec(p, outcomes).total == p.total,
        ingest_fold_spec(p, outcomes).done == p.done + outcomes.len(),
        ingest_fold_spec(p, outcomes).failed == p.failed + failure_count(outcomes),
        ingest_fold_spec(p, outcomes).ok == p.ok + outcomes.len() - failure_count(outcomes),
    decreases outcomes.len(),
{
    if outcomes.len() > 0 {
        lemma_ingest_counts(ingest_step_spec(p, outcomes[0]), outcomes.drop_first());
    }
}

} // verus!

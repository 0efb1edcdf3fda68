use vstd::prelude::*;
use crate::text::decimal;

verus! {

/// Longest list the queue holds: positions and the length itself fit in a `u16`.
pub const MAX_QUEUE_LEN: usize = 65535;

/// Reviewed entries form a prefix: equivalently, some `w` has every entry before `w`
/// reviewed and every entry from `w` on not reviewed.
pub open spec fn watermarked(s: Seq<(u32, bool)>) -> bool {
    forall|i: int, j: int| 0 <= i < j < s.len() && (#[trigger] s[j]).1 ==> (#[trigger] s[i]).1
}

/// Every entry before `i` is reviewed.
pub open spec fn reviewed_before(s: Seq<(u32, bool)>, i: int) -> bool {
    forall|j: int| 0 <= j < i ==> (#[trigger] s[j]).1
}

/// `r` is where review resumes: the first unreviewed entry, or the last entry when all are
/// reviewed, or 0 for an empty list.
pub open spec fn is_watermark_index(s: Seq<(u32, bool)>, r: int) -> bool {
    if s.len() == 0 {
        r == 0
    } else {
        &&& 0 <= r < s.len()
        &&& reviewed_before(s, r)
        &&& (!s[r].1 || r == s.len() - 1)
    }
}

/// The list after the entry at `i` is marked reviewed.
pub open spec fn marked(s: Seq<(u32, bool)>, i: int) -> Seq<(u32, bool)> {
    s.update(i, (s[i].0, true))
}

/// The list after the watermark is forced to `w`: reviewed before it, not reviewed from it on.
pub open spec fn reset_to(s: Seq<(u32, bool)>, w: int) -> Seq<(u32, bool)> {
    Seq::new(s.len(), |i: int| (s[i].0, i < w))
}

pub open spec fn flag_text(b: bool) -> Seq<char> {
    if b { seq!['t', 'r', 'u', 'e'] } else { seq!['f', 'a', 'l', 's', 'e'] }
}

pub open spec fn entry_text(e: (u32, bool)) -> Seq<char> {
    seq!['['] + decimal(e.0 as nat) + seq![','] + flag_text(e.1) + seq![']']
}

pub open spec fn entries_text(s: Seq<(u32, bool)>) -> Seq<char>
    decreases s.len(),
{
    if s.len() == 0 {
        seq![]
    } else if s.len() == 1 {
        entry_text(s[0])
    } else {
        entries_text(s.drop_last()) + seq![','] + entry_text(s.last())
    }
}

/// The stored form of a queue: a compact JSON array of `[id,flag]` pairs.
pub open spec fn queue_text(s: Seq<(u32, bool)>) -> Seq<char> {
    seq!['['] + entries_text(s) + seq![']']
}

/// Relies on serde_json::to_string: a `Vec` of `(u32, bool)` is written compactly, as an
/// array of two-element arrays, the id in decimal and the flag as `true` or `false`.
#[verifier::external_body]
fn entries_to_json(entries: &Vec<(u32, bool)>) -> (r: String)
    ensures
        r@ == queue_text(entries@),
{
    match serde_json::to_string(entries) {
        Ok(text) => text,
        Err(_) => String::new(),
    }
}

/// `r` holds the pairs whose stored form `text` is, where it is the stored form of some pairs.
pub open spec fn reads_back(text: Seq<char>, r: Option<Vec<(u32, bool)>>) -> bool {
    forall|e: Seq<(u32, bool)>| #[trigger] queue_text(e) == text ==> (r matches Some(v) && v@ == e)
}

/// Relies on serde_json::from_str: it reads such an array back into the same pairs.
#[verifier::external_body]
fn entries_from_json(text: &str) -> (r: Option<Vec<(u32, bool)>>)
    ensures
        reads_back(text@, r),
{
    serde_json::from_str(text).ok()
}

/// Where `text` is the stored form of a list that a queue can hold, `r` is that queue.
pub open spec fn decodes_to(text: Seq<char>, r: Option<ArtistQueue>) -> bool {
    forall|e: Seq<(u32, bool)>|
        #[trigger] queue_text(e) == text && e.len() <= MAX_QUEUE_LEN ==> (r matches Some(q) && q@ == e)
}

/// The ordered list of artists under review, each with its reviewed flag.
pub struct ArtistQueue {
    pub entries: Vec<(u32, bool)>,
}

impl View for ArtistQueue {
    type V = Seq<(u32, bool)>;

    open spec fn view(&self) -> Seq<(u32, bool)> {
        self.entries@
    }
}

impl ArtistQueue {
    pub open spec fn wf(&self) -> bool {
        self.entries@.len() <= MAX_QUEUE_LEN
    }

    /// A queue of the given entries, or `None` when there are more than `MAX_QUEUE_LEN`.
    pub fn from_entries(entries: Vec<(u32, bool)>) -> (r: Option<ArtistQueue>)
        ensures
            entries@.len() <= MAX_QUEUE_LEN ==> (r matches Some(q) && q@ == entries@),
            entries@.len() > MAX_QUEUE_LEN ==> r is None,
    {
        if entries.len() <= MAX_QUEUE_LEN {
            Some(ArtistQueue { entries })
        } else {
            None
        }
    }

    /// A fresh queue of the given ids, none of them reviewed.
    pub fn from_ids(ids: &Vec<u32>) -> (r: Option<ArtistQueue>)
        ensures
            ids@.len() <= MAX_QUEUE_LEN ==> (r matches Some(q) && q@.len() == ids@.len()
                && forall|i: int| 0 <= i < ids@.len() ==> #[trigger] q@[i] == (ids@[i], false)),
            ids@.len() > MAX_QUEUE_LEN ==> r is None,
    {
        if ids.len() > MAX_QUEUE_LEN {
            return None;
        }
        let mut entries: Vec<(u32, bool)> = Vec::new();
        let mut i: usize = 0;
        while i < ids.len()
            invariant
                i <= ids@.len(),
                entries@.len() == i,
                forall|j: int| 0 <= j < i ==> #[trigger] entries@[j] == (ids@[j], false),
            decreases ids@.len() - i,
        {
            entries.push((ids[i], false));
            i = i + 1;
        }
        Some(ArtistQueue { entries })
    }

    pub fn len(&self) -> (r: usize)
        ensures
            r == self@.len(),
    {
        self.entries.len()
    }

    /// Where review resumes; see `is_watermark_index`.
    pub fn locate_watermark(&self) -> (r: u16)
        requires
            self.wf(),
        ensures
            is_watermark_index(self@, r as int),
    {
        let n = self.entries.len();
        if n == 0 {
            return 0;
        }
        let mut i: usize = 0;
        while i < n - 1
            invariant
                n == self@.len(),
                n >= 1,
                n <= MAX_QUEUE_LEN,
                i <= n - 1,
                reviewed_before(self@, i as int),
            decreases n - 1 - i,
        {
            if !self.entries[i].1 {
                return i as u16;
            }
            i = i + 1;
        }
        i as u16
    }

    /// The id and flag at `index`, with the queue's length; `None` past the end.
    pub fn entry_at(&self, index: u16) -> (r: Option<(u32, bool, u16)>)
        requires
            self.wf(),
        ensures
            (index as int) < self@.len() ==> r == Some(
                (self@[index as int].0, self@[index as int].1, self@.len() as u16),
            ),
            (index as int) >= self@.len() ==> r is None,
    {
        let i = index as usize;
        if i < self.entries.len() {
            let (id, reviewed) = self.entries[i];
            Some((id, reviewed, self.entries.len() as u16))
        } else {
            None
        }
    }

    /// Marks the entry at `index` reviewed; does nothing when it already is.
    pub fn mark_reviewed(&mut self, index: usize)
        requires
            index < old(self)@.len(),
        ensures
            final(self)@ == marked(old(self)@, index as int),
            watermarked(old(self)@) && reviewed_before(old(self)@, index as int)
                ==> watermarked(final(self)@),
    {
        let id = self.entries[index].0;
        if !self.entries[index].1 {
            self.entries.set(index, (id, true));
        }
        proof {
            assert(final(self)@ =~= marked(old(self)@, index as int));
            if watermarked(old(self)@) && reviewed_before(old(self)@, index as int) {
                lemma_marked_keeps_watermark(old(self)@, index as int);
            }
        }
    }

    /// Forces the watermark to `index`: every entry before it reviewed, every other one not.
    pub fn reset_watermark_to(&mut self, index: usize)
        ensures
            final(self)@ == reset_to(old(self)@, index as int),
            watermarked(final(self)@),
    {
        let n = self.entries.len();
        let mut i: usize = 0;
        while i < n
            invariant
                n == self@.len(),
                n == old(self)@.len(),
                i <= n,
                forall|j: int| 0 <= j < i ==> #[trigger] self@[j] == (old(self)@[j].0, j < index),
                forall|j: int| i <= j < n ==> #[trigger] self@[j] == old(self)@[j],
            decreases n - i,
        {
            let id = self.entries[i].0;
            self.entries.set(i, (id, i < index));
            i = i + 1;
        }
        proof {
            assert(self@ =~= reset_to(old(self)@, index as int));
            lemma_reset_is_watermarked(old(self)@, index as int);
        }
    }

    /// The stored form of the queue.
    pub fn to_json(&self) -> (r: String)
        ensures
            r@ == queue_text(self@),
    {
        entries_to_json(&self.entries)
    }

    /// Reads a stored queue back; `None` where `text` is not one or the list is too long.
    pub fn from_json(text: &str) -> (r: Option<ArtistQueue>)
        ensures
            r matches Some(q) ==> q.wf(),
            decodes_to(text@, r),
    {
        match entries_from_json(text) {
            Some(entries) => ArtistQueue::from_entries(entries),
            None => None,
        }
    }
}

/// Reads the id, flag and length at `artist_index`, marking that entry reviewed if it was not;
/// `None`, with nothing changed, past the end.
pub fn get_small_artist_info(list: &mut ArtistQueue, artist_index: u16) -> (r: Option<(u32, bool, u16)>)
    requires
        old(list).wf(),
    ensures
        final(list).wf(),
        (artist_index as int) < old(list)@.len() ==> {
            &&& r == Some((
                old(list)@[artist_index as int].0,
                old(list)@[artist_index as int].1,
                old(list)@.len() as u16,
            ))
            &&& final(list)@ == marked(old(list)@, artist_index as int)
        },
        (artist_index as int) >= old(list)@.len() ==> r is None && final(list)@ == old(list)@,
{
    let r = list.entry_at(artist_index);
    if r.is_some() {
        list.mark_reviewed(artist_index as usize);
    }
    r
}

/// Where review resumes in a stored list; 0 when there is none or it could not be read.
pub fn get_last_checked_artist_index(list: &Option<ArtistQueue>) -> (r: u16)
    requires
        list matches Some(q) ==> q.wf(),
    ensures
        list matches Some(q) ==> is_watermark_index(q@, r as int),
        list is None ==> r == 0,
{
    match list {
        Some(q) => q.locate_watermark(),
        None => 0,
    }
}

/// Marks every entry before `artist_index` reviewed and every later one not reviewed.
pub fn mark_as_checked_up_to_index(list: &mut ArtistQueue, artist_index: u16)
    ensures
        final(list)@ == reset_to(old(list)@, artist_index as int),
        watermarked(final(list)@),
{
    list.reset_watermark_to(artist_index as usize);
}

/// Marking an entry reviewed keeps the reviewed entries a prefix, provided every entry before
/// it was already reviewed (as is the case for every entry up to the watermark).
pub proof fn lemma_marked_keeps_watermark(s: Seq<(u32, bool)>, i: int)
    requires
        0 <= i < s.len(),
        watermarked(s),
        reviewed_before(s, i),
    ensures
        watermarked(marked(s, i)),
{
    let m = marked(s, i);
    assert forall|a: int, b: int| 0 <= a < b < m.len() && (#[trigger] m[b]).1 implies (#[trigger] m[a]).1 by {
        if a != i && b != i {
            assert(s[b].1);
        }
    }
}

/// Forcing the watermark always leaves the reviewed entries a prefix, whatever came before.
pub proof fn lemma_reset_is_watermarked(s: Seq<(u32, bool)>, w: int)
    ensures
        watermarked(reset_to(s, w)),
        reset_to(s, w).len() == s.len(),
{
}

/// Storing a queue and reading the stored form back gives the same entries in the same order.
pub proof fn lemma_round_trip(q: ArtistQueue, r: Option<ArtistQueue>)
    requires
        q.wf(),
        decodes_to(queue_text(q@), r),
    ensures
        r matches Some(back) && back@ == q@,
{
}

/// Where review resumes is one index: two readings of an unchanged list agree.
pub proof fn lemma_watermark_index_unique(s: Seq<(u32, bool)>, a: int, b: int)
    requires
        is_watermark_index(s, a),
        is_watermark_index(s, b),
    ensures
        a == b,
{
    if s.len() > 0 && a != b {
        if a < b {
            assert(s[a].1);
        } else {
            assert(s[b].1);
        }
    }
}

} // verus!

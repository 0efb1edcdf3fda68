use vstd::prelude::*;
use std::collections::HashMap;
use crate::model::{Artist, ArtistResult, Illustration};
use crate::text::{decimal, decimal_string};

verus! {

broadcast use vstd::std_specs::hash::group_hash_axioms;

/// Why a record could not be had from the remote provider.
#[derive(Clone, Copy, Debug, PartialEq, Eq, Structural)]
pub enum FetchError {
    /// The provider could not be reached or refused the request.
    ProviderFailed,
    /// The provider answered with something that is not a record.
    MalformedPayload,
}

/// What `get_or_fetch` decides: the cached record, or that the provider must be asked.
#[derive(Debug)]
pub enum CacheStep {
    Ready(ArtistResult),
    NeedsFetch,
}

/// The decision of `get_or_fetch` on a cache holding `m`.
pub open spec fn cache_step(m: Map<u32, ArtistResult>, id: u32, force_refresh: bool) -> CacheStep {
    if !force_refresh && m.contains_key(id) {
        CacheStep::Ready(m[id])
    } else {
        CacheStep::NeedsFetch
    }
}

/// The cache after the provider answered `outcome` for `id`: a record replaces any earlier
/// one, a failure leaves everything as it was.
pub open spec fn after_fetch(
    m: Map<u32, ArtistResult>,
    id: u32,
    outcome: Result<ArtistResult, FetchError>,
) -> Map<u32, ArtistResult> {
    match outcome {
        Ok(rec) => m.insert(id, rec),
        Err(_) => m,
    }
}

/// Artist records fetched so far, keyed by artist id, with no expiry.
pub struct ArtistCache {
    records: HashMap<u32, ArtistResult>,
}

impl View for ArtistCache {
    type V = Map<u32, ArtistResult>;

    closed spec fn view(&self) -> Map<u32, ArtistResult> {
        self.records@
    }
}

impl ArtistCache {
    pub fn new() -> (r: ArtistCache)
        ensures
            r@ == Map::<u32, ArtistResult>::empty(),
    {
        ArtistCache { records: HashMap::new() }
    }

    /// The cached record of `id`, if any.
    pub fn cached(&self, id: u32) -> (r: Option<ArtistResult>)
        ensures
            self@.contains_key(id) ==> r == Some(self@[id]),
            !self@.contains_key(id) ==> r is None,
    {
        match self.records.get(&id) {
            Some(rec) => Some(rec.duplicate()),
            None => None,
        }
    }

    /// The cached record of `id` unless `force_refresh` is set or there is none; otherwise
    /// the provider must be asked.
    pub fn get_or_fetch(&self, id: u32, force_refresh: bool) -> (r: CacheStep)
        ensures
            r == cache_step(self@, id, force_refresh),
    {
        if force_refresh {
            return CacheStep::NeedsFetch;
        }
        match self.cached(id) {
            Some(rec) => CacheStep::Ready(rec),
            None => CacheStep::NeedsFetch,
        }
    }

    /// Records what the provider answered for `id` and hands it on.
    pub fn store_fetched(&mut self, id: u32, outcome: Result<ArtistResult, FetchError>) -> (r: Result<
        ArtistResult,
        FetchError,
    >)
        ensures
            final(self)@ == after_fetch(old(self)@, id, outcome),
            r == outcome,
    {
        match outcome {
            Ok(rec) => {
                let kept = rec.duplicate();
                self.records.insert(id, rec);
                Ok(kept)
            },
            Err(e) => Err(e),
        }
    }

    /// Replaces the cached record of `id`.
    pub fn put(&mut self, id: u32, rec: ArtistResult)
        ensures
            final(self)@ == old(self)@.insert(id, rec),
    {
        self.records.insert(id, rec);
    }

    /// Forgets every record.
    pub fn clear(&mut self)
        ensures
            final(self)@ == Map::<u32, ArtistResult>::empty(),
    {
        self.records.clear();
    }
}

/// A record in the cache is handed back unchanged by every lookup without a forced refresh,
/// and a failed fetch, for any id, leaves it there.
pub proof fn lemma_cached_record_stable(
    m: Map<u32, ArtistResult>,
    id: u32,
    other: u32,
    e: FetchError,
)
    requires
        m.contains_key(id),
    ensures
        cache_step(m, id, false) == CacheStep::Ready(m[id]),
        after_fetch(m, other, Err(e)) == m,
        cache_step(after_fetch(m, other, Err(e)), id, false) == cache_step(m, id, false),
{
}

/// After a successful fetch, lookups of that id give the fetched record until the next fetch.
pub proof fn lemma_fetched_record_served(m: Map<u32, ArtistResult>, id: u32, rec: ArtistResult)
    ensures
        cache_step(after_fetch(m, id, Ok(rec)), id, false) == CacheStep::Ready(rec),
{
}

/// A forced refresh goes to the provider whatever the cache holds.
pub proof fn lemma_forced_refresh_fetches(m: Map<u32, ArtistResult>, id: u32)
    ensures
        cache_step(m, id, true) == CacheStep::NeedsFetch,
{
}

pub open spec fn pfp_path(id: u32) -> Seq<char> {
    "./images/u_"@ + decimal(id as nat) + ".jpeg"@
}

pub open spec fn illust_path(id: u32) -> Seq<char> {
    "./images/i_"@ + decimal(id as nat) + ".jpeg"@
}

pub open spec fn record_path(id: u32) -> Seq<char> {
    "./jsons/"@ + decimal(id as nat) + ".json"@
}

/// Where the profile image of artist `id` is kept.
pub fn get_path_to_pfp(id: u32) -> (r: String)
    ensures
        r@ == pfp_path(id),
{
    String::from_str("./images/u_").concat(decimal_string(id as u64).as_str()).concat(".jpeg")
}

/// Where the image of illustration `id` is kept.
pub fn get_path_to_illust(id: u32) -> (r: String)
    ensures
        r@ == illust_path(id),
{
    String::from_str("./images/i_").concat(decimal_string(id as u64).as_str()).concat(".jpeg")
}

/// Where the record of artist `id` is kept.
pub fn get_path_to_record(id: u32) -> (r: String)
    ensures
        r@ == record_path(id),
{
    String::from_str("./jsons/").concat(decimal_string(id as u64).as_str()).concat(".json")
}

/// The images to show for `artist` and its recent `illusts`: the profile image, then one per
/// illustration; an id of 0 marks a placeholder, which has none.
pub fn image_paths(artist: &Artist, illusts: &[Illustration; 4]) -> (r: Vec<Option<String>>)
    ensures
        r@.len() == 5,
        artist.id == 0 ==> r@[0] is None,
        artist.id != 0 ==> (r@[0] matches Some(p) && p@ == pfp_path(artist.id)),
        forall|i: int|
            0 <= i < 4 ==> {
                &&& illusts[i].id == 0 ==> (#[trigger] r@[i + 1]) is None
                &&& illusts[i].id != 0 ==> (r@[i + 1] matches Some(p) && p@ == illust_path(
                    illusts[i].id,
                ))
            },
{
    let mut r: Vec<Option<String>> = Vec::new();
    if artist.id != 0 {
        r.push(Some(get_path_to_pfp(artist.id)));
    } else {
        r.push(None);
    }
    let mut i: usize = 0;
    while i < 4
        invariant
            i <= 4,
            r@.len() == i + 1,
            artist.id == 0 ==> r@[0] is None,
            artist.id != 0 ==> (r@[0] matches Some(p) && p@ == pfp_path(artist.id)),
            forall|j: int|
                0 <= j < i ==> {
                    &&& illusts[j].id == 0 ==> (#[trigger] r@[j + 1]) is None
                    &&& illusts[j].id != 0 ==> (r@[j + 1] matches Some(p) && p@
                        == illust_path(illusts[j].id))
                },
        decreases 4 - i,
    {
        let id = illusts[i].id;
        if id != 0 {
            r.push(Some(get_path_to_illust(id)));
        } else {
            r.push(None);
        }
        i = i + 1;
    }
    r
}

} // verus!

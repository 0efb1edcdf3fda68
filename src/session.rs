use vstd::prelude::*;
use crate::cache::{after_fetch, cache_step, ArtistCache, CacheStep, FetchError};
use crate::model::{
    Artist, ArtistResult, Illustration, UserData, DEFAULT_AMOUNT_TO_SEARCH, DEFAULT_TIMEZONE,
};
use crate::queue::{
    get_last_checked_artist_index, get_small_artist_info, is_watermark_index,
    mark_as_checked_up_to_index, marked, reset_to, ArtistQueue, MAX_QUEUE_LEN,
};
use crate::settings::{amount_valid, check_amount_to_search_validity, trim_of, trimmed};
use crate::text::{decimal, decimal_string, parse_u16, u16_text_value};

verus! {

broadcast use vstd::array::group_array_axioms;

pub open spec fn window_title_text(name: Seq<char>, index: u16, total: u16) -> Seq<char> {
    "PAR - "@ + name + " - "@ + decimal(index as nat + 1) + "/"@ + decimal(total as nat)
}

/// The main window's title: the artist's name and their 1-based position in the queue.
pub fn make_window_title(artist_name: &str, artist_index: u16, total_artists: u16) -> (r: String)
    ensures
        r@ == window_title_text(artist_name@, artist_index, total_artists),
{
    let position = decimal_string(artist_index as u64 + 1);
    let total = decimal_string(total_artists as u64);
    String::from_str("PAR - ").concat(artist_name).concat(" - ").concat(position.as_str()).concat(
        "/",
    ).concat(total.as_str())
}

/// The queue entry that a navigation step is about to show.
#[derive(Clone, Copy, Debug, PartialEq, Eq, Structural)]
pub struct PendingArtist {
    pub artist_index: u16,
    pub artist_id: u32,
    pub has_been_checked: bool,
    pub total_artists: u16,
}

/// What a navigation step did.
#[derive(Clone, Copy, Debug, PartialEq, Eq, Structural)]
pub enum ChangeStep {
    /// Nothing changed: not initialized, past either end of the queue, or nowhere to go.
    NoMotion,
    /// The entry is shown, from the cache.
    Shown,
    /// The entry is marked reviewed; its record must come from the provider and be handed
    /// to `finish_change_artist`.
    NeedsDownload(PendingArtist),
}

/// Which edited settings need the provider's verdict before `apply_settings`.
#[derive(Clone, Copy, Debug, PartialEq, Eq, Structural)]
pub struct RemoteChecks {
    pub token: bool,
    pub timezone: bool,
}

/// What `apply_settings` did.
#[derive(Clone, Copy, Debug, PartialEq, Eq, Structural)]
pub struct SettingsOutcome {
    /// At least one committed field changed: the settings must be stored.
    pub changes_made: bool,
    /// The token changed: the queue and every cached record must be fetched anew.
    pub reset_required: bool,
}

/// The state of a review session.
pub struct AppData {
    pub requires_initialization: bool,
    pub window_title: String,
    pub settings_window_is_open: bool,
    pub info_window_is_open: bool,
    /// Artist position to jump to, 1-based, as typed.
    pub jump_index: String,
    /// Current committed settings.
    pub settings: UserData,
    /// Edits of the settings being edited.
    pub temp_token: String,
    pub temp_amount_to_search: String,
    pub temp_timezone: String,
    /// Whether the shown artist had been reviewed before this visit.
    pub has_been_checked: bool,
    pub total_artists: u16,
    pub artist_index: u16,
    pub artist: Artist,
    /// Latest bookmarked illustration.
    pub last_bookmarked: Illustration,
    /// The most recent illustrations.
    pub illusts: [Illustration; 4],
    pub queue: ArtistQueue,
    pub cache: ArtistCache,
}

pub open spec fn pending_of(q: Seq<(u32, bool)>, index: u16) -> PendingArtist {
    PendingArtist {
        artist_index: index,
        artist_id: q[index as int].0,
        has_been_checked: q[index as int].1,
        total_artists: q.len() as u16,
    }
}

/// `a` and `b` agree on everything but the queue, the cache and what is shown.
pub open spec fn same_settings(a: AppData, b: AppData) -> bool {
    &&& a.requires_initialization == b.requires_initialization
    &&& a.settings_window_is_open == b.settings_window_is_open
    &&& a.info_window_is_open == b.info_window_is_open
    &&& a.jump_index == b.jump_index
    &&& a.settings == b.settings
    &&& a.temp_token == b.temp_token
    &&& a.temp_amount_to_search == b.temp_amount_to_search
    &&& a.temp_timezone == b.temp_timezone
}

/// `a` and `b` show the same artist.
pub open spec fn same_display(a: AppData, b: AppData) -> bool {
    &&& a.window_title == b.window_title
    &&& a.has_been_checked == b.has_been_checked
    &&& a.total_artists == b.total_artists
    &&& a.artist_index == b.artist_index
    &&& a.artist == b.artist
    &&& a.last_bookmarked == b.last_bookmarked
    &&& a.illusts == b.illusts
}

/// `d` shows `rec` as the entry `p`.
pub open spec fn shows(d: AppData, p: PendingArtist, rec: ArtistResult) -> bool {
    &&& d.artist == rec.artist
    &&& d.last_bookmarked == rec.last_bookmarked
    &&& d.illusts == rec.illusts
    &&& d.artist_index == p.artist_index
    &&& d.total_artists == p.total_artists
    &&& d.has_been_checked == p.has_been_checked
    &&& d.window_title@ == window_title_text(rec.artist.name@, p.artist_index, p.total_artists)
}

/// `b` and `r` are what `change_artist(index, force)` makes of `a` once its queue is `q` and
/// its cache holds `c`.
pub open spec fn changed_artist_from(
    a: AppData,
    q: Seq<(u32, bool)>,
    c: Map<u32, ArtistResult>,
    b: AppData,
    index: u16,
    force: bool,
    r: ChangeStep,
) -> bool {
    &&& same_settings(a, b)
    &&& b.cache@ == c
    &&& if a.requires_initialization || index >= q.len() {
        &&& r == ChangeStep::NoMotion
        &&& b.queue@ == q
        &&& same_display(a, b)
    } else {
        let p = pending_of(q, index);
        &&& b.queue@ == marked(q, index as int)
        &&& match cache_step(c, p.artist_id, force) {
            CacheStep::Ready(rec) => r == ChangeStep::Shown && shows(b, p, rec),
            CacheStep::NeedsFetch => r == ChangeStep::NeedsDownload(p) && same_display(a, b),
        }
    }
}

/// The queue after a jump to position `t` that reached its entry.
pub open spec fn jumped(s: Seq<(u32, bool)>, t: int) -> Seq<(u32, bool)> {
    if 0 <= t < s.len() {
        marked(reset_to(s, t), t)
    } else {
        reset_to(s, t)
    }
}

/// Position (0-based) that `jump_index` names, when it names one of the `total` entries.
pub open spec fn jump_target(jump_index: Seq<char>, total: int) -> Option<int> {
    match u16_text_value(jump_index) {
        Some(n) => if 1 <= n <= total { Some(n - 1) } else { None },
        None => None,
    }
}

/// The token is accepted: it differs from the committed one, is not empty and is valid.
pub open spec fn token_accepted(committed: Seq<char>, edit: Seq<char>, valid: bool) -> bool {
    edit != committed && edit.len() > 0 && valid
}

/// The search depth is accepted: it differs, and is in range, or is empty while the default
/// differs from the committed value.
pub open spec fn amount_accepted(committed: Seq<char>, edit: Seq<char>) -> bool {
    edit != committed && if edit.len() == 0 {
        DEFAULT_AMOUNT_TO_SEARCH@ != committed
    } else {
        amount_valid(edit)
    }
}

/// The timezone is accepted: it differs, and is valid, or is empty while the default differs
/// from the committed value.
pub open spec fn timezone_accepted(committed: Seq<char>, edit: Seq<char>, valid: bool) -> bool {
    edit != committed && if edit.len() == 0 {
        DEFAULT_TIMEZONE@ != committed
    } else {
        valid
    }
}

/// The committed value after a commit: the edit if accepted (the default for an empty one),
/// else the old value.
pub open spec fn field_after(
    committed: Seq<char>,
    edit: Seq<char>,
    accepted: bool,
    default: Seq<char>,
) -> Seq<char> {
    if !accepted {
        committed
    } else if edit.len() == 0 {
        default
    } else {
        edit
    }
}

pub open spec fn bookmark_flipped(a: ArtistResult, b: ArtistResult, slot: int) -> bool {
    &&& b.artist == a.artist
    &&& b.last_bookmarked == a.last_bookmarked
    &&& b.illusts@ == a.illusts@.update(
        slot,
        Illustration { is_bookmarked: !a.illusts[slot].is_bookmarked, ..a.illusts[slot] },
    )
}

pub open spec fn follow_flipped(a: ArtistResult, b: ArtistResult) -> bool {
    &&& b.artist == Artist { is_followed: !a.artist.is_followed, ..a.artist }
    &&& b.last_bookmarked == a.last_bookmarked
    &&& b.illusts == a.illusts
}

impl AppData {
    pub open spec fn wf(&self) -> bool {
        self.queue.wf()
    }

    /// A session over `settings` and the stored `queue` (`None` when there is none or it could
    /// not be read), positioned where review resumes. `token_is_valid` is the provider's
    /// verdict on the stored token.
    pub fn load(settings: UserData, token_is_valid: bool, queue: Option<ArtistQueue>) -> (r: AppData)
        requires
            queue matches Some(q) ==> q.wf(),
        ensures
            r.wf(),
            r.requires_initialization == !token_is_valid,
            r.settings == settings,
            r.temp_token == settings.token,
            r.temp_amount_to_search == settings.amount_to_search,
            r.temp_timezone == settings.timezone,
            r.jump_index@ == "0"@,
            !r.settings_window_is_open && !r.info_window_is_open,
            r.window_title@ == "<- Click on the S and change your token"@,
            !r.has_been_checked,
            r.total_artists == 0,
            r.artist.name@ == "Artist name"@ && r.artist.id == 0 && r.artist.recent_count == 0
                && !r.artist.is_followed,
            r.last_bookmarked.is_empty_placeholder(),
            forall|i: int| 0 <= i < 4 ==> (#[trigger] r.illusts[i]).is_empty_placeholder(),
            r.cache@ == Map::<u32, ArtistResult>::empty(),
            queue matches Some(q) ==> r.queue@ == q@ && is_watermark_index(q@, r.artist_index as int),
            queue is None ==> r.queue@.len() == 0 && r.artist_index == 0,
    {
        let artist_index = get_last_checked_artist_index(&queue);
        let queue = match queue {
            Some(q) => q,
            None => ArtistQueue { entries: Vec::new() },
        };
        let temp_token = settings.token.clone();
        let temp_amount_to_search = settings.amount_to_search.clone();
        let temp_timezone = settings.timezone.clone();
        AppData {
            requires_initialization: !token_is_valid,
            window_title: String::from_str("<- Click on the S and change your token"),
            settings_window_is_open: false,
            info_window_is_open: false,
            jump_index: String::from_str("0"),
            settings,
            temp_token,
            temp_amount_to_search,
            temp_timezone,
            has_been_checked: false,
            total_artists: 0,
            artist_index,
            artist: Artist::load_empty(),
            last_bookmarked: Illustration::load_empty(),
            illusts: Illustration::load_empty_list(),
            queue,
            cache: ArtistCache::new(),
        }
    }

    /// Sets the window title from the shown artist.
    pub fn load_window_title(&mut self)
        ensures
            *final(self) == (AppData { window_title: final(self).window_title, ..*old(self) }),
            final(self).window_title@ == window_title_text(
                old(self).artist.name@,
                old(self).artist_index,
                old(self).total_artists,
            ),
    {
        self.window_title = make_window_title(
            self.artist.name.as_str(),
            self.artist_index,
            self.total_artists,
        );
    }

    fn show(&mut self, p: PendingArtist, rec: ArtistResult)
        ensures
            shows(*final(self), p, rec),
            same_settings(*old(self), *final(self)),
            final(self).queue == old(self).queue,
            final(self).cache == old(self).cache,
    {
        let ArtistResult { artist, last_bookmarked, illusts } = rec;
        self.artist = artist;
        self.last_bookmarked = last_bookmarked;
        self.illusts = illusts;
        self.artist_index = p.artist_index;
        self.total_artists = p.total_artists;
        self.has_been_checked = p.has_been_checked;
        self.load_window_title();
    }

    /// Moves to the entry at `artist_index`: marks it reviewed, then shows its cached record
    /// unless `redownload_if_exists` is set or none is cached, in which case the record must
    /// be fetched. Does nothing before initialization or past the end of the queue.
    pub fn change_artist(&mut self, artist_index: u16, redownload_if_exists: bool) -> (r: ChangeStep)
        requires
            old(self).wf(),
        ensures
            final(self).wf(),
            changed_artist_from(
                *old(self),
                old(self).queue@,
                old(self).cache@,
                *final(self),
                artist_index,
                redownload_if_exists,
                r,
            ),
    {
        if self.requires_initialization {
            return ChangeStep::NoMotion;
        }
        let (artist_id, has_been_checked, total_artists) = match get_small_artist_info(
            &mut self.queue,
            artist_index,
        ) {
            Some(info) => info,
            None => return ChangeStep::NoMotion,
        };
        let p = PendingArtist { artist_index, artist_id, has_been_checked, total_artists };
        match self.cache.get_or_fetch(artist_id, redownload_if_exists) {
            CacheStep::Ready(rec) => {
                self.show(p, rec);
                ChangeStep::Shown
            },
            CacheStep::NeedsFetch => ChangeStep::NeedsDownload(p),
        }
    }

    /// Completes a step that needed a download: on success caches the record and shows it,
    /// on failure changes nothing and hands the error on.
    pub fn finish_change_artist(
        &mut self,
        pending: PendingArtist,
        outcome: Result<ArtistResult, FetchError>,
    ) -> (r: Result<(), FetchError>)
        ensures
            final(self).cache@ == after_fetch(old(self).cache@, pending.artist_id, outcome),
            final(self).queue == old(self).queue,
            same_settings(*old(self), *final(self)),
            outcome matches Ok(rec) ==> r is Ok && shows(*final(self), pending, rec),
            outcome matches Err(e) ==> r == Err::<(), FetchError>(e) && same_display(
                *old(self),
                *final(self),
            ),
    {
        match self.cache.store_fetched(pending.artist_id, outcome) {
            Ok(rec) => {
                self.show(pending, rec);
                Ok(())
            },
            Err(e) => Err(e),
        }
    }

    /// One step forward or back in the queue; nothing before the first entry.
    pub fn advance(&mut self, forward: bool) -> (r: ChangeStep)
        requires
            old(self).wf(),
        ensures
            final(self).wf(),
            forward && old(self).artist_index < u16::MAX ==> changed_artist_from(
                *old(self),
                old(self).queue@,
                old(self).cache@,
                *final(self),
                (old(self).artist_index + 1) as u16,
                false,
                r,
            ),
            !forward && old(self).artist_index > 0 ==> changed_artist_from(
                *old(self),
                old(self).queue@,
                old(self).cache@,
                *final(self),
                (old(self).artist_index - 1) as u16,
                false,
                r,
            ),
            (forward && old(self).artist_index == u16::MAX) || (!forward && old(self).artist_index
                == 0) ==> r == ChangeStep::NoMotion && *final(self) == *old(self),
    {
        if forward {
            if self.artist_index == u16::MAX {
                return ChangeStep::NoMotion;
            }
            let next = self.artist_index + 1;
            self.change_artist(next, false)
        } else {
            if self.artist_index == 0 {
                return ChangeStep::NoMotion;
            }
            let prev = self.artist_index - 1;
            self.change_artist(prev, false)
        }
    }

    /// Shows the current entry again from a fresh download.
    pub fn reload_current(&mut self) -> (r: ChangeStep)
        requires
            old(self).wf(),
        ensures
            final(self).wf(),
            changed_artist_from(
                *old(self),
                old(self).queue@,
                old(self).cache@,
                *final(self),
                old(self).artist_index,
                true,
                r,
            ),
    {
        let index = self.artist_index;
        self.change_artist(index, true)
    }

    /// Whether `jump_index` names one of the queue's entries (1-based).
    pub fn jump_index_is_valid(&self) -> (r: bool)
        ensures
            r == jump_target(self.jump_index@, self.queue@.len() as int) is Some,
    {
        match parse_u16(self.jump_index.as_str()) {
            Some(num) => num != 0 && (num as usize) <= self.queue.len(),
            None => false,
        }
    }

    /// The 0-based position that `jump_index` names, if it names one.
    pub fn get_jump_index(&self) -> (r: Option<u16>)
        ensures
            match jump_target(self.jump_index@, self.queue@.len() as int) {
                Some(t) => r == Some(t as u16),
                None => r is None,
            },
    {
        match parse_u16(self.jump_index.as_str()) {
            Some(num) => if num != 0 && (num as usize) <= self.queue.len() {
                Some(num - 1)
            } else {
                None
            },
            None => None,
        }
    }

    /// Jumps to the entry that `jump_index` names: everything before it becomes reviewed and
    /// everything from it on not reviewed, then it is visited. Nothing happens when it names
    /// the entry shown.
    pub fn jump_to_jump_index(&mut self) -> (r: ChangeStep)
        requires
            old(self).wf(),
            jump_target(old(self).jump_index@, old(self).queue@.len() as int) is Some,
        ensures
            final(self).wf(),
            jump_target(old(self).jump_index@, old(self).queue@.len() as int) matches Some(t) ==> if t
                == old(self).artist_index {
                r == ChangeStep::NoMotion && *final(self) == *old(self)
            } else {
                &&& changed_artist_from(
                    *old(self),
                    reset_to(old(self).queue@, t),
                    old(self).cache@,
                    *final(self),
                    t as u16,
                    false,
                    r,
                )
                &&& !old(self).requires_initialization ==> final(self).queue@ == jumped(
                    old(self).queue@,
                    t,
                )
            },
    {
        let new_index = match self.get_jump_index() {
            Some(t) => t,
            None => return ChangeStep::NoMotion,
        };
        if new_index == self.artist_index {
            return ChangeStep::NoMotion;
        }
        mark_as_checked_up_to_index(&mut self.queue, new_index);
        self.change_artist(new_index, false)
    }

    /// Whether the edited token differs from the committed one.
    pub fn temp_token_has_changed(&self) -> (r: bool)
        ensures
            r == (self.settings.token@ != self.temp_token@),
    {
        !(self.settings.token == self.temp_token)
    }

    /// Drops the edits, back to the committed settings, and clears the jump position.
    pub fn cancel_settings(&mut self)
        ensures
            final(self).jump_index@ == "0"@,
            final(self).temp_token == old(self).settings.token,
            final(self).temp_amount_to_search == old(self).settings.amount_to_search,
            final(self).temp_timezone == old(self).settings.timezone,
            *final(self) == (AppData {
                jump_index: final(self).jump_index,
                temp_token: final(self).temp_token,
                temp_amount_to_search: final(self).temp_amount_to_search,
                temp_timezone: final(self).temp_timezone,
                ..*old(self)
            }),
    {
        self.jump_index = String::from_str("0");
        self.temp_token = self.settings.token.clone();
        self.temp_amount_to_search = self.settings.amount_to_search.clone();
        self.temp_timezone = self.settings.timezone.clone();
    }

    /// Trims whitespace from the three edits.
    pub fn trim_edits(&mut self)
        ensures
            final(self).temp_token@ == trim_of(old(self).temp_token@),
            final(self).temp_amount_to_search@ == trim_of(old(self).temp_amount_to_search@),
            final(self).temp_timezone@ == trim_of(old(self).temp_timezone@),
            *final(self) == (AppData {
                temp_token: final(self).temp_token,
                temp_amount_to_search: final(self).temp_amount_to_search,
                temp_timezone: final(self).temp_timezone,
                ..*old(self)
            }),
    {
        self.temp_token = trimmed(&self.temp_token);
        self.temp_amount_to_search = trimmed(&self.temp_amount_to_search);
        self.temp_timezone = trimmed(&self.temp_timezone);
    }

    /// Which edited values go to the provider before `apply_settings`: a token or timezone
    /// that differs from the committed one and is not empty. The search depth needs no
    /// provider, and an empty token is never accepted.
    pub fn pending_remote_checks(&self) -> (r: RemoteChecks)
        ensures
            r.token == (self.temp_token@ != self.settings.token@ && self.temp_token@.len() > 0),
            r.timezone == (self.temp_timezone@ != self.settings.timezone@
                && self.temp_timezone@.len() > 0),
    {
        let token = !(self.temp_token == self.settings.token) && !self.temp_token.as_str().is_empty();
        let timezone = !(self.temp_timezone == self.settings.timezone)
            && !self.temp_timezone.as_str().is_empty();
        RemoteChecks { token, timezone }
    }

    /// Commits the edits field by field. A changed field is accepted when valid (the token
    /// and timezone by the provider's verdicts given here, the search depth by
    /// `check_amount_to_search_validity`); an empty search depth or timezone becomes the
    /// default, and counts as a change only where the default differs from the committed
    /// value; an empty token is refused. A refused edit reverts to the committed value.
    /// An accepted token ends the need for initialization and asks for a full reset.
    pub fn apply_settings(&mut self, token_is_valid: bool, timezone_is_valid: bool) -> (r:
        SettingsOutcome)
        ensures
            ({
                let o = *old(self);
                let tok = token_accepted(o.settings.token@, o.temp_token@, token_is_valid);
                let amt = amount_accepted(o.settings.amount_to_search@, o.temp_amount_to_search@);
                let tz = timezone_accepted(o.settings.timezone@, o.temp_timezone@, timezone_is_valid);
                &&& final(self).settings.token@ == field_after(o.settings.token@, o.temp_token@, tok, seq![])
                &&& final(self).settings.amount_to_search@ == field_after(
                    o.settings.amount_to_search@,
                    o.temp_amount_to_search@,
                    amt,
                    DEFAULT_AMOUNT_TO_SEARCH@,
                )
                &&& final(self).settings.timezone@ == field_after(
                    o.settings.timezone@,
                    o.temp_timezone@,
                    tz,
                    DEFAULT_TIMEZONE@,
                )
                &&& final(self).temp_token@ == final(self).settings.token@
                &&& final(self).temp_amount_to_search@ == final(self).settings.amount_to_search@
                &&& final(self).temp_timezone@ == final(self).settings.timezone@
                &&& final(self).requires_initialization == (o.requires_initialization && !tok)
                &&& r.changes_made == (tok || amt || tz)
                &&& r.changes_made == (final(self).settings.token@ != o.settings.token@
                    || final(self).settings.amount_to_search@ != o.settings.amount_to_search@
                    || final(self).settings.timezone@ != o.settings.timezone@)
                &&& r.reset_required == tok
            }),
            *final(self) == (AppData {
                settings: final(self).settings,
                temp_token: final(self).temp_token,
                temp_amount_to_search: final(self).temp_amount_to_search,
                temp_timezone: final(self).temp_timezone,
                requires_initialization: final(self).requires_initialization,
                ..*old(self)
            }),
    {
        let mut changes_made = false;
        let mut reset_required = false;

        if !(self.settings.token == self.temp_token) {
            if !self.temp_token.as_str().is_empty() && token_is_valid {
                self.settings.token = self.temp_token.clone();
                self.requires_initialization = false;
                changes_made = true;
                reset_required = true;
            } else {
                self.temp_token = self.settings.token.clone();
            }
        }

        if !(self.settings.amount_to_search == self.temp_amount_to_search) {
            if self.temp_amount_to_search.as_str().is_empty() {
                let default = String::from_str(DEFAULT_AMOUNT_TO_SEARCH);
                if !(self.settings.amount_to_search == default) {
                    self.temp_amount_to_search = String::from_str(DEFAULT_AMOUNT_TO_SEARCH);
                    self.settings.amount_to_search = default;
                    changes_made = true;
                } else {
                    self.temp_amount_to_search = self.settings.amount_to_search.clone();
                }
            } else if check_amount_to_search_validity(self.temp_amount_to_search.as_str()) {
                self.settings.amount_to_search = self.temp_amount_to_search.clone();
                changes_made = true;
            } else {
                self.temp_amount_to_search = self.settings.amount_to_search.clone();
            }
        }

        if !(self.settings.timezone == self.temp_timezone) {
            if self.temp_timezone.as_str().is_empty() {
                let default = String::from_str(DEFAULT_TIMEZONE);
                if !(self.settings.timezone == default) {
                    self.temp_timezone = String::from_str(DEFAULT_TIMEZONE);
                    self.settings.timezone = default;
                    changes_made = true;
                } else {
                    self.temp_timezone = self.settings.timezone.clone();
                }
            } else if timezone_is_valid {
                self.settings.timezone = self.temp_timezone.clone();
                changes_made = true;
            } else {
                self.temp_timezone = self.settings.timezone.clone();
            }
        }

        SettingsOutcome { changes_made, reset_required }
    }
}

/// Flips the bookmark of the shown illustration in `illust_index`, on the display and in the
/// cached record, once the provider reported `success`; otherwise nothing changes.
pub fn toggle_bookmark(data: &mut AppData, illust_index: usize, success: bool)
    ensures
        !success || illust_index >= 4 ==> *final(data) == *old(data),
        success && illust_index < 4 ==> {
            let o = *old(data);
            let f = *final(data);
            let id = o.artist.id;
            &&& f == (AppData { illusts: f.illusts, cache: f.cache, ..o })
            &&& f.illusts@ == o.illusts@.update(
                illust_index as int,
                Illustration {
                    is_bookmarked: !o.illusts[illust_index as int].is_bookmarked,
                    ..o.illusts[illust_index as int]
                },
            )
            &&& o.cache@.contains_key(id) ==> f.cache@ == o.cache@.insert(id, f.cache@[id])
                && bookmark_flipped(o.cache@[id], f.cache@[id], illust_index as int)
            &&& !o.cache@.contains_key(id) ==> f.cache@ == o.cache@
        },
{
    if !success || illust_index >= 4 {
        return;
    }
    let flipped = !data.illusts[illust_index].is_bookmarked;
    data.illusts[illust_index].is_bookmarked = flipped;
    let id = data.artist.id;
    match data.cache.cached(id) {
        Some(rec) => {
            let mut rec = rec;
            rec.flip_bookmark(illust_index);
            data.cache.put(id, rec);
        },
        None => {},
    }
}

/// Flips whether the shown artist is followed, on the display and in the cached record, once
/// the provider reported `success`; nothing changes before initialization or on failure.
pub fn toggle_follow(data: &mut AppData, success: bool)
    ensures
        old(data).requires_initialization || !success ==> *final(data) == *old(data),
        !old(data).requires_initialization && success ==> {
            let o = *old(data);
            let f = *final(data);
            let id = o.artist.id;
            &&& f == (AppData { artist: f.artist, cache: f.cache, ..o })
            &&& f.artist == (Artist { is_followed: !o.artist.is_followed, ..o.artist })
            &&& o.cache@.contains_key(id) ==> f.cache@ == o.cache@.insert(id, f.cache@[id])
                && follow_flipped(o.cache@[id], f.cache@[id])
            &&& !o.cache@.contains_key(id) ==> f.cache@ == o.cache@
        },
{
    if data.requires_initialization || !success {
        return;
    }
    data.artist.is_followed = !data.artist.is_followed;
    let id = data.artist.id;
    match data.cache.cached(id) {
        Some(rec) => {
            let mut rec = rec;
            rec.artist.is_followed = !rec.artist.is_followed;
            data.cache.put(id, rec);
        },
        None => {},
    }
}

pub open spec fn fresh_queue(ids: Seq<u32>) -> Seq<(u32, bool)> {
    Seq::new(ids.len(), |i: int| (ids[i], false))
}

/// Starts over on the artist list `ids`, none reviewed, with every cached record dropped,
/// and moves to the first entry. `None`, with nothing changed, when the list is longer than
/// `MAX_QUEUE_LEN`.
pub fn reset_artist_list(data: &mut AppData, ids: &Vec<u32>) -> (r: Option<ChangeStep>)
    requires
        old(data).wf(),
    ensures
        final(data).wf(),
        ids@.len() > MAX_QUEUE_LEN ==> r is None && *final(data) == *old(data),
        ids@.len() <= MAX_QUEUE_LEN ==> (r matches Some(step) && changed_artist_from(
            *old(data),
            fresh_queue(ids@),
            Map::<u32, ArtistResult>::empty(),
            *final(data),
            0,
            false,
            step,
        )),
{
    let queue = match ArtistQueue::from_ids(ids) {
        Some(q) => q,
        None => return None,
    };
    assert(queue@ =~= fresh_queue(ids@));
    data.queue = queue;
    data.cache.clear();
    Some(data.change_artist(0, false))
}

/// Jumping twice to the same position leaves the queue as the first jump left it.
pub proof fn lemma_repeat_jump_stable(s: Seq<(u32, bool)>, t: int)
    ensures
        jumped(jumped(s, t), t) == jumped(s, t),
        jumped(s, t).len() == s.len(),
{
    assert(jumped(jumped(s, t), t) =~= jumped(s, t));
}

} // verus!

use vstd::prelude::*;

verus! {

broadcast use vstd::array::group_array_axioms;

/// Search depth used when the field is left empty.
pub const DEFAULT_AMOUNT_TO_SEARCH: &'static str = "210";

/// Timezone used when the field is left empty.
pub const DEFAULT_TIMEZONE: &'static str = "Etc/GMT-9";

/// Token stored before any credential has been entered.
pub const NO_TOKEN: &'static str = "None";

/// The user's committed settings.
#[derive(Clone, Debug, PartialEq, Eq)]
pub struct UserData {
    /// Refresh token for the remote provider.
    pub token: String,
    /// How many illustrations to search, as typed: a decimal in `[0, 1020]`.
    pub amount_to_search: String,
    /// Timezone all dates are converted to.
    pub timezone: String,
}

#[derive(Clone, Debug, PartialEq, Eq)]
pub struct Artist {
    pub name: String,
    pub id: u32,
    /// Illustrations uploaded in the last six months.
    pub recent_count: u16,
    pub is_followed: bool,
}

#[derive(Clone, Debug, PartialEq, Eq)]
pub struct Illustration {
    pub id: u32,
    pub views: u32,
    pub bookmarks: u32,
    pub upload_date: String,
    pub is_bookmarked: bool,
}

/// Everything known of one artist: profile, latest bookmarked illustration, recent uploads.
#[derive(Clone, Debug, PartialEq, Eq)]
pub struct ArtistResult {
    pub artist: Artist,
    pub last_bookmarked: Illustration,
    pub illusts: [Illustration; 4],
}

/// The confirmations that the settings dialog can ask for.
#[derive(Clone, Copy, Debug, PartialEq, Eq, Structural)]
pub enum InfoWindowType {
    ConfirmTokenChange,
    ConfirmJump,
    ConfirmListReload,
}

impl UserData {
    /// Settings before anything has been configured.
    pub fn load_default() -> (r: UserData)
        ensures
            r.token@ == NO_TOKEN@,
            r.amount_to_search@ == DEFAULT_AMOUNT_TO_SEARCH@,
            r.timezone@ == DEFAULT_TIMEZONE@,
    {
        UserData {
            token: String::from_str(NO_TOKEN),
            amount_to_search: String::from_str(DEFAULT_AMOUNT_TO_SEARCH),
            timezone: String::from_str(DEFAULT_TIMEZONE),
        }
    }

    pub fn duplicate(&self) -> (r: UserData)
        ensures
            r == *self,
    {
        UserData {
            token: self.token.clone(),
            amount_to_search: self.amount_to_search.clone(),
            timezone: self.timezone.clone(),
        }
    }
}

impl Artist {
    /// The placeholder shown before any artist is loaded.
    pub fn load_empty() -> (r: Artist)
        ensures
            r.name@ == "Artist name"@,
            r.id == 0,
            r.recent_count == 0,
            !r.is_followed,
    {
        Artist { name: String::from_str("Artist name"), id: 0, recent_count: 0, is_followed: false }
    }

    pub fn duplicate(&self) -> (r: Artist)
        ensures
            r == *self,
    {
        Artist {
            name: self.name.clone(),
            id: self.id,
            recent_count: self.recent_count,
            is_followed: self.is_followed,
        }
    }
}

impl Illustration {
    pub open spec fn is_empty_placeholder(&self) -> bool {
        &&& self.id == 0
        &&& self.views == 0
        &&& self.bookmarks == 0
        &&& self.upload_date@ == "Upload date"@
        &&& !self.is_bookmarked
    }

    /// The placeholder shown before any illustration is loaded.
    pub fn load_empty() -> (r: Illustration)
        ensures
            r.is_empty_placeholder(),
    {
        Illustration {
            id: 0,
            views: 0,
            bookmarks: 0,
            upload_date: String::from_str("Upload date"),
            is_bookmarked: false,
        }
    }

    /// Four placeholders, one for each recent-illustration slot.
    pub fn load_empty_list() -> (r: [Illustration; 4])
        ensures
            forall|i: int| 0 <= i < 4 ==> (#[trigger] r[i]).is_empty_placeholder(),
    {
        [
            Illustration::load_empty(),
            Illustration::load_empty(),
            Illustration::load_empty(),
            Illustration::load_empty(),
        ]
    }

    pub fn duplicate(&self) -> (r: Illustration)
        ensures
            r == *self,
    {
        Illustration {
            id: self.id,
            views: self.views,
            bookmarks: self.bookmarks,
            upload_date: self.upload_date.clone(),
            is_bookmarked: self.is_bookmarked,
        }
    }
}

impl ArtistResult {
    pub fn duplicate(&self) -> (r: ArtistResult)
        ensures
            r == *self,
    {
        let illusts = [
            self.illusts[0].duplicate(),
            self.illusts[1].duplicate(),
            self.illusts[2].duplicate(),
            self.illusts[3].duplicate(),
        ];
        assert(illusts =~= self.illusts);
        ArtistResult {
            artist: self.artist.duplicate(),
            last_bookmarked: self.last_bookmarked.duplicate(),
            illusts,
        }
    }

    /// Flips the bookmark flag of the recent illustration in `slot`.
    pub fn flip_bookmark(&mut self, slot: usize)
        requires
            slot < 4,
        ensures
            final(self).artist == old(self).artist,
            final(self).last_bookmarked == old(self).last_bookmarked,
            final(self).illusts@ == old(self).illusts@.update(
                slot as int,
                Illustration {
                    is_bookmarked: !old(self).illusts[slot as int].is_bookmarked,
                    ..old(self).illusts[slot as int]
                },
            ),
    {
        let flipped = !self.illusts[slot].is_bookmarked;
        self.illusts[slot].is_bookmarked = flipped;
        assert(self.illusts@ =~= old(self).illusts@.update(
            slot as int,
            Illustration { is_bookmarked: flipped, ..old(self).illusts[slot as int] },
        ));
    }
}

} // verus!

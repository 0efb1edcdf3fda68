//! Review queue, record cache and settings logic for stepping through a long
//! list of remote artists, one entry at a time.

mod cache;
mod model;
mod queue;
mod session;
mod settings;
mod text;

pub use text::{decimal_string, parse_i16, parse_u16};
pub use model::{Artist, ArtistResult, Illustration, InfoWindowType, UserData, DEFAULT_AMOUNT_TO_SEARCH, DEFAULT_TIMEZONE};
pub use queue::{get_last_checked_artist_index, get_small_artist_info, mark_as_checked_up_to_index, ArtistQueue, MAX_QUEUE_LEN};
pub use cache::{get_path_to_illust, get_path_to_pfp, get_path_to_record, image_paths, ArtistCache, CacheStep, FetchError};
pub use settings::{check_amount_to_search_validity, read_script_answer, MAX_AMOUNT_TO_SEARCH};
pub use session::{make_window_title, reset_artist_list, toggle_bookmark, toggle_follow, AppData, ChangeStep, PendingArtist, RemoteChecks, SettingsOutcome};

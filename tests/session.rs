use artist_review::{
    make_window_title, reset_artist_list, toggle_bookmark, toggle_follow, AppData, Artist,
    ArtistQueue, ArtistResult, ChangeStep, FetchError, Illustration, InfoWindowType,
    PendingArtist, RemoteChecks, UserData, DEFAULT_AMOUNT_TO_SEARCH, DEFAULT_TIMEZONE,
};

fn illustration(id: u32) -> Illustration {
    Illustration {
        id,
        views: 1,
        bookmarks: 2,
        upload_date: "2024-05-06".to_string(),
        is_bookmarked: false,
    }
}

fn record(id: u32) -> ArtistResult {
    ArtistResult {
        artist: Artist { name: format!("Artist{}", id), id, recent_count: 1, is_followed: false },
        last_bookmarked: illustration(id * 10),
        illusts: [
            illustration(id * 10 + 1),
            illustration(id * 10 + 2),
            illustration(id * 10 + 3),
            illustration(id * 10 + 4),
        ],
    }
}

fn settings() -> UserData {
    UserData {
        token: "tok".to_string(),
        amount_to_search: "210".to_string(),
        timezone: "Etc/GMT-9".to_string(),
    }
}

fn session(entries: &[(u32, bool)]) -> AppData {
    let q = ArtistQueue::from_entries(entries.to_vec()).unwrap();
    AppData::load(settings(), true, Some(q))
}

/// Runs a navigation step, answering a download with the record of that id.
fn complete(data: &mut AppData, step: ChangeStep) {
    if let ChangeStep::NeedsDownload(p) = step {
        data.finish_change_artist(p, Ok(record(p.artist_id))).unwrap();
    }
}

#[test]
fn first_visit_marks_entry_reviewed() {
    let mut data = session(&[(1, false), (2, false), (3, false)]);
    assert_eq!(data.artist_index, 0);
    let step = data.change_artist(0, false);
    assert_eq!(
        step,
        ChangeStep::NeedsDownload(PendingArtist {
            artist_index: 0,
            artist_id: 1,
            has_been_checked: false,
            total_artists: 3,
        })
    );
    complete(&mut data, step);
    assert_eq!(data.queue.entries, vec![(1, true), (2, false), (3, false)]);
    assert_eq!(data.artist_index, 0);
    assert_eq!(data.artist, record(1).artist);
    assert_eq!(data.window_title, "PAR - Artist1 - 1/3");
}

#[test]
fn jump_forward_marks_skipped_entries() {
    let mut data = session(&[(1, false), (2, false), (3, false)]);
    let step = data.change_artist(0, false);
    complete(&mut data, step);
    data.jump_index = "3".to_string();
    assert!(data.jump_index_is_valid());
    assert_eq!(data.get_jump_index(), Some(2));
    let step = data.jump_to_jump_index();
    assert!(matches!(step, ChangeStep::NeedsDownload(_)));
    assert_eq!(data.queue.entries, vec![(1, true), (2, true), (3, true)]);
    complete(&mut data, step);
    assert_eq!(data.artist_index, 2);
    assert_eq!(data.artist.id, 3);
}

#[test]
fn jump_back_reopens_later_entries() {
    let mut data = session(&[(1, true), (2, true), (3, true), (4, false)]);
    assert_eq!(data.artist_index, 3);
    let step = data.change_artist(3, false);
    complete(&mut data, step);
    data.jump_index = "2".to_string();
    let step = data.jump_to_jump_index();
    complete(&mut data, step);
    assert_eq!(data.queue.entries, vec![(1, true), (2, true), (3, false), (4, false)]);
    assert_eq!(data.artist_index, 1);
}

#[test]
fn repeated_jump_changes_nothing() {
    let mut data = session(&[(1, false), (2, false), (3, false)]);
    let step = data.change_artist(0, false);
    complete(&mut data, step);
    data.jump_index = "2".to_string();
    let step = data.jump_to_jump_index();
    complete(&mut data, step);
    let after_first = data.queue.entries.clone();
    let title = data.window_title.clone();
    assert_eq!(data.jump_to_jump_index(), ChangeStep::NoMotion);
    assert_eq!(data.queue.entries, after_first);
    assert_eq!(data.window_title, title);
}

#[test]
fn invalid_jump_index_does_nothing() {
    let mut data = session(&[(1, false), (2, false)]);
    let step = data.change_artist(0, false);
    complete(&mut data, step);
    for text in ["0", "3", "x", ""] {
        data.jump_index = text.to_string();
        assert!(!data.jump_index_is_valid());
        assert_eq!(data.get_jump_index(), None);
    }
    assert_eq!(data.queue.entries, vec![(1, true), (2, false)]);
}

#[test]
fn settings_commit_rolls_back_invalid_fields() {
    let mut data = session(&[(1, false)]);
    data.temp_token = "".to_string();
    data.temp_amount_to_search = "9999".to_string();
    data.temp_timezone = "X".to_string();
    data.trim_edits();
    let checks = data.pending_remote_checks();
    assert_eq!(checks, RemoteChecks { token: false, timezone: true });
    let outcome = data.apply_settings(false, false);
    assert!(!outcome.changes_made);
    assert!(!outcome.reset_required);
    assert_eq!(data.settings, settings());
    assert_eq!(data.temp_token, "tok");
    assert_eq!(data.temp_amount_to_search, "210");
    assert_eq!(data.temp_timezone, "Etc/GMT-9");
}

#[test]
fn settings_commit_accepts_fields_independently() {
    let mut data = AppData::load(settings(), false, None);
    assert!(data.requires_initialization);
    data.temp_token = "  newtok ".to_string();
    data.temp_amount_to_search = "".to_string();
    data.temp_timezone = "Bad/Zone".to_string();
    data.trim_edits();
    assert_eq!(data.temp_token, "newtok");
    assert!(data.temp_token_has_changed());
    let outcome = data.apply_settings(true, false);
    assert!(outcome.changes_made);
    assert!(outcome.reset_required);
    assert!(!data.requires_initialization);
    assert_eq!(data.settings.token, "newtok");
    assert_eq!(data.settings.amount_to_search, DEFAULT_AMOUNT_TO_SEARCH);
    assert_eq!(data.settings.timezone, "Etc/GMT-9");
    assert_eq!(data.temp_timezone, DEFAULT_TIMEZONE);
}

#[test]
fn settings_commit_accepts_valid_amount_and_timezone() {
    let mut data = session(&[(1, false)]);
    data.temp_amount_to_search = "300".to_string();
    data.temp_timezone = "".to_string();
    data.settings.timezone = "Asia/Tokyo".to_string();
    let outcome = data.apply_settings(false, false);
    assert!(outcome.changes_made);
    assert!(!outcome.reset_required);
    assert_eq!(data.settings.amount_to_search, "300");
    assert_eq!(data.settings.timezone, DEFAULT_TIMEZONE);
}

#[test]
fn cancel_restores_edits() {
    let mut data = session(&[(1, false)]);
    data.temp_token = "other".to_string();
    data.temp_timezone = "Y".to_string();
    data.jump_index = "7".to_string();
    data.cancel_settings();
    assert_eq!(data.temp_token, "tok");
    assert_eq!(data.temp_timezone, "Etc/GMT-9");
    assert_eq!(data.jump_index, "0");
    assert!(!data.temp_token_has_changed());
}

#[test]
fn change_artist_past_end_is_no_motion() {
    let mut data = session(&[(1, false), (2, false), (3, false)]);
    let step = data.change_artist(0, false);
    complete(&mut data, step);
    let title = data.window_title.clone();
    assert_eq!(data.change_artist(3, false), ChangeStep::NoMotion);
    assert_eq!(data.change_artist(500, false), ChangeStep::NoMotion);
    assert_eq!(data.queue.entries, vec![(1, true), (2, false), (3, false)]);
    assert_eq!(data.artist_index, 0);
    assert_eq!(data.window_title, title);
}

#[test]
fn failed_download_keeps_state() {
    let mut data = session(&[(1, false), (2, false)]);
    let step = data.change_artist(0, false);
    complete(&mut data, step);
    let step = data.reload_current();
    let p = match step {
        ChangeStep::NeedsDownload(p) => p,
        other => panic!("unexpected {:?}", other),
    };
    let r = data.finish_change_artist(p, Err(FetchError::ProviderFailed));
    assert_eq!(r, Err(FetchError::ProviderFailed));
    assert_eq!(data.cache.cached(1), Some(record(1)));
    assert_eq!(data.artist, record(1).artist);
    assert_eq!(data.artist_index, 0);
}

#[test]
fn navigation_uses_cache_after_first_visit() {
    let mut data = session(&[(1, false), (2, false)]);
    let step = data.change_artist(0, false);
    complete(&mut data, step);
    let step = data.advance(true);
    complete(&mut data, step);
    assert_eq!(data.artist_index, 1);
    assert_eq!(data.advance(false), ChangeStep::Shown);
    assert_eq!(data.artist_index, 0);
    assert_eq!(data.advance(false), ChangeStep::NoMotion);
    assert_eq!(data.artist_index, 0);
    assert_eq!(data.queue.entries, vec![(1, true), (2, true)]);
}

#[test]
fn uninitialized_session_does_not_move() {
    let q = ArtistQueue::from_entries(vec![(1, false)]).unwrap();
    let mut data = AppData::load(settings(), false, Some(q));
    assert_eq!(data.change_artist(0, false), ChangeStep::NoMotion);
    assert_eq!(data.queue.entries, vec![(1, false)]);
    assert_eq!(data.window_title, "<- Click on the S and change your token");
}

#[test]
fn load_starts_at_watermark() {
    let data = session(&[(1, true), (2, false), (3, false)]);
    assert_eq!(data.artist_index, 1);
    assert_eq!(data.jump_index, "0");
    let data = AppData::load(settings(), true, None);
    assert_eq!(data.artist_index, 0);
    assert_eq!(data.queue.len(), 0);
}

#[test]
fn bookmark_toggle_updates_display_and_cache() {
    let mut data = session(&[(1, false)]);
    let step = data.change_artist(0, false);
    complete(&mut data, step);
    toggle_bookmark(&mut data, 2, false);
    assert!(!data.illusts[2].is_bookmarked);
    toggle_bookmark(&mut data, 2, true);
    assert!(data.illusts[2].is_bookmarked);
    assert!(data.cache.cached(1).unwrap().illusts[2].is_bookmarked);
    assert!(!data.cache.cached(1).unwrap().illusts[1].is_bookmarked);
    toggle_bookmark(&mut data, 4, true);
    assert_eq!(data.illusts, data.cache.cached(1).unwrap().illusts);
}

#[test]
fn follow_toggle_updates_display_and_cache() {
    let mut data = session(&[(1, false)]);
    let step = data.change_artist(0, false);
    complete(&mut data, step);
    toggle_follow(&mut data, true);
    assert!(data.artist.is_followed);
    assert!(data.cache.cached(1).unwrap().artist.is_followed);
    toggle_follow(&mut data, false);
    assert!(data.artist.is_followed);
}

#[test]
fn reset_artist_list_starts_over() {
    let mut data = session(&[(1, true), (2, true)]);
    let step = data.change_artist(1, false);
    complete(&mut data, step);
    let step = reset_artist_list(&mut data, &vec![9, 8, 7]).unwrap();
    assert_eq!(
        step,
        ChangeStep::NeedsDownload(PendingArtist {
            artist_index: 0,
            artist_id: 9,
            has_been_checked: false,
            total_artists: 3,
        })
    );
    assert_eq!(data.queue.entries, vec![(9, true), (8, false), (7, false)]);
    assert!(data.cache.cached(2).is_none());
}

#[test]
fn window_title_format() {
    assert_eq!(make_window_title("Name", 2, 10), "PAR - Name - 3/10");
    assert_eq!(make_window_title("", 65535, 65535), "PAR -  - 65536/65535");
}

#[test]
fn defaults_and_placeholders() {
    let d = UserData::load_default();
    assert_eq!(d.token, "None");
    assert_eq!(d.amount_to_search, "210");
    assert_eq!(d.timezone, "Etc/GMT-9");
    let a = Artist::load_empty();
    assert_eq!(a.name, "Artist name");
    assert_eq!(a.id, 0);
    let i = Illustration::load_empty();
    assert_eq!(i.upload_date, "Upload date");
    assert_eq!(Illustration::load_empty_list()[3], i);
    assert_ne!(InfoWindowType::ConfirmJump, InfoWindowType::ConfirmListReload);
}

#[test]
fn emptied_field_equal_to_default_is_no_change() {
    let mut data = session(&[(1, false)]);
    data.temp_amount_to_search = "".to_string();
    data.temp_timezone = " \t".to_string();
    data.trim_edits();
    assert_eq!(data.temp_timezone, "");
    assert_eq!(data.pending_remote_checks(), RemoteChecks { token: false, timezone: false });
    let outcome = data.apply_settings(false, false);
    assert!(!outcome.changes_made);
    assert_eq!(data.settings, settings());
    assert_eq!(data.temp_amount_to_search, DEFAULT_AMOUNT_TO_SEARCH);
    assert_eq!(data.temp_timezone, DEFAULT_TIMEZONE);
}

#[test]
fn trim_edits_strips_unicode_whitespace() {
    let mut data = session(&[(1, false)]);
    data.temp_token = "\u{3000}\u{a0}tok en\u{2029}\n".to_string();
    data.temp_amount_to_search = "\u{85}300 ".to_string();
    data.temp_timezone = "   ".to_string();
    data.trim_edits();
    assert_eq!(data.temp_token, "tok en");
    assert_eq!(data.temp_amount_to_search, "300");
    assert_eq!(data.temp_timezone, "");
}

#[test]
fn jump_is_bounded_by_queue_length() {
    let mut data = session(&[(1, false), (2, false), (3, false)]);
    assert_eq!(data.total_artists, 0);
    data.jump_index = "3".to_string();
    assert!(data.jump_index_is_valid());
    data.jump_index = "4".to_string();
    assert!(!data.jump_index_is_valid());
    let step = data.change_artist(0, false);
    complete(&mut data, step);
    reset_artist_list(&mut data, &vec![5]).unwrap();
    data.jump_index = "2".to_string();
    assert!(!data.jump_index_is_valid());
    assert_eq!(data.get_jump_index(), None);
}

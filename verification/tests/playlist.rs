use subd_core::playlist::{PlaylistError, PlaylistState, Song};

fn song(id: &str, title: &str, user: &str) -> Song {
    Song {
        song_id: id.to_string(),
        title: title.to_string(),
        tags: "tags".to_string(),
        prompt: "prompt".to_string(),
        username: user.to_string(),
        audio_url: format!("https://cdn1.suno.ai/{id}.mp3"),
        lyric: Some("Lyrics Hooray!".to_string()),
        gpt_description_prompt: "gpt_description_prompt".to_string(),
        created_at: 100,
        last_updated: 100,
        downloaded: false,
    }
}

#[test]
fn new_playlist_is_empty() {
    let p = PlaylistState::new();
    assert_eq!(p.song_count(), 0);
    assert_eq!(p.row_count(), 0);
    assert_eq!(p.current_id(), None);
    assert_eq!(p.get_current().err(), Some(PlaylistError::NotFound));
    assert_eq!(p.find_random(3).err(), Some(PlaylistError::NotFound));
    assert_eq!(p.find_last_played(), Err(PlaylistError::NotFound));
    assert_eq!(p.find_song("x").err(), Some(PlaylistError::NotFound));
}

#[test]
fn enqueue_is_idempotent() {
    let mut p = PlaylistState::new();
    p.enqueue("abc-123");
    assert_eq!(p.row_count(), 1);
    assert!(p.has_row("abc-123"));
    p.enqueue("abc-123");
    assert_eq!(p.row_count(), 1);
    p.enqueue("def");
    assert_eq!(p.row_count(), 2);
    assert!(!p.has_row("abc"));
    assert_eq!(p.current_id(), None);
}

#[test]
fn mark_played_moves_the_current_pointer() {
    let mut p = PlaylistState::new();
    p.upsert_song(song("a", "Song A", "ann"));
    p.upsert_song(song("b", "Song B", "bob"));
    p.enqueue("a");
    p.enqueue("b");
    assert_eq!(p.mark_played("a", 10), Ok(()));
    assert_eq!(p.current_id(), Some("a".to_string()));
    assert_eq!(p.get_current().unwrap().title, "Song A");
    assert_eq!(p.mark_played("b", 20), Ok(()));
    assert_eq!(p.current_id(), Some("b".to_string()));
    assert_eq!(p.get_current().unwrap().username, "bob");
    assert_eq!(p.find_last_played(), Ok("b".to_string()));
    assert_eq!(p.mark_played("a", 30), Ok(()));
    assert_eq!(p.current_id(), Some("a".to_string()));
    assert_eq!(p.find_last_played(), Ok("a".to_string()));
    assert_eq!(p.row_count(), 2);
}

#[test]
fn mark_played_of_unknown_row_changes_nothing() {
    let mut p = PlaylistState::new();
    p.enqueue("a");
    assert_eq!(p.mark_played("a", 5), Ok(()));
    assert_eq!(p.mark_played("zzz", 6), Err(PlaylistError::NotFound));
    assert_eq!(p.current_id(), Some("a".to_string()));
    assert_eq!(p.find_last_played(), Ok("a".to_string()));
}

#[test]
fn mark_played_twice_is_the_same() {
    let mut p = PlaylistState::new();
    p.enqueue("a");
    p.enqueue("b");
    assert_eq!(p.mark_played("b", 7), Ok(()));
    assert_eq!(p.mark_played("b", 7), Ok(()));
    assert_eq!(p.current_id(), Some("b".to_string()));
    assert_eq!(p.row_count(), 2);
}

#[test]
fn mark_all_stopped_twice_is_a_no_op() {
    let mut p = PlaylistState::new();
    p.upsert_song(song("a", "Song A", "ann"));
    p.enqueue("a");
    p.enqueue("b");
    assert_eq!(p.mark_played("a", 10), Ok(()));
    p.mark_all_stopped();
    assert_eq!(p.current_id(), None);
    assert_eq!(p.get_current().err(), Some(PlaylistError::NotFound));
    assert_eq!(p.row_count(), 2);
    assert_eq!(p.find_last_played(), Ok("a".to_string()));
    p.mark_all_stopped();
    assert_eq!(p.current_id(), None);
    assert_eq!(p.row_count(), 2);
    assert_eq!(p.song_count(), 1);
    assert_eq!(p.find_last_played(), Ok("a".to_string()));
}

#[test]
fn current_song_needs_a_known_song() {
    let mut p = PlaylistState::new();
    p.enqueue("ghost");
    assert_eq!(p.mark_played("ghost", 1), Ok(()));
    assert_eq!(p.current_id(), Some("ghost".to_string()));
    assert_eq!(p.get_current().err(), Some(PlaylistError::NotFound));
}

#[test]
fn last_played_prefers_the_latest_then_the_first() {
    let mut p = PlaylistState::new();
    p.enqueue("a");
    p.enqueue("b");
    p.enqueue("c");
    assert_eq!(p.find_last_played(), Err(PlaylistError::NotFound));
    assert_eq!(p.mark_played("b", 50), Ok(()));
    assert_eq!(p.mark_played("c", 50), Ok(()));
    assert_eq!(p.find_last_played(), Ok("b".to_string()));
    assert_eq!(p.mark_played("a", 49), Ok(()));
    assert_eq!(p.find_last_played(), Ok("b".to_string()));
    assert_eq!(p.mark_played("c", 51), Ok(()));
    assert_eq!(p.find_last_played(), Ok("c".to_string()));
    assert_eq!(p.mark_played("a", -5), Ok(()));
    assert_eq!(p.find_last_played(), Ok("c".to_string()));
}

#[test]
fn find_random_takes_the_pick_modulo_the_count() {
    let mut p = PlaylistState::new();
    p.upsert_song(song("a", "A", "u"));
    p.upsert_song(song("b", "B", "u"));
    p.upsert_song(song("c", "C", "u"));
    assert_eq!(p.find_random(0).unwrap().song_id, "a");
    assert_eq!(p.find_random(1).unwrap().song_id, "b");
    assert_eq!(p.find_random(2).unwrap().song_id, "c");
    assert_eq!(p.find_random(3).unwrap().song_id, "a");
    assert_eq!(p.find_random(100).unwrap().song_id, "b");
    assert_eq!(p.find_random(u64::MAX).unwrap().song_id, "a");
}

#[test]
fn upsert_keeps_songs_unique() {
    let mut p = PlaylistState::new();
    p.upsert_song(song("a", "First", "ann"));
    assert_eq!(p.song_count(), 1);
    assert_eq!(p.mark_downloaded("a", 150), Ok(()));
    let mut again = song("a", "Second", "bob");
    again.created_at = 200;
    again.last_updated = 200;
    p.upsert_song(again);
    assert_eq!(p.song_count(), 1);
    let s = p.find_song("a").unwrap();
    assert_eq!(s.title, "Second");
    assert_eq!(s.username, "bob");
    assert_eq!(s.created_at, 100);
    assert_eq!(s.last_updated, 200);
    assert!(s.downloaded);
    p.upsert_song(song("b", "Other", "cy"));
    assert_eq!(p.song_count(), 2);
    assert!(!p.find_song("b").unwrap().downloaded);
}

#[test]
fn mark_downloaded_flips_the_flag() {
    let mut p = PlaylistState::new();
    p.upsert_song(song("a", "A", "u"));
    p.upsert_song(song("b", "B", "u"));
    assert_eq!(p.mark_downloaded("nope", 1), Err(PlaylistError::NotFound));
    assert!(!p.find_song("a").unwrap().downloaded);
    assert_eq!(p.mark_downloaded("a", 321), Ok(()));
    let a = p.find_song("a").unwrap();
    assert!(a.downloaded);
    assert_eq!(a.last_updated, 321);
    assert_eq!(a.created_at, 100);
    assert_eq!(a.title, "A");
    assert!(!p.find_song("b").unwrap().downloaded);
}

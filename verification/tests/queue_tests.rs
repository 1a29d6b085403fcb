//! Tests for the play queue's cursor and selection bookkeeping.

use subsonic_tui::models::Song;
use subsonic_tui::queue::QueueState;

fn song(id: &str) -> Song {
    Song::with_title(id.to_string(), format!("Title {id}"))
}

fn queue_of(n: usize) -> QueueState {
    let mut q = QueueState::new();
    for i in 0..n {
        q.add(song(&i.to_string()));
    }
    q
}

#[test]
fn new_queue_is_empty_and_visible() {
    let q = QueueState::new();
    assert!(q.is_empty());
    assert_eq!(q.len(), 0);
    assert!(q.visible);
    assert_eq!(q.current_index, None);
    assert_eq!(q.selected(), None);
}

#[test]
fn add_and_current_song() {
    let mut q = queue_of(3);
    assert_eq!(q.len(), 3);
    assert!(q.current_song().is_none());
    let played = q.play_index(1).unwrap();
    assert_eq!(played.id, "1");
    assert_eq!(q.current_song().unwrap().id, "1");
}

#[test]
fn remove_before_cursor_shifts_it_down() {
    let mut q = queue_of(3);
    q.play_index(2);
    q.remove(0);
    assert_eq!(q.current_index, Some(1));
    assert_eq!(q.current_song().unwrap().id, "2");
}

#[test]
fn remove_at_cursor_clears_it() {
    let mut q = queue_of(3);
    q.play_index(1);
    q.remove(1);
    assert_eq!(q.current_index, None);
    assert!(q.current_song().is_none());
}

#[test]
fn remove_after_cursor_leaves_it() {
    let mut q = queue_of(3);
    q.play_index(0);
    q.remove(2);
    assert_eq!(q.current_index, Some(0));
}

#[test]
fn remove_out_of_range_is_ignored() {
    let mut q = queue_of(2);
    q.remove(5);
    assert_eq!(q.len(), 2);
}

#[test]
fn remove_clamps_selection_to_last() {
    let mut q = queue_of(3);
    q.jump_to_bottom();
    assert_eq!(q.selected(), Some(2));
    q.remove(2);
    assert_eq!(q.selected(), Some(1));
}

#[test]
fn remove_selected_reports_and_removes() {
    let mut q = queue_of(2);
    assert!(!q.remove_selected());
    q.jump_to_top();
    assert!(q.remove_selected());
    assert_eq!(q.len(), 1);
    assert_eq!(q.songs[0].id, "1");
}

#[test]
fn advance_walks_and_stops_at_end() {
    let mut q = queue_of(2);
    assert_eq!(q.advance().unwrap().id, "0");
    assert_eq!(q.advance().unwrap().id, "1");
    assert!(q.advance().is_none());
    assert_eq!(q.current_index, Some(1));
}

#[test]
fn go_back_walks_and_stops_at_front() {
    let mut q = queue_of(2);
    q.play_index(1);
    assert_eq!(q.go_back().unwrap().id, "0");
    assert!(q.go_back().is_none());
    assert_eq!(q.current_index, Some(0));
}

#[test]
fn clear_resets_everything() {
    let mut q = queue_of(3);
    q.play_index(1);
    q.jump_to_top();
    q.clear();
    assert!(q.is_empty());
    assert_eq!(q.current_index, None);
    assert_eq!(q.selected(), None);
}

#[test]
fn move_item_down_follows_cursor_rules() {
    let mut q = queue_of(4);
    q.play_index(2);
    // Move item 1 down by one: the cursor at 2 lies in the displaced range.
    q.move_queue_item(1, 1);
    let ids: Vec<&str> = q.songs.iter().map(|s| s.id.as_str()).collect();
    assert_eq!(ids, ["0", "2", "1", "3"]);
    assert_eq!(q.current_index, Some(1));
    assert_eq!(q.selected(), Some(2));
}

#[test]
fn move_item_up_follows_cursor_rules() {
    let mut q = queue_of(4);
    q.play_index(1);
    q.move_queue_item(2, -1);
    let ids: Vec<&str> = q.songs.iter().map(|s| s.id.as_str()).collect();
    assert_eq!(ids, ["0", "2", "1", "3"]);
    assert_eq!(q.current_index, Some(2));
    assert_eq!(q.selected(), Some(1));
}

#[test]
fn move_cursor_song_keeps_cursor_on_it() {
    let mut q = queue_of(3);
    q.play_index(0);
    q.move_queue_item(0, 2);
    let ids: Vec<&str> = q.songs.iter().map(|s| s.id.as_str()).collect();
    assert_eq!(ids, ["1", "2", "0"]);
    assert_eq!(q.current_index, Some(2));
}

#[test]
fn move_is_clamped_at_the_back() {
    let mut q = queue_of(3);
    q.move_queue_item(1, 10);
    let ids: Vec<&str> = q.songs.iter().map(|s| s.id.as_str()).collect();
    assert_eq!(ids, ["0", "2", "1"]);
}

#[test]
fn selection_wraps_both_ways() {
    let mut q = queue_of(3);
    q.select_next();
    assert_eq!(q.selected(), Some(0));
    q.select_previous();
    assert_eq!(q.selected(), Some(2));
    q.select_next();
    assert_eq!(q.selected(), Some(0));
}

#[test]
fn half_page_scrolling_saturates() {
    let mut q = queue_of(5);
    q.scroll_half_page_down(4);
    assert_eq!(q.selected(), Some(2));
    q.scroll_half_page_down(100);
    assert_eq!(q.selected(), Some(4));
    q.scroll_half_page_up(4);
    assert_eq!(q.selected(), Some(2));
    q.scroll_half_page_up(100);
    assert_eq!(q.selected(), Some(0));
}

#[test]
fn jump_to_current_selects_cursor() {
    let mut q = queue_of(3);
    q.play_index(2);
    q.jump_to_current();
    assert_eq!(q.selected(), Some(2));
}

#[test]
fn shuffle_keeps_songs_and_fronts_current() {
    let mut q = queue_of(6);
    q.play_index(3);
    q.shuffle();
    assert_eq!(q.len(), 6);
    assert_eq!(q.current_index, Some(0));
    assert_eq!(q.songs[0].id, "3");
    let mut ids: Vec<String> = q.songs.iter().map(|s| s.id.clone()).collect();
    ids.sort();
    assert_eq!(ids, ["0", "1", "2", "3", "4", "5"]);
}

#[test]
fn shuffle_without_cursor_keeps_songs() {
    let mut q = queue_of(4);
    q.shuffle();
    assert_eq!(q.current_index, None);
    let mut ids: Vec<String> = q.songs.iter().map(|s| s.id.clone()).collect();
    ids.sort();
    assert_eq!(ids, ["0", "1", "2", "3"]);
}

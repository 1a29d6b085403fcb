//! Tests for the repeat-mode cycle and tab navigation.

use subsonic_tui::action::{RepeatMode, Tab};

#[test]
fn repeat_mode_cycles() {
    assert_eq!(RepeatMode::Off.next(), RepeatMode::All);
    assert_eq!(RepeatMode::All.next(), RepeatMode::One);
    assert_eq!(RepeatMode::One.next(), RepeatMode::Off);
    assert_eq!(RepeatMode::default(), RepeatMode::Off);
}

#[test]
fn repeat_mode_symbols_differ() {
    assert_ne!(RepeatMode::All.symbol(), RepeatMode::One.symbol());
    assert_eq!(RepeatMode::Off.symbol(), "  ");
}

#[test]
fn tabs_are_ordered_and_titled() {
    let all = Tab::all();
    assert_eq!(all.len(), 6);
    for (i, tab) in all.iter().enumerate() {
        assert_eq!(tab.index(), i);
    }
    assert_eq!(Tab::Artists.title(), "Artists");
    assert_eq!(Tab::Favorites.title(), "Favorites");
    assert_eq!(Tab::default(), Tab::Artists);
}

#[test]
fn tab_navigation_wraps() {
    assert_eq!(Tab::Artists.next(), Tab::Albums);
    assert_eq!(Tab::Favorites.next(), Tab::Artists);
    assert_eq!(Tab::Artists.prev(), Tab::Favorites);
    assert_eq!(Tab::Genres.prev(), Tab::Playlists);
    for tab in Tab::all() {
        assert_eq!(tab.next().prev(), tab);
        assert_eq!(tab.prev().next(), tab);
    }
}

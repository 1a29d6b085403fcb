//! The play queue: an ordered list of songs with a "currently playing"
//! cursor and a UI selection, both kept valid by every editing operation.

use vstd::prelude::*;

use crate::models::Song;
use crate::rng::shuffle_songs;

verus! {

/// Mathematical view of the queue.
pub ghost struct QueueView {
    pub songs: Seq<Song>,
    pub current_index: Option<int>,
    pub selected: Option<int>,
    pub visible: bool,
}

impl QueueView {
    /// The cursor and the selection, when present, index into the songs.
    pub open spec fn wf(self) -> bool {
        &&& (self.current_index is Some ==> 0 <= self.current_index->0
            < self.songs.len())
        &&& (self.selected is Some ==> 0 <= self.selected->0 < self.songs.len())
    }
}

/// A queue-editing operation, for stating laws over operation sequences.
pub ghost enum QueueOp {
    Add(Song),
    Remove(int),
    MoveItem(int, int),
    Clear,
}

/// Appending a song changes nothing else.
pub open spec fn add_step(q: QueueView, song: Song) -> QueueView {
    QueueView { songs: q.songs.push(song), ..q }
}

/// Removing the song at `index`: an out-of-range index is ignored; the
/// cursor shifts down past a removal before it and clears when its own song
/// is removed; the selection is clamped to the shrunken list.
pub open spec fn remove_step(q: QueueView, index: int) -> QueueView {
    if !(0 <= index < q.songs.len()) {
        q
    } else {
        let songs = q.songs.remove(index);
        let current_index = match q.current_index {
            Some(c) => if index < c {
                Some(c - 1)
            } else if index == c {
                None
            } else {
                Some(c)
            },
            None => None,
        };
        let selected = if songs.len() == 0 {
            None
        } else {
            match q.selected {
                Some(s) => if s < songs.len() {
                    Some(s)
                } else {
                    Some(songs.len() - 1)
                },
                None => None,
            }
        };
        QueueView { songs, current_index, selected, ..q }
    }
}

/// Where an item at `index` lands when moved by `direction`: clamped to the
/// front for upward moves and to the back for downward moves.
pub open spec fn moved_index(q: QueueView, index: int, direction: int) -> int {
    if direction < 0 {
        if index + direction >= 0 {
            index + direction
        } else {
            0
        }
    } else {
        let cap = if q.songs.len() >= 1 {
            q.songs.len() - 1
        } else {
            0
        };
        if index + direction <= cap {
            index + direction
        } else {
            cap
        }
    }
}

/// Moving the song at `index` by `direction`: the song is re-inserted at the
/// clamped target, the cursor follows its own song or shifts by one when it
/// lies strictly inside the displaced range, and the selection follows the
/// moved song.
pub open spec fn move_step(q: QueueView, index: int, direction: int) -> QueueView {
    let new_index = moved_index(q, index, direction);
    if new_index == index || !(0 <= index < q.songs.len()) {
        q
    } else {
        let songs = q.songs.remove(index).insert(new_index, q.songs[index]);
        let current_index = match q.current_index {
            Some(c) => if c == index {
                Some(new_index)
            } else if direction < 0 && new_index <= c && c < index {
                Some(c + 1)
            } else if direction > 0 && index < c && c <= new_index {
                Some(c - 1)
            } else {
                Some(c)
            },
            None => None,
        };
        QueueView { songs, current_index, selected: Some(new_index), ..q }
    }
}

/// Clearing empties the list and both positions.
pub open spec fn clear_step(q: QueueView) -> QueueView {
    QueueView { songs: Seq::empty(), current_index: None, selected: None, ..q }
}

/// One editing operation applied to the queue.
pub open spec fn queue_step(q: QueueView, op: QueueOp) -> QueueView {
    match op {
        QueueOp::Add(song) => add_step(q, song),
        QueueOp::Remove(index) => remove_step(q, index),
        QueueOp::MoveItem(index, direction) => move_step(q, index, direction),
        QueueOp::Clear => clear_step(q),
    }
}

/// A sequence of editing operations applied in order.
pub open spec fn queue_run(q: QueueView, ops: Seq<QueueOp>) -> QueueView
    decreases ops.len(),
{
    if ops.len() == 0 {
        q
    } else {
        queue_run(queue_step(q, ops[0]), ops.subrange(1, ops.len() as int))
    }
}

/// Each single editing operation preserves the cursor and selection
/// invariants.
pub proof fn lemma_queue_step_preserves_wf(q: QueueView, op: QueueOp)
    requires
        q.wf(),
    ensures
        queue_step(q, op).wf(),
{
}

/// Law: the cursor is always absent or a valid index, and likewise the
/// selection, after any sequence of add, remove, move and clear operations.
pub proof fn lemma_queue_ops_preserve_wf(q: QueueView, ops: Seq<QueueOp>)
    requires
        q.wf(),
    ensures
        queue_run(q, ops).wf(),
    decreases ops.len(),
{
    if ops.len() > 0 {
        lemma_queue_step_preserves_wf(q, ops[0]);
        lemma_queue_ops_preserve_wf(queue_step(q, ops[0]), ops.subrange(1, ops.len() as int));
    }
}

/// The index the queue would advance to on a track change: one past the
/// cursor while that exists, the front when no cursor is set and the queue
/// is non-empty, and nothing otherwise.
pub open spec fn next_index(q: QueueView) -> Option<int> {
    match q.current_index {
        Some(i) => if i + 1 < q.songs.len() {
            Some(i + 1)
        } else {
            None
        },
        None => if q.songs.len() > 0 {
            Some(0int)
        } else {
            None
        },
    }
}

/// The index the queue would step back to: one before the cursor, if any.
pub open spec fn previous_index(q: QueueView) -> Option<int> {
    match q.current_index {
        Some(i) => if i > 0 {
            Some(i - 1)
        } else {
            None
        },
        None => None,
    }
}

/// Queue state: songs, playing cursor, UI selection, panel visibility.
#[derive(Debug)]
pub struct QueueState {
    /// Songs in the queue.
    pub songs: Vec<Song>,
    /// Currently playing index.
    pub current_index: Option<usize>,
    /// Index selected in the UI list.
    pub selected_index: Option<usize>,
    /// Whether the queue panel is visible.
    pub visible: bool,
}

impl View for QueueState {
    type V = QueueView;

    open spec fn view(&self) -> QueueView {
        QueueView {
            songs: self.songs@,
            current_index: match self.current_index {
                Some(i) => Some(i as int),
                None => None,
            },
            selected: match self.selected_index {
                Some(i) => Some(i as int),
                None => None,
            },
            visible: self.visible,
        }
    }
}

impl QueueState {
    /// An empty, visible queue.
    pub fn new() -> (q: QueueState)
        ensures
            q@.songs.len() == 0,
            q@.current_index is None,
            q@.selected is None,
            q@.visible,
            q@.wf(),
    {
        QueueState { songs: Vec::new(), current_index: None, selected_index: None, visible: true }
    }

    /// Add a song to the end of the queue.
    pub fn add(&mut self, song: Song)
        ensures
            final(self)@ == add_step(old(self)@, song),
            old(self)@.wf() ==> final(self)@.wf(),
    {
        self.songs.push(song);
    }

    /// Add multiple songs to the end of the queue.
    pub fn add_all(&mut self, songs: Vec<Song>)
        ensures
            final(self)@ == (QueueView { songs: old(self)@.songs + songs@, ..old(self)@ }),
            old(self)@.wf() ==> final(self)@.wf(),
    {
        let mut rest = songs;
        self.songs.append(&mut rest);
    }

    /// Clear the queue.
    pub fn clear(&mut self)
        ensures
            final(self)@ == clear_step(old(self)@),
            final(self)@.wf(),
    {
        self.songs.clear();
        self.current_index = None;
        self.selected_index = None;
        proof {
            assert(final(self)@.songs =~= Seq::<Song>::empty());
        }
    }

    /// Remove the song at `index`, shifting the cursor and clamping the
    /// selection as needed. Removing the cursor's own song clears the cursor.
    pub fn remove(&mut self, index: usize)
        ensures
            final(self)@ == remove_step(old(self)@, index as int),
            old(self)@.wf() ==> final(self)@.wf(),
    {
        if index < self.songs.len() {
            self.songs.remove(index);

            if let Some(current) = self.current_index {
                if index < current {
                    self.current_index = Some(current - 1);
                } else if index == current {
                    self.current_index = None;
                }
            }

            if self.songs.len() == 0 {
                self.selected_index = None;
            } else if let Some(selected) = self.selected_index {
                if selected >= self.songs.len() {
                    self.selected_index = Some(self.songs.len() - 1);
                }
            }
        }
        proof {
            if old(self)@.wf() {
                lemma_queue_step_preserves_wf(old(self)@, QueueOp::Remove(index as int));
            }
        }
    }

    /// Remove the currently selected song; reports whether one was removed.
    pub fn remove_selected(&mut self) -> (removed: bool)
        ensures
            old(self)@.selected is Some ==> removed && final(self)@ == remove_step(
                old(self)@,
                old(self)@.selected->0,
            ),
            old(self)@.selected is None ==> !removed && *final(self) == *old(self),
            old(self)@.wf() ==> final(self)@.wf(),
    {
        if let Some(index) = self.selected_index {
            self.remove(index);
            true
        } else {
            false
        }
    }

    /// The song under the cursor, if the cursor points at one.
    pub fn current_song(&self) -> (r: Option<&Song>)
        ensures
            (self@.current_index is Some && self@.current_index->0 < self@.songs.len()) ==> (
            r is Some && *r->0 == self@.songs[self@.current_index->0]),
            (self@.current_index is None || self@.current_index->0 >= self@.songs.len()) ==> r
                is None,
    {
        match self.current_index {
            Some(i) => if i < self.songs.len() {
                Some(&self.songs[i])
            } else {
                None
            },
            None => None,
        }
    }

    /// The next song and its index, without moving the cursor.
    pub fn next_song(&self) -> (r: Option<(usize, Song)>)
        ensures
            match next_index(self@) {
                Some(i) => r == Some((i as usize, self@.songs[i])),
                None => r is None,
            },
    {
        match self.current_index {
            Some(i) => if self.songs.len() > 0 && i < self.songs.len() - 1 {
                Some((i + 1, self.songs[i + 1].clone()))
            } else {
                None
            },
            None => if self.songs.len() > 0 {
                Some((0, self.songs[0].clone()))
            } else {
                None
            },
        }
    }

    /// The previous song and its index, without moving the cursor.
    pub fn previous_song(&self) -> (r: Option<(usize, Song)>)
        requires
            self@.wf(),
        ensures
            match previous_index(self@) {
                Some(i) => r == Some((i as usize, self@.songs[i])),
                None => r is None,
            },
    {
        match self.current_index {
            Some(i) => if i > 0 {
                Some((i - 1, self.songs[i - 1].clone()))
            } else {
                None
            },
            None => None,
        }
    }

    /// Move the cursor to the next song and return it.
    pub fn advance(&mut self) -> (r: Option<Song>)
        ensures
            final(self)@.songs == old(self)@.songs,
            final(self)@.selected == old(self)@.selected,
            final(self)@.visible == old(self)@.visible,
            match next_index(old(self)@) {
                Some(i) => final(self)@.current_index == Some(i) && r == Some(
                    old(self)@.songs[i],
                ),
                None => final(self)@.current_index == old(self)@.current_index && r is None,
            },
            old(self)@.wf() ==> final(self)@.wf(),
    {
        proof {
            broadcast use vstd::std_specs::vec::axiom_spec_len;

            assert(vstd::std_specs::vec::spec_vec_len(&self.songs) == self.songs@.len());
        }
        if let Some((i, song)) = self.next_song() {
            self.current_index = Some(i);
            Some(song)
        } else {
            None
        }
    }

    /// Move the cursor to the previous song and return it.
    pub fn go_back(&mut self) -> (r: Option<Song>)
        requires
            old(self)@.wf(),
        ensures
            final(self)@.songs == old(self)@.songs,
            final(self)@.selected == old(self)@.selected,
            final(self)@.visible == old(self)@.visible,
            match previous_index(old(self)@) {
                Some(i) => final(self)@.current_index == Some(i) && r == Some(
                    old(self)@.songs[i],
                ),
                None => final(self)@.current_index == old(self)@.current_index && r is None,
            },
            final(self)@.wf(),
    {
        if let Some((i, song)) = self.previous_song() {
            self.current_index = Some(i);
            Some(song)
        } else {
            None
        }
    }

    /// Point the cursor at `index` and return that song.
    pub fn play_index(&mut self, index: usize) -> (r: Option<Song>)
        ensures
            final(self)@.songs == old(self)@.songs,
            final(self)@.selected == old(self)@.selected,
            final(self)@.visible == old(self)@.visible,
            index < old(self)@.songs.len() ==> final(self)@.current_index == Some(index as int)
                && r == Some(old(self)@.songs[index as int]),
            index >= old(self)@.songs.len() ==> final(self)@.current_index == old(
                self,
            )@.current_index && r is None,
            old(self)@.wf() ==> final(self)@.wf(),
    {
        if index < self.songs.len() {
            self.current_index = Some(index);
            Some(self.songs[index].clone())
        } else {
            None
        }
    }

    /// Shuffle the queue. The playing song, if any, is kept and moved to the
    /// front; the rest are permuted. The songs as a whole are a permutation
    /// of what was queued before.
    pub fn shuffle(&mut self)
        requires
            old(self)@.wf(),
        ensures
            final(self)@.songs.to_multiset() == old(self)@.songs.to_multiset(),
            final(self)@.songs.len() == old(self)@.songs.len(),
            final(self)@.selected == old(self)@.selected,
            final(self)@.visible == old(self)@.visible,
            old(self)@.songs.len() <= 1 ==> *final(self) == *old(self),
            old(self)@.songs.len() > 1 && old(self)@.current_index is Some ==> {
                &&& final(self)@.current_index == Some(0int)
                &&& final(self)@.songs[0] == old(self)@.songs[old(self)@.current_index->0]
            },
            old(self)@.current_index is None ==> final(self)@.current_index == old(
                self,
            )@.current_index,
            final(self)@.wf(),
    {
        if self.songs.len() <= 1 {
            return ;
        }
        if let Some(current_idx) = self.current_index {
            let current = self.songs.remove(current_idx);
            shuffle_songs(&mut self.songs);
            let ghost shuffled = self.songs@;
            self.songs.insert(0, current);
            self.current_index = Some(0);
            proof {
                broadcast use vstd::seq_lib::group_to_multiset_ensures;
                broadcast use vstd::multiset::group_multiset_axioms;

                let pre = old(self)@.songs;
                let c = old(self)@.current_index->0;
                assert(pre.contains(pre[c]));
                assert(self.songs@ == shuffled.insert(0, pre[c]));
                assert(self.songs@.to_multiset() =~= pre.to_multiset());
            }
        } else {
            shuffle_songs(&mut self.songs);
        }
    }

    /// Number of songs in the queue.
    pub fn len(&self) -> (n: usize)
        ensures
            n == self@.songs.len(),
    {
        self.songs.len()
    }

    /// Whether the queue is empty.
    pub fn is_empty(&self) -> (r: bool)
        ensures
            r == (self@.songs.len() == 0),
    {
        self.songs.len() == 0
    }

    /// Move the selection up, wrapping to the bottom.
    pub fn select_previous(&mut self)
        requires
            old(self)@.wf(),
        ensures
            final(self)@.songs == old(self)@.songs,
            final(self)@.current_index == old(self)@.current_index,
            final(self)@.visible == old(self)@.visible,
            old(self)@.songs.len() == 0 ==> final(self)@.selected == old(self)@.selected,
            old(self)@.songs.len() > 0 ==> final(self)@.selected == match old(self)@.selected {
                Some(i) => if i == 0 {
                    Some(old(self)@.songs.len() - 1)
                } else {
                    Some(i - 1)
                },
                None => Some(0int),
            },
            final(self)@.wf(),
    {
        if self.songs.len() == 0 {
            return ;
        }
        let i = match self.selected_index {
            Some(i) => if i == 0 {
                self.songs.len() - 1
            } else {
                i - 1
            },
            None => 0,
        };
        self.selected_index = Some(i);
    }

    /// Move the selection down, wrapping to the top.
    pub fn select_next(&mut self)
        requires
            old(self)@.wf(),
        ensures
            final(self)@.songs == old(self)@.songs,
            final(self)@.current_index == old(self)@.current_index,
            final(self)@.visible == old(self)@.visible,
            old(self)@.songs.len() == 0 ==> final(self)@.selected == old(self)@.selected,
            old(self)@.songs.len() > 0 ==> final(self)@.selected == match old(self)@.selected {
                Some(i) => if i >= old(self)@.songs.len() - 1 {
                    Some(0int)
                } else {
                    Some(i + 1)
                },
                None => Some(0int),
            },
            final(self)@.wf(),
    {
        if self.songs.len() == 0 {
            return ;
        }
        let i = match self.selected_index {
            Some(i) => if i >= self.songs.len() - 1 {
                0
            } else {
                i + 1
            },
            None => 0,
        };
        self.selected_index = Some(i);
    }

    /// The selected index.
    pub fn selected(&self) -> (r: Option<usize>)
        ensures
            r == self.selected_index,
    {
        self.selected_index
    }

    /// The selected song.
    pub fn selected_song(&self) -> (r: Option<&Song>)
        ensures
            (self@.selected is Some && self@.selected->0 < self@.songs.len()) ==> (r is Some
                && *r->0 == self@.songs[self@.selected->0]),
            (self@.selected is None || self@.selected->0 >= self@.songs.len()) ==> r is None,
    {
        match self.selected_index {
            Some(i) => if i < self.songs.len() {
                Some(&self.songs[i])
            } else {
                None
            },
            None => None,
        }
    }

    /// Select the first song, when there is one.
    pub fn jump_to_top(&mut self)
        requires
            old(self)@.wf(),
        ensures
            final(self)@.songs == old(self)@.songs,
            final(self)@.current_index == old(self)@.current_index,
            final(self)@.visible == old(self)@.visible,
            old(self)@.songs.len() > 0 ==> final(self)@.selected == Some(0int),
            old(self)@.songs.len() == 0 ==> final(self)@.selected == old(self)@.selected,
            final(self)@.wf(),
    {
        if self.songs.len() > 0 {
            self.selected_index = Some(0);
        }
    }

    /// Select the last song, when there is one.
    pub fn jump_to_bottom(&mut self)
        requires
            old(self)@.wf(),
        ensures
            final(self)@.songs == old(self)@.songs,
            final(self)@.current_index == old(self)@.current_index,
            final(self)@.visible == old(self)@.visible,
            old(self)@.songs.len() > 0 ==> final(self)@.selected == Some(
                old(self)@.songs.len() - 1,
            ),
            old(self)@.songs.len() == 0 ==> final(self)@.selected == old(self)@.selected,
            final(self)@.wf(),
    {
        if self.songs.len() > 0 {
            self.selected_index = Some(self.songs.len() - 1);
        }
    }

    /// Select the currently playing song, when the cursor is set.
    pub fn jump_to_current(&mut self)
        requires
            old(self)@.wf(),
        ensures
            final(self)@.songs == old(self)@.songs,
            final(self)@.current_index == old(self)@.current_index,
            final(self)@.visible == old(self)@.visible,
            old(self)@.current_index is Some ==> final(self)@.selected == old(
                self,
            )@.current_index,
            old(self)@.current_index is None ==> final(self)@.selected == old(self)@.selected,
            final(self)@.wf(),
    {
        if let Some(idx) = self.current_index {
            self.selected_index = Some(idx);
        }
    }

    /// Move the selection half a page down, stopping at the last song.
    pub fn scroll_half_page_down(&mut self, page_size: usize)
        requires
            old(self)@.wf(),
        ensures
            final(self)@.songs == old(self)@.songs,
            final(self)@.current_index == old(self)@.current_index,
            final(self)@.visible == old(self)@.visible,
            old(self)@.songs.len() == 0 ==> final(self)@.selected == old(self)@.selected,
            old(self)@.songs.len() > 0 ==> {
                let start = match old(self)@.selected {
                    Some(i) => i,
                    None => 0int,
                };
                let target = start + page_size as int / 2;
                let cap = old(self)@.songs.len() - 1;
                final(self)@.selected == Some(
                    if target <= cap {
                        target
                    } else {
                        cap
                    },
                )
            },
            final(self)@.wf(),
    {
        if self.songs.len() == 0 {
            return ;
        }
        let half_page = page_size / 2;
        let current = match self.selected_index {
            Some(i) => i,
            None => 0,
        };
        let cap = self.songs.len() - 1;
        let new_index = if cap - current < half_page {
            cap
        } else {
            current + half_page
        };
        self.selected_index = Some(new_index);
    }

    /// Move the selection half a page up, stopping at the first song.
    pub fn scroll_half_page_up(&mut self, page_size: usize)
        requires
            old(self)@.wf(),
        ensures
            final(self)@.songs == old(self)@.songs,
            final(self)@.current_index == old(self)@.current_index,
            final(self)@.visible == old(self)@.visible,
            old(self)@.songs.len() == 0 ==> final(self)@.selected == old(self)@.selected,
            old(self)@.songs.len() > 0 ==> {
                let start = match old(self)@.selected {
                    Some(i) => i,
                    None => 0int,
                };
                let target = start - page_size as int / 2;
                final(self)@.selected == Some(
                    if target >= 0 {
                        target
                    } else {
                        0int
                    },
                )
            },
            final(self)@.wf(),
    {
        if self.songs.len() == 0 {
            return ;
        }
        let half_page = page_size / 2;
        let current = match self.selected_index {
            Some(i) => i,
            None => 0,
        };
        let new_index = if current >= half_page {
            current - half_page
        } else {
            0
        };
        self.selected_index = Some(new_index);
    }

    /// Move the song at `index` by `direction` places (negative is towards
    /// the front). The cursor tracks its own song when that is the one
    /// moved, and shifts by one when it lies in the displaced range.
    pub fn move_queue_item(&mut self, index: usize, direction: isize)
        requires
            direction > isize::MIN,
        ensures
            final(self)@ == move_step(old(self)@, index as int, direction as int),
            old(self)@.wf() ==> final(self)@.wf(),
    {
        let len = self.songs.len();
        let new_index: usize = if direction < 0 {
            let step = (-direction) as usize;
            if index >= step {
                index - step
            } else {
                0
            }
        } else {
            let cap = if len >= 1 {
                len - 1
            } else {
                0
            };
            let step = direction as usize;
            if index <= cap && cap - index >= step {
                index + step
            } else {
                cap
            }
        };

        if new_index != index && index < len {
            let song = self.songs.remove(index);
            self.songs.insert(new_index, song);

            if let Some(current) = self.current_index {
                if current == index {
                    self.current_index = Some(new_index);
                } else if direction < 0 && current >= new_index && current < index {
                    self.current_index = Some(current + 1);
                } else if direction > 0 && current > index && current <= new_index {
                    self.current_index = Some(current - 1);
                }
            }

            self.selected_index = Some(new_index);
        }
        proof {
            if old(self)@.wf() {
                lemma_queue_step_preserves_wf(
                    old(self)@,
                    QueueOp::MoveItem(index as int, direction as int),
                );
            }
            assert(new_index as int == moved_index(old(self)@, index as int, direction as int));
        }
    }
}

} // verus!

use vstd::prelude::*;
use vstd::hash_map::StringHashMap;

verus! {

/// How many dictionary words make up a room name.
pub const ROOM_WORDS: usize = 5;

/// A character that can appear inside a dictionary word.
pub open spec fn is_word_char(c: char) -> bool {
    ('a' <= c && c <= 'z') || c == '-'
}

/// `s` is `words` non-empty dictionary words joined by single spaces.
pub open spec fn is_phrase(s: Seq<char>, words: nat) -> bool {
    &&& forall|i: int| 0 <= i < s.len() ==> is_word_char(#[trigger] s[i]) || s[i] == ' '
    &&& words == 0 ==> s.len() == 0
    &&& words > 0 ==> {
        &&& s.len() > 0
        &&& s[0] != ' '
        &&& s[s.len() - 1] != ' '
        &&& s.filter(|c: char| c == ' ').len() + 1 == words
    }
    &&& forall|i: int| 0 <= i < s.len() - 1 ==> !(#[trigger] s[i] == ' ' && s[i + 1] == ' ')
}

/// Draws a room name: calls `parity_wordlist::random_phrase(words)`.
///
/// The words are drawn from the operating system's random source out of a
/// fixed dictionary of lowercase words (some with a hyphen), so all that is
/// claimed is the shape of every outcome: `words` such words joined by
/// single spaces. Which words come out is not stated, nor that the call
/// panics when the operating system's random source fails.
#[verifier::external_body]
fn random_phrase(words: usize) -> (phrase: String)
    ensures
        is_phrase(phrase@, words as nat),
{
    parity_wordlist::random_phrase(words)
}

/// What a room holds, as plain values: a file's name and bytes, or nothing
/// once the file has been fetched.
pub open spec fn stored_view(entry: Option<(String, Vec<u8>)>) -> Option<(Seq<char>, Seq<u8>)> {
    match entry {
        Some((name, file)) => Some((name@, file@)),
        None => None,
    }
}

/// What fetching from `room` hands out: the file the room holds, if any.
pub open spec fn fetched(rooms: Map<Seq<char>, Option<(Seq<char>, Seq<u8>)>>, room: Seq<char>) -> Option<(Seq<char>, Seq<u8>)> {
    if rooms.contains_key(room) {
        rooms[room]
    } else {
        None
    }
}

/// The rooms after fetching from `room`: a room that held a file is kept
/// but emptied; everything else is as it was.
pub open spec fn after_fetch(rooms: Map<Seq<char>, Option<(Seq<char>, Seq<u8>)>>, room: Seq<char>) -> Map<Seq<char>, Option<(Seq<char>, Seq<u8>)>> {
    if rooms.contains_key(room) && rooms[room] is Some {
        rooms.insert(room, None)
    } else {
        rooms
    }
}

/// The file-drop service: each room, named by a random phrase, holds one
/// file until someone fetches it.
pub struct CrocCluster {
    rooms: StringHashMap<Option<(String, Vec<u8>)>>,
}

impl CrocCluster {
    /// There are finitely many rooms.
    #[verifier::type_invariant]
    spec fn finitely_many_rooms(self) -> bool {
        self.rooms@.dom().finite()
    }

    /// Sets what `room` holds, keeping the type invariant at every step.
    fn store(&mut self, room: String, entry: Option<(String, Vec<u8>)>)
        ensures
            final(self).rooms@ == old(self).rooms@.insert(room@, entry),
            final(self).rooms@.dom().finite(),
    {
        proof {
            use_type_invariant(&*self);
        }
        let mut rooms = StringHashMap::new();
        std::mem::swap(&mut rooms, &mut self.rooms);
        rooms.insert(room, entry);
        assert(rooms@.dom() =~= old(self).rooms@.dom().insert(room@));
        self.rooms = rooms;
    }
}

impl View for CrocCluster {
    type V = Map<Seq<char>, Option<(Seq<char>, Seq<u8>)>>;

    closed spec fn view(&self) -> Self::V {
        self.rooms@.map_values(|entry: Option<(String, Vec<u8>)>| stored_view(entry))
    }
}

impl Default for CrocCluster {
    /// A service with no rooms.
    fn default() -> (cluster: Self)
        ensures
            cluster@ == Map::<Seq<char>, Option<(Seq<char>, Seq<u8>)>>::empty(),
            cluster@.dom().finite(),
    {
        let rooms = StringHashMap::new();
        assert(rooms@.dom() =~= Set::<Seq<char>>::empty());
        let cluster = CrocCluster { rooms };
        assert(cluster@ =~= Map::<Seq<char>, Option<(Seq<char>, Seq<u8>)>>::empty());
        cluster
    }
}

impl CrocCluster {
    /// Puts a file into `room`; whatever the room held before is replaced.
    pub fn open_room(&mut self, room: String, name: String, file: Vec<u8>)
        ensures
            old(self)@.dom().finite(),
            final(self)@ == old(self)@.insert(room@, Some((name@, file@))),
            final(self)@.dom().finite(),
    {
        proof {
            use_type_invariant(&*self);
            assert(self@.dom() =~= self.rooms@.dom());
        }
        let ghost key = room@;
        let ghost entry = Some((name, file));
        self.store(room, Some((name, file)));
        assert(self@ =~= old(self)@.insert(key, stored_view(entry)));
        assert(self@.dom() =~= self.rooms@.dom());
    }

    /// Stores a file under a fresh random room name and returns that name.
    pub fn send_file(&mut self, name: String, file: Vec<u8>) -> (room: String)
        ensures
            is_phrase(room@, ROOM_WORDS as nat),
            old(self)@.dom().finite(),
            final(self)@ == old(self)@.insert(room@, Some((name@, file@))),
            final(self)@.dom().finite(),
    {
        let room = random_phrase(ROOM_WORDS);
        self.open_room(room.clone(), name, file);
        room
    }

    /// Hands out the file in `room`, if it holds one, and empties the room,
    /// so that each file is handed out once.
    pub fn get_file(&mut self, room: String) -> (file: Option<(String, Vec<u8>)>)
        ensures
            stored_view(file) == fetched(old(self)@, room@),
            old(self)@.dom().finite(),
            final(self)@ == after_fetch(old(self)@, room@),
            final(self)@.dom().finite(),
            file is Some <==> (old(self)@.contains_key(room@) && old(self)@[room@] is Some),
            file is Some ==> old(self)@[room@] == stored_view(file) && final(self)@ == old(self)@.insert(room@, None),
            file is None ==> final(self)@ == old(self)@,
    {
        proof {
            use_type_invariant(&*self);
            assert(self@.dom() =~= self.rooms@.dom());
        }
        let taken = match self.rooms.get(room.as_str()) {
            Some(Some(entry)) => Some((entry.0.clone(), entry.1.clone())),
            _ => None,
        };
        match taken {
            Some(pair) => {
                let ghost before = self.rooms@;
                self.store(room, None);
                assert(self@ =~= after_fetch(old(self)@, room@));
                assert(self@.dom() =~= self.rooms@.dom());
                assert(pair.1@ =~= before[room@].unwrap().1@);
                Some(pair)
            },
            None => None,
        }
    }
}

/// A file that was sent to a room is handed out by the next fetch from that
/// room, and the fetch after that finds nothing.
pub proof fn lemma_file_handed_out_once(
    rooms: Map<Seq<char>, Option<(Seq<char>, Seq<u8>)>>,
    room: Seq<char>,
    name: Seq<char>,
    file: Seq<u8>,
)
    ensures
        fetched(rooms.insert(room, Some((name, file))), room) == Some((name, file)),
        fetched(after_fetch(rooms.insert(room, Some((name, file))), room), room) is None,
{
}

/// A fetch that finds a file empties the room, and a fetch that finds none
/// changes nothing; so fetching again from the same room finds nothing and
/// changes nothing, until a new file is sent there. Stated over two fetches
/// in a row, each described by what `CrocCluster::get_file` ensures of the
/// rooms before (`m0`, `m1`), the file handed out (`f1`, `f2`) and the rooms
/// after (`m1`, `m2`).
pub proof fn lemma_fetch_again_finds_nothing(
    m0: Map<Seq<char>, Option<(Seq<char>, Seq<u8>)>>,
    m1: Map<Seq<char>, Option<(Seq<char>, Seq<u8>)>>,
    m2: Map<Seq<char>, Option<(Seq<char>, Seq<u8>)>>,
    room: Seq<char>,
    f1: Option<(Seq<char>, Seq<u8>)>,
    f2: Option<(Seq<char>, Seq<u8>)>,
)
    requires
        f1 is Some <==> (m0.contains_key(room) && m0[room] is Some),
        f1 is Some ==> m0[room] == f1 && m1 == m0.insert(room, None),
        f1 is None ==> m1 == m0,
        f2 is Some <==> (m1.contains_key(room) && m1[room] is Some),
        f2 is Some ==> m1[room] == f2 && m2 == m1.insert(room, None),
        f2 is None ==> m2 == m1,
    ensures
        f2 is None,
        m2 == m1,
        m1.contains_key(room) ==> m1[room] is None,
        m1.dom() == m0.dom(),
{
    if f1 is Some {
        assert(m1.dom() =~= m0.dom());
    }
}

/// Sending to one room and fetching from it leave every other room as it
/// was.
pub proof fn lemma_other_rooms_untouched(
    rooms: Map<Seq<char>, Option<(Seq<char>, Seq<u8>)>>,
    room: Seq<char>,
    other: Seq<char>,
    name: Seq<char>,
    file: Seq<u8>,
)
    requires
        room != other,
    ensures
        fetched(rooms.insert(room, Some((name, file))), other) == fetched(rooms, other),
        fetched(after_fetch(rooms, room), other) == fetched(rooms, other),
{
}

/// Sending adds a room exactly when the room name was new; otherwise the
/// number of rooms stays the same.
pub proof fn lemma_send_room_count(
    rooms: Map<Seq<char>, Option<(Seq<char>, Seq<u8>)>>,
    room: Seq<char>,
    name: Seq<char>,
    file: Seq<u8>,
)
    requires
        rooms.dom().finite(),
    ensures
        rooms.insert(room, Some((name, file))).dom().finite(),
        rooms.insert(room, Some((name, file))).len() == rooms.len() + if rooms.contains_key(room) {
            0int
        } else {
            1int
        },
{
}

/// Fetching never changes the number of rooms.
pub proof fn lemma_fetch_room_count(rooms: Map<Seq<char>, Option<(Seq<char>, Seq<u8>)>>, room: Seq<char>)
    requires
        rooms.dom().finite(),
    ensures
        after_fetch(rooms, room).dom().finite(),
        after_fetch(rooms, room).len() == rooms.len(),
{
    assert(after_fetch(rooms, room).dom() =~= rooms.dom());
}

/// Fetching never forgets a room: the rooms that exist afterwards are those
/// that existed before.
pub proof fn lemma_fetch_keeps_rooms(rooms: Map<Seq<char>, Option<(Seq<char>, Seq<u8>)>>, room: Seq<char>)
    ensures
        after_fetch(rooms, room).dom() == rooms.dom(),
{
    assert(after_fetch(rooms, room).dom() =~= rooms.dom());
}

} // verus!

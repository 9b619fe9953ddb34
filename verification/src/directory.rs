//! The room directory: which number stands for which room name.
//!
//! A room is named by any text. The relay keys its rooms by numbers, and the
//! directory gives every name its number the first time the name is asked
//! for. A name keeps its number for good, two names never share one, and
//! the nil id is never given out, so that it can stand for "no room".

use crate::ids::RoomId;
use vstd::prelude::*;

verus! {

/// The names after `name` was asked for: the same where it is among them,
/// else with `name` at the end.
pub open spec fn enrolled(names: Seq<Seq<char>>, name: Seq<char>) -> Seq<Seq<char>> {
    if names.contains(name) {
        names
    } else {
        names.push(name)
    }
}

/// The id of the room whose name stands at `index`: one more than the
/// index, which leaves the nil id out.
pub open spec fn id_at(index: int) -> RoomId {
    (index + 1) as RoomId
}

/// `id` is the id of `name` among `names`.
pub open spec fn names_room(names: Seq<Seq<char>>, id: RoomId, name: Seq<char>) -> bool {
    1 <= id <= names.len() && names[id - 1] == name
}

/// The name of the room `id` among `names`, if it names one.
pub open spec fn name_at(names: Seq<Seq<char>>, id: RoomId) -> Option<Seq<char>> {
    if 1 <= id <= names.len() {
        Some(names[id - 1])
    } else {
        None
    }
}

/// The names of all rooms that were ever asked for, in the order in which
/// they first were.
#[derive(Debug)]
pub struct RoomDirectory {
    names: Vec<String>,
}

impl View for RoomDirectory {
    type V = Seq<Seq<char>>;

    closed spec fn view(&self) -> Seq<Seq<char>> {
        self.names@.map_values(|name: String| name@)
    }
}

impl RoomDirectory {
    /// No name stands in the directory twice.
    pub open spec fn wf(&self) -> bool {
        self@.no_duplicates()
    }

    /// A directory without names.
    pub fn new() -> (directory: Self)
        ensures
            directory@ == Seq::<Seq<char>>::empty(),
            directory.wf(),
    {
        let directory = RoomDirectory { names: Vec::new() };
        assert(directory@ =~= Seq::<Seq<char>>::empty());
        directory
    }

    /// How many names the directory holds.
    pub fn len(&self) -> (len: usize)
        ensures
            len == self@.len(),
    {
        self.names.len()
    }

    /// The id of the room `name`, where the name was asked for before.
    pub fn find(&self, name: &str) -> (id: Option<RoomId>)
        ensures
            match id {
                Some(id) => names_room(self@, id, name@),
                None => !self@.contains(name@),
            },
    {
        let wanted = name.to_string();
        let mut i: usize = 0;
        while i < self.names.len()
            invariant
                i <= self@.len(),
                self@.len() == self.names@.len(),
                wanted@ == name@,
                forall|j: int| 0 <= j < i ==> self@[j] != name@,
            decreases self@.len() - i,
        {
            if self.names[i] == wanted {
                assert(self@[i as int] == name@);
                let index: u128 = i as u128;
                return Some(index + 1);
            }
            i = i + 1;
        }
        None
    }

    /// The id of the room `name`. A name that is asked for the first time is
    /// added to the directory; every other name and every id stay as they
    /// are. The same name gives the same id every time, and different names
    /// give different ids.
    pub fn room_id_of(&mut self, name: &str) -> (id: RoomId)
        requires
            old(self).wf(),
        ensures
            final(self)@ == enrolled(old(self)@, name@),
            names_room(final(self)@, id, name@),
            final(self).wf(),
    {
        match self.find(name) {
            Some(id) => id,
            None => {
                self.names.push(name.to_string());
                assert(self@ =~= old(self)@.push(name@));
                let count: u128 = self.names.len() as u128;
                count
            },
        }
    }

    /// The name of the room `id`, or `None` where the directory gave that id
    /// to no room.
    pub fn name_of(&self, id: RoomId) -> (name: Option<String>)
        ensures
            match name {
                Some(n) => name_at(self@, id) == Some(n@),
                None => name_at(self@, id) is None,
            },
    {
        if id == 0 || id > self.names.len() as u128 {
            return None;
        }
        let index: usize = (id - 1) as usize;
        Some(self.names[index].clone())
    }
}

/// Among names without duplicates, one name has one id and two names have
/// two: the same text always leads to the same room, and different texts
/// to different rooms.
pub proof fn lemma_one_room_for_each_name(
    names: Seq<Seq<char>>,
    first: Seq<char>,
    first_id: RoomId,
    second: Seq<char>,
    second_id: RoomId,
)
    requires
        names.no_duplicates(),
        names_room(names, first_id, first),
        names_room(names, second_id, second),
    ensures
        first == second <==> first_id == second_id,
{
}

/// Asking for a name takes no room away and moves none: every id that named
/// a room before names the same room after.
pub proof fn lemma_asking_keeps_every_room(names: Seq<Seq<char>>, asked: Seq<char>, id: RoomId, name: Seq<char>)
    requires
        names_room(names, id, name),
    ensures
        names_room(enrolled(names, asked), id, name),
        names.no_duplicates() ==> enrolled(names, asked).no_duplicates(),
        enrolled(names, asked).contains(asked),
{
    let after = enrolled(names, asked);
    if !names.contains(asked) {
        assert(after[names.len() as int] == asked);
    }
}

/// Two names that are asked for one after the other lead to the same room
/// exactly where they are the same text, and the room of the first is still
/// its room after the second was asked for.
pub proof fn lemma_rooms_go_by_name(
    names: Seq<Seq<char>>,
    first: Seq<char>,
    first_id: RoomId,
    second: Seq<char>,
    second_id: RoomId,
)
    requires
        names.no_duplicates(),
        names_room(enrolled(names, first), first_id, first),
        names_room(enrolled(enrolled(names, first), second), second_id, second),
    ensures
        names_room(enrolled(enrolled(names, first), second), first_id, first),
        first == second <==> first_id == second_id,
        first_id != crate::ids::nil_id(),
        second_id != crate::ids::nil_id(),
{
    let one = enrolled(names, first);
    let two = enrolled(one, second);
    lemma_asking_keeps_every_room(one, second, first_id, first);
    if !names.contains(first) {
        assert(one.no_duplicates());
    }
    if !one.contains(second) {
        assert(two.no_duplicates());
    }
    lemma_one_room_for_each_name(two, first, first_id, second, second_id);
}

} // verus!

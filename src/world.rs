use vstd::prelude::*;

verus! {

/// Identifies a room. `Void` is the sentinel: it stands both for "no exit"
/// and for the room that a failed lookup falls back to.
#[derive(Clone, Copy, PartialEq, Eq, Structural, Debug, Hash)]
pub enum RoomIdentifier {
    Void,
    GrimyHotelRoom,
    HotelHallway,
}

/// Identifies an item.
#[derive(Clone, Copy, PartialEq, Eq, Structural, Debug, Hash)]
pub enum ItemIdentifier {
    Flashlight,
}

/// The six directions a room can have an exit in.
#[derive(Clone, Copy, PartialEq, Eq, Structural, Debug, Hash)]
pub enum Direction {
    Up,
    Down,
    West,
    East,
    North,
    South,
}

/// Number of distinct room identifiers.
pub const ROOM_SLOTS: usize = 3;

/// Number of distinct item identifiers.
pub const ITEM_SLOTS: usize = 1;

/// The registry slot that a room identifier is kept in.
pub open spec fn room_slot(id: RoomIdentifier) -> int {
    match id {
        RoomIdentifier::Void => 0,
        RoomIdentifier::GrimyHotelRoom => 1,
        RoomIdentifier::HotelHallway => 2,
    }
}

/// The registry slot that an item identifier is kept in.
pub open spec fn item_slot(id: ItemIdentifier) -> int {
    match id {
        ItemIdentifier::Flashlight => 0,
    }
}

fn room_slot_of(id: RoomIdentifier) -> (r: usize)
    ensures
        r as int == room_slot(id),
{
    match id {
        RoomIdentifier::Void => 0,
        RoomIdentifier::GrimyHotelRoom => 1,
        RoomIdentifier::HotelHallway => 2,
    }
}

fn item_slot_of(id: ItemIdentifier) -> (r: usize)
    ensures
        r as int == item_slot(id),
{
    match id {
        ItemIdentifier::Flashlight => 0,
    }
}

/// An item: its identifier and what it looks like.
pub struct Item {
    pub id: ItemIdentifier,
    pub description: String,
}

impl Item {
    pub fn new(id: ItemIdentifier, description: String) -> (r: Item)
        ensures
            r.id == id,
            r.description == description,
    {
        Item { id, description }
    }
}

/// A room: its identifier, its name and description, and one exit per
/// direction (`Void` where there is none).
pub struct Room {
    pub id: RoomIdentifier,
    pub name: String,
    pub description: String,
    pub up: RoomIdentifier,
    pub down: RoomIdentifier,
    pub west: RoomIdentifier,
    pub east: RoomIdentifier,
    pub north: RoomIdentifier,
    pub south: RoomIdentifier,
}

impl Room {
    pub fn new(
        id: RoomIdentifier,
        name: String,
        description: String,
        up: RoomIdentifier,
        down: RoomIdentifier,
        west: RoomIdentifier,
        east: RoomIdentifier,
        north: RoomIdentifier,
        south: RoomIdentifier,
    ) -> (r: Room)
        ensures
            r.id == id,
            r.name == name,
            r.description == description,
            r.up == up,
            r.down == down,
            r.west == west,
            r.east == east,
            r.north == north,
            r.south == south,
    {
        Room { id, name, description, up, down, west, east, north, south }
    }

    /// The neighbour in direction `d`, `Void` meaning no exit.
    pub open spec fn spec_exit(&self, d: Direction) -> RoomIdentifier {
        match d {
            Direction::Up => self.up,
            Direction::Down => self.down,
            Direction::West => self.west,
            Direction::East => self.east,
            Direction::North => self.north,
            Direction::South => self.south,
        }
    }

    pub fn exit(&self, d: Direction) -> (r: RoomIdentifier)
        ensures
            r == self.spec_exit(d),
    {
        match d {
            Direction::Up => self.up,
            Direction::Down => self.down,
            Direction::West => self.west,
            Direction::East => self.east,
            Direction::North => self.north,
            Direction::South => self.south,
        }
    }
}

/// The rooms of a world, keyed by identifier. It always holds the sentinel
/// room, which every lookup of an absent identifier falls back to.
pub struct RoomRegistry {
    slots: Vec<Option<Room>>,
}

impl View for RoomRegistry {
    type V = Map<RoomIdentifier, Room>;

    closed spec fn view(&self) -> Map<RoomIdentifier, Room> {
        Map::new(
            |id: RoomIdentifier| self.slots@[room_slot(id)] is Some,
            |id: RoomIdentifier| self.slots@[room_slot(id)]->Some_0,
        )
    }
}

impl RoomRegistry {
    /// Every slot holds the room of its own identifier, and the sentinel
    /// room is present.
    pub closed spec fn wf(&self) -> bool {
        &&& self.slots@.len() == ROOM_SLOTS
        &&& forall|id: RoomIdentifier|
            #[trigger] self.slots@[room_slot(id)] is Some ==> self.slots@[room_slot(id)]->Some_0.id
                == id
        &&& self.slots@[room_slot(RoomIdentifier::Void)] is Some
    }

    /// The room that an identifier resolves to: its own entry if present,
    /// the sentinel room otherwise.
    pub open spec fn spec_room(&self, id: RoomIdentifier) -> Room {
        if self@.contains_key(id) {
            self@[id]
        } else {
            self@[RoomIdentifier::Void]
        }
    }

    /// A registry that holds only the given sentinel room.
    pub fn new(void: Room) -> (r: RoomRegistry)
        requires
            void.id == RoomIdentifier::Void,
        ensures
            r.wf(),
            r@ == map![RoomIdentifier::Void => void],
    {
        let mut slots: Vec<Option<Room>> = Vec::new();
        slots.push(Some(void));
        slots.push(None);
        slots.push(None);
        let r = RoomRegistry { slots };
        assert(r@ =~= map![RoomIdentifier::Void => void]);
        r
    }

    /// Adds a room, replacing any room of the same identifier.
    pub fn insert(&mut self, room: Room)
        requires
            old(self).wf(),
        ensures
            final(self).wf(),
            final(self)@ == old(self)@.insert(room.id, room),
    {
        let ghost id = room.id;
        let i = room_slot_of(room.id);
        self.slots.set(i, Some(room));
        assert(self@ =~= old(self)@.insert(id, room));
    }

    /// Whether a room of this identifier is present.
    pub fn contains(&self, id: RoomIdentifier) -> (r: bool)
        requires
            self.wf(),
        ensures
            r == self@.contains_key(id),
    {
        self.slots[room_slot_of(id)].is_some()
    }

    /// The room of `id`, or the sentinel room where `id` is absent.
    pub fn room(&self, id: RoomIdentifier) -> (r: &Room)
        requires
            self.wf(),
        ensures
            *r == self.spec_room(id),
    {
        match &self.slots[room_slot_of(id)] {
            Some(room) => room,
            None => match &self.slots[room_slot_of(RoomIdentifier::Void)] {
                Some(room) => room,
                None => {
                    assert(false);
                    &self.slots[0].as_ref().unwrap()
                },
            },
        }
    }

    /// The neighbour of room `id` in direction `d`; `Void` where there is
    /// no exit, and where `id` itself is absent.
    pub fn exit(&self, id: RoomIdentifier, d: Direction) -> (r: RoomIdentifier)
        requires
            self.wf(),
        ensures
            r == (if self@.contains_key(id) {
                self@[id].spec_exit(d)
            } else {
                RoomIdentifier::Void
            }),
    {
        match &self.slots[room_slot_of(id)] {
            Some(room) => room.exit(d),
            None => RoomIdentifier::Void,
        }
    }
}

/// The items of a world, keyed by identifier.
pub struct ItemRegistry {
    slots: Vec<Option<Item>>,
}

impl View for ItemRegistry {
    type V = Map<ItemIdentifier, Item>;

    closed spec fn view(&self) -> Map<ItemIdentifier, Item> {
        Map::new(
            |id: ItemIdentifier| self.slots@[item_slot(id)] is Some,
            |id: ItemIdentifier| self.slots@[item_slot(id)]->Some_0,
        )
    }
}

impl ItemRegistry {
    /// Every slot holds the item of its own identifier.
    pub closed spec fn wf(&self) -> bool {
        &&& self.slots@.len() == ITEM_SLOTS
        &&& forall|id: ItemIdentifier|
            #[trigger] self.slots@[item_slot(id)] is Some ==> self.slots@[item_slot(id)]->Some_0.id
                == id
    }

    pub fn new() -> (r: ItemRegistry)
        ensures
            r.wf(),
            r@ == Map::<ItemIdentifier, Item>::empty(),
    {
        let mut slots: Vec<Option<Item>> = Vec::new();
        slots.push(None);
        let r = ItemRegistry { slots };
        assert(r@ =~= Map::<ItemIdentifier, Item>::empty());
        r
    }

    /// Adds an item, replacing any item of the same identifier.
    pub fn insert(&mut self, item: Item)
        requires
            old(self).wf(),
        ensures
            final(self).wf(),
            final(self)@ == old(self)@.insert(item.id, item),
    {
        let ghost id = item.id;
        let i = item_slot_of(item.id);
        self.slots.set(i, Some(item));
        assert(self@ =~= old(self)@.insert(id, item));
    }

    /// The item of `id`, if present.
    pub fn get(&self, id: ItemIdentifier) -> (r: Option<&Item>)
        requires
            self.wf(),
        ensures
            r is Some <==> self@.contains_key(id),
            r is Some ==> *r->Some_0 == self@[id],
    {
        self.slots[item_slot_of(id)].as_ref()
    }
}

/// Unknown identifiers never fail to resolve: every identifier absent from a
/// registry resolves to the registry's sentinel room.
pub proof fn lemma_absent_room_is_sentinel(reg: RoomRegistry, id: RoomIdentifier)
    requires
        reg.wf(),
        !reg@.contains_key(id),
    ensures
        reg.spec_room(id) == reg@[RoomIdentifier::Void],
        reg@.contains_key(RoomIdentifier::Void),
{
}

} // verus!

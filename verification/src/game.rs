//! The identity record of the tracked activity: the game a user is playing.

use vstd::prelude::*;

verus! {

/// The mathematical content of a `Game`: the two character sequences.
pub struct GameView {
    pub name: Seq<char>,
    pub id: Seq<char>,
}

/// One game as reported by the external signal: a display name and the
/// identifier the platform keys it by. Identity comparisons go by `id`
/// alone; `name` is display text and may differ for the same `id`.
pub struct Game {
    name: String,
    id: String,
}

impl View for Game {
    type V = GameView;

    closed spec fn view(&self) -> GameView {
        GameView { name: self.name@, id: self.id@ }
    }
}

impl Game {
    pub open spec fn spec_name(self) -> Seq<char> {
        self@.name
    }

    pub open spec fn spec_id(self) -> Seq<char> {
        self@.id
    }

    pub fn new(name: String, id: String) -> (r: Game)
        ensures
            r.spec_name() == name@,
            r.spec_id() == id@,
    {
        Game { name, id }
    }

    pub fn name(&self) -> (r: &String)
        ensures
            r@ == self.spec_name(),
    {
        &self.name
    }

    pub fn id(&self) -> (r: &String)
        ensures
            r@ == self.spec_id(),
    {
        &self.id
    }

    /// Whether two observations denote the same identity: `id` equality,
    /// never display-name equality.
    pub fn same_identity(&self, other: &Game) -> (r: bool)
        ensures
            r == (self.spec_id() == other.spec_id()),
    {
        self.id == other.id
    }
}

impl Clone for Game {
    fn clone(&self) -> (r: Self)
        ensures
            r@ == self@,
    {
        Game { name: self.name.clone(), id: self.id.clone() }
    }
}

} // verus!

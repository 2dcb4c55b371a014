//! What the physics engine reports about touching bodies, and the rule that
//! tells ground from walls and ceilings.

use vstd::prelude::*;

verus! {

/// The vertical component of a contact normal. A normal is a unit vector, so
/// its vertical component is -1, 0, +1 or something in between; the rules
/// only ever ask which of these it is.
#[derive(Clone, Copy, Debug, PartialEq, Eq, Structural)]
pub enum NormalY {
    /// Exactly -1.
    MinusOne,
    /// Exactly 0: the surface is vertical.
    Zero,
    /// Exactly +1.
    PlusOne,
    /// Any other value.
    Other,
}

/// The contact geometry between two bodies for one tick.
#[derive(Clone, Copy, Debug)]
pub struct ContactManifold {
    /// The body the engine lists first, if it names one.
    pub first_body: Option<u64>,
    /// The vertical component of the surface normal.
    pub normal_y: NormalY,
}

impl ContactManifold {
    /// The engine has named the first body of the pair.
    pub open spec fn has_first_body(&self) -> bool {
        self.first_body is Some
    }

    /// The player is the first body of the pair.
    pub open spec fn player_is_first(&self, player: u64) -> bool {
        self.first_body == Some(player)
    }

    /// The other body is first, so the player is the second body of the pair.
    pub open spec fn player_is_second(&self, player: u64, other: u64) -> bool {
        self.first_body == Some(other) && other != player
    }

    /// The other body is beneath the player: seen from the first body the
    /// normal points straight down when the player is first, and straight up
    /// when the player is second.
    pub open spec fn supports(&self, player: u64, other: u64) -> bool {
        ||| self.player_is_first(player) && self.normal_y is MinusOne
        ||| self.player_is_second(player, other) && self.normal_y is PlusOne
    }

    /// Whether the engine has named the first body of the pair.
    pub fn names_first_body(&self) -> (named: bool)
        ensures
            named == self.has_first_body(),
    {
        self.first_body.is_some()
    }
}

/// Decides whether `manifold`, a contact between the player and `other_body`,
/// shows the player standing on top of `other_body`.
///
/// A manifold without a first body breaks the engine's side of the bargain;
/// callers must stop loudly before they get here.
pub fn is_supporting(
    player_body: u64,
    other_body: u64,
    manifold: &ContactManifold,
) -> (supported: bool)
    requires
        manifold.has_first_body(),
    ensures
        supported == manifold.supports(player_body, other_body),
{
    match manifold.first_body {
        Some(first) => {
            if first == player_body {
                manifold.normal_y == NormalY::MinusOne
            } else if first == other_body {
                manifold.normal_y == NormalY::PlusOne
            } else {
                false
            }
        },
        None => false,
    }
}

/// All manifolds between the player and one other body.
#[derive(Debug)]
pub struct ContactPair {
    /// The body the player touches.
    pub other_body: u64,
    /// The contact geometry, one entry per manifold.
    pub manifolds: Vec<ContactManifold>,
}

/// Everything the player touches during one tick, as read from the engine
/// before the rules run.
#[derive(Debug)]
pub struct ContactSnapshot {
    pub pairs: Vec<ContactPair>,
}

impl ContactSnapshot {
    /// `j` is a manifold of pair `i`.
    pub open spec fn in_range(&self, i: int, j: int) -> bool {
        0 <= i < self.pairs@.len() && 0 <= j < self.pairs@[i].manifolds@.len()
    }

    /// Manifold `j` of pair `i`.
    pub open spec fn manifold(&self, i: int, j: int) -> ContactManifold {
        self.pairs@[i].manifolds@[j]
    }

    /// Every manifold names its first body.
    pub open spec fn well_formed(&self) -> bool {
        forall|i: int, j: int| #[trigger] self.in_range(i, j) ==> self.manifold(i, j).has_first_body()
    }

    /// Manifold `j` of pair `i` shows the player standing on that pair's body.
    pub open spec fn supports_at(&self, player: u64, i: int, j: int) -> bool {
        self.in_range(i, j) && self.manifold(i, j).supports(player, self.pairs@[i].other_body)
    }

    /// At least one manifold shows the player standing on something.
    pub open spec fn supports(&self, player: u64) -> bool {
        exists|i: int, j: int| #[trigger] self.supports_at(player, i, j)
    }

    /// A snapshot without contacts: the player is in the air.
    pub fn new() -> (snapshot: ContactSnapshot)
        ensures
            snapshot.pairs@.len() == 0,
            snapshot.well_formed(),
            forall|player: u64| !snapshot.supports(player),
    {
        ContactSnapshot { pairs: Vec::new() }
    }

    /// Whether every manifold names its first body.
    pub fn is_well_formed(&self) -> (ok: bool)
        ensures
            ok == self.well_formed(),
    {
        let mut i: usize = 0;
        while i < self.pairs.len()
            invariant
                i <= self.pairs@.len(),
                forall|a: int, b: int|
                    a < i && #[trigger] self.in_range(a, b) ==> self.manifold(a, b).has_first_body(),
            decreases self.pairs@.len() - i,
        {
            let pair = &self.pairs[i];
            let mut j: usize = 0;
            while j < pair.manifolds.len()
                invariant
                    i < self.pairs@.len(),
                    *pair == self.pairs@[i as int],
                    j <= pair.manifolds@.len(),
                    forall|a: int, b: int|
                        a < i && #[trigger] self.in_range(a, b) ==> self.manifold(
                            a,
                            b,
                        ).has_first_body(),
                    forall|b: int|
                        b < j && #[trigger] self.in_range(i as int, b) ==> self.manifold(
                            i as int,
                            b,
                        ).has_first_body(),
                decreases pair.manifolds@.len() - j,
            {
                if !pair.manifolds[j].names_first_body() {
                    assert(self.in_range(i as int, j as int));
                    return false;
                }
                j = j + 1;
            }
            i = i + 1;
        }
        true
    }

    /// Looks through the contacts for one that holds the player up, and stops
    /// at the first it finds.
    pub fn is_supported(&self, player: u64) -> (supported: bool)
        requires
            self.well_formed(),
        ensures
            supported == self.supports(player),
    {
        let mut i: usize = 0;
        while i < self.pairs.len()
            invariant
                self.well_formed(),
                i <= self.pairs@.len(),
                forall|a: int, b: int| a < i ==> !#[trigger] self.supports_at(player, a, b),
            decreases self.pairs@.len() - i,
        {
            let pair = &self.pairs[i];
            let mut j: usize = 0;
            while j < pair.manifolds.len()
                invariant
                    self.well_formed(),
                    i < self.pairs@.len(),
                    *pair == self.pairs@[i as int],
                    j <= pair.manifolds@.len(),
                    forall|a: int, b: int| a < i ==> !#[trigger] self.supports_at(player, a, b),
                    forall|b: int| b < j ==> !#[trigger] self.supports_at(player, i as int, b),
                decreases pair.manifolds@.len() - j,
            {
                assert(self.in_range(i as int, j as int));
                if is_supporting(player, pair.other_body, &pair.manifolds[j]) {
                    assert(self.supports_at(player, i as int, j as int));
                    return true;
                }
                j = j + 1;
            }
            i = i + 1;
        }
        false
    }
}

/// Whether a contact began or ended.
#[derive(Clone, Copy, Debug, PartialEq, Eq, Structural)]
pub enum ContactPhase {
    Started,
    Stopped,
}

/// One contact event of the tick, as the engine reports it.
#[derive(Clone, Copy, Debug)]
pub struct ContactEvent {
    pub phase: ContactPhase,
    /// The first body of the pair.
    pub first: u64,
    /// The second body of the pair.
    pub second: u64,
    /// The engine's flag bits for the event; zero for an ordinary contact
    /// between two solid bodies that both still exist.
    pub flags: u32,
}

impl ContactEvent {
    /// An ordinary contact between solid bodies has ended.
    pub open spec fn is_contact_loss(&self) -> bool {
        self.phase is Stopped && self.flags == 0
    }

    /// Whether an ordinary contact between solid bodies has ended.
    pub fn contact_lost(&self) -> (lost: bool)
        ensures
            lost == self.is_contact_loss(),
    {
        self.phase == ContactPhase::Stopped && self.flags == 0
    }
}

} // verus!

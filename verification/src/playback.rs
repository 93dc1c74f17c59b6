//! The combat-board playback protocol: the presentation layer consumes a
//! battle's action queue one action at a time, and each consumption moves
//! the authoritative boards to that action's snapshots.  The board diff
//! reconciles a presented board with a snapshot by unit id: units absent
//! from the snapshot are removed, units present get their new stats in
//! place, and new units spawn at their positional index.
use vstd::prelude::*;

use crate::battle::BattleAction;
use crate::battle::BattleActionType;
use crate::battle::BattleResponse;
use crate::character::CharacterInstance;

verus! {

/// Whether some unit with this instance id stands on the board.
pub open spec fn contains_id(b: Seq<Option<CharacterInstance>>, id: u128) -> bool {
    exists|i: int|
        0 <= i < b.len() && ((#[trigger] b[i]) matches Some(c) && c.id == id)
}

/// The ids of the units of `prev`, in board order, that are absent from
/// `next`: the units the presentation must remove.
pub open spec fn removed_ids(
    prev: Seq<Option<CharacterInstance>>,
    next: Seq<Option<CharacterInstance>>,
) -> Seq<u128>
    decreases prev.len(),
{
    if prev.len() == 0 {
        Seq::empty()
    } else {
        removed_ids(prev.drop_last(), next) + match prev.last() {
            Some(c) => if !contains_id(next, c.id) {
                seq![c.id]
            } else {
                Seq::empty()
            },
            None => Seq::empty(),
        }
    }
}

/// The units of `next`, in board order, whose id already stands in
/// `prev`: the units the presentation updates in place.
pub open spec fn updated_units(
    prev: Seq<Option<CharacterInstance>>,
    next: Seq<Option<CharacterInstance>>,
) -> Seq<CharacterInstance>
    decreases next.len(),
{
    if next.len() == 0 {
        Seq::empty()
    } else {
        updated_units(prev, next.drop_last()) + match next.last() {
            Some(c) => if contains_id(prev, c.id) {
                seq![c]
            } else {
                Seq::empty()
            },
            None => Seq::empty(),
        }
    }
}

/// The slots of `next`, index and unit, whose id is new: the units the
/// presentation spawns at their positional index.
pub open spec fn spawned_units(
    prev: Seq<Option<CharacterInstance>>,
    next: Seq<Option<CharacterInstance>>,
) -> Seq<(usize, CharacterInstance)>
    decreases next.len(),
{
    if next.len() == 0 {
        Seq::empty()
    } else {
        spawned_units(prev, next.drop_last()) + match next.last() {
            Some(c) => if !contains_id(prev, c.id) {
                seq![((next.len() - 1) as usize, c)]
            } else {
                Seq::empty()
            },
            None => Seq::empty(),
        }
    }
}

/// What a presented board must do to match a snapshot.
#[derive(Debug)]
pub struct BoardDiff {
    /// Instance ids to despawn, in board order of the old board.
    pub removed: Vec<u128>,
    /// Units already presented, carrying their new stats, in board order
    /// of the snapshot.
    pub updated: Vec<CharacterInstance>,
    /// Index and unit of each newly appearing slot of the snapshot.
    pub spawned: Vec<(usize, CharacterInstance)>,
}

/// Reconciles a presented board with a snapshot by unit id.
pub fn board_diff(
    prev: &Vec<Option<CharacterInstance>>,
    next: &Vec<Option<CharacterInstance>>,
) -> (d: BoardDiff)
    ensures
        d.removed@ == removed_ids(prev@, next@),
        d.updated@ == updated_units(prev@, next@),
        d.spawned@ == spawned_units(prev@, next@),
{
    let mut removed: Vec<u128> = Vec::new();
    let mut i: usize = 0;
    while i < prev.len()
        invariant
            i <= prev.len(),
            removed@ == removed_ids(prev@.take(i as int), next@),
        decreases prev.len() - i,
    {
        proof {
            assert(prev@.take(i + 1 as int).drop_last() =~= prev@.take(i as int));
        }
        match prev[i] {
            Some(c) => {
                if !board_contains_id(next, c.id) {
                    removed.push(c.id);
                }
            },
            None => {},
        }
        i = i + 1;
    }
    proof {
        assert(prev@.take(prev@.len() as int) =~= prev@);
    }
    let mut updated: Vec<CharacterInstance> = Vec::new();
    let mut spawned: Vec<(usize, CharacterInstance)> = Vec::new();
    let mut j: usize = 0;
    while j < next.len()
        invariant
            j <= next.len(),
            updated@ == updated_units(prev@, next@.take(j as int)),
            spawned@ == spawned_units(prev@, next@.take(j as int)),
        decreases next.len() - j,
    {
        proof {
            assert(next@.take(j + 1 as int).drop_last() =~= next@.take(j as int));
            assert(next@.take(j + 1 as int).len() - 1 == j as int);
        }
        match next[j] {
            Some(c) => {
                if board_contains_id(prev, c.id) {
                    updated.push(c);
                } else {
                    spawned.push((j, c));
                }
            },
            None => {},
        }
        j = j + 1;
    }
    proof {
        assert(next@.take(next@.len() as int) =~= next@);
    }
    BoardDiff { removed, updated, spawned }
}

/// Whether a unit with this instance id stands on the board.
pub fn board_contains_id(b: &Vec<Option<CharacterInstance>>, id: u128) -> (r: bool)
    ensures
        r == contains_id(b@, id),
{
    let mut i: usize = 0;
    while i < b.len()
        invariant
            i <= b.len(),
            forall|j: int|
                0 <= j < i ==> !((#[trigger] b@[j]) matches Some(c) && c.id == id),
        decreases b.len() - i,
    {
        let hit: bool = match &b[i] {
            Some(c) => c.id == id,
            None => false,
        };
        if hit {
            return true;
        }
        i = i + 1;
    }
    false
}

/// What the presentation should do next with the action at the front of
/// the queue.
#[derive(Clone, Copy, Debug, PartialEq, Eq, Structural)]
pub enum PlaybackDirective {
    /// Animate the source unit striking the target; a missing target
    /// means the strike plays with nothing to aim at.
    AnimateAttack { source: u128, target: Option<u128> },
    /// Animate the source unit's death.
    AnimateDie { source: u128 },
    /// The queue is exhausted; the state returns to idle.
    Idle,
}

/// Sequential playback of one battle's action queue.  One action fully
/// resolves — the presentation signals completion — before the next
/// begins; completing an action moves the authoritative boards to its
/// snapshots.  Cancelling discards the remaining queue without applying
/// further diffs.
#[derive(Debug)]
pub struct BattlePlayback {
    /// The own board as currently presented.
    pub own: Vec<Option<CharacterInstance>>,
    /// The opposing board as currently presented.
    pub opponent: Vec<Option<CharacterInstance>>,
    /// The actions not yet played, front first.
    pub pending: Vec<BattleAction>,
}

impl BattlePlayback {
    /// Playback positioned at the start of a resolved battle.
    pub fn new(resp: BattleResponse) -> (r: BattlePlayback)
        ensures
            r.own == resp.start_own,
            r.opponent == resp.start_opponent,
            r.pending == resp.actions,
    {
        BattlePlayback {
            own: resp.start_own,
            opponent: resp.start_opponent,
            pending: resp.actions,
        }
    }

    /// What to play for the action at the front of the queue.
    pub fn next_directive(&self) -> (d: PlaybackDirective)
        ensures
            self.pending.len() == 0 ==> d == PlaybackDirective::Idle,
            self.pending.len() > 0 ==> d == (match self.pending@[0].action {
                BattleActionType::Attack => PlaybackDirective::AnimateAttack {
                    source: self.pending@[0].source,
                    target: self.pending@[0].target,
                },
                BattleActionType::Die => PlaybackDirective::AnimateDie {
                    source: self.pending@[0].source,
                },
            }),
    {
        if self.pending.len() == 0 {
            return PlaybackDirective::Idle;
        }
        let a = &self.pending[0];
        match a.action {
            BattleActionType::Attack => PlaybackDirective::AnimateAttack {
                source: a.source,
                target: a.target,
            },
            BattleActionType::Die => PlaybackDirective::AnimateDie { source: a.source },
        }
    }

    /// Consumes the front action once its animation has completed: the
    /// boards move to that action's snapshots.  With an empty queue
    /// nothing happens.
    pub fn complete_current(&mut self) -> (advanced: bool)
        ensures
            old(self).pending.len() == 0 ==> !advanced && *final(self) == *old(self),
            old(self).pending.len() > 0 ==> advanced && final(self).pending@ == old(
                self,
            ).pending@.drop_first() && final(self).own == old(self).pending@[0].result_own
                && final(self).opponent == old(self).pending@[0].result_opponent,
    {
        if self.pending.len() == 0 {
            return false;
        }
        let a: BattleAction = self.pending.remove(0);
        self.own = a.result_own;
        self.opponent = a.result_opponent;
        proof {
            assert(final(self).pending@ =~= old(self).pending@.drop_first());
        }
        true
    }

    /// Discards the remaining queue without applying further diffs, as a
    /// match closed mid-playback demands.
    pub fn cancel(&mut self)
        ensures
            final(self).pending.len() == 0,
            final(self).own == old(self).own,
            final(self).opponent == old(self).opponent,
    {
        self.pending.clear();
    }

    /// Whether playback has exhausted its queue.
    pub fn is_idle(&self) -> (r: bool)
        ensures
            r == (self.pending.len() == 0),
    {
        self.pending.len() == 0
    }
}

} // verus!

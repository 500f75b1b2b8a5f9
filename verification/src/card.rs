//! Resource pools and playable cards.

use vstd::prelude::*;
use crate::consts::MAX_PRODUCTION;

verus! {

/// Clamp of a mathematical integer to an inclusive range.
pub open spec fn clamp(v: int, lo: int, hi: int) -> int {
    if v < lo {
        lo
    } else if v > hi {
        hi
    } else {
        v
    }
}

/// Clamps a 64-bit value into a 32-bit inclusive range.
pub fn clamp_i64(v: i64, lo: i32, hi: i32) -> (r: i32)
    requires
        lo <= hi,
    ensures
        r == clamp(v as int, lo as int, hi as int),
{
    if v < lo as i64 {
        lo
    } else if v > hi as i64 {
        hi
    } else {
        v as i32
    }
}

/// The closed set of resource types a player produces and spends.
#[derive(Clone, Copy, Debug, PartialEq, Eq, Structural)]
pub enum ResourceKind {
    Tools,
    Magic,
    Soldiers,
}

/// One typed resource pool: what is stored and what is produced per turn.
#[derive(Clone, Copy, Debug, PartialEq, Eq, Structural)]
pub struct Resource {
    pub amount: i32,
    pub production: i32,
}

impl Resource {
    /// Pool amounts are never negative; production stays within its cap.
    pub open spec fn wf(self) -> bool {
        &&& 0 <= self.amount
        &&& 0 <= self.production <= MAX_PRODUCTION
    }

    /// The pool after `delta` is added to its amount, floored at zero
    /// and saturated at the machine limit.
    pub open spec fn spec_changed_amount(self, delta: int) -> Resource {
        Resource { amount: clamp(self.amount + delta, 0, i32::MAX as int) as i32, ..self }
    }

    /// The pool after `delta` is added to its production, clamped to
    /// `[0, MAX_PRODUCTION]`.
    pub open spec fn spec_changed_production(self, delta: int) -> Resource {
        Resource { production: clamp(self.production + delta, 0, MAX_PRODUCTION as int) as i32, ..self }
    }

    /// Adds `delta` to the stored amount, clamped to stay non-negative.
    pub fn change_amount(&mut self, delta: i32)
        ensures
            *final(self) == old(self).spec_changed_amount(delta as int),
    {
        self.amount = clamp_i64(self.amount as i64 + delta as i64, 0, i32::MAX);
    }

    /// Adds `delta` to the production rate, clamped to `[0, MAX_PRODUCTION]`.
    pub fn change_production(&mut self, delta: i32)
        ensures
            *final(self) == old(self).spec_changed_production(delta as int),
    {
        self.production = clamp_i64(self.production as i64 + delta as i64, 0, MAX_PRODUCTION);
    }
}

/// A player's three resource pools.
#[derive(Clone, Copy, Debug, PartialEq, Eq, Structural)]
pub struct Resources {
    pub tools: Resource,
    pub magic: Resource,
    pub soldiers: Resource,
}

impl Resources {
    pub open spec fn wf(self) -> bool {
        &&& self.tools.wf()
        &&& self.magic.wf()
        &&& self.soldiers.wf()
    }

    pub open spec fn spec_get(self, kind: ResourceKind) -> Resource {
        match kind {
            ResourceKind::Tools => self.tools,
            ResourceKind::Magic => self.magic,
            ResourceKind::Soldiers => self.soldiers,
        }
    }

    /// This value with the pool of `kind` replaced by `r`.
    pub open spec fn spec_set(self, kind: ResourceKind, r: Resource) -> Resources {
        match kind {
            ResourceKind::Tools => Resources { tools: r, ..self },
            ResourceKind::Magic => Resources { magic: r, ..self },
            ResourceKind::Soldiers => Resources { soldiers: r, ..self },
        }
    }

    /// The pool of one resource kind.
    pub fn get(&self, kind: ResourceKind) -> (r: Resource)
        ensures
            r == self.spec_get(kind),
    {
        match kind {
            ResourceKind::Tools => self.tools,
            ResourceKind::Magic => self.magic,
            ResourceKind::Soldiers => self.soldiers,
        }
    }

    /// Adds `delta` to the stored amount of `kind`, floored at zero.
    pub fn change_amount(&mut self, kind: ResourceKind, delta: i32)
        ensures
            *final(self) == old(self).spec_set(
                kind,
                old(self).spec_get(kind).spec_changed_amount(delta as int),
            ),
    {
        match kind {
            ResourceKind::Tools => self.tools.change_amount(delta),
            ResourceKind::Magic => self.magic.change_amount(delta),
            ResourceKind::Soldiers => self.soldiers.change_amount(delta),
        }
    }

    /// Adds `delta` to the production of `kind`, clamped to `[0, MAX_PRODUCTION]`.
    pub fn change_production(&mut self, kind: ResourceKind, delta: i32)
        ensures
            *final(self) == old(self).spec_set(
                kind,
                old(self).spec_get(kind).spec_changed_production(delta as int),
            ),
    {
        match kind {
            ResourceKind::Tools => self.tools.change_production(delta),
            ResourceKind::Magic => self.magic.change_production(delta),
            ResourceKind::Soldiers => self.soldiers.change_production(delta),
        }
    }
}

/// Immutable description of a playable action: its cost, and what it does
/// to the user's production, tower and walls and to the opponent's tower.
#[derive(Clone, Copy, Debug, PartialEq, Eq, Structural)]
pub struct Card {
    pub id: u32,
    pub cost_resource: ResourceKind,
    pub cost_amount: i32,
    pub production_resource: ResourceKind,
    pub production_change: i32,
    pub tower_growth: i32,
    pub walls_growth: i32,
    pub damage: i32,
}

impl Card {
    /// Costs and damage are never negative; growths and production
    /// changes may be.
    pub open spec fn wf(self) -> bool {
        &&& 0 <= self.cost_amount
        &&& 0 <= self.damage
    }

    pub open spec fn spec_can_aford(self, resources: Resources) -> bool {
        resources.spec_get(self.cost_resource).amount >= self.cost_amount
    }

    /// True iff the pool the card costs from holds at least the cost.
    pub fn can_aford(&self, resources: &Resources) -> (r: bool)
        ensures
            r == self.spec_can_aford(*resources),
    {
        resources.get(self.cost_resource).amount >= self.cost_amount
    }
}

} // verus!

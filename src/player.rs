use vstd::prelude::*;

verus! {

/// What the player holds, as mathematical values.
pub ghost struct PlayerView {
    pub health: int,
    pub max_health: int,
    pub weapon_power: int,
    pub weapon_durability: int,
    pub potion_on_cooldown: bool,
}

impl PlayerView {
    /// The weapon may be used against a monster strictly weaker than its durability.
    pub open spec fn weapon_usable(self, monster_power: int) -> bool {
        self.weapon_durability > monster_power
    }

    /// Damage taken from a monster of the given power.
    pub open spec fn damage(self, monster_power: int, use_weapon: bool) -> int {
        if use_weapon {
            if monster_power - self.weapon_power > 0 {
                monster_power - self.weapon_power
            } else {
                0
            }
        } else {
            monster_power
        }
    }

    pub open spec fn attacked(self, monster_power: int, use_weapon: bool) -> PlayerView {
        PlayerView {
            health: self.health - self.damage(monster_power, use_weapon),
            weapon_durability: if use_weapon {
                monster_power
            } else {
                self.weapon_durability
            },
            ..self
        }
    }

    /// Health a potion of value `v` restores now: nothing while on cooldown, and never
    /// more than the headroom up to the maximum.
    pub open spec fn heal_amount(self, v: int) -> int {
        if self.potion_on_cooldown {
            0
        } else if v + self.health > self.max_health {
            self.max_health - self.health
        } else {
            v
        }
    }

    pub open spec fn healed(self, amount: int) -> PlayerView {
        PlayerView { health: self.health + amount, potion_on_cooldown: true, ..self }
    }

    pub open spec fn damaged(self, amount: int) -> PlayerView {
        PlayerView { health: self.health - amount, ..self }
    }

    pub open spec fn equipped(self, power: int) -> PlayerView {
        PlayerView { weapon_power: power, weapon_durability: i32::MAX as int, ..self }
    }

    pub open spec fn cooled_down(self) -> PlayerView {
        PlayerView { potion_on_cooldown: false, ..self }
    }

    pub open spec fn fits(self) -> bool {
        &&& i32::MIN <= self.health <= i32::MAX
        &&& i32::MIN <= self.max_health <= i32::MAX
        &&& i32::MIN <= self.weapon_power <= i32::MAX
        &&& i32::MIN <= self.weapon_durability <= i32::MAX
    }
}

/// The player: health, the equipped weapon and whether a potion was already drunk in this room.
pub struct PlayerState {
    health: i32,
    max_health: i32,
    weapon_power: i32,
    weapon_durability: i32,
    potion_on_cooldown: bool,
}

impl View for PlayerState {
    type V = PlayerView;

    closed spec fn view(&self) -> PlayerView {
        PlayerView {
            health: self.health as int,
            max_health: self.max_health as int,
            weapon_power: self.weapon_power as int,
            weapon_durability: self.weapon_durability as int,
            potion_on_cooldown: self.potion_on_cooldown,
        }
    }
}

impl PlayerState {
    /// Every value of the view fits the machine integers that hold it.
    pub proof fn lemma_fits(&self)
        ensures
            self@.fits(),
    {
    }

    /// A player at full health, with no weapon and a potion available.
    pub fn new(max_health: i32) -> (p: PlayerState)
        ensures
            p@ == (PlayerView {
                health: max_health as int,
                max_health: max_health as int,
                weapon_power: 0,
                weapon_durability: 0,
                potion_on_cooldown: false,
            }),
    {
        PlayerState {
            health: max_health,
            max_health,
            weapon_power: 0,
            weapon_durability: 0,
            potion_on_cooldown: false,
        }
    }

    pub fn health(&self) -> (r: i32)
        ensures
            r == self@.health,
    {
        self.health
    }

    pub fn max_health(&self) -> (r: i32)
        ensures
            r == self@.max_health,
    {
        self.max_health
    }

    pub fn weapon_power(&self) -> (r: i32)
        ensures
            r == self@.weapon_power,
    {
        self.weapon_power
    }

    pub fn weapon_durability(&self) -> (r: i32)
        ensures
            r == self@.weapon_durability,
    {
        self.weapon_durability
    }

    pub fn potion_on_cooldown(&self) -> (r: bool)
        ensures
            r == self@.potion_on_cooldown,
    {
        self.potion_on_cooldown
    }

    /// Adds `amount` to health, without a cap, and puts potions on cooldown for this room.
    pub fn heal(&mut self, amount: i32)
        requires
            i32::MIN <= old(self)@.health + amount <= i32::MAX,
        ensures
            final(self)@ == old(self)@.healed(amount as int),
    {
        self.potion_on_cooldown = true;
        self.health = self.health + amount;
    }

    /// Makes a potion effective again; called once on entering a room.
    pub fn remove_potion_cooldown(&mut self)
        ensures
            final(self)@ == old(self)@.cooled_down(),
    {
        self.potion_on_cooldown = false;
    }

    /// Subtracts `amount` from health, which may go to zero or below.
    pub fn take_damage(&mut self, amount: i32)
        requires
            i32::MIN <= old(self)@.health - amount <= i32::MAX,
        ensures
            final(self)@ == old(self)@.damaged(amount as int),
    {
        self.health = self.health - amount;
    }

    /// Replaces the weapon; a fresh weapon can be used against any monster.
    pub fn equip(&mut self, val: i32)
        ensures
            final(self)@ == old(self)@.equipped(val as int),
    {
        self.weapon_power = val;
        self.weapon_durability = i32::MAX;
    }

    pub fn can_use_weapon(&self, monster_power: i32) -> (r: bool)
        ensures
            r == self@.weapon_usable(monster_power as int),
    {
        self.weapon_durability > monster_power
    }

    /// Fights a monster. With the weapon, damage is reduced by its power and the weapon then
    /// only works against monsters weaker than this one; barehanded, the full power is taken.
    pub fn attack_monster(&mut self, monster_power: i32, use_weapon: bool)
        requires
            i32::MIN <= old(self)@.attacked(monster_power as int, use_weapon).health <= i32::MAX,
        ensures
            final(self)@ == old(self)@.attacked(monster_power as int, use_weapon),
    {
        if use_weapon {
            let diff: i64 = monster_power as i64 - self.weapon_power as i64;
            let damage_to_take: i64 = if diff > 0 {
                diff
            } else {
                0
            };
            let new_health: i64 = self.health as i64 - damage_to_take;
            self.health = new_health as i32;
            self.weapon_durability = monster_power;
        } else {
            self.take_damage(monster_power);
        }
    }

    /// Health that a potion of value `val` would restore now.
    pub fn get_potion_heal_amount(&self, val: i32) -> (r: i32)
        requires
            i32::MIN <= self@.heal_amount(val as int) <= i32::MAX,
        ensures
            r == self@.heal_amount(val as int),
    {
        if self.potion_on_cooldown {
            0
        } else if val as i64 + self.health as i64 > self.max_health as i64 {
            let headroom: i64 = self.max_health as i64 - self.health as i64;
            headroom as i32
        } else {
            val
        }
    }
}

/// Once a potion has been drunk in a room, further potions there restore nothing; once the
/// cooldown is lifted in a fresh room, a potion of positive value restores a positive amount,
/// at most the headroom to the maximum, whenever the player is below the maximum.
pub proof fn lemma_potion_cooldown(p: PlayerView, amount: int, v: int)
    ensures
        p.healed(amount).heal_amount(v) == 0,
        v > 0 && p.health < p.max_health ==> 0 < p.cooled_down().heal_amount(v) <= p.max_health
            - p.health,
        v > 0 && p.health < p.max_health && v + p.health <= p.max_health
            ==> p.cooled_down().heal_amount(v) == v,
{
}

/// After a fight with the weapon against a monster of power `m`, the weapon no longer works
/// against that power but still works against power `m - 1`: its durability is exactly `m`.
pub proof fn lemma_weapon_durability(p: PlayerView, m: int)
    ensures
        !p.attacked(m, true).weapon_usable(m),
        p.attacked(m, true).weapon_usable(m - 1),
        p.attacked(m, true).weapon_durability == m,
{
}

} // verus!

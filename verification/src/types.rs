//! Data model of a battle session.
//!
//! Account owners, chains and stake amounts are carried as plain integers:
//! an owner or a chain is identified by a `u64`, a stake is an amount in
//! its smallest unit as a `u128`. The engine only ever compares and adds
//! these values, so nothing more is needed to resolve a battle.

use vstd::prelude::*;
use crate::fixed::MAX_COMBO_STACK;

verus! {

/// Character classes with distinct base stats and special-ability cooldowns.
#[derive(Debug, Clone, Copy, PartialEq, Eq, Structural)]
pub enum CharacterClass {
    Warrior,
    Assassin,
    Mage,
    Tank,
    Trickster,
}

/// Battle stances with strategic attack and defense modifiers.
#[derive(Debug, Clone, Copy, PartialEq, Eq, Structural)]
pub enum Stance {
    Balanced,
    Aggressive,
    Defensive,
    Berserker,
    Counter,
}

/// Lifecycle status of a battle session.
#[derive(Debug, Clone, Copy, PartialEq, Eq, Structural)]
pub enum BattleStatus {
    WaitingForPlayers,
    InProgress,
    Completed,
    Cancelled,
}

/// Immutable character snapshot a participant brings into a battle.
#[derive(Debug, Clone)]
pub struct CharacterSnapshot {
    pub nft_id: String,
    pub class: CharacterClass,
    pub level: u16,
    pub hp_max: u32,
    pub min_damage: u16,
    pub max_damage: u16,
    pub crit_chance: u16,
    pub crit_multiplier: u16,
    pub dodge_chance: u16,
    pub defense: u16,
    pub attack_bps: i16,
    pub defense_bps: i16,
    pub crit_bps: i16,
}

/// Mathematical model of a character snapshot.
pub struct CharacterSnapshotView {
    pub nft_id: Seq<char>,
    pub class: CharacterClass,
    pub level: u16,
    pub hp_max: u32,
    pub min_damage: u16,
    pub max_damage: u16,
    pub crit_chance: u16,
    pub crit_multiplier: u16,
    pub dodge_chance: u16,
    pub defense: u16,
    pub attack_bps: i16,
    pub defense_bps: i16,
    pub crit_bps: i16,
}

impl CharacterSnapshotView {
    /// A snapshot is usable in combat when its damage range is non-empty.
    pub open spec fn wf(self) -> bool {
        self.min_damage <= self.max_damage
    }
}

impl View for CharacterSnapshot {
    type V = CharacterSnapshotView;

    open spec fn view(&self) -> CharacterSnapshotView {
        CharacterSnapshotView {
            nft_id: self.nft_id@,
            class: self.class,
            level: self.level,
            hp_max: self.hp_max,
            min_damage: self.min_damage,
            max_damage: self.max_damage,
            crit_chance: self.crit_chance,
            crit_multiplier: self.crit_multiplier,
            dodge_chance: self.dodge_chance,
            defense: self.defense,
            attack_bps: self.attack_bps,
            defense_bps: self.defense_bps,
            crit_bps: self.crit_bps,
        }
    }
}

impl CharacterSnapshot {
    /// A snapshot is usable in combat when its damage range is non-empty.
    pub open spec fn wf(self) -> bool {
        self@.wf()
    }
}

/// One player's intent for one turn slot of the current round.
#[derive(Debug, Clone, Copy, PartialEq, Eq, Structural)]
pub struct TurnSubmission {
    pub round: u8,
    pub turn: u8,
    pub stance: Stance,
    pub use_special: bool,
}

/// Mutable combat state of one participant of a session.
#[derive(Debug, Clone)]
pub struct BattleParticipant {
    pub owner: u64,
    pub chain: u64,
    pub character: CharacterSnapshot,
    pub stake: u128,
    pub current_hp: u32,
    pub combo_stack: u8,
    pub special_cooldown: u8,
    pub turns_submitted: Vec<Option<TurnSubmission>>,
}

/// Saturating subtraction on hit points.
pub open spec fn sat_sub_u32(a: u32, b: u32) -> u32 {
    if a >= b {
        (a - b) as u32
    } else {
        0
    }
}

/// Mathematical model of a participant's combat state.
pub struct ParticipantView {
    pub owner: u64,
    pub chain: u64,
    pub character: CharacterSnapshotView,
    pub stake: u128,
    pub current_hp: u32,
    pub combo_stack: u8,
    pub special_cooldown: u8,
    pub turns_submitted: Seq<Option<TurnSubmission>>,
}

impl ParticipantView {
    /// Combat-state invariant: the combo stack respects its cap, the
    /// character's damage range is non-empty, and there is one submission
    /// slot per turn of a round.
    pub open spec fn wf(self) -> bool {
        &&& self.character.wf()
        &&& self.combo_stack <= MAX_COMBO_STACK
        &&& self.turns_submitted.len() == 3
    }
}

impl View for BattleParticipant {
    type V = ParticipantView;

    open spec fn view(&self) -> ParticipantView {
        ParticipantView {
            owner: self.owner,
            chain: self.chain,
            character: self.character@,
            stake: self.stake,
            current_hp: self.current_hp,
            combo_stack: self.combo_stack,
            special_cooldown: self.special_cooldown,
            turns_submitted: self.turns_submitted@,
        }
    }
}

impl BattleParticipant {
    /// Combat-state invariant, as stated on the participant's model.
    pub open spec fn wf(self) -> bool {
        self@.wf()
    }

    /// Creates a participant at full health with no pending submissions.
    pub fn new(owner: u64, chain: u64, character: CharacterSnapshot, stake: u128) -> (p: Self)
        requires
            character.wf(),
        ensures
            p.wf(),
            p.owner == owner,
            p.chain == chain,
            p.character == character,
            p.stake == stake,
            p.current_hp == character.hp_max,
            p.combo_stack == 0,
            p.special_cooldown == 0,
            p.turns_submitted@ =~= seq![Option::<TurnSubmission>::None, None, None],
    {
        let mut turns: Vec<Option<TurnSubmission>> = Vec::new();
        turns.push(None);
        turns.push(None);
        turns.push(None);
        Self {
            owner,
            chain,
            current_hp: character.hp_max,
            character,
            stake,
            combo_stack: 0,
            special_cooldown: 0,
            turns_submitted: turns,
        }
    }

    /// Clears all turn submissions for a new round.
    pub fn reset_turns(&mut self)
        requires
            old(self).wf(),
        ensures
            final(self).wf(),
            *final(self) == (BattleParticipant {
                turns_submitted: final(self).turns_submitted,
                ..*old(self)
            }),
            final(self).turns_submitted@ =~= seq![Option::<TurnSubmission>::None, None, None],
    {
        let mut turns: Vec<Option<TurnSubmission>> = Vec::new();
        turns.push(None);
        turns.push(None);
        turns.push(None);
        self.turns_submitted = turns;
    }

    /// True when every turn slot of the current round holds a submission.
    pub fn all_turns_submitted(&self) -> (r: bool)
        requires
            self.wf(),
        ensures
            r == (self.turns_submitted@[0] is Some && self.turns_submitted@[1] is Some
                && self.turns_submitted@[2] is Some),
    {
        self.turns_submitted[0].is_some() && self.turns_submitted[1].is_some()
            && self.turns_submitted[2].is_some()
    }

    /// Applies damage, saturating at zero, and reports whether the
    /// participant was defeated by it.
    pub fn take_damage(&mut self, damage: u32) -> (defeated: bool)
        ensures
            *final(self) == (BattleParticipant {
                current_hp: sat_sub_u32(old(self).current_hp, damage),
                ..*old(self)
            }),
            defeated == (final(self).current_hp == 0),
    {
        self.current_hp = self.current_hp.saturating_sub(damage);
        self.current_hp == 0
    }

    /// Activates the special ability when it is off cooldown; on success the
    /// cooldown restarts at the class-specific value.
    pub fn use_special(&mut self) -> (used: bool)
        ensures
            used == (old(self).special_cooldown == 0),
            *final(self) == (BattleParticipant {
                special_cooldown: if old(self).special_cooldown == 0 {
                    spec_special_cooldown(old(self).character.class)
                } else {
                    old(self).special_cooldown
                },
                ..*old(self)
            }),
    {
        if self.special_cooldown == 0 {
            self.special_cooldown = self.character.class.special_cooldown();
            true
        } else {
            false
        }
    }

    /// Ticks the special-ability cooldown down by one, stopping at zero.
    pub fn tick_cooldown(&mut self)
        ensures
            *final(self) == (BattleParticipant {
                special_cooldown: if old(self).special_cooldown > 0 {
                    (old(self).special_cooldown - 1) as u8
                } else {
                    0
                },
                ..*old(self)
            }),
    {
        if self.special_cooldown > 0 {
            self.special_cooldown = self.special_cooldown - 1;
        }
    }

    /// Grows the combo stack by one, capped at `MAX_COMBO_STACK`.
    pub fn add_combo(&mut self)
        ensures
            *final(self) == (BattleParticipant {
                combo_stack: if old(self).combo_stack < MAX_COMBO_STACK {
                    (old(self).combo_stack + 1) as u8
                } else {
                    old(self).combo_stack
                },
                ..*old(self)
            }),
            old(self).combo_stack <= MAX_COMBO_STACK ==> final(self).combo_stack
                <= MAX_COMBO_STACK,
    {
        if self.combo_stack < MAX_COMBO_STACK {
            self.combo_stack = self.combo_stack + 1;
        }
    }

    /// Resets the combo stack.
    pub fn reset_combo(&mut self)
        ensures
            *final(self) == (BattleParticipant { combo_stack: 0, ..*old(self) }),
    {
        self.combo_stack = 0;
    }
}

/// Aggregated combat statistics of one side of a session.
#[derive(Debug, Clone, Copy, PartialEq, Eq, Structural)]
pub struct CombatStats {
    pub damage_dealt: u64,
    pub damage_taken: u64,
    pub crits: u64,
    pub dodges: u64,
    pub highest_crit: u64,
}

impl CombatStats {
    /// Creates an all-zero statistics record.
    pub fn new() -> (s: Self)
        ensures
            s == (CombatStats {
                damage_dealt: 0,
                damage_taken: 0,
                crits: 0,
                dodges: 0,
                highest_crit: 0,
            }),
    {
        Self { damage_dealt: 0, damage_taken: 0, crits: 0, dodges: 0, highest_crit: 0 }
    }
}

/// One directional exchange, as recorded for statistics.
#[derive(Debug, Clone, Copy, PartialEq, Eq, Structural)]
pub struct CombatAction {
    pub attacker: u64,
    pub defender: u64,
    pub damage: u32,
    pub was_crit: bool,
    pub was_dodged: bool,
    pub was_countered: bool,
    pub special_used: bool,
    pub defender_hp_remaining: u32,
}

/// Closed record of one round: the actions taken and the hit points of both
/// participants when the round ended.
#[derive(Debug, Clone)]
pub struct RoundResult {
    pub round: u8,
    pub player1_actions: Vec<CombatAction>,
    pub player2_actions: Vec<CombatAction>,
    pub player1_hp: u32,
    pub player2_hp: u32,
}

/// Mathematical model of a round record.
pub struct RoundResultView {
    pub round: u8,
    pub player1_actions: Seq<CombatAction>,
    pub player2_actions: Seq<CombatAction>,
    pub player1_hp: u32,
    pub player2_hp: u32,
}

impl View for RoundResult {
    type V = RoundResultView;

    open spec fn view(&self) -> RoundResultView {
        RoundResultView {
            round: self.round,
            player1_actions: self.player1_actions@,
            player2_actions: self.player2_actions@,
            player1_hp: self.player1_hp,
            player2_hp: self.player2_hp,
        }
    }
}

/// What `CharacterClass::base_stats` returns for each class.
pub open spec fn spec_base_stats(c: CharacterClass) -> (u32, u16, u16, u16) {
    match c {
        CharacterClass::Warrior => (120u32, 8u16, 15u16, 1500u16),
        CharacterClass::Assassin => (90u32, 12u16, 20u16, 3500u16),
        CharacterClass::Mage => (80u32, 10u16, 18u16, 2000u16),
        CharacterClass::Tank => (150u32, 6u16, 12u16, 1000u16),
        CharacterClass::Trickster => (100u32, 8u16, 16u16, 2500u16),
    }
}

/// What `CharacterClass::special_cooldown` returns for each class.
pub open spec fn spec_special_cooldown(c: CharacterClass) -> u8 {
    match c {
        CharacterClass::Warrior => 3u8,
        CharacterClass::Assassin => 4u8,
        CharacterClass::Mage => 3u8,
        CharacterClass::Tank => 4u8,
        CharacterClass::Trickster => 2u8,
    }
}

impl CharacterClass {
    /// Base stats of the class: maximum HP, minimum damage, maximum damage
    /// and critical-hit chance in basis points.
    pub fn base_stats(&self) -> (r: (u32, u16, u16, u16))
        ensures
            r == spec_base_stats(*self),
    {
        match self {
            CharacterClass::Warrior => (120, 8, 15, 1500),
            CharacterClass::Assassin => (90, 12, 20, 3500),
            CharacterClass::Mage => (80, 10, 18, 2000),
            CharacterClass::Tank => (150, 6, 12, 1000),
            CharacterClass::Trickster => (100, 8, 16, 2500),
        }
    }

    /// Turns the special ability stays on cooldown after a use.
    pub fn special_cooldown(&self) -> (r: u8)
        ensures
            r == spec_special_cooldown(*self),
    {
        match self {
            CharacterClass::Warrior => 3,
            CharacterClass::Assassin => 4,
            CharacterClass::Mage => 3,
            CharacterClass::Tank => 4,
            CharacterClass::Trickster => 2,
        }
    }
}

/// The lower-cased form of a character sequence.
pub uninterp spec fn lower_of(s: Seq<char>) -> Seq<char>;

/// Relies on str::to_lowercase: the result is a function of the input
/// characters alone.
#[verifier::external_body]
fn lowercase(s: &str) -> (r: String)
    ensures
        r@ == lower_of(s@),
{
    s.to_lowercase()
}

/// What `CharacterClass::from_str` accepts: the lower-cased name of a class.
pub open spec fn spec_class_from_str(s: Seq<char>) -> Option<CharacterClass> {
    if lower_of(s) == "warrior"@ {
        Some(CharacterClass::Warrior)
    } else if lower_of(s) == "assassin"@ {
        Some(CharacterClass::Assassin)
    } else if lower_of(s) == "mage"@ {
        Some(CharacterClass::Mage)
    } else if lower_of(s) == "tank"@ {
        Some(CharacterClass::Tank)
    } else if lower_of(s) == "trickster"@ {
        Some(CharacterClass::Trickster)
    } else {
        None
    }
}

/// What `Stance::from_str` accepts: the lower-cased name of a stance.
pub open spec fn spec_stance_from_str(s: Seq<char>) -> Option<Stance> {
    if lower_of(s) == "balanced"@ {
        Some(Stance::Balanced)
    } else if lower_of(s) == "aggressive"@ {
        Some(Stance::Aggressive)
    } else if lower_of(s) == "defensive"@ {
        Some(Stance::Defensive)
    } else if lower_of(s) == "berserker"@ {
        Some(Stance::Berserker)
    } else if lower_of(s) == "counter"@ {
        Some(Stance::Counter)
    } else {
        None
    }
}

impl CharacterClass {
    /// Parses a class name, ignoring case.
    pub fn from_str(s: &str) -> (r: Option<Self>)
        ensures
            r == spec_class_from_str(s@),
    {
        let lowered = lowercase(s);
        if lowered == "warrior".to_owned() {
            Some(CharacterClass::Warrior)
        } else if lowered == "assassin".to_owned() {
            Some(CharacterClass::Assassin)
        } else if lowered == "mage".to_owned() {
            Some(CharacterClass::Mage)
        } else if lowered == "tank".to_owned() {
            Some(CharacterClass::Tank)
        } else if lowered == "trickster".to_owned() {
            Some(CharacterClass::Trickster)
        } else {
            None
        }
    }
}

impl Stance {
    /// Parses a stance name, ignoring case.
    pub fn from_str(s: &str) -> (r: Option<Self>)
        ensures
            r == spec_stance_from_str(s@),
    {
        let lowered = lowercase(s);
        if lowered == "balanced".to_owned() {
            Some(Stance::Balanced)
        } else if lowered == "aggressive".to_owned() {
            Some(Stance::Aggressive)
        } else if lowered == "defensive".to_owned() {
            Some(Stance::Defensive)
        } else if lowered == "berserker".to_owned() {
            Some(Stance::Berserker)
        } else if lowered == "counter".to_owned() {
            Some(Stance::Counter)
        } else {
            None
        }
    }
}

} // verus!

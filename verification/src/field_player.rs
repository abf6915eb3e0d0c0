//! Field players: the stats that describe one, and how well one fits the
//! position it is put on.

use vstd::prelude::*;

verus! {

/// A position on the ice.
#[derive(Clone, Copy, Debug, PartialEq, Eq, Structural)]
pub enum PlayerPosition {
    Center,
    LeftWing,
    RightWing,
    LeftDefender,
    RightDefender,
    GoaliePos,
}

impl PlayerPosition {
    /// Whether a field player can stand here.
    pub open spec fn is_field_position(self) -> bool {
        self != PlayerPosition::GoaliePos
    }

    /// Whether this is one of the two wings.
    pub open spec fn is_wing(self) -> bool {
        self == PlayerPosition::LeftWing || self == PlayerPosition::RightWing
    }

    /// Whether this is one of the two defenders.
    pub open spec fn is_defender(self) -> bool {
        self == PlayerPosition::LeftDefender || self == PlayerPosition::RightDefender
    }
}

/// How a position relates to the one that a player is at home on.
#[derive(Clone, Copy, Debug, PartialEq, Eq, Structural)]
pub enum PositionFit {
    /// The player's own position.
    Native,
    /// The same line, on the other side.
    OtherEdge,
    /// Another line, or the center for a player who is not one.
    AnotherPosition,
    /// A center who is put anywhere else.
    DisplacedCenter,
}

/// Why no fit can be given.
#[derive(Clone, Copy, Debug, PartialEq, Eq, Structural)]
pub enum PositionError {
    /// The position asked about is none for a field player.
    PositionNotSet,
    /// The player's own position is none for a field player.
    NativePositionNotSet,
}

impl PositionFit {
    /// The share of the player's strength that it keeps, in hundredths.
    pub open spec fn spec_percent(self) -> u8 {
        match self {
            PositionFit::Native => 100,
            PositionFit::OtherEdge => 95,
            PositionFit::AnotherPosition => 80,
            PositionFit::DisplacedCenter => 75,
        }
    }

    /// The share of the player's strength that it keeps, in hundredths.
    #[verifier::when_used_as_spec(spec_percent)]
    pub fn percent(self) -> (share: u8)
        ensures
            share == self.spec_percent(),
    {
        match self {
            PositionFit::Native => 100,
            PositionFit::OtherEdge => 95,
            PositionFit::AnotherPosition => 80,
            PositionFit::DisplacedCenter => 75,
        }
    }
}

/// The fit of a player whose own position is `native_position` when put on
/// `position`. The position asked about is looked at first.
pub open spec fn position_fit(native_position: PlayerPosition, position: PlayerPosition) -> Result<
    PositionFit,
    PositionError,
> {
    if !position.is_field_position() {
        Err(PositionError::PositionNotSet)
    } else if !native_position.is_field_position() {
        Err(PositionError::NativePositionNotSet)
    } else if native_position == position {
        Ok(PositionFit::Native)
    } else if native_position == PlayerPosition::Center {
        Ok(PositionFit::DisplacedCenter)
    } else if (native_position.is_wing() && position.is_wing()) || (native_position.is_defender()
        && position.is_defender()) {
        Ok(PositionFit::OtherEdge)
    } else {
        Ok(PositionFit::AnotherPosition)
    }
}

/// The fit of a player whose own position is `native_position` when put on
/// `position`.
pub fn get_position_fit(
    native_position: &PlayerPosition,
    position: &PlayerPosition,
) -> (fit: Result<PositionFit, PositionError>)
    ensures
        fit == position_fit(*native_position, *position),
{
    match position {
        PlayerPosition::Center => match native_position {
            PlayerPosition::Center => Ok(PositionFit::Native),
            PlayerPosition::RightWing => Ok(PositionFit::AnotherPosition),
            PlayerPosition::LeftWing => Ok(PositionFit::AnotherPosition),
            PlayerPosition::LeftDefender => Ok(PositionFit::AnotherPosition),
            PlayerPosition::RightDefender => Ok(PositionFit::AnotherPosition),
            _ => Err(PositionError::NativePositionNotSet),
        },
        PlayerPosition::RightWing => match native_position {
            PlayerPosition::Center => Ok(PositionFit::DisplacedCenter),
            PlayerPosition::RightWing => Ok(PositionFit::Native),
            PlayerPosition::LeftWing => Ok(PositionFit::OtherEdge),
            PlayerPosition::LeftDefender => Ok(PositionFit::AnotherPosition),
            PlayerPosition::RightDefender => Ok(PositionFit::AnotherPosition),
            _ => Err(PositionError::NativePositionNotSet),
        },
        PlayerPosition::LeftWing => match native_position {
            PlayerPosition::Center => Ok(PositionFit::DisplacedCenter),
            PlayerPosition::RightWing => Ok(PositionFit::OtherEdge),
            PlayerPosition::LeftWing => Ok(PositionFit::Native),
            PlayerPosition::LeftDefender => Ok(PositionFit::AnotherPosition),
            PlayerPosition::RightDefender => Ok(PositionFit::AnotherPosition),
            _ => Err(PositionError::NativePositionNotSet),
        },
        PlayerPosition::RightDefender => match native_position {
            PlayerPosition::Center => Ok(PositionFit::DisplacedCenter),
            PlayerPosition::RightWing => Ok(PositionFit::AnotherPosition),
            PlayerPosition::LeftWing => Ok(PositionFit::AnotherPosition),
            PlayerPosition::LeftDefender => Ok(PositionFit::OtherEdge),
            PlayerPosition::RightDefender => Ok(PositionFit::Native),
            _ => Err(PositionError::NativePositionNotSet),
        },
        PlayerPosition::LeftDefender => match native_position {
            PlayerPosition::Center => Ok(PositionFit::DisplacedCenter),
            PlayerPosition::RightWing => Ok(PositionFit::AnotherPosition),
            PlayerPosition::LeftWing => Ok(PositionFit::AnotherPosition),
            PlayerPosition::LeftDefender => Ok(PositionFit::Native),
            PlayerPosition::RightDefender => Ok(PositionFit::OtherEdge),
            _ => Err(PositionError::NativePositionNotSet),
        },
        _ => Err(PositionError::PositionNotSet),
    }
}

/// The stats of a field player, in six groups.
#[derive(Clone, Copy, Debug)]
pub struct FieldPlayerStats {
    // Skating
    pub acceleration: u8,
    pub agility: u8,
    pub balance: u8,
    pub endurance: u8,
    pub speed: u8,
    // Shooting
    pub slap_shot_accuracy: u8,
    pub slap_shot_power: u8,
    pub wrist_shot_accuracy: u8,
    pub wrist_shot_power: u8,
    // Stick handling
    pub deking: u8,
    pub hand_eye: u8,
    pub passing: u8,
    pub puck_control: u8,
    // Strength
    pub aggressiveness: u8,
    pub body_checking: u8,
    pub durability: u8,
    pub fighting_skill: u8,
    pub strength: u8,
    // IQ
    pub discipline: u8,
    pub offensive: u8,
    pub poise: u8,
    pub morale: u8,
    // Defense
    pub defensive_awareness: u8,
    pub face_offs: u8,
    pub shot_blocking: u8,
    pub stick_checking: u8,
}

impl FieldPlayerStats {
    /// The sum of the five skating stats.
    pub open spec fn skating_total(&self) -> int {
        self.acceleration + self.agility + self.balance + self.endurance + self.speed
    }

    /// The sum of the four shooting stats.
    pub open spec fn shooting_total(&self) -> int {
        self.slap_shot_accuracy + self.slap_shot_power + self.wrist_shot_accuracy
            + self.wrist_shot_power
    }

    /// The sum of the four stick handling stats.
    pub open spec fn stick_handling_total(&self) -> int {
        self.deking + self.hand_eye + self.passing + self.puck_control
    }

    /// The sum of the five strength stats.
    pub open spec fn strength_total(&self) -> int {
        self.aggressiveness + self.body_checking + self.durability + self.fighting_skill
            + self.strength
    }

    /// The sum of the four IQ stats.
    pub open spec fn iq_total(&self) -> int {
        self.discipline + self.offensive + self.poise + self.morale
    }

    /// The sum of the four defense stats.
    pub open spec fn defense_total(&self) -> int {
        self.defensive_awareness + self.face_offs + self.shot_blocking + self.stick_checking
    }

    /// The sum of the five skating stats; their mean is a fifth of it.
    pub fn get_skating_total(&self) -> (total: u16)
        ensures
            total == self.skating_total(),
    {
        self.acceleration as u16 + self.agility as u16 + self.balance as u16 + self.endurance as u16
            + self.speed as u16
    }

    /// The sum of the four shooting stats; their mean is a quarter of it.
    pub fn get_shooting_total(&self) -> (total: u16)
        ensures
            total == self.shooting_total(),
    {
        self.slap_shot_accuracy as u16 + self.slap_shot_power as u16
            + self.wrist_shot_accuracy as u16 + self.wrist_shot_power as u16
    }

    /// The sum of the four stick handling stats; their mean is a quarter of
    /// it.
    pub fn get_stick_handling_total(&self) -> (total: u16)
        ensures
            total == self.stick_handling_total(),
    {
        self.deking as u16 + self.hand_eye as u16 + self.passing as u16 + self.puck_control as u16
    }

    /// The sum of the five strength stats; their mean is a fifth of it.
    pub fn get_strength_total(&self) -> (total: u16)
        ensures
            total == self.strength_total(),
    {
        self.aggressiveness as u16 + self.body_checking as u16 + self.durability as u16
            + self.fighting_skill as u16 + self.strength as u16
    }

    /// The sum of the four IQ stats; their mean is a quarter of it.
    pub fn get_iq_total(&self) -> (total: u16)
        ensures
            total == self.iq_total(),
    {
        self.discipline as u16 + self.offensive as u16 + self.poise as u16 + self.morale as u16
    }

    /// The sum of the four defense stats; their mean is a quarter of it.
    pub fn get_defense_total(&self) -> (total: u16)
        ensures
            total == self.defense_total(),
    {
        self.defensive_awareness as u16 + self.face_offs as u16 + self.shot_blocking as u16
            + self.stick_checking as u16
    }

    /// Whether each of the five strength stats can grow by `value`.
    pub open spec fn strength_can_grow(&self, value: u8) -> bool {
        &&& self.aggressiveness + value <= u8::MAX
        &&& self.body_checking + value <= u8::MAX
        &&& self.durability + value <= u8::MAX
        &&& self.fighting_skill + value <= u8::MAX
        &&& self.strength + value <= u8::MAX
    }

    /// Whether each of the four IQ stats can grow by `value`.
    pub open spec fn iq_can_grow(&self, value: u8) -> bool {
        &&& self.discipline + value <= u8::MAX
        &&& self.offensive + value <= u8::MAX
        &&& self.poise + value <= u8::MAX
        &&& self.morale + value <= u8::MAX
    }

    /// Whether each of the five strength stats can shrink by `value`.
    pub open spec fn strength_can_shrink(&self, value: u8) -> bool {
        &&& self.aggressiveness >= value
        &&& self.body_checking >= value
        &&& self.durability >= value
        &&& self.fighting_skill >= value
        &&& self.strength >= value
    }

    /// Whether each of the four IQ stats can shrink by `value`.
    pub open spec fn iq_can_shrink(&self, value: u8) -> bool {
        &&& self.discipline >= value
        &&& self.offensive >= value
        &&& self.poise >= value
        &&& self.morale >= value
    }

    /// Whether each of the five strength stats can grow by `value`.
    pub fn can_increase_strength(&self, value: u8) -> (possible: bool)
        ensures
            possible == self.strength_can_grow(value),
    {
        let room: u8 = u8::MAX - value;
        self.aggressiveness <= room && self.body_checking <= room && self.durability <= room
            && self.fighting_skill <= room && self.strength <= room
    }

    /// Whether each of the four IQ stats can grow by `value`.
    pub fn can_increase_iq(&self, value: u8) -> (possible: bool)
        ensures
            possible == self.iq_can_grow(value),
    {
        let room: u8 = u8::MAX - value;
        self.discipline <= room && self.offensive <= room && self.poise <= room && self.morale
            <= room
    }

    /// Whether each of the five strength stats can shrink by `value`.
    pub fn can_decrease_strength(&self, value: u8) -> (possible: bool)
        ensures
            possible == self.strength_can_shrink(value),
    {
        self.aggressiveness >= value && self.body_checking >= value && self.durability >= value
            && self.fighting_skill >= value && self.strength >= value
    }

    /// Whether each of the four IQ stats can shrink by `value`.
    pub fn can_decrease_iq(&self, value: u8) -> (possible: bool)
        ensures
            possible == self.iq_can_shrink(value),
    {
        self.discipline >= value && self.offensive >= value && self.poise >= value && self.morale
            >= value
    }

    /// Adds `value` to each of the five strength stats.
    pub fn increase_strength(&mut self, value: u8)
        requires
            old(self).strength_can_grow(value),
        ensures
            *final(self) == (FieldPlayerStats {
                aggressiveness: (old(self).aggressiveness + value) as u8,
                body_checking: (old(self).body_checking + value) as u8,
                durability: (old(self).durability + value) as u8,
                fighting_skill: (old(self).fighting_skill + value) as u8,
                strength: (old(self).strength + value) as u8,
                ..*old(self)
            }),
    {
        self.aggressiveness += value;
        self.body_checking += value;
        self.durability += value;
        self.fighting_skill += value;
        self.strength += value;
    }

    /// Adds `value` to each of the four IQ stats.
    pub fn increase_iq(&mut self, value: u8)
        requires
            old(self).iq_can_grow(value),
        ensures
            *final(self) == (FieldPlayerStats {
                discipline: (old(self).discipline + value) as u8,
                offensive: (old(self).offensive + value) as u8,
                poise: (old(self).poise + value) as u8,
                morale: (old(self).morale + value) as u8,
                ..*old(self)
            }),
    {
        self.discipline += value;
        self.offensive += value;
        self.poise += value;
        self.morale += value;
    }

    /// Takes `value` from each of the five strength stats.
    pub fn decrease_strength(&mut self, value: u8)
        requires
            old(self).strength_can_shrink(value),
        ensures
            *final(self) == (FieldPlayerStats {
                aggressiveness: (old(self).aggressiveness - value) as u8,
                body_checking: (old(self).body_checking - value) as u8,
                durability: (old(self).durability - value) as u8,
                fighting_skill: (old(self).fighting_skill - value) as u8,
                strength: (old(self).strength - value) as u8,
                ..*old(self)
            }),
    {
        self.aggressiveness -= value;
        self.body_checking -= value;
        self.durability -= value;
        self.fighting_skill -= value;
        self.strength -= value;
    }

    /// Takes `value` from each of the four IQ stats.
    pub fn decrease_iq(&mut self, value: u8)
        requires
            old(self).iq_can_shrink(value),
        ensures
            *final(self) == (FieldPlayerStats {
                discipline: (old(self).discipline - value) as u8,
                offensive: (old(self).offensive - value) as u8,
                poise: (old(self).poise - value) as u8,
                morale: (old(self).morale - value) as u8,
                ..*old(self)
            }),
    {
        self.discipline -= value;
        self.offensive -= value;
        self.poise -= value;
        self.morale -= value;
    }
}

} // verus!

//! The shadow copy of the converter's configuration and its register payloads.

use vstd::prelude::*;

verus! {

/// Whether the analog output is driven.
#[derive(Clone, Copy, Debug, PartialEq, Eq, Structural)]
pub enum PowerState {
    /// The output follows the data register.
    On,
    /// The output is tied to ground through the internal resistor.
    Off,
}

impl Default for PowerState {
    fn default() -> (state: Self)
        ensures
            state == PowerState::On,
    {
        Self::On
    }
}

/// The gain of the output buffer amplifier.
#[derive(Clone, Copy, Debug, PartialEq, Eq, Structural)]
pub enum GainState {
    /// The buffer doubles the output voltage.
    TwoX,
    /// The buffer leaves the output voltage as it is.
    OneX,
}

impl Default for GainState {
    fn default() -> (state: Self)
        ensures
            state == GainState::TwoX,
    {
        Self::TwoX
    }
}

/// The divider between the reference and the converter core.
#[derive(Clone, Copy, Debug, PartialEq, Eq, Structural)]
pub enum RefDivState {
    /// The core sees half the reference voltage.
    Half,
    /// The core sees the reference voltage as it is.
    OneX,
}

impl Default for RefDivState {
    fn default() -> (state: Self)
        ensures
            state == RefDivState::OneX,
    {
        Self::OneX
    }
}

/// Whether the internal voltage reference is running.
#[derive(Clone, Copy, Debug, PartialEq, Eq, Structural)]
pub enum InternRefState {
    /// The internal reference is shut down.
    Disable,
    /// The internal reference is running.
    Enable,
}

impl Default for InternRefState {
    fn default() -> (state: Self)
        ensures
            state == InternRefState::Enable,
    {
        Self::Enable
    }
}

/// The byte that stands for a flag in a register payload.
pub open spec fn flag(set: bool) -> u8 {
    if set {
        1
    } else {
        0
    }
}

/// The two flags of the config register.
#[derive(Clone, Copy, Debug, PartialEq, Eq, Structural)]
pub struct DacConfig {
    /// The internal reference; the register's flag is set when it is
    /// powered down.
    pub ref_pwdwn: InternRefState,
    /// The output; the register's flag is set when it is powered down.
    pub dac_pwdwn: PowerState,
}

impl DacConfig {
    /// The payload of the config register: the reference power-down flag,
    /// then the output power-down flag.
    pub open spec fn payload(self) -> Seq<u8> {
        seq![
            flag(self.ref_pwdwn == InternRefState::Disable),
            flag(self.dac_pwdwn == PowerState::Off),
        ]
    }

    /// The configuration that a payload of the config register stands for.
    pub open spec fn of_payload(payload: Seq<u8>) -> DacConfig {
        DacConfig {
            ref_pwdwn: if payload[0] == 1 {
                InternRefState::Disable
            } else {
                InternRefState::Enable
            },
            dac_pwdwn: if payload[1] == 1 {
                PowerState::Off
            } else {
                PowerState::On
            },
        }
    }

    /// Serializes the two flags into the payload of the config register.
    pub fn to_array(&self) -> (bytes: [u8; 2])
        ensures
            bytes@ == self.payload(),
    {
        let ref_pwdwn: u8 = match self.ref_pwdwn {
            InternRefState::Disable => 1,
            InternRefState::Enable => 0,
        };
        let dac_pwdwn: u8 = match self.dac_pwdwn {
            PowerState::Off => 1,
            PowerState::On => 0,
        };
        [ref_pwdwn, dac_pwdwn]
    }
}

impl Default for DacConfig {
    fn default() -> (config: Self)
        ensures
            config == (DacConfig { ref_pwdwn: InternRefState::Enable, dac_pwdwn: PowerState::On }),
    {
        DacConfig { ref_pwdwn: InternRefState::default(), dac_pwdwn: PowerState::default() }
    }
}

/// The two flags of the gain register.
#[derive(Clone, Copy, Debug, PartialEq, Eq, Structural)]
pub struct GainConfig {
    /// The reference divider; the register's flag is set when it halves
    /// the reference.
    pub ref_div: RefDivState,
    /// The output buffer; the register's flag is set when it doubles the
    /// output.
    pub buff_gain: GainState,
}

impl GainConfig {
    /// The payload of the gain register: the reference divider flag, then
    /// the buffer gain flag.
    pub open spec fn payload(self) -> Seq<u8> {
        seq![
            flag(self.ref_div == RefDivState::Half),
            flag(self.buff_gain == GainState::TwoX),
        ]
    }

    /// The configuration that a payload of the gain register stands for.
    pub open spec fn of_payload(payload: Seq<u8>) -> GainConfig {
        GainConfig {
            ref_div: if payload[0] == 1 {
                RefDivState::Half
            } else {
                RefDivState::OneX
            },
            buff_gain: if payload[1] == 1 {
                GainState::TwoX
            } else {
                GainState::OneX
            },
        }
    }

    /// Serializes the two flags into the payload of the gain register.
    pub fn to_array(&self) -> (bytes: [u8; 2])
        ensures
            bytes@ == self.payload(),
    {
        let ref_div: u8 = match self.ref_div {
            RefDivState::Half => 1,
            RefDivState::OneX => 0,
        };
        let buff_gain: u8 = match self.buff_gain {
            GainState::TwoX => 1,
            GainState::OneX => 0,
        };
        [ref_div, buff_gain]
    }
}

impl Default for GainConfig {
    fn default() -> (config: Self)
        ensures
            config == (GainConfig { ref_div: RefDivState::OneX, buff_gain: GainState::TwoX }),
    {
        Self { ref_div: RefDivState::OneX, buff_gain: GainState::TwoX }
    }
}

/// Everything the library remembers of what it last wrote to the converter.
#[derive(Clone, Copy, Debug, PartialEq, Eq, Structural)]
pub struct DacState {
    /// The flags of the config register.
    pub config: DacConfig,
    /// The flags of the gain register.
    pub gain: GainConfig,
}

impl DacState {
    /// The state of a converter after reset.
    pub open spec fn reset() -> DacState {
        DacState {
            config: DacConfig { ref_pwdwn: InternRefState::Enable, dac_pwdwn: PowerState::On },
            gain: GainConfig { ref_div: RefDivState::OneX, buff_gain: GainState::TwoX },
        }
    }

    /// The state once the internal reference has been set to `intern_ref`.
    pub open spec fn with_internal_reference(self, intern_ref: InternRefState) -> DacState {
        DacState { config: DacConfig { ref_pwdwn: intern_ref, ..self.config }, ..self }
    }

    /// The state once the output has been set to `state`.
    pub open spec fn with_power_state(self, state: PowerState) -> DacState {
        DacState { config: DacConfig { dac_pwdwn: state, ..self.config }, ..self }
    }

    /// The state once the reference divider has been set to `ref_div`.
    pub open spec fn with_reference_divider(self, ref_div: RefDivState) -> DacState {
        DacState { gain: GainConfig { ref_div, ..self.gain }, ..self }
    }

    /// The state once the buffer gain has been set to `gain`.
    pub open spec fn with_output_gain(self, gain: GainState) -> DacState {
        DacState { gain: GainConfig { buff_gain: gain, ..self.gain }, ..self }
    }
}

impl Default for DacState {
    fn default() -> (state: Self)
        ensures
            state == DacState::reset(),
    {
        DacState { config: DacConfig::default(), gain: GainConfig::default() }
    }
}

/// A config payload holds one byte per flag, each 0 or 1, and gives back
/// the configuration it was made from.
pub proof fn lemma_config_payload_round_trip(config: DacConfig)
    ensures
        config.payload().len() == 2,
        config.payload()[0] <= 1,
        config.payload()[1] <= 1,
        DacConfig::of_payload(config.payload()) == config,
{
}

/// A gain payload holds one byte per flag, each 0 or 1, and gives back the
/// configuration it was made from.
pub proof fn lemma_gain_payload_round_trip(gain: GainConfig)
    ensures
        gain.payload().len() == 2,
        gain.payload()[0] <= 1,
        gain.payload()[1] <= 1,
        GainConfig::of_payload(gain.payload()) == gain,
{
}

/// Two configurations with the same payload are the same configuration.
pub proof fn lemma_config_payload_injective(a: DacConfig, b: DacConfig)
    requires
        a.payload() == b.payload(),
    ensures
        a == b,
{
    lemma_config_payload_round_trip(a);
    lemma_config_payload_round_trip(b);
}

/// Two gain configurations with the same payload are the same configuration.
pub proof fn lemma_gain_payload_injective(a: GainConfig, b: GainConfig)
    requires
        a.payload() == b.payload(),
    ensures
        a == b,
{
    lemma_gain_payload_round_trip(a);
    lemma_gain_payload_round_trip(b);
}

/// The reset state serializes to `[0, 0]` for the config register and to
/// `[0, 1]` for the gain register.
pub proof fn lemma_reset_payloads()
    ensures
        DacState::reset().config.payload() == seq![0u8, 0u8],
        DacState::reset().gain.payload() == seq![0u8, 1u8],
{
}

/// Each of the four settings changes the field it names and no other.
pub proof fn lemma_settings_are_independent(
    state: DacState,
    intern_ref: InternRefState,
    power: PowerState,
    ref_div: RefDivState,
    gain: GainState,
)
    ensures
        state.with_internal_reference(intern_ref) == (DacState {
            config: DacConfig { ref_pwdwn: intern_ref, dac_pwdwn: state.config.dac_pwdwn },
            gain: state.gain,
        }),
        state.with_power_state(power) == (DacState {
            config: DacConfig { ref_pwdwn: state.config.ref_pwdwn, dac_pwdwn: power },
            gain: state.gain,
        }),
        state.with_reference_divider(ref_div) == (DacState {
            config: state.config,
            gain: GainConfig { ref_div: ref_div, buff_gain: state.gain.buff_gain },
        }),
        state.with_output_gain(gain) == (DacState {
            config: state.config,
            gain: GainConfig { ref_div: state.gain.ref_div, buff_gain: gain },
        }),
{
}

/// Every state can be reached from every other: four settings, one for each
/// field, lead from `from` to `to`.
pub proof fn lemma_every_state_is_reachable(from: DacState, to: DacState)
    ensures
        from.with_internal_reference(to.config.ref_pwdwn).with_power_state(
            to.config.dac_pwdwn,
        ).with_reference_divider(to.gain.ref_div).with_output_gain(to.gain.buff_gain) == to,
{
}

} // verus!

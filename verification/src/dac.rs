//! The controller: it keeps the shadow state and composes the frames that
//! the transport carries to the converter.

use crate::alarm::AlarmStatus;
use crate::command::Command;
use crate::error::{DacError, TransportError};
use crate::state::{
    flag, DacConfig, DacState, GainConfig, GainState, InternRefState, PowerState, RefDivState,
};
use vstd::arithmetic::power2::{lemma2_to64, lemma_pow2_pos, lemma_pow2_strictly_increases, pow2};
use vstd::bits::lemma_u16_shr_is_div;
use vstd::prelude::*;

verus! {

/// The frame that writes an output code: the data register's command byte,
/// then the code, high byte first.
pub open spec fn level_frame(level: u16) -> Seq<u8> {
    seq![Command::DACDATA.code(), (level / 256) as u8, (level % 256) as u8]
}

/// The frame that writes the config register.
pub open spec fn config_frame(config: DacConfig) -> Seq<u8> {
    seq![Command::CONFIG.code(), config.payload()[0], config.payload()[1]]
}

/// The frame that writes the gain register.
pub open spec fn gain_frame(gain: GainConfig) -> Seq<u8> {
    seq![Command::GAIN.code(), gain.payload()[0], gain.payload()[1]]
}

/// The frame that asks for the status register.
pub open spec fn status_frame() -> Seq<u8> {
    seq![Command::STATUS.code(), 0u8, 0u8]
}

/// What a controller is, to its callers.
pub struct DacView {
    /// The frame buffer.
    pub frame: Seq<u8>,
    /// The configuration last written.
    pub state: DacState,
}

/// The controller of a converter that takes output codes of `BITS` bits.
pub struct Dac<const BITS: u32> {
    data: [u8; 3],
    dac_state: DacState,
}

/// The 16-bit converter.
pub type Dac80501 = Dac<16>;

/// The 14-bit converter.
pub type Dac70501 = Dac<14>;

/// The 12-bit converter.
pub type Dac60501 = Dac<12>;

impl<const BITS: u32> View for Dac<BITS> {
    type V = DacView;

    closed spec fn view(&self) -> DacView {
        DacView { frame: self.data@, state: self.dac_state }
    }
}

impl<const BITS: u32> Dac<BITS> {
    /// Whether the converter takes `level`: whether it is below 2^`BITS`.
    pub open spec fn in_range(level: u16) -> bool {
        (level as nat) < pow2(BITS as nat)
    }

    /// A code is in range when it has no bit set at position `BITS` or
    /// above; with 16 bits or more, every code is.
    pub proof fn lemma_in_range_iff_no_high_bits(level: u16)
        ensures
            Self::in_range(level) <==> (level >> BITS) == 0,
            BITS >= 16 ==> Self::in_range(level),
    {
        let bits: u32 = BITS;
        if BITS < 16 {
            let limit = pow2(BITS as nat);
            lemma_pow2_pos(BITS as nat);
            lemma_u16_shr_is_div(level, BITS as u16);
            assert((level as nat / limit == 0) <==> (level as nat) < limit) by (nonlinear_arith)
                requires
                    limit > 0,
            ;
            assert(level >> bits == level >> (bits as u16)) by (bit_vector)
                requires
                    bits < 16,
            ;
        } else {
            lemma2_to64();
            if BITS > 16 {
                lemma_pow2_strictly_increases(16, BITS as nat);
            }
            assert(level >> bits == 0) by (bit_vector)
                requires
                    bits >= 16,
            ;
        }
    }

    /// A controller for a converter fresh out of reset.
    pub fn new() -> (dac: Self)
        ensures
            dac@ == (DacView { frame: seq![0u8, 0u8, 0u8], state: DacState::reset() }),
    {
        Dac { data: [0, 0, 0], dac_state: DacState::default() }
    }

    /// Tells whether the converter takes `level`.
    pub fn accepts(level: u16) -> (ok: bool)
        ensures
            ok == Self::in_range(level),
    {
        proof {
            Self::lemma_in_range_iff_no_high_bits(level);
        }
        if BITS < 16 {
            (level >> BITS) == 0
        } else {
            true
        }
    }

    /// Composes the frame that sets the output to `level`. A level that the
    /// converter does not take is refused, and nothing changes.
    pub fn set_output_level(&mut self, level: u16) -> (result: Result<[u8; 3], DacError>)
        ensures
            match result {
                Ok(frame) => {
                    &&& Self::in_range(level)
                    &&& frame@ == level_frame(level)
                    &&& final(self)@ == (DacView {
                        frame: level_frame(level),
                        state: old(self)@.state,
                    })
                },
                Err(error) => {
                    &&& !Self::in_range(level)
                    &&& error == DacError::ValueOverflow
                    &&& final(self)@ == old(self)@
                },
            },
    {
        if !Self::accepts(level) {
            return Err(DacError::ValueOverflow);
        }
        Ok(self.set_output_level_unchecked(level))
    }

    /// Composes the frame that sets the output to `level` without asking
    /// whether the converter takes it: for callers that have made sure of
    /// the range themselves.
    pub fn set_output_level_unchecked(&mut self, level: u16) -> (frame: [u8; 3])
        ensures
            frame@ == level_frame(level),
            final(self)@ == (DacView { frame: level_frame(level), state: old(self)@.state }),
    {
        self.data = [*Command::DACDATA, (level / 256) as u8, (level % 256) as u8];
        self.data
    }

    /// Records the new setting of the internal reference and composes the
    /// frame that writes the config register.
    pub fn set_internal_reference(&mut self, intern_ref: InternRefState) -> (frame: [u8; 3])
        ensures
            final(self)@.state == old(self)@.state.with_internal_reference(intern_ref),
            final(self)@.frame == frame@,
            frame@ == config_frame(final(self)@.state.config),
    {
        self.dac_state.config.ref_pwdwn = intern_ref;
        self.compose_config()
    }

    /// Records the new power state of the output and composes the frame
    /// that writes the config register.
    pub fn set_power_state(&mut self, state: PowerState) -> (frame: [u8; 3])
        ensures
            final(self)@.state == old(self)@.state.with_power_state(state),
            final(self)@.frame == frame@,
            frame@ == config_frame(final(self)@.state.config),
    {
        self.dac_state.config.dac_pwdwn = state;
        self.compose_config()
    }

    /// Records the new setting of the reference divider and composes the
    /// frame that writes the gain register.
    pub fn set_reference_divider(&mut self, ref_div: RefDivState) -> (frame: [u8; 3])
        ensures
            final(self)@.state == old(self)@.state.with_reference_divider(ref_div),
            final(self)@.frame == frame@,
            frame@ == gain_frame(final(self)@.state.gain),
    {
        self.dac_state.gain.ref_div = ref_div;
        self.compose_gain()
    }

    /// Records the new gain of the output buffer and composes the frame
    /// that writes the gain register.
    pub fn set_output_gain(&mut self, gain: GainState) -> (frame: [u8; 3])
        ensures
            final(self)@.state == old(self)@.state.with_output_gain(gain),
            final(self)@.frame == frame@,
            frame@ == gain_frame(final(self)@.state.gain),
    {
        self.dac_state.gain.buff_gain = gain;
        self.compose_gain()
    }

    /// Composes the frame that asks for the status register. The transport
    /// is to write it and to read the response over it.
    pub fn ref_alarm_request(&mut self) -> (frame: [u8; 3])
        ensures
            frame@ == status_frame(),
            final(self)@ == (DacView { frame: status_frame(), state: old(self)@.state }),
    {
        self.data = [*Command::STATUS, 0, 0];
        self.data
    }

    /// Takes what the transport made of the status request: the response,
    /// which replaces the frame buffer and is decoded, or a failure.
    pub fn ref_alarm_status(
        &mut self,
        outcome: Result<[u8; 3], TransportError>,
    ) -> (result: Result<AlarmStatus, DacError>)
        ensures
            match outcome {
                Ok(response) => {
                    &&& result == Ok::<AlarmStatus, DacError>(AlarmStatus::from_byte(response[2]))
                    &&& final(self)@ == (DacView { frame: response@, state: old(self)@.state })
                },
                Err(_) => {
                    &&& result == Err::<AlarmStatus, DacError>(DacError::SpiError)
                    &&& final(self)@ == old(self)@
                },
            },
    {
        match outcome {
            Ok(response) => {
                self.data = response;
                Ok(AlarmStatus::from_byte(self.data[2]))
            },
            Err(fault) => Err(DacError::from(fault)),
        }
    }

    /// The frame buffer: the frame composed last, or the last response.
    pub fn frame(&self) -> (frame: [u8; 3])
        ensures
            frame@ == self@.frame,
    {
        self.data
    }

    /// The configuration last written.
    pub fn state(&self) -> (state: DacState)
        ensures
            state == self@.state,
    {
        self.dac_state
    }

    fn compose_config(&mut self) -> (frame: [u8; 3])
        ensures
            frame@ == config_frame(old(self)@.state.config),
            final(self)@ == (DacView { frame: frame@, state: old(self)@.state }),
    {
        let payload: [u8; 2] = self.dac_state.config.to_array();
        self.data = [*Command::CONFIG, payload[0], payload[1]];
        self.data
    }

    fn compose_gain(&mut self) -> (frame: [u8; 3])
        ensures
            frame@ == gain_frame(old(self)@.state.gain),
            final(self)@ == (DacView { frame: frame@, state: old(self)@.state }),
    {
        let payload: [u8; 2] = self.dac_state.gain.to_array();
        self.data = [*Command::GAIN, payload[0], payload[1]];
        self.data
    }
}

/// The three converters take the codes below 2^16, 2^14 and 2^12: the
/// 16-bit one takes every code.
pub proof fn lemma_resolutions()
    ensures
        forall|level: u16| #[trigger] Dac80501::in_range(level),
        forall|level: u16| #[trigger] Dac70501::in_range(level) <==> level < 0x4000,
        forall|level: u16| #[trigger] Dac60501::in_range(level) <==> level < 0x1000,
{
    lemma2_to64();
}

/// A data frame holds the command byte of the data register and, high byte
/// first, the code it was made from.
pub proof fn lemma_level_frame_holds_level(level: u16)
    ensures
        level_frame(level).len() == 3,
        level_frame(level)[0] == 0x08,
        level_frame(level)[1] * 256 + level_frame(level)[2] == level,
{
}

/// Two codes with the same data frame are the same code.
pub proof fn lemma_level_frame_injective(a: u16, b: u16)
    requires
        level_frame(a) == level_frame(b),
    ensures
        a == b,
{
    lemma_level_frame_holds_level(a);
    lemma_level_frame_holds_level(b);
}

/// A frame for the config or the gain register carries both flags of its
/// register as the state holds them: a flag set by an earlier call is sent
/// again with every later frame for that register.
pub proof fn lemma_frames_carry_state(state: DacState)
    ensures
        config_frame(state.config) == seq![
            0x03u8,
            flag(state.config.ref_pwdwn == InternRefState::Disable),
            flag(state.config.dac_pwdwn == PowerState::Off),
        ],
        gain_frame(state.gain) == seq![
            0x04u8,
            flag(state.gain.ref_div == RefDivState::Half),
            flag(state.gain.buff_gain == GainState::TwoX),
        ],
{
}

/// Setting one flag of a register after the other sends both: the frame of
/// the second call holds the flag that the first call set.
pub proof fn lemma_second_frame_holds_first_setting(
    state: DacState,
    intern_ref: InternRefState,
    power: PowerState,
    ref_div: RefDivState,
    gain: GainState,
)
    ensures
        config_frame(state.with_power_state(power).with_internal_reference(intern_ref).config)
            == seq![
            0x03u8,
            flag(intern_ref == InternRefState::Disable),
            flag(power == PowerState::Off),
        ],
        config_frame(state.with_internal_reference(intern_ref).with_power_state(power).config)
            == seq![
            0x03u8,
            flag(intern_ref == InternRefState::Disable),
            flag(power == PowerState::Off),
        ],
        gain_frame(state.with_output_gain(gain).with_reference_divider(ref_div).gain) == seq![
            0x04u8,
            flag(ref_div == RefDivState::Half),
            flag(gain == GainState::TwoX),
        ],
        gain_frame(state.with_reference_divider(ref_div).with_output_gain(gain).gain) == seq![
            0x04u8,
            flag(ref_div == RefDivState::Half),
            flag(gain == GainState::TwoX),
        ],
{
}

/// What a setter comes to once the transport has reported on the write of
/// its frame: success, or the one error that stands for every failure.
pub fn finish_write(outcome: Result<(), TransportError>) -> (result: Result<(), DacError>)
    ensures
        result == match outcome {
            Ok(_) => Ok::<(), DacError>(()),
            Err(_) => Err::<(), DacError>(DacError::SpiError),
        },
{
    match outcome {
        Ok(()) => Ok(()),
        Err(fault) => Err(DacError::from(fault)),
    }
}

} // verus!

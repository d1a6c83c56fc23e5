//! The audio settings of a chat.

use crate::text::{parse_u32, same_text};
use vstd::prelude::*;

verus! {

use crate::text::{
    digit,
    digits,
    digits_of,
    digits_value,
    law_decimal_reads_back,
    law_large_numbers_are_refused,
    law_only_digits_spell_a_number,
    number_up_to,
    unsigned_part,
};

/// The channels of an audio stream.
#[derive(Debug, Clone, Copy, PartialEq, Eq, Structural)]
pub enum Channels {
    Mono,
    Stereo,
}

/// The settings of a chat.
#[derive(Debug, Clone, Copy, PartialEq, Eq, Structural)]
pub struct Config {
    /// The pause between two heartbeats, in milliseconds.
    pub heartbeat_freq: u64,
    /// The channels that are recorded and played.
    pub channels: Channels,
    /// Samples per second and channel.
    pub sampling_rate: u32,
    /// The length of an audio frame, in microseconds.
    pub frame_length: u64,
}

/// The setting that could not be read.
#[derive(Debug, Clone, Copy, PartialEq, Eq, Structural)]
pub enum ConfigError {
    /// The channels are neither `mono` nor `stereo`.
    AudioChannels,
    /// The sampling rate is no 32-bit number.
    AudioRate,
    /// The frame length is neither `2.5` nor a 32-bit number.
    FrameLength,
}

/// The channels that `name` stands for.
pub open spec fn channels_named(name: Seq<char>) -> Option<Channels> {
    if name == "mono"@ {
        Some(Channels::Mono)
    } else if name == "stereo"@ {
        Some(Channels::Stereo)
    } else {
        None
    }
}

/// The microseconds of the frame length that `s` spells in milliseconds: 2.5, or
/// a whole number of them.
pub open spec fn frame_micros(s: Seq<char>) -> Option<nat> {
    if s == "2.5"@ {
        Some(2500)
    } else {
        match number_up_to(s, u32::MAX as nat) {
            Some(millis) => Some(1000 * millis),
            None => None,
        }
    }
}

/// The settings that the three audio options spell. The heartbeat is sent once
/// a second.
pub open spec fn config_from(
    audio_ch: Seq<char>,
    audio_rate: Seq<char>,
    frame_length: Seq<char>,
) -> Result<Config, ConfigError> {
    match (
        channels_named(audio_ch),
        number_up_to(audio_rate, u32::MAX as nat),
        frame_micros(frame_length),
    ) {
        (None, _, _) => Err(ConfigError::AudioChannels),
        (_, None, _) => Err(ConfigError::AudioRate),
        (_, _, None) => Err(ConfigError::FrameLength),
        (Some(channels), Some(rate), Some(length)) => Ok(
            Config {
                heartbeat_freq: 1000,
                channels,
                sampling_rate: rate as u32,
                frame_length: length as u64,
            },
        ),
    }
}

/// The number of channels.
pub open spec fn channel_count(channels: Channels) -> nat {
    match channels {
        Channels::Mono => 1,
        Channels::Stereo => 2,
    }
}

/// Reads the name of a channel layout.
pub fn parse_channels(name: &str) -> (r: Option<Channels>)
    ensures
        r == channels_named(name@),
        r == Some(Channels::Mono) <==> name@ == "mono"@,
        r == Some(Channels::Stereo) <==> name@ == "stereo"@,
{
    proof {
        law_channels_have_their_names();
    }
    if same_text(name, "mono") {
        Some(Channels::Mono)
    } else if same_text(name, "stereo") {
        Some(Channels::Stereo)
    } else {
        None
    }
}

/// Reads a frame length in milliseconds, and gives it in microseconds.
pub fn parse_frame_length(s: &str) -> (r: Option<u64>)
    ensures
        r matches Some(n) ==> frame_micros(s@) == Some(n as nat),
        r is None ==> frame_micros(s@) is None,
        s@ == "2.5"@ ==> r == Some(2500u64),
        s@ != "2.5"@ ==> match number_up_to(s@, u32::MAX as nat) {
            Some(millis) => r matches Some(n) && n == 1000 * millis,
            None => r is None,
        },
{
    if same_text(s, "2.5") {
        Some(2500)
    } else {
        match parse_u32(s) {
            Some(millis) => Some(1000 * millis as u64),
            None => None,
        }
    }
}

impl Config {
    /// The samples that each channel of one frame holds.
    pub open spec fn frame_samples(&self) -> nat {
        self.sampling_rate as nat * self.frame_length as nat / 1_000_000
    }

    /// Whether the sampling rate times the frame length in milliseconds is at
    /// most the largest 32-bit number.
    pub open spec fn in_range(&self) -> bool {
        self.sampling_rate as nat * self.frame_length as nat <= 1000 * u32::MAX as nat
    }

    /// The samples of one frame, all channels together.
    pub open spec fn all_samples(&self) -> nat {
        channel_count(self.channels) * self.frame_samples()
    }

    /// Whether the length of a frame can be computed.
    pub fn is_in_range(&self) -> (r: bool)
        ensures
            r == self.in_range(),
            r == (self.sampling_rate * self.frame_length <= 4_294_967_295_000),
    {
        assert(self.sampling_rate as nat * self.frame_length as nat <= 0xffff_ffff
            * 0xffff_ffff_ffff_ffff) by (nonlinear_arith)
            requires
                self.sampling_rate <= 0xffff_ffff,
                self.frame_length <= 0xffff_ffff_ffff_ffff,
        ;
        self.sampling_rate as u128 * self.frame_length as u128 <= 4_294_967_295_000
    }

    /// Reads the three audio options.
    pub fn from_options(audio_ch: &str, audio_rate: &str, frame_length: &str) -> (r: Result<
        Config,
        ConfigError,
    >)
        ensures
            r == config_from(audio_ch@, audio_rate@, frame_length@),
            r is Ok <==> {
                &&& audio_ch@ == "mono"@ || audio_ch@ == "stereo"@
                &&& number_up_to(audio_rate@, u32::MAX as nat) is Some
                &&& frame_length@ == "2.5"@ || number_up_to(frame_length@, u32::MAX as nat) is Some
            },
            r matches Ok(config) ==> {
                &&& config.heartbeat_freq == 1000
                &&& config.channels is Mono <==> audio_ch@ == "mono"@
                &&& config.channels is Stereo <==> audio_ch@ == "stereo"@
                &&& number_up_to(audio_rate@, u32::MAX as nat) == Some(config.sampling_rate as nat)
                &&& frame_length@ == "2.5"@ ==> config.frame_length == 2500
                &&& frame_length@ != "2.5"@ ==> {
                    &&& number_up_to(frame_length@, u32::MAX as nat) matches Some(millis)
                    &&& config.frame_length == 1000 * millis
                }
            },
            r == Err::<Config, ConfigError>(ConfigError::AudioChannels) <==> audio_ch@ != "mono"@
                && audio_ch@ != "stereo"@,
            r == Err::<Config, ConfigError>(ConfigError::AudioRate) <==> (audio_ch@ == "mono"@
                || audio_ch@ == "stereo"@) && number_up_to(audio_rate@, u32::MAX as nat) is None,
    {
        proof {
            law_channels_have_their_names();
        }
        let channels = match parse_channels(audio_ch) {
            Some(channels) => channels,
            None => return Err(ConfigError::AudioChannels),
        };
        let sampling_rate: u32 = match parse_u32(audio_rate) {
            Some(rate) => rate,
            None => return Err(ConfigError::AudioRate),
        };
        let frame_length: u64 = match parse_frame_length(frame_length) {
            Some(length) => length,
            None => return Err(ConfigError::FrameLength),
        };
        Ok(Config { heartbeat_freq: 1000, channels, sampling_rate, frame_length })
    }

    /// The number of channels.
    pub fn ch_num(&self) -> (r: u8)
        ensures
            r == channel_count(self.channels),
            self.channels is Mono ==> r == 1,
            self.channels is Stereo ==> r == 2,
    {
        match self.channels {
            Channels::Mono => 1,
            Channels::Stereo => 2,
        }
    }

    /// The number of samples in one frame, all channels together.
    pub fn samples_per_frame(&self) -> (r: usize)
        requires
            self.in_range(),
        ensures
            r == self.all_samples(),
            self.channels is Mono ==> r == self.sampling_rate * self.frame_length / 1_000_000,
            self.channels is Stereo ==> r == 2 * (self.sampling_rate * self.frame_length
                / 1_000_000),
    {
        let ch: usize = self.ch_num() as usize;
        let samples: usize = (self.sampling_rate as u64 * self.frame_length / 1_000_000) as usize;
        assert(ch * samples <= 2 * samples) by (nonlinear_arith)
            requires
                ch <= 2,
        ;
        ch * samples
    }

    /// The number of bytes in one frame of 16-bit samples, which is also the
    /// room that the encoder is given for it.
    pub fn frame_bytes(&self) -> (r: usize)
        requires
            self.in_range(),
        ensures
            r == 2 * self.all_samples(),
            self.channels is Mono ==> r == 2 * (self.sampling_rate * self.frame_length
                / 1_000_000),
            self.channels is Stereo ==> r == 4 * (self.sampling_rate * self.frame_length
                / 1_000_000),
    {
        let samples: usize = self.samples_per_frame();
        assert(samples <= 2 * self.frame_samples()) by (nonlinear_arith)
            requires
                samples == channel_count(self.channels) * self.frame_samples(),
                channel_count(self.channels) <= 2,
        ;
        samples * 2
    }
}

/// The channel layouts that can be chosen.
pub open spec fn channel_options() -> Seq<Seq<char>> {
    seq!["mono"@, "stereo"@]
}

/// The sampling rates that can be chosen.
pub open spec fn rate_options() -> Seq<Seq<char>> {
    seq!["8000"@, "12000"@, "16000"@, "24000"@, "48000"@]
}

/// The frame lengths that can be chosen.
pub open spec fn length_options() -> Seq<Seq<char>> {
    seq!["2.5"@, "5"@, "10"@, "20"@, "40"@, "60"@]
}

/// The channel layouts that can be chosen.
pub fn audio_channels() -> (r: Vec<&'static str>)
    ensures
        r@.map_values(|option: &'static str| option@) == channel_options(),
        r@.len() == 2,
        r@[0]@ == "mono"@,
        r@[1]@ == "stereo"@,
{
    let options: Vec<&'static str> = vec!["mono", "stereo"];
    assert(options@.map_values(|option: &'static str| option@) =~= channel_options());
    options
}

/// The sampling rates that can be chosen.
pub fn audio_rates() -> (r: Vec<&'static str>)
    ensures
        r@.map_values(|option: &'static str| option@) == rate_options(),
        r@.len() == 5,
        r@[0]@ == "8000"@,
        r@[1]@ == "12000"@,
        r@[2]@ == "16000"@,
        r@[3]@ == "24000"@,
        r@[4]@ == "48000"@,
{
    let options: Vec<&'static str> = vec!["8000", "12000", "16000", "24000", "48000"];
    assert(options@.map_values(|option: &'static str| option@) =~= rate_options());
    options
}

/// The frame lengths that can be chosen.
pub fn frame_lengths() -> (r: Vec<&'static str>)
    ensures
        r@.map_values(|option: &'static str| option@) == length_options(),
        r@.len() == 6,
        r@[0]@ == "2.5"@,
        r@[1]@ == "5"@,
        r@[2]@ == "10"@,
        r@[3]@ == "20"@,
        r@[4]@ == "40"@,
        r@[5]@ == "60"@,
{
    let options: Vec<&'static str> = vec!["2.5", "5", "10", "20", "40", "60"];
    assert(options@.map_values(|option: &'static str| option@) =~= length_options());
    options
}

proof fn lemma_number(s: Seq<char>)
    requires
        0 < s.len() <= 5,
        digits(s),
    ensures
        s.len() == 1 ==> digits_value(s) == s[0] as int - 48,
        s.len() == 2 ==> digits_value(s) == 10 * (s[0] as int - 48) + (s[1] as int - 48),
        s.len() == 4 ==> digits_value(s) == 1000 * (s[0] as int - 48) + 100 * (s[1] as int - 48)
            + 10 * (s[2] as int - 48) + (s[3] as int - 48),
        s.len() == 5 ==> digits_value(s) == 10000 * (s[0] as int - 48) + 1000 * (s[1] as int - 48)
            + 100 * (s[2] as int - 48) + 10 * (s[3] as int - 48) + (s[4] as int - 48),
        unsigned_part(s) == s,
{
    assert forall|i: int| 0 <= i < s.len() implies 48 <= #[trigger] s[i] as int <= 57 by {
        assert(digit(s[i]));
    }
    assert(digit(s[0]));
    reveal_with_fuel(digits_value, 6);
}

proof fn lemma_rate_options(rate: Seq<char>) -> (h: nat)
    requires
        rate_options().contains(rate),
    ensures
        4 <= h <= 24,
        number_up_to(rate, u32::MAX as nat) == Some((2000 * h) as nat),
{
    reveal_strlit("8000");
    reveal_strlit("12000");
    reveal_strlit("16000");
    reveal_strlit("24000");
    reveal_strlit("48000");
    lemma_number(rate);
    digits_value(rate) / 2000
}

proof fn lemma_length_options(length: Seq<char>) -> (j: nat)
    requires
        length_options().contains(length),
    ensures
        5 <= j <= 120,
        frame_micros(length) == Some((500 * j) as nat),
{
    if length == "2.5"@ {
        5
    } else {
        reveal_strlit("5");
        reveal_strlit("10");
        reveal_strlit("20");
        reveal_strlit("40");
        reveal_strlit("60");
        lemma_number(length);
        2 * digits_value(length)
    }
}

/// Every choice of options gives settings that are in range and under which a
/// frame holds a whole number of samples: none is lost to rounding.
pub proof fn law_offered_options_are_usable(
    audio_ch: Seq<char>,
    audio_rate: Seq<char>,
    frame_length: Seq<char>,
)
    requires
        channel_options().contains(audio_ch),
        rate_options().contains(audio_rate),
        length_options().contains(frame_length),
    ensures
        config_from(audio_ch, audio_rate, frame_length) matches Ok(config) && config.in_range()
            && config.frame_samples() > 0 && config.frame_samples() * 1_000_000
            == config.sampling_rate as nat * config.frame_length as nat,
{
    let h = lemma_rate_options(audio_rate);
    let j = lemma_length_options(frame_length);
    assert((2000 * h) * (500 * j) == 1_000_000 * (h * j) && 20 <= h * j <= 24 * 120)
        by (nonlinear_arith)
        requires
            4 <= h <= 24,
            5 <= j <= 120,
    ;
}

/// Mono, of one channel, and stereo, of two, go by their names and by no other.
pub proof fn law_channels_have_their_names()
    ensures
        forall|name: Seq<char>|
            #![trigger channels_named(name)]
            {
                &&& channels_named(name) == Some(Channels::Mono) <==> name == "mono"@
                &&& channels_named(name) == Some(Channels::Stereo) <==> name == "stereo"@
            },
        "mono"@ != "stereo"@,
        channel_count(Channels::Mono) == 1,
        channel_count(Channels::Stereo) == 2,
{
    reveal_strlit("mono");
    reveal_strlit("stereo");
    assert("mono"@.len() == 4 && "stereo"@.len() == 6);
}

/// A frame length that is written as a whole number of milliseconds has a
/// thousand times as many microseconds, and 2.5 milliseconds have 2500.
pub proof fn law_frame_length_is_the_one_spelt(millis: nat)
    ensures
        millis <= u32::MAX ==> frame_micros(digits_of(millis)) == Some(1000 * millis),
        millis > u32::MAX ==> frame_micros(digits_of(millis)) is None,
        frame_micros("2.5"@) == Some(2500nat),
{
    reveal_strlit("2.5");
    assert("2.5"@[1] == '.');
    law_decimal_reads_back(millis, millis);
    law_only_digits_spell_a_number("2.5"@, millis, 1);
    if millis <= u32::MAX {
        law_decimal_reads_back(millis, u32::MAX as nat);
    } else {
        law_large_numbers_are_refused(millis, u32::MAX as nat);
    }
}

/// The settings are the ones asked for, whatever they are: the channels that are
/// named, the sampling rate and the milliseconds that are written down, and one
/// heartbeat a second.
pub proof fn law_settings_are_the_ones_asked_for(audio_ch: Seq<char>, rate: nat, millis: nat)
    requires
        audio_ch == "mono"@ || audio_ch == "stereo"@,
        rate <= u32::MAX,
        millis <= u32::MAX,
    ensures
        config_from(audio_ch, digits_of(rate), digits_of(millis)) matches Ok(config) && {
            &&& config.heartbeat_freq == 1000
            &&& config.channels is Mono <==> audio_ch == "mono"@
            &&& config.channels is Stereo <==> audio_ch == "stereo"@
            &&& config.sampling_rate == rate
            &&& config.frame_length == 1000 * millis
        },
        config_from(audio_ch, digits_of(rate), "2.5"@) matches Ok(config) && {
            &&& config.heartbeat_freq == 1000
            &&& config.channels is Mono <==> audio_ch == "mono"@
            &&& config.channels is Stereo <==> audio_ch == "stereo"@
            &&& config.sampling_rate == rate
            &&& config.frame_length == 2500
        },
{
    law_channels_have_their_names();
    law_decimal_reads_back(rate, u32::MAX as nat);
    law_frame_length_is_the_one_spelt(millis);
}

/// Each choice that is offered gives the settings that it names.
pub proof fn law_offered_options_mean_what_they_say(
    audio_ch: Seq<char>,
    audio_rate: Seq<char>,
    frame_length: Seq<char>,
)
    requires
        audio_ch == "mono"@ || audio_ch == "stereo"@,
        audio_rate == "8000"@ || audio_rate == "12000"@ || audio_rate == "16000"@ || audio_rate
            == "24000"@ || audio_rate == "48000"@,
        frame_length == "2.5"@ || frame_length == "5"@ || frame_length == "10"@ || frame_length
            == "20"@ || frame_length == "40"@ || frame_length == "60"@,
    ensures
        config_from(audio_ch, audio_rate, frame_length) matches Ok(config) && {
            &&& config.heartbeat_freq == 1000
            &&& audio_ch == "mono"@ ==> config.channels is Mono
            &&& audio_ch == "stereo"@ ==> config.channels is Stereo
            &&& audio_rate == "8000"@ ==> config.sampling_rate == 8000
            &&& audio_rate == "12000"@ ==> config.sampling_rate == 12000
            &&& audio_rate == "16000"@ ==> config.sampling_rate == 16000
            &&& audio_rate == "24000"@ ==> config.sampling_rate == 24000
            &&& audio_rate == "48000"@ ==> config.sampling_rate == 48000
            &&& frame_length == "2.5"@ ==> config.frame_length == 2500
            &&& frame_length == "5"@ ==> config.frame_length == 5000
            &&& frame_length == "10"@ ==> config.frame_length == 10000
            &&& frame_length == "20"@ ==> config.frame_length == 20000
            &&& frame_length == "40"@ ==> config.frame_length == 40000
            &&& frame_length == "60"@ ==> config.frame_length == 60000
        },
{
    reveal_strlit("8000");
    reveal_strlit("12000");
    reveal_strlit("16000");
    reveal_strlit("24000");
    reveal_strlit("48000");
    reveal_strlit("2.5");
    reveal_strlit("5");
    reveal_strlit("10");
    reveal_strlit("20");
    reveal_strlit("40");
    reveal_strlit("60");
    law_channels_have_their_names();
    assert("2.5"@.len() == 3);
    assert(digits(audio_rate));
    lemma_number(audio_rate);
    if frame_length != "2.5"@ {
        assert(digits(frame_length));
        lemma_number(frame_length);
    }
}

/// Each setting depends on its own option alone: two requests that share an
/// option share the setting, whatever else they ask for.
pub proof fn law_settings_do_not_depend_on_each_other(
    ch: Seq<char>,
    rate: Seq<char>,
    length: Seq<char>,
    other_ch: Seq<char>,
    other_rate: Seq<char>,
    other_length: Seq<char>,
)
    requires
        config_from(ch, rate, length) is Ok,
        config_from(other_ch, other_rate, other_length) is Ok,
    ensures
        config_from(ch, rate, length)->Ok_0.channels == config_from(
            other_ch,
            other_rate,
            other_length,
        )->Ok_0.channels <==> ch == other_ch,
        rate == other_rate ==> config_from(ch, rate, length)->Ok_0.sampling_rate == config_from(
            other_ch,
            other_rate,
            other_length,
        )->Ok_0.sampling_rate,
        length == other_length ==> config_from(ch, rate, length)->Ok_0.frame_length == config_from(
            other_ch,
            other_rate,
            other_length,
        )->Ok_0.frame_length,
        config_from(ch, rate, length)->Ok_0.heartbeat_freq == config_from(
            other_ch,
            other_rate,
            other_length,
        )->Ok_0.heartbeat_freq,
        config_from(ch, other_rate, other_length) is Ok,
        config_from(ch, rate, other_length) is Ok,
{
    law_channels_have_their_names();
}

/// The first option that cannot be read is the one that is complained about.
pub proof fn law_unreadable_options_are_refused(
    audio_ch: Seq<char>,
    audio_rate: Seq<char>,
    frame_length: Seq<char>,
)
    ensures
        audio_ch != "mono"@ && audio_ch != "stereo"@ ==> config_from(
            audio_ch,
            audio_rate,
            frame_length,
        ) == Err::<Config, ConfigError>(ConfigError::AudioChannels),
        (audio_ch == "mono"@ || audio_ch == "stereo"@) && number_up_to(
            audio_rate,
            u32::MAX as nat,
        ) is None ==> config_from(audio_ch, audio_rate, frame_length) == Err::<Config, ConfigError>(
            ConfigError::AudioRate,
        ),
        (audio_ch == "mono"@ || audio_ch == "stereo"@) && number_up_to(
            audio_rate,
            u32::MAX as nat,
        ) is Some && frame_length != "2.5"@ && number_up_to(frame_length, u32::MAX as nat) is None
            ==> config_from(audio_ch, audio_rate, frame_length) == Err::<Config, ConfigError>(
            ConfigError::FrameLength,
        ),
{
    law_channels_have_their_names();
}

/// A frame of so many milliseconds holds that many thousandths of a second's
/// samples, rounded down, and in stereo twice as many.
pub proof fn law_frame_holds_its_share_of_a_second(config: Config, millis: nat)
    requires
        config.frame_length == 1000 * millis,
    ensures
        config.frame_samples() == config.sampling_rate * millis / 1000,
        config.channels is Mono ==> config.all_samples() == config.sampling_rate * millis / 1000,
        config.channels is Stereo ==> config.all_samples() == 2 * (config.sampling_rate * millis
            / 1000),
        config.in_range() <==> config.sampling_rate * millis <= u32::MAX,
{
    let rate = config.sampling_rate as int;
    assert(rate * (1000 * millis) == 1000 * (rate * millis)) by (nonlinear_arith);
    assert(rate * config.frame_length == 1000 * (rate * millis));
}

/// The samples of a frame are as many as fit in its length, whatever it is.
pub proof fn law_frame_is_as_full_as_it_can_be(config: Config)
    ensures
        config.frame_samples() * 1_000_000 <= config.sampling_rate * config.frame_length,
        config.sampling_rate * config.frame_length < (config.frame_samples() + 1) * 1_000_000,
        config.channels is Mono ==> config.all_samples() == config.frame_samples(),
        config.channels is Stereo ==> config.all_samples() == config.frame_samples()
            + config.frame_samples(),
        config.in_range() <==> config.sampling_rate * config.frame_length <= 4_294_967_295_000,
{
}

}

//! The output adapter: its playback lifecycle and the layout of the frames
//! that its realtime callback writes.
use crate::queue::{silence, SampleConsumer, StereoSample, SILENT_BITS};
use vstd::arithmetic::div_mod::{
    lemma_fundamental_div_mod_converse_div, lemma_fundamental_div_mod_converse_mod,
};
use vstd::prelude::*;

verus! {

/// Playback lifecycle of an output adapter.
#[derive(Clone, Copy, Debug, PartialEq, Eq, Structural)]
pub enum AudioOutputState {
    Init,
    Ready,
    Playing,
    Paused,
}

/// What the hardware stream is asked to do by a lifecycle transition.
#[derive(Clone, Copy, Debug, PartialEq, Eq, Structural)]
pub enum StreamAction {
    Play,
    Pause,
}

/// A failure reported by the audio device.
#[derive(Clone, Copy, Debug, PartialEq, Eq, Structural)]
pub enum DeviceError {
    NoDevice,
    UnsupportedConfig,
    BuildFailed,
    PlayFailed,
    PauseFailed,
    /// A stream action was asked of an adapter that holds no stream.
    StreamMissing,
}

/// Why `setup` did not bring the adapter to `Ready`.
#[derive(Clone, Copy, Debug, PartialEq, Eq, Structural)]
pub enum SetupError {
    /// The adapter already left `Init`: a stream exists.
    AlreadySetUp,
    /// Building the stream failed on the device.
    Device(DeviceError),
}

/// The shape of an output stream: interleaved channels, frames per second,
/// and frames per hardware buffer.
#[derive(Clone, Copy, Debug, PartialEq, Eq, Structural)]
pub struct StreamConfig {
    pub channels: u16,
    pub sample_rate: u32,
    pub buffer_size: u32,
}

impl StreamConfig {
    /// The same channel layout with the given timing.
    pub fn with_timing(self, buffer_size: u32, sample_rate: u32) -> (r: StreamConfig)
        ensures
            r == (StreamConfig { channels: self.channels, sample_rate, buffer_size }),
    {
        StreamConfig { channels: self.channels, sample_rate, buffer_size }
    }
}

/// State after `setup` has built a stream.
pub open spec fn setup_next(s: AudioOutputState) -> AudioOutputState {
    match s {
        AudioOutputState::Init => AudioOutputState::Ready,
        other => other,
    }
}

/// The stream action that `play` asks for in state `s`.
pub open spec fn play_request(s: AudioOutputState) -> Option<StreamAction> {
    match s {
        AudioOutputState::Init => None,
        _ => Some(StreamAction::Play),
    }
}

/// State after `play` in state `s`, once its stream action succeeded.
pub open spec fn play_next(s: AudioOutputState) -> AudioOutputState {
    match s {
        AudioOutputState::Init => AudioOutputState::Init,
        _ => AudioOutputState::Playing,
    }
}

/// The stream action that `pause` asks for in state `s`.
pub open spec fn pause_request(s: AudioOutputState) -> Option<StreamAction> {
    match s {
        AudioOutputState::Playing => Some(StreamAction::Pause),
        _ => None,
    }
}

/// State after `pause` in state `s`, once its stream action succeeded.
pub open spec fn pause_next(s: AudioOutputState) -> AudioOutputState {
    match s {
        AudioOutputState::Playing => AudioOutputState::Paused,
        other => other,
    }
}

/// The lifecycle of an output adapter. The hardware stream is driven by the
/// caller: each transition first says which device work it needs
/// (`needs_setup`, `play_request`, `pause_request`), and the caller then
/// hands the outcome of that work to the transition itself. A failed device
/// step leaves the state as it was and is passed back to the caller.
pub struct AudioOutput {
    pub state: AudioOutputState,
    /// The device's own default configuration.
    pub supported_config: StreamConfig,
    /// The configuration the stream was built with, once it exists.
    pub config: Option<StreamConfig>,
}

impl AudioOutput {
    /// An adapter for a device whose default configuration is
    /// `supported_config`, before any stream is built.
    pub fn new(supported_config: StreamConfig) -> (r: AudioOutput)
        ensures
            r.state == AudioOutputState::Init,
            r.supported_config == supported_config,
            r.config is None,
    {
        AudioOutput { state: AudioOutputState::Init, supported_config, config: None }
    }

    /// Whether `setup` would build a stream (only from `Init`).
    pub fn needs_setup(&self) -> (r: bool)
        ensures
            r == (self.state == AudioOutputState::Init),
    {
        matches!(self.state, AudioOutputState::Init)
    }

    /// Records the outcome of building the stream with `config`. Accepted
    /// only once, from `Init`.
    pub fn setup(&mut self, config: StreamConfig, built: Result<(), DeviceError>) -> (r: Result<
        (),
        SetupError,
    >)
        ensures
            old(self).state != AudioOutputState::Init ==> r == Err::<(), SetupError>(
                SetupError::AlreadySetUp,
            ) && *final(self) == *old(self),
            old(self).state == AudioOutputState::Init ==> match built {
                Ok(()) => {
                    &&& r is Ok
                    &&& final(self).state == setup_next(old(self).state)
                    &&& final(self).config == Some(config)
                    &&& final(self).supported_config == old(self).supported_config
                },
                Err(e) => r == Err::<(), SetupError>(SetupError::Device(e)) && *final(self)
                    == *old(self),
            },
    {
        match self.state {
            AudioOutputState::Init => match built {
                Ok(()) => {
                    self.state = AudioOutputState::Ready;
                    self.config = Some(config);
                    Ok(())
                },
                Err(e) => Err(SetupError::Device(e)),
            },
            _ => Err(SetupError::AlreadySetUp),
        }
    }

    /// The stream action that `play` needs: none before a stream exists.
    pub fn play_request(&self) -> (r: Option<StreamAction>)
        ensures
            r == play_request(self.state),
    {
        match self.state {
            AudioOutputState::Init => None,
            _ => Some(StreamAction::Play),
        }
    }

    /// Starts or resumes playback, given the outcome of the stream action
    /// that `play_request` asked for (`started` is ignored when it asked
    /// for none).
    pub fn play(&mut self, started: Result<(), DeviceError>) -> (r: Result<(), DeviceError>)
        ensures
            play_request(old(self).state) is None ==> r is Ok && *final(self) == *old(self),
            play_request(old(self).state) is Some ==> match started {
                Ok(()) => {
                    &&& r is Ok
                    &&& final(self).state == play_next(old(self).state)
                    &&& final(self).config == old(self).config
                    &&& final(self).supported_config == old(self).supported_config
                },
                Err(e) => r == Err::<(), DeviceError>(e) && *final(self) == *old(self),
            },
    {
        match self.state {
            AudioOutputState::Init => Ok(()),
            _ => match started {
                Ok(()) => {
                    self.state = AudioOutputState::Playing;
                    Ok(())
                },
                Err(e) => Err(e),
            },
        }
    }

    /// The stream action that `pause` needs: one only while playing.
    pub fn pause_request(&self) -> (r: Option<StreamAction>)
        ensures
            r == pause_request(self.state),
    {
        match self.state {
            AudioOutputState::Playing => Some(StreamAction::Pause),
            _ => None,
        }
    }

    /// Pauses playback, given the outcome of the stream action that
    /// `pause_request` asked for (`stopped` is ignored when it asked for
    /// none).
    pub fn pause(&mut self, stopped: Result<(), DeviceError>) -> (r: Result<(), DeviceError>)
        ensures
            pause_request(old(self).state) is None ==> r is Ok && *final(self) == *old(self),
            pause_request(old(self).state) is Some ==> match stopped {
                Ok(()) => {
                    &&& r is Ok
                    &&& final(self).state == pause_next(old(self).state)
                    &&& final(self).config == old(self).config
                    &&& final(self).supported_config == old(self).supported_config
                },
                Err(e) => r == Err::<(), DeviceError>(e) && *final(self) == *old(self),
            },
    {
        match self.state {
            AudioOutputState::Playing => match stopped {
                Ok(()) => {
                    self.state = AudioOutputState::Paused;
                    Ok(())
                },
                Err(e) => Err(e),
            },
            _ => Ok(()),
        }
    }
}

/// The amplitude written to channel `channel` of a frame whose sample is
/// `frame`: even channels take the left amplitude, odd ones the right, and a
/// frame with no sample is silent.
pub open spec fn slot_value(frame: Option<StereoSample>, channel: nat) -> u64 {
    let s = match frame {
        Some(x) => x,
        None => silence(),
    };
    if channel % 2 == 0 {
        s.0
    } else {
        s.1
    }
}

/// An interleaved buffer of `len` slots, `channels` slots per frame, where
/// frame `f` carries `frames[f]`.
pub open spec fn interleaved(frames: Seq<Option<StereoSample>>, channels: nat, len: nat) -> Seq<u64>
    recommends
        channels > 0,
{
    Seq::new(len, |i: int| slot_value(frames[i / channels as int], (i % channels as int) as nat))
}

/// `count` frames of `channels` slots are the fewest that cover `len` slots
/// (a last frame may be cut short).
pub open spec fn covers(count: nat, channels: nat, len: nat) -> bool {
    &&& count * channels >= len
    &&& count == 0 || (count - 1) * channels < len
}

/// Fills one hardware buffer of `out.len()` interleaved slots from the
/// queue: for every frame it takes one sample, or writes silence when the
/// queue is empty. It never waits.
pub fn render(consumer: &mut SampleConsumer, out: &mut Vec<u64>, channels: usize)
    requires
        channels > 0,
    ensures
        final(out)@.len() == old(out)@.len(),
        old(consumer).polled().len() <= final(consumer).polled().len(),
        ({
            let frames = final(consumer).polled().subrange(
                old(consumer).polled().len() as int,
                final(consumer).polled().len() as int,
            );
            &&& covers(frames.len(), channels as nat, old(out)@.len())
            &&& final(out)@ == interleaved(frames, channels as nat, old(out)@.len())
        }),
{
    let n = out.len();
    let ghost start = consumer.polled().len();
    let mut i: usize = 0;
    let mut c: usize = 0;
    let mut cur: Option<StereoSample> = None;
    while i < n
        invariant
            channels > 0,
            out@.len() == n,
            n == old(out)@.len(),
            i <= n,
            c < channels,
            start == old(consumer).polled().len(),
            start <= consumer.polled().len(),
            ({
                let frames = consumer.polled().subrange(start as int, consumer.polled().len() as int);
                &&& c == 0 ==> frames.len() * channels == i
                &&& c > 0 ==> frames.len() > 0 && (frames.len() - 1) * channels + c == i && cur
                    == frames.last()
                &&& forall|j: int|
                    0 <= j < i ==> #[trigger] out@[j] == slot_value(
                        frames[j / channels as int],
                        (j % channels as int) as nat,
                    )
            }),
        decreases n - i,
    {
        let ghost before = consumer.polled();
        if c == 0 {
            cur = consumer.pop();
        }
        let s = match cur {
            Some(x) => x,
            None => (SILENT_BITS, SILENT_BITS),
        };
        let v = if c % 2 == 0 {
            s.0
        } else {
            s.1
        };
        proof {
            let frames = consumer.polled().subrange(start as int, consumer.polled().len() as int);
            let old_frames = before.subrange(start as int, before.len() as int);
            assert(frames.len() > 0);
            assert(i == (frames.len() - 1) * channels + c) by (nonlinear_arith)
                requires
                    c == 0 ==> old_frames.len() * channels == i && frames.len() == old_frames.len() + 1,
                    c > 0 ==> frames.len() > 0 && (frames.len() - 1) * channels + c == i,
            ;
            lemma_fundamental_div_mod_converse_div(i as int, channels as int, frames.len() - 1, c as int);
            lemma_fundamental_div_mod_converse_mod(i as int, channels as int, frames.len() - 1, c as int);
            if c == 0 {
                assert(frames =~= old_frames.push(cur));
            } else {
                assert(frames =~= old_frames);
            }
            assert forall|j: int| 0 <= j < i implies #[trigger] out@[j] == slot_value(
                frames[j / channels as int],
                (j % channels as int) as nat,
            ) by {
                let k = j / (channels as int);
                assert(0 <= k) by (nonlinear_arith)
                    requires
                        0 <= j,
                        channels > 0,
                        k == j / (channels as int),
                ;
                if c == 0 {
                    assert(k < old_frames.len()) by (nonlinear_arith)
                        requires
                            j < i,
                            old_frames.len() * channels == i,
                            channels > 0,
                            0 <= j,
                            k == j / (channels as int),
                    ;
                }
            }
            assert(cur == frames.last());
        }
        out.set(i, v);
        i = i + 1;
        c = c + 1;
        if c == channels {
            c = 0;
            proof {
                let frames = consumer.polled().subrange(start as int, consumer.polled().len() as int);
                assert(frames.len() * channels == i) by (nonlinear_arith)
                    requires (frames.len() - 1) * channels + channels == i, frames.len() > 0;
            }
        }
    }
    proof {
        let frames = consumer.polled().subrange(start as int, consumer.polled().len() as int);
        assert(covers(frames.len(), channels as nat, n as nat)) by (nonlinear_arith)
            requires
                c == 0 ==> frames.len() * channels == n,
                c > 0 ==> frames.len() > 0 && (frames.len() - 1) * channels + c == n,
                c < channels,
        ;
        assert(out@ =~= interleaved(frames, channels as nat, n as nat));
    }
}

/// A hardware buffer of `frames` frames of `channels` slots is covered by
/// exactly `frames` frames: each callback takes exactly one sample, or
/// writes silence, per frame it is asked for.
pub proof fn lemma_callback_frames(count: nat, channels: nat, frames: nat)
    requires
        channels > 0,
        covers(count, channels, frames * channels),
    ensures
        count == frames,
{
    if count > frames {
        assert((count - 1) * channels >= frames * channels) by (nonlinear_arith)
            requires
                count > frames,
                channels > 0,
        ;
    }
    if count < frames {
        assert(count * channels < frames * channels) by (nonlinear_arith)
            requires
                count < frames,
                channels > 0,
        ;
    }
}

/// When every frame a callback took is silent or empty, every slot it
/// writes is silent.
pub proof fn lemma_silent_output(frames: Seq<Option<StereoSample>>, channels: nat, len: nat)
    requires
        channels > 0,
        covers(frames.len(), channels, len),
        forall|f: int| 0 <= f < frames.len() ==> #[trigger] frames[f] is None || frames[f] == Some(silence()),
    ensures
        forall|i: int| 0 <= i < len ==> #[trigger] interleaved(frames, channels, len)[i] == SILENT_BITS,
{
    assert forall|i: int| 0 <= i < len implies #[trigger] interleaved(frames, channels, len)[i] == SILENT_BITS by {
        let f = i / (channels as int);
        assert(0 <= f) by (nonlinear_arith)
            requires
                0 <= i,
                channels > 0,
                f == i / (channels as int),
        ;
        assert(f < frames.len()) by (nonlinear_arith)
            requires
                0 <= i < len,
                len <= frames.len() * channels,
                channels > 0,
                f == i / (channels as int),
        ;
        assert(frames[f] is None || frames[f] == Some(silence()));
    }
}

/// The lifecycle: `Init` --setup--> `Ready` --play--> `Playing` --pause-->
/// `Paused` --play--> `Playing`; `pause` outside `Playing` and `play` in
/// `Init` change nothing and ask nothing of the stream; `setup` is refused
/// outside `Init`; and no transition leads back to `Init`.
pub proof fn lemma_lifecycle(s: AudioOutputState)
    ensures
        setup_next(AudioOutputState::Init) == AudioOutputState::Ready,
        play_next(AudioOutputState::Ready) == AudioOutputState::Playing,
        pause_next(AudioOutputState::Playing) == AudioOutputState::Paused,
        play_next(AudioOutputState::Paused) == AudioOutputState::Playing,
        s != AudioOutputState::Playing ==> pause_next(s) == s && pause_request(s) is None,
        play_next(AudioOutputState::Init) == AudioOutputState::Init,
        play_request(AudioOutputState::Init) is None,
        s != AudioOutputState::Init ==> {
            &&& play_next(s) != AudioOutputState::Init
            &&& pause_next(s) != AudioOutputState::Init
            &&& setup_next(s) == s
        },
{
}

} // verus!

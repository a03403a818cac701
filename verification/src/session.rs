//! The capture session: the negotiation decisions of `start_capture` and the
//! lifecycle state machine around one hardware stream and one sample buffer.
//!
//! The hardware itself runs outside this crate. Setup is a dialogue: the
//! caller resolves the requested name against the input listing
//! (`crate::device::resolve_input_device`), queries the resolved device's
//! default input configuration, and hands the answer to `plan_stream`, which
//! decides whether and how a stream may be built. After the caller has built
//! and started the stream the plan describes, the session runs; each callback
//! block is handed to a `record_block` method, and the asynchronous error
//! sink reports through `report_runtime_error`. `stop` is the explicit
//! teardown: once the state has left `Running`, `record_block` appends
//! nothing more, so the caller can release the hardware stream knowing the
//! buffer is final.

use vstd::prelude::*;

use crate::buffer::{concat_blocks, SampleBuffer};
use crate::convert::{convert_block_i16, convert_block_u16, i16_block_bits, u16_block_bits};
use crate::errors::CaptureError;
use crate::format::{encoding_supported, format_of, SampleEncoding, SupportedFormat};

verus! {

/// The parameters negotiated for a capture session, from the device's
/// default input configuration. Not user-overridable.
#[derive(Clone, Copy, Debug, PartialEq, Eq, Structural)]
pub struct StreamConfig {
    pub sample_rate: u32,
    pub channels: u16,
    pub encoding: SampleEncoding,
}

/// The session lifecycle: not-started, then running, then stopped or
/// errored. Errored is reached only through the asynchronous error sink and
/// does not imply stopped; explicit teardown is required either way.
#[derive(Clone, Copy, Debug, PartialEq, Eq, Structural)]
pub enum SessionState {
    NotStarted,
    Running,
    Stopped,
    Errored,
}

/// Everything needed to build one typed hardware stream: the resolved
/// device's index in the input listing, the negotiated configuration, and
/// the typed capture path for its encoding.
#[derive(Clone, Copy, Debug, PartialEq, Eq, Structural)]
pub struct CapturePlan {
    pub device_index: usize,
    pub config: StreamConfig,
    pub format: SupportedFormat,
}

/// Decides, from the host's default-configuration answer for the resolved
/// device, whether a stream may be built and on which typed path. A missing
/// answer is `ConfigurationUnavailable`; an answer with an encoding outside
/// the supported set is `UnsupportedSampleFormat`. Exactly those two
/// failures can come out, and a failure builds nothing.
pub fn plan_stream(device_index: usize, config_answer: Option<StreamConfig>) -> (r: Result<
    CapturePlan,
    CaptureError,
>)
    ensures
        r is Ok <==> config_answer is Some && encoding_supported(config_answer->0.encoding),
        r is Ok ==> r->Ok_0 == (CapturePlan {
            device_index,
            config: config_answer->0,
            format: format_of(config_answer->0.encoding),
        }),
        r is Err ==> r->Err_0 == (if config_answer is None {
            CaptureError::ConfigurationUnavailable
        } else {
            CaptureError::UnsupportedSampleFormat
        }),
{
    let config = match config_answer {
        Some(config) => config,
        None => {
            return Err(CaptureError::ConfigurationUnavailable);
        },
    };
    let format = match crate::format::dispatch_encoding(config.encoding) {
        Ok(format) => format,
        Err(e) => {
            return Err(e);
        },
    };
    Ok(CapturePlan { device_index, config, format })
}

/// One capture session: at most one running stream, one negotiated
/// configuration, one buffer.
pub struct CaptureSession {
    state: SessionState,
    config: Option<StreamConfig>,
    buffer: SampleBuffer,
}

impl CaptureSession {
    /// The lifecycle state.
    pub closed spec fn state(&self) -> SessionState {
        self.state
    }

    /// The negotiated configuration, present from start onward.
    pub closed spec fn config(&self) -> Option<StreamConfig> {
        self.config
    }

    /// The samples buffered so far, in arrival order.
    pub closed spec fn buffered(&self) -> Seq<u32> {
        self.buffer@
    }

    /// Well-formedness: before start nothing is negotiated and nothing
    /// buffered; a running or errored session has a configuration.
    pub open spec fn wf(&self) -> bool {
        &&& self.state() is NotStarted ==> {
            &&& self.config() is None
            &&& self.buffered() == Seq::<u32>::empty()
        }
        &&& (self.state() is Running || self.state() is Errored) ==> self.config() is Some
    }

    /// A fresh session: nothing negotiated, nothing buffered, no stream.
    pub fn new() -> (s: CaptureSession)
        ensures
            s.wf(),
            s.state() is NotStarted,
            s.buffered() == Seq::<u32>::empty(),
            s.config() is None,
    {
        CaptureSession { state: SessionState::NotStarted, config: None, buffer: SampleBuffer::new() }
    }

    /// The lifecycle state, for callers outside the callback.
    pub fn current_state(&self) -> (st: SessionState)
        ensures
            st == self.state(),
    {
        self.state
    }

    /// The number of samples accumulated so far.
    pub fn buffered_len(&self) -> (n: usize)
        ensures
            n == self.buffered().len(),
    {
        self.buffer.len()
    }

    /// Marks the session running under the plan's configuration, once the
    /// caller has built and started the hardware stream the plan describes.
    /// The buffer starts the stream's life empty.
    pub fn start(&mut self, plan: &CapturePlan)
        requires
            old(self).state() is NotStarted,
        ensures
            old(self).wf() ==> final(self).wf(),
            final(self).state() is Running,
            final(self).config() == Some(plan.config),
            final(self).buffered() == old(self).buffered(),
            old(self).wf() ==> final(self).buffered() == Seq::<u32>::empty(),
    {
        self.state = SessionState::Running;
        self.config = Some(plan.config);
    }

    /// The callback hand-off for a float stream: appends the block's bit
    /// patterns in delivery order while the session runs. Once the state has
    /// left `Running` — stop, or a reported hardware error — nothing is
    /// appended: the observable stop signal the callback cooperates with.
    pub fn record_block_f32(&mut self, block: &[u32])
        ensures
            old(self).wf() ==> final(self).wf(),
            final(self).state() == old(self).state(),
            final(self).config() == old(self).config(),
            old(self).state() is Running ==> final(self).buffered() == old(self).buffered()
                + block@,
            !(old(self).state() is Running) ==> final(self).buffered() == old(self).buffered(),
    {
        match self.state {
            SessionState::Running => {
                self.buffer.append(block);
            },
            _ => {
            },
        }
    }

    /// The callback hand-off for a signed 16-bit stream: each raw sample is
    /// normalized exactly (see `crate::convert`) and the converted block is
    /// appended in delivery order while the session runs.
    pub fn record_block_i16(&mut self, block: &[i16])
        ensures
            old(self).wf() ==> final(self).wf(),
            final(self).state() == old(self).state(),
            final(self).config() == old(self).config(),
            old(self).state() is Running ==> final(self).buffered() == old(self).buffered()
                + i16_block_bits(block@),
            !(old(self).state() is Running) ==> final(self).buffered() == old(self).buffered(),
    {
        match self.state {
            SessionState::Running => {
                let converted = convert_block_i16(block);
                self.buffer.append(converted.as_slice());
            },
            _ => {
            },
        }
    }

    /// The callback hand-off for an unsigned 16-bit stream.
    pub fn record_block_u16(&mut self, block: &[u16])
        ensures
            old(self).wf() ==> final(self).wf(),
            final(self).state() == old(self).state(),
            final(self).config() == old(self).config(),
            old(self).state() is Running ==> final(self).buffered() == old(self).buffered()
                + u16_block_bits(block@),
            !(old(self).state() is Running) ==> final(self).buffered() == old(self).buffered(),
    {
        match self.state {
            SessionState::Running => {
                let converted = convert_block_u16(block);
                self.buffer.append(converted.as_slice());
            },
            _ => {
            },
        }
    }

    /// Law, run to completion: a running session that receives a sequence of
    /// signed 16-bit callback blocks buffers exactly the concatenation of
    /// their converted values, in invocation order — as many samples as the
    /// block sizes sum to, with no interleaving, reordering or drops.
    pub fn record_blocks_i16(&mut self, blocks: &Vec<Vec<i16>>)
        ensures
            old(self).wf() ==> final(self).wf(),
            final(self).state() == old(self).state(),
            final(self).config() == old(self).config(),
            old(self).state() is Running ==> final(self).buffered() == old(self).buffered()
                + concat_blocks(blocks@.map_values(|b: Vec<i16>| i16_block_bits(b@))),
            !(old(self).state() is Running) ==> final(self).buffered() == old(self).buffered(),
    {
        let ghost all = blocks@.map_values(|b: Vec<i16>| i16_block_bits(b@));
        let mut i: usize = 0;
        while i < blocks.len()
            invariant
                i <= blocks@.len(),
                all == blocks@.map_values(|b: Vec<i16>| i16_block_bits(b@)),
                old(self).wf() ==> self.wf(),
                self.state() == old(self).state(),
                self.config() == old(self).config(),
                old(self).state() is Running ==> self.buffered() == old(self).buffered()
                    + concat_blocks(all.subrange(0, i as int)),
                !(old(self).state() is Running) ==> self.buffered() == old(self).buffered(),
            decreases blocks@.len() - i,
        {
            self.record_block_i16(blocks[i].as_slice());
            proof {
                let next = all.subrange(0, i as int + 1);
                assert(next.drop_last() =~= all.subrange(0, i as int));
                assert(next.last() == i16_block_bits(blocks@[i as int]@));
            }
            i += 1;
        }
        proof {
            assert(all.subrange(0, all.len() as int) =~= all);
        }
    }

    /// The asynchronous error sink. A running session moves to errored —
    /// the observable health flag — and nothing else changes: no teardown,
    /// no retry, no sample touched, and the caller's context is not unwound.
    /// In any other state the report is recorded nowhere and changes
    /// nothing.
    pub fn report_runtime_error(&mut self)
        ensures
            old(self).wf() ==> final(self).wf(),
            final(self).state() == (if old(self).state() is Running {
                SessionState::Errored
            } else {
                old(self).state()
            }),
            final(self).config() == old(self).config(),
            final(self).buffered() == old(self).buffered(),
    {
        match self.state {
            SessionState::Running => {
                self.state = SessionState::Errored;
            },
            _ => {
            },
        }
    }

    /// Explicit teardown. The session moves to stopped, every captured
    /// sample is handed out in arrival order, and the buffer is left empty.
    /// Because `record_block` appends only while the state is `Running`, a
    /// caller that stops under the same exclusion the callback uses sees a
    /// final buffer: no callback can append after stop returns.
    pub fn stop(&mut self) -> (drained: Vec<u32>)
        ensures
            old(self).wf() ==> final(self).wf(),
            final(self).state() is Stopped,
            final(self).config() == old(self).config(),
            drained@ == old(self).buffered(),
            final(self).buffered() == Seq::<u32>::empty(),
    {
        self.state = SessionState::Stopped;
        self.buffer.drain()
    }
}

} // verus!

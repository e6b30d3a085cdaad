//! Realtime audio pipeline: a bounded hand-off queue between a sample
//! producer and a hardware callback, the playback lifecycle of the output
//! adapter, and a signal graph whose mutations are all-or-nothing.
pub mod graph;
pub mod output;
pub mod queue;
pub mod worker;

pub use graph::{GraphError, NodeId, NodeShape, SignalGraph};
pub use output::{
    render, AudioOutput, AudioOutputState, DeviceError, SetupError, StreamAction, StreamConfig,
};
pub use queue::{SampleConsumer, SampleProducer, SampleQueue, StereoSample, MAX_CAPACITY, SILENT_BITS};
pub use worker::{decide, ProducerWorker, WorkerAction};

use wasm_synth_gui::{
    decide, render, AudioOutput, AudioOutputState, ProducerWorker, SampleQueue, SignalGraph,
    StreamConfig, WorkerAction,
};

#[test]
fn render_interleaves_left_and_right() {
    let (mut producer, mut consumer) = SampleQueue::new(8).split();
    producer.push((1, 2)).unwrap();
    producer.push((3, 4)).unwrap();
    let mut out = vec![9u64; 6];
    render(&mut consumer, &mut out, 2);
    assert_eq!(out, vec![1, 2, 3, 4, 0, 0]);
}

#[test]
fn render_uses_channel_parity_for_wide_frames() {
    let (mut producer, mut consumer) = SampleQueue::new(8).split();
    producer.push((5, 6)).unwrap();
    producer.push((7, 8)).unwrap();
    let mut out = vec![9u64; 8];
    render(&mut consumer, &mut out, 4);
    assert_eq!(out, vec![5, 6, 5, 6, 7, 8, 7, 8]);
    let mut odd = vec![9u64; 3];
    producer.push((1, 2)).unwrap();
    render(&mut consumer, &mut odd, 3);
    assert_eq!(odd, vec![1, 2, 1]);
}

#[test]
fn render_cuts_the_last_frame_short() {
    let (mut producer, mut consumer) = SampleQueue::new(8).split();
    for i in 0..4u64 {
        producer.push((10 * i, 10 * i + 1)).unwrap();
    }
    let mut out = vec![9u64; 5];
    render(&mut consumer, &mut out, 2);
    assert_eq!(out, vec![0, 1, 10, 11, 20]);
    assert_eq!(consumer.pop(), Some((30, 31)));
}

#[test]
fn render_on_empty_queue_writes_silence() {
    let (_producer, mut consumer) = SampleQueue::new(4).split();
    let mut out = vec![7u64; 4];
    render(&mut consumer, &mut out, 1);
    assert_eq!(out, vec![0, 0, 0, 0]);
}

#[test]
fn worker_keeps_refused_sample_for_next_fill() {
    let (producer, mut consumer) = SampleQueue::new(1).split();
    let mut worker = ProducerWorker::new(producer);
    let mut graph = SignalGraph::new(1);
    graph.reset(44100);
    assert_eq!(worker.fill(&mut graph, 3), 1);
    assert_eq!(worker.fill(&mut graph, 3), 0);
    assert_eq!(consumer.pop(), Some((0, 0)));
    assert_eq!(worker.fill(&mut graph, 3), 1);
    assert_eq!(consumer.pop(), Some((0, 0)));
    assert_eq!(consumer.pop(), None);
}

#[test]
fn worker_fills_up_to_budget() {
    let (producer, mut consumer) = SampleQueue::new(16).split();
    let mut worker = ProducerWorker::new(producer);
    let mut graph = SignalGraph::new(1);
    graph.reset(44100);
    assert_eq!(worker.fill(&mut graph, 4), 4);
    assert_eq!(worker.fill(&mut graph, 0), 0);
    let mut n = 0;
    while consumer.pop().is_some() {
        n += 1;
    }
    assert_eq!(n, 4);
}

#[test]
fn worker_decisions() {
    assert_eq!(decide(true, 5), WorkerAction::Stop);
    assert_eq!(decide(true, 0), WorkerAction::Stop);
    assert_eq!(decide(false, 0), WorkerAction::Wait);
    assert_eq!(decide(false, 3), WorkerAction::Continue);
}

#[test]
fn end_to_end_silence_for_ten_thousand_callbacks() {
    let supported = StreamConfig { channels: 2, sample_rate: 48000, buffer_size: 1024 };
    let mut out = AudioOutput::new(supported);
    let config = supported.with_timing(256, 44100);
    out.setup(config, Ok(())).unwrap();
    out.play(Ok(())).unwrap();
    assert_eq!(out.state, AudioOutputState::Playing);

    let (producer, mut consumer) = SampleQueue::new(256).split();
    let mut worker = ProducerWorker::new(producer);
    let mut graph = SignalGraph::new(1);
    graph.reset(config.sample_rate);

    let channels = config.channels as usize;
    let slots = config.buffer_size as usize * channels;
    let mut buffer = vec![1u64; slots];
    for _ in 0..10_000 {
        worker.fill(&mut graph, 256);
        render(&mut consumer, &mut buffer, channels);
        assert_eq!(buffer.len(), 256 * channels);
        assert!(buffer.iter().all(|&x| x == 0));
        buffer.iter_mut().for_each(|x| *x = 1);
    }
}

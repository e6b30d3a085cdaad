use fundsp::hacker::{dc, pulse, sine};
use fundsp::net::Net64;
use wasm_synth_gui::{GraphError, SignalGraph};

fn synth_graph() -> SignalGraph {
    let mut g = SignalGraph::new(1);
    let dc_id = g.add_node(Net64::wrap(Box::new(dc(220.0))));
    let sine_id = g.add_node(Net64::wrap(Box::new(sine())));
    assert_eq!((dc_id, sine_id), (0, 1));
    assert_eq!(g.connect(dc_id, sine_id), Ok(()));
    assert_eq!(g.set_output(sine_id), Ok(()));
    g
}

#[test]
fn reset_then_tick_is_deterministic() {
    let mut g = synth_graph();
    g.reset(44100);
    let first = g.tick();
    let second = g.tick();
    g.reset(44100);
    assert_eq!(g.tick(), first);
    assert_eq!(g.tick(), second);
    let mut other = synth_graph();
    other.reset(44100);
    assert_eq!(other.tick(), first);
}

#[test]
fn mono_graph_copies_to_both_sides() {
    let mut g = synth_graph();
    g.reset(44100);
    for _ in 0..32 {
        let (left, right) = g.tick();
        assert_eq!(left, right);
    }
}

#[test]
fn constant_source_ticks_its_value() {
    let mut g = SignalGraph::new(1);
    let id = g.add_node(Net64::wrap(Box::new(dc(0.5))));
    g.set_output(id).unwrap();
    g.reset(44100);
    assert_eq!(g.tick(), (0.5f64.to_bits(), 0.5f64.to_bits()));
}

#[test]
fn graph_without_output_ticks_silence() {
    let mut g = SignalGraph::new(2);
    g.add_node(Net64::wrap(Box::new(dc(0.5))));
    g.reset(44100);
    assert_eq!(g.tick(), (0, 0));
}

#[test]
fn connect_unknown_node_is_refused() {
    let mut g = SignalGraph::new(1);
    let a = g.add_node(Net64::wrap(Box::new(sine())));
    assert_eq!(g.connect(a, 7), Err(GraphError::UnknownNode));
    assert_eq!(g.connect(7, a), Err(GraphError::UnknownNode));
    assert_eq!(g.set_output(3), Err(GraphError::UnknownNode));
    assert_eq!(g.node_count(), 1);
}

#[test]
fn connect_with_mismatched_ports_is_refused() {
    let mut g = SignalGraph::new(1);
    let source = g.add_node(Net64::wrap(Box::new(dc(220.0))));
    let osc = g.add_node(Net64::wrap(Box::new(sine())));
    let pwm = g.add_node(Net64::wrap(Box::new(pulse())));
    assert_eq!(g.connect(osc, source), Err(GraphError::PortMismatch));
    assert_eq!(g.connect(source, pwm), Err(GraphError::PortMismatch));
    let stereo_source = g.add_node(Net64::wrap(Box::new(dc((110.0, 0.5)))));
    assert_eq!(g.connect(stereo_source, pwm), Ok(()));
}

#[test]
fn connect_that_closes_a_loop_is_refused() {
    let mut g = SignalGraph::new(1);
    let a = g.add_node(Net64::wrap(Box::new(sine())));
    let b = g.add_node(Net64::wrap(Box::new(sine())));
    let c = g.add_node(Net64::wrap(Box::new(sine())));
    assert_eq!(g.connect(a, a), Err(GraphError::Cycle));
    assert_eq!(g.connect(a, b), Ok(()));
    assert_eq!(g.connect(b, c), Ok(()));
    assert_eq!(g.connect(c, a), Err(GraphError::Cycle));
    assert_eq!(g.connect(b, a), Err(GraphError::Cycle));
    assert_eq!(g.set_output(c), Ok(()));
    g.reset(44100);
    g.tick();
}

#[test]
fn output_with_wrong_channel_count_is_refused() {
    let mut g = SignalGraph::new(2);
    let mono = g.add_node(Net64::wrap(Box::new(sine())));
    assert_eq!(g.set_output(mono), Err(GraphError::PortMismatch));
    let stereo = g.add_node(Net64::wrap(Box::new(dc((0.25, -0.25)))));
    assert_eq!(g.set_output(stereo), Ok(()));
    g.reset(48000);
    assert_eq!(g.tick(), (0.25f64.to_bits(), (-0.25f64).to_bits()));
    assert_eq!(g.channels(), 2);
}

#[test]
fn graph_nests_as_a_unit_of_another_graph() {
    let inner = synth_graph();
    let mut outer = SignalGraph::new(1);
    let id = outer.add_node(inner.into_unit());
    assert_eq!(outer.node_count(), 1);
    assert_eq!(outer.set_output(id), Ok(()));
    outer.reset(44100);
    let first = outer.tick();
    let second = outer.tick();
    assert_eq!(first.0, first.1);
    outer.reset(44100);
    assert_eq!(outer.tick(), first);
    assert_eq!(outer.tick(), second);
}

use dynet::ComputationGraph;
use dynet::Error;
use dynet::ParameterCollection;
use dynet::initialize;
use dynet::trainer::SimpleSGD;
use dynet::trainer::Trainer;

#[test]
fn update_needs_fresh_gradients() {
    let mut pc = ParameterCollection::new();
    pc.add_default_param(&[2]).unwrap();
    let trainer = SimpleSGD::new(&pc, 0.25f32.to_bits());
    assert_eq!(trainer.update(&mut pc), Err(Error::NoGradients));
}

#[test]
fn update_consumes_the_gradients() {
    let mut engine = initialize();
    let mut pc = ParameterCollection::new();
    let p = pc.add_default_param(&[1]).unwrap();
    let mut cg = ComputationGraph::new(&mut engine);
    let e = cg.load_param(&p);
    assert_eq!(cg.forward(&e), Ok(()));
    assert_eq!(cg.backward(&e, &mut pc, false), Ok(()));
    let trainer = SimpleSGD::default(&pc);
    assert_eq!(trainer.update(&mut pc), Ok(()));
    // The step consumed the gradients; another step needs another backward.
    assert_eq!(trainer.update(&mut pc), Err(Error::NoGradients));
    assert_eq!(cg.backward(&e, &mut pc, false), Ok(()));
    assert_eq!(trainer.update(&mut pc), Ok(()));
}

#[test]
fn clip_gradients_reports_no_clipping() {
    let pc = ParameterCollection::new();
    let trainer = SimpleSGD::default(&pc);
    assert_eq!(f32::from_bits(trainer.clip_gradients()), 1.0);
    let explicit = SimpleSGD::new(&pc, 0.01f32.to_bits());
    assert_eq!(f32::from_bits(explicit.clip_gradients()), 1.0);
}

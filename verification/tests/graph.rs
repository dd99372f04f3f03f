use dynet::ComputationGraph;
use dynet::Error;
use dynet::ParamInit;
use dynet::ParameterCollection;
use dynet::get_current_graph_id;
use dynet::initialize;
use dynet::reset_rand_seed;

fn bits(vals: &[f32]) -> Vec<u32> {
    vals.iter().map(|v| v.to_bits()).collect()
}

#[test]
fn graph_ids_strictly_increase() {
    let mut engine = initialize();
    assert_eq!(get_current_graph_id(&engine), 0);
    let g1 = ComputationGraph::new(&mut engine);
    assert_eq!(get_current_graph_id(&engine), g1.id());
    let g2 = ComputationGraph::new(&mut engine);
    assert!(g2.id() > g1.id());
    assert_eq!(get_current_graph_id(&engine), g2.id());
    let g3 = ComputationGraph::new(&mut engine);
    assert!(g3.id() > g2.id());
}

#[test]
fn reseeding_leaves_graph_identity_alone() {
    let mut engine = initialize();
    let g = ComputationGraph::new(&mut engine);
    reset_rand_seed(&mut engine, 42);
    assert_eq!(get_current_graph_id(&engine), g.id());
}

#[test]
fn input_round_trips_column_major() {
    let mut engine = initialize();
    let mut cg = ComputationGraph::new(&mut engine);
    let x = cg.add_input(&bits(&[1.0, 2.0, 3.0, 4.0]), &[2, 2]).unwrap();
    // Column-major: the stored 2x2 matrix is [[1, 3], [2, 4]].
    assert_eq!(f32::from_bits(cg.input_value_at(&x, &[0, 0]).unwrap()), 1.0);
    assert_eq!(f32::from_bits(cg.input_value_at(&x, &[1, 0]).unwrap()), 2.0);
    assert_eq!(f32::from_bits(cg.input_value_at(&x, &[0, 1]).unwrap()), 3.0);
    assert_eq!(f32::from_bits(cg.input_value_at(&x, &[1, 1]).unwrap()), 4.0);
    assert_eq!(cg.input_value_at(&x, &[2, 0]).unwrap_err(), Error::InvalidArgument);
    assert_eq!(cg.input_value_at(&x, &[0]).unwrap_err(), Error::InvalidArgument);
}

#[test]
fn input_length_must_match_the_shape() {
    let mut engine = initialize();
    let mut cg = ComputationGraph::new(&mut engine);
    assert_eq!(
        cg.add_input(&bits(&[1.0, 2.0, 3.0]), &[2, 2]).unwrap_err(),
        Error::InvalidArgument
    );
    assert_eq!(cg.add_input(&bits(&[1.0]), &[0]).unwrap_err(), Error::InvalidArgument);
    assert_eq!(cg.add_input(&bits(&[1.0]), &[-1]).unwrap_err(), Error::InvalidArgument);
    assert_eq!(cg.node_count(), 0);
    assert!(cg.add_input(&bits(&[1.0, 2.0, 3.0, 4.0, 5.0, 6.0]), &[2, 3]).is_ok());
    assert_eq!(cg.node_count(), 1);
}

#[test]
fn rank_zero_input_is_a_scalar() {
    let mut engine = initialize();
    let mut cg = ComputationGraph::new(&mut engine);
    let s = cg.add_input(&bits(&[3.5]), &[]).unwrap();
    assert_eq!(cg.forward(&s), Ok(()));
    assert_eq!(f32::from_bits(cg.input_value_at(&s, &[]).unwrap()), 3.5);
}

#[test]
fn oversized_shapes_are_rejected_not_miscounted() {
    let mut engine = initialize();
    let mut cg = ComputationGraph::new(&mut engine);
    // The axis product exceeds any machine-countable length; the request
    // must come back as an invalid argument, never wrap around.
    assert_eq!(
        cg.add_input(&bits(&[1.0]), &[1_000_000, 1_000_000, 1_000_000, 1_000_000])
            .unwrap_err(),
        Error::InvalidArgument
    );
    // An axis size beyond the engine's 32-bit axis type is refused too.
    assert_eq!(
        cg.add_input(&bits(&[1.0]), &[1i64 << 32]).unwrap_err(),
        Error::InvalidArgument
    );
    assert_eq!(cg.node_count(), 0);
}

#[test]
fn batched_input_reads_the_last_axis_as_batch() {
    let mut engine = initialize();
    let mut cg = ComputationGraph::new(&mut engine);
    let x_values = [1.0, 1.0, 1.0, -1.0, -1.0, 1.0, -1.0, -1.0];
    assert!(cg.add_batched_input(&bits(&x_values), &[2, 4]).is_ok());
    assert_eq!(
        cg.add_batched_input(&bits(&x_values), &[2, 3]).unwrap_err(),
        Error::InvalidArgument
    );
    assert_eq!(cg.add_batched_input(&bits(&[]), &[]).unwrap_err(), Error::InvalidArgument);
}

#[test]
fn forward_needs_a_scalar_expression() {
    let mut engine = initialize();
    let mut cg = ComputationGraph::new(&mut engine);
    let scalar = cg.add_input(&bits(&[7.0]), &[1]).unwrap();
    let vector = cg.add_input(&bits(&[1.0, 2.0]), &[2]).unwrap();
    assert_eq!(cg.forward(&scalar), Ok(()));
    assert_eq!(cg.forward(&vector), Err(Error::NotScalar));
}

#[test]
fn forward_twice_is_accepted_twice() {
    let mut engine = initialize();
    let mut cg = ComputationGraph::new(&mut engine);
    let x = cg.add_input(&bits(&[7.0]), &[1]).unwrap();
    assert_eq!(cg.forward(&x), Ok(()));
    assert_eq!(cg.forward(&x), Ok(()));
}

#[test]
fn expressions_of_a_superseded_graph_are_stale() {
    let mut engine = initialize();
    let mut g1 = ComputationGraph::new(&mut engine);
    let x = g1.add_input(&bits(&[7.0]), &[1]).unwrap();
    let mut g2 = ComputationGraph::new(&mut engine);
    assert_ne!(x.graph_id(), get_current_graph_id(&engine));
    assert_eq!(g2.forward(&x), Err(Error::StaleExpression));
    let y = g2.add_input(&bits(&[8.0]), &[1]).unwrap();
    assert_eq!(y.graph_id(), get_current_graph_id(&engine));
}

#[test]
fn backward_needs_a_covering_forward() {
    let mut engine = initialize();
    let mut cg = ComputationGraph::new(&mut engine);
    let mut pc = ParameterCollection::new();
    let x = cg.add_input(&bits(&[7.0]), &[1]).unwrap();
    assert_eq!(cg.backward(&x, &mut pc, false), Err(Error::NoForward));
    assert_eq!(cg.forward(&x), Ok(()));
    assert_eq!(cg.backward(&x, &mut pc, false), Ok(()));
}

#[test]
fn load_param_takes_the_parameter_shape() {
    let mut engine = initialize();
    let mut cg = ComputationGraph::new(&mut engine);
    let mut pc = ParameterCollection::new();
    let p = pc.add_param(&[1], ParamInit::Const(2.0f32.to_bits()), "c").unwrap();
    let e = cg.load_param(&p);
    assert_eq!(cg.forward(&e), Ok(()));
    let w = pc.add_default_param(&[8, 2]).unwrap();
    let we = cg.load_param(&w);
    assert_eq!(cg.forward(&we), Err(Error::NotScalar));
}

#[test]
fn revert_restores_the_checkpointed_graph() {
    let mut engine = initialize();
    let mut cg = ComputationGraph::new(&mut engine);
    let a = cg.add_input(&bits(&[1.0]), &[1]).unwrap();
    let b = cg.add_input(&bits(&[2.0]), &[1]).unwrap();
    cg.set_checkpoint();
    let c = dynet::ops::tanh(&mut cg, &b).unwrap();
    assert_eq!(cg.node_count(), 3);
    assert_eq!(cg.revert(), Ok(()));
    assert_eq!(cg.node_count(), 2);
    // The speculative node is gone; its handle must not reach anything.
    assert_eq!(cg.forward(&c), Err(Error::StaleExpression));
    // The nodes below the checkpoint still evaluate.
    assert_eq!(cg.forward(&b), Ok(()));
    assert_eq!(cg.forward(&a), Ok(()));
    assert_eq!(f32::from_bits(cg.input_value_at(&b, &[0]).unwrap()), 2.0);
}

#[test]
fn node_operands_expose_the_structure() {
    let mut engine = initialize();
    let mut cg = ComputationGraph::new(&mut engine);
    let a = cg.add_input(&bits(&[1.0]), &[1]).unwrap();
    let b = cg.add_input(&bits(&[2.0]), &[1]).unwrap();
    let c = a.add(&b, &mut cg).unwrap();
    let t = dynet::ops::tanh(&mut cg, &c).unwrap();
    let s = dynet::ops::sum(&mut cg, &[a, b, t]).unwrap();
    assert_eq!(cg.node_operands(0).unwrap(), Vec::<usize>::new());
    assert_eq!(cg.node_operands(2).unwrap(), vec![0, 1]);
    assert_eq!(cg.node_operands(3).unwrap(), vec![2]);
    assert_eq!(cg.node_operands(4).unwrap(), vec![0, 1, 3]);
    assert_eq!(cg.node_operands(5).unwrap_err(), Error::InvalidArgument);
    let _ = s;
}

#[test]
fn revert_without_checkpoint_is_refused() {
    let mut engine = initialize();
    let mut cg = ComputationGraph::new(&mut engine);
    cg.add_input(&bits(&[1.0]), &[1]).unwrap();
    assert_eq!(cg.revert(), Err(Error::NoCheckpoint));
    assert_eq!(cg.node_count(), 1);
}

#[test]
fn checkpoints_nest_as_a_stack() {
    let mut engine = initialize();
    let mut cg = ComputationGraph::new(&mut engine);
    cg.add_input(&bits(&[1.0]), &[1]).unwrap();
    cg.set_checkpoint();
    cg.add_input(&bits(&[2.0]), &[1]).unwrap();
    cg.set_checkpoint();
    cg.add_input(&bits(&[3.0]), &[1]).unwrap();
    assert_eq!(cg.revert(), Ok(()));
    assert_eq!(cg.node_count(), 2);
    assert_eq!(cg.revert(), Ok(()));
    assert_eq!(cg.node_count(), 1);
    assert_eq!(cg.revert(), Err(Error::NoCheckpoint));
}

use dynet::ComputationGraph;
use dynet::Error;
use dynet::Expression;
use dynet::ParameterCollection;
use dynet::initialize;
use dynet::ops::squared_distance;
use dynet::ops::sum;
use dynet::ops::sum_batches;
use dynet::ops::tanh;
use dynet::trainer::SimpleSGD;
use dynet::trainer::Trainer;

fn bits(vals: &[f32]) -> Vec<u32> {
    vals.iter().map(|v| v.to_bits()).collect()
}

#[test]
fn tanh_keeps_the_shape() {
    let mut engine = initialize();
    let mut cg = ComputationGraph::new(&mut engine);
    let s = cg.add_input(&bits(&[0.5]), &[1]).unwrap();
    let v = cg.add_input(&bits(&[0.5, 0.25]), &[2]).unwrap();
    let ts = tanh(&mut cg, &s).unwrap();
    let tv = tanh(&mut cg, &v).unwrap();
    assert_eq!(cg.forward(&ts), Ok(()));
    assert_eq!(cg.forward(&tv), Err(Error::NotScalar));
}

#[test]
fn add_needs_matching_shapes() {
    let mut engine = initialize();
    let mut cg = ComputationGraph::new(&mut engine);
    let a = cg.add_input(&bits(&[1.0, 2.0]), &[2]).unwrap();
    let b = cg.add_input(&bits(&[3.0, 4.0]), &[2]).unwrap();
    let c = cg.add_input(&bits(&[1.0, 2.0, 3.0]), &[3]).unwrap();
    assert!(a.add(&b, &mut cg).is_ok());
    assert_eq!(a.add(&c, &mut cg).unwrap_err(), Error::InvalidArgument);
}

#[test]
fn add_broadcasts_the_batch_axis() {
    let mut engine = initialize();
    let mut cg = ComputationGraph::new(&mut engine);
    let batched = cg.add_batched_input(&bits(&[1.0, 2.0, 3.0, 4.0]), &[1, 4]).unwrap();
    let plain = cg.add_input(&bits(&[10.0]), &[1]).unwrap();
    let shifted = batched.add(&plain, &mut cg).unwrap();
    // Still batched, so not a scalar; collapsing the batch axis makes one.
    assert_eq!(cg.forward(&shifted), Err(Error::NotScalar));
    let total = sum_batches(&mut cg, &shifted).unwrap();
    assert_eq!(cg.forward(&total), Ok(()));
}

#[test]
fn mul_follows_matrix_shapes() {
    let mut engine = initialize();
    let mut cg = ComputationGraph::new(&mut engine);
    let m = cg.add_input(&bits(&[1.0; 6]), &[2, 3]).unwrap();
    let v3 = cg.add_input(&bits(&[1.0; 3]), &[3]).unwrap();
    let v2 = cg.add_input(&bits(&[1.0; 2]), &[2]).unwrap();
    let mv = m.mul(&v3, &mut cg).unwrap();
    // (2x3) times (3) gives a 2-vector: multipliable again only from a 1x2.
    assert_eq!(cg.forward(&mv), Err(Error::NotScalar));
    assert_eq!(m.mul(&v2, &mut cg).unwrap_err(), Error::InvalidArgument);
    let row = cg.add_input(&bits(&[1.0, 1.0]), &[1, 2]).unwrap();
    let scalar = row.mul(&mv, &mut cg).unwrap();
    assert_eq!(cg.forward(&scalar), Ok(()));
}

#[test]
fn squared_distance_reduces_to_one_value() {
    let mut engine = initialize();
    let mut cg = ComputationGraph::new(&mut engine);
    let a = cg.add_input(&bits(&[1.0, 2.0]), &[2]).unwrap();
    let b = cg.add_input(&bits(&[3.0, 4.0]), &[2]).unwrap();
    let c = cg.add_input(&bits(&[1.0, 2.0, 3.0]), &[3]).unwrap();
    let d = squared_distance(&mut cg, &a, &b).unwrap();
    assert_eq!(cg.forward(&d), Ok(()));
    assert_eq!(squared_distance(&mut cg, &a, &c).unwrap_err(), Error::InvalidArgument);
}

#[test]
fn sum_rejects_an_empty_list() {
    let mut engine = initialize();
    let mut cg = ComputationGraph::new(&mut engine);
    let no_terms: Vec<Expression> = Vec::new();
    assert_eq!(sum(&mut cg, &no_terms).unwrap_err(), Error::InvalidArgument);
}

#[test]
fn sum_of_one_behaves_like_its_operand() {
    let mut engine = initialize();
    let mut cg = ComputationGraph::new(&mut engine);
    let x = cg.add_input(&bits(&[5.0]), &[1]).unwrap();
    let s = sum(&mut cg, &[x]).unwrap();
    assert_eq!(cg.forward(&s), Ok(()));
}

#[test]
fn sum_needs_one_shape_and_one_graph() {
    let mut engine = initialize();
    let mut cg = ComputationGraph::new(&mut engine);
    let a = cg.add_input(&bits(&[1.0]), &[1]).unwrap();
    let b = cg.add_input(&bits(&[2.0]), &[1]).unwrap();
    let v = cg.add_input(&bits(&[1.0, 2.0]), &[2]).unwrap();
    let s = sum(&mut cg, &[a, b]).unwrap();
    assert_eq!(cg.forward(&s), Ok(()));
    let a2 = cg.add_input(&bits(&[1.0]), &[1]).unwrap();
    assert_eq!(sum(&mut cg, &[a2, v]).unwrap_err(), Error::InvalidArgument);
    let mut other = ComputationGraph::new(&mut engine);
    let elsewhere = other.add_input(&bits(&[1.0]), &[1]).unwrap();
    let here = cg.add_input(&bits(&[1.0]), &[1]).unwrap();
    assert_eq!(sum(&mut cg, &[here, elsewhere]).unwrap_err(), Error::StaleExpression);
}

#[test]
fn two_layer_network_trains_end_to_end() {
    let mut engine = initialize();
    let mut pc = ParameterCollection::new();
    let p_w = pc.add_default_param(&[8, 2]).unwrap();
    let p_b = pc.add_default_param(&[8]).unwrap();
    let p_v = pc.add_default_param(&[1, 8]).unwrap();
    let p_a = pc.add_default_param(&[1]).unwrap();
    let trainer = SimpleSGD::default(&pc);

    let mut cg = ComputationGraph::new(&mut engine);
    let w = cg.load_param(&p_w);
    let b = cg.load_param(&p_b);
    let v = cg.load_param(&p_v);
    let a = cg.load_param(&p_a);

    let x_values = [1.0, 1.0, 1.0, -1.0, -1.0, 1.0, -1.0, -1.0];
    let y_values = [-1.0, 1.0, 1.0, -1.0];
    let x = cg.add_batched_input(&bits(&x_values), &[2, 4]).unwrap();
    let y = cg.add_batched_input(&bits(&y_values), &[1, 4]).unwrap();

    let wx = w.mul(&x, &mut cg).unwrap();
    let wx_b = wx.add(&b, &mut cg).unwrap();
    let h = tanh(&mut cg, &wx_b).unwrap();
    let vh = v.mul(&h, &mut cg).unwrap();
    let y_pred = vh.add(&a, &mut cg).unwrap();
    let loss = squared_distance(&mut cg, &y_pred, &y).unwrap();
    let sum_loss = sum_batches(&mut cg, &loss).unwrap();

    for _ in 0..3 {
        assert_eq!(cg.forward(&sum_loss), Ok(()));
        assert_eq!(cg.backward(&sum_loss, &mut pc, false), Ok(()));
        assert_eq!(trainer.update(&mut pc), Ok(()));
    }
}

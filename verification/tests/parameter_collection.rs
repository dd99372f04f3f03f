use dynet::Error;
use dynet::ParamInit;
use dynet::ParameterCollection;

#[test]
fn weight_decay_lambda() {
    let pc = ParameterCollection::with_weight_decay(0.5f32.to_bits()).unwrap();
    assert_eq!(0.5, f32::from_bits(pc.weight_decay_lambda()));
}

#[test]
fn weight_decay_defaults_to_zero() {
    let pc = ParameterCollection::new();
    assert_eq!(0.0, f32::from_bits(pc.weight_decay_lambda()));
}

#[test]
fn weight_decay_rejects_non_finite() {
    assert_eq!(
        ParameterCollection::with_weight_decay(f32::INFINITY.to_bits()).unwrap_err(),
        Error::InvalidArgument
    );
    assert_eq!(
        ParameterCollection::with_weight_decay(f32::NAN.to_bits()).unwrap_err(),
        Error::InvalidArgument
    );
    assert!(ParameterCollection::with_weight_decay(f32::MAX.to_bits()).is_ok());
}

#[test]
fn collection_name_is_root() {
    let pc = ParameterCollection::new();
    assert_eq!(pc.name(), "/");
}

#[test]
fn size_counts_parameters_not_lookups() {
    let mut pc = ParameterCollection::new();
    assert_eq!(pc.size(), 0);
    pc.add_default_param(&[8, 2]).unwrap();
    pc.add_default_param(&[8]).unwrap();
    pc.add_default_lookup_param(&[10, 5]).unwrap();
    assert_eq!(pc.size(), 2);
}

#[test]
fn add_param_rejects_zero_axis() {
    let mut pc = ParameterCollection::new();
    assert_eq!(
        pc.add_param(&[3, 0], ParamInit::Identity, "w").unwrap_err(),
        Error::InvalidArgument
    );
    assert_eq!(pc.size(), 0);
}

#[test]
fn identity_init_needs_a_square_matrix() {
    let mut pc = ParameterCollection::new();
    assert!(pc.add_param(&[4, 4], ParamInit::Identity, "eye").is_ok());
    assert_eq!(
        pc.add_param(&[4, 3], ParamInit::Identity, "w").unwrap_err(),
        Error::InvalidArgument
    );
    assert_eq!(
        pc.add_param(&[4], ParamInit::Identity, "w").unwrap_err(),
        Error::InvalidArgument
    );
}

#[test]
fn uniform_init_needs_an_ordered_interval() {
    let mut pc = ParameterCollection::new();
    let lo = (-1.0f32).to_bits();
    let hi = 1.0f32.to_bits();
    assert!(pc.add_param(&[2], ParamInit::Uniform(lo, hi), "").is_ok());
    assert_eq!(
        pc.add_param(&[2], ParamInit::Uniform(hi, lo), "").unwrap_err(),
        Error::InvalidArgument
    );
}

#[test]
fn normal_init_needs_a_non_negative_variance() {
    let mut pc = ParameterCollection::new();
    let mean = 0.0f32.to_bits();
    assert!(pc.add_param(&[2], ParamInit::Normal(mean, 1.0f32.to_bits()), "").is_ok());
    assert_eq!(
        pc.add_param(&[2], ParamInit::Normal(mean, (-1.0f32).to_bits()), "")
            .unwrap_err(),
        Error::InvalidArgument
    );
}

#[test]
fn const_init_needs_a_finite_value() {
    let mut pc = ParameterCollection::new();
    assert!(pc.add_param(&[2], ParamInit::Const(7.5f32.to_bits()), "").is_ok());
    assert_eq!(
        pc.add_param(&[2], ParamInit::Const(f32::NAN.to_bits()), "").unwrap_err(),
        Error::InvalidArgument
    );
}

#[test]
fn lookup_param_needs_at_least_two_axes() {
    let mut pc = ParameterCollection::new();
    assert_eq!(
        pc.add_lookup_param(&[10], ParamInit::Glorot(true, 1.0f32.to_bits()), "E")
            .unwrap_err(),
        Error::InvalidArgument
    );
    let table = pc
        .add_lookup_param(&[10, 5], ParamInit::Glorot(true, 1.0f32.to_bits()), "E")
        .unwrap();
    assert_eq!(table.lookup_dim(), 10);
}

#[test]
fn default_lookup_param_strips_the_row_count() {
    let mut pc = ParameterCollection::new();
    assert_eq!(
        pc.add_default_lookup_param(&[10]).unwrap_err(),
        Error::InvalidArgument
    );
    let table = pc.add_default_lookup_param(&[10000, 200]).unwrap();
    assert_eq!(table.lookup_dim(), 10000);
}

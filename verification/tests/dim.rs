use dynet::Dim;
use dynet::Error;

#[test]
fn dim_reports_rank_and_batch() {
    let d = Dim::new(&[2, 3, 4], 5).unwrap();
    assert_eq!(d.ordre(), 3);
    assert_eq!(d.batch_size(), 5);
}

#[test]
fn dim_indexing_is_bounds_checked() {
    let d = Dim::new(&[2, 3, 4], 1).unwrap();
    assert_eq!(d.index(0), Ok(2));
    assert_eq!(d.index(1), Ok(3));
    assert_eq!(d.index(2), Ok(4));
    assert_eq!(d.index(3), Err(Error::InvalidArgument));
}

#[test]
fn dim_rejects_zero_batch() {
    assert_eq!(Dim::new(&[2], 0).unwrap_err(), Error::InvalidArgument);
}

#[test]
fn dim_rejects_empty_but_batched_shape() {
    assert_eq!(Dim::new(&[], 2).unwrap_err(), Error::InvalidArgument);
    let scalar = Dim::new(&[], 1).unwrap();
    assert_eq!(scalar.ordre(), 0);
    assert_eq!(scalar.batch_size(), 1);
}

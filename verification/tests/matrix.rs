use k_ia::matrix::{multiply_shape, MatrixError};

#[test]
fn inner_dimension_mismatch_fails() {
    assert_eq!(multiply_shape(2, 3, 4, 2), Err(MatrixError::DimensionMismatch));
}

#[test]
fn empty_operands_give_the_empty_product() {
    assert_eq!(multiply_shape(0, 0, 0, 0), Ok(None));
    assert_eq!(multiply_shape(0, 0, 3, 2), Ok(None));
    assert_eq!(multiply_shape(3, 2, 0, 0), Ok(None));
}

#[test]
fn matching_inner_dimensions_give_the_product_shape() {
    assert_eq!(multiply_shape(2, 2, 2, 2), Ok(Some((2, 2))));
    assert_eq!(multiply_shape(2, 3, 3, 5), Ok(Some((2, 5))));
}

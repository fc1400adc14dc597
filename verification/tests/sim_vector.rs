use arc_rw_lock::sim::array_vector::ArrayVector;
use arc_rw_lock::sim::vector::Vector;

#[test]
fn vectors_add_component_by_component() {
    assert_eq!((ArrayVector([1i64, 2, 3]) + ArrayVector([10, 20, 30])).0, [11, 22, 33]);
    assert_eq!((ArrayVector::<i64, 0>([]) + ArrayVector([])).0, []);
}

#[test]
fn vectors_subtract_component_by_component() {
    assert_eq!((ArrayVector([1i64, 2, 3]) - ArrayVector([10, 20, 30])).0, [-9, -18, -27]);
}

#[test]
fn vectors_scale_by_a_component() {
    assert_eq!((ArrayVector([1i64, -2, 3]) * 4).0, [4, -8, 12]);
    assert_eq!((ArrayVector([8i64, -9, 3]) / 2).0, [4, -4, 1]);
}

#[test]
fn vectors_negate_component_by_component() {
    assert_eq!((-ArrayVector([1i64, -2, 0])).0, [-1, 2, 0]);
}

#[test]
fn the_assigning_forms_change_the_vector_in_place() {
    let mut v = ArrayVector([1i64, 2, 3]);
    v.add_assign(ArrayVector([1, 1, 1]));
    assert_eq!(v.0, [2, 3, 4]);
    v.sub_assign(ArrayVector([0, 1, 2]));
    assert_eq!(v.0, [2, 2, 2]);
    v.mul_assign(6);
    assert_eq!(v.0, [12, 12, 12]);
    v.div_assign(4);
    assert_eq!(v.0, [3, 3, 3]);
}

#[test]
fn the_components_can_be_read_and_changed() {
    let mut v = ArrayVector([1i64, 2]);
    assert_eq!(v.as_array(), &[1, 2]);
    v.as_mut_array()[1] = 7;
    assert_eq!(v.0, [1, 7]);
}

#[test]
fn the_magnitude_squared_is_the_sum_of_the_squares() {
    assert_eq!(ArrayVector([3i64, -4]).magnitude_squared(), 25);
    assert_eq!(ArrayVector([1i64, 2, 3, 4]).magnitude_squared(), 30);
    assert_eq!(ArrayVector([-7i64]).magnitude_squared(), 49);
    assert_eq!(ArrayVector::<i64, 0>([]).magnitude_squared(), 0);
}

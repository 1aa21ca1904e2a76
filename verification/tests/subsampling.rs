use ndi_sdk_sys::subsampling::Subsampling;

#[test]
fn no_subsampling() {
    let not_subsampled = Subsampling::new(4, 4, 4);
    assert!(!not_subsampled.is_subsampled());
    assert!(not_subsampled.is_regular());
    assert_eq!(not_subsampled.x_grouping(), 1);
    assert_eq!(not_subsampled.y_grouping(), 1);
}

#[test]
fn subsampling_4_2_2() {
    let subsampled = Subsampling::new(4, 2, 2);
    assert!(subsampled.is_subsampled());
    assert!(subsampled.is_regular());
    assert_eq!(subsampled.x_grouping(), 2);
    assert_eq!(subsampled.y_grouping(), 1);
}

#[test]
fn subsampling_4_2_0() {
    let subsampled = Subsampling::new(4, 2, 0);
    assert!(subsampled.is_subsampled());
    assert!(subsampled.is_regular());
    assert_eq!(subsampled.x_grouping(), 2);
    assert_eq!(subsampled.y_grouping(), 2);
}

#[test]
fn subsampling_4_1_1() {
    let subsampled = Subsampling::new(4, 1, 1);
    assert!(subsampled.is_subsampled());
    assert!(subsampled.is_regular());
    assert_eq!(subsampled.x_grouping(), 4);
    assert_eq!(subsampled.y_grouping(), 1);
}

#[test]
fn subsampling_4_4_0() {
    let subsampled = Subsampling::new(4, 4, 0);
    assert!(subsampled.is_subsampled());
    assert!(subsampled.is_regular());
    assert_eq!(subsampled.x_grouping(), 1);
    assert_eq!(subsampled.y_grouping(), 2);
}

#[test]
fn irregular_subsampling() {
    let irregular = Subsampling::new(4, 3, 2);
    assert!(irregular.is_subsampled());
    assert!(!irregular.is_regular());
}

#[test]
fn zero_reference() {
    let zero_ref = Subsampling::new(0, 0, 0);
    assert!(!zero_ref.is_regular());
}

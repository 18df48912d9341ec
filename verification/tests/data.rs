use ironlab_ir::data::{append_entries, next_data_id};
use ironlab_ir::edit::EditError;
use ironlab_ir::ids::DataId;

#[test]
fn appended_entries_follow_the_existing_ones() {
    let mut shape = vec![2, 3];
    let mut values: Vec<f64> = vec![0.0, 1.0, 2.0, 3.0, 4.0, 5.0];
    append_entries(DataId(1), &mut shape, &mut values, &vec![1, 3], vec![6.0, 7.0, 8.0], None).unwrap();
    assert_eq!(shape, [3, 3]);
    assert_eq!(values, [0.0, 1.0, 2.0, 3.0, 4.0, 5.0, 6.0, 7.0, 8.0]);
}

#[test]
fn a_rolling_window_keeps_the_last_entries() {
    let mut shape = vec![2, 3];
    let mut values: Vec<u8> = vec![0, 1, 2, 3, 4, 5];
    append_entries(DataId(1), &mut shape, &mut values, &vec![1, 3], vec![6, 7, 8], Some(2)).unwrap();
    assert_eq!(shape, [2, 3]);
    assert_eq!(values, [3, 4, 5, 6, 7, 8]);

    // A window wider than the array keeps everything.
    append_entries(DataId(1), &mut shape, &mut values, &vec![1, 3], vec![9, 10, 11], Some(100)).unwrap();
    assert_eq!(shape, [3, 3]);
    assert_eq!(values.len(), 9);

    // A window of no entries keeps nothing.
    append_entries(DataId(1), &mut shape, &mut values, &vec![0, 3], vec![], Some(0)).unwrap();
    assert_eq!(shape, [0, 3]);
    assert!(values.is_empty());

    let mut vector = vec![4];
    let mut values: Vec<f64> = vec![1.0, 2.0, 3.0, 4.0];
    append_entries(DataId(2), &mut vector, &mut values, &vec![2], vec![5.0, 6.0], Some(u64::MAX)).unwrap();
    assert_eq!(vector, [6]);
}

#[test]
fn entries_of_another_shape_are_refused() {
    let mut shape = vec![2, 3];
    let mut values: Vec<f64> = vec![0.0; 6];
    let error = append_entries(DataId(4), &mut shape, &mut values, &vec![1, 2], vec![0.0; 2], None);
    assert_eq!(
        error,
        Err(EditError::ShapeMismatch { edit: None, id: DataId(4), existing: vec![2, 3], appended: vec![1, 2] })
    );
    assert_eq!(shape, [2, 3]);
    assert_eq!(values.len(), 6);

    let mut scalar: Vec<usize> = vec![];
    let mut one: Vec<f64> = vec![1.0];
    assert!(append_entries(DataId(5), &mut scalar, &mut one, &vec![1], vec![2.0], None).is_err());
    let mut vector = vec![1];
    assert!(append_entries(DataId(5), &mut vector, &mut one, &vec![], vec![2.0], None).is_err());
}

#[test]
fn new_arrays_take_the_next_free_identifier() {
    assert_eq!(next_data_id(&vec![]), DataId(0));
    assert_eq!(next_data_id(&vec![DataId(0), DataId(4)]), DataId(5));
    assert_eq!(next_data_id(&vec![DataId(0), DataId(1), DataId(3), DataId(u64::MAX)]), DataId(2));
    assert_eq!(next_data_id(&vec![DataId(2), DataId(u64::MAX)]), DataId(0));
}

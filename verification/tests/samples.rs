use lint_corpus::samples::{
    cast_sign_loss, cast_truncation, clone_on_copy, complex_function, dangerous_ref_patterns,
    expect_example, len_zero_example, manual_map_example, needless_return_example,
    panic_example, ptr_arg_example, redundant_closure_example, string_add, too_many_args,
    unwrap_example, unwrap_result,
};

#[test]
fn complex_function_selects_each_branch() {
    assert_eq!(complex_function(1, 1, 1, 1), 1);
    assert_eq!(complex_function(1, 1, 1, -1), 2);
    assert_eq!(complex_function(1, 1, -1, 1), 3);
    assert_eq!(complex_function(1, 1, -1, -1), 4);
    assert_eq!(complex_function(1, -1, 1, 0), 5);
    assert_eq!(complex_function(1, -1, -1, 0), 6);
    assert_eq!(complex_function(0, 9, 9, 9), 7);
    assert_eq!(complex_function(-3, 0, 0, 0), 7);
}

#[test]
fn too_many_args_sums_all_eight() {
    assert_eq!(too_many_args(1, 2, 3, 4, 5, 6, 7, 8), 36);
    assert_eq!(too_many_args(-1, -2, -3, -4, 4, 3, 2, 1), 0);
    assert_eq!(
        too_many_args(i32::MAX, i32::MIN, 0, 0, 0, 0, 0, 1),
        0
    );
}

#[test]
fn needless_return_adds_one() {
    assert_eq!(needless_return_example(5), 6);
    assert_eq!(needless_return_example(-1), 0);
    assert_eq!(needless_return_example(i32::MAX - 1), i32::MAX);
}

#[test]
fn manual_map_increments_held_value() {
    assert_eq!(manual_map_example(Some(5)), Some(6));
    assert_eq!(manual_map_example(Some(-7)), Some(-6));
    assert_eq!(manual_map_example(None), None);
}

#[test]
fn len_zero_detects_emptiness() {
    let empty: [i32; 0] = [];
    assert!(len_zero_example(&empty));
    assert!(!len_zero_example(&[1, 2, 3]));
}

#[test]
fn ptr_arg_sums_the_vector() {
    assert_eq!(ptr_arg_example(&vec![1, 2, 3]), 6);
    assert_eq!(ptr_arg_example(&Vec::new()), 0);
    assert_eq!(ptr_arg_example(&vec![-5, 5, 10]), 10);
}

#[test]
fn panic_free_samples_run() {
    unwrap_example();
    unwrap_result();
    expect_example();
    panic_example(false);
    clone_on_copy();
    redundant_closure_example();
    cast_truncation();
    cast_sign_loss();
    string_add();
    dangerous_ref_patterns();
}

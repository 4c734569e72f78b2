use imgchat::driver::chunk8;

#[test]
fn twenty_inputs_make_three_batches() {
    let xs: Vec<u32> = (0..20).collect();
    let r = chunk8(xs);
    assert_eq!(r.len(), 3);
    assert_eq!(r[0], (0..8).collect::<Vec<u32>>());
    assert_eq!(r[1], (8..16).collect::<Vec<u32>>());
    assert_eq!(r[2], (16..20).collect::<Vec<u32>>());
}

#[test]
fn a_multiple_of_eight_fills_every_batch() {
    let xs: Vec<u32> = (0..16).collect();
    let r = chunk8(xs);
    assert_eq!(r.len(), 2);
    assert_eq!(r[0].len(), 8);
    assert_eq!(r[1].len(), 8);
}

#[test]
fn no_inputs_make_no_batches() {
    let xs: Vec<String> = Vec::new();
    assert_eq!(chunk8(xs).len(), 0);
}

#[test]
fn fewer_than_eight_stay_in_one_batch_in_order() {
    let r = chunk8(vec![String::from("a"), String::from("b"), String::from("c")]);
    assert_eq!(r.len(), 1);
    assert_eq!(r[0], vec!["a", "b", "c"]);
}

#[test]
fn nine_inputs_leave_one_for_the_last_batch() {
    let xs: Vec<u32> = (0..9).collect();
    let r = chunk8(xs);
    assert_eq!(r.len(), 2);
    assert_eq!(r[0].len(), 8);
    assert_eq!(r[1], vec![8]);
}

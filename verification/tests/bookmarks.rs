use cfile::errors::Error;
use cfile::handle::position_outcome;
use cfile::pos::wrapped_fpos;

#[test]
fn a_bookmark_keeps_the_captured_record() {
    let token = wrapped_fpos::new(vec![4, 0, 0, 9]);
    assert_eq!(token.as_ptr().bytes, vec![4, 0, 0, 9]);
}

#[test]
fn position_outcome_owns_the_record_on_success() {
    let token = position_outcome(0, vec![1, 2, 3]).unwrap();
    assert_eq!(token.as_ptr().bytes, vec![1, 2, 3]);
}

#[test]
fn position_outcome_translates_a_native_failure() {
    let r = position_outcome(3, vec![1, 2, 3]);
    assert!(r.is_err());
    assert_eq!(r.err().unwrap(), Error::GetPositionFailed(3));
}

#[test]
fn a_cloned_bookmark_is_an_independent_record() {
    let original = wrapped_fpos::new(vec![1, 2, 3]);
    let mut copy = original.clone();
    copy.as_mut_ptr().bytes[0] = 9;
    assert_eq!(original.as_ptr().bytes, vec![1, 2, 3]);
    assert_eq!(copy.as_ptr().bytes, vec![9, 2, 3]);
}

#[test]
fn a_bookmark_outlives_the_record_it_was_built_from() {
    let record = vec![8, 8, 8, 8];
    let token = position_outcome(0, record).unwrap();
    let duplicate = token.clone();
    drop(token);
    assert_eq!(duplicate.as_ptr().bytes, vec![8, 8, 8, 8]);
}

use sentinel_count::input::{append_token, TokenAction};

#[test]
fn tokens_in_domain_are_appended() {
    let mut nums: Vec<i32> = Vec::new();
    assert_eq!(append_token(&mut nums, 0), TokenAction::Kept);
    assert_eq!(append_token(&mut nums, 1), TokenAction::Kept);
    assert_eq!(nums, vec![0, 1]);
}

#[test]
fn sentinel_is_appended_and_stops_reading() {
    let mut nums: Vec<i32> = vec![1, 0];
    assert_eq!(append_token(&mut nums, 2), TokenAction::Stopped);
    assert_eq!(nums, vec![1, 0, 2]);
}

#[test]
fn out_of_domain_tokens_are_rejected() {
    let mut nums: Vec<i32> = vec![1];
    assert_eq!(append_token(&mut nums, 3), TokenAction::Rejected);
    assert_eq!(append_token(&mut nums, -1), TokenAction::Rejected);
    assert_eq!(append_token(&mut nums, 42), TokenAction::Rejected);
    assert_eq!(nums, vec![1]);
}

use debug_session::cancel::CancellationFilter;
use debug_session::request::Command;

#[test]
fn resuming_cancels_the_group() {
    let mut f = CancellationFilter::new();
    assert!(f.on_request(1, Command::Scopes, None, 11, &vec![]).activate.is_empty());
    assert!(f.on_request(2, Command::Variables, None, 12, &vec![11]).activate.is_empty());
    assert!(f.on_request(3, Command::Threads, None, 13, &vec![11, 12]).activate.is_empty());
    assert!(f.on_request(4, Command::Evaluate, None, 14, &vec![11, 12, 13]).activate.is_empty());
    let d = f.on_request(5, Command::Continue, None, 15, &vec![11, 12, 13, 14]);
    assert_eq!(d.activate, vec![11, 12, 14]);
    assert!(d.forward);
}

#[test]
fn every_resuming_or_ending_request_cancels_the_group() {
    for command in [
        Command::Continue,
        Command::Pause,
        Command::Next,
        Command::StepIn,
        Command::StepOut,
        Command::StepBack,
        Command::ReverseContinue,
        Command::Terminate,
        Command::Disconnect,
    ] {
        let mut f = CancellationFilter::new();
        f.on_request(1, Command::Evaluate, None, 11, &vec![]);
        assert_eq!(f.on_request(2, command, None, 12, &vec![11]).activate, vec![11]);
    }
}

#[test]
fn answered_requests_are_not_cancelled() {
    let mut f = CancellationFilter::new();
    f.on_request(1, Command::Scopes, None, 11, &vec![]);
    f.on_request(2, Command::Variables, None, 12, &vec![11]);
    let d = f.on_request(3, Command::Next, None, 13, &vec![12]);
    assert_eq!(d.activate, vec![12]);
}

#[test]
fn cancel_names_one_request() {
    let mut f = CancellationFilter::new();
    f.on_request(7, Command::Threads, None, 70, &vec![]);
    f.on_request(8, Command::Scopes, None, 80, &vec![70]);
    let d = f.on_request(9, Command::Cancel, Some(7), 90, &vec![70, 80]);
    assert_eq!(d.activate, vec![70]);
    assert!(!d.forward);
    // The request is forgotten, and so is the number of the cancel request.
    assert!(f.on_request(10, Command::Cancel, Some(7), 91, &vec![70, 80]).activate.is_empty());
    assert!(f.on_request(11, Command::Cancel, Some(9), 92, &vec![70, 80, 90]).activate.is_empty());
}

#[test]
fn cancel_without_a_known_number_does_nothing() {
    let mut f = CancellationFilter::new();
    f.on_request(7, Command::Threads, None, 70, &vec![]);
    let d = f.on_request(8, Command::Cancel, None, 80, &vec![70]);
    assert!(d.activate.is_empty() && !d.forward);
    let d = f.on_request(9, Command::Cancel, Some(99), 90, &vec![70]);
    assert!(d.activate.is_empty() && !d.forward);
}

#[test]
fn request_numbers_are_cut_to_their_width() {
    let mut f = CancellationFilter::new();
    f.on_request(7, Command::Threads, None, 70, &vec![]);
    let d = f.on_request(8, Command::Cancel, Some(0x1_0000_0007), 80, &vec![70]);
    assert_eq!(d.activate, vec![70]);
}

#[test]
fn cancelled_requests_stay_in_the_group() {
    let mut f = CancellationFilter::new();
    f.on_request(1, Command::Evaluate, None, 11, &vec![]);
    f.on_request(2, Command::Cancel, Some(1), 12, &vec![11]);
    assert_eq!(f.on_request(3, Command::Pause, None, 13, &vec![11]).activate, vec![11]);
}

#[test]
fn waiting_requests_stay_until_they_are_named() {
    let mut f = CancellationFilter::new();
    f.on_request(1, Command::Evaluate, None, 11, &vec![]);
    for seq in 2..20u32 {
        f.on_request(seq, Command::Threads, None, 1000 + seq as u64, &vec![11]);
    }
    assert_eq!(f.on_request(20, Command::Cancel, Some(1), 20, &vec![11]).activate, vec![11]);
}

use cancelable_worker::control::{Command, Submitter};

#[test]
fn t_submits_and_i_cancels() {
    assert_eq!(Command::from_key('t'), Command::Submit);
    assert_eq!(Command::from_key('i'), Command::Cancel);
}

#[test]
fn every_other_key_leaves() {
    assert_eq!(Command::from_key('q'), Command::Exit);
    assert_eq!(Command::from_key('T'), Command::Exit);
    assert_eq!(Command::from_key('I'), Command::Exit);
    assert_eq!(Command::from_key(' '), Command::Exit);
    assert_eq!(Command::from_key('\n'), Command::Exit);
    assert_eq!(Command::from_key('1'), Command::Exit);
}

#[test]
fn tasks_are_numbered_from_one_upwards() {
    let mut submitter = Submitter::new();
    let mut expected: usize = 1;
    while expected <= 50 {
        let task = submitter.next_task().expect("a number is left");
        assert_eq!(task.id(), expected);
        expected += 1;
    }
}

#[test]
fn two_submitters_number_on_their_own() {
    let mut first = Submitter::new();
    let mut second = Submitter::new();
    assert_eq!(first.next_task().map(|task| task.id()), Some(1));
    assert_eq!(first.next_task().map(|task| task.id()), Some(2));
    assert_eq!(second.next_task().map(|task| task.id()), Some(1));
    assert_eq!(first.next_task().map(|task| task.id()), Some(3));
}

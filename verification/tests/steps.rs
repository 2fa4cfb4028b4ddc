use wasefire_tools::command::CommandLine;
use wasefire_tools::steps::{next, Progress};

fn commands(names: &[&'static str]) -> Vec<CommandLine<'static>> {
    names.iter().map(|name| CommandLine::new(name)).collect()
}

#[test]
fn steps_are_taken_in_order() {
    let mut progress = next(commands(&["a", "b", "c"]), Ok::<(), u8>(()));
    let mut done = Vec::new();
    let result = loop {
        progress = match progress {
            Progress::Next { step, rest } => {
                done.push(step.program);
                next(rest, Ok(()))
            }
            Progress::Done(result) => break result,
        };
    };
    assert_eq!(done, ["a", "b", "c"]);
    assert_eq!(result, Ok(()));
}

#[test]
fn no_steps_end_well() {
    assert!(matches!(next(commands(&[]), Ok::<(), u8>(())), Progress::Done(Ok(()))));
}

#[test]
fn failure_leaves_the_other_steps() {
    assert!(matches!(next(commands(&["a", "b"]), Err(7u8)), Progress::Done(Err(7))));
    assert!(matches!(next(commands(&[]), Err(7u8)), Progress::Done(Err(7))));
}

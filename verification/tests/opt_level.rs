use wasefire_tools::opt_level::OptLevel;

const ALL: [OptLevel; 6] =
    [OptLevel::O0, OptLevel::O1, OptLevel::O2, OptLevel::O3, OptLevel::Os, OptLevel::Oz];

#[test]
fn letters_optimize_for_size() {
    let small: Vec<bool> = ALL.iter().map(|x| x.optimize_for_size()).collect();
    assert_eq!(small, [false, false, false, false, true, true]);
}

#[test]
fn names_are_those_of_the_compiler() {
    let names: Vec<&str> = ALL.iter().map(|x| x.name()).collect();
    assert_eq!(names, ["0", "1", "2", "3", "s", "z"]);
}

#[test]
fn letters_are_quoted() {
    let shown: Vec<String> = ALL.iter().map(|x| x.fmt(false)).collect();
    assert_eq!(shown, ["0", "1", "2", "3", "\"s\"", "\"z\""]);
}

#[test]
fn alternate_form_is_not_quoted() {
    let shown: Vec<String> = ALL.iter().map(|x| x.fmt(true)).collect();
    assert_eq!(shown, ["0", "1", "2", "3", "s", "z"]);
}

#[test]
fn levels_are_told_apart() {
    for a in ALL {
        for b in ALL {
            assert_eq!(a.fmt(false) == b.fmt(false), a == b);
            assert_eq!(a.fmt(true) == b.fmt(true), a == b);
        }
    }
}

use entity_systems::utils::RunIfTrue;

#[test]
fn the_second_runs_where_the_first_says_true() {
    let mut ran = false;
    let out = RunIfTrue::combine(
        5,
        |input| input > 3,
        |()| {
            ran = true;
            42
        },
    );
    assert_eq!(out, 42);
    assert!(ran);
}

#[test]
fn the_default_comes_back_where_the_first_says_false() {
    let mut ran = false;
    let out = RunIfTrue::combine(
        2,
        |input| input > 3,
        |()| {
            ran = true;
            42
        },
    );
    assert_eq!(out, 0);
    assert!(!ran);
}

use call_tracer::operation::Operation;
use call_tracer::tracer::{func_a, func_b, func_c, func_d, func_e, func_f, run};
use call_tracer::transcript::Transcript;

fn lines_of(operation: fn(&mut Transcript)) -> Vec<&'static str> {
    let mut out = Transcript::new();
    operation(&mut out);
    out.lines()
}

fn text_of(operation: fn(&mut Transcript)) -> String {
    let mut out = Transcript::new();
    operation(&mut out);
    out.render()
}

#[test]
fn func_e_emits_exactly_its_own_line() {
    assert_eq!(lines_of(func_e), vec!["func_e"]);
    assert_eq!(text_of(func_e), "func_e\n");
}

#[test]
fn func_d_emits_its_callee_then_itself() {
    assert_eq!(lines_of(func_d), vec!["func_e", "func_d"]);
    assert_eq!(text_of(func_d), "func_e\nfunc_d\n");
}

#[test]
fn func_c_emits_the_chain_below_it_then_itself() {
    assert_eq!(lines_of(func_c), vec!["func_e", "func_d", "func_c"]);
}

#[test]
fn func_b_emits_the_chain_below_it_then_itself() {
    assert_eq!(lines_of(func_b), vec!["func_e", "func_d", "func_c", "func_b"]);
}

#[test]
fn func_a_emits_the_whole_chain_then_itself() {
    assert_eq!(
        lines_of(func_a),
        vec!["func_e", "func_d", "func_c", "func_b", "func_a"]
    );
    assert_eq!(text_of(func_a), "func_e\nfunc_d\nfunc_c\nfunc_b\nfunc_a\n");
}

#[test]
fn func_f_emits_itself_before_its_callee() {
    assert_eq!(lines_of(func_f), vec!["func_f", "func_e"]);
    assert_eq!(text_of(func_f), "func_f\nfunc_e\n");
}

#[test]
fn callers_other_than_func_f_come_after_their_callee() {
    let pairs: Vec<(fn(&mut Transcript), &str, &str)> = vec![
        (func_a, "func_a", "func_b"),
        (func_b, "func_b", "func_c"),
        (func_c, "func_c", "func_d"),
        (func_d, "func_d", "func_e"),
    ];
    for (operation, caller, callee) in pairs {
        let lines = lines_of(operation);
        let caller_at = lines.iter().position(|line| *line == caller).unwrap();
        let callee_at = lines.iter().position(|line| *line == callee).unwrap();
        assert!(callee_at < caller_at);
        assert_eq!(lines.iter().filter(|line| **line == caller).count(), 1);
    }
    let lines = lines_of(func_f);
    let caller_at = lines.iter().position(|line| *line == "func_f").unwrap();
    let callee_at = lines.iter().position(|line| *line == "func_e").unwrap();
    assert!(caller_at < callee_at);
}

#[test]
fn run_emits_every_operation_in_turn() {
    assert_eq!(
        lines_of(run),
        vec![
            "func_e", "func_d", "func_c", "func_b", "func_a", "func_e", "func_d", "func_c",
            "func_b", "func_e", "func_d", "func_c", "func_e", "func_d", "func_e", "func_f",
            "func_e",
        ]
    );
}

#[test]
fn run_renders_one_line_feed_after_each_line() {
    assert_eq!(
        text_of(run),
        "func_e\nfunc_d\nfunc_c\nfunc_b\nfunc_a\nfunc_e\nfunc_d\nfunc_c\nfunc_b\n\
         func_e\nfunc_d\nfunc_c\nfunc_e\nfunc_d\nfunc_e\nfunc_f\nfunc_e\n"
    );
}

#[test]
fn run_is_the_six_operations_one_after_the_other() {
    let mut by_hand = Transcript::new();
    func_a(&mut by_hand);
    func_b(&mut by_hand);
    func_c(&mut by_hand);
    func_d(&mut by_hand);
    func_e(&mut by_hand);
    func_f(&mut by_hand);
    assert_eq!(by_hand.lines(), lines_of(run));
    assert_eq!(by_hand.render(), text_of(run));
}

#[test]
fn running_again_gives_the_same_bytes() {
    let first = text_of(run);
    for _ in 0..5 {
        assert_eq!(text_of(run).as_bytes(), first.as_bytes());
    }
}

#[test]
fn a_second_run_appends_the_same_lines_again() {
    let mut out = Transcript::new();
    run(&mut out);
    let once = out.render();
    run(&mut out);
    assert_eq!(out.len(), 34);
    assert_eq!(out.render(), format!("{}{}", once, once));
}

#[test]
fn operations_append_to_what_is_there() {
    let mut out = Transcript::new();
    func_f(&mut out);
    func_d(&mut out);
    assert_eq!(out.lines(), vec!["func_f", "func_e", "func_e", "func_d"]);
    assert_eq!(out.len(), 4);
}

#[test]
fn new_transcript_is_empty() {
    let out = Transcript::new();
    assert_eq!(out.len(), 0);
    assert!(out.lines().is_empty());
    assert_eq!(out.render(), "");
}

#[test]
fn record_adds_one_line_at_the_end() {
    let mut out = Transcript::new();
    out.record(Operation::C);
    out.record(Operation::A);
    assert_eq!(out.len(), 2);
    assert_eq!(out.lines(), vec!["func_c", "func_a"]);
    assert_eq!(out.render(), "func_c\nfunc_a\n");
}

#[test]
fn every_operation_has_its_name() {
    assert_eq!(Operation::A.name(), "func_a");
    assert_eq!(Operation::B.name(), "func_b");
    assert_eq!(Operation::C.name(), "func_c");
    assert_eq!(Operation::D.name(), "func_d");
    assert_eq!(Operation::E.name(), "func_e");
    assert_eq!(Operation::F.name(), "func_f");
}

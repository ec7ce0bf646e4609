use symvalue::SMTResults;
use symvalue::verdict_from_code;

#[test]
fn negative_code_is_unsat() {
    assert_eq!(verdict_from_code(-1), SMTResults::UNSAT);
}

#[test]
fn zero_code_is_undef() {
    assert_eq!(verdict_from_code(0), SMTResults::UNDEF);
}

#[test]
fn positive_code_is_sat() {
    assert_eq!(verdict_from_code(1), SMTResults::SAT);
}

#[test]
fn verdict_names() {
    assert_eq!(SMTResults::SAT.as_text(), "sat");
    assert_eq!(SMTResults::UNSAT.as_text(), "unsat");
    assert_eq!(SMTResults::UNDEF.as_text(), "undef");
}

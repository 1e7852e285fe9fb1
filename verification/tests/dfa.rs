use hunt::dfa::{Dfa, MySymbol};

#[test]
fn test_dfa() {
    let dfa = Dfa::new();
    assert!(dfa.accepts(&[MySymbol::Zero, MySymbol::One]));
    assert!(!dfa.accepts(&[MySymbol::Zero, MySymbol::One, MySymbol::One]));
}

#[test]
fn dfa_rejects_empty_input() {
    let dfa = Dfa::new();
    assert!(!dfa.accepts(&[]));
}

#[test]
fn dfa_accepts_single_one() {
    let dfa = Dfa::new();
    assert!(dfa.accepts(&[MySymbol::One]));
    assert!(!dfa.accepts(&[MySymbol::Zero]));
}

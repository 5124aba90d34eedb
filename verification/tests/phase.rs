use vector_dot_product::phase::Phase;

#[test]
fn phases_follow_in_order() {
    let mut seen = vec![Phase::Start];
    let mut phase = Phase::Start;
    while !phase.is_end() {
        phase = phase.next();
        seen.push(phase);
    }
    assert_eq!(
        seen,
        vec![
            Phase::Start,
            Phase::ParseArgument,
            Phase::GenerateVectors,
            Phase::Compute,
            Phase::ReportResults,
            Phase::End,
        ]
    );
}

#[test]
fn end_is_final() {
    assert!(Phase::End.is_end());
    assert_eq!(Phase::End.next(), Phase::End);
    assert!(!Phase::Start.is_end());
    assert!(!Phase::ReportResults.is_end());
}

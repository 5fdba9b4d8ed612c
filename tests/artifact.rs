use rcrdr::artifact::{check_probe, check_size, ArtifactProblem, ProbeReport};

fn probe(success: bool, output: &str) -> Option<ProbeReport> {
    Some(ProbeReport { success, output: output.to_string() })
}

#[test]
fn missing_or_empty_file_fails() {
    assert_eq!(check_size(None), Err(ArtifactProblem::Inaccessible));
    assert_eq!(check_size(Some(0)), Err(ArtifactProblem::Empty));
    assert_eq!(check_size(Some(1)), Ok(()));
    assert_eq!(check_size(Some(u64::MAX)), Ok(()));
}

#[test]
fn probe_positive_duration_passes() {
    assert_eq!(check_probe(&probe(true, "3.000000\n")), Ok(()));
    assert_eq!(check_probe(&probe(true, "  12\r\n")), Ok(()));
    assert_eq!(check_probe(&probe(true, "+0.5")), Ok(()));
    assert_eq!(check_probe(&probe(true, ".5")), Ok(()));
    assert_eq!(check_probe(&probe(true, "1e3")), Ok(()));
    assert_eq!(check_probe(&probe(true, "2.5E-2\n")), Ok(()));
    assert_eq!(check_probe(&probe(true, "\u{a0}4.0\u{3000}")), Ok(()));
}

#[test]
fn probe_exponents() {
    assert_eq!(check_probe(&probe(true, "0e5")), Err(ArtifactProblem::NonPositiveDuration));
    assert_eq!(check_probe(&probe(true, "-1e3")), Err(ArtifactProblem::NonPositiveDuration));
    assert_eq!(check_probe(&probe(true, "1e")), Err(ArtifactProblem::UnknownDuration));
    assert_eq!(check_probe(&probe(true, "1e+")), Err(ArtifactProblem::UnknownDuration));
    assert_eq!(check_probe(&probe(true, "e5")), Err(ArtifactProblem::UnknownDuration));
    assert_eq!(check_probe(&probe(true, "1e5e5")), Err(ArtifactProblem::UnknownDuration));
    assert_eq!(check_probe(&probe(true, "inf")), Err(ArtifactProblem::UnknownDuration));
}

#[test]
fn probe_failures_are_distinct() {
    assert_eq!(check_probe(&None), Err(ArtifactProblem::ProbeUnavailable));
    assert_eq!(check_probe(&probe(false, "3.0")), Err(ArtifactProblem::InvalidContainer));
    assert_eq!(check_probe(&probe(true, "N/A\n")), Err(ArtifactProblem::UnknownDuration));
    assert_eq!(check_probe(&probe(true, "")), Err(ArtifactProblem::UnknownDuration));
    assert_eq!(check_probe(&probe(true, "1.2.3")), Err(ArtifactProblem::UnknownDuration));
    assert_eq!(check_probe(&probe(true, ".")), Err(ArtifactProblem::UnknownDuration));
    assert_eq!(check_probe(&probe(true, "0.000000\n")), Err(ArtifactProblem::NonPositiveDuration));
    assert_eq!(check_probe(&probe(true, "-1.5")), Err(ArtifactProblem::NonPositiveDuration));
}

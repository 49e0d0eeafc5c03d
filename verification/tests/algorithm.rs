use rng::algorithm::Algorithm;

#[test]
fn parse_every_algorithm_name() {
    assert_eq!(Algorithm::from_str("hc"), Ok(Algorithm::Hc));
    assert_eq!(Algorithm::from_str("chacha"), Ok(Algorithm::ChaCha20));
    assert_eq!(Algorithm::from_str("chacha20"), Ok(Algorithm::ChaCha20));
    assert_eq!(Algorithm::from_str("chacha8"), Ok(Algorithm::ChaCha8));
    assert_eq!(Algorithm::from_str("chacha12"), Ok(Algorithm::ChaCha12));
    assert_eq!(Algorithm::from_str("xorshift"), Ok(Algorithm::XorShift));
    assert_eq!(Algorithm::from_str("pcg"), Ok(Algorithm::Pcg));
    assert_eq!(Algorithm::from_str("os"), Ok(Algorithm::Os));
}

#[test]
fn parse_rejects_unknown_names() {
    assert!(Algorithm::from_str("").is_err());
    assert!(Algorithm::from_str("md5").is_err());
    assert!(Algorithm::from_str("chacha0").is_err());
    assert!(Algorithm::from_str("HC").is_err());
    let err = Algorithm::from_str("bogus").unwrap_err();
    assert_eq!(
        err.message(),
        "Invalid algorithm. See --help for a list of valid options."
    );
}

#[test]
fn only_the_os_source_is_not_parallelizable() {
    assert!(Algorithm::ChaCha20.is_parallelizable());
    assert!(Algorithm::Pcg.is_parallelizable());
    assert!(Algorithm::Default.is_parallelizable());
    assert!(!Algorithm::Os.is_parallelizable());
}

use lazyreader::detector::{factorial, DetectorDataBuilder, DetectorError, DetectorValue};

#[test]
fn test_factorial() {
    assert_eq!(factorial(0), 1);
    assert_eq!(factorial(1), 1);
    assert_eq!(factorial(2), 2);
    assert_eq!(factorial(3), 6);
    assert_eq!(factorial(4), 24);
    assert_eq!(factorial(5), 120);
}

#[test]
fn factorial_largest() {
    assert_eq!(factorial(12), 479001600);
}

#[test]
fn data_builder_collects_values() {
    let data = DetectorDataBuilder::new()
        .add_bernoulli_value("word_contents_present", true)
        .add_bernoulli_value("word_index_bibliography_present", false)
        .add_poisson_value("word_chapter_count", 3)
        .build();
    assert_eq!(data.len(), 3);
    assert_eq!(data[0].0, "word_contents_present");
    assert_eq!(data[0].1, DetectorValue::Bernoulli(true));
    assert_eq!(data[1].1, DetectorValue::Bernoulli(false));
    assert_eq!(data[2].0, "word_chapter_count");
    assert_eq!(data[2].1, DetectorValue::Poisson(3));
}

#[test]
fn data_builder_equal_keys_replace() {
    let data = DetectorDataBuilder::new()
        .add_poisson_value("k", 1)
        .add_bernoulli_value("k", true)
        .build();
    assert_eq!(data.len(), 1);
    assert_eq!(data[0].1, DetectorValue::Bernoulli(true));
}

#[test]
fn data_builder_empty() {
    assert!(DetectorDataBuilder::new().build().is_empty());
}

#[test]
fn detector_error_messages() {
    assert_eq!(
        DetectorError::ParameterMapNone("poisson".to_string()).message(),
        "Parameter map is none for parameter type: poisson"
    );
    assert_eq!(
        DetectorError::BernoulliParameterNotFound("a".to_string()).message(),
        "Bernoulli parameter not found for key: a"
    );
    assert_eq!(
        DetectorError::PoissonParameterNotFound("b".to_string()).message(),
        "Poisson parameter not found for key: b"
    );
}

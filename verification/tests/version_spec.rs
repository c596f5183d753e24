use wmd::version::{Version, VersionSpec};

#[test]
fn latest_is_accepted() {
    assert!(matches!(VersionSpec::from_str("latest"), Ok(VersionSpec::Latest)));
}

#[test]
fn eight_digits_are_accepted() {
    match VersionSpec::from_str("20230301") {
        Ok(VersionSpec::Version(v)) => assert_eq!(v.as_str(), "20230301"),
        _ => panic!("eight digits are a version"),
    }
}

#[test]
fn other_texts_are_refused() {
    for text in ["", "2023030", "202303011", "2023030a", "Latest", "latest ", "２０２３０３０１"] {
        assert!(VersionSpec::from_str(text).is_err(), "{text:?}");
    }
}

#[test]
fn version_number_is_the_date() {
    assert_eq!(Version::parse("20230301").unwrap().number(), 20230301);
    assert_eq!(Version::parse("00000007").unwrap().number(), 7);
    assert_eq!(Version::parse("99999999").unwrap().number(), 99_999_999);
}

#[test]
fn version_request_is_read_by_parse_too() {
    assert_eq!("latest".parse::<VersionSpec>(), Ok(VersionSpec::Latest));
    assert!("20230301".parse::<VersionSpec>().is_ok());
    assert!("yesterday".parse::<VersionSpec>().is_err());
    assert_eq!(VersionSpec::from_str("20230301").unwrap().clone(), VersionSpec::from_str("20230301").unwrap());
}

use ebb::backend::BackendType;
use ebb::format::FormatType;

#[test]
fn s3_token_parses_in_any_case() {
    assert_eq!(BackendType::from_str("s3"), Ok(BackendType::S3));
    assert_eq!(BackendType::from_str("S3"), Ok(BackendType::S3));
}

#[test]
fn long_s_upper_cases_to_s() {
    assert_eq!("ſ3".to_uppercase(), "S3");
    assert_eq!(BackendType::from_str("ſ3"), Ok(BackendType::S3));
    assert_eq!(FormatType::from_str("ſ3"), Err(String::from("'ſ3' is not a valid format")));
}

#[test]
fn parsing_agrees_with_upper_case() {
    for s in ["s3", "S3", "ſ3", "do", "DO", "dO", "ß3", "ı3", "gcs", "", "ﬆ3", "Ｓ3", "s３"] {
        let up = s.to_uppercase();
        let expected = if up == "S3" {
            Ok(BackendType::S3)
        } else if up == "DO" {
            Ok(BackendType::DigitalOcean)
        } else {
            Err(format!("'{}' is not a valid backend", s))
        };
        assert_eq!(BackendType::from_str(s), expected);
    }
    for s in ["md", "MD", "html", "HTML", "hTmL", "ｍd", "htmı"] {
        let up = s.to_uppercase();
        let expected = if up == "MD" {
            Ok(FormatType::MD)
        } else if up == "HTML" {
            Ok(FormatType::HTML)
        } else {
            Err(format!("'{}' is not a valid format", s))
        };
        assert_eq!(FormatType::from_str(s), expected);
    }
}

#[test]
fn unknown_backend_token_is_rejected_with_its_name() {
    assert_eq!(
        BackendType::from_str("gcs"),
        Err(String::from("'gcs' is not a valid backend"))
    );
}

#[test]
fn digital_ocean_tokens() {
    assert_eq!(BackendType::from_str("do"), Ok(BackendType::DigitalOcean));
    assert_eq!(BackendType::from_str("Do"), Ok(BackendType::DigitalOcean));
    assert_eq!(BackendType::from_str("dO"), Ok(BackendType::DigitalOcean));
    assert_eq!(BackendType::from_str("DO"), Ok(BackendType::DigitalOcean));
}

#[test]
fn backend_tokens_round_trip() {
    for b in [BackendType::S3, BackendType::DigitalOcean] {
        assert_eq!(BackendType::from_str(b.token()), Ok(b));
        assert_eq!(BackendType::from_str(&b.token().to_uppercase()), Ok(b));
    }
    assert_eq!(BackendType::valid_tokens(), vec!["s3", "do"]);
}

#[test]
fn near_miss_backend_tokens_are_rejected() {
    for s in ["", "s", "s3 ", " s3", "s33", "d0", "aws", "ß3", "ﬆ3"] {
        let e = BackendType::from_str(s).unwrap_err();
        assert_eq!(e, format!("'{}' is not a valid backend", s));
    }
}

#[test]
fn format_tokens() {
    assert_eq!(FormatType::from_str("md"), Ok(FormatType::MD));
    assert_eq!(FormatType::from_str("HTML"), Ok(FormatType::HTML));
    assert_eq!(FormatType::from_str("HtMl"), Ok(FormatType::HTML));
    assert_eq!(FormatType::from_str(FormatType::MD.token()), Ok(FormatType::MD));
    assert_eq!(
        FormatType::from_str("txt"),
        Err(String::from("'txt' is not a valid format"))
    );
}

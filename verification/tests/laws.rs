use tempo::cadence::{Cadence, ParseError};
use tempo::date::Date;

#[test]
fn exact_counts_come_back_as_written() {
    for text in ["1h", "23h", "1d", "2d", "6d", "1w", "2w", "12w"] {
        assert_eq!(text, Cadence::from_str(text).unwrap().to_string());
    }
}

#[test]
fn other_counts_come_back_rounded() {
    assert_eq!("1d", Cadence::from_str("24h").unwrap().to_string());
    assert_eq!("1w", Cadence::from_str("7d").unwrap().to_string());
    assert_eq!("~3m", Cadence::from_str("13w").unwrap().to_string());
    assert_eq!("~4w", Cadence::from_str("1m").unwrap().to_string());
    assert_eq!("~9w", Cadence::from_str("2m").unwrap().to_string());
    assert_eq!("~3m", Cadence::from_str("3m").unwrap().to_string());
    assert_eq!("~12m", Cadence::from_str("1y").unwrap().to_string());
    assert_eq!("~2y", Cadence::from_str("2y").unwrap().to_string());
    assert_eq!("1d", Cadence::from_str("01d").unwrap().to_string());
    assert_eq!("<1h", Cadence::from_str("0d").unwrap().to_string());
}

#[test]
fn sums_count_both() {
    assert_eq!(Cadence::minutes(1_500), Cadence::days(1) + Cadence::hours(1));
    assert_eq!(Cadence::minutes(-1_380), Cadence::days(-1) + Cadence::hours(1));
    assert_eq!((Cadence::weeks(3) + Cadence::days(-4)).minutes, 30_240 - 5_760);
}

#[test]
fn there_and_back() {
    for seconds in [0, 1, -1, 1_640_995_200, -86_399] {
        for minutes in [0, 1, -1, 1_440, -43_200, 525_600] {
            let date = Date { seconds };
            let cadence = Cadence::minutes(minutes);
            assert_eq!(date, (date + cadence) - cadence);
        }
    }
}

#[test]
fn formatting_scenarios() {
    assert_eq!("1d", Cadence::days(1).to_string());
    assert_eq!("~2w", Cadence::days(11).to_string());
    assert_eq!("1w", Cadence::weeks(1).to_string());
    assert_eq!("~3m", Cadence::months(3).to_string());
    assert_eq!("~2y", Cadence::years(2).to_string());
}

#[test]
fn formatting_rounds_halves_up() {
    assert_eq!("~1h", Cadence::minutes(89).to_string());
    assert_eq!("~2h", Cadence::minutes(90).to_string());
    assert_eq!("~3h", Cadence::minutes(150).to_string());
    assert_eq!("~1h", Cadence::minutes(61).to_string());
    assert_eq!("~2d", Cadence::minutes(1_440 + 720).to_string());
    assert_eq!("~1d", Cadence::minutes(1_440 + 719).to_string());
    assert_eq!("~13w", Cadence::minutes(129_599).to_string());
    assert_eq!("~3m", Cadence::minutes(129_600).to_string());
    assert_eq!("~24m", Cadence::minutes(1_051_199).to_string());
    assert_eq!("~2y", Cadence::minutes(1_051_200).to_string());
    assert_eq!("~3y", Cadence::minutes(1_051_200 + 262_800).to_string());
    assert_eq!("~2y", Cadence::minutes(1_051_200 + 262_799).to_string());
    assert_eq!("~17548272520652y", Cadence::minutes(i64::MAX).to_string());
}

#[test]
fn formatting_edges() {
    assert_eq!("<1h", Cadence::minutes(0).to_string());
    assert_eq!("<1h", Cadence::minutes(59).to_string());
    assert_eq!("1h", Cadence::minutes(60).to_string());
    assert_eq!("23h", Cadence::hours(23).to_string());
    assert_eq!("6d", Cadence::days(6).to_string());
    assert_eq!("12w", Cadence::weeks(12).to_string());
    assert_eq!("1h", Cadence::default().to_string());
}

#[test]
fn formatting_keeps_the_sign() {
    assert_eq!("-4d", Cadence::days(-4).to_string());
    assert_eq!("-1d", Cadence::days(-1).to_string());
    assert_eq!("-<1h", Cadence::minutes(-1).to_string());
    assert_eq!("-~2w", Cadence::days(-11).to_string());
    assert_eq!("-~2y", Cadence::years(-2).to_string());
    assert_eq!("-~17548272520652y", Cadence::minutes(i64::MIN).to_string());
    assert_eq!(9_223_372_036_854_775_808, Cadence::minutes(i64::MIN).magnitude());
    assert_eq!(5, Cadence::minutes(-5).magnitude());
    assert_eq!(5, Cadence::minutes(5).magnitude());
}

#[test]
fn parse_edges() {
    assert_eq!(Ok(Cadence::minutes(0)), Cadence::from_str("0h"));
    assert_eq!(Ok(Cadence::hours(7)), Cadence::from_str("007h"));
    assert_eq!(
        Ok(Cadence::minutes(9_223_372_036_854_775_800)),
        Cadence::from_str("153722867280912930h")
    );
    assert_eq!(
        Err(ParseError::CouldntParseNumber("153722867280912931".to_string())),
        Cadence::from_str("153722867280912931h")
    );
    assert_eq!(
        Err(ParseError::CouldntParseNumber("99999999999999999999".to_string())),
        Cadence::from_str("99999999999999999999")
    );
    assert_eq!(Err(ParseError::ExtraStuff), Cadence::from_str("99999999999999999999dd"));
    assert_eq!(Err(ParseError::ExtraStuff), Cadence::from_str("-1d"));
    assert_eq!(Err(ParseError::ExtraStuff), Cadence::from_str("1 d"));
    assert_eq!(Err(ParseError::MissingTag), Cadence::from_str("1D"));
    assert_eq!(Err(ParseError::MissingTag), Cadence::from_str("1é"));
    assert_eq!(Err(ParseError::MissingTag), Cadence::from_str("1٣"));
    assert_eq!(Err(ParseError::ExtraStuff), Cadence::from_str("1٣d"));
    assert_eq!(Err(ParseError::MissingDigits), Cadence::from_str("٣"));
}

#[test]
fn parse_errors_in_words() {
    assert_eq!(
        "I expected to see some numbers, then a tag (like 1d), but I didn't see any numbers",
        ParseError::MissingDigits.to_string()
    );
    assert_eq!(
        "I couldn't parse a number from 99999999999999999999: number too large to fit in target type",
        Cadence::from_str("99999999999999999999d").unwrap_err().to_string()
    );
    assert_eq!(
        "I expected to see a tag (h, d, w, m, y) after the amount",
        ParseError::MissingTag.to_string()
    );
    assert_eq!(
        "I got extra stuff after the number and tag. Reduce it to something like 30d and try again",
        ParseError::ExtraStuff.to_string()
    );
}

#[test]
fn cadences_are_ordered_by_their_minutes() {
    assert!(Cadence::minutes(-1) < Cadence::minutes(0));
    assert!(Cadence::days(1) < Cadence::hours(25));
    assert!(Cadence::weeks(1) > Cadence::days(6));
    assert!(Cadence::weeks(1) >= Cadence::days(7));
    assert!(Cadence::weeks(1) <= Cadence::days(7));
    assert!(!(Cadence::weeks(1) < Cadence::days(7)));
    assert_eq!(Cadence::weeks(1), Cadence::days(7));
    assert_eq!(Cadence::days(7), Cadence::days(6).max(Cadence::days(7)));
    assert_eq!(
        Some(std::cmp::Ordering::Less),
        Cadence::minutes(i64::MIN).partial_cmp(&Cadence::minutes(i64::MAX))
    );
}

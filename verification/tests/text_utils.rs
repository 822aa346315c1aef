use ruche::text::{parse_signed_decimal, parse_unsigned_decimal, push_pad4, push_signed_decimal, split_chars, string_from_chars};
use ruche::utils::{
    format_duration, format_with_spaces, parse_summoner_slug, summoner_encounter_url, summoner_not_found_url,
    summoner_to_slug, summoner_url, try_parse_summoner_slug, version_to_major_minor, FixedSizeString,
};
use ruche::views::{date_filter, parse_date, BackEndMatchFiltersSearch};

#[test]
fn format_duration_pads_each_field() {
    assert_eq!(format_duration(Some(3725)), "01:02:05");
    assert_eq!(format_duration(None), "00:00:00");
    assert_eq!(format_duration(Some(59)), "00:00:59");
    assert_eq!(format_duration(Some(360000)), "100:00:00");
}

#[test]
fn format_duration_negative_seconds_truncate() {
    assert_eq!(format_duration(Some(-61)), "00:-1:-1");
}

#[test]
fn version_keeps_major_and_minor() {
    assert_eq!(version_to_major_minor("14.23.1"), "14.23");
    assert_eq!(version_to_major_minor("1.2"), "1.2");
}

#[test]
fn format_with_spaces_groups_thousands() {
    assert_eq!(format_with_spaces(0), "0");
    assert_eq!(format_with_spaces(999), "999");
    assert_eq!(format_with_spaces(1000), "1 000");
    assert_eq!(format_with_spaces(1234567), "1 234 567");
    assert_eq!(format_with_spaces(4294967295), "4 294 967 295");
}

#[test]
fn slug_encodes_each_part() {
    assert_eq!(summoner_to_slug("Faker".to_string(), "KR1".to_string()), "Faker-KR1");
    assert_eq!(summoner_to_slug("Le Joueur".to_string(), "EUW".to_string()), "Le%20Joueur-EUW");
    assert_eq!(summoner_to_slug("é".to_string(), "1#".to_string()), "%C3%A9-1%23");
}

#[test]
fn slug_round_trip() {
    for (g, t) in [("Faker", "KR1"), ("Le Joueur", "EUW"), ("Zoë ✨", "ÉTÉ"), ("a_b.c~d", "0")] {
        let slug = summoner_to_slug(g.to_string(), t.to_string());
        assert_eq!(parse_summoner_slug(&slug), (g.to_string(), t.to_string()));
        assert_eq!(try_parse_summoner_slug(&slug), Some((g.to_string(), t.to_string())));
    }
}

#[test]
fn slug_with_dash_in_name_is_not_given_back() {
    let slug = summoner_to_slug("a-b".to_string(), "EUW".to_string());
    assert_eq!(parse_summoner_slug(&slug), ("a".to_string(), String::new()));
}

#[test]
fn slug_with_one_part_has_empty_tag_line() {
    assert_eq!(parse_summoner_slug("Faker"), ("Faker".to_string(), String::new()));
}

#[test]
fn slug_that_does_not_decode_is_refused() {
    assert_eq!(try_parse_summoner_slug("%FF-EUW"), None);
    assert_eq!(try_parse_summoner_slug("ok-%C3"), None);
}

#[test]
fn summoner_urls() {
    assert_eq!(
        summoner_url("EUW".to_string(), "Le Joueur".to_string(), "EUW".to_string()),
        "/summoners/EUW/Le%20Joueur-EUW"
    );
    assert_eq!(
        summoner_not_found_url("EUW".to_string(), "Le Joueur".to_string(), "EUW".to_string()),
        "/platform/EUW?game_name=Le Joueur&tag_line=EUW"
    );
    assert_eq!(
        summoner_encounter_url(
            "EUW".to_string(),
            "A".to_string(),
            "1".to_string(),
            "NA".to_string(),
            "B C".to_string(),
            "2".to_string()
        ),
        "/summoners/EUW/A-1/encounter/NA/B%20C-2"
    );
}

#[test]
fn fixed_size_string_round_trip() {
    let s = FixedSizeString::<16>::new("Faker");
    assert_eq!(s.to_str(), "Faker");
    let e = FixedSizeString::<5>::new("");
    assert_eq!(e.to_str(), "");
}

#[test]
fn fixed_size_string_cuts_to_size() {
    let s = FixedSizeString::<5>::new("abcdefgh");
    assert_eq!(s.to_str(), "abcde");
    assert_eq!(s.0, *b"abcde");
}

#[test]
fn fixed_size_string_pads_with_zeros() {
    let s = FixedSizeString::<4>::new("ab");
    assert_eq!(s.0, [b'a', b'b', 0, 0]);
}

#[test]
fn parse_date_reads_three_fields() {
    assert_eq!(parse_date(Some("2024-05-17".to_string())), Some((2024, 5, 17)));
    assert_eq!(parse_date(Some("2024-xx-17".to_string())), Some((2024, 0, 17)));
    assert_eq!(parse_date(Some("2024-05".to_string())), None);
    assert_eq!(parse_date(Some("99999-300-1".to_string())), Some((0, 0, 1)));
    assert_eq!(parse_date(None), None);
}

#[test]
fn back_end_filters_from_signals() {
    let f = BackEndMatchFiltersSearch::from_signals(
        Some("4".to_string()),
        Some("abc".to_string()),
        Some("2023-01-02".to_string()),
        None,
    );
    assert_eq!(f.queue_id, Some(4));
    assert_eq!(f.champion_id, Some(0));
    assert_eq!(f.start_date, Some((2023, 1, 2)));
    assert_eq!(f.end_date, None);
    assert_eq!(f.start_date_text(), Some("2023-01-02 00:00:00".to_string()));
    assert_eq!(f.end_date_text(), None);
}

#[test]
fn date_filter_pads_fields() {
    assert_eq!(date_filter((7, 3, 9)), "0007-03-09 00:00:00");
    assert_eq!(date_filter((2024, 12, 31)), "2024-12-31 00:00:00");
}

#[test]
fn parse_numbers() {
    assert_eq!(parse_unsigned_decimal("255", 255), Some(255));
    assert_eq!(parse_unsigned_decimal("256", 255), None);
    assert_eq!(parse_unsigned_decimal("+12", 255), Some(12));
    assert_eq!(parse_unsigned_decimal("", 255), None);
    assert_eq!(parse_signed_decimal("-2147483648", -2147483648, 2147483647), Some(-2147483648));
    assert_eq!(parse_signed_decimal("-2147483649", -2147483648, 2147483647), None);
}

#[test]
fn text_helpers() {
    let mut out = String::new();
    push_signed_decimal(&mut out, i64::MIN);
    assert_eq!(out, "-9223372036854775808");
    let mut p = String::new();
    push_pad4(&mut p, 42);
    assert_eq!(p, "0042");
    let cs: Vec<char> = "a_b__c".chars().collect();
    let parts: Vec<String> = split_chars(&cs, '_').iter().map(|v| string_from_chars(v)).collect();
    assert_eq!(parts, vec!["a", "b", "", "c"]);
}

#[test]
fn version_major_minor_is_its_own_major_minor() {
    let r = version_to_major_minor("15.1.1.2");
    assert_eq!(r, "15.1");
    assert_eq!(r.matches('.').count(), 1);
    assert!("15.1.1.2".starts_with(r.as_str()));
    assert_eq!(version_to_major_minor(&r), r);
}

#[test]
fn format_with_spaces_removing_spaces_gives_digits() {
    for n in [0u32, 7, 12, 123, 1234, 12345, 123456, 1234567, 4294967295] {
        let r = format_with_spaces(n);
        let digits = n.to_string();
        assert_eq!(r.replace(' ', ""), digits);
        assert_eq!(r.matches(' ').count(), (digits.len() - 1) / 3);
        let groups: Vec<&str> = r.split(' ').collect();
        assert!(groups[0].len() >= 1 && groups[0].len() <= 3);
        assert!(groups[1..].iter().all(|g| g.len() == 3));
    }
}

#[test]
fn parse_date_reads_back_written_dates() {
    for d in [(7u16, 3u8, 9u8), (2024, 12, 31), (0, 0, 0), (65535, 255, 255)] {
        let text = format!("{:04}-{:02}-{:02}", d.0, d.1, d.2);
        assert_eq!(parse_date(Some(text)), Some(d));
        let filter = date_filter(d);
        assert_eq!(parse_date(Some(filter[..filter.len() - 9].to_string())), Some(d));
    }
}

#[test]
fn slug_with_bad_escape_keeps_its_text() {
    assert_eq!(try_parse_summoner_slug("%zz-a"), Some(("%zz".to_string(), "a".to_string())));
}

use ness_relay::geoip::{asn_db_path, asn_organization, city_db_path, default_db_dir, geo_place, join_path, localized_name};
use ness_relay::text::{after_last_char, ends_with, eq_ignore_ascii_case, i64_to_decimal, lines_of, parse_i64, parse_u32, parse_u64, replace_str, split_words, str_less, trim, u64_to_decimal};

#[test]
fn string_order() {
    assert!(str_less("ap", "aruba"));
    assert!(str_less("", "a"));
    assert!(!str_less("a", "a"));
    assert!(str_less("Z", "a"));
    assert!(str_less("abc", "abd"));
    assert!(!str_less("abd", "abc"));
    assert!(str_less("ab", "abc"));
}

#[test]
fn words_lines_replace() {
    assert_eq!(split_words("  a  bb\tc\n"), vec!["a", "bb", "c"]);
    assert!(split_words("   ").is_empty());
    assert_eq!(lines_of("a\r\nb\n\nc"), vec!["a", "b", "", "c"]);
    assert_eq!(lines_of("a\n"), vec!["a"]);
    assert_eq!(lines_of("a\r"), vec!["a\r"]);
    assert!(lines_of("").is_empty());
    assert_eq!(replace_str("aaa", "aa", "b"), "ba");
    assert_eq!(replace_str("x-y-z", "-", "--"), "x--y--z");
    assert_eq!(replace_str("abc", "zz", "q"), "abc");
}

#[test]
fn geo_paths_and_names() {
    assert_eq!(default_db_dir(), "/opt/ness_relay/data");
    assert_eq!(city_db_path("/opt/ness_relay/data"), "/opt/ness_relay/data/GeoLite2-City.mmdb");
    assert_eq!(asn_db_path("/db/"), "/db/GeoLite2-ASN.mmdb");
    assert_eq!(join_path("", "x"), "x");
    assert_eq!(localized_name(Some("Bogotá"), Some("Bogota")), Some("Bogotá".to_string()));
    assert_eq!(localized_name(None, Some("Bogota")), Some("Bogota".to_string()));
    assert_eq!(localized_name(None, None), None);
    let p = geo_place(Some("Cali".to_string()), None, None);
    assert_eq!((p.city.as_str(), p.region.as_str(), p.country.as_str()), ("Cali", "Unknown", "Colombia"));
    assert_eq!(asn_organization(Some("Tigo")), "Tigo");
    assert_eq!(asn_organization(None), "Unknown");
}

#[test]
fn text_helpers() {
    assert_eq!(trim("  \t eth0 \n"), "eth0");
    assert!(eq_ignore_ascii_case("WAN", "wan"));
    assert!(!eq_ignore_ascii_case("wan1", "wan"));
    assert!(ends_with("backup.json", ".json"));
    assert!(!ends_with("json", ".json"));
    assert_eq!(after_last_char("/opt/ness/relay", '/'), "relay");
    assert_eq!(after_last_char("relay", '/'), "relay");
}

#[test]
fn number_text() {
    assert_eq!(parse_u64("18446744073709551615"), Some(u64::MAX));
    assert_eq!(parse_u64("18446744073709551616"), None);
    assert_eq!(parse_u64(""), None);
    assert_eq!(parse_u64("12a"), None);
    assert_eq!(parse_u32("4294967295"), Some(u32::MAX));
    assert_eq!(parse_u32("4294967296"), None);
    assert_eq!(parse_i64("-42"), Some(-42));
    assert_eq!(parse_i64("-9223372036854775808"), Some(i64::MIN));
    assert_eq!(u64_to_decimal(0), "0");
    assert_eq!(u64_to_decimal(1234567890), "1234567890");
    assert_eq!(i64_to_decimal(-17), "-17");
    assert_eq!(i64_to_decimal(i64::MIN), "-9223372036854775808");
}

use ilyvion_util::chrono::days_from_month_in_year;
use ilyvion_util::color::Rgb;
use ilyvion_util::environment::{ConvertBoolError, EnvironmentConverter};
use ilyvion_util::file::file_name_from_file_path;
use ilyvion_util::hsv::RGB;
use ilyvion_util::iterator_extensions::partition_map;
use ilyvion_util::map_any::MapAny;
use ilyvion_util::string_extensions::{str_eq, StrExtensions};

#[test]
fn days_follow_the_calendar() {
    assert_eq!(days_from_month_in_year(1, 2021), 31);
    assert_eq!(days_from_month_in_year(4, 2021), 30);
    assert_eq!(days_from_month_in_year(6, 2021), 30);
    assert_eq!(days_from_month_in_year(9, 2021), 30);
    assert_eq!(days_from_month_in_year(11, 2021), 30);
    assert_eq!(days_from_month_in_year(12, 2021), 31);
    assert_eq!(days_from_month_in_year(2, 2021), 28);
}

#[test]
fn february_tracks_leap_years() {
    assert_eq!(days_from_month_in_year(2, 2020), 29);
    assert_eq!(days_from_month_in_year(2, 1900), 28);
    assert_eq!(days_from_month_in_year(2, 2000), 29);
    assert_eq!(days_from_month_in_year(2, 2023), 28);
}

#[test]
fn rgb_constructors_store_the_components() {
    let c = Rgb::new(1, 2, 3);
    assert_eq!(c, Rgb { red: 1, green: 2, blue: 3 });

    let legacy = RGB::new(4, 5, 6);
    assert_eq!(legacy, RGB { r: 4, g: 5, b: 6 });
}

#[test]
fn bool_conversion_accepts_the_documented_spellings() {
    for value in ["on", "true", "yes", "1"] {
        assert_eq!(bool::try_convert("flag", value).unwrap(), true);
    }
    for value in ["off", "false", "no", "0"] {
        assert_eq!(bool::try_convert("flag", value).unwrap(), false);
    }
}

#[test]
fn bool_conversion_rejects_anything_else() {
    let err: ConvertBoolError = bool::try_convert("flag", "maybe").unwrap_err();
    assert_eq!(err.name, "flag");
    assert_eq!(err.unexpected_value, "maybe");

    assert!(bool::try_convert("flag", "ON").is_err());
    assert!(bool::try_convert("flag", "").is_err());
}

#[test]
fn file_names_come_from_the_last_path_component() {
    assert_eq!(
        file_name_from_file_path("foo/bar.txt"),
        Some("bar.txt".to_string())
    );
    assert_eq!(file_name_from_file_path("tmp/foo"), Some("foo".to_string()));
    assert_eq!(file_name_from_file_path("foo.txt/."), Some("foo.txt".to_string()));
    assert_eq!(file_name_from_file_path("foo.txt/.."), None);
    assert_eq!(file_name_from_file_path("/"), None);
}

#[test]
fn ascii_lowercase_checks() {
    assert!("hello world 123".is_ascii_lowercase());
    assert!(!"Hello".is_ascii_lowercase());
    assert!(!"héllo".is_ascii_lowercase());
    assert!("".is_ascii_lowercase());
}

#[test]
fn ascii_lowercasing_folds_only_ascii_uppercase() {
    assert_eq!("HeLLo, WoRLD!".to_ascii_lowercase_cow(), "hello, world!");
    assert_eq!("already lower".to_ascii_lowercase_cow(), "already lower");
    assert_eq!("MiXed ÉÉ".to_ascii_lowercase_cow(), "mixed ÉÉ");
}

#[test]
fn str_eq_compares_contents() {
    assert!(str_eq("abc", "abc"));
    assert!(!str_eq("abc", "abd"));
    assert!(!str_eq("abc", "abcd"));
    assert!(str_eq("", ""));
}

#[test]
fn map_any_applies_the_closure() {
    let doubled = 21i32.map(|x| x * 2);
    assert_eq!(doubled, 42);

    let text = 5u8.map(|x| (x + 1).to_string());
    assert_eq!(text, "6");
}

#[test]
fn partition_map_splits_and_maps() {
    let a = vec![1, 2, 3, 4, 5, 6];

    let (even, odd_tripled): (Vec<i32>, Vec<i32>) =
        partition_map(a, |&n| n % 2 == 0, |n| n, |n| n * 3);

    assert_eq!(even, vec![2, 4, 6]);
    assert_eq!(odd_tripled, vec![3, 9, 15]);
}

#[test]
fn partition_map_handles_empty_and_one_sided_input() {
    let (l, r): (Vec<u8>, Vec<u8>) = partition_map(vec![], |_: &u8| true, |n| n, |n| n);
    assert!(l.is_empty());
    assert!(r.is_empty());

    let (all, none): (Vec<u8>, Vec<u8>) = partition_map(vec![1, 2], |_: &u8| true, |n| n, |n| n);
    assert_eq!(all, vec![1, 2]);
    assert!(none.is_empty());
}

use reign_ng::env::read_env;
use reign_ng::env::str_eq;

fn pairs() -> Vec<(String, String)> {
    vec![
        (String::from("DEBUG"), String::from("1")),
        (String::from("RUN_AS"), String::from("ops")),
        (String::from("DEBUG"), String::from("shadowed")),
    ]
}

#[test]
fn reads_value_of_present_key() {
    assert_eq!(read_env(&pairs(), "RUN_AS"), "ops");
}

#[test]
fn first_pair_wins_on_duplicate_keys() {
    assert_eq!(read_env(&pairs(), "DEBUG"), "1");
}

#[test]
fn absent_key_reads_as_empty() {
    assert_eq!(read_env(&pairs(), "ARGUMENTS"), "");
    assert_eq!(read_env(&[], "DEBUG"), "");
}

#[test]
fn string_comparison_is_exact() {
    assert!(str_eq("", ""));
    assert!(str_eq("DEBUG", "DEBUG"));
    assert!(!str_eq("DEBUG", "DEBUg"));
    assert!(!str_eq("DEBUG", "DEBU"));
    assert!(str_eq("naïve", "naïve"));
}

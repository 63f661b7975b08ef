use std::collections::HashMap;

use regex::{bytes, Regex, RegexSet};
use serde_regex::Serde;

const SAMPLE: &str = r#"[a-z"\]]+\d{1,10}""#;
const SAMPLE_JSON: &str = r#""[a-z\"\\]]+\\d{1,10}\"""#;

fn strings(items: &[&str]) -> Vec<String> {
    items.iter().map(|s| s.to_string()).collect()
}

fn entries(items: &[(&str, &str)]) -> Vec<(String, String)> {
    items.iter().map(|(k, v)| (k.to_string(), v.to_string())).collect()
}

#[test]
fn test_set() {
    let regexes = &["my(regex)?", "other[regex]+"];
    let set: Serde<RegexSet> = Serde::decode(strings(regexes)).unwrap();
    assert_eq!(set.patterns(), regexes);
    assert_eq!(set.encode(), strings(regexes));
}

#[test]
fn test_set_option_some() {
    let regexes = &["my(regex)?", "other[regex]+"];
    let set: Serde<Option<RegexSet>> = Serde::decode(Some(strings(regexes))).unwrap();
    assert_eq!(set.as_ref().unwrap().patterns(), regexes);
    assert_eq!(set.encode(), Some(strings(regexes)));
}

#[test]
fn test_set_option_none() {
    let input: Option<Vec<String>> = serde_json::from_str("null").unwrap();
    let set: Serde<Option<RegexSet>> = Serde::decode(input).unwrap();
    assert!(set.is_none());
    assert_eq!(serde_json::to_string(&set.encode()).unwrap(), "null");
}

#[test]
fn test_vec() {
    let vec: Serde<Vec<Regex>> = Serde::decode(strings(&["a.*b", "c?d"])).unwrap();
    assert!(vec.0[0].as_str() == "a.*b");
    assert!(vec.0[1].as_str() == "c?d");
    assert!(vec.len() == 2);
}

#[test]
fn test_hashmap() {
    let map: Serde<HashMap<String, Regex>> =
        Serde::decode(entries(&[("a", "a.*b"), ("b", "c?d")])).unwrap();
    assert!(map.0["a"].as_str() == "a.*b");
    assert!(map.0["b"].as_str() == "c?d");
    assert!(map.len() == 2);
}

#[test]
fn test_simple() {
    let text: String = serde_json::from_str(SAMPLE_JSON).unwrap();
    let re: Serde<Regex> = Serde::decode(text).unwrap();
    assert_eq!(re.as_str(), SAMPLE);
    assert_eq!(serde_json::to_string(&re.encode()).unwrap(), SAMPLE_JSON);
}

#[test]
fn test_option_some() {
    let text: Option<String> = serde_json::from_str(SAMPLE_JSON).unwrap();
    let re: Serde<Option<Regex>> = Serde::decode(text).unwrap();
    assert_eq!(re.as_ref().map(|regex| regex.as_str()), Some(SAMPLE));
    assert_eq!(serde_json::to_string(&re.encode()).unwrap(), SAMPLE_JSON);
}

#[test]
fn test_option_none() {
    let text: Option<String> = serde_json::from_str("null").unwrap();
    let re: Serde<Option<Regex>> = Serde::decode(text).unwrap();
    assert!(re.is_none());
    assert_eq!(serde_json::to_string(&re.encode()).unwrap(), "null");
}

#[test]
fn test_set_bytes() {
    let regexes = &["regex.*test", "test( )??regex+"];
    let set: Serde<bytes::RegexSet> = Serde::decode(strings(regexes)).unwrap();
    assert_eq!(set.patterns(), regexes);
    assert_eq!(set.encode(), strings(regexes));
}

#[test]
fn test_vec_bytes() {
    let vec: Serde<Vec<bytes::Regex>> = Serde::decode(strings(&["a.*b", "c?d"])).unwrap();
    assert!(vec.0[0].as_str() == "a.*b");
    assert!(vec.0[1].as_str() == "c?d");
    assert!(vec.len() == 2);
}

#[test]
fn test_hashmap_bytes() {
    let map: Serde<HashMap<String, bytes::Regex>> =
        Serde::decode(entries(&[("c", "a.*b"), ("d", "c?d")])).unwrap();
    assert!(map.0["c"].as_str() == "a.*b");
    assert!(map.0["d"].as_str() == "c?d");
    assert!(map.len() == 2);
}

#[test]
fn test_option_vec() {
    let vec: Serde<Option<Vec<Regex>>> = Serde::decode(Some(strings(&["a.*b", "c?d"]))).unwrap();
    assert!(vec.is_some());
    let v = vec.0.unwrap();
    assert!(v[0].as_str() == "a.*b");
    assert!(v[1].as_str() == "c?d");
    assert!(v.len() == 2);
}

#[test]
fn test_option_hashmap() {
    let map: Serde<Option<HashMap<String, Regex>>> =
        Serde::decode(Some(entries(&[("a", "a.*b"), ("b", "c?d")]))).unwrap();
    assert!(map.is_some());
    let v = map.0.unwrap();
    assert!(v["a"].as_str() == "a.*b");
    assert!(v["b"].as_str() == "c?d");
    assert!(v.len() == 2);
}

#[test]
fn test_option_vec_bytes() {
    let vec: Serde<Option<Vec<bytes::Regex>>> =
        Serde::decode(Some(strings(&["a.*b", "c?d"]))).unwrap();
    assert!(vec.is_some());
    let v = vec.0.unwrap();
    assert!(v[0].as_str() == "a.*b");
    assert!(v[1].as_str() == "c?d");
    assert!(v.len() == 2);
}

#[test]
fn test_option_hashamp_bytes() {
    let map: Serde<Option<HashMap<String, bytes::Regex>>> =
        Serde::decode(Some(entries(&[("a", "a.*b"), ("b", "c?d")]))).unwrap();
    assert!(map.is_some());
    let v = map.0.unwrap();
    assert!(v["a"].as_str() == "a.*b");
    assert!(v["b"].as_str() == "c?d");
    assert!(v.len() == 2);
}

#[test]
fn test_option_vec_none() {
    let input: Option<Vec<String>> = serde_json::from_str("null").unwrap();
    let vec: Serde<Option<Vec<bytes::Regex>>> = Serde::decode(input).unwrap();
    assert!(vec.is_none());
}

#[test]
fn test_option_hashmap_none() {
    let input: Option<Vec<(String, String)>> = serde_json::from_str("null").unwrap();
    let map: Serde<Option<HashMap<String, bytes::Regex>>> = Serde::decode(input).unwrap();
    assert!(map.is_none());
}

#[test]
fn test_bytes_simple() {
    let text: String = serde_json::from_str(SAMPLE_JSON).unwrap();
    let re: Serde<bytes::Regex> = Serde::decode(text).unwrap();
    assert_eq!(re.as_str(), SAMPLE);
    assert_eq!(serde_json::to_string(&re.encode()).unwrap(), SAMPLE_JSON);
}

#[test]
fn test_bytes_option_some() {
    let text: Option<String> = serde_json::from_str(SAMPLE_JSON).unwrap();
    let re: Serde<Option<bytes::Regex>> = Serde::decode(text).unwrap();
    assert_eq!(re.as_ref().map(|regex| regex.as_str()), Some(SAMPLE));
    assert_eq!(serde_json::to_string(&re.encode()).unwrap(), SAMPLE_JSON);
}

#[test]
fn test_bytes_option_none() {
    let text: Option<String> = serde_json::from_str("null").unwrap();
    let re: Serde<Option<bytes::Regex>> = Serde::decode(text).unwrap();
    assert!(re.is_none());
    assert_eq!(serde_json::to_string(&re.encode()).unwrap(), "null");
}

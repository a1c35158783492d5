use plant_scheduler::reply_text::{confirmation_phrases, facts, get_confirmation_phrase, get_fact, get_random_element};

#[test]
pub fn test_get_random_element_from_empty() {
    let empty: Vec<String> = Vec::new();
    assert_eq!(get_random_element(&empty), "");
}

#[test]
pub fn test_get_random_element_from_non_empty_with_one() {
    let with_one: Vec<String> = vec!["1".to_string()];
    assert_eq!(get_random_element(&with_one), "1");
}

#[test]
pub fn test_get_random_element_from_non_empty_with_more_than_one() {
    let with_more: Vec<String> = vec!["1".to_string(), "2".to_string()];
    let elem = get_random_element(&with_more);
    assert_eq!(elem == "1" || elem == "2", true);
}

#[test]
fn test_confirmation_phrase_is_one_of_the_phrases() {
    let phrases = confirmation_phrases();
    assert_eq!(phrases.len(), 4);
    let phrase = get_confirmation_phrase();
    assert!(phrases.iter().any(|p| *p == phrase));
}

#[test]
fn test_fact_is_one_of_the_facts() {
    let all = facts();
    assert_eq!(all.len(), 22);
    let fact = get_fact();
    assert!(all.iter().any(|f| *f == fact));
}

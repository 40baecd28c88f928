use datahub_client::event_filters::Filter;
use datahub_client::AdvancedEventFilter;

fn equals_test_filter() -> Filter {
    Filter::Equals { property: "test".to_string(), value: "test".to_string() }
}

fn contains_all_policies() -> Filter {
    Filter::contains_all("policies", vec!["policy1".to_string(), "policy2".to_string()])
}

#[test]
fn test_advanced_filter() {
    let mut filt = AdvancedEventFilter::new();
    assert!(filt.filter.is_none());
    let leaf_filter1 = equals_test_filter();
    let leaf_filter2 = contains_all_policies();
    let leaf_filter3 = Filter::is_set(vec!["metdata".to_string(), "type".to_string()]);
    let leaf_filter4 =
        Filter::contains_any("policies", vec!["policy3".to_string(), "policy4".to_string()]);

    let bool_filter1 = Filter::and(vec![leaf_filter1, contains_all_policies()]);
    let bool_filter2 = Filter::or(vec![leaf_filter2, leaf_filter4]);
    let bool_filter3 = Filter::not(leaf_filter3);
    let expected_json = "{\"filter\":{\"equals\":{\"property\":\"test\",\"value\":\"test\"}}}";
    filt.set_filter(equals_test_filter());
    assert_eq!(filt.to_json_string(), expected_json.to_string());

    let expected_json2 = "{\"filter\":{\"and\":[{\"equals\":{\"property\":\"test\",\"value\":\"test\"}},{\"containsAll\":{\"allOf\":[\"policy1\",\"policy2\"],\"property\":\"policies\"}}]}}";
    let mut advanced2 = AdvancedEventFilter::new();
    advanced2.set_filter(Filter::and(vec![equals_test_filter(), contains_all_policies()]));
    assert_eq!(advanced2.to_json_string(), expected_json2.to_string());

    let expected_json3 = "{\"filter\":{\"and\":[{\"or\":[{\"and\":[{\"equals\":{\"property\":\"test\",\"value\":\"test\"}},{\"containsAll\":{\"allOf\":[\"policy1\",\"policy2\"],\"property\":\"policies\"}}]},{\"or\":[{\"containsAll\":{\"allOf\":[\"policy1\",\"policy2\"],\"property\":\"policies\"}},{\"containsAny\":{\"anyOf\":[\"policy3\",\"policy4\"],\"property\":\"policies\"}}]}]},{\"not\":{\"not\":{\"isSet\":{\"property\":[\"metdata\",\"type\"]}}}}]}}";

    let filter1_or_2_and_not3 = Filter::and(vec![
        Filter::or(vec![bool_filter1, bool_filter2]),
        Filter::not(bool_filter3),
    ]);
    let mut advanced3 = AdvancedEventFilter::new();
    advanced3.set_filter(filter1_or_2_and_not3);
    assert_eq!(advanced3.to_json_string(), expected_json3.to_string());
}

#[test]
fn json_escaping_and_null_fields() {
    let f = Filter::eq("na\"me", "va\\lue");
    assert_eq!(
        f.to_json_string(),
        "{\"equals\":{\"property\":\"na\\\"me\",\"value\":\"va\\\\lue\"}}"
    );
    let r = Filter::range("ts", Some("3".to_string()), None);
    assert_eq!(r.to_json_string(), "{\"range\":{\"max\":null,\"min\":\"3\",\"property\":\"ts\"}}");
    let i = Filter::in_values("kind", vec!["a".to_string()]);
    assert_eq!(i.to_json_string(), "{\"in\":{\"property\":\"kind\",\"values\":[\"a\"]}}");
    let empty = AdvancedEventFilter::new();
    assert_eq!(empty.to_json_string(), "{\"filter\":null}");
}

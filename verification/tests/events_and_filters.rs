use datahub_client::event_filters::Filter;
use datahub_client::{
    AdvancedEventFilter, BasicEventFilter, Event, EventFilter, EventsFilter, Metadata,
    RetrieveEventsFilter, TimeFilter,
};

#[test]
fn metadata_insert_replace_remove() {
    let mut m = Metadata::new();
    m.insert("bytes".to_string(), "100".to_string());
    m.insert("version".to_string(), "0x0f".to_string());
    assert_eq!(m.len(), 2);
    assert_eq!(m.get("bytes").map(|s| s.as_str()), Some("100"));
    // Replacing keeps the position and the key set.
    m.insert("bytes".to_string(), "200".to_string());
    assert_eq!(m.len(), 2);
    assert_eq!(m.get("bytes").map(|s| s.as_str()), Some("200"));
    assert_eq!(m.keys(), vec!["bytes".to_string(), "version".to_string()]);
    m.remove("bytes");
    assert_eq!(m.len(), 1);
    assert!(m.get("bytes").is_none());
    // Removing an absent key changes nothing.
    m.remove("bytes");
    assert_eq!(m.len(), 1);
}

#[test]
fn event_metadata_and_related_resources() {
    let mut e = Event::new("valve_event_alarm_7010".to_string());
    assert_eq!(e.get_external_id(), "valve_event_alarm_7010");
    assert!(e.get_metadata().is_none());
    e.add_metadata("hostname".to_string(), "sveinar".to_string());
    e.add_metadata("version".to_string(), "0x0".to_string());
    assert_eq!(e.get_metadata_value("hostname"), Some("sveinar"));
    assert_eq!(e.get_metadata_value("missing"), None);
    assert_eq!(
        e.get_metadata_keys(),
        Some(vec!["hostname".to_string(), "version".to_string()])
    );
    e.remove_metadata("hostname".to_string());
    assert_eq!(e.get_metadata_value("hostname"), None);

    e.add_related_resource_id(3);
    e.add_related_resource_id(5);
    e.add_related_resource_id(3);
    e.remove_related_resource_id(3);
    assert_eq!(e.get_related_resource_ids(), &vec![5]);

    e.set_status("NORMAL");
    assert_eq!(e.get_status(), Some("NORMAL"));
    e.set_type("pump".to_string());
    assert_eq!(e.get_type(), Some("pump"));
    e.set_sub_type("alarm".to_string());
    assert_eq!(e.get_sub_type(), Some("alarm"));
    e.set_source("valve-events".to_string());
    assert_eq!(e.get_source(), Some("valve-events"));
    e.set_event_time(1_747_386_293_257);
    assert_eq!(e.get_event_time(), Some(&1_747_386_293_257));
    e.set_data_set_id(17);
    assert_eq!(e.get_data_set_id(), Some(17));
}

#[test]
fn events_filter_property_parsing() {
    let mut f = EventsFilter::new();
    f.set_property("id", "7010");
    assert_eq!(f.id, Some(7010));
    // A value that is not a decimal number leaves the id alone.
    f.set_property("id", "24x");
    assert_eq!(f.id, Some(7010));
    f.set_property("type", "pump");
    assert_eq!(f.event_type.as_deref(), Some("pump"));
    f.set_property("sub_type", "alarm");
    assert_eq!(f.sub_type.as_deref(), Some("alarm"));
    f.set_property("source", "valheim-pump-events");
    assert_eq!(f.source.as_deref(), Some("valheim-pump-events"));
    // Unknown properties change nothing.
    let before_ext = f.external_id_prefix.clone();
    f.set_property("unknown_prop", "whatever");
    assert_eq!(f.external_id_prefix, before_ext);
}

#[test]
fn retrieve_events_filter_snake_cases_the_value() {
    let r = RetrieveEventsFilter::new_with_prefix("source", "Hello World!");
    assert_eq!(r.filter.unwrap().source.as_deref(), Some("hello_world"));
    let r = RetrieveEventsFilter::new_with_prefix("id", "7010");
    assert_eq!(r.filter.unwrap().id, Some(7010));
}

#[test]
fn basic_filter_builder() {
    let mut f = BasicEventFilter::new();
    f.set_external_id_prefix("pump");
    f.set_sub_type("alarm");
    f.set_event_time(&TimeFilter::Before { max: 1_757_138_880_000 });
    let built = f.build();
    assert_eq!(built.external_id_prefix.as_deref(), Some("pump"));
    assert_eq!(built.sub_type.as_deref(), Some("alarm"));
    assert_eq!(built.event_time, Some(TimeFilter::Before { max: 1_757_138_880_000 }));

    let mut ef = EventFilter::new();
    ef.set_filter(built);
    ef.set_limit(100);
    assert_eq!(ef.limit, Some(100));
}

#[test]
fn advanced_filter_tree() {
    let leaf1 = Filter::eq("test", "test");
    let leaf2 = Filter::contains_all("policies", vec!["policy1".to_string(), "policy2".to_string()]);
    let leaf3 = Filter::is_set(vec!["metdata".to_string(), "type".to_string()]);
    let leaf4 =
        Filter::contains_any("policies", vec!["policy3".to_string(), "policy4".to_string()]);
    let both = Filter::and(vec![leaf1, leaf2]);
    let either = Filter::or(vec![both, leaf4]);
    let negated = Filter::not(leaf3);
    let tree = Filter::and(vec![either, negated]);

    let mut advanced = AdvancedEventFilter::new();
    assert!(advanced.filter.is_none());
    advanced.set_filter(tree);
    let built = advanced.build();
    match built.filter {
        Some(Filter::And(children)) => {
            assert_eq!(children.len(), 2);
            assert!(matches!(children[0], Filter::Or(_)));
            assert!(matches!(children[1], Filter::Not(_)));
        }
        _ => panic!("expected a conjunction at the root"),
    }
}

#[test]
fn event_related_external_ids_filter() {
    let mut e = Event::new("ev".to_string());
    e.add_related_resource_external_id("pump1".to_string());
    e.add_related_resource_external_id("valve2".to_string());
    e.add_related_resource_external_id("pump1".to_string());
    e.remove_related_resource_external_id("pump1".to_string());
    assert_eq!(e.get_related_resource_external_ids(), &vec!["valve2".to_string()]);
}

use std::collections::HashMap;

use datahub_client::{
    parse_u64, u64_to_string, DataWrapper, DatapointString, DeleteFilter, FileUpload, Filters,
    GraphDataWrapper, IdAndExtId, IdAndExtIdCollection, LimitParam, MimeDetection, Operation,
    ResourceUpdate, RetrieveFilter, TimeSeries, TimeSeriesUpdate, TimeSeriesUpdateCollection,
    TimeSeriesUpdateFields,
};

#[test]
fn numeric_round_trip() {
    assert_eq!(u64_to_string(0), "0");
    assert_eq!(u64_to_string(7), "7");
    assert_eq!(u64_to_string(100_000), "100000");
    assert_eq!(u64_to_string(u64::MAX), "18446744073709551615");
    assert_eq!(parse_u64("0"), Some(0));
    assert_eq!(parse_u64("123"), Some(123));
    assert_eq!(parse_u64("18446744073709551615"), Some(u64::MAX));
    assert_eq!(parse_u64("18446744073709551616"), None);
    assert_eq!(parse_u64(""), None);
    assert_eq!(parse_u64("12a"), None);
    assert_eq!(parse_u64("-3"), None);
}

#[test]
fn time_series_builder_and_setters() {
    let mut ts = TimeSeries::new("pump_rpm", "Pump RPM");
    assert_eq!(ts.id, 0);
    assert_eq!(ts.external_id, "pump_rpm");
    assert_eq!(ts.name, "Pump RPM");
    assert_eq!(ts.value_type, "float");
    assert!(!ts.is_string);
    ts.set_unit("rpm");
    ts.set_description("rotations per minute");
    ts.set_data_set_id(4);
    ts.set_is_step(true);
    let mut md = HashMap::new();
    md.insert("site".to_string(), "valheim".to_string());
    ts.set_metadata(md);
    assert_eq!(ts.unit.as_deref(), Some("rpm"));
    assert_eq!(ts.description.as_deref(), Some("rotations per minute"));
    assert_eq!(ts.data_set_id, Some(4));
    assert!(ts.is_step);
    assert_eq!(ts.metadata.as_ref().unwrap().get("site").map(|s| s.as_str()), Some("valheim"));

    let b = TimeSeries::builder();
    assert_eq!(b.external_id, "");
    assert_eq!(b.value_type, "float");
}

#[test]
fn wrapper_remove_item_filters_by_id_and_external_id() {
    let mut w: DataWrapper<TimeSeries> = DataWrapper::new();
    let mut a = TimeSeries::new("a", "A");
    a.id = 1;
    let mut b = TimeSeries::new("b", "B");
    b.id = 2;
    let mut c = TimeSeries::new("c", "C");
    c.id = 3;
    w.add_item(a);
    w.add_item(b);
    w.add_item(c);
    assert_eq!(w.length(), 3);
    w.remove_item(Some(2), None);
    assert_eq!(w.length(), 2);
    w.remove_item(None, Some("c".to_string()));
    assert_eq!(w.length(), 1);
    assert_eq!(w.get_items()[0].external_id, "a");
    let mut d = TimeSeries::new("d", "D");
    d.id = 4;
    w.get_items_mut().push(d);
    assert_eq!(w.length(), 2);
    assert_eq!(w.get_items()[1].external_id, "d");
}

/// Deleting with an inclusive begin and no end covers exactly the
/// datapoints at or after the bound: a retrieval afterwards returns only
/// the earlier ones.
#[test]
fn delete_filter_half_open_from_begin() {
    let t: i64 = 1_700_000_000_000;
    let filter = DeleteFilter::from_external_id("pump_rpm".to_string(), Some(t), None);
    let timestamps: Vec<i64> = (0..10).map(|k| t - 5 + k).collect();
    let removed: Vec<i64> =
        timestamps.iter().copied().filter(|ts| filter.selects_timestamp(*ts)).collect();
    let kept: Vec<i64> =
        timestamps.iter().copied().filter(|ts| !filter.selects_timestamp(*ts)).collect();
    assert_eq!(removed, (0..5).map(|k| t + k).collect::<Vec<i64>>());
    assert_eq!(kept, (0..5).map(|k| t - 5 + k).collect::<Vec<i64>>());

    let bounded = DeleteFilter::from_id(7, Some(10), Some(20));
    assert!(bounded.selects_timestamp(10));
    assert!(bounded.selects_timestamp(19));
    assert!(!bounded.selects_timestamp(20));
    assert!(!bounded.selects_timestamp(9));
}

#[test]
fn retrieve_filter_accumulates() {
    let mut f = RetrieveFilter::new();
    f.set_start(100);
    f.set_end(200);
    f.set_limit(50);
    f.set_external_id("pump_rpm");
    f.add_aggregate("average");
    f.add_aggregate("max");
    f.set_granularity("1h");
    assert_eq!(f.start, Some(100));
    assert_eq!(f.end, Some(200));
    assert_eq!(f.limit, Some(50));
    assert_eq!(f.external_id.as_deref(), Some("pump_rpm"));
    assert_eq!(f.aggregates, Some(vec!["average".to_string(), "max".to_string()]));
    assert_eq!(f.granularity.as_deref(), Some("1h"));
}

#[test]
fn id_collections() {
    let c = IdAndExtIdCollection::from_id_vec(vec![9, 23]);
    assert_eq!(c.items.len(), 2);
    assert_eq!(c.items[0].id, Some(9));
    assert_eq!(c.items[1].id, Some(23));
    let c = IdAndExtIdCollection::from_external_id_vec(vec!["energy_kw_hr", "concentration_ppm"]);
    assert_eq!(c.items.len(), 2);
    assert_eq!(c.items[0].external_id.as_deref(), Some("energy_kw_hr"));
    let mut c = IdAndExtIdCollection::new();
    c.add_item(IdAndExtId::from_external_id("area_m2"));
    assert_eq!(c.items.len(), 1);
    let empty = IdAndExtIdCollection::from_id_vec(vec![]);
    assert_eq!(empty.items.len(), 0);
}

#[test]
fn file_upload_naming_and_mime() {
    let f = FileUpload::from_parts(
        "resources/test/image.jpg",
        "sola.jpg",
        MimeDetection::Known("image/jpeg".to_string()),
        Some(1_700_000_000_000),
        None,
    );
    assert_eq!(f.external_id, "sola_jpg");
    assert_eq!(f.mime_type.as_deref(), Some("image/jpeg"));
    assert_eq!(f.name, "sola.jpg");
    assert_eq!(f.source_date_created, Some(1_700_000_000_000));

    let f = FileUpload::from_parts("a/b.bin", "b.bin", MimeDetection::Unknown, None, None);
    assert_eq!(f.mime_type.as_deref(), Some("application/octet-stream"));
    let mut f = FileUpload::from_parts("a/b.bin", "b.bin", MimeDetection::Failed, None, None);
    assert_eq!(f.mime_type, None);
    f.set_destination_path("/images/".to_string());
    f.set_source("camera".to_string());
    assert_eq!(f.path.as_deref(), Some("/images/"));
    assert_eq!(f.source.as_deref(), Some("camera"));
}

#[test]
fn graph_wrapper_holds_nodes() {
    let upd = ResourceUpdate { update: None, relation_update: None };
    let w: GraphDataWrapper<ResourceUpdate> = GraphDataWrapper::from_node(upd);
    assert_eq!(w.nodes().unwrap().len(), 1);
    assert!(w.relations().is_none());
    let mut w2: GraphDataWrapper<ResourceUpdate> = GraphDataWrapper::new();
    assert!(w2.nodes().is_none());
    w2.set_nodes(vec![
        ResourceUpdate { update: None, relation_update: None },
        ResourceUpdate { update: None, relation_update: Some(vec!["feeds".to_string()]) },
    ]);
    w2.set_http_status_code(200);
    assert_eq!(w2.nodes().unwrap().len(), 2);
    assert_eq!(w2.http_status_code, Some(200));
}

#[test]
fn updates_and_misc_builders() {
    let mut coll = TimeSeriesUpdateCollection::new();
    let mut fields = TimeSeriesUpdateFields::new();
    fields.name.set("New name".to_string());
    fields.is_step.set(true);
    fields.metadata.remove(vec!["stale".to_string()]);
    coll.add_item(TimeSeriesUpdate {
        id: Some(8),
        external_id: None,
        update: fields,
    });
    assert_eq!(coll.get_items().len(), 1);
    assert_eq!(coll.get_items()[0].update.name.set.as_deref(), Some("New name"));
    assert_eq!(coll.get_items()[0].update.is_step.set, Some(true));

    let mut lp = LimitParam::new();
    assert_eq!(lp.get_limit(), 100);
    lp.set_limit(23);
    assert_eq!(lp.get_limit(), 23);

    let f = Filters::prefix("name", "pump");
    assert!(matches!(f.operation, Operation::Equal));
    let g = Filters::search("description", "valve");
    assert!(matches!(g.operation, Operation::Contains));

    let dp = DatapointString::from("1747386293257", "21.5");
    assert_eq!(dp.timestamp, "1747386293257");
    assert_eq!(dp.value, "21.5");
}

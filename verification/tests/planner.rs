use datahub_client::{DataWrapper, DatapointsCollection, MAX_DATAPOINTS_PER_REQUEST};

fn collection_with_points(id: u64, n: u64) -> DatapointsCollection<u64> {
    let mut c: DatapointsCollection<u64> = DatapointsCollection::from_id(id);
    let mut i: u64 = 0;
    while i < n {
        c.datapoints.push(i);
        i += 1;
    }
    c
}

fn total_of(w: &DataWrapper<DatapointsCollection<u64>>) -> usize {
    w.get_items().iter().map(|c| c.datapoints.len()).sum()
}

/// Two series, 150,000 and 50,000 points, against the 100,000 ceiling:
/// one intermediate sub-request of exactly the ceiling, then a remainder
/// of the first series' last 100,000 points, every point exactly once.
#[test]
fn splits_two_series_across_one_intermediate_request() {
    let mut request: DataWrapper<DatapointsCollection<u64>> = DataWrapper::new();
    request.add_item(collection_with_points(1, 150_000));
    request.add_item(collection_with_points(2, 50_000));

    let subs = request.drain_batches(MAX_DATAPOINTS_PER_REQUEST);

    assert_eq!(subs.len(), 1);
    let sub = &subs[0];
    assert_eq!(total_of(sub), 100_000);
    assert_eq!(sub.get_items().len(), 2);
    assert_eq!(sub.get_items()[0].id, Some(1));
    assert_eq!(sub.get_items()[0].datapoints.len(), 50_000);
    assert_eq!(sub.get_items()[0].datapoints[0], 0);
    assert_eq!(sub.get_items()[0].datapoints[49_999], 49_999);
    assert_eq!(sub.get_items()[1].id, Some(2));
    assert_eq!(sub.get_items()[1].datapoints.len(), 50_000);

    assert_eq!(total_of(&request), 100_000);
    assert_eq!(request.get_items()[0].datapoints.len(), 100_000);
    assert_eq!(request.get_items()[0].datapoints[0], 50_000);
    assert_eq!(request.get_items()[0].datapoints[99_999], 149_999);
    assert_eq!(request.get_items()[1].datapoints.len(), 0);
}

/// A small split over two rounds: the per-series share is recomputed each
/// round, and a series drained empty stops dividing the budget.
#[test]
fn rebalances_share_each_round() {
    let mut request: DataWrapper<DatapointsCollection<u64>> = DataWrapper::new();
    request.add_item(collection_with_points(7, 25));
    request.add_item(collection_with_points(8, 7));

    let subs = request.drain_batches(10);

    assert_eq!(subs.len(), 3);
    // Round 1: two active series, share 5 each.
    assert_eq!(subs[0].get_items().len(), 2);
    assert_eq!(subs[0].get_items()[0].id, Some(7));
    assert_eq!(subs[0].get_items()[0].datapoints, vec![0, 1, 2, 3, 4]);
    assert_eq!(subs[0].get_items()[1].id, Some(8));
    assert_eq!(subs[0].get_items()[1].datapoints, vec![0, 1, 2, 3, 4]);
    // Round 2: still two active series; the second is drained empty.
    assert_eq!(subs[1].get_items().len(), 2);
    assert_eq!(subs[1].get_items()[0].datapoints, vec![5, 6, 7, 8, 9]);
    assert_eq!(subs[1].get_items()[1].datapoints, vec![5, 6]);
    // Round 3: one active series left, so it gets the whole budget.
    assert_eq!(subs[2].get_items().len(), 1);
    assert_eq!(subs[2].get_items()[0].id, Some(7));
    assert_eq!(subs[2].get_items()[0].datapoints, (10..20).collect::<Vec<u64>>());
    // Remainder: within budget, order kept, drained series left empty.
    assert_eq!(request.get_items()[0].datapoints, (20..25).collect::<Vec<u64>>());
    assert_eq!(request.get_items()[1].datapoints.len(), 0);
    assert!(total_of(&request) <= 10);
}

/// Every emitted sub-request stays within the ceiling, and the chunks of
/// each series, concatenated with its remainder, rebuild the original
/// datapoints in order.
#[test]
fn covers_every_point_exactly_once_within_bounds() {
    let sizes: [u64; 4] = [33, 1, 0, 18];
    let ceiling: usize = 12;
    let mut request: DataWrapper<DatapointsCollection<u64>> = DataWrapper::new();
    for (i, n) in sizes.iter().enumerate() {
        request.add_item(collection_with_points(i as u64 + 1, *n));
    }

    let subs = request.drain_batches(ceiling);

    for sub in &subs {
        assert!(total_of(sub) <= ceiling);
    }
    assert!(total_of(&request) <= ceiling);
    for (i, n) in sizes.iter().enumerate() {
        let id = Some(i as u64 + 1);
        let mut rebuilt: Vec<u64> = Vec::new();
        for sub in &subs {
            for c in sub.get_items() {
                if c.id == id {
                    rebuilt.extend_from_slice(&c.datapoints);
                }
            }
        }
        rebuilt.extend_from_slice(&request.get_items()[i].datapoints);
        assert_eq!(rebuilt, (0..*n).collect::<Vec<u64>>());
    }
}

/// A submission already within the ceiling is left untouched and needs
/// no intermediate request.
#[test]
fn within_budget_needs_no_split() {
    let mut request: DataWrapper<DatapointsCollection<u64>> = DataWrapper::new();
    request.add_item(collection_with_points(1, 10));
    let subs = request.drain_batches(10);
    assert!(subs.is_empty());
    assert_eq!(request.get_items()[0].datapoints, (0..10).collect::<Vec<u64>>());
}

/// The key hash is deterministic and sensitive to the key.
#[test]
fn collection_hash_tracks_key() {
    let a: DatapointsCollection<u64> = DatapointsCollection::from_id(9);
    let b: DatapointsCollection<u64> = DatapointsCollection::from_id(9);
    let c: DatapointsCollection<u64> = DatapointsCollection::from_external_id("pump");
    let d: DatapointsCollection<u64> = DatapointsCollection::from_external_id("pump");
    assert_eq!(a.hash(), b.hash());
    assert_eq!(c.hash(), d.hash());
}

#[test]
fn collection_and_wrapper_render() {
    let mut c: DatapointsCollection<u64> = DatapointsCollection::from_id(5);
    c.datapoints.push(1);
    c.datapoints.push(2);
    assert_eq!(
        c.to_string(),
        "DatapointsCollection { id: Some(5), external_id: None, datapoints: 2 }"
    );
    let e: DatapointsCollection<u64> = DatapointsCollection::from_external_id("abc");
    assert_eq!(
        e.to_string(),
        "DatapointsCollection { id: None, external_id: Some(\"abc\"), datapoints: 0 }"
    );
    let mut w: DataWrapper<u64> = DataWrapper::new();
    w.add_item(4);
    w.set_http_status_code(200);
    assert_eq!(w.to_string(), "DataWrapper { items: 1, http_status_code: Some(200) }");
    let empty: DataWrapper<u64> = DataWrapper::new();
    assert_eq!(empty.to_string(), "DataWrapper { items: 0, http_status_code: None }");
}

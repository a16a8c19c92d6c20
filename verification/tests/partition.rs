use blprs::data::MarketPartition;
use blprs::error::BlpError;

fn labels(names: &[&str]) -> Vec<String> {
    names.iter().map(|s| s.to_string()).collect()
}

#[test]
fn partition_groups_contiguous_labels() {
    let ids = labels(&["m1", "m1", "m2"]);
    let partition = MarketPartition::new(&ids).expect("contiguous labels");

    assert_eq!(partition.market_count(), 2);
    let markets = partition.markets();
    assert_eq!(markets[0].id(), "m1");
    assert_eq!(markets[0].range(), (0, 2));
    assert_eq!(markets[0].product_count(), 2);
    assert_eq!(markets[1].id(), "m2");
    assert_eq!(markets[1].range(), (2, 3));
    assert_eq!(markets[1].product_count(), 1);

    assert_eq!(partition.market_of(0), 0);
    assert_eq!(partition.market_of(1), 0);
    assert_eq!(partition.market_of(2), 1);
}

#[test]
fn partition_detects_non_contiguous_market() {
    let ids = labels(&["m1", "m2", "m1"]);
    let result = MarketPartition::new(&ids);
    match result {
        Err(BlpError::NonContiguousMarket { market_id }) => {
            assert_eq!(market_id, "m1");
        }
        other => panic!("expected a non-contiguous market error, got {:?}", other),
    }
}

#[test]
fn partition_rejects_markets_split_into_blocks() {
    let ids = labels(&["A", "B", "A"]);
    let result = MarketPartition::new(&ids);
    match result {
        Err(BlpError::NonContiguousMarket { market_id }) => {
            assert_eq!(market_id, "A");
        }
        other => panic!("expected a non-contiguous market error, got {:?}", other),
    }
}

#[test]
fn partition_reports_first_split_label() {
    let ids = labels(&["a", "b", "b", "c", "b", "a"]);
    let result = MarketPartition::new(&ids);
    match result {
        Err(BlpError::NonContiguousMarket { market_id }) => {
            assert_eq!(market_id, "b");
        }
        other => panic!("expected a non-contiguous market error, got {:?}", other),
    }
}

#[test]
fn partition_of_empty_table_has_no_markets() {
    let ids: Vec<String> = Vec::new();
    let partition = MarketPartition::new(&ids).expect("empty table is contiguous");
    assert_eq!(partition.market_count(), 0);
    assert!(partition.markets().is_empty());
}

#[test]
fn partition_of_single_market_spans_all_products() {
    let ids = labels(&["only", "only", "only", "only"]);
    let partition = MarketPartition::new(&ids).expect("one market");
    assert_eq!(partition.market_count(), 1);
    assert_eq!(partition.markets()[0].range(), (0, 4));
    for j in 0..4 {
        assert_eq!(partition.market_of(j), 0);
    }
}

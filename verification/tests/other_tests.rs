use std::collections::HashMap;

use query_format::csv::{Cell, DataBlock};
use query_format::distributed::{optimize_distributed_query, Distribution, PhysicalProperty};
use query_format::plans::{DummyTableScan, Exchange, RelOperator, SExpr};
use query_format::statistics::BlockStatistics;

fn scan() -> SExpr {
    SExpr::create_leaf(RelOperator::DummyTableScan(DummyTableScan {}))
}

#[test]
fn serial_plan_is_kept() {
    let res = optimize_distributed_query(scan(), &PhysicalProperty { distribution: Distribution::Serial });
    assert!(matches!(res.plan, RelOperator::DummyTableScan(_)));
    assert!(res.children.is_empty());
}

#[test]
fn other_plans_get_a_merge() {
    for d in [Distribution::Any, Distribution::Random, Distribution::Broadcast, Distribution::Hash(vec![])] {
        let res = optimize_distributed_query(scan(), &PhysicalProperty { distribution: d });
        assert!(matches!(res.plan, RelOperator::Exchange(Exchange::Merge)));
        assert_eq!(res.children.len(), 1);
        assert!(matches!(res.children[0].plan, RelOperator::DummyTableScan(_)));
    }
}

#[test]
fn block_statistics_record_the_block() {
    let block = DataBlock { columns: vec![vec![Cell::Verbatim(b"1".to_vec()), Cell::Verbatim(b"2".to_vec())]] };
    assert_eq!(block.num_rows(), 2);
    let mut cols: HashMap<u32, &str> = HashMap::new();
    cols.insert(0, "stats");
    let s = BlockStatistics::<&str, u8>::from::<String>(&block, 64, Ok(cols), "a/b.parquet".to_string(), Some(3)).unwrap();
    assert_eq!(s.block_rows_size, 2);
    assert_eq!(s.block_bytes_size, 64);
    assert_eq!(s.block_file_location, "a/b.parquet");
    assert_eq!(s.block_column_statistics.get(&0), Some(&"stats"));
    assert_eq!(s.block_cluster_statistics, Some(3));
}

#[test]
fn block_statistics_pass_on_an_error() {
    let block = DataBlock { columns: vec![] };
    assert_eq!(block.num_rows(), 0);
    let r = BlockStatistics::<u8, u8>::from(&block, 0, Err("bad column".to_string()), "x".to_string(), None);
    assert_eq!(r.unwrap_err(), "bad column");
}

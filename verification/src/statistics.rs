//! The statistics recorded for a written block.

use vstd::prelude::*;

use std::collections::HashMap;

use crate::csv::DataBlock;

verus! {

/// The number of rows of a block: the length of its first column, or zero
/// without columns.
pub open spec fn block_num_rows(block: DataBlock) -> nat {
    if block.columns@.len() == 0 {
        0
    } else {
        block.columns@[0]@.len()
    }
}

/// The rows of a block are counted by its first column, whatever the
/// number of its columns: a block whose columns all hold `n` values has
/// `n` rows, and a block without columns has none.
pub proof fn lemma_num_rows(block: DataBlock, n: nat)
    ensures
        block.columns@.len() == 0 ==> block_num_rows(block) == 0,
        block.columns@.len() > 0 && (forall|c: int|
            0 <= c < block.columns@.len() ==> (#[trigger] block.columns@[c])@.len() == n)
            ==> block_num_rows(block) == n,
{
    if block.columns@.len() > 0 && (forall|c: int|
        0 <= c < block.columns@.len() ==> (#[trigger] block.columns@[c])@.len() == n) {
        assert(block.columns@[0]@.len() == n);
    }
}

impl DataBlock {
    pub fn num_rows(&self) -> (res: usize)
        ensures
            res == block_num_rows(*self),
            self.columns@.len() == 0 ==> res == 0,
            self.columns@.len() > 0 ==> res == self.columns@[0]@.len(),
    {
        if self.columns.len() == 0 {
            0
        } else {
            self.columns[0].len()
        }
    }
}

/// The statistics of a block written to a file: its size in rows and
/// bytes, where it is, the statistics of each column by column id, and
/// those of its cluster key.
#[verifier::reject_recursive_types(ColumnStatistics)]
#[verifier::reject_recursive_types(ClusterStatistics)]
#[derive(Debug)]
pub struct BlockStatistics<ColumnStatistics, ClusterStatistics> {
    pub block_rows_size: u64,
    pub block_bytes_size: u64,
    pub block_file_location: String,
    pub block_column_statistics: HashMap<u32, ColumnStatistics>,
    pub block_cluster_statistics: Option<ClusterStatistics>,
}

impl<ColumnStatistics, ClusterStatistics> BlockStatistics<ColumnStatistics, ClusterStatistics> {
    /// The statistics of `data_block`, written to `location`, whose size in
    /// memory is `memory_size` and whose column statistics were computed as
    /// `column_statistics`: an error there is the result.
    pub fn from<E>(
        data_block: &DataBlock,
        memory_size: usize,
        column_statistics: Result<HashMap<u32, ColumnStatistics>, E>,
        location: String,
        cluster_stats: Option<ClusterStatistics>,
    ) -> (res: Result<Self, E>)
        ensures
            column_statistics is Err <==> res is Err,
            res matches Err(e) ==> column_statistics == Err::<HashMap<u32, ColumnStatistics>, E>(e),
            res matches Ok(s) ==> {
                &&& s.block_file_location == location
                &&& s.block_rows_size == block_num_rows(*data_block)
                &&& data_block.columns@.len() > 0 ==> s.block_rows_size
                    == data_block.columns@[0]@.len()
                &&& s.block_bytes_size == memory_size
                &&& column_statistics == Ok::<HashMap<u32, ColumnStatistics>, E>(
                    s.block_column_statistics,
                )
                &&& s.block_cluster_statistics == cluster_stats
            },
    {
        let block_column_statistics = match column_statistics {
            Ok(stats) => stats,
            Err(e) => {
                return Err(e);
            },
        };
        Ok(BlockStatistics {
            block_file_location: location,
            block_rows_size: data_block.num_rows() as u64,
            block_bytes_size: memory_size as u64,
            block_column_statistics,
            block_cluster_statistics: cluster_stats,
        })
    }
}

} // verus!

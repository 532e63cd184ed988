//! Tiered compaction rounds: the fully compacted files are grouped, in the
//! order given, into chains whose running size stays below a bound, and each
//! chain of two or more files becomes a range to compact.
use vstd::prelude::*;

verus! {

/// How far a file has been compacted.
#[derive(Debug, Clone, Copy, PartialEq, Eq, Structural)]
pub enum CompactionLevel {
    Initial,
    FileNonOverlapped,
    Final,
}

/// What the round planner reads of a parquet file.
#[derive(Debug, Clone, Copy, PartialEq, Eq, Structural)]
pub struct CompactionFile {
    pub compaction_level: CompactionLevel,
    pub file_size_bytes: i64,
    pub min_time: i64,
    pub max_time: i64,
}

/// A range of files to compact into the final level together.
#[derive(Debug)]
pub struct CompactRange {
    /// The size up to which files are grouped in the compacted output.
    pub max_total_file_size_to_group: usize,
    /// The minimum time of the range's first file.
    pub min: i64,
    /// The maximum time of the range's last file.
    pub max: i64,
    pub files: Vec<CompactionFile>,
}

/// The ranges of one compaction round.
#[derive(Debug)]
pub struct RoundInfo {
    pub ranges: Vec<CompactRange>,
}

/// Plans rounds that recompact final-level files into larger ones.
#[derive(Debug, Clone, Copy)]
pub struct TieredRoundInfo {
    pub max_file_size: usize,
    pub max_file_size_to_group: usize,
}

/// The final-level files among `files`, in order.
pub open spec fn final_level_files(files: Seq<CompactionFile>) -> Seq<CompactionFile>
    decreases files.len(),
{
    if files.len() == 0 {
        Seq::empty()
    } else {
        let rest = final_level_files(files.drop_last());
        if files.last().compaction_level == CompactionLevel::Final {
            rest.push(files.last())
        } else {
            rest
        }
    }
}

/// The chains closed so far, the open chain and its running size.
pub struct ChainState {
    pub chains: Seq<Seq<CompactionFile>>,
    pub chain: Seq<CompactionFile>,
    pub sum: int,
}

/// Walks `files` in order: a file joins the open chain while the running
/// size plus its own stays below `limit`; otherwise the open chain is closed
/// (kept only with two or more files) and a new one starts with the file,
/// its running size back at zero.
pub open spec fn chain_state(files: Seq<CompactionFile>, limit: int) -> ChainState
    decreases files.len(),
{
    if files.len() == 0 {
        ChainState { chains: Seq::empty(), chain: Seq::empty(), sum: 0 }
    } else {
        let s = chain_state(files.drop_last(), limit);
        let f = files.last();
        if s.sum + f.file_size_bytes < limit {
            ChainState { chains: s.chains, chain: s.chain.push(f), sum: s.sum + f.file_size_bytes }
        } else {
            ChainState {
                chains: if s.chain.len() > 1 { s.chains.push(s.chain) } else { s.chains },
                chain: seq![f],
                sum: 0,
            }
        }
    }
}

/// The chains that become ranges; an open chain left at the end is not one.
pub open spec fn tiered_chains(files: Seq<CompactionFile>, max_file_size: usize) -> Seq<
    Seq<CompactionFile>,
> {
    chain_state(final_level_files(files), (max_file_size as i64) as int).chains
}

/// Every closed chain holds two or more files.
pub proof fn lemma_chains_have_two(files: Seq<CompactionFile>, limit: int)
    ensures
        forall|i: int|
            0 <= i < chain_state(files, limit).chains.len() ==> #[trigger] chain_state(
                files,
                limit,
            ).chains[i].len() > 1,
    decreases files.len(),
{
    if files.len() > 0 {
        lemma_chains_have_two(files.drop_last(), limit);
        let s = chain_state(files.drop_last(), limit);
        let t = chain_state(files, limit);
        assert forall|i: int| 0 <= i < t.chains.len() implies #[trigger] t.chains[i].len() > 1 by {
            if i < s.chains.len() {
                assert(s.chains[i].len() > 1);
            }
        }
    }
}

impl TieredRoundInfo {
    /// One range per chain of `tiered_chains` (each of two or more files), in
    /// order, spanning from the chain's first file's minimum time to its last
    /// file's maximum time.
    /// The round never ends the compaction by itself: the flag is `false`.
    pub fn calculate(&self, files: Vec<CompactionFile>) -> (r: (RoundInfo, bool))
        ensures
            r.1 == false,
            r.0.ranges@.len() == tiered_chains(files@, self.max_file_size).len(),
            forall|i: int|
                0 <= i < r.0.ranges@.len() ==> {
                    let c = tiered_chains(files@, self.max_file_size)[i];
                    let g = #[trigger] r.0.ranges@[i];
                    &&& g.files@ == c
                    &&& c.len() > 1
                    &&& g.min == c[0].min_time
                    &&& g.max == c.last().max_time
                    &&& g.max_total_file_size_to_group == self.max_file_size_to_group
                },
    {
        let mut l2s: Vec<CompactionFile> = Vec::new();
        let mut i: usize = 0;
        while i < files.len()
            invariant
                i <= files@.len(),
                l2s@ == final_level_files(files@.take(i as int)),
            decreases files@.len() - i,
        {
            let f = files[i];
            proof {
                assert(files@.take(i + 1).drop_last() =~= files@.take(i as int));
            }
            if f.compaction_level == CompactionLevel::Final {
                l2s.push(f);
            }
            i = i + 1;
        }
        assert(files@.take(files@.len() as int) =~= files@);
        let limit = #[verifier::truncate] (self.max_file_size as i64);
        let ghost lim = limit as int;
        let mut chains: Vec<Vec<CompactionFile>> = Vec::new();
        let mut chain: Vec<CompactionFile> = Vec::new();
        let mut current_sum: i128 = 0;
        let mut j: usize = 0;
        while j < l2s.len()
            invariant
                j <= l2s@.len(),
                lim == limit as int,
                chains@.map_values(|v: Vec<CompactionFile>| v@) == chain_state(
                    l2s@.take(j as int),
                    lim,
                ).chains,
                chain@ == chain_state(l2s@.take(j as int), lim).chain,
                current_sum as int == chain_state(l2s@.take(j as int), lim).sum,
                current_sum < 0x8000_0000_0000_0000,
                current_sum >= -(j as int) * 0x8000_0000_0000_0000,
            decreases l2s@.len() - j,
        {
            let f = l2s[j];
            let ghost s = chain_state(l2s@.take(j as int), lim);
            proof {
                assert(l2s@.take(j + 1).drop_last() =~= l2s@.take(j as int));
                assert(l2s@.take(j + 1).last() == f);
            }
            let ghost t = chain_state(l2s@.take(j + 1), lim);
            if current_sum + (f.file_size_bytes as i128) < (limit as i128) {
                current_sum = current_sum + (f.file_size_bytes as i128);
                chain.push(f);
                assert(t.chain == s.chain.push(f));
                assert(t.chains == s.chains);
            } else {
                if chain.len() > 1 {
                    let ghost old_chains = chains@;
                    chains.push(chain);
                    assert(chains@.map_values(|v: Vec<CompactionFile>| v@) =~= old_chains.map_values(
                        |v: Vec<CompactionFile>| v@,
                    ).push(chain_state(l2s@.take(j as int), lim).chain));
                }
                chain = Vec::new();
                current_sum = 0;
                chain.push(f);
                assert(chain@ =~= seq![f]);
                assert(t.chain == seq![f]);
            }
            j = j + 1;
        }
        assert(l2s@.take(l2s@.len() as int) =~= l2s@);
        proof {
            lemma_chains_have_two(l2s@, lim);
        }
        let ghost model = chain_state(l2s@, lim).chains;
        let mut ranges: Vec<CompactRange> = Vec::new();
        let mut k: usize = 0;
        let n = chains.len();
        while k < n
            invariant
                n == chains@.len(),
                k <= n,
                chains@.map_values(|v: Vec<CompactionFile>| v@) == model,
                model == tiered_chains(files@, self.max_file_size),
                forall|m: int| 0 <= m < model.len() ==> #[trigger] model[m].len() > 1,
                ranges@.len() == k,
                forall|m: int|
                    0 <= m < k ==> {
                        let c = model[m];
                        let g = #[trigger] ranges@[m];
                        &&& g.files@ == c
                    &&& c.len() > 1
                        &&& g.min == c[0].min_time
                        &&& g.max == c.last().max_time
                        &&& g.max_total_file_size_to_group == self.max_file_size_to_group
                    },
            decreases n - k,
        {
            assert(chains@[k as int]@ == model[k as int]);
            let c = &chains[k];
            let last = c.len() - 1;
            let range = CompactRange {
                max_total_file_size_to_group: self.max_file_size_to_group,
                min: c[0].min_time,
                max: c[last].max_time,
                files: c.clone(),
            };
            ranges.push(range);
            k = k + 1;
        }
        (RoundInfo { ranges }, false)
    }
}

} // verus!

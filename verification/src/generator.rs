//! The collection orchestrator.
//!
//! A run repeatedly samples a candidate parameter set from a seed derived
//! from the run seed and the attempt counter, rejects duplicates by
//! fingerprint and over-full rarity tiers by quota, renders and encodes
//! the survivors, and commits them with strictly increasing token
//! numbers. The contract carries the run's invariants: committed
//! fingerprints are pairwise distinct, no tier ever exceeds its target,
//! and every non-fallback artifact is within the byte budget.

use vstd::prelude::*;

use crate::digest::{fingerprint, spec_fingerprint};
use crate::fractal::{spec_render_data, FractalConfig, FractalGenerator};
use crate::metadata::{
    spec_rarity_score, spec_tier_from_score, spec_tier_index, spec_tier_percent,
    MetadataGenerator, NFTMetadata, RarityTier,
};
use crate::optimizer::{spec_encode_search, Artifact, ImageOptimizer};

verus! {

/// Per-tier target counts and acceptance counts, indexed in ascending
/// rarity order.
#[derive(Debug)]
pub struct RarityTracker {
    pub target_counts: Vec<u32>,
    pub current_counts: Vec<u32>,
}

impl RarityTracker {
    /// The quota invariant: five tiers, and no acceptance count above its
    /// target.
    pub open spec fn wf(&self) -> bool {
        &&& self.target_counts@.len() == 5
        &&& self.current_counts@.len() == 5
        &&& forall|i: int|
            0 <= i < 5 ==> self.current_counts@[i] <= self.target_counts@[i]
    }

    /// The target count a tier is entitled to out of `total` items.
    pub open spec fn spec_target(total: int, t: RarityTier) -> int {
        (total * spec_tier_percent(t)) / 100
    }

    /// All five targets set from the collection size, all counts zero.
    pub fn new(total_count: u32) -> (r: RarityTracker)
        ensures
            r.wf(),
            forall|i: int| 0 <= i < 5 ==> r.current_counts@[i] == 0,
            forall|t: RarityTier|
                #![auto]
                r.target_counts@[spec_tier_index(t)] == Self::spec_target(total_count as int, t),
    {
        let total = total_count as u64;
        let common = ((total * 50) / 100) as u32;
        let uncommon = ((total * 30) / 100) as u32;
        let rare = ((total * 15) / 100) as u32;
        let epic = ((total * 4) / 100) as u32;
        let legendary = ((total * 1) / 100) as u32;
        let target_counts: Vec<u32> = vec![common, uncommon, rare, epic, legendary];
        let current_counts: Vec<u32> = vec![0, 0, 0, 0, 0];
        RarityTracker { target_counts, current_counts }
    }

    /// Whether the tier still has room under its target.
    pub fn should_accept_rarity(&self, tier: RarityTier) -> (b: bool)
        requires
            self.wf(),
        ensures
            b == (self.current_counts@[spec_tier_index(tier)] < self.target_counts@[
                spec_tier_index(tier)]),
    {
        let i = tier.index();
        self.current_counts[i] < self.target_counts[i]
    }

    /// Record one acceptance; only callable while the tier has room, so
    /// the quota invariant is preserved.
    pub fn increment_rarity(&mut self, tier: RarityTier)
        requires
            old(self).wf(),
            old(self).current_counts@[spec_tier_index(tier)] < old(self).target_counts@[
                spec_tier_index(tier)],
        ensures
            final(self).wf(),
            final(self).target_counts@ == old(self).target_counts@,
            final(self).current_counts@ == old(self).current_counts@.update(
                spec_tier_index(tier),
                (old(self).current_counts@[spec_tier_index(tier)] + 1) as u32,
            ),
    {
        let i = tier.index();
        let v = self.current_counts[i];
        self.current_counts[i] = v + 1;
    }

    /// The five (accepted, target) pairs in ascending rarity order.
    pub fn get_stats(&self) -> (r: Vec<(u32, u32)>)
        requires
            self.wf(),
        ensures
            r@.len() == 5,
            forall|i: int|
                0 <= i < 5 ==> (#[trigger] r@[i]).0 == self.current_counts@[i] && r@[i].1
                    == self.target_counts@[i],
    {
        let mut r: Vec<(u32, u32)> = Vec::new();
        let mut i: usize = 0;
        while i < 5
            invariant
                self.wf(),
                i <= 5,
                r@.len() == i,
                forall|j: int|
                    0 <= j < i ==> (#[trigger] r@[j]).0 == self.current_counts@[j] && r@[j].1
                        == self.target_counts@[j],
            decreases 5 - i,
        {
            r.push((self.current_counts[i], self.target_counts[i]));
            i = i + 1;
        }
        r
    }
}

/// Everything the caller receives for one committed item.
#[derive(Debug)]
pub struct CommittedItem {
    pub token_id: u32,
    pub config: FractalConfig,
    pub fingerprint: Vec<u8>,
    pub tier: RarityTier,
    pub artifact: Artifact,
    pub metadata: NFTMetadata,
}

/// Everything the run owes for the committed item at position `idx`: a
/// fingerprint that is the digest of its own parameter set, a token
/// number equal to its commit position, the tier its score earns, an
/// artifact that is exactly the encoder search over the rasterization of
/// its parameter set at the run's image size and budget, and a metadata
/// record built from that config and artifact.
pub open spec fn spec_item_ok(it: CommittedItem, idx: int, image_size: u32, budget: u64) -> bool {
    &&& it.config.wf()
    &&& it.fingerprint@ == spec_fingerprint(it.config)
    &&& it.token_id == idx + 1
    &&& it.tier == spec_tier_from_score(spec_rarity_score(it.config))
    &&& it.artifact.wf()
    &&& !it.artifact.fallback ==> it.artifact.data@.len() <= budget
    &&& it.artifact.fallback ==> it.artifact.width == image_size && it.artifact.height
        == image_size
    &&& it.artifact.width <= image_size && it.artifact.height <= image_size
    &&& ({
        let e = spec_encode_search(
            image_size as int,
            image_size as int,
            spec_render_data(it.config, image_size as int, image_size as int),
            budget as int,
        );
        it.artifact.data@ == e.0 && it.artifact.width == e.1 && it.artifact.height == e.2
            && it.artifact.fallback == e.3
    })
    &&& MetadataGenerator::spec_generate_ok(
        it.metadata,
        it.token_id,
        it.config,
        it.artifact.data@.len() as int,
        (it.artifact.width, it.artifact.height),
        it.artifact.format,
    )
}

/// How many committed items carry the given tier.
pub open spec fn spec_tier_count(items: Seq<CommittedItem>, t: RarityTier) -> int
    decreases items.len(),
{
    if items.len() == 0 {
        0
    } else {
        spec_tier_count(items.drop_last(), t) + if items.last().tier == t {
            1int
        } else {
            0int
        }
    }
}

proof fn lemma_tier_count_push(items: Seq<CommittedItem>, it: CommittedItem)
    ensures
        forall|t: RarityTier|
            #![auto]
            spec_tier_count(items.push(it), t) == spec_tier_count(items, t) + if it.tier == t {
                1int
            } else {
                0int
            },
{
    assert forall|t: RarityTier|
        #![auto]
        spec_tier_count(items.push(it), t) == spec_tier_count(items, t) + if it.tier == t {
            1int
        } else {
            0int
        } by {
        assert(items.push(it).drop_last() =~= items);
        assert(items.push(it).last() == it);
    }
}

/// The collection-level summary a run ends with.
#[derive(Debug)]
pub struct CollectionSummary {
    pub total_generated: u32,
    pub tier_counts: Vec<u32>,
    pub image_size: u32,
    pub max_file_size: u64,
}

/// The outcome of one run: the committed items in commit order, the
/// attempts spent, and the summary.
#[derive(Debug)]
pub struct RunResult {
    pub items: Vec<CommittedItem>,
    pub attempts: u64,
    pub requested: u32,
    pub exhausted: bool,
    pub summary: CollectionSummary,
}

/// The orchestrator: the byte-budgeted encoder, the registry of used
/// fingerprints and the rarity quotas, all owned exclusively so the
/// check-then-commit sequence is one critical section.
pub struct NFTGenerator {
    pub image_size: u32,
    pub optimizer: ImageOptimizer,
    pub used_hashes: Vec<Vec<u8>>,
    pub rarity_tracker: RarityTracker,
}

fn bytes_eq(a: &Vec<u8>, b: &Vec<u8>) -> (r: bool)
    ensures
        r == (a@ == b@),
{
    let r = a.eq(b);
    proof {
        if r {
            assert(a@ =~= b@);
        } else {
            if a@ == b@ {
                assert(forall|i: int| 0 <= i < a@.len() ==> a@[i] == b@[i]);
                assert(false);
            }
        }
    }
    r
}

impl NFTGenerator {
    pub open spec fn wf(&self) -> bool {
        &&& 1 <= self.image_size <= 4096
        &&& self.rarity_tracker.wf()
    }

    /// A fresh orchestrator with an empty registry and all tier counts
    /// zero. The per-run tier targets are set when a run starts, from
    /// that run's requested size. The 4096-pixel ceiling on the edge
    /// length is a machine limit of the crate's exact fixed-point
    /// rasterizer, not a bound of the pipeline itself.
    pub fn new(image_size: u32, max_file_size: u64) -> (r: Self)
        requires
            1 <= image_size <= 4096,
        ensures
            r.wf(),
            r.image_size == image_size,
            r.optimizer.max_file_size == max_file_size,
            r.used_hashes@.len() == 0,
            forall|i: int| 0 <= i < 5 ==> r.rarity_tracker.current_counts@[i] == 0,
    {
        NFTGenerator {
            image_size,
            optimizer: ImageOptimizer::new(max_file_size),
            used_hashes: Vec::new(),
            rarity_tracker: RarityTracker::new(0),
        }
    }

    /// The per-attempt seed: the run seed spread by a small multiplier,
    /// offset by the attempt counter, in wrapping arithmetic.
    pub fn generate_unique_seed(run_seed: u64, attempt: u64) -> (r: u64)
        ensures
            r == run_seed.wrapping_mul(31).wrapping_add(attempt),
    {
        run_seed.wrapping_mul(31).wrapping_add(attempt)
    }

    fn contains_hash(used: &Vec<Vec<u8>>, fp: &Vec<u8>) -> (b: bool)
        ensures
            b == exists|i: int| 0 <= i < used@.len() && used@[i]@ == fp@,
    {
        let mut i: usize = 0;
        while i < used.len()
            invariant
                i <= used@.len(),
                forall|j: int| 0 <= j < i ==> used@[j]@ != fp@,
            decreases used@.len() - i,
        {
            if bytes_eq(&used[i], fp) {
                return true;
            }
            i = i + 1;
        }
        false
    }

    /// The rarity score of a parameter set, in milli-points.
    pub fn calculate_rarity_score(&self, config: &FractalConfig) -> (s: u32)
        requires
            config.wf(),
        ensures
            s == spec_rarity_score(*config),
            s <= 100_000,
    {
        MetadataGenerator::calculate_rarity_score(config)
    }

    /// The fingerprint a parameter set is registered under.
    pub fn calculate_config_hash(&self, config: &FractalConfig) -> (r: Vec<u8>)
        requires
            config.wf(),
        ensures
            r@ == spec_fingerprint(*config),
            r@.len() == 32,
    {
        fingerprint(config)
    }

    /// Render and encode one accepted candidate and build its metadata
    /// record. Pure compute — writing the artifact out is the caller's
    /// business — and always succeeds: the codecs cannot fail on the
    /// admitted inputs. The artifact is exactly the encoder search over
    /// the rasterization of the parameter set.
    pub fn generate_single_nft(&self, token_id: u32, config: &FractalConfig) -> (r: Result<
        (Artifact, NFTMetadata),
        crate::optimizer::EncodeError,
    >)
        requires
            self.wf(),
            config.wf(),
        ensures
            r matches Ok(p) && ({
                let e = spec_encode_search(
                    self.image_size as int,
                    self.image_size as int,
                    spec_render_data(*config, self.image_size as int, self.image_size as int),
                    self.optimizer.max_file_size as int,
                );
                &&& p.0.data@ == e.0
                &&& p.0.width == e.1
                &&& p.0.height == e.2
                &&& p.0.fallback == e.3
                &&& p.0.wf()
                &&& !p.0.fallback ==> p.0.data@.len() <= self.optimizer.max_file_size
                &&& p.0.fallback ==> p.0.width == self.image_size && p.0.height
                    == self.image_size
                &&& p.0.width <= self.image_size && p.0.height <= self.image_size
                &&& MetadataGenerator::spec_generate_ok(
                    p.1,
                    token_id,
                    *config,
                    p.0.data@.len() as int,
                    (p.0.width, p.0.height),
                    p.0.format,
                )
            }),
    {
        let img = FractalGenerator::generate(config, self.image_size, self.image_size);
        let artifact = match self.optimizer.optimize_to_target_size(&img) {
            Ok(a) => a,
            Err(e) => {
                return Err(e);
            },
        };
        let metadata = MetadataGenerator::generate(
            token_id,
            config,
            artifact.data.len() as u64,
            (artifact.width, artifact.height),
            artifact.format,
        );
        Ok((artifact, metadata))
    }

    /// The end-of-run summary: total committed, the five per-tier counts
    /// in ascending rarity order, and the configured constraints.
    pub fn generate_collection_summary(&self, total_generated: u32) -> (s: CollectionSummary)
        requires
            self.rarity_tracker.wf(),
        ensures
            s.total_generated == total_generated,
            s.image_size == self.image_size,
            s.max_file_size == self.optimizer.max_file_size,
            s.tier_counts@.len() == 5,
            forall|i: int|
                0 <= i < 5 ==> s.tier_counts@[i] == self.rarity_tracker.current_counts@[i],
    {
        let mut tier_counts: Vec<u32> = Vec::new();
        let mut i: usize = 0;
        while i < 5
            invariant
                self.rarity_tracker.wf(),
                i <= 5,
                tier_counts@.len() == i,
                forall|j: int|
                    0 <= j < i ==> tier_counts@[j] == self.rarity_tracker.current_counts@[j],
            decreases 5 - i,
        {
            tier_counts.push(self.rarity_tracker.current_counts[i]);
            i = i + 1;
        }
        CollectionSummary {
            total_generated,
            tier_counts,
            image_size: self.image_size,
            max_file_size: self.optimizer.max_file_size,
        }
    }

    /// Run one collection: sample, check, render, encode and commit until
    /// `count` items are committed or ten attempts per requested item are
    /// exhausted. The result carries the run's guarantees; see the
    /// `ensures` clauses.
    pub fn generate_collection(&mut self, count: u32, run_seed: u64) -> (r: RunResult)
        requires
            old(self).wf(),
            count >= 1,
        ensures
            final(self).wf(),
            r.requested == count,
            r.items@.len() <= count,
            r.exhausted == (r.items@.len() < count),
            r.items@.len() == count || r.attempts == count as int * 10,
            r.attempts <= count as int * 10,
            r.summary.total_generated == r.items@.len(),
            r.summary.image_size == old(self).image_size,
            r.summary.max_file_size == old(self).optimizer.max_file_size,
            r.summary.tier_counts@.len() == 5,
            forall|t: RarityTier|
                #![auto]
                r.summary.tier_counts@[spec_tier_index(t)] == spec_tier_count(r.items@, t),
            forall|i: int, j: int|
                0 <= i < j < r.items@.len() ==> r.items@[i].fingerprint@ != r.items@[
                    j].fingerprint@,
            forall|i: int|
                #![auto]
                0 <= i < r.items@.len() ==> spec_item_ok(
                    r.items@[i],
                    i,
                    old(self).image_size,
                    old(self).optimizer.max_file_size,
                ),
            forall|t: RarityTier|
                #![auto]
                spec_tier_count(r.items@, t) <= RarityTracker::spec_target(count as int, t),
    {
        self.rarity_tracker = RarityTracker::new(count);
        self.used_hashes = Vec::new();
        let ghost max_size = self.optimizer.max_file_size;
        let ghost isize_ = self.image_size;
        let mut items: Vec<CommittedItem> = Vec::new();
        let mut successful: u32 = 0;
        let mut attempts: u64 = 0;
        let max_attempts: u64 = count as u64 * 10;
        while successful < count && attempts < max_attempts
            invariant
                self.wf(),
                self.image_size == isize_,
                self.optimizer.max_file_size == max_size,
                count >= 1,
                max_attempts == count as int * 10,
                attempts <= max_attempts,
                successful as int == items@.len(),
                successful <= count,
                self.used_hashes@.len() == items@.len(),
                forall|i: int|
                    #![auto]
                    0 <= i < items@.len() ==> self.used_hashes@[i]@ == items@[i].fingerprint@,
                forall|i: int, j: int|
                    0 <= i < j < items@.len() ==> items@[i].fingerprint@ != items@[j].fingerprint@,
                forall|i: int|
                    #![auto]
                    0 <= i < items@.len() ==> spec_item_ok(items@[i], i, isize_, max_size),
                forall|t: RarityTier|
                    #![auto]
                    self.rarity_tracker.current_counts@[spec_tier_index(t)] == spec_tier_count(
                        items@,
                        t,
                    ),
                forall|t: RarityTier|
                    #![auto]
                    self.rarity_tracker.target_counts@[spec_tier_index(t)]
                        == RarityTracker::spec_target(count as int, t),
            decreases max_attempts - attempts,
        {
            attempts = attempts + 1;
            let seed = Self::generate_unique_seed(run_seed, attempts);
            let mut rng = crate::rng::rng_from_seed(seed);
            let config = FractalConfig::random(&mut rng);
            let config_hash = self.calculate_config_hash(&config);
            if !Self::contains_hash(&self.used_hashes, &config_hash) {
                let rarity_score = self.calculate_rarity_score(&config);
                let rarity_tier = RarityTier::from_score(rarity_score);
                if self.rarity_tracker.should_accept_rarity(rarity_tier) {
                    let token_id = successful + 1;
                    match self.generate_single_nft(token_id, &config) {
                        Ok((artifact, metadata)) => {
                            let ghost fp = config_hash@;
                            let ghost prev_items = items@;
                            let ghost prev_used = self.used_hashes@;
                            let registered = config_hash.clone();
                            proof {
                                assert(registered@ =~= config_hash@);
                            }
                            self.used_hashes.push(registered);
                            self.rarity_tracker.increment_rarity(rarity_tier);
                            let item = CommittedItem {
                                token_id,
                                config,
                                fingerprint: config_hash,
                                tier: rarity_tier,
                                artifact,
                                metadata,
                            };
                            items.push(item);
                            successful = successful + 1;
                            proof {
                                let it = items@.last();
                                assert(items@ == prev_items.push(it));
                                lemma_tier_count_push(prev_items, it);
                                assert forall|i: int, j: int|
                                    0 <= i < j < items@.len() implies items@[i].fingerprint@
                                    != items@[j].fingerprint@ by {
                                    if j == items@.len() - 1 {
                                        assert(items@[i] == prev_items[i]);
                                        assert(prev_items[i].fingerprint@ == prev_used[i]@);
                                        assert(prev_used[i]@ != fp);
                                        assert(items@[j].fingerprint@ == fp);
                                    }
                                }
                            }
                        },
                        Err(_) => {
                            // A codec failure rejects the attempt; the run
                            // goes on.
                        },
                    }
                }
            }
        }
        let exhausted = successful < count;
        let summary = self.generate_collection_summary(successful);
        RunResult { items, attempts, requested: count, exhausted, summary }
    }
}

} // verus!

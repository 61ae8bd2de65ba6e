//! The Bloom filter that remembers which URLs were already crawled, behind
//! the few calls the crawler makes on it.
use vstd::prelude::*;
use bloom::{ASMS, BloomFilter};

verus! {

#[verifier::external_type_specification]
#[verifier::external_body]
#[verifier::reject_recursive_types(R)]
#[verifier::reject_recursive_types(S)]
pub struct ExBloomFilter<R, S>(bloom::BloomFilter<R, S>);

/// The URLs inserted into a filter since it was created or last cleared.
pub uninterp spec fn bloom_items(f: BloomFilter) -> Set<Seq<char>>;

/// The number of bits a filter was sized with.
pub uninterp spec fn bloom_num_bits(f: BloomFilter) -> nat;

/// The number of hash functions a filter was made with.
pub uninterp spec fn bloom_num_hashes(f: BloomFilter) -> nat;

/// Calls `BloomFilter::num_hashes`, the hash count the filter was made with.
#[verifier::external_body]
pub(crate) fn filter_num_hashes(f: &BloomFilter) -> (r: u32)
    ensures
        r == bloom_num_hashes(*f),
{
    f.num_hashes()
}

/// Calls `BloomFilter::num_bits`, the size the filter was made with.
#[verifier::external_body]
pub(crate) fn filter_num_bits(f: &BloomFilter) -> (r: usize)
    ensures
        r == bloom_num_bits(*f),
{
    f.num_bits()
}

/// Calls `ASMS::contains`. The filter has no false negatives: an inserted
/// URL is always reported. It may report a URL that was never inserted (a
/// false positive), so nothing more is said of the answer for such a URL,
/// except for a filter holding no item: its bits are all clear, so with at
/// least one hash function the first bit looked at answers `false`. The
/// crate's modulo by the bit count panics on an empty filter, hence the
/// requirement.
#[verifier::external_body]
pub(crate) fn filter_contains(f: &BloomFilter, url: &str) -> (r: bool)
    requires
        bloom_num_bits(*f) > 0,
    ensures
        bloom_items(*f).contains(url@) ==> r,
        bloom_items(*f) == Set::<Seq<char>>::empty() && bloom_num_hashes(*f) > 0 ==> !r,
{
    f.contains(&url)
}

/// Calls `ASMS::insert`: the URL joins the filter's items, and the size and
/// hash count are unchanged. The returned flag (whether some bit was newly set) is not used.
#[verifier::external_body]
pub(crate) fn filter_insert(f: &mut BloomFilter, url: &str)
    requires
        bloom_num_bits(*old(f)) > 0,
    ensures
        bloom_items(*final(f)) == bloom_items(*old(f)).insert(url@),
        bloom_num_bits(*final(f)) == bloom_num_bits(*old(f)),
        bloom_num_hashes(*final(f)) == bloom_num_hashes(*old(f)),
{
    f.insert(&url);
}

/// Calls `ASMS::clear`, which zeroes every bit: the filter holds no item
/// and keeps its size and hash count.
#[verifier::external_body]
pub(crate) fn filter_clear(f: &mut BloomFilter)
    ensures
        bloom_items(*final(f)) == Set::<Seq<char>>::empty(),
        bloom_num_bits(*final(f)) == bloom_num_bits(*old(f)),
        bloom_num_hashes(*final(f)) == bloom_num_hashes(*old(f)),
{
    f.clear();
}

} // verus!

//! Scale 3 bridge rules: how a chart's planets are tallied into elements,
//! modalities and houses, and which category dominates.
//!
//! The ten bodies are, in order: Sun, Moon, Mercury, Venus, Mars, Jupiter,
//! Saturn, Uranus, Neptune, Pluto. Signs are numbered 0 (Aries) to 11 (Pisces),
//! houses 0 to 11.
use vstd::prelude::*;

verus! {

/// Number of bodies in a chart.
pub const NUM_PLANETS: usize = 10;

/// Number of zodiac signs (and of houses).
pub const NUM_SIGNS: usize = 12;

/// Weight of a body in every tally: the luminaries (Sun and Moon) count
/// twice, every other body once.
pub open spec fn spec_planet_weight(planet: int) -> int {
    if planet < 2 {
        2
    } else {
        1
    }
}

/// Total weight of the first `n` bodies.
pub open spec fn total_weight(n: int) -> int
    decreases n,
{
    if n <= 0 {
        0
    } else {
        total_weight(n - 1) + spec_planet_weight(n - 1)
    }
}

/// Total weight of those of the first `n` bodies whose bin is `b`.
pub open spec fn weighted_count(bins: Seq<usize>, b: int, n: int) -> int
    decreases n,
{
    if n <= 0 {
        0
    } else {
        weighted_count(bins, b, n - 1) + (if bins[n - 1] as int == b {
            spec_planet_weight(n - 1)
        } else {
            0
        })
    }
}

/// Sum of the first `k` entries of a tally.
pub open spec fn tally_sum(t: Seq<u32>, k: int) -> int
    decreases k,
{
    if k <= 0 {
        0
    } else {
        tally_sum(t, k - 1) + t[k - 1]
    }
}

/// Element of each sign: Fire (0), Earth (1), Air (2), Water (3), repeating
/// from Aries.
pub open spec fn element_bins(signs: Seq<usize>) -> Seq<usize> {
    signs.map_values(|s: usize| (s % 4) as usize)
}

/// Modality of each sign: Cardinal (0), Fixed (1), Mutable (2), repeating
/// from Aries.
pub open spec fn modality_bins(signs: Seq<usize>) -> Seq<usize> {
    signs.map_values(|s: usize| (s % 3) as usize)
}

/// Index `i` is the last position of a maximum of `t`.
pub open spec fn is_last_maximum(t: Seq<u32>, i: int) -> bool {
    &&& 0 <= i < t.len()
    &&& forall|j: int| 0 <= j < t.len() ==> t[j] <= t[i]
    &&& forall|j: int| i < j < t.len() ==> t[j] < t[i]
}

/// The total weight of a chart is 12: two luminaries of weight 2 and eight
/// bodies of weight 1.
pub proof fn lemma_total_weight_of_chart()
    ensures
        total_weight(NUM_PLANETS as int) == 12,
{
    reveal_with_fuel(total_weight, 11);
}

/// The luminaries weigh the same, twice as much as any other body, the other
/// bodies all weigh the same, and a whole chart weighs 12; so every other
/// body weighs 1 and each luminary 2.
pub proof fn lemma_planet_weights()
    ensures
        spec_planet_weight(0) == spec_planet_weight(1),
        forall|k: int| 2 <= k < NUM_PLANETS ==> spec_planet_weight(0) == 2 * #[trigger] spec_planet_weight(k),
        forall|j: int, k: int| 2 <= j < NUM_PLANETS && 2 <= k < NUM_PLANETS ==>
            #[trigger] spec_planet_weight(j) == #[trigger] spec_planet_weight(k),
        total_weight(NUM_PLANETS as int) == 12,
{
    lemma_total_weight_of_chart();
}

/// Body by body, the element bins of a chart are the elements of the bodies'
/// own signs: Fire, Earth, Air, Water repeating from Aries, for all twelve
/// signs.
pub proof fn lemma_element_bins_follow_signs(signs: Seq<usize>)
    ensures
        element_bins(signs).len() == signs.len(),
        forall|k: int| 0 <= k < signs.len() ==> #[trigger] element_bins(signs)[k] == signs[k] % 4,
{
}

/// Body by body, the modality bins of a chart are the modalities of the
/// bodies' own signs: Cardinal, Fixed, Mutable repeating from Aries, for all
/// twelve signs.
pub proof fn lemma_modality_bins_follow_signs(signs: Seq<usize>)
    ensures
        modality_bins(signs).len() == signs.len(),
        forall|k: int| 0 <= k < signs.len() ==> #[trigger] modality_bins(signs)[k] == signs[k] % 3,
{
}

/// Two charts whose first `n` bins agree have the same weighted counts over
/// those bodies.
proof fn lemma_weighted_count_prefix(bins1: Seq<usize>, bins2: Seq<usize>, b: int, n: int)
    requires
        n <= bins1.len(),
        n <= bins2.len(),
        forall|j: int| 0 <= j < n ==> bins1[j] == bins2[j],
    ensures
        weighted_count(bins1, b, n) == weighted_count(bins2, b, n),
    decreases n,
{
    if n > 0 {
        lemma_weighted_count_prefix(bins1, bins2, b, n - 1);
    }
}

/// A bin that none of the first `n` bodies occupies counts nothing.
pub proof fn lemma_weighted_count_empty_bin(bins: Seq<usize>, b: int, n: int)
    requires
        n <= bins.len(),
        forall|k: int| 0 <= k < n ==> bins[k] as int != b,
    ensures
        weighted_count(bins, b, n) == 0,
    decreases n,
{
    if n > 0 {
        lemma_weighted_count_empty_bin(bins, b, n - 1);
    }
}

/// A bin that all of the first `n` bodies occupy counts their whole weight.
pub proof fn lemma_weighted_count_full_bin(bins: Seq<usize>, b: int, n: int)
    requires
        n <= bins.len(),
        forall|k: int| 0 <= k < n ==> bins[k] as int == b,
    ensures
        weighted_count(bins, b, n) == total_weight(n),
    decreases n,
{
    if n > 0 {
        lemma_weighted_count_full_bin(bins, b, n - 1);
    }
}

/// Moving body `k` into bin `c` adds exactly its weight to bin `c`, takes
/// exactly its weight from the bin it left, and leaves every other bin as it
/// was.
pub proof fn lemma_weighted_count_move(bins: Seq<usize>, k: int, c: usize, b: int, n: int)
    requires
        0 <= k < n <= bins.len(),
    ensures
        weighted_count(bins.update(k, c), b, n) == weighted_count(bins, b, n) + (if b == c as int {
            spec_planet_weight(k)
        } else {
            0
        }) - (if b == bins[k] as int {
            spec_planet_weight(k)
        } else {
            0
        }),
    decreases n,
{
    if n == k + 1 {
        lemma_weighted_count_prefix(bins.update(k, c), bins, b, k);
    } else {
        lemma_weighted_count_move(bins, k, c, b, n - 1);
    }
}

/// Changing one entry of a tally changes its sum by the same amount.
proof fn lemma_tally_sum_update(t: Seq<u32>, b: int, v: u32, k: int)
    requires
        0 <= b < t.len(),
        k <= t.len(),
    ensures
        tally_sum(t.update(b, v), k) == tally_sum(t, k) + (if b < k {
            v - t[b]
        } else {
            0
        }),
    decreases k,
{
    if k > 0 {
        lemma_tally_sum_update(t, b, v, k - 1);
    }
}

/// A weighted count never exceeds the weight of all bodies counted.
proof fn lemma_weighted_count_bounded(bins: Seq<usize>, b: int, n: int)
    ensures
        0 <= weighted_count(bins, b, n) <= total_weight(n),
        n >= 0 ==> total_weight(n) <= 2 * n,
    decreases n,
{
    if n > 0 {
        lemma_weighted_count_bounded(bins, b, n - 1);
    }
}

/// Weight of a body in the tallies: 2 for the Sun and the Moon, 1 otherwise.
pub fn planet_weight(planet: usize) -> (w: u32)
    requires
        planet < NUM_PLANETS,
    ensures
        w == spec_planet_weight(planet as int),
{
    if planet < 2 {
        2
    } else {
        1
    }
}

/// Element of a sign: Aries, Leo, Sagittarius are Fire (0); Taurus, Virgo,
/// Capricorn are Earth (1); Gemini, Libra, Aquarius are Air (2); Cancer,
/// Scorpio, Pisces are Water (3).
pub fn sign_element(sign: usize) -> (element: usize)
    requires
        sign < NUM_SIGNS,
    ensures
        element == sign % 4,
        element < 4,
{
    sign % 4
}

/// Modality of a sign: Aries, Cancer, Libra, Capricorn are Cardinal (0);
/// Taurus, Leo, Scorpio, Aquarius are Fixed (1); Gemini, Virgo, Sagittarius,
/// Pisces are Mutable (2).
pub fn sign_modality(sign: usize) -> (modality: usize)
    requires
        sign < NUM_SIGNS,
    ensures
        modality == sign % 3,
        modality < 3,
{
    sign % 3
}

/// Weighted histogram of the bodies over `N` bins: entry `b` is the total
/// weight of the bodies whose bin is `b`, and the entries add up to the
/// chart's total weight.
fn weighted_histogram<const N: usize>(bins: &[usize; 10]) -> (hist: [u32; N])
    requires
        forall|i: int| 0 <= i < NUM_PLANETS ==> (#[trigger] bins@[i]) < N,
    ensures
        forall|b: int| 0 <= b < N ==> (#[trigger] hist@[b]) == weighted_count(bins@, b, 10),
        tally_sum(hist@, N as int) == total_weight(10),
{
    let mut hist: [u32; N] = [0u32; N];
    assert(tally_sum(hist@, N as int) == 0) by {
        let z = hist@;
        assert forall|k: int| 0 <= k <= N implies tally_sum(z, k) == 0 by {
            lemma_tally_sum_zero(z, k);
        }
    }
    let mut i: usize = 0;
    while i < NUM_PLANETS
        invariant
            0 <= i <= NUM_PLANETS,
            hist@.len() == N,
            forall|k: int| 0 <= k < NUM_PLANETS ==> (#[trigger] bins@[k]) < N,
            forall|b: int| 0 <= b < N ==> (#[trigger] hist@[b]) == weighted_count(bins@, b, i as int),
            tally_sum(hist@, N as int) == total_weight(i as int),
        decreases NUM_PLANETS - i,
    {
        let b = bins[i];
        let w = planet_weight(i);
        proof {
            lemma_weighted_count_bounded(bins@, b as int, i as int);
        }
        let old_hist = hist;
        let next = hist[b] + w;
        hist[b] = next;
        proof {
            lemma_tally_sum_update(old_hist@, b as int, next, N as int);
            assert forall|c: int| 0 <= c < N implies (#[trigger] hist@[c]) == weighted_count(
                bins@,
                c,
                i + 1,
            ) by {
                if c != b as int {
                    assert(hist@[c] == old_hist@[c]);
                }
            }
        }
        i = i + 1;
    }
    hist
}

/// Weighted tally of the bodies over the four elements [Fire, Earth, Air,
/// Water], from the sign each body occupies. Entry `e` is the total weight of
/// the bodies in a sign of element `e`; the entries add up to 12.
pub fn element_tally(signs: &[usize; 10]) -> (tally: [u32; 4])
    requires
        forall|i: int| 0 <= i < NUM_PLANETS ==> (#[trigger] signs@[i]) < NUM_SIGNS,
    ensures
        forall|e: int| 0 <= e < 4 ==> (#[trigger] tally@[e]) == weighted_count(element_bins(signs@), e, 10),
        tally_sum(tally@, 4) == 12,
        tally@[0] + tally@[1] + tally@[2] + tally@[3] == 12,
        forall|e: int| 0 <= e < 4 ==> (#[trigger] tally@[e]) == weighted_count(
            signs@.map_values(|s: usize| (s % 4) as usize),
            e,
            10,
        ),
{
    let mut bins: [usize; 10] = [0usize; 10];
    let mut i: usize = 0;
    while i < NUM_PLANETS
        invariant
            0 <= i <= NUM_PLANETS,
            bins@.len() == NUM_PLANETS,
            forall|k: int| 0 <= k < NUM_PLANETS ==> (#[trigger] signs@[k]) < NUM_SIGNS,
            forall|k: int| 0 <= k < i ==> (#[trigger] bins@[k]) == signs@[k] % 4,
            forall|k: int| 0 <= k < NUM_PLANETS ==> (#[trigger] bins@[k]) < 4,
        decreases NUM_PLANETS - i,
    {
        bins[i] = sign_element(signs[i]);
        i = i + 1;
    }
    assert(bins@ =~= element_bins(signs@));
    proof {
        lemma_total_weight_of_chart();
    }
    let tally = weighted_histogram::<4>(&bins);
    proof {
        reveal_with_fuel(tally_sum, 5);
    }
    tally
}

/// Weighted tally of the bodies over the three modalities [Cardinal, Fixed,
/// Mutable], from the sign each body occupies. Entry `m` is the total weight
/// of the bodies in a sign of modality `m`; the entries add up to 12.
pub fn modality_tally(signs: &[usize; 10]) -> (tally: [u32; 3])
    requires
        forall|i: int| 0 <= i < NUM_PLANETS ==> (#[trigger] signs@[i]) < NUM_SIGNS,
    ensures
        forall|m: int| 0 <= m < 3 ==> (#[trigger] tally@[m]) == weighted_count(modality_bins(signs@), m, 10),
        tally_sum(tally@, 3) == 12,
        tally@[0] + tally@[1] + tally@[2] == 12,
        forall|m: int| 0 <= m < 3 ==> (#[trigger] tally@[m]) == weighted_count(
            signs@.map_values(|s: usize| (s % 3) as usize),
            m,
            10,
        ),
{
    let mut bins: [usize; 10] = [0usize; 10];
    let mut i: usize = 0;
    while i < NUM_PLANETS
        invariant
            0 <= i <= NUM_PLANETS,
            bins@.len() == NUM_PLANETS,
            forall|k: int| 0 <= k < NUM_PLANETS ==> (#[trigger] signs@[k]) < NUM_SIGNS,
            forall|k: int| 0 <= k < i ==> (#[trigger] bins@[k]) == signs@[k] % 3,
            forall|k: int| 0 <= k < NUM_PLANETS ==> (#[trigger] bins@[k]) < 3,
        decreases NUM_PLANETS - i,
    {
        bins[i] = sign_modality(signs[i]);
        i = i + 1;
    }
    assert(bins@ =~= modality_bins(signs@));
    proof {
        lemma_total_weight_of_chart();
    }
    let tally = weighted_histogram::<3>(&bins);
    proof {
        reveal_with_fuel(tally_sum, 4);
    }
    tally
}

/// Weighted tally of the bodies over the twelve houses, from the house each
/// body occupies. Entry `h` is the total weight of the bodies in house `h`;
/// the entries add up to 12.
pub fn house_tally(houses: &[usize; 10]) -> (tally: [u32; 12])
    requires
        forall|i: int| 0 <= i < NUM_PLANETS ==> (#[trigger] houses@[i]) < NUM_SIGNS,
    ensures
        forall|h: int| 0 <= h < 12 ==> (#[trigger] tally@[h]) == weighted_count(houses@, h, 10),
        tally_sum(tally@, 12) == 12,
        tally@[0] + tally@[1] + tally@[2] + tally@[3] + tally@[4] + tally@[5] + tally@[6]
            + tally@[7] + tally@[8] + tally@[9] + tally@[10] + tally@[11] == 12,
{
    proof {
        lemma_total_weight_of_chart();
    }
    let tally = weighted_histogram::<12>(houses);
    proof {
        reveal_with_fuel(tally_sum, 13);
    }
    tally
}

/// Index of the dominant entry of a tally: the last position holding the
/// largest value (ties go to the later category).
pub fn dominant_index(tally: &[u32]) -> (best: usize)
    requires
        tally@.len() > 0,
    ensures
        is_last_maximum(tally@, best as int),
{
    let mut best: usize = 0;
    let mut i: usize = 1;
    while i < tally.len()
        invariant
            1 <= i <= tally@.len(),
            best < i,
            forall|j: int| 0 <= j < i ==> tally@[j] <= tally@[best as int],
            forall|j: int| best < j < i ==> tally@[j] < tally@[best as int],
        decreases tally@.len() - i,
    {
        if tally[i] >= tally[best] {
            best = i;
        }
        i = i + 1;
    }
    best
}

/// A tally of zeros sums to zero.
proof fn lemma_tally_sum_zero(t: Seq<u32>, k: int)
    requires
        k <= t.len(),
        forall|j: int| 0 <= j < t.len() ==> t[j] == 0,
    ensures
        tally_sum(t, k) == 0,
    decreases k,
{
    if k > 0 {
        lemma_tally_sum_zero(t, k - 1);
    }
}

} // verus!

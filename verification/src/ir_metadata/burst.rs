//! Choosing frames of a burst, given what the camera said about each.
use vstd::prelude::*;
use crate::ir_metadata::parse::Illumination;
use crate::reading::Reading;

verus! {

/// A gate frame may clip at most this fraction of its pixels, 0.05, before selection
/// prefers a cleaner frame.
pub const CLIPPED_FRAC_MAX: u64 = 0x3fa9_9999_9999_999a;

/// The fraction of a frame all of whose pixels clip.
pub const FULLY_CLIPPED: u64 = 0x3ff0_0000_0000_0000;

/// Whether the camera flagged a frame lit.
pub open spec fn lit(flags: Seq<Option<Illumination>>, i: int) -> bool {
    0 <= i < flags.len() && flags[i] == Some(Illumination::Lit)
}

/// Whether the camera flagged a frame dark.
pub open spec fn dark(flags: Seq<Option<Illumination>>, i: int) -> bool {
    0 <= i < flags.len() && flags[i] == Some(Illumination::Dark)
}

/// Whether the camera flagged any of the first `n` frames lit.
pub open spec fn any_lit(flags: Seq<Option<Illumination>>, n: int) -> bool {
    exists|i: int| 0 <= i < n && #[trigger] lit(flags, i)
}

/// The clipped fraction of a frame: a frame that is missing counts as fully clipped.
pub open spec fn clipping(clipped: Seq<Reading>, i: int) -> Reading {
    if 0 <= i < clipped.len() {
        clipped[i]
    } else {
        Reading { bits: FULLY_CLIPPED }
    }
}

/// Whether a frame clips little enough.
pub open spec fn clean(clipped: Seq<Reading>, i: int) -> bool {
    Reading { bits: CLIPPED_FRAC_MAX }.at_least(clipping(clipped, i))
}

/// The frame that a scan of the first `n` frames ends with: the first eligible one, replaced by
/// each later eligible one that is better.
pub open spec fn scan(
    n: int,
    eligible: spec_fn(int) -> bool,
    better: spec_fn(int, int) -> bool,
) -> Option<int>
    decreases n,
{
    if n <= 0 {
        None
    } else {
        let before = scan(n - 1, eligible, better);
        if !eligible(n - 1) {
            before
        } else if before is None || better(n - 1, before->0) {
            Some(n - 1)
        } else {
            before
        }
    }
}

/// The brightest of the eligible frames, the first of equals.
pub open spec fn brightest(means: Seq<Reading>, eligible: spec_fn(int) -> bool) -> Option<int> {
    scan(means.len() as int, eligible, |i: int, j: int| means[i].above(means[j]))
}

/// The brightest frame among those that the camera flagged lit, or among all if it flagged none.
pub open spec fn brightest_lit_of(
    means: Seq<Reading>,
    flags: Seq<Option<Illumination>>,
) -> Option<int> {
    brightest(means, |i: int| any_lit(flags, means.len() as int) ==> lit(flags, i))
}

/// The brightest frame that is flagged lit and clean.
pub open spec fn brightest_clean(
    means: Seq<Reading>,
    flags: Seq<Option<Illumination>>,
    clipped: Seq<Reading>,
) -> Option<int> {
    brightest(means, |i: int| lit(flags, i) && clean(clipped, i))
}

/// The least clipped frame that is flagged lit, the brighter of two that clip alike.
pub open spec fn least_clipped(
    means: Seq<Reading>,
    flags: Seq<Option<Illumination>>,
    clipped: Seq<Reading>,
) -> Option<int> {
    scan(
        means.len() as int,
        |i: int| lit(flags, i),
        |i: int, j: int|
            clipping(clipped, j).above(clipping(clipped, i)) || (clipping(clipped, i).equals(
                clipping(clipped, j),
            ) && means[i].above(means[j])),
    )
}

fn is_lit(flags: &[Option<Illumination>], i: usize) -> (r: bool)
    ensures
        r == lit(flags@, i as int),
{
    i < flags.len() && matches!(flags[i], Some(Illumination::Lit))
}

fn is_dark(flags: &[Option<Illumination>], i: usize) -> (r: bool)
    ensures
        r == dark(flags@, i as int),
{
    i < flags.len() && matches!(flags[i], Some(Illumination::Dark))
}

fn some_lit(flags: &[Option<Illumination>], n: usize) -> (r: bool)
    ensures
        r == any_lit(flags@, n as int),
{
    let mut i: usize = 0;
    while i < n
        invariant
            i <= n,
            forall|k: int| 0 <= k < i ==> !#[trigger] lit(flags@, k),
        decreases n - i,
    {
        if is_lit(flags, i) {
            return true;
        }
        i = i + 1;
    }
    false
}

fn clipping_of(clipped: &[Reading], i: usize) -> (r: Reading)
    ensures
        r == clipping(clipped@, i as int),
{
    if i < clipped.len() {
        clipped[i]
    } else {
        Reading { bits: FULLY_CLIPPED }
    }
}

fn is_clean(clipped: &[Reading], i: usize) -> (r: bool)
    ensures
        r == clean(clipped@, i as int),
{
    (Reading { bits: CLIPPED_FRAC_MAX }).is_at_least(&clipping_of(clipped, i))
}

/// The index as a number, if there is one.
pub open spec fn as_int(index: Option<usize>) -> Option<int> {
    match index {
        Some(i) => Some(i as int),
        None => None,
    }
}

/// Pick the frame to hand downstream, given what the camera said about each.
///
/// The rule is the brightest frame **among those the camera flagged lit**.
/// Metadata decides eligibility; the brightest-of-burst rule chooses
/// within it. Falls back to the brightest frame overall when no frame was flagged lit,
/// which covers a camera that reports no illumination records at all.
pub fn brightest_lit(means: &[Reading], flags: &[Option<Illumination>]) -> (r: Option<usize>)
    ensures
        as_int(r) == brightest_lit_of(means@, flags@),
        r is Some ==> r->0 < means@.len(),
{
    let restricted: bool = some_lit(flags, means.len());
    let ghost eligible = |i: int| any_lit(flags@, means@.len() as int) ==> lit(flags@, i);
    let ghost better = |i: int, j: int| means@[i].above(means@[j]);
    let mut best: Option<usize> = None;
    let mut i: usize = 0;
    while i < means.len()
        invariant
            i <= means@.len(),
            restricted == any_lit(flags@, means@.len() as int),
            eligible == (|i: int| any_lit(flags@, means@.len() as int) ==> lit(flags@, i)),
            better == (|i: int, j: int| means@[i].above(means@[j])),
            as_int(best) == scan(i as int, eligible, better),
            best is Some ==> best->0 < i,
        decreases means@.len() - i,
    {
        if !restricted || is_lit(flags, i) {
            match best {
                Some(b) => {
                    if means[i].is_above(&means[b]) {
                        best = Some(i);
                    }
                },
                None => {
                    best = Some(i);
                },
            }
        }
        i = i + 1;
    }
    best
}

/// The brightest frame that is flagged lit and clean.
fn brightest_clean_lit(
    means: &[Reading],
    flags: &[Option<Illumination>],
    clipped: &[Reading],
) -> (r: Option<usize>)
    ensures
        as_int(r) == brightest_clean(means@, flags@, clipped@),
        r is Some ==> r->0 < means@.len(),
{
    let ghost eligible = |i: int| lit(flags@, i) && clean(clipped@, i);
    let ghost better = |i: int, j: int| means@[i].above(means@[j]);
    let mut best: Option<usize> = None;
    let mut i: usize = 0;
    while i < means.len()
        invariant
            i <= means@.len(),
            eligible == (|i: int| lit(flags@, i) && clean(clipped@, i)),
            better == (|i: int, j: int| means@[i].above(means@[j])),
            as_int(best) == scan(i as int, eligible, better),
            best is Some ==> best->0 < i,
        decreases means@.len() - i,
    {
        if is_lit(flags, i) && is_clean(clipped, i) {
            match best {
                Some(b) => {
                    if means[i].is_above(&means[b]) {
                        best = Some(i);
                    }
                },
                None => {
                    best = Some(i);
                },
            }
        }
        i = i + 1;
    }
    best
}

/// The least clipped frame that is flagged lit, the brighter of two that clip alike.
fn least_clipped_lit(
    means: &[Reading],
    flags: &[Option<Illumination>],
    clipped: &[Reading],
) -> (r: Option<usize>)
    ensures
        as_int(r) == least_clipped(means@, flags@, clipped@),
        r is Some ==> r->0 < means@.len(),
{
    let ghost eligible = |i: int| lit(flags@, i);
    let ghost better = |i: int, j: int|
        clipping(clipped@, j).above(clipping(clipped@, i)) || (clipping(clipped@, i).equals(
            clipping(clipped@, j),
        ) && means@[i].above(means@[j]));
    let mut best: Option<usize> = None;
    let mut i: usize = 0;
    while i < means.len()
        invariant
            i <= means@.len(),
            eligible == (|i: int| lit(flags@, i)),
            better == (|i: int, j: int|
                clipping(clipped@, j).above(clipping(clipped@, i)) || (clipping(
                    clipped@,
                    i,
                ).equals(clipping(clipped@, j)) && means@[i].above(means@[j]))),
            as_int(best) == scan(i as int, eligible, better),
            best is Some ==> best->0 < i,
        decreases means@.len() - i,
    {
        if is_lit(flags, i) {
            let fraction: Reading = clipping_of(clipped, i);
            match best {
                Some(b) => {
                    let least: Reading = clipping_of(clipped, b);
                    if least.is_above(&fraction) || (fraction.is_equal(&least)
                        && means[i].is_above(&means[b])) {
                        best = Some(i);
                    }
                },
                None => {
                    best = Some(i);
                },
            }
        }
        i = i + 1;
    }
    best
}

/// The fractions, or none, as values.
pub open spec fn fractions_view(clipped: Option<&[Reading]>) -> Option<Seq<Reading>> {
    match clipped {
        Some(fractions) => Some(fractions@),
        None => None,
    }
}

/// The frame that liveness and matching read: see [`best_gate_frame`].
pub open spec fn gate_frame(
    means: Seq<Reading>,
    flags: Seq<Option<Illumination>>,
    clipped: Option<Seq<Reading>>,
) -> Option<int> {
    if clipped is None || !any_lit(flags, means.len() as int) {
        brightest_lit_of(means, flags)
    } else if brightest_clean(means, flags, clipped->0) is Some {
        brightest_clean(means, flags, clipped->0)
    } else {
        least_clipped(means, flags, clipped->0)
    }
}

/// Pick the burst frame the liveness gate and matcher read.
///
/// The brightest frame of a warming burst is precisely the most likely to
/// clip. So among the frames the camera itself
/// flagged lit, take the brightest whose clipped fraction is at most
/// [`CLIPPED_FRAC_MAX`], and when every lit frame clips harder than that, the
/// least clipped one (brightest on a tie): the checks read the best frame that
/// exists rather than the worst.
///
/// `clipped[i]` is the fraction of frame `i`'s pixels at the sensor ceiling;
/// `clipped` is `None` when the source format cannot say where its ceiling is.
/// A missing per-frame entry is treated as
/// fully clipped, never as clean: failure to observe must not authorize.
///
/// Without a clip ceiling, and without camera illumination flags, the brightest scan is
/// unchanged: a strobing burst's cleanest frames are the
/// emitter-off ones, so clip-aware selection there would trade a clipped face
/// for no face at all.
pub fn best_gate_frame(
    means: &[Reading],
    flags: &[Option<Illumination>],
    clipped: Option<&[Reading]>,
) -> (r: Option<usize>)
    ensures
        as_int(r) == (if clipped is None || !any_lit(flags@, means@.len() as int) {
            brightest_lit_of(means@, flags@)
        } else if brightest_clean(means@, flags@, clipped->0@) is Some {
            brightest_clean(means@, flags@, clipped->0@)
        } else {
            least_clipped(means@, flags@, clipped->0@)
        }),
        as_int(r) == gate_frame(means@, flags@, fractions_view(clipped)),
        r is Some ==> r->0 < means@.len(),
{
    let fractions: &[Reading] = match clipped {
        Some(fractions) => {
            if !some_lit(flags, means.len()) {
                return brightest_lit(means, flags);
            }
            fractions
        },
        None => {
            return brightest_lit(means, flags);
        },
    };
    match brightest_clean_lit(means, flags, fractions) {
        Some(i) => Some(i),
        None => least_clipped_lit(means, flags, fractions),
    }
}

/// Whether a burst has settled: its best clean lit frame is followed by two others at least, and
/// by none that improves on it.
pub open spec fn plateau(
    means: Seq<Reading>,
    flags: Seq<Option<Illumination>>,
    clipped: Seq<Reading>,
) -> bool {
    let best = brightest_clean(means, flags, clipped);
    &&& best is Some
    &&& means.len() >= best->0 + 3
    &&& forall|i: int|
        best->0 < i < means.len() ==> !(lit(flags, i) && clean(clipped, i)
            && (#[trigger] means[i]).above(means[best->0]))
}

/// The IR gate burst's early-exit rule: once the brightest clean,
/// camera-flagged-lit frame is at least two frames behind the head and
/// nothing since has improved on it, the remaining frames
/// of the burst cannot produce a better gate frame; they only delay the
/// attempt.
///
/// Fires only when both the camera's illumination flags and the format's
/// clip ceiling are measurable: without them "clean" and "lit" are
/// guesses, and the burst must complete.
pub fn burst_plateau_reached(
    means: &[Reading],
    flags: &[Option<Illumination>],
    clipped: Option<&[Reading]>,
) -> (r: bool)
    ensures
        r == (clipped is Some && flags@.len() == means@.len() && clipped->0@.len() == means@.len()
            && plateau(means@, flags@, clipped->0@)),
{
    let fractions: &[Reading] = match clipped {
        Some(fractions) => fractions,
        None => {
            return false;
        },
    };
    proof {
        scan_ends_with_an_eligible_frame(
            means@.len() as int,
            |i: int| lit(flags@, i) && clean(fractions@, i),
            |i: int, j: int| means@[i].above(means@[j]),
        );
    }
    if means.len() < 3 || flags.len() != means.len() || fractions.len() != means.len() {
        return false;
    }
    let best: usize = match brightest_clean_lit(means, flags, fractions) {
        Some(best) => best,
        None => {
            return false;
        },
    };
    if means.len() - best < 3 {
        return false;
    }
    let mut i: usize = best + 1;
    while i < means.len()
        invariant
            best < i <= means@.len(),
            clipped == Some(fractions),
            brightest_clean(means@, flags@, fractions@) == Some(best as int),
            forall|k: int|
                best < k < i ==> !(lit(flags@, k) && clean(fractions@, k) && (
                #[trigger] means@[k]).above(means@[best as int])),
        decreases means@.len() - i,
    {
        if is_lit(flags, i) && is_clean(fractions, i) && means[i].is_above(&means[best]) {
            assert(means@[i as int].above(means@[best as int]));
            return false;
        }
        i = i + 1;
    }
    true
}

/// Whether a frame is next to another.
pub open spec fn neighbour(means: Seq<Reading>, lit_i: int, i: int) -> bool {
    (i == lit_i - 1 || i == lit_i + 1) && 0 <= i < means.len()
}

/// Whether a frame may be the ambient partner: a neighbour, and one that the camera flagged dark
/// if it flagged a neighbour dark.
pub open spec fn candidate(
    means: Seq<Reading>,
    flags: Seq<Option<Illumination>>,
    lit_i: int,
    i: int,
) -> bool {
    &&& neighbour(means, lit_i, i)
    &&& (neighbour(means, lit_i, lit_i - 1) && dark(flags, lit_i - 1)) || (neighbour(
        means,
        lit_i,
        lit_i + 1,
    ) && dark(flags, lit_i + 1)) ==> dark(flags, i)
}

/// Pick the ambient partner for `lit_i`: an adjacent frame the camera flagged
/// dark, else the darker of the two neighbours.
///
/// Adjacency is what keeps auto-exposure drift between the pair small, so it is
/// preserved; metadata only settles which neighbour is genuinely the
/// emitter-off exposure instead of inferring it from which one looks darker.
pub fn ambient_partner(
    lit_i: usize,
    means: &[Reading],
    flags: &[Option<Illumination>],
) -> (r: Option<usize>)
    ensures
        match r {
            Some(i) => {
                &&& candidate(means@, flags@, lit_i as int, i as int)
                &&& forall|j: int|
                    candidate(means@, flags@, lit_i as int, j) ==> means@[i as int].total_rank()
                        <= (#[trigger] means@[j]).total_rank()
                &&& forall|j: int|
                    candidate(means@, flags@, lit_i as int, j) && j < i
                        ==> means@[i as int].total_rank() < (#[trigger] means@[j]).total_rank()
            },
            None => forall|j: int| !candidate(means@, flags@, lit_i as int, j),
        },
{
    let left: bool = lit_i >= 1 && lit_i - 1 < means.len();
    let right: bool = lit_i < means.len() && means.len() - lit_i > 1;
    let left_dark: bool = left && is_dark(flags, lit_i - 1);
    let right_dark: bool = right && is_dark(flags, lit_i + 1);
    let some_dark: bool = left_dark || right_dark;
    let take_left: bool = left && (left_dark || !some_dark);
    let take_right: bool = right && (right_dark || !some_dark);
    assert(take_left == candidate(means@, flags@, lit_i as int, lit_i - 1));
    assert(take_right == candidate(means@, flags@, lit_i as int, lit_i + 1));
    if take_left && take_right {
        if means[lit_i - 1].not_after(&means[lit_i + 1]) {
            Some(lit_i - 1)
        } else {
            Some(lit_i + 1)
        }
    } else if take_left {
        Some(lit_i - 1)
    } else if take_right {
        Some(lit_i + 1)
    } else {
        None
    }
}

/// How many of the first `n` frames the camera flagged lit.
pub open spec fn lit_count(flags: Seq<Option<Illumination>>, n: int) -> int
    decreases n,
{
    if n <= 0 {
        0
    } else {
        lit_count(flags, n - 1) + (if lit(flags, n - 1) {
            1int
        } else {
            0int
        })
    }
}

/// How many burst frames the camera itself flagged lit.
pub fn count_lit(flags: &[Option<Illumination>]) -> (r: usize)
    ensures
        r == lit_count(flags@, flags@.len() as int),
{
    let mut count: usize = 0;
    let mut i: usize = 0;
    while i < flags.len()
        invariant
            i <= flags@.len(),
            count == lit_count(flags@, i as int),
            count <= i,
        decreases flags@.len() - i,
    {
        if is_lit(flags, i) {
            count = count + 1;
        }
        i = i + 1;
    }
    count
}

// ---------------------------------------------------------------------------------------------
// Laws
// ---------------------------------------------------------------------------------------------

/// Whether no mean is a pattern that is not a number.
pub open spec fn numbers(means: Seq<Reading>) -> bool {
    forall|i: int| 0 <= i < means.len() ==> !(#[trigger] means[i]).is_nan()
}

/// A scan ends with an eligible frame, and with none only where none is eligible.
pub proof fn scan_ends_with_an_eligible_frame(
    n: int,
    eligible: spec_fn(int) -> bool,
    better: spec_fn(int, int) -> bool,
)
    ensures
        match scan(n, eligible, better) {
            Some(b) => 0 <= b < n && eligible(b),
            None => forall|i: int| 0 <= i < n ==> !#[trigger] eligible(i),
        },
    decreases n,
{
    if n > 0 {
        scan_ends_with_an_eligible_frame(n - 1, eligible, better);
        if scan(n, eligible, better) is None {
            assert forall|i: int| 0 <= i < n implies !#[trigger] eligible(i) by {
                if i < n - 1 {
                    assert(!eligible(i));
                }
            }
        }
    }
}

proof fn scan_finds_the_maximum(
    means: Seq<Reading>,
    n: int,
    eligible: spec_fn(int) -> bool,
    b: int,
)
    requires
        numbers(means),
        n <= means.len(),
        scan(n, eligible, |i: int, j: int| means[i].above(means[j])) == Some(b),
    ensures
        0 <= b < n,
        eligible(b),
        forall|i: int|
            0 <= i < n && #[trigger] eligible(i) ==> means[i].rank() <= means[b].rank() && (i < b
                ==> means[i].rank() < means[b].rank()),
    decreases n,
{
    let better = |i: int, j: int| means[i].above(means[j]);
    if n > 0 {
        scan_ends_with_an_eligible_frame(n - 1, eligible, better);
        if let Some(c) = scan(n - 1, eligible, better) {
            scan_finds_the_maximum(means, n - 1, eligible, c);
        }
    }
}

/// Of means that are numbers, the brightest eligible frame has the greatest, and is the first
/// that has it.
pub proof fn brightest_is_the_first_maximum(
    means: Seq<Reading>,
    eligible: spec_fn(int) -> bool,
    b: int,
)
    requires
        numbers(means),
        brightest(means, eligible) == Some(b),
    ensures
        0 <= b < means.len(),
        eligible(b),
        forall|i: int|
            0 <= i < means.len() && #[trigger] eligible(i) ==> means[i].rank() <= means[b].rank()
                && (i < b ==> means[i].rank() < means[b].rank()),
{
    scan_finds_the_maximum(means, means.len() as int, eligible, b);
}

/// A frame that the camera flagged dark, or said nothing of, is never chosen on its brightness
/// while some frame is flagged lit.
pub proof fn only_lit_frames_are_chosen(
    means: Seq<Reading>,
    flags: Seq<Option<Illumination>>,
    b: int,
)
    requires
        any_lit(flags, means.len() as int),
        brightest_lit_of(means, flags) == Some(b),
    ensures
        lit(flags, b),
{
    let eligible = |i: int| any_lit(flags, means.len() as int) ==> lit(flags, i);
    scan_ends_with_an_eligible_frame(
        means.len() as int,
        eligible,
        |i: int, j: int| means[i].above(means[j]),
    );
}

/// A burst that is not empty always has a frame to hand on.
pub proof fn a_burst_has_a_frame(means: Seq<Reading>, flags: Seq<Option<Illumination>>)
    requires
        means.len() > 0,
    ensures
        brightest_lit_of(means, flags) is Some,
{
    let n = means.len() as int;
    let eligible = |i: int| any_lit(flags, n) ==> lit(flags, i);
    scan_ends_with_an_eligible_frame(n, eligible, |i: int, j: int| means[i].above(means[j]));
    if any_lit(flags, n) {
        let i = choose|i: int| 0 <= i < n && #[trigger] lit(flags, i);
        assert(eligible(i));
    } else {
        assert(eligible(0));
    }
}

/// Once a burst has settled, the frames that follow the best clean lit one do not change which
/// one it is.
pub proof fn a_settled_best_frame_stays(
    means: Seq<Reading>,
    flags: Seq<Option<Illumination>>,
    clipped: Seq<Reading>,
    more: Seq<Reading>,
    more_flags: Seq<Option<Illumination>>,
    more_clipped: Seq<Reading>,
    b: int,
)
    requires
        flags.len() == means.len(),
        clipped.len() == means.len(),
        more.len() == more_flags.len(),
        more.len() == more_clipped.len(),
        brightest_clean(means, flags, clipped) == Some(b),
        forall|i: int|
            0 <= i < more.len() ==> !(lit(more_flags, i) && clean(more_clipped, i) && (
            #[trigger] more[i]).above(means[b])),
    ensures
        brightest_clean(means + more, flags + more_flags, clipped + more_clipped) == Some(b),
{
    let all = means + more;
    let all_flags = flags + more_flags;
    let all_clipped = clipped + more_clipped;
    let n = means.len() as int;
    let short = |i: int| lit(flags, i) && clean(clipped, i);
    let long = |i: int| lit(all_flags, i) && clean(all_clipped, i);
    let short_better = |i: int, j: int| means[i].above(means[j]);
    let long_better = |i: int, j: int| all[i].above(all[j]);
    scans_agree(n, n, short, long, short_better, long_better);
    scan_ends_with_an_eligible_frame(n, short, short_better);
    assert forall|i: int| n <= i < all.len() && #[trigger] long(i) implies !long_better(i, b) by {
        assert(all[i] == more[i - n]);
        assert(all_flags[i] == more_flags[i - n]);
        assert(all_clipped[i] == more_clipped[i - n]);
        assert(all[b] == means[b]);
    }
    scan_keeps(n, all.len() as int, long, long_better, b);
}

/// Scans of frames that agree below `m` agree.
proof fn scans_agree(
    n: int,
    m: int,
    e1: spec_fn(int) -> bool,
    e2: spec_fn(int) -> bool,
    b1: spec_fn(int, int) -> bool,
    b2: spec_fn(int, int) -> bool,
)
    requires
        n <= m,
        forall|i: int| 0 <= i < m ==> #[trigger] e1(i) == e2(i),
        forall|i: int, j: int| 0 <= i < m && 0 <= j < m ==> #[trigger] b1(i, j) == b2(i, j),
    ensures
        scan(n, e1, b1) == scan(n, e2, b2),
    decreases n,
{
    if n > 0 {
        scans_agree(n - 1, m, e1, e2, b1, b2);
        scan_ends_with_an_eligible_frame(n - 1, e1, b1);
        assert(e1(n - 1) == e2(n - 1));
        if let Some(c) = scan(n - 1, e1, b1) {
            assert(b1(n - 1, c) == b2(n - 1, c));
        }
    }
}

/// A scan keeps its frame while none is better.
proof fn scan_keeps(
    n: int,
    m: int,
    eligible: spec_fn(int) -> bool,
    better: spec_fn(int, int) -> bool,
    b: int,
)
    requires
        n <= m,
        scan(n, eligible, better) == Some(b),
        forall|i: int| n <= i < m && #[trigger] eligible(i) ==> !better(i, b),
    ensures
        scan(m, eligible, better) == Some(b),
    decreases m,
{
    if n < m {
        scan_keeps(n, m - 1, eligible, better, b);
    }
}

/// What a frame clips, as a place among all numbers: a frame without a figure clips fully.
pub open spec fn clip_rank(clipped: Seq<Reading>, i: int) -> int {
    if 0 <= i < clipped.len() {
        clipped[i].rank()
    } else {
        0x3ff0_0000_0000_0000
    }
}

/// Whether the camera flagged the frame at `i` lit, of those that have a mean.
pub open spec fn flagged(means: Seq<Reading>, flags: Seq<Option<Illumination>>, i: int) -> bool {
    0 <= i < means.len() && i < flags.len() && flags[i] == Some(Illumination::Lit)
}

proof fn least_clipped_so_far(
    means: Seq<Reading>,
    flags: Seq<Option<Illumination>>,
    clipped: Seq<Reading>,
    n: int,
    b: int,
)
    requires
        numbers(means),
        numbers(clipped),
        n <= means.len(),
        scan(
            n,
            |i: int| lit(flags, i),
            |i: int, j: int|
                clipping(clipped, j).above(clipping(clipped, i)) || (clipping(clipped, i).equals(
                    clipping(clipped, j),
                ) && means[i].above(means[j])),
        ) == Some(b),
    ensures
        0 <= b < n,
        lit(flags, b),
        forall|i: int|
            0 <= i < n && #[trigger] lit(flags, i) ==> {
                ||| clip_rank(clipped, b) < clip_rank(clipped, i)
                ||| clip_rank(clipped, b) == clip_rank(clipped, i) && means[i].rank()
                    < means[b].rank()
                ||| clip_rank(clipped, b) == clip_rank(clipped, i) && means[i].rank()
                    == means[b].rank() && b <= i
            },
    decreases n,
{
    let eligible = |i: int| lit(flags, i);
    let better = |i: int, j: int|
        clipping(clipped, j).above(clipping(clipped, i)) || (clipping(clipped, i).equals(
            clipping(clipped, j),
        ) && means[i].above(means[j]));
    assert forall|i: int| clipping(clipped, i).rank() == clip_rank(clipped, i) && !(
    #[trigger] clipping(clipped, i)).is_nan() by {
        if 0 <= i < clipped.len() {
            assert(!clipped[i].is_nan());
        }
    }
    if n > 0 {
        scan_ends_with_an_eligible_frame(n - 1, eligible, better);
        if let Some(c) = scan(n - 1, eligible, better) {
            least_clipped_so_far(means, flags, clipped, n - 1, c);
            assert(!means[c].is_nan() && !means[n - 1].is_nan());
            assert(clipping(clipped, c).rank() == clip_rank(clipped, c));
            assert(clipping(clipped, n - 1).rank() == clip_rank(clipped, n - 1));
        } else {
            assert forall|i: int| 0 <= i < n - 1 implies !#[trigger] lit(flags, i) by {
                assert(!eligible(i));
            }
        }
    }
}

/// Of figures that are numbers, the least clipped lit frame is lit and clips no more than any other
/// lit one; of those that clip alike it is the brightest, and the first where that ties too. A
/// brighter frame that clips harder is never taken for it.
pub proof fn the_least_clipped_frame_clips_least(
    means: Seq<Reading>,
    flags: Seq<Option<Illumination>>,
    clipped: Seq<Reading>,
    b: int,
)
    requires
        numbers(means),
        numbers(clipped),
        least_clipped(means, flags, clipped) == Some(b),
    ensures
        flagged(means, flags, b),
        forall|i: int|
            #[trigger] flagged(means, flags, i) ==> clip_rank(clipped, b) <= clip_rank(clipped, i),
        forall|i: int|
            #[trigger] flagged(means, flags, i) && clip_rank(clipped, i) == clip_rank(clipped, b)
                ==> means[i].rank() <= means[b].rank() && (means[i].rank() == means[b].rank()
                ==> b <= i),
{
    least_clipped_so_far(means, flags, clipped, means.len() as int, b);
    assert forall|i: int| #[trigger] flagged(means, flags, i) implies clip_rank(clipped, b)
        <= clip_rank(clipped, i) && (clip_rank(clipped, i) == clip_rank(clipped, b)
        ==> means[i].rank() <= means[b].rank() && (means[i].rank() == means[b].rank() ==> b
        <= i)) by {
        assert(lit(flags, i));
    }
}

/// A frame is found wherever there is one: any frame of a burst in which none is flagged lit, and
/// a flagged one otherwise, clean or not.
pub proof fn a_gate_frame_is_found_in_every_burst(
    means: Seq<Reading>,
    flags: Seq<Option<Illumination>>,
    clipped: Option<Seq<Reading>>,
)
    ensures
        gate_frame(means, flags, clipped) is None <==> means.len() == 0,
        gate_frame(means, flags, clipped) matches Some(b) ==> 0 <= b < means.len() && ((exists|i: int|
            #[trigger] flagged(means, flags, i)) ==> flagged(means, flags, b)),
{
    let n = means.len() as int;
    let brighter = |i: int, j: int| means[i].above(means[j]);
    let listed = |i: int| any_lit(flags, n) ==> lit(flags, i);
    scan_ends_with_an_eligible_frame(n, listed, brighter);
    if n > 0 {
        a_burst_has_a_frame(means, flags);
    }
    if exists|i: int| #[trigger] flagged(means, flags, i) {
        let i = choose|i: int| #[trigger] flagged(means, flags, i);
        assert(lit(flags, i));
        assert(any_lit(flags, n));
    }
    if let Some(fractions) = clipped {
        let clear = |i: int| lit(flags, i) && clean(fractions, i);
        let some = |i: int| lit(flags, i);
        let better = |i: int, j: int|
            clipping(fractions, j).above(clipping(fractions, i)) || (clipping(fractions, i).equals(
                clipping(fractions, j),
            ) && means[i].above(means[j]));
        scan_ends_with_an_eligible_frame(n, clear, brighter);
        scan_ends_with_an_eligible_frame(n, some, better);
        if any_lit(flags, n) {
            let i = choose|i: int| 0 <= i < n && #[trigger] lit(flags, i);
            assert(some(i));
        }
    }
}

/// Where a frame is flagged lit that clips a twentieth of its pixels at most, such a frame is the
/// chosen one: the brightest of them, and the first of equals.
pub proof fn the_gate_reads_the_brightest_clean_lit_frame(
    means: Seq<Reading>,
    flags: Seq<Option<Illumination>>,
    clipped: Seq<Reading>,
    c: int,
)
    requires
        numbers(means),
        numbers(clipped),
        flagged(means, flags, c),
        clip_rank(clipped, c) <= 0x3fa9_9999_9999_999a,
    ensures
        gate_frame(means, flags, Some(clipped)) matches Some(b) && {
            &&& flagged(means, flags, b)
            &&& clip_rank(clipped, b) <= 0x3fa9_9999_9999_999a
            &&& forall|i: int|
                #[trigger] flagged(means, flags, i) && clip_rank(clipped, i)
                    <= 0x3fa9_9999_9999_999a ==> means[i].rank() <= means[b].rank() && (
                means[i].rank() == means[b].rank() ==> b <= i)
        },
{
    let n = means.len() as int;
    let clear = |i: int| lit(flags, i) && clean(clipped, i);
    assert forall|i: int| clean(clipped, i) <==> #[trigger] clip_rank(clipped, i)
        <= 0x3fa9_9999_9999_999a by {
        if 0 <= i < clipped.len() {
            assert(!clipped[i].is_nan());
        }
    }
    assert(lit(flags, c));
    assert(any_lit(flags, n));
    scan_ends_with_an_eligible_frame(n, clear, |i: int, j: int| means[i].above(means[j]));
    assert(clip_rank(clipped, c) <= 0x3fa9_9999_9999_999a);
    assert(clear(c));
    let b = brightest_clean(means, flags, clipped)->0;
    brightest_is_the_first_maximum(means, clear, b);
    assert forall|i: int|
        #[trigger] flagged(means, flags, i) && clip_rank(clipped, i)
            <= 0x3fa9_9999_9999_999a implies means[i].rank() <= means[b].rank() && (means[i].rank()
        == means[b].rank() ==> b <= i) by {
        assert(clear(i));
    }
    assert(clip_rank(clipped, b) <= 0x3fa9_9999_9999_999a);
}

/// Where every frame that is flagged lit clips harder than a twentieth, the chosen one is the one that
/// clips least: the brightest of those that clip alike, and the first of equals.
pub proof fn the_gate_falls_back_to_the_least_clipped_lit_frame(
    means: Seq<Reading>,
    flags: Seq<Option<Illumination>>,
    clipped: Seq<Reading>,
    c: int,
)
    requires
        numbers(means),
        numbers(clipped),
        flagged(means, flags, c),
        forall|i: int|
            #[trigger] flagged(means, flags, i) ==> clip_rank(clipped, i) > 0x3fa9_9999_9999_999a,
    ensures
        gate_frame(means, flags, Some(clipped)) matches Some(b) && {
            &&& flagged(means, flags, b)
            &&& forall|i: int|
                #[trigger] flagged(means, flags, i) ==> clip_rank(clipped, b) <= clip_rank(
                    clipped,
                    i,
                )
            &&& forall|i: int|
                #[trigger] flagged(means, flags, i) && clip_rank(clipped, i) == clip_rank(
                    clipped,
                    b,
                ) ==> means[i].rank() <= means[b].rank() && (means[i].rank() == means[b].rank()
                    ==> b <= i)
        },
{
    let n = means.len() as int;
    let clear = |i: int| lit(flags, i) && clean(clipped, i);
    assert(lit(flags, c));
    assert(any_lit(flags, n));
    scan_ends_with_an_eligible_frame(n, clear, |i: int, j: int| means[i].above(means[j]));
    if let Some(b) = brightest_clean(means, flags, clipped) {
        assert(flagged(means, flags, b));
        assert(clip_rank(clipped, b) > 0x3fa9_9999_9999_999a);
        assert(clear(b));
    }
    a_gate_frame_is_found_in_every_burst(means, flags, Some(clipped));
    let b = gate_frame(means, flags, Some(clipped))->0;
    the_least_clipped_frame_clips_least(means, flags, clipped, b);
}

/// Without a clip ceiling, or without a flagged frame, brightness alone decides: the brightest
/// flagged frame, or the brightest of all where none is flagged; the first of equals.
pub proof fn the_gate_reads_the_brightest_frame_otherwise(
    means: Seq<Reading>,
    flags: Seq<Option<Illumination>>,
    clipped: Option<Seq<Reading>>,
    b: int,
)
    requires
        numbers(means),
        clipped is None || forall|i: int| !#[trigger] flagged(means, flags, i),
        gate_frame(means, flags, clipped) == Some(b),
    ensures
        brightest_lit_of(means, flags) == Some(b),
        forall|i: int|
            #![trigger means[i]]
            0 <= i < means.len() && ((exists|k: int| #[trigger] flagged(means, flags, k))
                ==> flagged(means, flags, i)) ==> means[i].rank() <= means[b].rank() && (
            means[i].rank() == means[b].rank() ==> b <= i),
{
    let n = means.len() as int;
    let listed = |i: int| any_lit(flags, n) ==> lit(flags, i);
    if any_lit(flags, n) {
        let k = choose|k: int| 0 <= k < n && #[trigger] lit(flags, k);
        assert(flagged(means, flags, k));
    }
    brightest_is_the_first_maximum(means, listed, b);
    assert forall|i: int|
        #![trigger means[i]]
        0 <= i < means.len() && ((exists|k: int| #[trigger] flagged(means, flags, k)) ==> flagged(
            means,
            flags,
            i,
        )) implies means[i].rank() <= means[b].rank() && (means[i].rank() == means[b].rank() ==> b
        <= i) by {
        assert(listed(i));
    }
}

/// A burst has settled exactly where its brightest clean lit frame, the first of equals, has two
/// frames behind it at least.
pub proof fn a_settled_burst_has_two_frames_behind_its_best(
    means: Seq<Reading>,
    flags: Seq<Option<Illumination>>,
    clipped: Seq<Reading>,
    b: int,
)
    requires
        numbers(means),
        numbers(clipped),
        flagged(means, flags, b),
        clip_rank(clipped, b) <= 0x3fa9_9999_9999_999a,
        forall|i: int|
            #[trigger] flagged(means, flags, i) && clip_rank(clipped, i) <= 0x3fa9_9999_9999_999a
                ==> means[i].rank() <= means[b].rank() && (means[i].rank() == means[b].rank() ==> b
                <= i),
    ensures
        plateau(means, flags, clipped) <==> means.len() - b >= 3,
{
    the_gate_reads_the_brightest_clean_lit_frame(means, flags, clipped, b);
    let n = means.len() as int;
    let clear = |i: int| lit(flags, i) && clean(clipped, i);
    scan_ends_with_an_eligible_frame(n, clear, |i: int, j: int| means[i].above(means[j]));
    assert forall|i: int| clean(clipped, i) <==> #[trigger] clip_rank(clipped, i)
        <= 0x3fa9_9999_9999_999a by {
        if 0 <= i < clipped.len() {
            assert(!clipped[i].is_nan());
        }
    }
    assert(clip_rank(clipped, b) <= 0x3fa9_9999_9999_999a);
    assert(clear(b));
    let c = brightest_clean(means, flags, clipped)->0;
    assert(flagged(means, flags, c));
    assert(clip_rank(clipped, c) <= 0x3fa9_9999_9999_999a);
    brightest_is_the_first_maximum(means, clear, c);
    assert(c == b);
    assert forall|i: int| b < i < means.len() implies !(lit(flags, i) && clean(clipped, i) && (
    #[trigger] means[i]).above(means[b])) by {
        if lit(flags, i) && clean(clipped, i) {
            assert(clear(i));
        }
    }
}

/// A burst without a clean lit frame has not settled.
pub proof fn a_burst_without_a_clean_lit_frame_goes_on(
    means: Seq<Reading>,
    flags: Seq<Option<Illumination>>,
    clipped: Seq<Reading>,
)
    requires
        forall|i: int|
            #[trigger] flagged(means, flags, i) ==> clip_rank(clipped, i) > 0x3fa9_9999_9999_999a,
    ensures
        !plateau(means, flags, clipped),
{
    let n = means.len() as int;
    let clear = |i: int| lit(flags, i) && clean(clipped, i);
    scan_ends_with_an_eligible_frame(n, clear, |i: int, j: int| means[i].above(means[j]));
    if let Some(b) = brightest_clean(means, flags, clipped) {
        assert(flagged(means, flags, b));
        assert(clear(b));
    }
}

/// The ambient partner is next to the lit frame. A neighbour that the camera flagged dark is one
/// wherever it lies, and the other neighbour is one only if it is flagged dark too, or neither is.
pub proof fn a_dark_neighbour_comes_before_one_that_is_not(
    means: Seq<Reading>,
    flags: Seq<Option<Illumination>>,
    lit_i: int,
    i: int,
)
    ensures
        candidate(means, flags, lit_i, i) ==> 0 <= i < means.len() && (i == lit_i - 1 || i == lit_i
            + 1),
        0 <= i < means.len() && (i == lit_i - 1 || i == lit_i + 1) && i < flags.len() && flags[i]
            == Some(Illumination::Dark) ==> candidate(means, flags, lit_i, i),
        candidate(means, flags, lit_i, i) && !(i < flags.len() && flags[i] == Some(
            Illumination::Dark,
        )) ==> forall|j: int|
            0 <= j < means.len() && (j == lit_i - 1 || j == lit_i + 1) && j < flags.len()
                ==> #[trigger] flags[j] != Some(Illumination::Dark),
        0 <= i < means.len() && (i == lit_i - 1 || i == lit_i + 1) && (forall|j: int|
            0 <= j < means.len() && (j == lit_i - 1 || j == lit_i + 1) && j < flags.len()
                ==> #[trigger] flags[j] != Some(Illumination::Dark)) ==> candidate(
            means,
            flags,
            lit_i,
            i,
        ),
{
    if 0 <= lit_i - 1 < flags.len() {
        assert(flags[lit_i - 1] == flags[lit_i - 1]);
    }
    if 0 <= lit_i + 1 < flags.len() {
        assert(flags[lit_i + 1] == flags[lit_i + 1]);
    }
}

/// The count is that of the frames that are flagged lit, neither fewer nor more.
pub proof fn lit_frames_are_counted_once(flags: Seq<Option<Illumination>>)
    ensures
        lit_count(flags, flags.len() as int) == flags.filter(
            |flag: Option<Illumination>| flag == Some(Illumination::Lit),
        ).len(),
    decreases flags.len(),
{
    let is = |flag: Option<Illumination>| flag == Some(Illumination::Lit);
    reveal(Seq::filter);
    if flags.len() > 0 {
        let shorter = flags.drop_last();
        lit_frames_are_counted_once(shorter);
        lit_counts_agree(flags, shorter, shorter.len() as int);
    }
}

proof fn lit_counts_agree(a: Seq<Option<Illumination>>, b: Seq<Option<Illumination>>, n: int)
    requires
        n <= a.len(),
        n <= b.len(),
        forall|i: int| 0 <= i < n ==> #[trigger] a[i] == b[i],
    ensures
        lit_count(a, n) == lit_count(b, n),
    decreases n,
{
    if n > 0 {
        lit_counts_agree(a, b, n - 1);
        assert(a[n - 1] == b[n - 1]);
    }
}

} // verus!

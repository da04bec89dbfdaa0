//! Summation: the per-file sum of extracted sizes, the grand total across
//! files, and the aggregation of per-file sums delivered in any order.

use vstd::prelude::*;
use vstd::seq_lib::commutative_foldr;
use vstd::seq_lib::lemma_fold_right_permutation;

use crate::pattern::extracted_size;
use crate::pattern::extract_size_from_line;
use crate::pattern::has_size;
use crate::pattern::lemma_extracted_size_bounds;
use crate::pattern::lemma_line_without_size_contributes_zero;
use crate::pattern::SizePattern;

verus! {

/// The lines of a file, each as a sequence of characters.
pub open spec fn lines_of(lines: Seq<String>) -> Seq<Seq<char>> {
    lines.map_values(|l: String| l@)
}

/// What one file contributes to the grand total: the sum, over its lines,
/// of each line's extracted size.
pub open spec fn file_total(pattern: Seq<char>, lines: Seq<Seq<char>>) -> int
    decreases lines.len(),
{
    if lines.len() == 0 {
        0
    } else {
        file_total(pattern, lines.drop_last()) + extracted_size(pattern, lines.last())
    }
}

/// The grand total: the sum of every file's total.
pub open spec fn grand_total(pattern: Seq<char>, files: Seq<Seq<Seq<char>>>) -> int
    decreases files.len(),
{
    if files.len() == 0 {
        0
    } else {
        grand_total(pattern, files.drop_last()) + file_total(pattern, files.last())
    }
}

/// The sum of a sequence of signed 64-bit values, as an unbounded integer.
pub open spec fn sum_i64(s: Seq<i64>) -> int
    decreases s.len(),
{
    if s.len() == 0 {
        0
    } else {
        sum_i64(s.drop_last()) + s.last() as int
    }
}

/// A file's total is a sum of byte counts: never negative.
pub proof fn lemma_file_total_nonneg(pattern: Seq<char>, lines: Seq<Seq<char>>)
    ensures
        file_total(pattern, lines) >= 0,
    decreases lines.len(),
{
    if lines.len() > 0 {
        lemma_file_total_nonneg(pattern, lines.drop_last());
        lemma_extracted_size_bounds(pattern, lines.last());
    }
}

/// Scanning more lines never shrinks a file's total.
pub proof fn lemma_file_total_prefix_le(pattern: Seq<char>, lines: Seq<Seq<char>>, i: int)
    requires
        0 <= i <= lines.len(),
    ensures
        file_total(pattern, lines.take(i)) <= file_total(pattern, lines),
    decreases lines.len() - i,
{
    if i == lines.len() {
        assert(lines.take(i) =~= lines);
    } else {
        assert(lines.take(i + 1).drop_last() =~= lines.take(i));
        lemma_extracted_size_bounds(pattern, lines[i]);
        lemma_file_total_prefix_le(pattern, lines, i + 1);
    }
}

/// The grand total never falls below zero.
pub proof fn lemma_grand_total_nonneg(pattern: Seq<char>, files: Seq<Seq<Seq<char>>>)
    ensures
        grand_total(pattern, files) >= 0,
    decreases files.len(),
{
    if files.len() > 0 {
        lemma_grand_total_nonneg(pattern, files.drop_last());
        lemma_file_total_nonneg(pattern, files.last());
    }
}

/// Scanning more files never shrinks the grand total.
pub proof fn lemma_grand_total_prefix_le(pattern: Seq<char>, files: Seq<Seq<Seq<char>>>, i: int)
    requires
        0 <= i <= files.len(),
    ensures
        grand_total(pattern, files.take(i)) <= grand_total(pattern, files),
    decreases files.len() - i,
{
    if i == files.len() {
        assert(files.take(i) =~= files);
    } else {
        assert(files.take(i + 1).drop_last() =~= files.take(i));
        lemma_file_total_nonneg(pattern, files[i]);
        lemma_grand_total_prefix_le(pattern, files, i + 1);
    }
}

/// Every single file's total is already contained in the grand total.
pub proof fn lemma_grand_total_component_le(pattern: Seq<char>, files: Seq<Seq<Seq<char>>>, i: int)
    requires
        0 <= i < files.len(),
    ensures
        file_total(pattern, files[i]) <= grand_total(pattern, files),
{
    assert(files.take(i + 1).drop_last() =~= files.take(i));
    lemma_grand_total_nonneg(pattern, files.take(i));
    lemma_grand_total_prefix_le(pattern, files, i + 1);
}

/// Sums the sizes one file's lines carry: the file's per-file accumulator.
/// `Some` exactly when the file's total fits in an `i64`, and then the
/// total itself; `None` reports the overflow.
pub fn sum_of_lines(lines: &Vec<String>, size_pattern: &SizePattern) -> (r: Option<i64>)
    ensures
        r matches Some(v) ==> v as int == file_total(size_pattern.pattern(), lines_of(lines@)),
        r matches Some(v) ==> 0 <= v,
        r is Some <==> file_total(size_pattern.pattern(), lines_of(lines@)) <= i64::MAX,
{
    let ghost pattern = size_pattern.pattern();
    let ghost all_lines = lines_of(lines@);
    let mut acc: i64 = 0;
    let mut i: usize = 0;
    while i < lines.len()
        invariant
            0 <= i <= lines@.len(),
            all_lines == lines_of(lines@),
            all_lines.len() == lines@.len(),
            pattern == size_pattern.pattern(),
            acc as int == file_total(pattern, all_lines.take(i as int)),
            0 <= acc,
        decreases lines@.len() - i,
    {
        let size = extract_size_from_line(lines[i].as_str(), size_pattern);
        proof {
            assert(all_lines[i as int] == lines@[i as int]@);
            assert(all_lines.take(i + 1).drop_last() =~= all_lines.take(i as int));
            assert(file_total(pattern, all_lines.take(i + 1)) == acc + size);
        }
        if acc > i64::MAX - size {
            proof {
                lemma_file_total_prefix_le(pattern, all_lines, i + 1);
            }
            return None;
        }
        acc = acc + size;
        i = i + 1;
    }
    proof {
        assert(all_lines.take(i as int) =~= all_lines);
    }
    Some(acc)
}

/// Sums the files' totals one after another: the sequential reference for
/// the whole scan. `Some` exactly when the grand total fits in an `i64`,
/// and then the grand total itself; `None` reports the overflow.
pub fn compute_total(files: &Vec<Vec<String>>, size_pattern: &SizePattern) -> (r: Option<i64>)
    ensures
        r matches Some(v) ==> v as int == grand_total(
            size_pattern.pattern(),
            files@.map_values(|f: Vec<String>| lines_of(f@)),
        ),
        r matches Some(v) ==> 0 <= v,
        r is Some <==> grand_total(
            size_pattern.pattern(),
            files@.map_values(|f: Vec<String>| lines_of(f@)),
        ) <= i64::MAX,
{
    let ghost pattern = size_pattern.pattern();
    let ghost all_files = files@.map_values(|f: Vec<String>| lines_of(f@));
    let mut acc: i64 = 0;
    let mut i: usize = 0;
    while i < files.len()
        invariant
            0 <= i <= files@.len(),
            all_files == files@.map_values(|f: Vec<String>| lines_of(f@)),
            all_files.len() == files@.len(),
            pattern == size_pattern.pattern(),
            acc as int == grand_total(pattern, all_files.take(i as int)),
            0 <= acc,
        decreases files@.len() - i,
    {
        proof {
            assert(all_files[i as int] == lines_of(files@[i as int]@));
            assert(all_files.take(i + 1).drop_last() =~= all_files.take(i as int));
        }
        let file_sum = match sum_of_lines(&files[i], size_pattern) {
            Some(v) => v,
            None => {
                proof {
                    lemma_grand_total_component_le(pattern, all_files, i as int);
                }
                return None;
            },
        };
        proof {
            assert(grand_total(pattern, all_files.take(i + 1)) == acc + file_sum);
        }
        if acc > i64::MAX - file_sum {
            proof {
                lemma_grand_total_prefix_le(pattern, all_files, i + 1);
            }
            return None;
        }
        acc = acc + file_sum;
        i = i + 1;
    }
    proof {
        assert(all_files.take(i as int) =~= all_files);
    }
    Some(acc)
}

/// Adds up per-file sums after the join barrier: the single place the
/// global total is formed. `Some` exactly when the sum fits in an `i64`,
/// and then the sum itself; `None` reports the overflow.
pub fn total_of(sums: &Vec<i64>) -> (r: Option<i64>)
    requires
        forall|i: int| 0 <= i < sums@.len() ==> 0 <= #[trigger] sums@[i],
    ensures
        r matches Some(v) ==> v as int == sum_i64(sums@),
        r matches Some(v) ==> 0 <= v,
        r is Some <==> sum_i64(sums@) <= i64::MAX,
{
    let mut acc: i64 = 0;
    let mut i: usize = 0;
    while i < sums.len()
        invariant
            0 <= i <= sums@.len(),
            forall|k: int| 0 <= k < sums@.len() ==> 0 <= #[trigger] sums@[k],
            acc as int == sum_i64(sums@.take(i as int)),
            0 <= acc,
        decreases sums@.len() - i,
    {
        let x = sums[i];
        proof {
            assert(sums@.take(i + 1).drop_last() =~= sums@.take(i as int));
            assert(sum_i64(sums@.take(i + 1)) == acc + x);
        }
        if acc > i64::MAX - x {
            proof {
                lemma_sum_i64_prefix_le(sums@, i + 1);
            }
            return None;
        }
        acc = acc + x;
        i = i + 1;
    }
    proof {
        assert(sums@.take(i as int) =~= sums@);
    }
    Some(acc)
}

/// Adding more non-negative per-file sums never shrinks the total.
pub proof fn lemma_sum_i64_prefix_le(s: Seq<i64>, i: int)
    requires
        0 <= i <= s.len(),
        forall|k: int| 0 <= k < s.len() ==> 0 <= #[trigger] s[k],
    ensures
        sum_i64(s.take(i)) <= sum_i64(s),
    decreases s.len() - i,
{
    if i == s.len() {
        assert(s.take(i) =~= s);
    } else {
        assert(s.take(i + 1).drop_last() =~= s.take(i));
        lemma_sum_i64_prefix_le(s, i + 1);
    }
}

/// Helper for the permutation argument: summing is a right fold.
proof fn lemma_sum_i64_fold_offset(s: Seq<i64>, b: int)
    ensures
        s.fold_right(|x: i64, acc: int| x as int + acc, b) == sum_i64(s) + b,
    decreases s.len(),
{
    if s.len() > 0 {
        lemma_sum_i64_fold_offset(s.drop_last(), s.last() as int + b);
    }
}

/// No lost updates, whatever the scheduling: per-file sums delivered in any
/// order — any two deliveries with the same multiset of values — add up to
/// the same total, so the worker count and the completion order cannot
/// change the reported result.
pub proof fn lemma_total_order_independent(a: Seq<i64>, b: Seq<i64>)
    requires
        a.to_multiset() == b.to_multiset(),
    ensures
        sum_i64(a) == sum_i64(b),
{
    let f = |x: i64, acc: int| x as int + acc;
    assert(commutative_foldr(f)) by {
        assert(forall|x: i64, y: i64, v: int| #[trigger] f(x, f(y, v)) == f(y, f(x, v)));
    }
    lemma_fold_right_permutation(a, b, f, 0);
    lemma_sum_i64_fold_offset(a, 0);
    lemma_sum_i64_fold_offset(b, 0);
}

/// The aggregate over the shared counter equals the exact sum of every
/// capture-group integer across all files: when each file's delivered sum
/// is its own file total, the sum of the deliveries is the grand total.
pub proof fn lemma_total_is_sum_of_file_totals(
    pattern: Seq<char>,
    files: Seq<Seq<Seq<char>>>,
    sums: Seq<i64>,
)
    requires
        sums.len() == files.len(),
        forall|i: int| 0 <= i < files.len() ==> #[trigger] sums[i] as int == file_total(
            pattern,
            files[i],
        ),
    ensures
        sum_i64(sums) == grand_total(pattern, files),
    decreases files.len(),
{
    if files.len() > 0 {
        assert(forall|i: int| 0 <= i < files.len() - 1 ==> files.drop_last()[i] == files[i]);
        lemma_total_is_sum_of_file_totals(pattern, files.drop_last(), sums.drop_last());
    }
}

/// The lines of a file that carry a size, in order.
pub open spec fn matching_lines(pattern: Seq<char>, lines: Seq<Seq<char>>) -> Seq<Seq<char>>
    decreases lines.len(),
{
    if lines.len() == 0 {
        Seq::empty()
    } else if has_size(pattern, lines.last()) {
        matching_lines(pattern, lines.drop_last()).push(lines.last())
    } else {
        matching_lines(pattern, lines.drop_last())
    }
}

/// Only the lines that carry a size count: a file's total equals the total
/// over just its matching lines with a numeric capture, so every other
/// line — no match, or a capture that is not a number fitting an `i64` —
/// contributes exactly zero.
pub proof fn lemma_file_total_counts_only_matching_lines(pattern: Seq<char>, lines: Seq<Seq<char>>)
    ensures
        file_total(pattern, lines) == file_total(pattern, matching_lines(pattern, lines)),
    decreases lines.len(),
{
    if lines.len() > 0 {
        lemma_file_total_counts_only_matching_lines(pattern, lines.drop_last());
        let kept = matching_lines(pattern, lines.drop_last());
        if has_size(pattern, lines.last()) {
            assert(matching_lines(pattern, lines) == kept.push(lines.last()));
            assert(kept.push(lines.last()).drop_last() =~= kept);
        } else {
            assert(matching_lines(pattern, lines) == kept);
            lemma_line_without_size_contributes_zero(pattern, lines.last());
        }
    }
}

/// A directory whose files hold no matching line at all totals zero.
pub proof fn lemma_no_matching_lines_total_zero(pattern: Seq<char>, files: Seq<Seq<Seq<char>>>)
    requires
        forall|i: int, j: int|
            0 <= i < files.len() && 0 <= j < files[i].len() ==> extracted_size(
                pattern,
                #[trigger] files[i][j],
            ) == 0,
    ensures
        grand_total(pattern, files) == 0,
    decreases files.len(),
{
    if files.len() > 0 {
        lemma_file_total_of_zero_lines(pattern, files.last());
        assert(forall|i: int| 0 <= i < files.len() - 1 ==> files.drop_last()[i] == files[i]);
        lemma_no_matching_lines_total_zero(pattern, files.drop_last());
    }
}

/// A file none of whose lines carries a size totals zero.
proof fn lemma_file_total_of_zero_lines(pattern: Seq<char>, lines: Seq<Seq<char>>)
    requires
        forall|j: int| 0 <= j < lines.len() ==> extracted_size(pattern, #[trigger] lines[j]) == 0,
    ensures
        file_total(pattern, lines) == 0,
    decreases lines.len(),
{
    if lines.len() > 0 {
        lemma_file_total_of_zero_lines(pattern, lines.drop_last());
    }
}

} // verus!

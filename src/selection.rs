//! Selections: comma-separated 1-based numbers typed by the operator, resolved
//! against a listing of a given length into zero-based positions.

use vstd::prelude::*;
use crate::text::{trim_bounds, trimmed};

verus! {

/// The pieces of `s` between commas, in order; `s` without a comma is one piece.
pub open spec fn split_commas(s: Seq<char>) -> Seq<Seq<char>>
    decreases s.len(),
{
    if s.len() == 0 {
        seq![Seq::<char>::empty()]
    } else {
        let init = split_commas(s.drop_last());
        if s.last() == ',' {
            init.push(Seq::<char>::empty())
        } else {
            init.update(init.len() - 1, init.last().push(s.last()))
        }
    }
}

/// An ASCII decimal digit, `'0'` (48) to `'9'` (57).
pub open spec fn is_digit(c: char) -> bool {
    48 <= c as u32 && c as u32 <= 57
}

pub open spec fn digit_value(c: char) -> nat {
    (c as u32 - 48) as nat
}

/// The number written by a run of decimal digits, most significant first.
pub open spec fn digits_value(s: Seq<char>) -> nat
    decreases s.len(),
{
    if s.len() == 0 {
        0
    } else {
        digits_value(s.drop_last()) * 10 + digit_value(s.last())
    }
}

/// `t` without one leading plus sign.
pub open spec fn unsigned_digits(t: Seq<char>) -> Seq<char> {
    if t.len() > 0 && t[0] == '+' {
        t.drop_first()
    } else {
        t
    }
}

/// The value of `t` read as an unsigned machine-sized integer: an optional
/// plus sign, then one digit or more, with a value that fits in `usize`.
pub open spec fn parse_unsigned(t: Seq<char>) -> Option<nat> {
    let d = unsigned_digits(t);
    if d.len() > 0 && (forall|i: int| #![trigger d[i]] 0 <= i < d.len() ==> is_digit(d[i]))
        && digits_value(d) <= usize::MAX {
        Some(digits_value(d))
    } else {
        None
    }
}

/// The number typed in one piece of a selection, surrounding whitespace aside.
pub open spec fn piece_number(piece: Seq<char>) -> Option<nat> {
    parse_unsigned(trimmed(piece))
}

/// Whether every piece of the selection `s` is a number.
pub open spec fn is_well_formed(s: Seq<char>) -> bool {
    forall|k: int|
        #![trigger split_commas(s)[k]]
        0 <= k < split_commas(s).len() ==> piece_number(split_commas(s)[k]) is Some
}

/// The numbers typed in the selection `s`, in the order typed.
pub open spec fn typed_numbers(s: Seq<char>) -> Seq<nat> {
    split_commas(s).map_values(|piece: Seq<char>| piece_number(piece)->0)
}

/// The zero-based positions below `len` that `numbers` names (as 1-based
/// numbers), in increasing order, each once.
pub open spec fn selected_positions(numbers: Seq<nat>, len: nat) -> Seq<nat>
    decreases len,
{
    if len == 0 {
        Seq::<nat>::empty()
    } else {
        let below = selected_positions(numbers, (len - 1) as nat);
        if numbers.contains(len) {
            below.push((len - 1) as nat)
        } else {
            below
        }
    }
}

/// Why a selection could not be resolved to anything to delete.
#[derive(Clone, Copy, Debug, PartialEq, Eq, Structural)]
pub enum SelectionError {
    /// A piece of the input is not a number.
    InvalidFormat,
    /// No number names a position of the listing.
    NothingSelected,
}

proof fn lemma_digits_value_grows(s: Seq<char>, k: int)
    requires
        0 <= k <= s.len(),
    ensures
        digits_value(s.take(k)) <= digits_value(s),
    decreases s.len(),
{
    if k < s.len() {
        assert(s.drop_last().take(k) =~= s.take(k));
        lemma_digits_value_grows(s.drop_last(), k);
    } else {
        assert(s.take(k) =~= s);
    }
}

/// Reads `v[lo..hi]` as an unsigned number.
fn parse_unsigned_in(v: &Vec<char>, lo: usize, hi: usize) -> (r: Option<usize>)
    requires
        lo <= hi <= v@.len(),
    ensures
        match parse_unsigned(v@.subrange(lo as int, hi as int)) {
            Some(n) => r == Some(n as usize),
            None => r is None,
        },
{
    let ghost t = v@.subrange(lo as int, hi as int);
    let mut start = lo;
    if lo < hi && v[lo] == '+' {
        start = lo + 1;
    }
    let ghost d = v@.subrange(start as int, hi as int);
    assert(d =~= unsigned_digits(t));
    if start == hi {
        return None;
    }
    let mut acc: usize = 0;
    let mut i = start;
    while i < hi
        invariant
            lo <= start <= i <= hi <= v@.len(),
            t == v@.subrange(lo as int, hi as int),
            d == unsigned_digits(t),
            d == v@.subrange(start as int, hi as int),
            forall|j: int| 0 <= j < i - start ==> is_digit(#[trigger] d[j]),
            acc as nat == digits_value(d.take(i - start)),
        decreases hi - i,
    {
        let c = v[i];
        let u = c as u32;
        assert(c == d[i - start]);
        if !(48 <= u && u <= 57) {
            assert(!is_digit(d[i - start]));
            return None;
        }
        assert(d.take(i - start + 1).drop_last() =~= d.take(i - start));
        assert(d.take(i - start + 1).last() == c);
        let digit = (u - 48) as usize;
        let next = match acc.checked_mul(10) {
            Some(m) => m.checked_add(digit),
            None => None,
        };
        match next {
            Some(n) => {
                acc = n;
            },
            None => {
                proof {
                    lemma_digits_value_grows(d, i - start + 1);
                }
                return None;
            },
        }
        i = i + 1;
    }
    assert(d.take(hi - start) =~= d);
    Some(acc)
}

/// `bounds[k]` delimits `pieces[k]` within `s`, for every `k`.
pub open spec fn delimits(s: Seq<char>, pieces: Seq<Seq<char>>, bounds: Seq<(usize, usize)>) -> bool {
    &&& bounds.len() == pieces.len()
    &&& forall|k: int|
        #![trigger pieces[k]]
        #![trigger bounds[k]]
        0 <= k < bounds.len() ==> {
            &&& bounds[k].0 <= bounds[k].1
            &&& bounds[k].1 <= s.len()
            &&& pieces[k] == s.subrange(bounds[k].0 as int, bounds[k].1 as int)
        }
}

proof fn lemma_delimits_push(
    s: Seq<char>,
    pieces: Seq<Seq<char>>,
    bounds: Seq<(usize, usize)>,
    b: (usize, usize),
)
    requires
        delimits(s, pieces, bounds),
        b.0 <= b.1 <= s.len(),
    ensures
        delimits(s, pieces.push(s.subrange(b.0 as int, b.1 as int)), bounds.push(b)),
{
    let longer = pieces.push(s.subrange(b.0 as int, b.1 as int));
    let longer_bounds = bounds.push(b);
    assert forall|k: int| 0 <= k < longer_bounds.len() implies {
        &&& longer_bounds[k].0 <= longer_bounds[k].1
        &&& longer_bounds[k].1 <= s.len()
        &&& #[trigger] longer[k] == s.subrange(longer_bounds[k].0 as int, longer_bounds[k].1 as int)
    } by {
        if k < bounds.len() {
            assert(longer[k] == pieces[k]);
        }
    }
}

/// Reads a selection: the numbers typed between its commas, in the order
/// typed. Fails when any piece, trimmed, is not a number.
pub fn parse_selection(input: &str) -> (r: Result<Vec<usize>, SelectionError>)
    ensures
        match r {
            Ok(numbers) => is_well_formed(input@) && numbers@.map_values(|n: usize| n as nat)
                == typed_numbers(input@),
            Err(e) => !is_well_formed(input@) && e == SelectionError::InvalidFormat,
        },
{
    let v = crate::text::chars_of(input);
    let ghost s = input@;
    // Cut the input into pieces.
    let mut bounds: Vec<(usize, usize)> = Vec::new();
    let mut start: usize = 0;
    let mut i: usize = 0;
    while i < v.len()
        invariant
            v@ == s,
            s == input@,
            start <= i <= v@.len(),
            split_commas(s.take(i as int)).len() > 0,
            delimits(s, split_commas(s.take(i as int)).drop_last(), bounds@),
            split_commas(s.take(i as int)).last() == s.subrange(start as int, i as int),
        decreases v@.len() - i,
    {
        let ghost before = split_commas(s.take(i as int));
        assert(s.take(i + 1).drop_last() =~= s.take(i as int));
        assert(s.take(i + 1).last() == s[i as int]);
        if v[i] == ',' {
            assert(split_commas(s.take(i + 1)) == before.push(Seq::<char>::empty()));
            proof {
                lemma_delimits_push(s, before.drop_last(), bounds@, (start, i));
            }
            bounds.push((start, i));
            assert(split_commas(s.take(i + 1)).drop_last() =~= before);
            assert(before =~= before.drop_last().push(before.last()));
            start = i + 1;
            assert(s.subrange(start as int, i + 1) =~= Seq::<char>::empty());
        } else {
            assert(split_commas(s.take(i + 1)) == before.update(
                before.len() - 1,
                before.last().push(s[i as int]),
            ));
            assert(split_commas(s.take(i + 1)).drop_last() =~= before.drop_last());
            assert(s.subrange(start as int, i + 1) =~= s.subrange(start as int, i as int).push(
                s[i as int],
            ));
        }
        i = i + 1;
    }
    assert(s.take(i as int) =~= s);
    let ghost pieces = split_commas(s);
    proof {
        lemma_delimits_push(s, pieces.drop_last(), bounds@, (start, i));
    }
    bounds.push((start, i));
    assert(pieces =~= pieces.drop_last().push(pieces.last()));
    assert(delimits(s, pieces, bounds@));
    // Read each piece as a number.
    let mut numbers: Vec<usize> = Vec::new();
    let mut k: usize = 0;
    while k < bounds.len()
        invariant
            v@ == s,
            s == input@,
            pieces == split_commas(s),
            delimits(s, pieces, bounds@),
            k <= bounds@.len(),
            numbers@.len() == k,
            forall|j: int|
                0 <= j < k ==> (#[trigger] piece_number(pieces[j])) is Some && numbers@[j] as nat
                    == piece_number(pieces[j])->0,
        decreases bounds@.len() - k,
    {
        let (lo, hi) = bounds[k];
        assert(pieces[k as int] == s.subrange(lo as int, hi as int));
        let (a, b) = trim_bounds(&v, lo, hi);
        match parse_unsigned_in(&v, a, b) {
            Some(n) => {
                numbers.push(n);
            },
            None => {
                assert(piece_number(pieces[k as int]) is None);
                assert(!is_well_formed(s));
                return Err(SelectionError::InvalidFormat);
            },
        }
        k = k + 1;
    }
    assert(numbers@.map_values(|n: usize| n as nat) =~= typed_numbers(s));
    Ok(numbers)
}

/// A sequence of machine integers as mathematical naturals.
pub open spec fn as_nats(v: Seq<usize>) -> Seq<nat> {
    v.map_values(|n: usize| n as nat)
}

/// Whether `numbers` holds `n`.
fn names(numbers: &Vec<usize>, n: usize) -> (r: bool)
    ensures
        r == as_nats(numbers@).contains(n as nat),
{
    let mut j: usize = 0;
    while j < numbers.len()
        invariant
            j <= numbers@.len(),
            forall|i: int| 0 <= i < j ==> numbers@[i] != n,
        decreases numbers@.len() - j,
    {
        if numbers[j] == n {
            assert(as_nats(numbers@)[j as int] == n as nat);
            return true;
        }
        j = j + 1;
    }
    assert forall|i: int| 0 <= i < as_nats(numbers@).len() implies as_nats(numbers@)[i] != n as nat by {
        assert(numbers@[i] != n);
    }
    false
}

/// The zero-based positions below `len` named by the 1-based `numbers`, in
/// listing order, each once. Numbers that name no position (0, or past the
/// end) are left out.
pub fn resolve_selection(numbers: &Vec<usize>, len: usize) -> (r: Vec<usize>)
    ensures
        as_nats(r@) == selected_positions(as_nats(numbers@), len as nat),
{
    let mut r: Vec<usize> = Vec::new();
    let mut p: usize = 0;
    while p < len
        invariant
            p <= len,
            as_nats(r@) == selected_positions(as_nats(numbers@), p as nat),
        decreases len - p,
    {
        if names(numbers, p + 1) {
            r.push(p);
            assert(as_nats(r@) =~= as_nats(r@).drop_last().push(p as nat));
            assert(as_nats(r@).drop_last() =~= as_nats(r@.drop_last()));
        }
        p = p + 1;
    }
    r
}

/// Reads a selection and resolves it against a listing of `len` items: the
/// positions it names, in listing order. Fails on a malformed selection, and
/// when it names no position of the listing.
pub fn select_positions(input: &str, len: usize) -> (r: Result<Vec<usize>, SelectionError>)
    ensures
        !is_well_formed(input@) <==> r == Err::<Vec<usize>, SelectionError>(
            SelectionError::InvalidFormat,
        ),
        is_well_formed(input@) && selected_positions(typed_numbers(input@), len as nat).len() == 0
            <==> r == Err::<Vec<usize>, SelectionError>(SelectionError::NothingSelected),
        r is Ok ==> as_nats(r->Ok_0@) == selected_positions(typed_numbers(input@), len as nat),
{
    match parse_selection(input) {
        Ok(numbers) => {
            let positions = resolve_selection(&numbers, len);
            if positions.len() == 0 {
                Err(SelectionError::NothingSelected)
            } else {
                Ok(positions)
            }
        },
        Err(e) => Err(e),
    }
}

/// A position is selected exactly when it lies in the listing and its 1-based
/// number was typed.
pub proof fn lemma_selected_iff(numbers: Seq<nat>, len: nat, p: nat)
    ensures
        selected_positions(numbers, len).contains(p) <==> p < len && numbers.contains(p + 1),
    decreases len,
{
    if len > 0 {
        lemma_selected_iff(numbers, (len - 1) as nat, p);
        lemma_selected_below(numbers, (len - 1) as nat);
        let below = selected_positions(numbers, (len - 1) as nat);
        if numbers.contains(len) {
            assert(below.push((len - 1) as nat)[below.len() as int] == (len - 1) as nat);
            if below.push((len - 1) as nat).contains(p) && p != len - 1 {
                let s2 = below.push((len - 1) as nat);
                let i = choose|i: int| #![trigger s2[i]] 0 <= i < s2.len() && s2[i] == p;
                assert(below[i] == p);
            }
            if below.contains(p) {
                let i = choose|i: int| #![trigger below[i]] 0 <= i < below.len() && below[i] == p;
                assert(below.push((len - 1) as nat)[i] == p);
            }
        }
    }
}

/// Every selected position lies below `len`.
pub proof fn lemma_selected_below(numbers: Seq<nat>, len: nat)
    ensures
        forall|i: int|
            0 <= i < selected_positions(numbers, len).len() ==> #[trigger] selected_positions(
                numbers,
                len,
            )[i] < len,
    decreases len,
{
    if len > 0 {
        lemma_selected_below(numbers, (len - 1) as nat);
        let below = selected_positions(numbers, (len - 1) as nat);
        let all = selected_positions(numbers, len);
        assert forall|i: int| 0 <= i < all.len() implies #[trigger] all[i] < len by {
            if i < below.len() {
                assert(all[i] == below[i]);
            }
        }
    }
}

/// The resolved positions come in listing order: strictly increasing, so each
/// position appears once, whatever order the numbers were typed in.
pub proof fn lemma_selection_in_listing_order(numbers: Seq<nat>, len: nat)
    ensures
        forall|i: int, j: int|
            0 <= i < j < selected_positions(numbers, len).len() ==> #[trigger] selected_positions(
                numbers,
                len,
            )[i] < #[trigger] selected_positions(numbers, len)[j],
    decreases len,
{
    if len > 0 {
        lemma_selection_in_listing_order(numbers, (len - 1) as nat);
        lemma_selected_below(numbers, (len - 1) as nat);
        let below = selected_positions(numbers, (len - 1) as nat);
        let all = selected_positions(numbers, len);
        assert forall|i: int, j: int| 0 <= i < j < all.len() implies #[trigger] all[i] < #[trigger] all[j] by {
            assert(all[i] == below[i]);
            if j < below.len() {
                assert(all[j] == below[j]);
            }
        }
    }
}

/// Two selections that type the same numbers, in any order and with any
/// repetition, resolve to the same positions.
pub proof fn lemma_selection_ignores_typing_order(a: Seq<nat>, b: Seq<nat>, len: nat)
    requires
        forall|n: nat| a.contains(n) <==> b.contains(n),
    ensures
        selected_positions(a, len) == selected_positions(b, len),
    decreases len,
{
    if len > 0 {
        lemma_selection_ignores_typing_order(a, b, (len - 1) as nat);
        assert(a.contains(len) <==> b.contains(len));
    }
}

} // verus!

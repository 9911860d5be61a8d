use vstd::prelude::*;
use crate::error::DateTimeFormatterError;
use crate::fields::{is_textual, rank_of, same_kind, FieldSymbol, HourCycle};
use crate::pattern::{ItemModel, Pattern, PatternItem};

verus! {

/// A field kind with its requested length, one entry of a skeleton.
#[derive(Clone, Copy, Debug, PartialEq, Eq, Structural)]
pub struct SkeletonField {
    pub symbol: FieldSymbol,
    pub length: u8,
}

/// A skeleton of the locale data with the pattern it stands for.
#[derive(Debug)]
pub struct SkeletonEntry {
    pub skeleton: Vec<SkeletonField>,
    pub pattern: Pattern,
}

/// The costs of the ways a candidate skeleton can differ from a request.
#[derive(Clone, Copy, Debug, PartialEq, Eq, Structural)]
pub struct PenaltyTable {
    /// A field of both, numeric in both, with another length.
    pub numeric_width: u32,
    /// A field of both, textual in either, with another length.
    pub text_width: u32,
    /// A requested field that the candidate lacks.
    pub missing_field: u32,
    /// Candidates that score this much or more are never chosen.
    pub reject_at: u64,
}

/// Most fields a request can hold: one of each kind.
pub const MAX_REQUEST_FIELDS: usize = 10;

impl PenaltyTable {
    /// Text mismatches cost at least as much as numeric ones, and a missing
    /// field costs more than any number of width mismatches in a request.
    pub open spec fn wf(&self) -> bool {
        &&& self.numeric_width <= self.text_width
        &&& self.missing_field as int > MAX_REQUEST_FIELDS as int * self.text_width as int
    }
}

/// Cost of a length difference between a requested field and a candidate's
/// field of the same kind.
pub open spec fn width_penalty(req: SkeletonField, cand: SkeletonField, pen: PenaltyTable) -> nat {
    if req.length == cand.length {
        0
    } else if is_textual(req.symbol, req.length) || is_textual(cand.symbol, cand.length) {
        pen.text_width as nat
    } else {
        pen.numeric_width as nat
    }
}

/// Cost of a requested field against a candidate: by the candidate's first
/// field of the same kind, or the missing-field cost when it has none.
pub open spec fn field_penalty(req: SkeletonField, cand: Seq<SkeletonField>, pen: PenaltyTable) -> nat
    decreases cand.len(),
{
    if cand.len() == 0 {
        pen.missing_field as nat
    } else if same_kind(cand[0].symbol, req.symbol) {
        width_penalty(req, cand[0], pen)
    } else {
        field_penalty(req, cand.skip(1), pen)
    }
}

/// Total cost of a candidate for a request: the sum over requested fields.
pub open spec fn score(req: Seq<SkeletonField>, cand: Seq<SkeletonField>, pen: PenaltyTable) -> nat
    decreases req.len(),
{
    if req.len() == 0 {
        0
    } else {
        score(req.drop_last(), cand, pen) + field_penalty(req.last(), cand, pen)
    }
}

/// The request holds a field of the kind of `s`.
pub open spec fn requests(req: Seq<SkeletonField>, s: FieldSymbol) -> bool {
    exists|i: int| 0 <= i < req.len() && same_kind(#[trigger] req[i].symbol, s)
}

/// A field the candidate may hold without being asked: a day period, when an
/// hour is requested.
pub open spec fn implicit_field(req: Seq<SkeletonField>, s: FieldSymbol) -> bool {
    s is DayPeriod && requests(req, FieldSymbol::Hour(HourCycle::H23))
}

/// Every field of the candidate was requested or is implicit.
pub open spec fn adds_nothing(req: Seq<SkeletonField>, cand: Seq<SkeletonField>) -> bool {
    forall|j: int| 0 <= j < cand.len() ==> requests(req, #[trigger] cand[j].symbol) || implicit_field(req, cand[j].symbol)
}

/// Every requested kind occurs in the candidate.
pub open spec fn covers(req: Seq<SkeletonField>, cand: Seq<SkeletonField>) -> bool {
    forall|i: int| 0 <= i < req.len() ==> requests(cand, #[trigger] req[i].symbol)
}

/// Rank of the last field among the items, if any.
pub open spec fn last_field_rank(items: Seq<ItemModel>) -> Option<nat>
    decreases items.len(),
{
    if items.len() == 0 {
        None
    } else {
        match items.last() {
            ItemModel::Field(f, _) => Some(rank_of(f)),
            _ => last_field_rank(items.drop_last()),
        }
    }
}

/// How often, reading the pattern's fields in order, a field comes before one
/// that the canonical order puts first.
pub open spec fn order_breaks(items: Seq<ItemModel>) -> nat
    decreases items.len(),
{
    if items.len() == 0 {
        0
    } else {
        order_breaks(items.drop_last()) + match (items.last(), last_field_rank(items.drop_last())) {
            (ItemModel::Field(f, _), Some(r)) => if r > rank_of(f) {
                1nat
            } else {
                0nat
            },
            _ => 0nat,
        }
    }
}

pub open spec fn entry_score(req: Seq<SkeletonField>, table: Seq<SkeletonEntry>, pen: PenaltyTable, i: int) -> nat {
    score(req, table[i].skeleton@, pen)
}

pub open spec fn entry_breaks(table: Seq<SkeletonEntry>, i: int) -> nat {
    order_breaks(table[i].pattern@)
}

/// Entry `i` may be chosen: it adds no field that was not asked for and scores
/// under the rejection threshold.
pub open spec fn eligible(req: Seq<SkeletonField>, table: Seq<SkeletonEntry>, pen: PenaltyTable, i: int) -> bool {
    &&& 0 <= i < table.len()
    &&& adds_nothing(req, table[i].skeleton@)
    &&& entry_score(req, table, pen, i) < pen.reject_at
}

/// Entry `i` is at least as good as entry `j`: lower score, then fewer order
/// breaks in its pattern, then earlier in the table.
pub open spec fn no_worse(req: Seq<SkeletonField>, table: Seq<SkeletonEntry>, pen: PenaltyTable, i: int, j: int) -> bool {
    let si = entry_score(req, table, pen, i);
    let sj = entry_score(req, table, pen, j);
    si < sj || (si == sj && (entry_breaks(table, i) < entry_breaks(table, j) || (entry_breaks(table, i)
        == entry_breaks(table, j) && i <= j)))
}

/// Entry `i` is the best match of the table for the request.
pub open spec fn is_best_match(req: Seq<SkeletonField>, table: Seq<SkeletonEntry>, pen: PenaltyTable, i: int) -> bool {
    &&& eligible(req, table, pen, i)
    &&& forall|j: int| eligible(req, table, pen, j) ==> no_worse(req, table, pen, i, j)
}

fn requests_exec(req: &Vec<SkeletonField>, s: FieldSymbol) -> (r: bool)
    ensures
        r == requests(req@, s),
{
    let mut i: usize = 0;
    while i < req.len()
        invariant
            i <= req@.len(),
            forall|k: int| 0 <= k < i ==> !same_kind(#[trigger] req@[k].symbol, s),
        decreases req@.len() - i,
    {
        if req[i].symbol.rank() == s.rank() {
            assert(same_kind(req@[i as int].symbol, s));
            return true;
        }
        i = i + 1;
    }
    false
}

fn field_penalty_exec(req: SkeletonField, cand: &Vec<SkeletonField>, pen: &PenaltyTable) -> (r: u32)
    ensures
        r as nat == field_penalty(req, cand@, *pen),
{
    let mut i: usize = 0;
    assert(cand@.skip(0) =~= cand@);
    while i < cand.len()
        invariant
            i <= cand@.len(),
            field_penalty(req, cand@, *pen) == field_penalty(req, cand@.skip(i as int), *pen),
        decreases cand@.len() - i,
    {
        let c = cand[i];
        proof {
            assert(cand@.skip(i as int).skip(1) =~= cand@.skip(i + 1));
            assert(cand@.skip(i as int)[0] == c);
        }
        if c.symbol.rank() == req.symbol.rank() {
            if req.length == c.length {
                return 0;
            } else if req.symbol.is_textual(req.length) || c.symbol.is_textual(c.length) {
                return pen.text_width;
            } else {
                return pen.numeric_width;
            }
        }
        i = i + 1;
    }
    pen.missing_field
}

proof fn lemma_score_bound(req: Seq<SkeletonField>, cand: Seq<SkeletonField>, pen: PenaltyTable)
    ensures
        score(req, cand, pen) <= req.len() * (u32::MAX as nat),
    decreases req.len(),
{
    if req.len() > 0 {
        lemma_score_bound(req.drop_last(), cand, pen);
        lemma_field_penalty_bound(req.last(), cand, pen);
        assert(score(req, cand, pen) <= (req.len() - 1) * (u32::MAX as nat) + u32::MAX as nat);
        assert((req.len() - 1) * (u32::MAX as nat) + u32::MAX as nat == req.len() * (u32::MAX as nat)) by (nonlinear_arith);
    }
}

proof fn lemma_field_penalty_bound(req: SkeletonField, cand: Seq<SkeletonField>, pen: PenaltyTable)
    ensures
        field_penalty(req, cand, pen) <= u32::MAX as nat,
    decreases cand.len(),
{
    if cand.len() > 0 && !same_kind(cand[0].symbol, req.symbol) {
        lemma_field_penalty_bound(req, cand.skip(1), pen);
    }
}

/// Score of a candidate for a request of at most ten fields.
pub fn score_exec(req: &Vec<SkeletonField>, cand: &Vec<SkeletonField>, pen: &PenaltyTable) -> (r: u64)
    requires
        req@.len() <= MAX_REQUEST_FIELDS,
    ensures
        r as nat == score(req@, cand@, *pen),
{
    let mut total: u64 = 0;
    let mut i: usize = 0;
    while i < req.len()
        invariant
            i <= req@.len() <= MAX_REQUEST_FIELDS,
            total as nat == score(req@.subrange(0, i as int), cand@, *pen),
        decreases req@.len() - i,
    {
        proof {
            let pre = req@.subrange(0, i + 1);
            assert(pre.drop_last() =~= req@.subrange(0, i as int));
            lemma_score_bound(pre, cand@, *pen);
            assert(pre.len() * (u32::MAX as nat) <= 10 * (u32::MAX as nat)) by (nonlinear_arith)
                requires pre.len() <= 10;
        }
        let p = field_penalty_exec(req[i], cand, pen);
        total = total + p as u64;
        i = i + 1;
    }
    assert(req@.subrange(0, i as int) =~= req@);
    total
}

fn adds_nothing_exec(req: &Vec<SkeletonField>, cand: &Vec<SkeletonField>) -> (r: bool)
    ensures
        r == adds_nothing(req@, cand@),
{
    let hour_requested = requests_exec(req, FieldSymbol::Hour(HourCycle::H23));
    let mut j: usize = 0;
    while j < cand.len()
        invariant
            j <= cand@.len(),
            hour_requested == requests(req@, FieldSymbol::Hour(HourCycle::H23)),
            forall|k: int| 0 <= k < j ==> requests(req@, #[trigger] cand@[k].symbol) || implicit_field(req@, cand@[k].symbol),
        decreases cand@.len() - j,
    {
        let s = cand[j].symbol;
        let implicit = hour_requested && (if let FieldSymbol::DayPeriod = s {
            true
        } else {
            false
        });
        if !requests_exec(req, s) && !implicit {
            return false;
        }
        j = j + 1;
    }
    true
}

/// Number of order breaks in a pattern.
pub fn order_breaks_exec(p: &Pattern) -> (r: usize)
    ensures
        r as nat == order_breaks(p@),
{
    let mut n: usize = 0;
    let mut last: Option<u8> = None;
    let mut i: usize = 0;
    while i < p.items.len()
        invariant
            i <= p.items@.len(),
            n <= i,
            n as nat == order_breaks(p@.subrange(0, i as int)),
            match last {
                None => last_field_rank(p@.subrange(0, i as int)) is None,
                Some(r) => last_field_rank(p@.subrange(0, i as int)) == Some(r as nat),
            },
        decreases p.items@.len() - i,
    {
        proof {
            assert(p@.subrange(0, i + 1).drop_last() =~= p@.subrange(0, i as int));
            assert(p@.subrange(0, i + 1).last() == p.items@[i as int]@);
        }
        if let PatternItem::Field(f, _) = &p.items[i] {
            let r = f.rank();
            if let Some(prev) = last {
                if prev > r {
                    n = n + 1;
                }
            }
            last = Some(r);
        }
        i = i + 1;
    }
    assert(p@.subrange(0, i as int) =~= p@);
    n
}

/// Index of the entry of `table` that best matches the request: among the
/// entries that add no unrequested field (a day period is allowed with an
/// hour) and score under the rejection threshold, the lowest score, then the
/// fewest order breaks, then the first. `UnsupportedSkeleton` when no entry
/// qualifies.
pub fn best_match(req: &Vec<SkeletonField>, table: &Vec<SkeletonEntry>, pen: &PenaltyTable) -> (r: Result<
    usize,
    DateTimeFormatterError,
>)
    requires
        req@.len() <= MAX_REQUEST_FIELDS,
    ensures
        r matches Ok(i) ==> is_best_match(req@, table@, *pen, i as int),
        r is Err ==> r == Err::<usize, _>(DateTimeFormatterError::UnsupportedSkeleton) && forall|j: int|
            !eligible(req@, table@, *pen, j),
{
    let mut best: Option<(usize, u64, usize)> = None;
    let mut i: usize = 0;
    while i < table.len()
        invariant
            i <= table@.len(),
            req@.len() <= MAX_REQUEST_FIELDS,
            match best {
                None => forall|j: int| 0 <= j < i ==> !eligible(req@, table@, *pen, j),
                Some((b, s, o)) => {
                    &&& b < i
                    &&& eligible(req@, table@, *pen, b as int)
                    &&& s as nat == entry_score(req@, table@, *pen, b as int)
                    &&& o as nat == entry_breaks(table@, b as int)
                    &&& forall|j: int| 0 <= j < i && eligible(req@, table@, *pen, j) ==> no_worse(req@, table@, *pen, b as int, j)
                },
            },
        decreases table@.len() - i,
    {
        let e = &table[i];
        if adds_nothing_exec(req, &e.skeleton) {
            let s = score_exec(req, &e.skeleton, pen);
            if s < pen.reject_at {
                let o = order_breaks_exec(&e.pattern);
                let better = match best {
                    None => true,
                    Some((_, bs, bo)) => s < bs || (s == bs && o < bo),
                };
                if better {
                    best = Some((i, s, o));
                }
            }
        }
        i = i + 1;
    }
    match best {
        Some((b, _, _)) => Ok(b),
        None => Err(DateTimeFormatterError::UnsupportedSkeleton),
    }
}

/// Skeleton matching is deterministic: a request has at most one best match
/// in a table, so the same request against the same data always resolves to
/// the same entry, hence the same pattern and the same resolved components.
pub proof fn lemma_best_match_unique(
    req: Seq<SkeletonField>,
    table: Seq<SkeletonEntry>,
    pen: PenaltyTable,
    i: int,
    j: int,
)
    requires
        is_best_match(req, table, pen, i),
        is_best_match(req, table, pen, j),
    ensures
        i == j,
{
    assert(no_worse(req, table, pen, i, j));
    assert(no_worse(req, table, pen, j, i));
}

proof fn lemma_penalty_of_present_field(req: SkeletonField, cand: Seq<SkeletonField>, pen: PenaltyTable)
    requires
        pen.wf(),
        requests(cand, req.symbol),
    ensures
        field_penalty(req, cand, pen) <= pen.text_width,
    decreases cand.len(),
{
    if !same_kind(cand[0].symbol, req.symbol) {
        let k = choose|k: int| 0 <= k < cand.len() && same_kind(#[trigger] cand[k].symbol, req.symbol);
        assert(k != 0);
        assert(cand.skip(1)[k - 1] == cand[k]);
        lemma_penalty_of_present_field(req, cand.skip(1), pen);
    }
}

proof fn lemma_penalty_of_absent_field(req: SkeletonField, cand: Seq<SkeletonField>, pen: PenaltyTable)
    requires
        !requests(cand, req.symbol),
    ensures
        field_penalty(req, cand, pen) == pen.missing_field,
    decreases cand.len(),
{
    if cand.len() > 0 {
        assert(!same_kind(cand[0].symbol, req.symbol));
        assert forall|k: int| 0 <= k < cand.skip(1).len() implies !same_kind(
            #[trigger] cand.skip(1)[k].symbol,
            req.symbol,
        ) by {
            assert(cand.skip(1)[k] == cand[k + 1]);
        }
        lemma_penalty_of_absent_field(req, cand.skip(1), pen);
    }
}

proof fn lemma_score_of_cover(req: Seq<SkeletonField>, cand: Seq<SkeletonField>, pen: PenaltyTable)
    requires
        pen.wf(),
        covers(req, cand),
    ensures
        score(req, cand, pen) <= req.len() * (pen.text_width as nat),
    decreases req.len(),
{
    if req.len() > 0 {
        let pre = req.drop_last();
        assert forall|i: int| 0 <= i < pre.len() implies requests(cand, #[trigger] pre[i].symbol) by {
            assert(pre[i] == req[i]);
        }
        lemma_score_of_cover(pre, cand, pen);
        assert(requests(cand, req[req.len() - 1].symbol));
        lemma_penalty_of_present_field(req.last(), cand, pen);
        assert(pre.len() * (pen.text_width as nat) + pen.text_width as nat == req.len() * (pen.text_width as nat))
            by (nonlinear_arith)
            requires pre.len() + 1 == req.len();
    }
}

proof fn lemma_score_at_least_each(req: Seq<SkeletonField>, cand: Seq<SkeletonField>, pen: PenaltyTable, k: int)
    requires
        0 <= k < req.len(),
    ensures
        score(req, cand, pen) >= field_penalty(req[k], cand, pen),
    decreases req.len(),
{
    if k < req.len() - 1 {
        assert(req.drop_last()[k] == req[k]);
        lemma_score_at_least_each(req.drop_last(), cand, pen, k);
    }
}

/// With a well-formed penalty table, the best match keeps every requested
/// field whenever some eligible entry holds them all: a request for year and
/// month never resolves to a skeleton without the month while one with both
/// qualifies.
pub proof fn lemma_best_match_keeps_requested_fields(
    req: Seq<SkeletonField>,
    table: Seq<SkeletonEntry>,
    pen: PenaltyTable,
    i: int,
    j: int,
)
    requires
        pen.wf(),
        req.len() <= MAX_REQUEST_FIELDS,
        is_best_match(req, table, pen, i),
        eligible(req, table, pen, j),
        covers(req, table[j].skeleton@),
    ensures
        covers(req, table[i].skeleton@),
{
    let ci = table[i].skeleton@;
    let cj = table[j].skeleton@;
    lemma_score_of_cover(req, cj, pen);
    assert(req.len() * (pen.text_width as nat) <= MAX_REQUEST_FIELDS as nat * (pen.text_width as nat))
        by (nonlinear_arith)
        requires req.len() <= MAX_REQUEST_FIELDS;
    assert(no_worse(req, table, pen, i, j));
    if !covers(req, ci) {
        let k = choose|k: int| 0 <= k < req.len() && !requests(ci, #[trigger] req[k].symbol);
        lemma_penalty_of_absent_field(req[k], ci, pen);
        lemma_score_at_least_each(req, ci, pen, k);
    }
}

} // verus!

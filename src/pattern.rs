use vstd::prelude::*;
use crate::fields::{FieldSymbol, HourCycle};

verus! {

/// One element of a pattern: text copied as it is, or a field with its length.
#[derive(Debug)]
pub enum PatternItem {
    Literal(String),
    Field(FieldSymbol, u8),
}

/// What a pattern item stands for.
pub enum ItemModel {
    Literal(Seq<char>),
    Field(FieldSymbol, u8),
}

impl View for PatternItem {
    type V = ItemModel;

    open spec fn view(&self) -> ItemModel {
        match self {
            PatternItem::Literal(s) => ItemModel::Literal(s@),
            PatternItem::Field(f, l) => ItemModel::Field(*f, *l),
        }
    }
}

/// An ordered sequence of literal text and fields, rendered left to right.
#[derive(Debug)]
pub struct Pattern {
    pub items: Vec<PatternItem>,
}

impl View for Pattern {
    type V = Seq<ItemModel>;

    open spec fn view(&self) -> Seq<ItemModel> {
        self.items@.map_values(|i: PatternItem| i@)
    }
}

/// Number of field items in a pattern.
pub open spec fn field_count(items: Seq<ItemModel>) -> nat
    decreases items.len(),
{
    if items.len() == 0 {
        0
    } else {
        field_count(items.drop_last()) + if items.last() is Field {
            1nat
        } else {
            0nat
        }
    }
}

/// The pattern with every hour field switched to the hour cycle `hc`.
pub open spec fn with_hour_cycle(items: Seq<ItemModel>, hc: HourCycle) -> Seq<ItemModel> {
    items.map_values(
        |i: ItemModel|
            match i {
                ItemModel::Field(FieldSymbol::Hour(_), l) => ItemModel::Field(FieldSymbol::Hour(hc), l),
                _ => i,
            },
    )
}

impl PatternItem {
    pub fn copy(&self) -> (r: PatternItem)
        ensures
            r@ == self@,
    {
        match self {
            PatternItem::Literal(s) => PatternItem::Literal(s.clone()),
            PatternItem::Field(f, l) => PatternItem::Field(*f, *l),
        }
    }
}

impl Pattern {
    pub fn from_items(items: Vec<PatternItem>) -> (r: Pattern)
        ensures
            r.items@ == items@,
    {
        Pattern { items }
    }

    pub fn copy(&self) -> (r: Pattern)
        ensures
            r@ == self@,
    {
        let mut items: Vec<PatternItem> = Vec::new();
        let mut i: usize = 0;
        while i < self.items.len()
            invariant
                i <= self.items@.len(),
                items@.len() == i,
                forall|k: int| 0 <= k < i ==> #[trigger] items@[k]@ == self.items@[k]@,
            decreases self.items@.len() - i,
        {
            items.push(self.items[i].copy());
            i = i + 1;
        }
        let r = Pattern { items };
        assert(r@ =~= self@);
        r
    }

    /// Number of field items in the pattern.
    pub fn field_count(&self) -> (r: usize)
        ensures
            r as nat == field_count(self@),
    {
        let mut n: usize = 0;
        let mut i: usize = 0;
        while i < self.items.len()
            invariant
                i <= self.items@.len(),
                n <= i,
                n as nat == field_count(self@.subrange(0, i as int)),
            decreases self.items@.len() - i,
        {
            proof {
                assert(self@.subrange(0, i + 1).drop_last() =~= self@.subrange(0, i as int));
            }
            if let PatternItem::Field(_, _) = &self.items[i] {
                n = n + 1;
            }
            i = i + 1;
        }
        assert(self@.subrange(0, i as int) =~= self@);
        n
    }

    /// Switches every hour field to the hour cycle `hc`, keeping its length;
    /// all other items stay as they are.
    pub fn apply_hour_cycle(&mut self, hc: HourCycle)
        ensures
            final(self)@ == with_hour_cycle(old(self)@, hc),
    {
        let ghost start = self@;
        let mut items: Vec<PatternItem> = Vec::new();
        let mut i: usize = 0;
        while i < self.items.len()
            invariant
                i <= self.items@.len(),
                self@ == start,
                items@.len() == i,
                forall|k: int| 0 <= k < i ==> #[trigger] items@[k]@ == with_hour_cycle(start, hc)[k],
            decreases self.items@.len() - i,
        {
            let item = match &self.items[i] {
                PatternItem::Field(FieldSymbol::Hour(_), l) => PatternItem::Field(FieldSymbol::Hour(hc), *l),
                other => other.copy(),
            };
            items.push(item);
            i = i + 1;
        }
        self.items = items;
        assert(self@ =~= with_hour_cycle(start, hc));
    }
}

} // verus!

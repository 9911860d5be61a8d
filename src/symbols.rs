use vstd::prelude::*;
use crate::fields::{FieldSymbol, TextWidth};

verus! {

/// Whether a name is used next to other fields or on its own.
#[derive(Clone, Copy, Debug, PartialEq, Eq, Structural)]
pub enum SymbolContext {
    Format,
    StandAlone,
}

/// The names of one field kind in one context and width, indexed by value.
#[derive(Debug)]
pub struct SymbolSet {
    pub field: FieldSymbol,
    pub context: SymbolContext,
    pub width: TextWidth,
    pub names: Vec<String>,
}

/// What a symbol set holds: its key and its names.
pub struct SymbolSetModel {
    pub field: FieldSymbol,
    pub context: SymbolContext,
    pub width: TextWidth,
    pub names: Seq<Seq<char>>,
}

impl View for SymbolSet {
    type V = SymbolSetModel;

    open spec fn view(&self) -> SymbolSetModel {
        SymbolSetModel {
            field: self.field,
            context: self.context,
            width: self.width,
            names: self.names@.map_values(|s: String| s@),
        }
    }
}

/// A table of display names keyed by field kind, context and width.
#[derive(Debug)]
pub struct SymbolTable {
    pub sets: Vec<SymbolSet>,
}

impl View for SymbolTable {
    type V = Seq<SymbolSetModel>;

    open spec fn view(&self) -> Seq<SymbolSetModel> {
        self.sets@.map_values(|s: SymbolSet| s@)
    }
}

pub open spec fn key_matches(s: SymbolSetModel, f: FieldSymbol, c: SymbolContext, w: TextWidth) -> bool {
    s.field == f && s.context == c && s.width == w
}

/// The table has a set for this key.
pub open spec fn has_set(t: Seq<SymbolSetModel>, f: FieldSymbol, c: SymbolContext, w: TextWidth) -> bool {
    exists|i: int| 0 <= i < t.len() && key_matches(#[trigger] t[i], f, c, w)
}

pub open spec fn is_first_set(t: Seq<SymbolSetModel>, f: FieldSymbol, c: SymbolContext, w: TextWidth, i: int) -> bool {
    &&& 0 <= i < t.len()
    &&& key_matches(t[i], f, c, w)
    &&& forall|j: int| 0 <= j < i ==> !key_matches(#[trigger] t[j], f, c, w)
}

/// Index of the first set with this key (meaningful when `has_set`).
pub open spec fn first_set(t: Seq<SymbolSetModel>, f: FieldSymbol, c: SymbolContext, w: TextWidth) -> int {
    choose|i: int| is_first_set(t, f, c, w, i)
}

/// The context whose names are used: stand-alone for a field that stands alone
/// in its pattern when the table has stand-alone names for it, format otherwise.
pub open spec fn chosen_context(t: Seq<SymbolSetModel>, f: FieldSymbol, w: TextWidth, alone: bool) -> SymbolContext {
    if alone && has_set(t, f, SymbolContext::StandAlone, w) {
        SymbolContext::StandAlone
    } else {
        SymbolContext::Format
    }
}

/// The name of value `v` for field `f` in width `w`, or none when the table
/// lacks it.
pub open spec fn symbol_text(t: Seq<SymbolSetModel>, f: FieldSymbol, w: TextWidth, alone: bool, v: int) -> Option<Seq<char>> {
    let c = chosen_context(t, f, w, alone);
    if !has_set(t, f, c, w) {
        None
    } else {
        let names = t[first_set(t, f, c, w)].names;
        if 0 <= v < names.len() {
            Some(names[v])
        } else {
            None
        }
    }
}

impl SymbolSet {
    pub fn copy(&self) -> (r: SymbolSet)
        ensures
            r@ == self@,
    {
        let mut names: Vec<String> = Vec::new();
        let mut i: usize = 0;
        while i < self.names.len()
            invariant
                i <= self.names@.len(),
                names@.len() == i,
                forall|k: int| 0 <= k < i ==> #[trigger] names@[k]@ == self.names@[k]@,
            decreases self.names@.len() - i,
        {
            names.push(self.names[i].clone());
            i = i + 1;
        }
        let r = SymbolSet { field: self.field, context: self.context, width: self.width, names };
        assert(r@.names =~= self@.names);
        r
    }
}

impl SymbolTable {
    pub fn copy(&self) -> (r: SymbolTable)
        ensures
            r@ == self@,
    {
        let mut sets: Vec<SymbolSet> = Vec::new();
        let mut i: usize = 0;
        while i < self.sets.len()
            invariant
                i <= self.sets@.len(),
                sets@.len() == i,
                forall|k: int| 0 <= k < i ==> #[trigger] sets@[k]@ == self.sets@[k]@,
            decreases self.sets@.len() - i,
        {
            sets.push(self.sets[i].copy());
            i = i + 1;
        }
        let r = SymbolTable { sets };
        assert(r@ =~= self@);
        r
    }

    /// Index of the first set with this key, if any.
    pub fn find_set(&self, f: FieldSymbol, c: SymbolContext, w: TextWidth) -> (r: Option<usize>)
        ensures
            r is None <==> !has_set(self@, f, c, w),
            r matches Some(i) ==> i == first_set(self@, f, c, w) && is_first_set(self@, f, c, w, i as int),
    {
        let mut i: usize = 0;
        while i < self.sets.len()
            invariant
                i <= self.sets@.len(),
                forall|j: int| 0 <= j < i ==> !key_matches(#[trigger] self@[j], f, c, w),
            decreases self.sets@.len() - i,
        {
            let s = &self.sets[i];
            if s.field == f && s.context == c && s.width == w {
                proof {
                    assert(key_matches(self@[i as int], f, c, w));
                    assert(is_first_set(self@, f, c, w, i as int));
                    let k = first_set(self@, f, c, w);
                    assert(is_first_set(self@, f, c, w, k));
                    if k < i {
                        assert(!key_matches(self@[k], f, c, w));
                    }
                    if i < k {
                        assert(!key_matches(self@[i as int], f, c, w));
                    }
                }
                return Some(i);
            }
            i = i + 1;
        }
        None
    }

    /// The name of value `v` for field `f` in width `w`: stand-alone names are
    /// preferred for a field that stands alone when the table has them, format
    /// names are used otherwise. None when the chosen set lacks the value.
    pub fn lookup(&self, f: FieldSymbol, w: TextWidth, alone: bool, v: u32) -> (r: Option<&String>)
        ensures
            symbol_text(self@, f, w, alone, v as int) matches Some(s) ==> r matches Some(x) && x@ == s,
            symbol_text(self@, f, w, alone, v as int) is None ==> r is None,
    {
        let mut found: Option<usize> = None;
        if alone {
            found = self.find_set(f, SymbolContext::StandAlone, w);
        }
        if found.is_none() {
            found = self.find_set(f, SymbolContext::Format, w);
        }
        match found {
            None => None,
            Some(i) => {
                let names = &self.sets[i].names;
                if (v as usize) < names.len() {
                    Some(&names[v as usize])
                } else {
                    None
                }
            },
        }
    }
}

} // verus!

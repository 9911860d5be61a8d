use vstd::prelude::*;

verus! {

/// A write-only text destination that a formatter renders into.
pub trait TextSink {
    /// The text written so far; a sink whose writes are verified states it.
    open spec fn text(&self) -> Seq<char> {
        Seq::empty()
    }

    /// The sink accepts every write; none is assumed to unless it says so.
    open spec fn accepts_all(&self) -> bool {
        false
    }

    /// Appends `s`, or reports that the sink refused it.
    fn write_text(&mut self, s: &str) -> (r: Result<(), ()>)
        ensures
            r is Ok ==> final(self).text() == old(self).text() + s@,
            old(self).accepts_all() ==> r is Ok && final(self).accepts_all(),
    ;
}

impl TextSink for String {
    open spec fn text(&self) -> Seq<char> {
        self@
    }

    open spec fn accepts_all(&self) -> bool {
        true
    }

    fn write_text(&mut self, s: &str) -> (r: Result<(), ()>) {
        self.append(s);
        Ok(())
    }
}

} // verus!

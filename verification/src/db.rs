//! The type-reference database the printer consults, and an in-memory
//! interner that implements it.

use vstd::prelude::*;
use vstd::string::*;

verus! {

/// Handle of an interned type reference. The printer never looks behind it:
/// it only asks a [`DefDatabase`] for the display text.
#[derive(Clone, Copy, Debug, PartialEq, Eq, Hash, Structural)]
pub struct TypeRefId(pub usize);

/// Resolves type-reference handles to their display text.
pub trait DefDatabase {
    /// `id` was handed out by this database.
    spec fn is_interned(&self, id: TypeRefId) -> bool;

    /// The display text of the type reference behind `id`.
    spec fn type_ref_text(&self, id: TypeRefId) -> Seq<char>;

    /// Tells whether `id` resolves here.
    fn has_type_ref(&self, id: TypeRefId) -> (known: bool)
        ensures
            known == self.is_interned(id),
    ;

    /// The display text of the type reference behind `id`.
    fn lookup_intern_type_ref(&self, id: TypeRefId) -> (text: String)
        requires
            self.is_interned(id),
        ensures
            text@ == self.type_ref_text(id),
    ;
}

/// Interner of type-reference texts, backed by a vector: a handle is the
/// position of its text, and no text is stored twice.
pub struct TypeInterner {
    pub texts: Vec<String>,
}

impl TypeInterner {
    /// No two positions hold the same text.
    pub open spec fn wf(&self) -> bool {
        forall|i: int, j: int|
            0 <= i < j < self.texts@.len() ==> self.texts@[i]@ != self.texts@[j]@
    }

    /// Some position holds `text`.
    pub open spec fn holds(&self, text: Seq<char>) -> bool {
        exists|i: int| 0 <= i < self.texts@.len() && #[trigger] self.texts@[i]@ == text
    }

    /// An interner that holds no text.
    pub fn new() -> (interner: TypeInterner)
        ensures
            interner.texts@.len() == 0,
            interner.wf(),
    {
        TypeInterner { texts: Vec::new() }
    }

    /// The handle of `text`: the one it already has, or a new one behind all
    /// others. Every handle given out before keeps its text.
    pub fn intern(&mut self, text: String) -> (id: TypeRefId)
        requires
            old(self).wf(),
        ensures
            final(self).wf(),
            final(self).is_interned(id),
            final(self).type_ref_text(id) == text@,
            old(self).holds(text@) ==> final(self).texts@ == old(self).texts@,
            !old(self).holds(text@) ==> final(self).texts@ == old(self).texts@.push(text)
                && id.0 == old(self).texts@.len(),
    {
        let mut i: usize = 0;
        while i < self.texts.len()
            invariant
                i <= self.texts@.len(),
                self.texts@ == old(self).texts@,
                self.wf(),
                forall|k: int| 0 <= k < i ==> self.texts@[k]@ != text@,
            decreases self.texts@.len() - i,
        {
            if self.texts[i] == text {
                return TypeRefId(i);
            }
            i += 1;
        }
        self.texts.push(text);
        TypeRefId(i)
    }
}

impl DefDatabase for TypeInterner {
    open spec fn is_interned(&self, id: TypeRefId) -> bool {
        id.0 < self.texts@.len()
    }

    open spec fn type_ref_text(&self, id: TypeRefId) -> Seq<char> {
        self.texts@[id.0 as int]@
    }

    fn has_type_ref(&self, id: TypeRefId) -> (known: bool) {
        id.0 < self.texts.len()
    }

    fn lookup_intern_type_ref(&self, id: TypeRefId) -> (text: String) {
        self.texts[id.0].clone()
    }
}

} // verus!

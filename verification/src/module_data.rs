//! The items of one module and the store that holds their records.

use crate::db::{DefDatabase, TypeRefId};
use vstd::prelude::*;

pub mod pretty;
pub mod shape;

verus! {

/// Name of an item or of a struct field.
#[derive(Clone, Debug)]
pub struct Name(pub String);

impl View for Name {
    type V = Seq<char>;

    open spec fn view(&self) -> Seq<char> {
        self.0@
    }
}

/// A run of neighbouring indices into one table of the store: `start` is the
/// first, `end` is one past the last. With `end <= start` the run is empty.
#[derive(Clone, Copy, Debug)]
pub struct IdxRange {
    pub start: usize,
    pub end: usize,
}

impl IdxRange {
    /// How many indices the run holds.
    pub open spec fn spec_len(&self) -> nat {
        if self.start <= self.end {
            (self.end - self.start) as nat
        } else {
            0
        }
    }

    /// Every index of the run is below `bound`.
    pub open spec fn within(&self, bound: nat) -> bool {
        self.start < self.end ==> self.end <= bound
    }
}

/// A function parameter. Only its type is printed.
#[derive(Clone, Copy, Debug)]
pub struct Parameter {
    pub ty: TypeRefId,
}

/// A function: its name and the run of its parameters in the store.
#[derive(Clone, Debug)]
pub struct Function {
    pub name: Name,
    pub parameters: IdxRange,
}

/// A field of a struct.
#[derive(Clone, Debug)]
pub struct Field {
    pub name: Name,
    pub ty: TypeRefId,
}

/// A struct: its name and the indices of its fields, in declaration order.
#[derive(Clone, Debug)]
pub struct Struct {
    pub name: Name,
    pub fields: Vec<usize>,
}

/// A module-scope `var`. The type may be left out.
#[derive(Clone, Debug)]
pub struct GlobalVariable {
    pub name: Name,
    pub ty: Option<TypeRefId>,
}

/// A module-scope `let`. The type may be left out.
#[derive(Clone, Debug)]
pub struct GlobalConstant {
    pub name: Name,
    pub ty: Option<TypeRefId>,
}

/// An `override` declaration. The type may be left out.
#[derive(Clone, Debug)]
pub struct Override {
    pub name: Name,
    pub ty: Option<TypeRefId>,
}

/// What an import names: a path given as a string, or a custom key.
#[derive(Clone, Debug)]
pub enum ImportValue {
    Path(String),
    Custom(String),
}

/// An `#import` directive.
#[derive(Clone, Debug)]
pub struct Import {
    pub value: ImportValue,
}

/// A type alias. Its type is always present.
#[derive(Clone, Debug)]
pub struct TypeAlias {
    pub name: Name,
    pub ty: TypeRefId,
}

/// One top-level item of a module: its kind and the index of its record in
/// the table of that kind.
#[derive(Clone, Copy, Debug, PartialEq, Eq, Structural)]
pub enum ModuleItem {
    Function(usize),
    Struct(usize),
    GlobalVariable(usize),
    GlobalConstant(usize),
    Override(usize),
    Import(usize),
    TypeAlias(usize),
}

/// The record store of a module: one table per kind of record.
#[derive(Clone, Debug)]
pub struct ModuleData {
    pub functions: Vec<Function>,
    pub parameters: Vec<Parameter>,
    pub structs: Vec<Struct>,
    pub fields: Vec<Field>,
    pub global_variables: Vec<GlobalVariable>,
    pub global_constants: Vec<GlobalConstant>,
    pub overrides: Vec<Override>,
    pub imports: Vec<Import>,
    pub type_aliases: Vec<TypeAlias>,
}

/// A module: its items in source order, and the store their indices point
/// into.
#[derive(Clone, Debug)]
pub struct ModuleInfo {
    pub data: ModuleData,
    pub items: Vec<ModuleItem>,
}

/// `ty` is absent or known to `db`.
pub open spec fn optional_type_interned<D: DefDatabase + ?Sized>(
    db: &D,
    ty: Option<TypeRefId>,
) -> bool {
    ty matches Some(id) ==> db.is_interned(id)
}

impl ModuleData {
    /// An empty store.
    pub fn new() -> (data: ModuleData)
        ensures
            data.functions@.len() == 0,
            data.parameters@.len() == 0,
            data.structs@.len() == 0,
            data.fields@.len() == 0,
            data.global_variables@.len() == 0,
            data.global_constants@.len() == 0,
            data.overrides@.len() == 0,
            data.imports@.len() == 0,
            data.type_aliases@.len() == 0,
    {
        ModuleData {
            functions: Vec::new(),
            parameters: Vec::new(),
            structs: Vec::new(),
            fields: Vec::new(),
            global_variables: Vec::new(),
            global_constants: Vec::new(),
            overrides: Vec::new(),
            imports: Vec::new(),
            type_aliases: Vec::new(),
        }
    }

    /// The record of `item` is in the store, and so is every parameter or
    /// field that the record points to.
    pub open spec fn resolves(&self, item: ModuleItem) -> bool {
        match item {
            ModuleItem::Function(id) => {
                &&& id < self.functions@.len()
                &&& self.functions@[id as int].parameters.within(self.parameters@.len())
            },
            ModuleItem::Struct(id) => {
                &&& id < self.structs@.len()
                &&& forall|k: int|
                    0 <= k < self.structs@[id as int].fields@.len()
                        ==> #[trigger] self.structs@[id as int].fields@[k] < self.fields@.len()
            },
            ModuleItem::GlobalVariable(id) => id < self.global_variables@.len(),
            ModuleItem::GlobalConstant(id) => id < self.global_constants@.len(),
            ModuleItem::Override(id) => id < self.overrides@.len(),
            ModuleItem::Import(id) => id < self.imports@.len(),
            ModuleItem::TypeAlias(id) => id < self.type_aliases@.len(),
        }
    }

    /// Every type reference that printing `item` looks up is known to `db`.
    /// Meant for an `item` that resolves.
    pub open spec fn types_interned<D: DefDatabase + ?Sized>(
        &self,
        item: ModuleItem,
        db: &D,
    ) -> bool {
        match item {
            ModuleItem::Function(id) => {
                let range = self.functions@[id as int].parameters;
                forall|k: int|
                    range.start <= k < range.end ==> db.is_interned(
                        (#[trigger] self.parameters@[k]).ty,
                    )
            },
            ModuleItem::Struct(id) => {
                let fields = self.structs@[id as int].fields@;
                forall|k: int|
                    0 <= k < fields.len() ==> db.is_interned(
                        self.fields@[(#[trigger] fields[k]) as int].ty,
                    )
            },
            ModuleItem::GlobalVariable(id) => optional_type_interned(
                db,
                self.global_variables@[id as int].ty,
            ),
            ModuleItem::GlobalConstant(id) => optional_type_interned(
                db,
                self.global_constants@[id as int].ty,
            ),
            ModuleItem::Override(id) => optional_type_interned(db, self.overrides@[id as int].ty),
            ModuleItem::Import(_) => true,
            ModuleItem::TypeAlias(id) => db.is_interned(self.type_aliases@[id as int].ty),
        }
    }

    /// `item` can be printed from this store with `db`: its indices resolve
    /// and its type references are known.
    pub open spec fn printable<D: DefDatabase + ?Sized>(&self, item: ModuleItem, db: &D) -> bool {
        self.resolves(item) && self.types_interned(item, db)
    }

    /// Tells whether `item` can be printed from this store with `db`.
    #[verifier::loop_isolation(false)]
    pub fn is_printable<D: DefDatabase + ?Sized>(&self, item: &ModuleItem, db: &D) -> (ok: bool)
        ensures
            ok == self.printable(*item, db),
    {
        match *item {
            ModuleItem::Function(id) => {
                if id >= self.functions.len() {
                    return false;
                }
                let range = self.functions[id].parameters;
                if range.start >= range.end {
                    return true;
                }
                if range.end > self.parameters.len() {
                    return false;
                }
                let mut k: usize = range.start;
                while k < range.end
                    invariant
                        range.start <= k <= range.end <= self.parameters@.len(),
                        forall|j: int|
                            range.start <= j < k ==> db.is_interned(
                                (#[trigger] self.parameters@[j]).ty,
                            ),
                    decreases range.end - k,
                {
                    if !db.has_type_ref(self.parameters[k].ty) {
                        return false;
                    }
                    k += 1;
                }
                true
            },
            ModuleItem::Struct(id) => {
                if id >= self.structs.len() {
                    return false;
                }
                let fields = &self.structs[id].fields;
                let mut k: usize = 0;
                while k < fields.len()
                    invariant
                        k <= fields@.len(),
                        forall|j: int| 0 <= j < k ==> #[trigger] fields@[j] < self.fields@.len(),
                    decreases fields@.len() - k,
                {
                    if fields[k] >= self.fields.len() {
                        return false;
                    }
                    k += 1;
                }
                let mut k: usize = 0;
                while k < fields.len()
                    invariant
                        k <= fields@.len(),
                        forall|j: int|
                            0 <= j < fields@.len() ==> #[trigger] fields@[j] < self.fields@.len(),
                        forall|j: int|
                            0 <= j < k ==> db.is_interned(
                                self.fields@[(#[trigger] fields@[j]) as int].ty,
                            ),
                    decreases fields@.len() - k,
                {
                    if !db.has_type_ref(self.fields[fields[k]].ty) {
                        return false;
                    }
                    k += 1;
                }
                true
            },
            ModuleItem::GlobalVariable(id) => {
                if id >= self.global_variables.len() {
                    return false;
                }
                match self.global_variables[id].ty {
                    Some(ty) => db.has_type_ref(ty),
                    None => true,
                }
            },
            ModuleItem::GlobalConstant(id) => {
                if id >= self.global_constants.len() {
                    return false;
                }
                match self.global_constants[id].ty {
                    Some(ty) => db.has_type_ref(ty),
                    None => true,
                }
            },
            ModuleItem::Override(id) => {
                if id >= self.overrides.len() {
                    return false;
                }
                match self.overrides[id].ty {
                    Some(ty) => db.has_type_ref(ty),
                    None => true,
                }
            },
            ModuleItem::Import(id) => id < self.imports.len(),
            ModuleItem::TypeAlias(id) => {
                if id >= self.type_aliases.len() {
                    return false;
                }
                db.has_type_ref(self.type_aliases[id].ty)
            },
        }
    }
}

impl ModuleInfo {
    /// A module without items over an empty store.
    pub fn new() -> (module: ModuleInfo)
        ensures
            module.items@.len() == 0,
            module.data.functions@.len() == 0,
            module.data.parameters@.len() == 0,
            module.data.structs@.len() == 0,
            module.data.fields@.len() == 0,
            module.data.global_variables@.len() == 0,
            module.data.global_constants@.len() == 0,
            module.data.overrides@.len() == 0,
            module.data.imports@.len() == 0,
            module.data.type_aliases@.len() == 0,
    {
        ModuleInfo { data: ModuleData::new(), items: Vec::new() }
    }

    /// The items in source order.
    pub fn items(&self) -> (items: &Vec<ModuleItem>)
        ensures
            items@ == self.items@,
    {
        &self.items
    }

    /// Every item of the module can be printed with `db`.
    pub open spec fn printable<D: DefDatabase + ?Sized>(&self, db: &D) -> bool {
        forall|i: int|
            0 <= i < self.items@.len() ==> self.data.printable(#[trigger] self.items@[i], db)
    }

    /// Tells whether every item of the module can be printed with `db`.
    pub fn is_printable<D: DefDatabase + ?Sized>(&self, db: &D) -> (ok: bool)
        ensures
            ok == self.printable(db),
    {
        let mut i: usize = 0;
        while i < self.items.len()
            invariant
                i <= self.items@.len(),
                forall|j: int| 0 <= j < i ==> self.data.printable(#[trigger] self.items@[j], db),
            decreases self.items@.len() - i,
        {
            if !self.data.is_printable(&self.items[i], db) {
                return false;
            }
            i += 1;
        }
        true
    }
}

} // verus!

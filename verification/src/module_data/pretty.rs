//! Text form of a module and of its items.
//!
//! Printing is stated in two steps. Resolving follows every index of an item
//! into the store and replaces every type reference by the text the database
//! gives for it. The text of the resolved item is then a plain function on
//! character sequences.

use crate::db::{DefDatabase, TypeRefId};
use crate::module_data::{
    optional_type_interned, ImportValue, ModuleData, ModuleInfo, ModuleItem, Name,
};
use crate::text::{
    ends_with, join, lemma_strip_appended, lemma_terminated_is_join_then_sep,
    lemma_terminated_push, terminated, trim_in_place,
};
use vstd::prelude::*;
use vstd::string::*;

verus! {

/// A struct field with its type as text.
pub struct ResolvedField {
    pub name: Seq<char>,
    pub ty: Seq<char>,
}

/// An item with its record looked up and its type references as text: all
/// that its printed form depends on.
#[allow(inconsistent_fields)]
pub enum ResolvedItem {
    Function { name: Seq<char>, parameters: Seq<Seq<char>> },
    Struct { name: Seq<char>, fields: Seq<ResolvedField> },
    GlobalVariable { name: Seq<char>, ty: Option<Seq<char>> },
    GlobalConstant { name: Seq<char>, ty: Option<Seq<char>> },
    Override { name: Seq<char>, ty: Option<Seq<char>> },
    ImportPath { path: Seq<char> },
    ImportCustom { key: Seq<char> },
    TypeAlias { name: Seq<char>, ty: Seq<char> },
}

/// The text of an optional type reference, where there is one.
pub open spec fn resolve_optional_type<D: DefDatabase + ?Sized>(
    db: &D,
    ty: Option<TypeRefId>,
) -> Option<Seq<char>> {
    match ty {
        Some(id) => Some(db.type_ref_text(id)),
        None => None,
    }
}

impl ModuleData {
    /// The type texts of the parameters of function `id`, in order.
    pub open spec fn resolved_parameters<D: DefDatabase + ?Sized>(
        &self,
        id: usize,
        db: &D,
    ) -> Seq<Seq<char>> {
        let range = self.functions@[id as int].parameters;
        Seq::new(range.spec_len(), |k: int| db.type_ref_text(self.parameters@[range.start + k].ty))
    }

    /// The fields of struct `id`, in the order the struct lists them.
    pub open spec fn resolved_fields<D: DefDatabase + ?Sized>(
        &self,
        id: usize,
        db: &D,
    ) -> Seq<ResolvedField> {
        let fields = self.structs@[id as int].fields@;
        Seq::new(
            fields.len(),
            |k: int|
                ResolvedField {
                    name: self.fields@[fields[k] as int].name@,
                    ty: db.type_ref_text(self.fields@[fields[k] as int].ty),
                },
        )
    }

    /// `item` resolved against this store and `db`.
    pub open spec fn resolve<D: DefDatabase + ?Sized>(
        &self,
        item: ModuleItem,
        db: &D,
    ) -> ResolvedItem {
        match item {
            ModuleItem::Function(id) => ResolvedItem::Function {
                name: self.functions@[id as int].name@,
                parameters: self.resolved_parameters(id, db),
            },
            ModuleItem::Struct(id) => ResolvedItem::Struct {
                name: self.structs@[id as int].name@,
                fields: self.resolved_fields(id, db),
            },
            ModuleItem::GlobalVariable(id) => ResolvedItem::GlobalVariable {
                name: self.global_variables@[id as int].name@,
                ty: resolve_optional_type(db, self.global_variables@[id as int].ty),
            },
            ModuleItem::GlobalConstant(id) => ResolvedItem::GlobalConstant {
                name: self.global_constants@[id as int].name@,
                ty: resolve_optional_type(db, self.global_constants@[id as int].ty),
            },
            ModuleItem::Override(id) => ResolvedItem::Override {
                name: self.overrides@[id as int].name@,
                ty: resolve_optional_type(db, self.overrides@[id as int].ty),
            },
            ModuleItem::Import(id) => match self.imports@[id as int].value {
                ImportValue::Path(path) => ResolvedItem::ImportPath { path: path@ },
                ImportValue::Custom(key) => ResolvedItem::ImportCustom { key: key@ },
            },
            ModuleItem::TypeAlias(id) => ResolvedItem::TypeAlias {
                name: self.type_aliases@[id as int].name@,
                ty: db.type_ref_text(self.type_aliases@[id as int].ty),
            },
        }
    }
}

impl ModuleInfo {
    /// The items of the module, resolved, in source order.
    pub open spec fn resolved_items<D: DefDatabase + ?Sized>(&self, db: &D) -> Seq<ResolvedItem> {
        Seq::new(self.items@.len(), |i: int| self.data.resolve(self.items@[i], db))
    }
}

/// What follows the name of a `var`, `let` or `override`: a colon, a space
/// and the type, or nothing where the type is absent.
pub open spec fn type_suffix(ty: Option<Seq<char>>) -> Seq<char> {
    match ty {
        Some(text) => ": "@ + text,
        None => Seq::empty(),
    }
}

/// The line of one struct field: four spaces, `NAME: TYPE;` and a newline.
pub open spec fn field_line(field: ResolvedField) -> Seq<char> {
    "    "@ + field.name + ": "@ + field.ty + ";\n"@
}

/// The lines of the fields, in order.
pub open spec fn field_lines(fields: Seq<ResolvedField>) -> Seq<char>
    decreases fields.len(),
{
    if fields.len() == 0 {
        Seq::empty()
    } else {
        field_lines(fields.drop_last()) + field_line(fields.last())
    }
}

/// The printed form of one item, without a terminator of the module.
pub open spec fn item_text(item: ResolvedItem) -> Seq<char> {
    match item {
        ResolvedItem::Function { name, parameters } => "fn "@ + name + "("@ + join(
            parameters,
            ", "@,
        ) + ")"@,
        ResolvedItem::Struct { name, fields } => "struct "@ + name + " {\n"@ + field_lines(fields)
            + "}"@,
        ResolvedItem::GlobalVariable { name, ty } => "var "@ + name + type_suffix(ty),
        ResolvedItem::GlobalConstant { name, ty } => "let "@ + name + type_suffix(ty),
        ResolvedItem::Override { name, ty } => "override "@ + name + type_suffix(ty),
        ResolvedItem::ImportPath { path } => "#import \""@ + path + "\""@,
        ResolvedItem::ImportCustom { key } => "#import "@ + key,
        ResolvedItem::TypeAlias { name, ty } => "type "@ + name + " = "@ + ty + ";"@,
    }
}

/// The printed form of a module: every item in order, each followed by `;`
/// and a newline.
pub open spec fn module_text(items: Seq<ResolvedItem>) -> Seq<char>
    decreases items.len(),
{
    if items.len() == 0 {
        Seq::empty()
    } else {
        module_text(items.drop_last()) + item_text(items.last()) + ";\n"@
    }
}

/// Prints every item of `module` in source order, each followed by `;` and
/// a newline. A module without items gives the empty string.
pub fn pretty_print_module<D: DefDatabase + ?Sized>(db: &D, module: &ModuleInfo) -> (text: String)
    requires
        module.printable(db),
    ensures
        text@ == module_text(module.resolved_items(db)),
        module.items@.len() == 0 ==> text@.len() == 0,
{
    let mut f = String::new();
    let items = module.items();
    let ghost resolved = module.resolved_items(db);
    let mut i: usize = 0;
    while i < items.len()
        invariant
            i <= items@.len(),
            items@ == module.items@,
            module.printable(db),
            resolved == module.resolved_items(db),
            f@ == module_text(resolved.take(i as int)),
        decreases items@.len() - i,
    {
        write_pretty_module_item(&items[i], module, &mut f, db);
        f.append(";\n");
        proof {
            let next = resolved.take(i + 1);
            assert(next.drop_last() == resolved.take(i as int));
            assert(next.last() == module.data.resolve(items@[i as int], db));
        }
        i += 1;
    }
    proof {
        assert(resolved.take(i as int) == resolved);
    }
    f
}

/// Prints one item of `module`, without a terminator.
pub fn pretty_module_item<D: DefDatabase + ?Sized>(
    item: &ModuleItem,
    module: &ModuleInfo,
    db: &D,
) -> (text: String)
    requires
        module.data.printable(*item, db),
    ensures
        text@ == item_text(module.data.resolve(*item, db)),
{
    let mut f = String::new();
    write_pretty_module_item(item, module, &mut f, db);
    f
}

/// Appends the keyword, the name and, where the type is present, `: TYPE`.
fn write_declaration<D: DefDatabase + ?Sized>(
    f: &mut String,
    keyword: &str,
    name: &Name,
    ty: &Option<TypeRefId>,
    db: &D,
)
    requires
        optional_type_interned(db, *ty),
    ensures
        final(f)@ == old(f)@ + (keyword@ + name@ + type_suffix(resolve_optional_type(db, *ty))),
{
    f.append(keyword);
    f.append(name.0.as_str());
    match ty {
        Some(id) => {
            let text = db.lookup_intern_type_ref(*id);
            f.append(": ");
            f.append(text.as_str());
            assert(f@ == old(f)@ + (keyword@ + name@ + (": "@ + text@)));
        },
        None => {
            assert(f@ == old(f)@ + (keyword@ + name@ + Seq::<char>::empty()));
        },
    }
}

/// Appends `fn NAME(T1, T2, ...)`: the parameter types in order, separated
/// by a comma and a space.
fn write_function<D: DefDatabase + ?Sized>(data: &ModuleData, id: usize, f: &mut String, db: &D)
    requires
        data.printable(ModuleItem::Function(id), db),
    ensures
        final(f)@ == old(f)@ + item_text(data.resolve(ModuleItem::Function(id), db)),
{
    let function = &data.functions[id];
    f.append("fn ");
    f.append(function.name.0.as_str());
    f.append("(");
    let ghost head = f@;
    let ghost types = data.resolved_parameters(id, db);
    let range = function.parameters;
    let mut index: usize = range.start;
    while index < range.end
        invariant
            id < data.functions@.len(),
            range == data.functions@[id as int].parameters,
            data.printable(ModuleItem::Function(id), db),
            types == data.resolved_parameters(id, db),
            range.start <= index,
            index - range.start <= types.len(),
            f@ == head + terminated(types.take(index - range.start), ", "@),
        decreases range.end - index,
    {
        let parameter = &data.parameters[index];
        let text = db.lookup_intern_type_ref(parameter.ty);
        f.append(text.as_str());
        f.append(", ");
        proof {
            let done = types.take(index - range.start);
            assert(types.take(index + 1 - range.start) == done.push(text@));
            lemma_terminated_push(done, text@, ", "@);
            assert(f@ == head + (terminated(done, ", "@) + text@ + ", "@));
        }
        index += 1;
    }
    proof {
        if types.len() > 0 {
            assert(types.take(index - range.start) == types);
            lemma_terminated_is_join_then_sep(types, ", "@);
            lemma_strip_appended(head + join(types, ", "@), ", "@);
            assert(f@ == head + join(types, ", "@) + ", "@);
        } else {
            reveal_strlit("(");
            reveal_strlit(", ");
            assert(f@ == head);
            assert(head.last() == '(');
            if ends_with(head, ", "@) {
                let tail = head.subrange(head.len() - 2, head.len() as int);
                assert(tail[1] == head.last());
            }
        }
    }
    trim_in_place(f, ", ");
    f.append(")");
    assert(f@ == old(f)@ + ("fn "@ + function.name@ + "("@ + join(types, ", "@) + ")"@));
}

/// Appends `struct NAME {`, one line for each field in the order the struct
/// lists them, and the closing brace.
fn write_struct<D: DefDatabase + ?Sized>(data: &ModuleData, id: usize, f: &mut String, db: &D)
    requires
        data.printable(ModuleItem::Struct(id), db),
    ensures
        final(f)@ == old(f)@ + item_text(data.resolve(ModuleItem::Struct(id), db)),
{
    let record = &data.structs[id];
    f.append("struct ");
    f.append(record.name.0.as_str());
    f.append(" {\n");
    let ghost head = f@;
    let ghost fields = data.resolved_fields(id, db);
    let mut k: usize = 0;
    while k < record.fields.len()
        invariant
            id < data.structs@.len(),
            *record == data.structs@[id as int],
            data.printable(ModuleItem::Struct(id), db),
            fields == data.resolved_fields(id, db),
            k <= record.fields@.len(),
            f@ == head + field_lines(fields.take(k as int)),
        decreases record.fields@.len() - k,
    {
        let field = &data.fields[record.fields[k]];
        let text = db.lookup_intern_type_ref(field.ty);
        let ghost before = f@;
        f.append("    ");
        f.append(field.name.0.as_str());
        f.append(": ");
        f.append(text.as_str());
        f.append(";\n");
        proof {
            let next = fields.take(k + 1);
            assert(next.drop_last() == fields.take(k as int));
            assert(next.last() == fields[k as int]);
            assert(f@ == before + field_line(fields[k as int]));
            assert(f@ == head + (field_lines(fields.take(k as int)) + field_line(
                fields[k as int],
            )));
        }
        k += 1;
    }
    f.append("}");
    proof {
        assert(fields.take(k as int) == fields);
        assert(f@ == old(f)@ + ("struct "@ + record.name@ + " {\n"@ + field_lines(fields) + "}"@));
    }
}

/// Appends `#import "PATH"` for a path, `#import KEY` for a custom key.
fn write_import(data: &ModuleData, id: usize, f: &mut String)
    requires
        id < data.imports@.len(),
    ensures
        final(f)@ == old(f)@ + item_text(
            match data.imports@[id as int].value {
                ImportValue::Path(path) => ResolvedItem::ImportPath { path: path@ },
                ImportValue::Custom(key) => ResolvedItem::ImportCustom { key: key@ },
            },
        ),
{
    let import = &data.imports[id];
    match &import.value {
        ImportValue::Path(path) => {
            f.append("#import \"");
            f.append(path.as_str());
            f.append("\"");
            assert(f@ == old(f)@ + ("#import \""@ + path@ + "\""@));
        },
        ImportValue::Custom(key) => {
            f.append("#import ");
            f.append(key.as_str());
            assert(f@ == old(f)@ + ("#import "@ + key@));
        },
    }
}

/// Appends `type NAME = TYPE;`.
fn write_type_alias<D: DefDatabase + ?Sized>(data: &ModuleData, id: usize, f: &mut String, db: &D)
    requires
        data.printable(ModuleItem::TypeAlias(id), db),
    ensures
        final(f)@ == old(f)@ + item_text(data.resolve(ModuleItem::TypeAlias(id), db)),
{
    let alias = &data.type_aliases[id];
    let text = db.lookup_intern_type_ref(alias.ty);
    f.append("type ");
    f.append(alias.name.0.as_str());
    f.append(" = ");
    f.append(text.as_str());
    f.append(";");
    assert(f@ == old(f)@ + ("type "@ + alias.name@ + " = "@ + text@ + ";"@));
}

/// Appends the printed form of `item` to `f`. What `f` held before stays in
/// front, unchanged.
pub fn write_pretty_module_item<D: DefDatabase + ?Sized>(
    item: &ModuleItem,
    module: &ModuleInfo,
    f: &mut String,
    db: &D,
)
    requires
        module.data.printable(*item, db),
    ensures
        final(f)@ == old(f)@ + item_text(module.data.resolve(*item, db)),
{
    let data = &module.data;
    match *item {
        ModuleItem::Function(id) => write_function(data, id, f, db),
        ModuleItem::Struct(id) => write_struct(data, id, f, db),
        ModuleItem::GlobalVariable(id) => {
            let variable = &data.global_variables[id];
            write_declaration(f, "var ", &variable.name, &variable.ty, db);
        },
        ModuleItem::GlobalConstant(id) => {
            let constant = &data.global_constants[id];
            write_declaration(f, "let ", &constant.name, &constant.ty, db);
        },
        ModuleItem::Override(id) => {
            let declaration = &data.overrides[id];
            write_declaration(f, "override ", &declaration.name, &declaration.ty, db);
        },
        ModuleItem::Import(id) => write_import(data, id, f),
        ModuleItem::TypeAlias(id) => write_type_alias(data, id, f, db),
    }
}

} // verus!

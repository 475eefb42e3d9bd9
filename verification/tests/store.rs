use hir_def::db::{DefDatabase, TypeInterner, TypeRefId};
use hir_def::module_data::{
    Field, Function, GlobalConstant, GlobalVariable, IdxRange, Import, ImportValue, ModuleData,
    ModuleInfo, ModuleItem, Name, Override, Parameter, Struct, TypeAlias,
};

fn name(text: &str) -> Name {
    Name(text.to_string())
}

#[test]
fn interner_starts_empty() {
    let db = TypeInterner::new();
    assert!(db.texts.is_empty());
    assert!(!db.has_type_ref(TypeRefId(0)));
}

#[test]
fn interner_hands_out_positions() {
    let mut db = TypeInterner::new();
    assert_eq!(db.intern("i32".to_string()), TypeRefId(0));
    assert_eq!(db.intern("f32".to_string()), TypeRefId(1));
    assert_eq!(db.intern("vec3<f32>".to_string()), TypeRefId(2));
    assert_eq!(db.texts, vec!["i32", "f32", "vec3<f32>"]);
}

#[test]
fn interner_stores_no_text_twice() {
    let mut db = TypeInterner::new();
    let first = db.intern("i32".to_string());
    let second = db.intern("f32".to_string());
    assert_eq!(db.intern("i32".to_string()), first);
    assert_eq!(db.intern("f32".to_string()), second);
    assert_eq!(db.texts.len(), 2);
    assert_ne!(first, second);
}

#[test]
fn interner_looks_up_what_was_interned() {
    let mut db = TypeInterner::new();
    let a = db.intern("array<f32, 4>".to_string());
    let b = db.intern("".to_string());
    assert!(db.has_type_ref(a));
    assert!(db.has_type_ref(b));
    assert!(!db.has_type_ref(TypeRefId(2)));
    assert_eq!(db.lookup_intern_type_ref(a), "array<f32, 4>");
    assert_eq!(db.lookup_intern_type_ref(b), "");
}

#[test]
fn new_module_is_empty() {
    let module = ModuleInfo::new();
    assert!(module.items().is_empty());
    assert!(module.data.functions.is_empty());
    assert!(module.data.parameters.is_empty());
    assert!(module.data.structs.is_empty());
    assert!(module.data.fields.is_empty());
    assert!(module.data.global_variables.is_empty());
    assert!(module.data.global_constants.is_empty());
    assert!(module.data.overrides.is_empty());
    assert!(module.data.imports.is_empty());
    assert!(module.data.type_aliases.is_empty());
}

#[test]
fn items_are_handed_out_in_stored_order() {
    let mut module = ModuleInfo::new();
    module.items = vec![ModuleItem::Import(1), ModuleItem::Function(0), ModuleItem::Import(0)];
    assert_eq!(
        module.items(),
        &vec![ModuleItem::Import(1), ModuleItem::Function(0), ModuleItem::Import(0)]
    );
}

#[test]
fn item_with_an_index_outside_its_table_is_not_printable() {
    let db = TypeInterner::new();
    let data = ModuleData::new();
    for item in [
        ModuleItem::Function(0),
        ModuleItem::Struct(0),
        ModuleItem::GlobalVariable(0),
        ModuleItem::GlobalConstant(0),
        ModuleItem::Override(0),
        ModuleItem::Import(0),
        ModuleItem::TypeAlias(0),
    ] {
        assert!(!data.is_printable(&item, &db));
    }
}

#[test]
fn item_of_each_kind_is_printable_when_everything_resolves() {
    let mut db = TypeInterner::new();
    let ty = db.intern("f32".to_string());
    let mut data = ModuleData::new();
    data.parameters.push(Parameter { ty });
    data.functions.push(Function { name: name("f"), parameters: IdxRange { start: 0, end: 1 } });
    data.fields.push(Field { name: name("x"), ty });
    data.structs.push(Struct { name: name("S"), fields: vec![0] });
    data.global_variables.push(GlobalVariable { name: name("v"), ty: Some(ty) });
    data.global_constants.push(GlobalConstant { name: name("c"), ty: None });
    data.overrides.push(Override { name: name("o"), ty: Some(ty) });
    data.imports.push(Import { value: ImportValue::Custom("k".to_string()) });
    data.type_aliases.push(TypeAlias { name: name("T"), ty });
    for item in [
        ModuleItem::Function(0),
        ModuleItem::Struct(0),
        ModuleItem::GlobalVariable(0),
        ModuleItem::GlobalConstant(0),
        ModuleItem::Override(0),
        ModuleItem::Import(0),
        ModuleItem::TypeAlias(0),
    ] {
        assert!(data.is_printable(&item, &db));
    }
    assert!(!data.is_printable(&ModuleItem::Function(1), &db));
    assert!(!data.is_printable(&ModuleItem::TypeAlias(1), &db));
}

#[test]
fn function_whose_run_leaves_the_table_is_not_printable() {
    let mut db = TypeInterner::new();
    let ty = db.intern("f32".to_string());
    let mut data = ModuleData::new();
    data.parameters.push(Parameter { ty });
    data.functions.push(Function { name: name("f"), parameters: IdxRange { start: 0, end: 2 } });
    data.functions.push(Function { name: name("g"), parameters: IdxRange { start: 1, end: 1 } });
    data.functions.push(Function { name: name("h"), parameters: IdxRange { start: 5, end: 5 } });
    data.functions.push(Function { name: name("i"), parameters: IdxRange { start: 5, end: 6 } });
    assert!(!data.is_printable(&ModuleItem::Function(0), &db));
    assert!(data.is_printable(&ModuleItem::Function(1), &db));
    assert!(data.is_printable(&ModuleItem::Function(2), &db));
    assert!(!data.is_printable(&ModuleItem::Function(3), &db));
}

#[test]
fn struct_with_a_field_outside_the_table_is_not_printable() {
    let mut db = TypeInterner::new();
    let ty = db.intern("f32".to_string());
    let mut data = ModuleData::new();
    data.fields.push(Field { name: name("x"), ty });
    data.structs.push(Struct { name: name("S"), fields: vec![0, 1] });
    data.structs.push(Struct { name: name("T"), fields: vec![0, 0] });
    assert!(!data.is_printable(&ModuleItem::Struct(0), &db));
    assert!(data.is_printable(&ModuleItem::Struct(1), &db));
}

#[test]
fn item_with_an_unknown_type_is_not_printable() {
    let mut db = TypeInterner::new();
    let known = db.intern("f32".to_string());
    let unknown = TypeRefId(9);
    let mut data = ModuleData::new();
    data.parameters.push(Parameter { ty: known });
    data.parameters.push(Parameter { ty: unknown });
    data.functions.push(Function { name: name("f"), parameters: IdxRange { start: 0, end: 2 } });
    data.functions.push(Function { name: name("g"), parameters: IdxRange { start: 0, end: 1 } });
    data.fields.push(Field { name: name("x"), ty: known });
    data.fields.push(Field { name: name("y"), ty: unknown });
    data.structs.push(Struct { name: name("S"), fields: vec![0, 1] });
    data.structs.push(Struct { name: name("T"), fields: vec![0] });
    data.global_variables.push(GlobalVariable { name: name("v"), ty: Some(unknown) });
    data.global_variables.push(GlobalVariable { name: name("w"), ty: None });
    data.global_constants.push(GlobalConstant { name: name("c"), ty: Some(unknown) });
    data.overrides.push(Override { name: name("o"), ty: Some(unknown) });
    data.type_aliases.push(TypeAlias { name: name("A"), ty: unknown });
    assert!(!data.is_printable(&ModuleItem::Function(0), &db));
    assert!(data.is_printable(&ModuleItem::Function(1), &db));
    assert!(!data.is_printable(&ModuleItem::Struct(0), &db));
    assert!(data.is_printable(&ModuleItem::Struct(1), &db));
    assert!(!data.is_printable(&ModuleItem::GlobalVariable(0), &db));
    assert!(data.is_printable(&ModuleItem::GlobalVariable(1), &db));
    assert!(!data.is_printable(&ModuleItem::GlobalConstant(0), &db));
    assert!(!data.is_printable(&ModuleItem::Override(0), &db));
    assert!(!data.is_printable(&ModuleItem::TypeAlias(0), &db));
}

#[test]
fn module_is_printable_when_each_item_is() {
    let mut db = TypeInterner::new();
    let ty = db.intern("f32".to_string());
    let mut module = ModuleInfo::new();
    module.data.type_aliases.push(TypeAlias { name: name("A"), ty });
    module.data.imports.push(Import { value: ImportValue::Path("p".to_string()) });
    assert!(module.is_printable(&db));
    module.items = vec![ModuleItem::TypeAlias(0), ModuleItem::Import(0)];
    assert!(module.is_printable(&db));
    module.items.push(ModuleItem::Import(1));
    assert!(!module.is_printable(&db));
    module.items = vec![ModuleItem::Struct(0), ModuleItem::TypeAlias(0)];
    assert!(!module.is_printable(&db));
}

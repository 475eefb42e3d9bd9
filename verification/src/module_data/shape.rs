//! What holds of every printed text: terminators, separators, the field
//! block of a struct, optional types and the two forms of an import.

use crate::module_data::pretty::{
    field_line, field_lines, item_text, module_text, type_suffix, ResolvedField, ResolvedItem,
};
use crate::text::{
    count_occurrences, ends_with, join, lemma_count_concat, lemma_count_join,
    lemma_count_without_first_char, lemma_no_straddle_pair, lemma_strip_appended, strip_suffix,
};
use vstd::prelude::*;

verus! {

/// A module without items prints as the empty text.
pub proof fn lemma_empty_module_is_empty_text()
    ensures
        module_text(Seq::<ResolvedItem>::empty()) == Seq::<char>::empty(),
{
}

/// One more item behind the others adds its text and the terminator, and
/// leaves what was printed before unchanged.
pub proof fn lemma_module_text_push(items: Seq<ResolvedItem>, item: ResolvedItem)
    ensures
        module_text(items.push(item)) == module_text(items) + item_text(item) + ";\n"@,
{
    assert(items.push(item).drop_last() == items);
}

/// A module of one item prints as the item alone followed by `;` and a
/// newline; stripping that terminator gives the item's own text back.
pub proof fn lemma_single_item_module(item: ResolvedItem)
    ensures
        module_text(seq![item]) == item_text(item) + ";\n"@,
        strip_suffix(module_text(seq![item]), ";\n"@) == item_text(item),
{
    let items = seq![item];
    assert(items.drop_last() == Seq::<ResolvedItem>::empty());
    assert(module_text(items.drop_last()) == Seq::<char>::empty());
    assert(module_text(items) == Seq::<char>::empty() + item_text(item) + ";\n"@);
    assert(Seq::<char>::empty() + item_text(item) == item_text(item));
    lemma_strip_appended(item_text(item), ";\n"@);
}

/// The last piece of text an item's printed form is put together from.
pub open spec fn closing_text(item: ResolvedItem) -> Seq<char> {
    match item {
        ResolvedItem::Function { .. } => ")"@,
        ResolvedItem::Struct { .. } => "}"@,
        ResolvedItem::GlobalVariable { name, ty } | ResolvedItem::GlobalConstant { name, ty }
        | ResolvedItem::Override { name, ty } => match ty {
            Some(text) => text,
            None => name,
        },
        ResolvedItem::ImportPath { .. } => "\""@,
        ResolvedItem::ImportCustom { key } => key,
        ResolvedItem::TypeAlias { .. } => ";"@,
    }
}

/// An item's text ends in `;` exactly when its closing text does. A type
/// alias always does, so a module prints it with a doubled terminator; a
/// function, a struct and a path import never do.
pub proof fn lemma_item_terminator(item: ResolvedItem)
    ensures
        ends_with(item_text(item), ";"@) <==> ends_with(closing_text(item), ";"@),
        ends_with(module_text(seq![item]), ";;\n"@) <==> ends_with(item_text(item), ";"@),
        item is TypeAlias ==> ends_with(module_text(seq![item]), ";;\n"@),
        item is Function || item is Struct || item is ImportPath ==> !ends_with(
            module_text(seq![item]),
            ";;\n"@,
        ),
{
    reveal_strlit(";");
    reveal_strlit(";\n");
    reveal_strlit(";;\n");
    reveal_strlit(")");
    reveal_strlit("}");
    reveal_strlit("\"");
    reveal_strlit(": ");
    reveal_strlit("var ");
    reveal_strlit("let ");
    reveal_strlit("override ");
    reveal_strlit("#import ");
    let text = item_text(item);
    let closing = closing_text(item);
    lemma_single_item_module(item);
    let whole = module_text(seq![item]);
    assert(whole == text + ";\n"@);
    // The module text ends in `;;\n` exactly when the item ends in `;`.
    if ends_with(whole, ";;\n"@) {
        let tail = whole.subrange(whole.len() - 3, whole.len() as int);
        assert(tail[0] == ';');
        assert(text.len() >= 1);
        assert(text.last() == whole[whole.len() - 3]);
        assert(text.subrange(text.len() - 1, text.len() as int) =~= ";"@);
    }
    if ends_with(text, ";"@) {
        let last = text.subrange(text.len() - 1, text.len() as int);
        assert(last[0] == ';');
        assert(whole.subrange(whole.len() - 3, whole.len() as int) =~= ";;\n"@);
    }
    // The item ends in `;` exactly when its closing text does: the two end in
    // the same character, or the closing text is empty and the item ends in
    // a space.
    assert(text.len() > 0);
    assert(closing.len() > 0 ==> text.last() == closing.last());
    assert(closing.len() == 0 ==> text.last() == ' ');
    if ends_with(text, ";"@) {
        assert(text.last() == ';');
        assert(closing.subrange(closing.len() - 1, closing.len() as int) =~= ";"@);
    }
    if ends_with(closing, ";"@) {
        let last = closing.subrange(closing.len() - 1, closing.len() as int);
        assert(last[0] == ';');
        assert(text.subrange(text.len() - 1, text.len() as int) =~= ";"@);
    }
    if item is TypeAlias {
        assert(closing.subrange(0, 1) =~= ";"@);
    }
}

/// A function prints as `fn NAME(` and `)` around its parameter types, which
/// are joined by `, `: without parameters the parentheses are empty, and
/// otherwise the closing parenthesis follows the last type directly.
pub proof fn lemma_function_parameter_list(name: Seq<char>, parameters: Seq<Seq<char>>)
    ensures
        item_text(ResolvedItem::Function { name, parameters }) == "fn "@ + name + "("@ + join(
            parameters,
            ", "@,
        ) + ")"@,
        parameters.len() == 0 ==> item_text(ResolvedItem::Function { name, parameters }) == "fn "@
            + name + "()"@,
        parameters.len() == 1 ==> item_text(ResolvedItem::Function { name, parameters }) == "fn "@
            + name + "("@ + parameters[0] + ")"@,
        parameters.len() > 0 ==> ends_with(
            item_text(ResolvedItem::Function { name, parameters }),
            parameters.last() + ")"@,
        ),
{
    reveal_strlit("(");
    reveal_strlit(")");
    reveal_strlit("()");
    let text = item_text(ResolvedItem::Function { name, parameters });
    let head = "fn "@ + name + "("@;
    if parameters.len() == 0 {
        assert(text =~= "fn "@ + name + "()"@);
    } else {
        let list = join(parameters, ", "@);
        let tail = parameters.last() + ")"@;
        if parameters.len() == 1 {
            assert(list == parameters.last());
        } else {
            assert(list == join(parameters.drop_last(), ", "@) + ", "@ + parameters.last());
        }
        assert(text.subrange(text.len() - tail.len(), text.len() as int) =~= tail);
    }
}

/// Where neither the name nor a parameter type holds `, ` itself, the text
/// of a function with parameters holds it once less often than there are
/// parameters, and not at all without parameters.
pub proof fn lemma_function_separator_count(name: Seq<char>, parameters: Seq<Seq<char>>)
    requires
        count_occurrences(name, ", "@) == 0,
        forall|i: int|
            0 <= i < parameters.len() ==> count_occurrences(#[trigger] parameters[i], ", "@) == 0,
    ensures
        parameters.len() == 0 ==> count_occurrences(
            item_text(ResolvedItem::Function { name, parameters }),
            ", "@,
        ) == 0,
        parameters.len() > 0 ==> count_occurrences(
            item_text(ResolvedItem::Function { name, parameters }),
            ", "@,
        ) == parameters.len() - 1,
{
    reveal_strlit(", ");
    reveal_strlit("fn ");
    reveal_strlit("(");
    reveal_strlit(")");
    let sep = ", "@;
    let list = join(parameters, sep);
    if parameters.len() > 0 {
        lemma_count_join(parameters, sep);
    }
    assert(count_occurrences(list, sep) == if parameters.len() == 0 {
        0
    } else {
        parameters.len() - 1
    });
    lemma_count_without_first_char("fn "@, sep);
    lemma_count_without_first_char("("@, sep);
    lemma_count_without_first_char(")"@, sep);
    lemma_no_straddle_pair("fn "@, name, sep);
    lemma_count_concat("fn "@, name, sep);
    lemma_no_straddle_pair("fn "@ + name, "("@, sep);
    lemma_count_concat("fn "@ + name, "("@, sep);
    lemma_no_straddle_pair("fn "@ + name + "("@, list, sep);
    lemma_count_concat("fn "@ + name + "("@, list, sep);
    lemma_no_straddle_pair("fn "@ + name + "("@ + list, ")"@, sep);
    lemma_count_concat("fn "@ + name + "("@ + list, ")"@, sep);
}

/// The line of a field is four spaces, the name, `: `, the type, `;` and a
/// newline. Unless the name itself begins with a space, the indent is of
/// exactly four.
pub proof fn lemma_field_line_shape(field: ResolvedField)
    ensures
        field_line(field).len() == 4 + field.name.len() + 2 + field.ty.len() + 2,
        forall|i: int| 0 <= i < 4 ==> field_line(field)[i] == ' ',
        field.name.len() == 0 || field.name[0] != ' ' ==> field_line(field)[4] != ' ',
        field_line(field).subrange(4, 4 + field.name.len() as int) == field.name,
        field_line(field).subrange(
            6 + field.name.len() as int,
            6 + field.name.len() as int + field.ty.len() as int,
        ) == field.ty,
        ends_with(field_line(field), ";\n"@),
        field_line(field)[field_line(field).len() - 2] == ';',
{
    reveal_strlit("    ");
    reveal_strlit(": ");
    reveal_strlit(";\n");
    let line = field_line(field);
    assert(line.subrange(line.len() - 2, line.len() as int) =~= ";\n"@);
    assert(line.subrange(4, 4 + field.name.len() as int) =~= field.name);
    assert(line.subrange(
        6 + field.name.len() as int,
        6 + field.name.len() as int + field.ty.len() as int,
    ) =~= field.ty);
    if field.name.len() == 0 {
        assert(line[4] == ':');
    } else {
        assert(line[4] == field.name[0]);
    }
}

/// The lines of two runs of fields, one behind the other, are the lines of
/// the first run followed by those of the second.
pub proof fn lemma_field_lines_concat(front: Seq<ResolvedField>, back: Seq<ResolvedField>)
    ensures
        field_lines(front + back) == field_lines(front) + field_lines(back),
    decreases back.len(),
{
    if back.len() == 0 {
        assert(front + back == front);
    } else {
        assert((front + back).drop_last() == front + back.drop_last());
        lemma_field_lines_concat(front, back.drop_last());
    }
}

/// The field block keeps the stored order: the line of field `i` stands
/// behind the lines of all fields before it and in front of the lines of all
/// fields after it.
pub proof fn lemma_struct_fields_in_order(name: Seq<char>, fields: Seq<ResolvedField>, i: int)
    requires
        0 <= i < fields.len(),
    ensures
        field_lines(fields) == field_lines(fields.take(i)) + field_line(fields[i]) + field_lines(
            fields.skip(i + 1),
        ),
        item_text(ResolvedItem::Struct { name, fields }) == "struct "@ + name + " {\n"@
            + field_lines(fields.take(i)) + field_line(fields[i]) + field_lines(fields.skip(i + 1))
            + "}"@,
{
    let front = fields.take(i);
    let one = seq![fields[i]];
    let back = fields.skip(i + 1);
    assert(fields == front + one + back);
    lemma_field_lines_concat(front + one, back);
    lemma_field_lines_concat(front, one);
    assert(one.drop_last() == Seq::<ResolvedField>::empty());
    assert(one.last() == fields[i]);
    assert(field_lines(one.drop_last()) == Seq::<char>::empty());
    assert(field_lines(one) == Seq::<char>::empty() + field_line(fields[i]));
    assert(field_lines(one) == field_line(fields[i]));
    let lines = field_lines(front) + field_line(fields[i]) + field_lines(back);
    assert("struct "@ + name + " {\n"@ + lines + "}"@ == "struct "@ + name + " {\n"@ + field_lines(
        front,
    ) + field_line(fields[i]) + field_lines(back) + "}"@);
}

/// The text behind the name of a `var`, `let` or `override` is `: TYPE`
/// where the type is present and nothing where it is absent: an absent type
/// leaves no colon behind, and is told apart from a present type with an
/// empty text.
pub proof fn lemma_type_suffix_iff_present(ty: Option<Seq<char>>)
    ensures
        ty is None <==> type_suffix(ty).len() == 0,
        ty matches Some(text) ==> type_suffix(ty) == ": "@ + text && type_suffix(ty)[0] == ':'
            && type_suffix(ty)[1] == ' ' && type_suffix(ty).len() == 2 + text.len(),
{
    reveal_strlit(": ");
}

/// A `var`, `let` or `override` prints as its keyword, a space and its name,
/// followed by `: TYPE` if and only if the type is present.
pub proof fn lemma_declaration_text(name: Seq<char>, ty: Option<Seq<char>>)
    ensures
        item_text(ResolvedItem::GlobalVariable { name, ty }) == "var "@ + name + type_suffix(ty),
        item_text(ResolvedItem::GlobalConstant { name, ty }) == "let "@ + name + type_suffix(ty),
        item_text(ResolvedItem::Override { name, ty }) == "override "@ + name + type_suffix(ty),
        ty is None ==> {
            &&& item_text(ResolvedItem::GlobalVariable { name, ty }) == "var "@ + name
            &&& item_text(ResolvedItem::GlobalConstant { name, ty }) == "let "@ + name
            &&& item_text(ResolvedItem::Override { name, ty }) == "override "@ + name
        },
        ty matches Some(text) ==> {
            &&& item_text(ResolvedItem::GlobalVariable { name, ty }) == "var "@ + name + ": "@
                + text
            &&& item_text(ResolvedItem::GlobalConstant { name, ty }) == "let "@ + name + ": "@
                + text
            &&& item_text(ResolvedItem::Override { name, ty }) == "override "@ + name + ": "@
                + text
        },
        ty is None <==> item_text(ResolvedItem::GlobalVariable { name, ty }).len() == ("var "@
            + name).len(),
        ty is None <==> item_text(ResolvedItem::GlobalConstant { name, ty }).len() == ("let "@
            + name).len(),
        ty is None <==> item_text(ResolvedItem::Override { name, ty }).len() == ("override "@
            + name).len(),
{
    lemma_type_suffix_iff_present(ty);
    match ty {
        Some(text) => {
            assert("var "@ + name + (": "@ + text) == "var "@ + name + ": "@ + text);
            assert("let "@ + name + (": "@ + text) == "let "@ + name + ": "@ + text);
            assert("override "@ + name + (": "@ + text) == "override "@ + name + ": "@ + text);
        },
        None => {
            assert("var "@ + name + Seq::<char>::empty() == "var "@ + name);
            assert("let "@ + name + Seq::<char>::empty() == "let "@ + name);
            assert("override "@ + name + Seq::<char>::empty() == "override "@ + name);
        },
    }
}

/// An import prints in one of two forms that never coincide. A path stands
/// between two double quotes, verbatim. A custom key stands bare: the text
/// holds a double quote only where the key does.
pub proof fn lemma_import_forms(value: Seq<char>)
    ensures
        item_text(ResolvedItem::ImportPath { path: value }) == "#import "@ + "\""@ + value + "\""@,
        item_text(ResolvedItem::ImportPath { path: value })[8] == '"',
        item_text(ResolvedItem::ImportPath { path: value }).last() == '"',
        item_text(ResolvedItem::ImportPath { path: value }).subrange(9, 9 + value.len() as int)
            == value,
        item_text(ResolvedItem::ImportPath { path: value }).len() == value.len() + 10,
        item_text(ResolvedItem::ImportCustom { key: value }) == "#import "@ + value,
        item_text(ResolvedItem::ImportCustom { key: value }).len() == value.len() + 8,
        forall|i: int|
            0 <= i < value.len() + 8 && item_text(ResolvedItem::ImportCustom { key: value })[i]
                == '"' ==> i >= 8 && value[i - 8] == '"',
        item_text(ResolvedItem::ImportPath { path: value }) != item_text(
            ResolvedItem::ImportCustom { key: value },
        ),
{
    reveal_strlit("#import \"");
    reveal_strlit("#import ");
    reveal_strlit("\"");
    let quoted = item_text(ResolvedItem::ImportPath { path: value });
    let bare = item_text(ResolvedItem::ImportCustom { key: value });
    assert("#import \""@ =~= "#import "@ + "\""@);
    assert(quoted.subrange(9, 9 + value.len() as int) =~= value);
    assert(quoted.len() != bare.len());
}

} // verus!

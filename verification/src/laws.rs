//! What holds of the generated code as a whole.

use crate::ast::Class;
use crate::ast::Field;
use crate::ast::FnSig;
use crate::ast::Member;
use crate::ast::Method;
use crate::ast::OpaqueTokens;
use crate::ast::PrivateStruct;
use crate::emit::arg_names_text;
use crate::emit::arg_types_text;
use crate::emit::byte_string_text;
use crate::emit::field_list_text;
use crate::emit::field_text;
use crate::emit::type_text;
use crate::letters::lower_cased_first;
use crate::names::Identifier;
use crate::template::always_impl_text;
use crate::template::assignment_text;
use crate::template::c_symbol_name;
use crate::template::c_symbols_text;
use crate::template::class_init_text;
use crate::template::class_methods;
use crate::template::class_struct_name;
use crate::template::class_text;
use crate::template::classes_text;
use crate::template::finalize_text;
use crate::template::get_type_fn_text;
use crate::template::get_type_symbol_name;
use crate::template::gobject_text;
use crate::template::has_private_struct;
use crate::template::impls_text;
use crate::template::init_text;
use crate::template::inits;
use crate::template::instance_init_text;
use crate::template::method_c_symbol_text;
use crate::template::method_impl_fn_text;
use crate::template::method_redirect_text;
use crate::template::method_redirects_text;
use crate::template::method_trait_fn_text;
use crate::template::methods_declared_text;
use crate::template::methods_trait_name;
use crate::template::parent_instance_text;
use crate::template::private_struct;
use crate::template::register_text;
use crate::template::slot_text;
use crate::template::type_decls_text;
use crate::tokens::lemma_beside_associative;
use crate::tokens::lemma_beside_nothing;
use crate::tokens::lemma_spaced_add;
use crate::tokens::lemma_spaced_push;
use crate::tokens::spaced;
use crate::tokens::Beside;
use vstd::prelude::*;

verus! {

/// Generating a program in two halves gives the same code as generating it at once.
pub proof fn law_classes_in_halves(left: Seq<Class>, right: Seq<Class>)
    ensures
        classes_text(left + right) == classes_text(left).beside(classes_text(right)),
{
    let text = |class: Class| class_text(class);
    assert((left + right).map_values(text) =~= left.map_values(text) + right.map_values(text));
    lemma_spaced_add(left.map_values(text), right.map_values(text));
}

/// Whether `text` is `piece` with something, or nothing, before and after it.
pub open spec fn occurs_in(piece: Seq<char>, text: Seq<char>) -> bool {
    exists|before: Seq<char>, after: Seq<char>|
        text == #[trigger] before.beside(piece).beside(after)
}

/// What occurs in the first of two texts occurs in both together.
broadcast proof fn lemma_occurs_in_first(piece: Seq<char>, first: Seq<char>, second: Seq<char>)
    requires
        occurs_in(piece, first),
    ensures
        #[trigger] occurs_in(piece, first.beside(second)),
{
    broadcast use lemma_beside_associative;

    let (before, after) = choose|before: Seq<char>, after: Seq<char>|
        first == #[trigger] before.beside(piece).beside(after);
    assert(first.beside(second) == before.beside(piece).beside(after.beside(second)));
}

/// What occurs in the second of two texts occurs in both together.
broadcast proof fn lemma_occurs_in_second(piece: Seq<char>, first: Seq<char>, second: Seq<char>)
    requires
        occurs_in(piece, second),
    ensures
        #[trigger] occurs_in(piece, first.beside(second)),
{
    broadcast use lemma_beside_associative;

    let (before, after) = choose|before: Seq<char>, after: Seq<char>|
        second == #[trigger] before.beside(piece).beside(after);
    assert(first.beside(second) == first.beside(before).beside(piece).beside(after));
}

/// A text occurs in itself.
broadcast proof fn lemma_occurs_in_itself(text: Seq<char>)
    ensures
        #[trigger] occurs_in(text, text),
{
    let nothing = Seq::<char>::empty();
    lemma_beside_nothing(text);
    assert(text == nothing.beside(text).beside(nothing));
}

/// A piece occurs in the run that it is from.
proof fn lemma_occurs_in_run(pieces: Seq<Seq<char>>, i: int)
    requires
        0 <= i < pieces.len(),
    ensures
        occurs_in(pieces[i], spaced(pieces)),
{
    let left = pieces.take(i);
    let right = pieces.skip(i + 1);
    assert(pieces =~= left.push(pieces[i]) + right);
    lemma_spaced_add(left.push(pieces[i]), right);
    lemma_spaced_push(left, pieces[i]);
    assert(spaced(pieces) == spaced(left).beside(pieces[i]).beside(spaced(right)));
}

/// Every method that a class declares has its place in each part of the code that deals with
/// methods: a field of the class struct, the statement that fills it, a declaration in the trait,
/// an implementation, a method on the instance, and a C function.
pub proof fn law_every_method_is_generated(class: Class, i: int, prefix: Seq<char>)
    requires
        0 <= i < class_methods(class).len(),
    ensures
        ({
            let method = class_methods(class)[i];
            &&& occurs_in(slot_text(class, method), type_decls_text(class))
            &&& occurs_in(assignment_text(class, method), class_init_text(class))
            &&& occurs_in(method_trait_fn_text(method), methods_declared_text(class))
            &&& occurs_in(method_impl_fn_text(method), methods_declared_text(class))
            &&& occurs_in(method_redirect_text(method), method_redirects_text(class))
            &&& occurs_in(
                method_c_symbol_text(class, prefix, method),
                c_symbols_text(class, prefix),
            )
        }),
{
    broadcast use lemma_occurs_in_first, lemma_occurs_in_second;

    let methods = class_methods(class);
    lemma_occurs_in_run(methods.map_values(|m: Method| slot_text(class, m)), i);
    lemma_occurs_in_run(methods.map_values(|m: Method| assignment_text(class, m)), i);
    lemma_occurs_in_run(methods.map_values(|m: Method| method_trait_fn_text(m)), i);
    lemma_occurs_in_run(methods.map_values(|m: Method| method_impl_fn_text(m)), i);
    lemma_occurs_in_run(methods.map_values(|m: Method| method_redirect_text(m)), i);
    lemma_occurs_in_run(
        methods.map_values(|m: Method| method_c_symbol_text(class, prefix, m)),
        i,
    );
}

/// The code of a class holds all its parts.
pub proof fn law_class_holds_its_parts(class: Class)
    ensures
        occurs_in(type_decls_text(class), class_text(class)),
        occurs_in(impls_text(class), class_text(class)),
        occurs_in(get_type_fn_text(class), class_text(class)),
        occurs_in(instance_init_text(class), class_text(class)),
        occurs_in(finalize_text(class), class_text(class)),
        occurs_in(class_init_text(class), class_text(class)),
        occurs_in(register_text(class), class_text(class)),
        occurs_in(methods_declared_text(class), class_text(class)),
        occurs_in(always_impl_text(class), class_text(class)),
        occurs_in(method_redirects_text(class), class_text(class)),
        occurs_in(c_symbols_text(class, lower_cased_first(class.name@)), class_text(class)),
{
    broadcast use lemma_occurs_in_first, lemma_occurs_in_second, lemma_occurs_in_itself;

    reveal(class_text);
}

/// Whether two lists of names with their types have the same texts.
pub open spec fn fields_read_alike(a: Seq<Field>, b: Seq<Field>) -> bool {
    &&& a.len() == b.len()
    &&& forall|i: int| #![trigger a[i]] #![trigger b[i]]
        0 <= i < a.len() ==> a[i].name@ == b[i].name@ && type_text(a[i].ty) == type_text(b[i].ty)
}

/// Whether two private structs have the same texts.
pub open spec fn private_structs_read_alike(a: PrivateStruct, b: PrivateStruct) -> bool {
    a.name@ == b.name@ && fields_read_alike(a.fields@, b.fields@)
}

/// Whether two signatures have the same texts.
pub open spec fn sigs_read_alike(a: FnSig, b: FnSig) -> bool {
    &&& fields_read_alike(a.args@, b.args@)
    &&& match (a.return_ty, b.return_ty) {
        (Some(a), Some(b)) => type_text(a) == type_text(b),
        (None, None) => true,
        _ => false,
    }
}

/// Whether two methods have the same texts: their names, their signatures and their code.
pub open spec fn methods_read_alike(a: Method, b: Method) -> bool {
    &&& a.name@ == b.name@
    &&& sigs_read_alike(a.fn_def.sig, b.fn_def.sig)
    &&& a.fn_def.code@ == b.fn_def.code@
}

/// Lists of fields with the same texts read the same.
proof fn lemma_fields_read_alike(a: Seq<Field>, b: Seq<Field>)
    requires
        fields_read_alike(a, b),
    ensures
        field_list_text(a) == field_list_text(b),
        arg_names_text(a) == arg_names_text(b),
        arg_types_text(a) == arg_types_text(b),
{
    let decl = |field: Field| field_text(field);
    let name = |arg: Field| arg.name@;
    let ty = |arg: Field| type_text(arg.ty).beside(", "@);
    assert(a.map_values(decl) =~= b.map_values(decl));
    assert(a.map_values(name) =~= b.map_values(name));
    assert(a.map_values(ty) =~= b.map_values(ty));
}

/// What is generated for a method depends on its texts.
proof fn lemma_methods_read_alike(
    a: Class,
    b: Class,
    prefix: Seq<char>,
    method: Method,
    other: Method,
)
    requires
        a.name@ == b.name@,
        methods_read_alike(method, other),
    ensures
        slot_text(a, method) == slot_text(b, other),
        assignment_text(a, method) == assignment_text(b, other),
        method_trait_fn_text(method) == method_trait_fn_text(other),
        method_impl_fn_text(method) == method_impl_fn_text(other),
        method_redirect_text(method) == method_redirect_text(other),
        method_c_symbol_text(a, prefix, method) == method_c_symbol_text(b, prefix, other),
{
    lemma_fields_read_alike(method.fn_def.sig.args@, other.fn_def.sig.args@);
}

/// The code for a class depends on the texts of its name, its parent, its first private struct,
/// its initializer and its methods: on nothing else in the declaration.
pub proof fn law_what_a_class_depends_on(a: Class, b: Class)
    requires
        a.name@ == b.name@,
        parent_instance_text(a) == parent_instance_text(b),
        private_structs_read_alike(private_struct(a), private_struct(b)),
        init_text(a) == init_text(b),
        class_methods(a).len() == class_methods(b).len(),
        forall|i: int|
            0 <= i < class_methods(a).len() ==> methods_read_alike(
                #[trigger] class_methods(a)[i],
                class_methods(b)[i],
            ),
    ensures
        class_text(a) == class_text(b),
{
    reveal(class_text);
    lemma_fields_read_alike(private_struct(a).fields@, private_struct(b).fields@);
    let prefix = lower_cased_first(a.name@);
    let (ms, os) = (class_methods(a), class_methods(b));
    assert forall|i: int| 0 <= i < ms.len() implies {
        &&& slot_text(a, #[trigger] ms[i]) == slot_text(b, os[i])
        &&& assignment_text(a, ms[i]) == assignment_text(b, os[i])
        &&& method_trait_fn_text(ms[i]) == method_trait_fn_text(os[i])
        &&& method_impl_fn_text(ms[i]) == method_impl_fn_text(os[i])
        &&& method_redirect_text(ms[i]) == method_redirect_text(os[i])
        &&& method_c_symbol_text(a, prefix, ms[i]) == method_c_symbol_text(b, prefix, os[i])
    } by {
        lemma_methods_read_alike(a, b, prefix, ms[i], os[i]);
    }
    assert(ms.map_values(|m: Method| slot_text(a, m)) =~= os.map_values(
        |m: Method| slot_text(b, m),
    ));
    assert(ms.map_values(|m: Method| assignment_text(a, m)) =~= os.map_values(
        |m: Method| assignment_text(b, m),
    ));
    assert(ms.map_values(|m: Method| method_trait_fn_text(m)) =~= os.map_values(
        |m: Method| method_trait_fn_text(m),
    ));
    assert(ms.map_values(|m: Method| method_impl_fn_text(m)) =~= os.map_values(
        |m: Method| method_impl_fn_text(m),
    ));
    assert(ms.map_values(|m: Method| method_redirect_text(m)) =~= os.map_values(
        |m: Method| method_redirect_text(m),
    ));
    assert(ms.map_values(|m: Method| method_c_symbol_text(a, prefix, m)) =~= os.map_values(
        |m: Method| method_c_symbol_text(b, prefix, m),
    ));
}

/// A private struct after the first one is ignored.
pub proof fn law_later_private_struct_is_ignored(class: Class, more: Class, private: PrivateStruct)
    requires
        has_private_struct(class),
        more.name@ == class.name@,
        parent_instance_text(more) == parent_instance_text(class),
        more.members@ == class.members@.push(Member::PrivateStruct(private)),
    ensures
        has_private_struct(more),
        class_text(more) == class_text(class),
{
    assert(more.members@.drop_last() =~= class.members@);
    law_what_a_class_depends_on(more, class);
}

/// An initializer after the first one is ignored.
pub proof fn law_later_initializer_is_ignored(class: Class, more: Class, code: OpaqueTokens)
    requires
        has_private_struct(class),
        inits(class.members@).len() > 0,
        more.name@ == class.name@,
        parent_instance_text(more) == parent_instance_text(class),
        more.members@ == class.members@.push(Member::Init(code)),
    ensures
        has_private_struct(more),
        class_text(more) == class_text(class),
{
    assert(more.members@.drop_last() =~= class.members@);
    law_what_a_class_depends_on(more, class);
}

/// A class that extends nothing is generated like one that extends `GObject`.
pub proof fn law_no_parent_is_gobject(class: Class, explicit: Class, parent: Identifier)
    requires
        class.extends is None,
        parent@ == gobject_text(),
        explicit.extends == Some(parent),
        explicit.name@ == class.name@,
        explicit.members@ == class.members@,
    ensures
        class_text(explicit) == class_text(class),
{
    law_what_a_class_depends_on(explicit, class);
}

/// Different methods of a class have different C symbols, and none but a method that is called
/// `get_type` has the symbol of the function that returns the type.
pub proof fn law_c_symbols_are_distinct(prefix: Seq<char>, a: Seq<char>, b: Seq<char>)
    ensures
        a != b ==> c_symbol_name(prefix, a) != c_symbol_name(prefix, b),
        c_symbol_name(prefix, a) == get_type_symbol_name(prefix) <==> a == "get_type"@,
{
    let start = prefix + "_"@;
    assert(c_symbol_name(prefix, a).skip(start.len() as int) =~= a);
    assert(c_symbol_name(prefix, b).skip(start.len() as int) =~= b);
    reveal_strlit("_");
    reveal_strlit("get_type");
    reveal_strlit("_get_type");
    assert("_get_type"@ =~= "_"@ + "get_type"@);
    assert(get_type_symbol_name(prefix) =~= c_symbol_name(prefix, "get_type"@));
    assert(get_type_symbol_name(prefix).skip(start.len() as int) =~= "get_type"@);
}

/// Classes with different names have different class structs and different traits.
pub proof fn law_class_names_are_distinct(a: Class, b: Class)
    requires
        a.name@ != b.name@,
    ensures
        class_struct_name(a) != class_struct_name(b),
        methods_trait_name(a) != methods_trait_name(b),
{
    let (suffix, start) = ("Class"@.len(), "__MethodsFrom"@.len() as int);
    assert(class_struct_name(a).take(class_struct_name(a).len() - suffix) =~= a.name@);
    assert(class_struct_name(b).take(class_struct_name(b).len() - suffix) =~= b.name@);
    assert(methods_trait_name(a).skip(start) =~= a.name@);
    assert(methods_trait_name(b).skip(start) =~= b.name@);
}

/// The literal for a legal identifier needs no escape: its only quotes are the two around it, its
/// only backslash is the one of the nul at its end, and between them stands the name.
pub proof fn law_byte_string_needs_no_escape(name: Seq<char>)
    requires
        !name.contains('"'),
        !name.contains('\\'),
    ensures
        ({
            let text = byte_string_text(name);
            &&& text.len() == name.len() + 5
            &&& text.subrange(2, 2 + name.len() as int) == name
            &&& forall|i: int|
                0 <= i < text.len() ==> ((#[trigger] text[i] == '"') <==> i == 1 || i == text.len()
                    - 1)
            &&& forall|i: int|
                0 <= i < text.len() ==> ((#[trigger] text[i] == '\\') <==> i == text.len() - 3)
        }),
{
    reveal_strlit("b\"");
    reveal_strlit("\\0\"");
    let text = byte_string_text(name);
    assert(text.subrange(2, 2 + name.len() as int) =~= name);
    assert forall|i: int| 2 <= i < name.len() + 2 implies #[trigger] text[i] != '"' && text[i]
        != '\\' by {
        assert(name[i - 2] == text[i]);
        assert(name.contains(name[i - 2]));
    }
}

} // verus!

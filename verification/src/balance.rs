//! Generated code closes every parenthesis, bracket and brace that it opens.

use crate::ast::Class;
use crate::ast::Field;
use crate::ast::FnSig;
use crate::ast::Member;
use crate::ast::Method;
use crate::ast::OpaqueTokens;
use crate::ast::PrivateStruct;
use crate::ast::Program;
use crate::ast::Type;
use crate::class::ClassContext;
use crate::emit::arg_names_text;
use crate::emit::field_list_text;
use crate::emit::field_text;
use crate::emit::method_ty_text;
use crate::emit::return_ty_text;
use crate::emit::type_text;
use crate::emit::type_texts;
use crate::letters::lower_cased_first;
use crate::nesting::after_rest;
use crate::nesting::after_rest_in_strides;
use crate::nesting::after_text;
use crate::nesting::holds_no_delimiter;
use crate::nesting::in_braces;
use crate::nesting::in_parens;
use crate::nesting::is_balanced;
use crate::nesting::is_plain;
use crate::nesting::lemma_after_beside;
use crate::nesting::lemma_after_text;
use crate::nesting::lemma_balanced_add;
use crate::nesting::lemma_balanced_separated;
use crate::nesting::lemma_balanced_spaced;
use crate::nesting::lemma_plain_is_balanced;
use crate::nesting::Nesting;
use crate::template::always_impl_text;
use crate::template::as_init;
use crate::template::as_method;
use crate::template::as_private_struct;
use crate::template::assignment_text;
use crate::template::c_symbol_name;
use crate::template::c_symbols_text;
use crate::template::class_init_text;
use crate::template::class_methods;
use crate::template::class_struct_name;
use crate::template::class_text;
use crate::template::classes_text;
use crate::template::finalize_text;
use crate::template::get_type_fn_text;
use crate::template::get_type_head_text;
use crate::template::get_type_symbol_name;
use crate::template::get_type_tail_text;
use crate::template::gobject_text;
use crate::template::has_private_struct;
use crate::template::impls_text;
use crate::template::init_text;
use crate::template::inits;
use crate::template::instance_init_text;
use crate::template::method_c_symbol_text;
use crate::template::method_head_text;
use crate::template::method_impl_fn_text;
use crate::template::method_redirect_text;
use crate::template::method_redirects_text;
use crate::template::method_trait_fn_text;
use crate::template::methods_among;
use crate::template::methods_declared_text;
use crate::template::methods_trait_name;
use crate::template::parent_class_text;
use crate::template::parent_instance_text;
use crate::template::private_struct;
use crate::template::private_structs;
use crate::template::register_text;
use crate::template::slot_text;
use crate::template::type_decls_text;
use crate::tokens::Beside;
use vstd::prelude::*;

verus! {

/// Whether every name in a type is balanced.
pub open spec fn type_is_balanced(ty: Type) -> bool
    decreases ty,
{
    match ty {
        Type::Name(id) => is_balanced(id@),
        Type::Args(id, tys) => {
            &&& is_balanced(id@)
            &&& forall|i: int| 0 <= i < tys@.len() ==> type_is_balanced(#[trigger] tys@[i])
        },
        Type::Array(ty) => type_is_balanced(*ty),
        Type::Sum(tys) => forall|i: int|
            0 <= i < tys@.len() ==> type_is_balanced(#[trigger] tys@[i]),
    }
}

/// Whether a name and every name in its type are balanced.
pub open spec fn field_is_balanced(field: Field) -> bool {
    is_balanced(field.name@) && type_is_balanced(field.ty)
}

/// Whether every name in a list of fields is balanced.
pub open spec fn fields_are_balanced(fields: Seq<Field>) -> bool {
    forall|i: int| 0 <= i < fields.len() ==> field_is_balanced(#[trigger] fields[i])
}

/// Whether every name in a signature is balanced.
pub open spec fn sig_is_balanced(sig: FnSig) -> bool {
    &&& fields_are_balanced(sig.args@)
    &&& match sig.return_ty {
        Some(ty) => type_is_balanced(ty),
        None => true,
    }
}

/// Whether every name in a member, and its code, is balanced.
pub open spec fn member_is_balanced(member: Member) -> bool {
    match member {
        Member::PrivateStruct(private) => private_struct_is_balanced(private),
        Member::Method(method) => method_is_balanced(method),
        Member::Init(code) => is_balanced(code@),
    }
}

/// Whether every name in a private struct is balanced.
pub open spec fn private_struct_is_balanced(private: PrivateStruct) -> bool {
    is_balanced(private.name@) && fields_are_balanced(private.fields@)
}

/// Whether every name in a method, and its body, is balanced.
pub open spec fn method_is_balanced(method: Method) -> bool {
    &&& is_balanced(method.name@)
    &&& sig_is_balanced(method.fn_def.sig)
    &&& is_balanced(method.fn_def.code@)
}

/// Whether every name and every piece of code in a class declaration is balanced.
pub open spec fn declaration_is_balanced(class: Class) -> bool {
    &&& is_balanced(class.name@)
    &&& match class.extends {
        Some(parent) => is_balanced(parent@),
        None => true,
    }
    &&& forall|i: int|
        0 <= i < class.members@.len() ==> member_is_balanced(#[trigger] class.members@[i])
}

/// A comma opens and closes nothing.
proof fn lemma_comma()
    ensures
        is_balanced(","@),
{
    reveal_strlit(",");
    reveal(after_text);
    reveal_with_fuel(after_rest, 2);
}

proof fn lemma_type(ty: Type)
    requires
        type_is_balanced(ty),
    ensures
        is_balanced(type_text(ty)),
    decreases ty,
{
    broadcast use lemma_after_beside;

    match ty {
        Type::Name(_) => {},
        Type::Args(_, tys) => {
            lemma_types(tys@);
            lemma_comma();
            lemma_balanced_separated(type_texts(tys@), ","@);
            reveal_strlit("<");
            reveal_strlit(">");
            reveal(after_text);
            reveal_with_fuel(after_rest, 2);
        },
        Type::Array(ty) => {
            lemma_type(*ty);
            reveal_strlit("[");
            reveal_strlit("]");
            reveal(after_text);
            reveal_with_fuel(after_rest, 2);
        },
        Type::Sum(tys) => {
            lemma_types(tys@);
            assert forall|n: Nesting| #[trigger] after_text(n, "+"@) == Some(n) by {
                reveal_strlit("+");
                reveal(after_text);
                reveal_with_fuel(after_rest, 2);
            }
            lemma_balanced_separated(type_texts(tys@), "+"@);
        },
    }
}

proof fn lemma_types(tys: Seq<Type>)
    requires
        forall|i: int| 0 <= i < tys.len() ==> type_is_balanced(#[trigger] tys[i]),
    ensures
        forall|i: int|
            0 <= i < type_texts(tys).len() ==> is_balanced(#[trigger] type_texts(tys)[i]),
    decreases tys,
{
    if tys.len() > 0 {
        let shorter = type_texts(tys.drop_last());
        lemma_types(tys.drop_last());
        lemma_type(tys.last());
        assert forall|i: int| 0 <= i < type_texts(tys).len() implies is_balanced(
            #[trigger] type_texts(tys)[i],
        ) by {
            if i < shorter.len() {
                assert(type_texts(tys)[i] == shorter[i]);
            }
        }
    }
}

proof fn lemma_field_list(fields: Seq<Field>)
    requires
        fields_are_balanced(fields),
    ensures
        is_balanced(field_list_text(fields)),
{
    broadcast use lemma_after_beside;

    let pieces = fields.map_values(|field: Field| field_text(field));
    assert forall|i: int| 0 <= i < pieces.len() implies is_balanced(#[trigger] pieces[i]) by {
        lemma_type(fields[i].ty);
        reveal_strlit(":");
        reveal(after_text);
        reveal_with_fuel(after_rest, 2);
    }
    lemma_comma();
    lemma_balanced_separated(pieces, ","@);
}

proof fn lemma_sig(sig: FnSig)
    requires
        sig_is_balanced(sig),
    ensures
        is_balanced(field_list_text(sig.args@)),
        is_balanced(arg_names_text(sig.args@)),
        is_balanced(return_ty_text(sig)),
{
    broadcast use lemma_after_beside;

    lemma_field_list(sig.args@);
    let names = sig.args@.map_values(|arg: Field| arg.name@);
    assert forall|i: int| 0 <= i < names.len() implies is_balanced(#[trigger] names[i]) by {
        assert(field_is_balanced(sig.args@[i]));
    }
    lemma_comma();
    lemma_balanced_separated(names, ","@);
    reveal(after_text);
    if let Some(ty) = sig.return_ty {
        lemma_type(ty);
        reveal_strlit(" -> ");
        reveal_with_fuel(after_rest, 5);
    }
}

proof fn lemma_method_ty(class_name: Seq<char>, sig: FnSig)
    requires
        is_balanced(class_name),
        sig_is_balanced(sig),
    ensures
        is_balanced(method_ty_text(class_name, sig)),
{
    broadcast use lemma_after_beside;

    lemma_sig(sig);
    assert forall|n: Nesting| #[trigger] after_text(n, ", "@) == Some(n) by {
        reveal_strlit(", ");
        reveal(after_text);
        reveal_with_fuel(after_rest, 3);
    }
    let types = sig.args@.map_values(|arg: Field| type_text(arg.ty).beside(", "@));
    assert forall|i: int| 0 <= i < types.len() implies is_balanced(#[trigger] types[i]) by {
        assert(field_is_balanced(sig.args@[i]));
        lemma_type(sig.args@[i].ty);
    }
    lemma_balanced_spaced(types);
    assert forall|n: Nesting| #[trigger]
        after_text(n, method_ty_text(class_name, sig)) == Some(n) by {
        assert(after_text(n, "extern fn("@) == Some(in_parens(n))) by {
            reveal_strlit("extern fn(");
            lemma_after_text(n, "extern fn("@);
            reveal_with_fuel(after_rest_in_strides, 3);
            reveal_with_fuel(after_rest, 9);
        }
        assert(after_text(in_parens(n), "&"@) == Some(in_parens(n))) by {
            reveal_strlit("&");
            reveal(after_text);
            reveal_with_fuel(after_rest, 2);
        }
        assert(after_text(in_parens(n), ")"@) == Some(n)) by {
            reveal_strlit(")");
            reveal(after_text);
            reveal_with_fuel(after_rest, 2);
        }
    }
}

/// What `f` finds in a sequence has every property that each find has.
proof fn lemma_filter_map_all<A, B>(
    items: Seq<A>,
    f: spec_fn(A) -> Option<B>,
    property: spec_fn(B) -> bool,
)
    requires
        forall|i: int| 0 <= i < items.len() ==> match f(#[trigger] items[i]) {
            Some(found) => property(found),
            None => true,
        },
    ensures
        forall|i: int|
            0 <= i < items.filter_map(f).len() ==> property(#[trigger] items.filter_map(f)[i]),
    decreases items.len(),
{
    if items.len() > 0 {
        let shorter = items.drop_last().filter_map(f);
        lemma_filter_map_all(items.drop_last(), f, property);
        assert forall|i: int| 0 <= i < items.filter_map(f).len() implies property(
            #[trigger] items.filter_map(f)[i],
        ) by {
            if i < shorter.len() {
                assert(items.filter_map(f)[i] == shorter[i]);
            } else {
                assert(f(items[items.len() - 1]) == Some(items.filter_map(f)[i]));
            }
        }
    }
}

/// The methods, private structs and initializers of a balanced declaration are balanced.
proof fn lemma_members(members: Seq<Member>)
    requires
        forall|i: int| 0 <= i < members.len() ==> member_is_balanced(#[trigger] members[i]),
    ensures
        forall|i: int|
            0 <= i < methods_among(members).len() ==> method_is_balanced(
                #[trigger] methods_among(members)[i],
            ),
        forall|i: int|
            0 <= i < private_structs(members).len() ==> private_struct_is_balanced(
                #[trigger] private_structs(members)[i],
            ),
        forall|i: int|
            0 <= i < inits(members).len() ==> is_balanced((#[trigger] inits(members)[i])@),
{
    let method = |m: Method| method_is_balanced(m);
    let private = |p: PrivateStruct| private_struct_is_balanced(p);
    let init = |code: OpaqueTokens| is_balanced(code@);
    lemma_filter_map_all(members, |member: Member| as_method(member), method);
    lemma_filter_map_all(members, |member: Member| as_private_struct(member), private);
    lemma_filter_map_all(members, |member: Member| as_init(member), init);
    assert forall|i: int| 0 <= i < methods_among(members).len() implies method_is_balanced(
        #[trigger] methods_among(members)[i],
    ) by {
        assert(method(methods_among(members)[i]));
    }
    assert forall|i: int|
        0 <= i < private_structs(members).len() implies private_struct_is_balanced(
        #[trigger] private_structs(members)[i],
    ) by {
        assert(private(private_structs(members)[i]));
    }
    assert forall|i: int| 0 <= i < inits(members).len() implies is_balanced(
        (#[trigger] inits(members)[i])@,
    ) by {
        assert(init(inits(members)[i]));
    }
}

// What is open after each fixed piece of a template, in a lemma `.._pieces` of its own: there the
// characters of the pieces are all that is in sight.

#[verifier::spinoff_prover]
proof fn lemma_parent_class_pieces(n: Nesting)
    ensures
        after_text(n, "<"@) == Some(n),
        after_text(n, "as :: gnome_class_shims :: GInstance > :: Class"@) == Some(n),
{
    reveal_strlit("<");
    lemma_after_text(n, "<"@);
    reveal_strlit("as :: gnome_class_shims :: GInstance > :: Class");
    lemma_after_text(n, "as :: gnome_class_shims :: GInstance > :: Class"@);
    reveal_with_fuel(after_rest_in_strides, 7);
    reveal_with_fuel(after_rest, 9);
}

/// The names that are made for a class are balanced.
proof fn lemma_names(class: Class)
    requires
        declaration_is_balanced(class),
    ensures
        is_balanced(class_struct_name(class)),
        is_balanced(methods_trait_name(class)),
        is_balanced(parent_instance_text(class)),
        is_balanced(parent_class_text(class)),
{
    broadcast use lemma_after_beside;

    assert forall|n: Nesting| #[trigger] after_text(n, "Class"@) == Some(n) by {
        reveal_strlit("Class");
        reveal(after_text);
        reveal_with_fuel(after_rest, 6);
    }
    lemma_balanced_add(class.name@, "Class"@);
    assert forall|n: Nesting| #[trigger] after_text(n, "__MethodsFrom"@) == Some(n) by {
        reveal_strlit("__MethodsFrom");
        lemma_after_text(n, "__MethodsFrom"@);
        reveal_with_fuel(after_rest_in_strides, 3);
        reveal_with_fuel(after_rest, 9);
    }
    lemma_balanced_add("__MethodsFrom"@, class.name@);
    assert forall|n: Nesting| #[trigger] after_text(n, gobject_text()) == Some(n) by {
        reveal_strlit(":: gnome_class_shims :: gobject_sys :: GObject");
        lemma_after_text(n, gobject_text());
        reveal_with_fuel(after_rest_in_strides, 7);
        reveal_with_fuel(after_rest, 9);
    }
    assert(is_balanced(parent_instance_text(class)));
    assert forall|n: Nesting| #[trigger] after_text(n, parent_class_text(class)) == Some(n) by {
        lemma_parent_class_pieces(n);
    }
}

/// The private struct of a class and the body of its initializer are balanced.
proof fn lemma_private(class: Class)
    requires
        declaration_is_balanced(class),
        has_private_struct(class),
    ensures
        is_balanced(private_struct(class).name@),
        is_balanced(field_list_text(private_struct(class).fields@)),
        is_balanced(init_text(class)),
{
    broadcast use lemma_after_beside;

    lemma_members(class.members@);
    assert(private_struct_is_balanced(private_structs(class.members@)[0]));
    lemma_field_list(private_struct(class).fields@);
    assert forall|n: Nesting| #[trigger] after_text(n, ":: default ( )"@) == Some(n) by {
        reveal_strlit(":: default ( )");
        lemma_after_text(n, ":: default ( )"@);
        reveal_with_fuel(after_rest_in_strides, 3);
        reveal_with_fuel(after_rest, 9);
    }
    if inits(class.members@).len() > 0 {
        assert(is_balanced(inits(class.members@)[0]@));
    }
}

proof fn lemma_slot(class: Class, method: Method)
    requires
        is_balanced(class.name@),
        method_is_balanced(method),
    ensures
        is_balanced(slot_text(class, method)),
{
    broadcast use lemma_after_beside;

    lemma_method_ty(class.name@, method.fn_def.sig);
    assert forall|n: Nesting| #[trigger] after_text(n, slot_text(class, method)) == Some(n) by {
        assert(after_text(n, ": Option <"@) == Some(n)) by {
            reveal_strlit(": Option <");
            lemma_after_text(n, ": Option <"@);
            reveal_with_fuel(after_rest_in_strides, 3);
            reveal_with_fuel(after_rest, 9);
        }
        assert(after_text(n, "> ,"@) == Some(n)) by {
            reveal_strlit("> ,");
            reveal(after_text);
            reveal_with_fuel(after_rest, 4);
        }
    }
}

#[verifier::spinoff_prover]
proof fn lemma_type_decls_pieces(n: Nesting)
    ensures
        after_text(n, "# [ repr ( C ) ] pub struct"@) == Some(n),
        after_text(n, "{ parent :"@) == Some(in_braces(n)),
        after_text(in_braces(n), ", } struct"@) == Some(n),
        after_text(n, "{"@) == Some(in_braces(n)),
        after_text(in_braces(n), "} impl"@) == Some(n),
        after_text(n, "{ pub fn new ( ) -> Self"@) == Some(in_braces(n)),
        after_text(in_braces(n), "} # [ repr ( C ) ] pub struct"@) == Some(n),
        after_text(n, "{ parent_class :"@) == Some(in_braces(n)),
        after_text(in_braces(n), ","@) == Some(in_braces(n)),
        after_text(in_braces(n), "}"@) == Some(n),
{
    reveal_strlit("# [ repr ( C ) ] pub struct");
    lemma_after_text(n, "# [ repr ( C ) ] pub struct"@);
    reveal_strlit("{ parent :");
    lemma_after_text(n, "{ parent :"@);
    reveal_strlit(", } struct");
    lemma_after_text(in_braces(n), ", } struct"@);
    reveal_strlit("{");
    lemma_after_text(n, "{"@);
    reveal_strlit("} impl");
    lemma_after_text(in_braces(n), "} impl"@);
    reveal_strlit("{ pub fn new ( ) -> Self");
    lemma_after_text(n, "{ pub fn new ( ) -> Self"@);
    reveal_strlit("} # [ repr ( C ) ] pub struct");
    lemma_after_text(in_braces(n), "} # [ repr ( C ) ] pub struct"@);
    reveal_strlit("{ parent_class :");
    lemma_after_text(n, "{ parent_class :"@);
    reveal_strlit(",");
    lemma_after_text(in_braces(n), ","@);
    reveal_strlit("}");
    lemma_after_text(in_braces(n), "}"@);
    reveal_with_fuel(after_rest_in_strides, 5);
    reveal_with_fuel(after_rest, 9);
}

/// The structs of a class are balanced.
pub proof fn law_type_decls_balanced(class: Class)
    requires
        declaration_is_balanced(class),
        has_private_struct(class),
    ensures
        is_balanced(type_decls_text(class)),
{
    broadcast use lemma_after_beside;

    lemma_names(class);
    lemma_private(class);
    lemma_members(class.members@);
    let slots = class_methods(class).map_values(|m: Method| slot_text(class, m));
    assert forall|i: int| 0 <= i < slots.len() implies is_balanced(#[trigger] slots[i]) by {
        lemma_slot(class, class_methods(class)[i]);
    }
    lemma_balanced_spaced(slots);
    assert forall|n: Nesting| #[trigger] after_text(n, type_decls_text(class)) == Some(n) by {
        lemma_type_decls_pieces(n);
    }
}

#[verifier::spinoff_prover]
proof fn lemma_instance_init_pieces(n: Nesting)
    ensures
        after_text(
            n,
            "extern fn instance_init ( this : * mut GTypeInstance , _klass : gpointer ) {"@,
        ) == Some(in_braces(n)),
        after_text(
            in_braces(n),
            "unsafe { let private = gobject_sys :: g_type_instance_get_private ( this ,"@,
        ) == Some(in_parens(in_braces(in_braces(n)))),
        after_text(
            in_parens(in_braces(in_braces(n))),
            ":: get_type ( ) ) ; let private = private as * mut"@,
        ) == Some(in_braces(in_braces(n))),
        after_text(
            in_braces(in_braces(n)),
            "; ptr :: write ( private ,"@,
        ) == Some(in_parens(in_braces(in_braces(n)))),
        after_text(in_parens(in_braces(in_braces(n))), ":: new ( ) ) ; } }"@) == Some(n),
{
    reveal_strlit("extern fn instance_init ( this : * mut GTypeInstance , _klass : gpointer ) {");
    lemma_after_text(
        n,
        "extern fn instance_init ( this : * mut GTypeInstance , _klass : gpointer ) {"@,
    );
    reveal_strlit("unsafe { let private = gobject_sys :: g_type_instance_get_private ( this ,");
    lemma_after_text(
        in_braces(n),
        "unsafe { let private = gobject_sys :: g_type_instance_get_private ( this ,"@,
    );
    reveal_strlit(":: get_type ( ) ) ; let private = private as * mut");
    lemma_after_text(
        in_parens(in_braces(in_braces(n))),
        ":: get_type ( ) ) ; let private = private as * mut"@,
    );
    reveal_strlit("; ptr :: write ( private ,");
    lemma_after_text(in_braces(in_braces(n)), "; ptr :: write ( private ,"@);
    reveal_strlit(":: new ( ) ) ; } }");
    lemma_after_text(in_parens(in_braces(in_braces(n))), ":: new ( ) ) ; } }"@);
    reveal_with_fuel(after_rest_in_strides, 11);
    reveal_with_fuel(after_rest, 9);
}

proof fn lemma_instance_init(class: Class)
    requires
        declaration_is_balanced(class),
        has_private_struct(class),
    ensures
        is_balanced(instance_init_text(class)),
{
    broadcast use lemma_after_beside;

    lemma_private(class);
    assert forall|n: Nesting| #[trigger] after_text(n, instance_init_text(class)) == Some(n) by {
        lemma_instance_init_pieces(n);
    }
}

#[verifier::spinoff_prover]
proof fn lemma_finalize_pieces(n: Nesting)
    ensures
        after_text(
            n,
            "extern fn finalize ( this : * mut GObject ) { let this = this as * mut"@,
        ) == Some(in_braces(n)),
        after_text(
            in_braces(n),
            "; unsafe { ptr :: read ( ( * this ) . private ( ) ) ;"@,
        ) == Some(in_braces(in_braces(n))),
        after_text(
            in_braces(in_braces(n)),
            "let object_class = shims :: get_class ( & * this ) ;"@,
        ) == Some(in_braces(in_braces(n))),
        after_text(
            in_braces(in_braces(n)),
            "let parent_class = shims :: get_parent_class ( object_class ) ;"@,
        ) == Some(in_braces(in_braces(n))),
        after_text(
            in_braces(in_braces(n)),
            "if let Some ( f ) = parent_class . finalize {"@,
        ) == Some(in_braces(in_braces(in_braces(n)))),
        after_text(
            in_braces(in_braces(in_braces(n))),
            "f ( this as * mut GObject ) ; } } }"@,
        ) == Some(n),
{
    reveal_strlit("extern fn finalize ( this : * mut GObject ) { let this = this as * mut");
    lemma_after_text(n, "extern fn finalize ( this : * mut GObject ) { let this = this as * mut"@);
    reveal_strlit("; unsafe { ptr :: read ( ( * this ) . private ( ) ) ;");
    lemma_after_text(in_braces(n), "; unsafe { ptr :: read ( ( * this ) . private ( ) ) ;"@);
    reveal_strlit("let object_class = shims :: get_class ( & * this ) ;");
    lemma_after_text(
        in_braces(in_braces(n)),
        "let object_class = shims :: get_class ( & * this ) ;"@,
    );
    reveal_strlit("let parent_class = shims :: get_parent_class ( object_class ) ;");
    lemma_after_text(
        in_braces(in_braces(n)),
        "let parent_class = shims :: get_parent_class ( object_class ) ;"@,
    );
    reveal_strlit("if let Some ( f ) = parent_class . finalize {");
    lemma_after_text(in_braces(in_braces(n)), "if let Some ( f ) = parent_class . finalize {"@);
    reveal_strlit("f ( this as * mut GObject ) ; } } }");
    lemma_after_text(in_braces(in_braces(in_braces(n))), "f ( this as * mut GObject ) ; } } }"@);
    reveal_with_fuel(after_rest_in_strides, 10);
    reveal_with_fuel(after_rest, 9);
}

proof fn lemma_finalize(class: Class)
    requires
        declaration_is_balanced(class),
    ensures
        is_balanced(finalize_text(class)),
{
    broadcast use lemma_after_beside;

    assert forall|n: Nesting| #[trigger] after_text(n, finalize_text(class)) == Some(n) by {
        lemma_finalize_pieces(n);
    }
}

#[verifier::spinoff_prover]
proof fn lemma_assignment_pieces(n: Nesting)
    ensures
        after_text(n, "klass ."@) == Some(n),
        after_text(n, "= Some ( <"@) == Some(in_parens(n)),
        after_text(in_parens(n), "as"@) == Some(in_parens(n)),
        after_text(in_parens(n), "> ::"@) == Some(in_parens(n)),
        after_text(in_parens(n), ") ;"@) == Some(n),
{
    reveal_strlit("klass .");
    lemma_after_text(n, "klass ."@);
    reveal_strlit("= Some ( <");
    lemma_after_text(n, "= Some ( <"@);
    reveal_strlit("as");
    lemma_after_text(in_parens(n), "as"@);
    reveal_strlit("> ::");
    lemma_after_text(in_parens(n), "> ::"@);
    reveal_strlit(") ;");
    lemma_after_text(in_parens(n), ") ;"@);
    reveal_with_fuel(after_rest_in_strides, 3);
    reveal_with_fuel(after_rest, 9);
}

proof fn lemma_assignment(class: Class, method: Method)
    requires
        declaration_is_balanced(class),
        method_is_balanced(method),
    ensures
        is_balanced(assignment_text(class, method)),
{
    broadcast use lemma_after_beside;

    lemma_names(class);
    assert forall|n: Nesting| #[trigger]
        after_text(n, assignment_text(class, method)) == Some(n) by {
        lemma_assignment_pieces(n);
    }
}

#[verifier::spinoff_prover]
proof fn lemma_class_init_pieces(n: Nesting)
    ensures
        after_text(
            n,
            "extern fn class_init ( klass : gpointer , _klass_data : gpointer ) {"@,
        ) == Some(in_braces(n)),
        after_text(
            in_braces(n),
            "unsafe { let g_object_class = klass as * mut GObjectClass ;"@,
        ) == Some(in_braces(in_braces(n))),
        after_text(
            in_braces(in_braces(n)),
            "( * g_object_class ) . finalize = Some ( finalize ) ;"@,
        ) == Some(in_braces(in_braces(n))),
        after_text(
            in_braces(in_braces(n)),
            "gobject_sys :: g_type_class_add_private ( klass , mem :: size_of :: <"@,
        ) == Some(in_parens(in_braces(in_braces(n)))),
        after_text(
            in_parens(in_braces(in_braces(n))),
            "> ( ) ) ; let klass = klass as * mut"@,
        ) == Some(in_braces(in_braces(n))),
        after_text(
            in_braces(in_braces(n)),
            "; let klass : & mut"@,
        ) == Some(in_braces(in_braces(n))),
        after_text(in_braces(in_braces(n)), "= & mut * klass ;"@) == Some(in_braces(in_braces(n))),
        after_text(in_braces(in_braces(n)), "} }"@) == Some(n),
{
    reveal_strlit("extern fn class_init ( klass : gpointer , _klass_data : gpointer ) {");
    lemma_after_text(n, "extern fn class_init ( klass : gpointer , _klass_data : gpointer ) {"@);
    reveal_strlit("unsafe { let g_object_class = klass as * mut GObjectClass ;");
    lemma_after_text(in_braces(n), "unsafe { let g_object_class = klass as * mut GObjectClass ;"@);
    reveal_strlit("( * g_object_class ) . finalize = Some ( finalize ) ;");
    lemma_after_text(
        in_braces(in_braces(n)),
        "( * g_object_class ) . finalize = Some ( finalize ) ;"@,
    );
    reveal_strlit("gobject_sys :: g_type_class_add_private ( klass , mem :: size_of :: <");
    lemma_after_text(
        in_braces(in_braces(n)),
        "gobject_sys :: g_type_class_add_private ( klass , mem :: size_of :: <"@,
    );
    reveal_strlit("> ( ) ) ; let klass = klass as * mut");
    lemma_after_text(in_parens(in_braces(in_braces(n))), "> ( ) ) ; let klass = klass as * mut"@);
    reveal_strlit("; let klass : & mut");
    lemma_after_text(in_braces(in_braces(n)), "; let klass : & mut"@);
    reveal_strlit("= & mut * klass ;");
    lemma_after_text(in_braces(in_braces(n)), "= & mut * klass ;"@);
    reveal_strlit("} }");
    lemma_after_text(in_braces(in_braces(n)), "} }"@);
    reveal_with_fuel(after_rest_in_strides, 10);
    reveal_with_fuel(after_rest, 9);
}

proof fn lemma_class_init(class: Class)
    requires
        declaration_is_balanced(class),
        has_private_struct(class),
    ensures
        is_balanced(class_init_text(class)),
{
    broadcast use lemma_after_beside;

    lemma_names(class);
    lemma_private(class);
    lemma_members(class.members@);
    let assignments = class_methods(class).map_values(|m: Method| assignment_text(class, m));
    assert forall|i: int| 0 <= i < assignments.len() implies is_balanced(
        #[trigger] assignments[i],
    ) by {
        lemma_assignment(class, class_methods(class)[i]);
    }
    lemma_balanced_spaced(assignments);
    assert forall|n: Nesting| #[trigger] after_text(n, class_init_text(class)) == Some(n) by {
        lemma_class_init_pieces(n);
    }
}

#[verifier::spinoff_prover]
proof fn lemma_register_pieces(n: Nesting)
    ensures
        after_text(
            n,
            "fn register ( ) -> GType { unsafe { gobject_sys :: g_type_register_static_simple ("@,
        ) == Some(in_parens(in_braces(in_braces(n)))),
        after_text(
            in_parens(in_braces(in_braces(n))),
            ":: get_type ( ) ,"@,
        ) == Some(in_parens(in_braces(in_braces(n)))),
        after_text(
            in_parens(in_braces(in_braces(n))),
            "as * const u8 as * const i8 , mem :: size_of :: <"@,
        ) == Some(in_parens(in_braces(in_braces(n)))),
        after_text(
            in_parens(in_braces(in_braces(n))),
            "> ( ) as u32 , Some ( class_init ) , mem :: size_of :: <"@,
        ) == Some(in_parens(in_braces(in_braces(n)))),
        after_text(
            in_parens(in_braces(in_braces(n))),
            "> ( ) as u32 , Some ( instance_init ) , GTypeFlags :: empty ( ) ) } }"@,
        ) == Some(n),
{
    reveal_strlit("fn register ( ) -> GType { unsafe { gobject_sys :: g_type_register_static_simple (");
    lemma_after_text(
        n,
        "fn register ( ) -> GType { unsafe { gobject_sys :: g_type_register_static_simple ("@,
    );
    reveal_strlit(":: get_type ( ) ,");
    lemma_after_text(in_parens(in_braces(in_braces(n))), ":: get_type ( ) ,"@);
    reveal_strlit("as * const u8 as * const i8 , mem :: size_of :: <");
    lemma_after_text(
        in_parens(in_braces(in_braces(n))),
        "as * const u8 as * const i8 , mem :: size_of :: <"@,
    );
    reveal_strlit("> ( ) as u32 , Some ( class_init ) , mem :: size_of :: <");
    lemma_after_text(
        in_parens(in_braces(in_braces(n))),
        "> ( ) as u32 , Some ( class_init ) , mem :: size_of :: <"@,
    );
    reveal_strlit("> ( ) as u32 , Some ( instance_init ) , GTypeFlags :: empty ( ) ) } }");
    lemma_after_text(
        in_parens(in_braces(in_braces(n))),
        "> ( ) as u32 , Some ( instance_init ) , GTypeFlags :: empty ( ) ) } }"@,
    );
    reveal_with_fuel(after_rest_in_strides, 12);
    reveal_with_fuel(after_rest, 9);
}

proof fn lemma_register(class: Class)
    requires
        declaration_is_balanced(class),
    ensures
        is_balanced(register_text(class)),
{
    broadcast use lemma_after_beside;

    lemma_names(class);
    assert forall|n: Nesting| #[trigger] after_text(n, "b\""@) == Some(n) by {
        reveal_strlit("b\"");
        reveal(after_text);
        reveal_with_fuel(after_rest, 3);
    }
    assert forall|n: Nesting| #[trigger] after_text(n, "\\0\""@) == Some(n) by {
        reveal_strlit("\\0\"");
        reveal(after_text);
        reveal_with_fuel(after_rest, 4);
    }
    lemma_balanced_add("b\""@, class.name@);
    lemma_balanced_add("b\""@ + class.name@, "\\0\""@);
    assert forall|n: Nesting| #[trigger] after_text(n, register_text(class)) == Some(n) by {
        lemma_register_pieces(n);
    }
}

#[verifier::spinoff_prover]
proof fn lemma_get_type_pieces(n: Nesting)
    ensures
        after_text(
            n,
            "fn get_type ( ) -> :: gnome_class_shims :: glib_sys :: GType {"@,
        ) == Some(in_braces(n)),
        after_text(in_braces(n), "use gnome_class_shims as shims ;"@) == Some(in_braces(n)),
        after_text(
            in_braces(n),
            "use gnome_class_shims :: gobject_sys :: {"@,
        ) == Some(in_braces(in_braces(n))),
        after_text(
            in_braces(in_braces(n)),
            "self , GObject , GObjectClass , GTypeInstance , GTypeFlags } ;"@,
        ) == Some(in_braces(n)),
        after_text(
            in_braces(n),
            "use gnome_class_shims :: glib_sys :: { GType , gpointer } ;"@,
        ) == Some(in_braces(n)),
        after_text(in_braces(n), "use std :: { mem , ptr } ;"@) == Some(in_braces(n)),
        after_text(
            in_braces(n),
            "lazy_static ! { static ref GTYPE : GType = register ( ) ; } * GTYPE }"@,
        ) == Some(n),
{
    reveal_strlit("fn get_type ( ) -> :: gnome_class_shims :: glib_sys :: GType {");
    lemma_after_text(n, "fn get_type ( ) -> :: gnome_class_shims :: glib_sys :: GType {"@);
    reveal_strlit("use gnome_class_shims as shims ;");
    lemma_after_text(in_braces(n), "use gnome_class_shims as shims ;"@);
    reveal_strlit("use gnome_class_shims :: gobject_sys :: {");
    lemma_after_text(in_braces(n), "use gnome_class_shims :: gobject_sys :: {"@);
    reveal_strlit("self , GObject , GObjectClass , GTypeInstance , GTypeFlags } ;");
    lemma_after_text(
        in_braces(in_braces(n)),
        "self , GObject , GObjectClass , GTypeInstance , GTypeFlags } ;"@,
    );
    reveal_strlit("use gnome_class_shims :: glib_sys :: { GType , gpointer } ;");
    lemma_after_text(in_braces(n), "use gnome_class_shims :: glib_sys :: { GType , gpointer } ;"@);
    reveal_strlit("use std :: { mem , ptr } ;");
    lemma_after_text(in_braces(n), "use std :: { mem , ptr } ;"@);
    reveal_strlit("lazy_static ! { static ref GTYPE : GType = register ( ) ; } * GTYPE }");
    lemma_after_text(
        in_braces(n),
        "lazy_static ! { static ref GTYPE : GType = register ( ) ; } * GTYPE }"@,
    );
    reveal_with_fuel(after_rest_in_strides, 10);
    reveal_with_fuel(after_rest, 9);
}

/// The functions behind `get_type` are hidden in it: its head opens one brace, they are balanced,
/// and its end closes that brace.
pub proof fn law_get_type_hides_its_helpers(class: Class, n: Nesting)
    requires
        declaration_is_balanced(class),
        has_private_struct(class),
    ensures
        after_text(n, get_type_head_text()) == Some(in_braces(n)),
        is_balanced(instance_init_text(class)),
        is_balanced(finalize_text(class)),
        is_balanced(class_init_text(class)),
        is_balanced(register_text(class)),
        after_text(in_braces(n), get_type_tail_text()) == Some(n),
        after_text(n, get_type_fn_text(class)) == Some(n),
{
    broadcast use lemma_after_beside;

    lemma_instance_init(class);
    lemma_finalize(class);
    lemma_class_init(class);
    lemma_register(class);
    lemma_get_type_pieces(n);
}

#[verifier::spinoff_prover]
proof fn lemma_impls_pieces(n: Nesting)
    ensures
        after_text(n, "unsafe impl :: gnome_class_shims :: GInstance for"@) == Some(n),
        after_text(n, "{ type Class ="@) == Some(in_braces(n)),
        after_text(in_braces(n), ";"@) == Some(in_braces(n)),
        after_text(in_braces(n), "} unsafe impl :: gnome_class_shims :: GClass for"@) == Some(n),
        after_text(n, "{ type Instance ="@) == Some(in_braces(n)),
        after_text(
            in_braces(n),
            "; } unsafe impl :: gnome_class_shims :: GSubclass for"@,
        ) == Some(n),
        after_text(n, "{ type ParentClass ="@) == Some(in_braces(n)),
        after_text(in_braces(n), "; }"@) == Some(n),
{
    reveal_strlit("unsafe impl :: gnome_class_shims :: GInstance for");
    lemma_after_text(n, "unsafe impl :: gnome_class_shims :: GInstance for"@);
    reveal_strlit("{ type Class =");
    lemma_after_text(n, "{ type Class ="@);
    reveal_strlit(";");
    lemma_after_text(in_braces(n), ";"@);
    reveal_strlit("} unsafe impl :: gnome_class_shims :: GClass for");
    lemma_after_text(in_braces(n), "} unsafe impl :: gnome_class_shims :: GClass for"@);
    reveal_strlit("{ type Instance =");
    lemma_after_text(n, "{ type Instance ="@);
    reveal_strlit("; } unsafe impl :: gnome_class_shims :: GSubclass for");
    lemma_after_text(in_braces(n), "; } unsafe impl :: gnome_class_shims :: GSubclass for"@);
    reveal_strlit("{ type ParentClass =");
    lemma_after_text(n, "{ type ParentClass ="@);
    reveal_strlit("; }");
    lemma_after_text(in_braces(n), "; }"@);
    reveal_with_fuel(after_rest_in_strides, 8);
    reveal_with_fuel(after_rest, 9);
}

/// The impls of the shim traits are balanced.
pub proof fn law_impls_balanced(class: Class)
    requires
        declaration_is_balanced(class),
        has_private_struct(class),
    ensures
        is_balanced(impls_text(class)),
{
    broadcast use lemma_after_beside;

    lemma_names(class);
    assert(is_balanced(get_type_fn_text(class))) by {
        assert forall|n: Nesting| #[trigger]
            after_text(n, get_type_fn_text(class)) == Some(n) by {
            law_get_type_hides_its_helpers(class, n);
        }
    }
    assert forall|n: Nesting| #[trigger] after_text(n, impls_text(class)) == Some(n) by {
        lemma_impls_pieces(n);
    }
}

#[verifier::spinoff_prover]
proof fn lemma_method_head_pieces(n: Nesting)
    ensures
        after_text(n, "extern fn"@) == Some(n),
        after_text(n, "( & self ,"@) == Some(in_parens(n)),
        after_text(in_parens(n), ")"@) == Some(n),
{
    reveal_strlit("extern fn");
    lemma_after_text(n, "extern fn"@);
    reveal_strlit("( & self ,");
    lemma_after_text(n, "( & self ,"@);
    reveal_strlit(")");
    lemma_after_text(in_parens(n), ")"@);
    reveal_with_fuel(after_rest_in_strides, 3);
    reveal_with_fuel(after_rest, 9);
}

proof fn lemma_method_head(method: Method)
    requires
        method_is_balanced(method),
    ensures
        is_balanced(method_head_text(method)),
{
    broadcast use lemma_after_beside;

    lemma_sig(method.fn_def.sig);
    assert forall|n: Nesting| #[trigger] after_text(n, method_head_text(method)) == Some(n) by {
        lemma_method_head_pieces(n);
    }
}

proof fn lemma_method_fns(method: Method)
    requires
        method_is_balanced(method),
    ensures
        is_balanced(method_trait_fn_text(method)),
        is_balanced(method_impl_fn_text(method)),
{
    broadcast use lemma_after_beside;

    lemma_method_head(method);
    assert forall|n: Nesting| #[trigger] after_text(n, ";"@) == Some(n) by {
        reveal_strlit(";");
        reveal(after_text);
        reveal_with_fuel(after_rest, 2);
    }
}

#[verifier::spinoff_prover]
proof fn lemma_methods_declared_pieces(n: Nesting)
    ensures
        after_text(n, "pub trait"@) == Some(n),
        after_text(n, "{"@) == Some(in_braces(n)),
        after_text(in_braces(n), "} impl"@) == Some(n),
        after_text(n, "for"@) == Some(n),
        after_text(in_braces(n), "}"@) == Some(n),
{
    reveal_strlit("pub trait");
    lemma_after_text(n, "pub trait"@);
    reveal_strlit("{");
    lemma_after_text(n, "{"@);
    reveal_strlit("} impl");
    lemma_after_text(in_braces(n), "} impl"@);
    reveal_strlit("for");
    lemma_after_text(n, "for"@);
    reveal_strlit("}");
    lemma_after_text(in_braces(n), "}"@);
    reveal_with_fuel(after_rest_in_strides, 3);
    reveal_with_fuel(after_rest, 9);
}

/// The trait that declares the methods, and its impl, are balanced.
pub proof fn law_methods_declared_balanced(class: Class)
    requires
        declaration_is_balanced(class),
    ensures
        is_balanced(methods_declared_text(class)),
{
    broadcast use lemma_after_beside;

    lemma_names(class);
    lemma_members(class.members@);
    let declared = class_methods(class).map_values(|m: Method| method_trait_fn_text(m));
    assert forall|i: int| 0 <= i < declared.len() implies is_balanced(#[trigger] declared[i]) by {
        lemma_method_fns(class_methods(class)[i]);
    }
    lemma_balanced_spaced(declared);
    let implemented = class_methods(class).map_values(|m: Method| method_impl_fn_text(m));
    assert forall|i: int| 0 <= i < implemented.len() implies is_balanced(
        #[trigger] implemented[i],
    ) by {
        lemma_method_fns(class_methods(class)[i]);
    }
    lemma_balanced_spaced(implemented);
    assert forall|n: Nesting| #[trigger] after_text(n, methods_declared_text(class)) == Some(n) by {
        lemma_methods_declared_pieces(n);
    }
}

#[verifier::spinoff_prover]
proof fn lemma_always_impl_new_pieces(n: Nesting)
    ensures
        after_text(n, "impl"@) == Some(n),
        after_text(n, "{ pub fn new ( ) -> :: gnome_class_shims :: G <"@) == Some(in_braces(n)),
        after_text(
            in_braces(n),
            "> { use gnome_class_shims :: G ; use gnome_class_shims :: GInstance ;"@,
        ) == Some(in_braces(in_braces(n))),
        after_text(
            in_braces(in_braces(n)),
            "use gnome_class_shims :: gobject_sys :: { self , GObject } ;"@,
        ) == Some(in_braces(in_braces(n))),
        after_text(
            in_braces(in_braces(n)),
            "use std :: ptr ; unsafe {"@,
        ) == Some(in_braces(in_braces(in_braces(n)))),
        after_text(
            in_braces(in_braces(in_braces(n))),
            "let data : * mut GObject = gobject_sys :: g_object_new ("@,
        ) == Some(in_parens(in_braces(in_braces(in_braces(n))))),
        after_text(
            in_parens(in_braces(in_braces(in_braces(n)))),
            ":: get_type ( ) , ptr :: null_mut ( ) ) ; G :: new ( data as * mut"@,
        ) == Some(in_parens(in_braces(in_braces(in_braces(n))))),
{
    reveal_strlit("impl");
    lemma_after_text(n, "impl"@);
    reveal_strlit("{ pub fn new ( ) -> :: gnome_class_shims :: G <");
    lemma_after_text(n, "{ pub fn new ( ) -> :: gnome_class_shims :: G <"@);
    reveal_strlit("> { use gnome_class_shims :: G ; use gnome_class_shims :: GInstance ;");
    lemma_after_text(
        in_braces(n),
        "> { use gnome_class_shims :: G ; use gnome_class_shims :: GInstance ;"@,
    );
    reveal_strlit("use gnome_class_shims :: gobject_sys :: { self , GObject } ;");
    lemma_after_text(
        in_braces(in_braces(n)),
        "use gnome_class_shims :: gobject_sys :: { self , GObject } ;"@,
    );
    reveal_strlit("use std :: ptr ; unsafe {");
    lemma_after_text(in_braces(in_braces(n)), "use std :: ptr ; unsafe {"@);
    reveal_strlit("let data : * mut GObject = gobject_sys :: g_object_new (");
    lemma_after_text(
        in_braces(in_braces(in_braces(n))),
        "let data : * mut GObject = gobject_sys :: g_object_new ("@,
    );
    reveal_strlit(":: get_type ( ) , ptr :: null_mut ( ) ) ; G :: new ( data as * mut");
    lemma_after_text(
        in_parens(in_braces(in_braces(in_braces(n)))),
        ":: get_type ( ) , ptr :: null_mut ( ) ) ; G :: new ( data as * mut"@,
    );
    reveal_with_fuel(after_rest_in_strides, 10);
    reveal_with_fuel(after_rest, 9);
}

#[verifier::spinoff_prover]
proof fn lemma_always_impl_private_pieces(n: Nesting)
    ensures
        after_text(
            in_parens(in_braces(in_braces(in_braces(n)))),
            ") } } fn private ( & self ) -> &"@,
        ) == Some(in_braces(n)),
        after_text(
            in_braces(n),
            "{ use gnome_class_shims :: GInstance ;"@,
        ) == Some(in_braces(in_braces(n))),
        after_text(
            in_braces(in_braces(n)),
            "use gnome_class_shims :: gobject_sys :: { self , GTypeInstance } ;"@,
        ) == Some(in_braces(in_braces(n))),
        after_text(
            in_braces(in_braces(n)),
            "unsafe { let this = self as * const"@,
        ) == Some(in_braces(in_braces(in_braces(n)))),
        after_text(
            in_braces(in_braces(in_braces(n))),
            "as * mut GTypeInstance ;"@,
        ) == Some(in_braces(in_braces(in_braces(n)))),
        after_text(
            in_braces(in_braces(in_braces(n))),
            "let private = gobject_sys :: g_type_instance_get_private ( this ,"@,
        ) == Some(in_parens(in_braces(in_braces(in_braces(n))))),
        after_text(
            in_parens(in_braces(in_braces(in_braces(n)))),
            ":: get_type ( ) ) ; let private = private as * const"@,
        ) == Some(in_braces(in_braces(in_braces(n)))),
{
    reveal_strlit(") } } fn private ( & self ) -> &");
    lemma_after_text(
        in_parens(in_braces(in_braces(in_braces(n)))),
        ") } } fn private ( & self ) -> &"@,
    );
    reveal_strlit("{ use gnome_class_shims :: GInstance ;");
    lemma_after_text(in_braces(n), "{ use gnome_class_shims :: GInstance ;"@);
    reveal_strlit("use gnome_class_shims :: gobject_sys :: { self , GTypeInstance } ;");
    lemma_after_text(
        in_braces(in_braces(n)),
        "use gnome_class_shims :: gobject_sys :: { self , GTypeInstance } ;"@,
    );
    reveal_strlit("unsafe { let this = self as * const");
    lemma_after_text(in_braces(in_braces(n)), "unsafe { let this = self as * const"@);
    reveal_strlit("as * mut GTypeInstance ;");
    lemma_after_text(in_braces(in_braces(in_braces(n))), "as * mut GTypeInstance ;"@);
    reveal_strlit("let private = gobject_sys :: g_type_instance_get_private ( this ,");
    lemma_after_text(
        in_braces(in_braces(in_braces(n))),
        "let private = gobject_sys :: g_type_instance_get_private ( this ,"@,
    );
    reveal_strlit(":: get_type ( ) ) ; let private = private as * const");
    lemma_after_text(
        in_parens(in_braces(in_braces(in_braces(n)))),
        ":: get_type ( ) ) ; let private = private as * const"@,
    );
    reveal_with_fuel(after_rest_in_strides, 10);
    reveal_with_fuel(after_rest, 9);
}

#[verifier::spinoff_prover]
proof fn lemma_always_impl_ref_pieces(n: Nesting)
    ensures
        after_text(
            in_braces(in_braces(in_braces(n))),
            "; & * private } } pub fn to_ref ( & self ) -> :: gnome_class_shims :: G <"@,
        ) == Some(in_braces(n)),
        after_text(
            in_braces(n),
            "> { :: gnome_class_shims :: to_object_ref ( self ) . clone ( ) }"@,
        ) == Some(in_braces(n)),
        after_text(in_braces(n), "pub fn upcast ( & self ) -> &"@) == Some(in_braces(n)),
        after_text(in_braces(n), "{ & self . parent } }"@) == Some(n),
{
    reveal_strlit("; & * private } } pub fn to_ref ( & self ) -> :: gnome_class_shims :: G <");
    lemma_after_text(
        in_braces(in_braces(in_braces(n))),
        "; & * private } } pub fn to_ref ( & self ) -> :: gnome_class_shims :: G <"@,
    );
    reveal_strlit("> { :: gnome_class_shims :: to_object_ref ( self ) . clone ( ) }");
    lemma_after_text(
        in_braces(n),
        "> { :: gnome_class_shims :: to_object_ref ( self ) . clone ( ) }"@,
    );
    reveal_strlit("pub fn upcast ( & self ) -> &");
    lemma_after_text(in_braces(n), "pub fn upcast ( & self ) -> &"@);
    reveal_strlit("{ & self . parent } }");
    lemma_after_text(in_braces(n), "{ & self . parent } }"@);
    reveal_with_fuel(after_rest_in_strides, 11);
    reveal_with_fuel(after_rest, 9);
}

/// The methods that every class has are balanced.
pub proof fn law_always_impl_balanced(class: Class)
    requires
        declaration_is_balanced(class),
        has_private_struct(class),
    ensures
        is_balanced(always_impl_text(class)),
{
    broadcast use lemma_after_beside;

    lemma_names(class);
    lemma_private(class);
    assert forall|n: Nesting| #[trigger] after_text(n, always_impl_text(class)) == Some(n) by {
        lemma_always_impl_new_pieces(n);
        lemma_always_impl_private_pieces(n);
        lemma_always_impl_ref_pieces(n);
    }
}

#[verifier::spinoff_prover]
proof fn lemma_method_redirect_pieces(n: Nesting)
    ensures
        after_text(n, "pub fn"@) == Some(n),
        after_text(n, "( & self ,"@) == Some(in_parens(n)),
        after_text(in_parens(n), ")"@) == Some(n),
        after_text(
            n,
            "{ let klass = :: gnome_class_shims :: get_class ( self ) ; ( klass ."@,
        ) == Some(in_parens(in_braces(n))),
        after_text(
            in_parens(in_braces(n)),
            ". unwrap ( ) ) ( self ,"@,
        ) == Some(in_parens(in_braces(n))),
        after_text(in_parens(in_braces(n)), ") }"@) == Some(n),
{
    reveal_strlit("pub fn");
    lemma_after_text(n, "pub fn"@);
    reveal_strlit("( & self ,");
    lemma_after_text(n, "( & self ,"@);
    reveal_strlit(")");
    lemma_after_text(in_parens(n), ")"@);
    reveal_strlit("{ let klass = :: gnome_class_shims :: get_class ( self ) ; ( klass .");
    lemma_after_text(n, "{ let klass = :: gnome_class_shims :: get_class ( self ) ; ( klass ."@);
    reveal_strlit(". unwrap ( ) ) ( self ,");
    lemma_after_text(in_parens(in_braces(n)), ". unwrap ( ) ) ( self ,"@);
    reveal_strlit(") }");
    lemma_after_text(in_parens(in_braces(n)), ") }"@);
    reveal_with_fuel(after_rest_in_strides, 10);
    reveal_with_fuel(after_rest, 9);
}

proof fn lemma_method_redirect(method: Method)
    requires
        method_is_balanced(method),
    ensures
        is_balanced(method_redirect_text(method)),
{
    broadcast use lemma_after_beside;

    lemma_sig(method.fn_def.sig);
    assert forall|n: Nesting| #[trigger] after_text(n, method_redirect_text(method)) == Some(n) by {
        lemma_method_redirect_pieces(n);
    }
}

#[verifier::spinoff_prover]
proof fn lemma_method_redirects_pieces(n: Nesting)
    ensures
        after_text(n, "impl"@) == Some(n),
        after_text(n, "{"@) == Some(in_braces(n)),
        after_text(in_braces(n), "}"@) == Some(n),
{
    reveal_strlit("impl");
    lemma_after_text(n, "impl"@);
    reveal_strlit("{");
    lemma_after_text(n, "{"@);
    reveal_strlit("}");
    lemma_after_text(in_braces(n), "}"@);
    reveal_with_fuel(after_rest_in_strides, 2);
    reveal_with_fuel(after_rest, 9);
}

/// The methods on the instance are balanced.
pub proof fn law_method_redirects_balanced(class: Class)
    requires
        declaration_is_balanced(class),
    ensures
        is_balanced(method_redirects_text(class)),
{
    broadcast use lemma_after_beside;

    lemma_members(class.members@);
    let redirects = class_methods(class).map_values(|m: Method| method_redirect_text(m));
    assert forall|i: int| 0 <= i < redirects.len() implies is_balanced(#[trigger] redirects[i]) by {
        lemma_method_redirect(class_methods(class)[i]);
    }
    lemma_balanced_spaced(redirects);
    assert forall|n: Nesting| #[trigger] after_text(n, method_redirects_text(class)) == Some(n) by {
        lemma_method_redirects_pieces(n);
    }
}

proof fn lemma_symbol_names(prefix: Seq<char>, method_name: Seq<char>)
    requires
        is_balanced(prefix),
        is_balanced(method_name),
    ensures
        is_balanced(c_symbol_name(prefix, method_name)),
        is_balanced(get_type_symbol_name(prefix)),
{
    assert forall|n: Nesting| #[trigger] after_text(n, "_"@) == Some(n) by {
        reveal_strlit("_");
        reveal(after_text);
        reveal_with_fuel(after_rest, 2);
    }
    lemma_balanced_add(prefix, "_"@);
    lemma_balanced_add(prefix + "_"@, method_name);
    assert forall|n: Nesting| #[trigger] after_text(n, "_get_type"@) == Some(n) by {
        reveal_strlit("_get_type");
        lemma_after_text(n, "_get_type"@);
        reveal_with_fuel(after_rest_in_strides, 3);
        reveal_with_fuel(after_rest, 9);
    }
    lemma_balanced_add(prefix, "_get_type"@);
}

#[verifier::spinoff_prover]
proof fn lemma_method_c_symbol_pieces(n: Nesting)
    ensures
        after_text(n, "# [ no_mangle ] pub extern fn"@) == Some(n),
        after_text(n, "( __this : &"@) == Some(in_parens(n)),
        after_text(in_parens(n), ","@) == Some(in_parens(n)),
        after_text(in_parens(n), ")"@) == Some(n),
        after_text(n, "{"@) == Some(in_braces(n)),
        after_text(in_braces(n), "::"@) == Some(in_braces(n)),
        after_text(in_braces(n), "( __this ,"@) == Some(in_parens(in_braces(n))),
        after_text(in_parens(in_braces(n)), ") }"@) == Some(n),
{
    reveal_strlit("# [ no_mangle ] pub extern fn");
    lemma_after_text(n, "# [ no_mangle ] pub extern fn"@);
    reveal_strlit("( __this : &");
    lemma_after_text(n, "( __this : &"@);
    reveal_strlit(",");
    lemma_after_text(in_parens(n), ","@);
    reveal_strlit(")");
    lemma_after_text(in_parens(n), ")"@);
    reveal_strlit("{");
    lemma_after_text(n, "{"@);
    reveal_strlit("::");
    lemma_after_text(in_braces(n), "::"@);
    reveal_strlit("( __this ,");
    lemma_after_text(in_braces(n), "( __this ,"@);
    reveal_strlit(") }");
    lemma_after_text(in_parens(in_braces(n)), ") }"@);
    reveal_with_fuel(after_rest_in_strides, 5);
    reveal_with_fuel(after_rest, 9);
}

proof fn lemma_method_c_symbol(class: Class, prefix: Seq<char>, method: Method)
    requires
        is_balanced(class.name@),
        is_balanced(prefix),
        method_is_balanced(method),
    ensures
        is_balanced(method_c_symbol_text(class, prefix, method)),
{
    broadcast use lemma_after_beside;

    lemma_sig(method.fn_def.sig);
    lemma_symbol_names(prefix, method.name@);
    assert forall|n: Nesting| #[trigger]
        after_text(n, method_c_symbol_text(class, prefix, method)) == Some(n) by {
        lemma_method_c_symbol_pieces(n);
    }
}

#[verifier::spinoff_prover]
proof fn lemma_c_symbols_pieces(n: Nesting)
    ensures
        after_text(n, "# [ no_mangle ] pub extern fn"@) == Some(n),
        after_text(n, "( ) -> :: gnome_class_shims :: glib_sys :: GType {"@) == Some(in_braces(n)),
        after_text(in_braces(n), "use gnome_class_shims :: GInstance ;"@) == Some(in_braces(n)),
        after_text(in_braces(n), ":: get_type ( ) }"@) == Some(n),
{
    reveal_strlit("# [ no_mangle ] pub extern fn");
    lemma_after_text(n, "# [ no_mangle ] pub extern fn"@);
    reveal_strlit("( ) -> :: gnome_class_shims :: glib_sys :: GType {");
    lemma_after_text(n, "( ) -> :: gnome_class_shims :: glib_sys :: GType {"@);
    reveal_strlit("use gnome_class_shims :: GInstance ;");
    lemma_after_text(in_braces(n), "use gnome_class_shims :: GInstance ;"@);
    reveal_strlit(":: get_type ( ) }");
    lemma_after_text(in_braces(n), ":: get_type ( ) }"@);
    reveal_with_fuel(after_rest_in_strides, 8);
    reveal_with_fuel(after_rest, 9);
}

/// The C functions of a class are balanced.
pub proof fn law_c_symbols_balanced(class: Class, prefix: Seq<char>)
    requires
        declaration_is_balanced(class),
        is_balanced(prefix),
    ensures
        is_balanced(c_symbols_text(class, prefix)),
{
    broadcast use lemma_after_beside;

    lemma_members(class.members@);
    lemma_symbol_names(prefix, class.name@);
    let symbols = class_methods(class).map_values(
        |m: Method| method_c_symbol_text(class, prefix, m),
    );
    assert forall|i: int| 0 <= i < symbols.len() implies is_balanced(#[trigger] symbols[i]) by {
        lemma_method_c_symbol(class, prefix, class_methods(class)[i]);
    }
    lemma_balanced_spaced(symbols);
    assert forall|n: Nesting| #[trigger]
        after_text(n, c_symbols_text(class, prefix)) == Some(n) by {
        lemma_c_symbols_pieces(n);
    }
}

/// Everything that is generated for a class is balanced, where its name is so with either case of
/// its first letter, and every other name and every piece of code in its declaration is.
pub proof fn law_class_balanced(class: Class)
    requires
        declaration_is_balanced(class),
        is_balanced(lower_cased_first(class.name@)),
        has_private_struct(class),
    ensures
        is_balanced(class_text(class)),
{
    broadcast use lemma_after_beside;

    reveal(class_text);
    law_type_decls_balanced(class);
    law_impls_balanced(class);
    law_methods_declared_balanced(class);
    law_always_impl_balanced(class);
    law_method_redirects_balanced(class);
    law_c_symbols_balanced(class, lower_cased_first(class.name@));
}

/// Everything that is generated for a list of classes is balanced, where each class is.
pub proof fn law_classes_balanced(classes: Seq<Class>)
    requires
        forall|i: int|
            0 <= i < classes.len() ==> {
                let class = #[trigger] classes[i];
                &&& declaration_is_balanced(class)
                &&& is_balanced(lower_cased_first(class.name@))
                &&& has_private_struct(class)
            },
    ensures
        is_balanced(classes_text(classes)),
{
    let pieces = classes.map_values(|class: Class| class_text(class));
    assert forall|i: int| 0 <= i < pieces.len() implies is_balanced(#[trigger] pieces[i]) by {
        law_class_balanced(classes[i]);
    }
    lemma_balanced_spaced(pieces);
}

/// Whether a class can be generated, and its name, with the first letter in lower case, holds no
/// delimiter.
pub open spec fn has_plain_prefix(class: Class) -> bool {
    &&& has_private_struct(class)
    &&& class.name@.len() > 0
    &&& is_plain(lower_cased_first(class.name@))
}

/// Tests what a declaration does not show by itself: that the C symbols of a class start with a
/// name without delimiters. Where they do, and the declaration is balanced, the code of the class
/// is balanced.
pub fn class_closes_what_it_opens(program: &Program, class: &Class) -> (sure: bool)
    ensures
        sure == has_plain_prefix(*class),
        sure && declaration_is_balanced(*class) ==> is_balanced(class_text(*class)),
{
    match ClassContext::new(program, class) {
        Ok(cx) => {
            if class.name.text().as_str().unicode_len() == 0 {
                return false;
            }
            let prefix = cx.lower_case_class_name();
            let plain = holds_no_delimiter(prefix.as_str());
            proof {
                if plain && declaration_is_balanced(*class) {
                    lemma_plain_is_balanced(prefix@);
                    law_class_balanced(*class);
                }
            }
            plain
        },
        Err(_) => false,
    }
}

/// Tests of every class of a program what `class_closes_what_it_opens` tests of one. Where it
/// holds, and every declaration is balanced, the code of the program is balanced.
pub fn classes_close_what_they_open(program: &Program) -> (sure: bool)
    ensures
        sure == (forall|i: int|
            0 <= i < program.classes@.len() ==> has_plain_prefix(#[trigger] program.classes@[i])),
        sure && (forall|i: int|
            0 <= i < program.classes@.len() ==> declaration_is_balanced(
                #[trigger] program.classes@[i],
            )) ==> is_balanced(classes_text(program.classes@)),
{
    let mut i: usize = 0;
    while i < program.classes.len()
        invariant
            i <= program.classes.len(),
            forall|k: int| 0 <= k < i ==> has_plain_prefix(#[trigger] program.classes@[k]),
        decreases program.classes.len() - i,
    {
        if !class_closes_what_it_opens(program, &program.classes[i]) {
            assert(!has_plain_prefix(program.classes@[i as int]));
            return false;
        }
        i += 1;
    }
    proof {
        let all = program.classes@;
        if forall|k: int| 0 <= k < all.len() ==> declaration_is_balanced(#[trigger] all[k]) {
            assert forall|k: int| 0 <= k < all.len() implies is_balanced(
                lower_cased_first((#[trigger] all[k]).name@),
            ) by {
                assert(has_plain_prefix(all[k]));
                lemma_plain_is_balanced(lower_cased_first(all[k].name@));
            }
            law_classes_balanced(all);
        }
    }
    true
}

} // verus!

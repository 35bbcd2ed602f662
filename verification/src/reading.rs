//! What the generated code says of a declaration.

use crate::ast::Class;
use crate::ast::Field;
use crate::ast::FnSig;
use crate::ast::Method;
use crate::ast::OpaqueTokens;
use crate::ast::Type;
use crate::emit::arg_names_text;
use crate::emit::arg_types_text;
use crate::emit::byte_string_text;
use crate::emit::field_list_text;
use crate::emit::field_text;
use crate::emit::method_ty_text;
use crate::emit::return_ty_text;
use crate::emit::type_text;
use crate::emit::type_texts;
use crate::letters::ascii_lower_cased_first;
use crate::letters::lower_cased_first;
use crate::letters::lowercase;
use crate::letters::starts_in_ascii;
use crate::template::always_impl_text;
use crate::template::c_symbols_text;
use crate::template::class_text;
use crate::template::classes_text;
use crate::template::impls_text;
use crate::template::method_c_symbol_text;
use crate::template::method_impl_fn_text;
use crate::template::method_redirect_text;
use crate::template::method_redirects_text;
use crate::template::method_trait_fn_text;
use crate::template::methods_declared_text;
use crate::template::parent_class_text;
use crate::template::parent_instance_text;
use crate::template::register_text;
use crate::template::type_decls_text;
use crate::tokens::lemma_beside_associative;
use crate::tokens::lemma_beside_nothing;
use crate::tokens::lemma_separated_push;
use crate::tokens::lemma_spaced_add;
use crate::tokens::lemma_spaced_push;
use crate::tokens::separated;
use crate::tokens::spaced;
use crate::tokens::texts;
use crate::tokens::tokens_text;
use crate::tokens::Beside;
use quote::Tokens;
use vstd::prelude::*;

verus! {

/// Whether `text` is `start` with something, or nothing, after it.
pub open spec fn begins_with(text: Seq<char>, start: Seq<char>) -> bool {
    exists|rest: Seq<char>| text == #[trigger] start.beside(rest)
}

/// Whether `text` is `end` with something, or nothing, before it.
pub open spec fn ends_with(text: Seq<char>, end: Seq<char>) -> bool {
    exists|rest: Seq<char>| text == #[trigger] rest.beside(end)
}

/// A text begins with itself.
broadcast proof fn lemma_begins_with_itself(text: Seq<char>)
    ensures
        #[trigger] begins_with(text, text),
{
    lemma_beside_nothing(text);
}

/// More text at the end leaves the beginning as it is.
broadcast proof fn lemma_begins_with_more(text: Seq<char>, more: Seq<char>, start: Seq<char>)
    requires
        begins_with(text, start),
    ensures
        #[trigger] begins_with(text.beside(more), start),
{
    let rest = choose|rest: Seq<char>| text == #[trigger] start.beside(rest);
    lemma_beside_associative(start, rest, more);
}

/// What stands behind a text is its end.
broadcast proof fn lemma_ends_with_last(rest: Seq<char>, end: Seq<char>)
    ensures
        #[trigger] ends_with(rest.beside(end), end),
{
}

/// More text at the end becomes more of the end.
broadcast proof fn lemma_ends_with_more(text: Seq<char>, end: Seq<char>, more: Seq<char>)
    requires
        ends_with(text, end),
    ensures
        #[trigger] ends_with(text.beside(more), end.beside(more)),
{
    let rest = choose|rest: Seq<char>| text == #[trigger] rest.beside(end);
    lemma_beside_associative(rest, end, more);
}

/// Two runs of pieces with a separator between any two of them.
proof fn lemma_separated_add(
    left: Seq<Seq<char>>,
    right: Seq<Seq<char>>,
    separator: Seq<char>,
)
    requires
        left.len() > 0,
        right.len() > 0,
    ensures
        separated(left + right, separator) == separated(left, separator).beside(separator).beside(
            separated(right, separator),
        ),
    decreases right.len(),
{
    broadcast use lemma_beside_associative;

    let (last, rest) = (right.last(), right.drop_last());
    assert(left + right =~= (left + rest).push(last));
    assert(right =~= rest.push(last));
    lemma_separated_push(left + rest, last, separator);
    lemma_separated_push(rest, last, separator);
    if rest.len() == 0 {
        assert(left + rest =~= left);
    } else {
        lemma_separated_add(left, rest, separator);
    }
}

/// Two pieces stand next to each other with one blank between them, and a piece that is empty
/// leaves the other as it is.
pub proof fn law_beside(a: Seq<char>, b: Seq<char>)
    ensures
        a.len() == 0 ==> a.beside(b) == b,
        b.len() == 0 ==> a.beside(b) == a,
        a.len() > 0 && b.len() > 0 ==> {
            &&& a.beside(b).len() == a.len() + 1 + b.len()
            &&& a.beside(b).take(a.len() as int) == a
            &&& a.beside(b)[a.len() as int] == ' '
            &&& a.beside(b).skip(1 + a.len() as int) == b
        },
{
    if a.len() > 0 && b.len() > 0 {
        assert(a.beside(b).take(a.len() as int) =~= a);
        assert(a.beside(b).skip(1 + a.len() as int) =~= b);
    }
}

/// The text of several pieces of code is the text of each of them, in order.
pub proof fn law_texts(pieces: Seq<Tokens>, code: OpaqueTokens)
    ensures
        texts(pieces) == Seq::new(pieces.len(), |i: int| tokens_text(pieces[i])),
        code@ == tokens_text(code.tokens),
{
}

/// Pieces with a separator between any two of them: nothing for no piece, the piece for one, and
/// the two runs with one separator between them for two runs together.
pub proof fn law_separated(
    piece: Seq<char>,
    left: Seq<Seq<char>>,
    right: Seq<Seq<char>>,
    separator: Seq<char>,
)
    ensures
        separated(Seq::empty(), separator) == Seq::<char>::empty(),
        separated(seq![piece], separator) == piece,
        left.len() > 0 && right.len() > 0 ==> separated(left + right, separator) == separated(
            left,
            separator,
        ).beside(separator).beside(separated(right, separator)),
{
    if left.len() > 0 && right.len() > 0 {
        lemma_separated_add(left, right, separator);
    }
}

/// Pieces next to each other: nothing for no piece, the piece for one, and the two runs next to
/// each other for two runs together.
pub proof fn law_spaced(piece: Seq<char>, left: Seq<Seq<char>>, right: Seq<Seq<char>>)
    ensures
        spaced(Seq::empty()) == Seq::<char>::empty(),
        spaced(seq![piece]) == piece,
        spaced(left + right) == spaced(left).beside(spaced(right)),
{
    lemma_spaced_add(left, right);
    assert(seq![piece].drop_last() =~= Seq::<Seq<char>>::empty());
    assert(spaced(seq![piece].drop_last()).len() == 0);
}

/// How each of several types reads, at its place.
proof fn lemma_type_texts(tys: Seq<Type>)
    ensures
        type_texts(tys) == Seq::new(tys.len(), |i: int| type_text(tys[i])),
    decreases tys.len(),
{
    if tys.len() > 0 {
        lemma_type_texts(tys.drop_last());
        assert(type_texts(tys) =~= Seq::new(tys.len(), |i: int| type_text(tys[i])));
    }
}

/// A type reads as it is written: a name, a name with all its arguments in order, an array of a
/// type, or a sum of all its types in order.
pub proof fn law_type_reads_as_written(ty: Type)
    ensures
        match ty {
            Type::Name(id) => type_text(ty) == id@,
            Type::Args(id, tys) => type_text(ty) == id@.beside("<"@).beside(
                separated(Seq::new(tys@.len(), |i: int| type_text(tys@[i])), ","@),
            ).beside(">"@),
            Type::Array(inner) => type_text(ty) == "["@.beside(type_text(*inner)).beside("]"@),
            Type::Sum(tys) => type_text(ty) == separated(
                Seq::new(tys@.len(), |i: int| type_text(tys@[i])),
                "+"@,
            ),
        },
{
    match ty {
        Type::Args(_, tys) => lemma_type_texts(tys@),
        Type::Sum(tys) => lemma_type_texts(tys@),
        _ => {},
    }
}

/// A list of fields or arguments has every one of them, in order, with a comma between any two: as
/// a list of names with their types, and as a list of names.
pub proof fn law_fields_are_listed_in_order(fields: Seq<Field>)
    ensures
        field_list_text(fields) == separated(
            Seq::new(
                fields.len(),
                |i: int| fields[i].name@.beside(":"@).beside(type_text(fields[i].ty)),
            ),
            ","@,
        ),
        arg_names_text(fields) == separated(
            Seq::new(fields.len(), |i: int| fields[i].name@),
            ","@,
        ),
        arg_types_text(fields) == spaced(
            Seq::new(fields.len(), |i: int| type_text(fields[i].ty).beside(", "@)),
        ),
{
    assert(fields.map_values(|field: Field| field_text(field)) =~= Seq::new(
        fields.len(),
        |i: int| fields[i].name@.beside(":"@).beside(type_text(fields[i].ty)),
    ));
    assert(fields.map_values(|arg: Field| arg.name@) =~= Seq::new(
        fields.len(),
        |i: int| fields[i].name@,
    ));
    assert(fields.map_values(|arg: Field| type_text(arg.ty).beside(", "@)) =~= Seq::new(
        fields.len(),
        |i: int| type_text(fields[i].ty).beside(", "@),
    ));
}

/// The type of the function behind a method takes the class and then the type of every argument,
/// and returns what the method returns.
pub proof fn law_method_type(class_name: Seq<char>, sig: FnSig, result: Seq<char>)
    requires
        result == match sig.return_ty {
            Some(ty) => " -> "@.beside(type_text(ty)),
            None => Seq::empty(),
        },
    ensures
        return_ty_text(sig) == result,
        method_ty_text(class_name, sig) == "extern fn("@.beside("&"@).beside(class_name).beside(
            ", "@,
        ).beside(
            spaced(Seq::new(sig.args@.len(), |i: int| type_text(sig.args@[i].ty).beside(", "@))),
        ).beside(")"@).beside(result),
{
    law_fields_are_listed_in_order(sig.args@);
}

/// One parent is meant wherever the code speaks of it: the one that is declared, or `GObject`
/// where none is. It is what the type is registered under, the first field of the instance, what
/// an instance is cast to, and what the class struct of the parent is taken from. The members of
/// the class make no difference.
pub proof fn law_parent_is_the_same_everywhere(class: Class, parent: Seq<char>)
    requires
        parent == match class.extends {
            Some(id) => id@,
            None => ":: gnome_class_shims :: gobject_sys :: GObject"@,
        },
    ensures
        parent_instance_text(class) == parent,
        parent_class_text(class) == "<"@.beside(parent).beside(
            "as :: gnome_class_shims :: GInstance > :: Class"@,
        ),
        begins_with(
            register_text(class),
            "fn register ( ) -> GType { unsafe { gobject_sys :: g_type_register_static_simple ("@
                .beside(parent).beside(":: get_type ( ) ,"@),
        ),
        begins_with(
            type_decls_text(class),
            "# [ repr ( C ) ] pub struct"@.beside(class.name@).beside("{ parent :"@).beside(
                parent,
            ).beside(", } struct"@),
        ),
        ends_with(
            always_impl_text(class),
            "pub fn upcast ( & self ) -> &"@.beside(parent).beside("{ & self . parent } }"@),
        ),
        ends_with(
            impls_text(class),
            "{ type ParentClass ="@.beside(
                "<"@.beside(parent).beside("as :: gnome_class_shims :: GInstance > :: Class"@),
            ).beside("; }"@),
        ),
{
    broadcast use {
        lemma_begins_with_itself,
        lemma_begins_with_more,
        lemma_ends_with_last,
        lemma_ends_with_more,
    };

}

/// The method on the instance declares every argument of the method, in order, and its call passes
/// `self` and then the name of every argument that it declares, in order, whatever the method
/// returns.
pub proof fn law_redirect_passes_what_it_declares(method: Method)
    ensures
        ({
            let args = method.fn_def.sig.args@;
            let decls = Seq::new(
                args.len(),
                |i: int| args[i].name@.beside(":"@).beside(type_text(args[i].ty)),
            );
            let names = Seq::new(args.len(), |i: int| args[i].name@);
            &&& begins_with(
                method_redirect_text(method),
                "pub fn"@.beside(method.name@).beside("( & self ,"@).beside(
                    separated(decls, ","@),
                ).beside(")"@),
            )
            &&& ends_with(
                method_redirect_text(method),
                method.name@.beside(". unwrap ( ) ) ( self ,"@).beside(
                    separated(names, ","@),
                ).beside(") }"@),
            )
        }),
{
    broadcast use {
        lemma_begins_with_itself,
        lemma_begins_with_more,
        lemma_ends_with_last,
        lemma_ends_with_more,
    };

    law_fields_are_listed_in_order(method.fn_def.sig.args@);
}

/// The C function of a method declares the instance and then every argument of the method, in
/// order, and its call passes the instance and then the name of every argument, in order, whatever
/// the method returns.
pub proof fn law_c_function_passes_what_it_declares(
    class: Class,
    prefix: Seq<char>,
    method: Method,
)
    ensures
        ({
            let args = method.fn_def.sig.args@;
            let decls = Seq::new(
                args.len(),
                |i: int| args[i].name@.beside(":"@).beside(type_text(args[i].ty)),
            );
            let names = Seq::new(args.len(), |i: int| args[i].name@);
            &&& begins_with(
                method_c_symbol_text(class, prefix, method),
                "# [ no_mangle ] pub extern fn"@.beside(prefix + "_"@ + method.name@).beside(
                    "( __this : &"@,
                ).beside(class.name@).beside(","@).beside(separated(decls, ","@)).beside(")"@),
            )
            &&& ends_with(
                method_c_symbol_text(class, prefix, method),
                class.name@.beside("::"@).beside(method.name@).beside("( __this ,"@).beside(
                    separated(names, ","@),
                ).beside(") }"@),
            )
        }),
{
    broadcast use {
        lemma_begins_with_itself,
        lemma_begins_with_more,
        lemma_ends_with_last,
        lemma_ends_with_more,
    };

    law_fields_are_listed_in_order(method.fn_def.sig.args@);
}

/// A method returns the same wherever the code speaks of it: an arrow and the declared type, or
/// nothing where none is declared, whatever its arguments are. So it is in the trait, in the impl,
/// on the instance, in the C function, and in the field of the class struct.
pub proof fn law_result_type_is_the_same_everywhere(
    class: Class,
    prefix: Seq<char>,
    method: Method,
    result: Seq<char>,
)
    requires
        result == match method.fn_def.sig.return_ty {
            Some(ty) => " -> "@.beside(type_text(ty)),
            None => Seq::empty(),
        },
    ensures
        ({
            let decls = field_list_text(method.fn_def.sig.args@);
            let head = "( & self ,"@.beside(decls).beside(")"@).beside(result);
            &&& ends_with(method_trait_fn_text(method), head.beside(";"@))
            &&& ends_with(method_impl_fn_text(method), head.beside(method.fn_def.code@))
            &&& begins_with(
                method_redirect_text(method),
                "pub fn"@.beside(method.name@).beside("( & self ,"@).beside(decls).beside(
                    ")"@,
                ).beside(result).beside(
                    "{ let klass = :: gnome_class_shims :: get_class ( self ) ; ( klass ."@,
                ),
            )
            &&& begins_with(
                method_c_symbol_text(class, prefix, method),
                "# [ no_mangle ] pub extern fn"@.beside(prefix + "_"@ + method.name@).beside(
                    "( __this : &"@,
                ).beside(class.name@).beside(","@).beside(decls).beside(")"@).beside(
                    result,
                ).beside("{"@),
            )
            &&& ends_with(method_ty_text(class.name@, method.fn_def.sig), ")"@.beside(result))
        }),
{
    broadcast use {
        lemma_begins_with_itself,
        lemma_begins_with_more,
        lemma_ends_with_last,
        lemma_ends_with_more,
    };

}

/// Six pieces next to each other.
proof fn lemma_six_parts(
    a: Seq<char>,
    b: Seq<char>,
    c: Seq<char>,
    d: Seq<char>,
    e: Seq<char>,
    f: Seq<char>,
)
    ensures
        spaced(seq![a, b, c, d, e, f]) == a.beside(b).beside(c).beside(d).beside(e).beside(f),
{
    broadcast use lemma_spaced_push;

    let none = Seq::<Seq<char>>::empty();
    assert(seq![a, b, c, d, e, f] =~= none.push(a).push(b).push(c).push(d).push(e).push(f));
    assert(spaced(none) == Seq::<char>::empty());
}

/// The code for a class is its structs, its impls of the shim traits, its methods, what every class
/// has, the methods on the instance and the C functions, in this order and each once. The names of
/// the C functions start with the name of the class, with its first letter in lower case.
pub proof fn law_class_is_its_six_parts(class: Class)
    ensures
        class_text(class) == spaced(
            seq![
                type_decls_text(class),
                impls_text(class),
                methods_declared_text(class),
                always_impl_text(class),
                method_redirects_text(class),
                c_symbols_text(class, lowercase(class.name@[0]) + class.name@.skip(1)),
            ],
        ),
{
    reveal(class_text);
    lemma_six_parts(
        type_decls_text(class),
        impls_text(class),
        methods_declared_text(class),
        always_impl_text(class),
        method_redirects_text(class),
        c_symbols_text(class, lower_cased_first(class.name@)),
    );
}

/// The code for several classes has the code for each of them, in order and each once.
pub proof fn law_classes_in_order(classes: Seq<Class>)
    ensures
        classes_text(classes) == spaced(
            Seq::new(classes.len(), |i: int| class_text(classes[i])),
        ),
{
    assert(classes.map_values(|class: Class| class_text(class)) =~= Seq::new(
        classes.len(),
        |i: int| class_text(classes[i]),
    ));
}

/// Only the first character of a name changes where it is put in lower case.
pub proof fn law_rest_of_a_name_is_kept(text: Seq<char>)
    requires
        text.len() > 0,
    ensures
        ({
            let first = lowercase(text[0]);
            let lower = lower_cased_first(text);
            &&& lower.len() == first.len() + text.len() - 1
            &&& lower.take(first.len() as int) == first
            &&& lower.skip(first.len() as int) == text.skip(1)
        }),
        starts_in_ascii(text) <==> (text[0] as int) < 128,
        starts_in_ascii(text) ==> {
            let lower = ascii_lower_cased_first(text);
            &&& lower.len() == text.len()
            &&& lower[0] as int == text[0] as int + if 65 <= text[0] as int <= 90 {
                32int
            } else {
                0int
            }
            &&& lower.skip(1) == text.skip(1)
        },
{
    let first = lowercase(text[0]);
    assert(lower_cased_first(text).take(first.len() as int) =~= first);
    assert(lower_cased_first(text).skip(first.len() as int) =~= text.skip(1));
    assert(ascii_lower_cased_first(text).skip(1) =~= text.skip(1));
}

/// The literal for a name is the name between `b"` and the escape of a nul with a quote.
pub proof fn law_byte_string(name: Seq<char>)
    ensures
        byte_string_text(name) == seq!['b', '"'] + name + seq!['\\', '0', '"'],
{
    reveal_strlit("b\"");
    reveal_strlit("\\0\"");
    assert("b\""@ =~= seq!['b', '"']);
    assert("\\0\""@ =~= seq!['\\', '0', '"']);
}

} // verus!

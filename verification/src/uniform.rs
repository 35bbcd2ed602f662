//! Which parts of a declaration stand where in the generated code.
//!
//! Each item that is generated is a template: words that are the same for every declaration, with
//! the texts of some of its parts between them. The laws here say which parts these are, and in
//! which order they stand. The words come before the declaration in each of them, so they cannot
//! depend on it.

use crate::ast::Class;
use crate::ast::Method;
use crate::emit::arg_names_text;
use crate::emit::byte_string_text;
use crate::emit::field_list_text;
use crate::emit::method_ty_text;
use crate::emit::return_ty_text;
use crate::template::always_impl_text;
use crate::template::assignment_text;
use crate::template::c_symbols_text;
use crate::template::class_init_text;
use crate::template::class_methods;
use crate::template::finalize_text;
use crate::template::get_type_fn_text;
use crate::template::get_type_head_text;
use crate::template::get_type_tail_text;
use crate::template::impls_text;
use crate::template::init_text;
use crate::template::instance_init_text;
use crate::template::method_c_symbol_text;
use crate::template::method_impl_fn_text;
use crate::template::method_redirect_text;
use crate::template::method_redirects_text;
use crate::template::method_trait_fn_text;
use crate::template::methods_declared_text;
use crate::template::parent_class_text;
use crate::template::parent_instance_text;
use crate::template::private_struct;
use crate::template::register_text;
use crate::template::slot_text;
use crate::template::type_decls_text;
use crate::tokens::lemma_beside_associative;
use crate::tokens::lemma_beside_nothing;
use crate::tokens::spaced;
use crate::tokens::Beside;
use vstd::prelude::*;

verus! {

/// The first word of a template, and then its first `count` parts, each with the word after it.
pub open spec fn filled_up_to(
    words: Seq<Seq<char>>,
    parts: Seq<Seq<char>>,
    count: nat,
) -> Seq<char>
    decreases count,
{
    if count == 0 {
        words[0]
    } else {
        let before: nat = (count - 1) as nat;
        filled_up_to(words, parts, before).beside(parts[before as int]).beside(words[count as int])
    }
}

/// A template with its parts put between its words.
pub open spec fn filled(words: Seq<Seq<char>>, parts: Seq<Seq<char>>) -> Seq<char> {
    filled_up_to(words, parts, parts.len())
}

/// The field of the class struct for a method holds the name of the method and the type of its
/// function.
pub proof fn law_template_of_slots() -> (words: Seq<Seq<char>>)
    ensures
        forall|class: Class, method: Method| #[trigger]
            slot_text(class, method) == filled(
                words,
                seq![
                    method.name@,
                    method_ty_text(class.name@, method.fn_def.sig),
                ],
            ),
{
    reveal_with_fuel(filled_up_to, 3);
    seq![
        Seq::<char>::empty(),
        ": Option <"@,
        "> ,"@,
    ]
}

/// The class struct of the parent is named by the parent alone.
pub proof fn law_template_of_parent_class() -> (words: Seq<Seq<char>>)
    ensures
        forall|class: Class| #[trigger]
            parent_class_text(class) == filled(
                words,
                seq![
                    parent_instance_text(class),
                ],
            ),
{
    reveal_with_fuel(filled_up_to, 2);
    seq![
        "<"@,
        "as :: gnome_class_shims :: GInstance > :: Class"@,
    ]
}

/// The instance struct holds the parent; the private struct holds the fields that are declared for
/// it; its constructor has the body of the initializer; the class struct holds the class struct of
/// the parent and a field for every method, in order.
pub proof fn law_template_of_type_decls() -> (words: Seq<Seq<char>>)
    ensures
        forall|class: Class| #[trigger]
            type_decls_text(class) == filled(
                words,
                seq![
                    class.name@,
                    parent_instance_text(class),
                    private_struct(class).name@,
                    field_list_text(private_struct(class).fields@),
                    private_struct(class).name@,
                    init_text(class),
                    class.name@ + "Class"@,
                    parent_class_text(class),
                    spaced(class_methods(class).map_values(|m: Method| slot_text(class, m))),
                ],
            ),
{
    reveal_with_fuel(filled_up_to, 10);
    seq![
        "# [ repr ( C ) ] pub struct"@,
        "{ parent :"@,
        ", } struct"@,
        "{"@,
        "} impl"@,
        "{ pub fn new ( ) -> Self"@,
        "} # [ repr ( C ) ] pub struct"@,
        "{ parent_class :"@,
        ","@,
        "}"@,
    ]
}

/// The function that initializes an instance gets the private data of the class itself, and writes
/// a new private struct to it.
pub proof fn law_template_of_instance_init() -> (words: Seq<Seq<char>>)
    ensures
        forall|class: Class| #[trigger]
            instance_init_text(class) == filled(
                words,
                seq![
                    class.name@,
                    private_struct(class).name@,
                    private_struct(class).name@,
                ],
            ),
{
    broadcast use lemma_beside_associative;

    reveal_with_fuel(filled_up_to, 4);
    seq![
        "extern fn instance_init ( this : * mut GTypeInstance , _klass : gpointer ) {"@
            .beside("unsafe { let private = gobject_sys :: g_type_instance_get_private ( this ,"@),
        ":: get_type ( ) ) ; let private = private as * mut"@,
        "; ptr :: write ( private ,"@,
        ":: new ( ) ) ; } }"@,
    ]
}

/// The finalizer depends on the name of the class alone.
pub proof fn law_template_of_finalize() -> (words: Seq<Seq<char>>)
    ensures
        forall|class: Class| #[trigger]
            finalize_text(class) == filled(
                words,
                seq![
                    class.name@,
                ],
            ),
{
    broadcast use lemma_beside_associative;

    reveal_with_fuel(filled_up_to, 2);
    seq![
        "extern fn finalize ( this : * mut GObject ) { let this = this as * mut"@,
        "; unsafe { ptr :: read ( ( * this ) . private ( ) ) ;"@
            .beside("let object_class = shims :: get_class ( & * this ) ;"@)
            .beside("let parent_class = shims :: get_parent_class ( object_class ) ;"@)
            .beside("if let Some ( f ) = parent_class . finalize {"@)
            .beside("f ( this as * mut GObject ) ; } } }"@),
    ]
}

/// The field that a method has in the class struct is filled with the function of the same name,
/// from the trait of the class.
pub proof fn law_template_of_assignments() -> (words: Seq<Seq<char>>)
    ensures
        forall|class: Class, method: Method| #[trigger]
            assignment_text(class, method) == filled(
                words,
                seq![
                    method.name@,
                    class.name@,
                    "__MethodsFrom"@ + class.name@,
                    method.name@,
                ],
            ),
{
    reveal_with_fuel(filled_up_to, 5);
    seq![
        "klass ."@,
        "= Some ( <"@,
        "as"@,
        "> ::"@,
        ") ;"@,
    ]
}

/// The class initializer adds the private struct, and fills the field of every method, in order.
pub proof fn law_template_of_class_init() -> (words: Seq<Seq<char>>)
    ensures
        forall|class: Class| #[trigger]
            class_init_text(class) == filled(
                words,
                seq![
                    private_struct(class).name@,
                    class.name@ + "Class"@,
                    class.name@ + "Class"@,
                    spaced(class_methods(class).map_values(|m: Method| assignment_text(class, m))),
                ],
            ),
{
    broadcast use lemma_beside_associative;

    reveal_with_fuel(filled_up_to, 5);
    seq![
        "extern fn class_init ( klass : gpointer , _klass_data : gpointer ) {"@
            .beside("unsafe { let g_object_class = klass as * mut GObjectClass ;"@)
            .beside("( * g_object_class ) . finalize = Some ( finalize ) ;"@)
            .beside("gobject_sys :: g_type_class_add_private ( klass , mem :: size_of :: <"@),
        "> ( ) ) ; let klass = klass as * mut"@,
        "; let klass : & mut"@,
        "= & mut * klass ;"@,
        "} }"@,
    ]
}

/// A type is registered under the parent that is declared, by the name of the class, with the sizes
/// of its class struct and of its instance struct.
pub proof fn law_template_of_registration() -> (words: Seq<Seq<char>>)
    ensures
        forall|class: Class| #[trigger]
            register_text(class) == filled(
                words,
                seq![
                    parent_instance_text(class),
                    byte_string_text(class.name@),
                    class.name@ + "Class"@,
                    class.name@,
                ],
            ),
{
    reveal_with_fuel(filled_up_to, 5);
    seq![
        "fn register ( ) -> GType { unsafe { gobject_sys :: g_type_register_static_simple ("@,
        ":: get_type ( ) ,"@,
        "as * const u8 as * const i8 , mem :: size_of :: <"@,
        "> ( ) as u32 , Some ( class_init ) , mem :: size_of :: <"@,
        "> ( ) as u32 , Some ( instance_init ) , GTypeFlags :: empty ( ) ) } }"@,
    ]
}

/// Parts that stand next to each other are a template whose inner words are empty.
proof fn lemma_four_parts(
    head: Seq<char>,
    a: Seq<char>,
    b: Seq<char>,
    c: Seq<char>,
    d: Seq<char>,
    tail: Seq<char>,
)
    ensures
        head.beside(a.beside(b).beside(c).beside(d)).beside(tail) == filled(
            seq![head, Seq::empty(), Seq::empty(), Seq::empty(), tail],
            seq![a, b, c, d],
        ),
{
    broadcast use lemma_beside_associative, lemma_beside_nothing;

    reveal_with_fuel(filled_up_to, 5);
    assert(head.beside(a.beside(b).beside(c).beside(d)) == head.beside(
        a.beside(b).beside(c),
    ).beside(d));
}

/// The function that returns the type hides the four functions that the registration needs.
pub proof fn law_template_of_get_type_fn() -> (words: Seq<Seq<char>>)
    ensures
        forall|class: Class| #[trigger]
            get_type_fn_text(class) == filled(
                words,
                seq![
                    instance_init_text(class),
                    finalize_text(class),
                    class_init_text(class),
                    register_text(class),
                ],
            ),
{
    let (head, tail) = (get_type_head_text(), get_type_tail_text());
    assert forall|class: Class| #[trigger]
        get_type_fn_text(class) == filled(
            seq![head, Seq::empty(), Seq::empty(), Seq::empty(), tail],
            seq![
                instance_init_text(class),
                finalize_text(class),
                class_init_text(class),
                register_text(class),
            ],
        ) by {
        lemma_four_parts(
            head,
            instance_init_text(class),
            finalize_text(class),
            class_init_text(class),
            register_text(class),
            tail,
        );
    }
    seq![head, Seq::empty(), Seq::empty(), Seq::empty(), tail]
}

/// The traits are implemented for the class and its class struct, with the parent that is declared.
#[verifier::rlimit(50)]
#[verifier::spinoff_prover]
pub proof fn law_template_of_impls() -> (words: Seq<Seq<char>>)
    ensures
        forall|class: Class| #[trigger]
            impls_text(class) == filled(
                words,
                seq![
                    class.name@,
                    class.name@ + "Class"@,
                    get_type_fn_text(class),
                    class.name@ + "Class"@,
                    class.name@,
                    class.name@ + "Class"@,
                    parent_class_text(class),
                ],
            ),
{
    reveal_with_fuel(filled_up_to, 8);
    seq![
        "unsafe impl :: gnome_class_shims :: GInstance for"@,
        "{ type Class ="@,
        ";"@,
        "} unsafe impl :: gnome_class_shims :: GClass for"@,
        "{ type Instance ="@,
        "; } unsafe impl :: gnome_class_shims :: GSubclass for"@,
        "{ type ParentClass ="@,
        "; }"@,
    ]
}

/// A method is declared with its name, all its arguments and its result type.
pub proof fn law_template_of_trait_fns() -> (words: Seq<Seq<char>>)
    ensures
        forall|method: Method| #[trigger]
            method_trait_fn_text(method) == filled(
                words,
                seq![
                    method.name@,
                    field_list_text(method.fn_def.sig.args@),
                    return_ty_text(method.fn_def.sig),
                ],
            ),
{
    reveal_with_fuel(filled_up_to, 4);
    seq![
        "extern fn"@,
        "( & self ,"@,
        ")"@,
        ";"@,
    ]
}

/// A method is implemented with its name, all its arguments, its result type and its code.
pub proof fn law_template_of_impl_fns() -> (words: Seq<Seq<char>>)
    ensures
        forall|method: Method| #[trigger]
            method_impl_fn_text(method) == filled(
                words,
                seq![
                    method.name@,
                    field_list_text(method.fn_def.sig.args@),
                    return_ty_text(method.fn_def.sig),
                    method.fn_def.code@,
                ],
            ),
{
    broadcast use lemma_beside_associative, lemma_beside_nothing;

    reveal_with_fuel(filled_up_to, 5);
    seq![
        "extern fn"@,
        "( & self ,"@,
        ")"@,
        Seq::<char>::empty(),
        Seq::<char>::empty(),
    ]
}

/// The trait declares every method, in order, and its impl for the class implements every method,
/// in order.
pub proof fn law_template_of_methods_declared() -> (words: Seq<Seq<char>>)
    ensures
        forall|class: Class| #[trigger]
            methods_declared_text(class) == filled(
                words,
                seq![
                    "__MethodsFrom"@ + class.name@,
                    spaced(class_methods(class).map_values(|m: Method| method_trait_fn_text(m))),
                    "__MethodsFrom"@ + class.name@,
                    class.name@,
                    spaced(class_methods(class).map_values(|m: Method| method_impl_fn_text(m))),
                ],
            ),
{
    reveal_with_fuel(filled_up_to, 6);
    seq![
        "pub trait"@,
        "{"@,
        "} impl"@,
        "for"@,
        "{"@,
        "}"@,
    ]
}

/// What every class has depends on its name, its private struct and its parent.
pub proof fn law_template_of_always_impl() -> (words: Seq<Seq<char>>)
    ensures
        forall|class: Class| #[trigger]
            always_impl_text(class) == filled(
                words,
                seq![
                    class.name@,
                    class.name@,
                    class.name@,
                    class.name@,
                    private_struct(class).name@,
                    class.name@,
                    class.name@,
                    private_struct(class).name@,
                    class.name@,
                    parent_instance_text(class),
                ],
            ),
{
    broadcast use lemma_beside_associative;

    reveal_with_fuel(filled_up_to, 11);
    seq![
        "impl"@,
        "{ pub fn new ( ) -> :: gnome_class_shims :: G <"@,
        "> { use gnome_class_shims :: G ; use gnome_class_shims :: GInstance ;"@
            .beside("use gnome_class_shims :: gobject_sys :: { self , GObject } ;"@)
            .beside("use std :: ptr ; unsafe {"@)
            .beside("let data : * mut GObject = gobject_sys :: g_object_new ("@),
        ":: get_type ( ) , ptr :: null_mut ( ) ) ; G :: new ( data as * mut"@,
        ") } } fn private ( & self ) -> &"@,
        "{ use gnome_class_shims :: GInstance ;"@
            .beside("use gnome_class_shims :: gobject_sys :: { self , GTypeInstance } ;"@)
            .beside("unsafe { let this = self as * const"@),
        "as * mut GTypeInstance ;"@
            .beside("let private = gobject_sys :: g_type_instance_get_private ( this ,"@),
        ":: get_type ( ) ) ; let private = private as * const"@,
        "; & * private } } pub fn to_ref ( & self ) -> :: gnome_class_shims :: G <"@,
        "> { :: gnome_class_shims :: to_object_ref ( self ) . clone ( ) }"@
            .beside("pub fn upcast ( & self ) -> &"@),
        "{ & self . parent } }"@,
    ]
}

/// A method on the instance has the name, the arguments and the result type of the method, and
/// calls what the class struct holds under that name with the names of all the arguments.
pub proof fn law_template_of_redirects_of_methods() -> (words: Seq<Seq<char>>)
    ensures
        forall|method: Method| #[trigger]
            method_redirect_text(method) == filled(
                words,
                seq![
                    method.name@,
                    field_list_text(method.fn_def.sig.args@),
                    return_ty_text(method.fn_def.sig),
                    method.name@,
                    arg_names_text(method.fn_def.sig.args@),
                ],
            ),
{
    reveal_with_fuel(filled_up_to, 6);
    seq![
        "pub fn"@,
        "( & self ,"@,
        ")"@,
        "{ let klass = :: gnome_class_shims :: get_class ( self ) ; ( klass ."@,
        ". unwrap ( ) ) ( self ,"@,
        ") }"@,
    ]
}

/// Every method is on the instance, in order.
pub proof fn law_template_of_redirects() -> (words: Seq<Seq<char>>)
    ensures
        forall|class: Class| #[trigger]
            method_redirects_text(class) == filled(
                words,
                seq![
                    class.name@,
                    spaced(class_methods(class).map_values(|m: Method| method_redirect_text(m))),
                ],
            ),
{
    reveal_with_fuel(filled_up_to, 3);
    seq![
        "impl"@,
        "{"@,
        "}"@,
    ]
}

/// The C function of a method has the arguments and the result type of the method, and passes the
/// names of all the arguments on to the method.
pub proof fn law_template_of_c_functions_of_methods() -> (words: Seq<Seq<char>>)
    ensures
        forall|class: Class, prefix: Seq<char>, method: Method| #[trigger]
            method_c_symbol_text(class, prefix, method) == filled(
                words,
                seq![
                    prefix + "_"@ + method.name@,
                    class.name@,
                    field_list_text(method.fn_def.sig.args@),
                    return_ty_text(method.fn_def.sig),
                    class.name@,
                    method.name@,
                    arg_names_text(method.fn_def.sig.args@),
                ],
            ),
{
    reveal_with_fuel(filled_up_to, 8);
    seq![
        "# [ no_mangle ] pub extern fn"@,
        "( __this : &"@,
        ","@,
        ")"@,
        "{"@,
        "::"@,
        "( __this ,"@,
        ") }"@,
    ]
}

/// There is a C function for the type, and one for every method, in order.
#[verifier::rlimit(50)]
#[verifier::spinoff_prover]
pub proof fn law_template_of_c_functions() -> (words: Seq<Seq<char>>)
    ensures
        forall|class: Class, prefix: Seq<char>| #[trigger]
            c_symbols_text(class, prefix) == filled(
                words,
                seq![
                    prefix + "_get_type"@,
                    class.name@,
                    spaced(
                        class_methods(class).map_values(
                            |m: Method| method_c_symbol_text(class, prefix, m),
                        ),
                    ),
                ],
            ),
{
    broadcast use lemma_beside_associative, lemma_beside_nothing;

    reveal_with_fuel(filled_up_to, 4);
    seq![
        "# [ no_mangle ] pub extern fn"@,
        "( ) -> :: gnome_class_shims :: glib_sys :: GType {"@
            .beside("use gnome_class_shims :: GInstance ;"@),
        ":: get_type ( ) }"@,
        Seq::<char>::empty(),
    ]
}

} // verus!

//! What is generated for a class: the text of every item, as a function of the declaration.

use crate::ast::Class;
use crate::ast::Member;
use crate::ast::Method;
use crate::ast::OpaqueTokens;
use crate::ast::PrivateStruct;
use crate::emit::arg_names_text;
use crate::emit::byte_string_text;
use crate::emit::field_list_text;
use crate::emit::method_ty_text;
use crate::emit::return_ty_text;
use crate::letters::lower_cased_first;
use crate::tokens::spaced;
use crate::tokens::Beside;
use vstd::prelude::*;

verus! {

/// The private struct that a member is, if it is one.
pub open spec fn as_private_struct(member: Member) -> Option<PrivateStruct> {
    match member {
        Member::PrivateStruct(private) => Some(private),
        _ => None,
    }
}

/// The method that a member is, if it is one.
pub open spec fn as_method(member: Member) -> Option<Method> {
    match member {
        Member::Method(method) => Some(method),
        _ => None,
    }
}

/// The initializer that a member is, if it is one.
pub open spec fn as_init(member: Member) -> Option<OpaqueTokens> {
    match member {
        Member::Init(code) => Some(code),
        _ => None,
    }
}

/// The private structs among the members, in order.
pub open spec fn private_structs(members: Seq<Member>) -> Seq<PrivateStruct> {
    members.filter_map(|member: Member| as_private_struct(member))
}

/// The methods among the members, in order.
pub open spec fn methods_among(members: Seq<Member>) -> Seq<Method> {
    members.filter_map(|member: Member| as_method(member))
}

/// The initializers among the members, in order.
pub open spec fn inits(members: Seq<Member>) -> Seq<OpaqueTokens> {
    members.filter_map(|member: Member| as_init(member))
}

/// Whether a class declares a private struct, without which nothing can be generated for it.
pub open spec fn has_private_struct(class: Class) -> bool {
    private_structs(class.members@).len() > 0
}

/// The private struct of a class: the first one that it declares.
pub open spec fn private_struct(class: Class) -> PrivateStruct
    recommends
        has_private_struct(class),
{
    private_structs(class.members@)[0]
}

/// The methods of a class, in the order of their declaration.
pub open spec fn class_methods(class: Class) -> Seq<Method> {
    methods_among(class.members@)
}

/// The name of the class struct.
pub open spec fn class_struct_name(class: Class) -> Seq<char> {
    class.name@ + "Class"@
}

/// The name of the trait that declares the methods.
pub open spec fn methods_trait_name(class: Class) -> Seq<char> {
    "__MethodsFrom"@ + class.name@
}

/// The class that is extended where a declaration names none.
pub open spec fn gobject_text() -> Seq<char> {
    ":: gnome_class_shims :: gobject_sys :: GObject"@
}

/// The class struct of `GObject`.
pub open spec fn gobject_class_text() -> Seq<char> {
    ":: gnome_class_shims :: gobject_sys :: GObjectClass"@
}

/// The instance struct of the parent.
pub open spec fn parent_instance_text(class: Class) -> Seq<char> {
    match class.extends {
        Some(parent) => parent@,
        None => gobject_text(),
    }
}

/// The class struct of the parent.
pub open spec fn parent_class_text(class: Class) -> Seq<char> {
    "<"@.beside(parent_instance_text(class)).beside(
        "as :: gnome_class_shims :: GInstance > :: Class"@,
    )
}

/// The body of the function that makes the private data: that of the first initializer, or the
/// default of the private struct.
pub open spec fn init_text(class: Class) -> Seq<char> {
    if inits(class.members@).len() > 0 {
        inits(class.members@)[0]@
    } else {
        private_struct(class).name@.beside(":: default ( )"@)
    }
}

/// The field of the class struct that holds a method.
pub open spec fn slot_text(class: Class, method: Method) -> Seq<char> {
    method.name@.beside(": Option <"@).beside(
        method_ty_text(class.name@, method.fn_def.sig),
    ).beside("> ,"@)
}

/// The structs of a class: the instance, its private data, and the class struct.
pub open spec fn type_decls_text(class: Class) -> Seq<char> {
    let private = private_struct(class);
    "# [ repr ( C ) ] pub struct"@
        .beside(class.name@)
        .beside("{ parent :"@)
        .beside(parent_instance_text(class))
        .beside(", } struct"@)
        .beside(private.name@)
        .beside("{"@)
        .beside(field_list_text(private.fields@))
        .beside("} impl"@)
        .beside(private.name@)
        .beside("{ pub fn new ( ) -> Self"@)
        .beside(init_text(class))
        .beside("} # [ repr ( C ) ] pub struct"@)
        .beside(class_struct_name(class))
        .beside("{ parent_class :"@)
        .beside(parent_class_text(class))
        .beside(","@)
        .beside(spaced(class_methods(class).map_values(|m: Method| slot_text(class, m))))
        .beside("}"@)
}

/// The function that initializes an instance: it makes the private data.
pub open spec fn instance_init_text(class: Class) -> Seq<char> {
    "extern fn instance_init ( this : * mut GTypeInstance , _klass : gpointer ) {"@
        .beside("unsafe { let private = gobject_sys :: g_type_instance_get_private ( this ,"@)
        .beside(class.name@)
        .beside(":: get_type ( ) ) ; let private = private as * mut"@)
        .beside(private_struct(class).name@)
        .beside("; ptr :: write ( private ,"@)
        .beside(private_struct(class).name@)
        .beside(":: new ( ) ) ; } }"@)
}

/// The finalizer: it drops the private data and then calls the finalizer of the parent.
pub open spec fn finalize_text(class: Class) -> Seq<char> {
    "extern fn finalize ( this : * mut GObject ) { let this = this as * mut"@
        .beside(class.name@)
        .beside("; unsafe { ptr :: read ( ( * this ) . private ( ) ) ;"@)
        .beside("let object_class = shims :: get_class ( & * this ) ;"@)
        .beside("let parent_class = shims :: get_parent_class ( object_class ) ;"@)
        .beside("if let Some ( f ) = parent_class . finalize {"@)
        .beside("f ( this as * mut GObject ) ; } } }"@)
}

/// The statement that puts a method into its field of the class struct.
pub open spec fn assignment_text(class: Class, method: Method) -> Seq<char> {
    "klass ."@
        .beside(method.name@)
        .beside("= Some ( <"@)
        .beside(class.name@)
        .beside("as"@)
        .beside(methods_trait_name(class))
        .beside("> ::"@)
        .beside(method.name@)
        .beside(") ;"@)
}

/// The class initializer: it sets the finalizer, the size of the private data, and the field of
/// each method.
pub open spec fn class_init_text(class: Class) -> Seq<char> {
    "extern fn class_init ( klass : gpointer , _klass_data : gpointer ) {"@
        .beside("unsafe { let g_object_class = klass as * mut GObjectClass ;"@)
        .beside("( * g_object_class ) . finalize = Some ( finalize ) ;"@)
        .beside("gobject_sys :: g_type_class_add_private ( klass , mem :: size_of :: <"@)
        .beside(private_struct(class).name@)
        .beside("> ( ) ) ; let klass = klass as * mut"@)
        .beside(class_struct_name(class))
        .beside("; let klass : & mut"@)
        .beside(class_struct_name(class))
        .beside("= & mut * klass ;"@)
        .beside(spaced(class_methods(class).map_values(|m: Method| assignment_text(class, m))))
        .beside("} }"@)
}

/// The function that registers the type.
pub open spec fn register_text(class: Class) -> Seq<char> {
    "fn register ( ) -> GType { unsafe { gobject_sys :: g_type_register_static_simple ("@
        .beside(parent_instance_text(class))
        .beside(":: get_type ( ) ,"@)
        .beside(byte_string_text(class.name@))
        .beside("as * const u8 as * const i8 , mem :: size_of :: <"@)
        .beside(class_struct_name(class))
        .beside("> ( ) as u32 , Some ( class_init ) , mem :: size_of :: <"@)
        .beside(class.name@)
        .beside("> ( ) as u32 , Some ( instance_init ) , GTypeFlags :: empty ( ) ) } }"@)
}

/// The head of `get_type`, up to the functions that it hides.
pub open spec fn get_type_head_text() -> Seq<char> {
    "fn get_type ( ) -> :: gnome_class_shims :: glib_sys :: GType {"@
        .beside("use gnome_class_shims as shims ;"@)
        .beside("use gnome_class_shims :: gobject_sys :: {"@)
        .beside("self , GObject , GObjectClass , GTypeInstance , GTypeFlags } ;"@)
        .beside("use gnome_class_shims :: glib_sys :: { GType , gpointer } ;"@)
        .beside("use std :: { mem , ptr } ;"@)
}

/// The functions that `get_type` hides, so that they are not in the user's namespace.
pub open spec fn get_type_helpers_text(class: Class) -> Seq<char> {
    instance_init_text(class)
        .beside(finalize_text(class))
        .beside(class_init_text(class))
        .beside(register_text(class))
}

/// The end of `get_type`, after the functions that it hides.
pub open spec fn get_type_tail_text() -> Seq<char> {
    "lazy_static ! { static ref GTYPE : GType = register ( ) ; } * GTYPE }"@
}

/// The function that returns the type and registers it the first time.
pub open spec fn get_type_fn_text(class: Class) -> Seq<char> {
    get_type_head_text().beside(get_type_helpers_text(class)).beside(get_type_tail_text())
}

/// The impls of the shim traits.
pub open spec fn impls_text(class: Class) -> Seq<char> {
    "unsafe impl :: gnome_class_shims :: GInstance for"@
        .beside(class.name@)
        .beside("{ type Class ="@)
        .beside(class_struct_name(class))
        .beside(";"@)
        .beside(get_type_fn_text(class))
        .beside("} unsafe impl :: gnome_class_shims :: GClass for"@)
        .beside(class_struct_name(class))
        .beside("{ type Instance ="@)
        .beside(class.name@)
        .beside("; } unsafe impl :: gnome_class_shims :: GSubclass for"@)
        .beside(class_struct_name(class))
        .beside("{ type ParentClass ="@)
        .beside(parent_class_text(class))
        .beside("; }"@)
}

/// The head of the function behind a method, as it is declared and as it is implemented.
pub open spec fn method_head_text(method: Method) -> Seq<char> {
    "extern fn"@
        .beside(method.name@)
        .beside("( & self ,"@)
        .beside(field_list_text(method.fn_def.sig.args@))
        .beside(")"@)
        .beside(return_ty_text(method.fn_def.sig))
}

/// The declaration of a method in the trait.
pub open spec fn method_trait_fn_text(method: Method) -> Seq<char> {
    method_head_text(method).beside(";"@)
}

/// The implementation of a method.
pub open spec fn method_impl_fn_text(method: Method) -> Seq<char> {
    method_head_text(method).beside(method.fn_def.code@)
}

/// The trait that declares the methods, and its impl.
pub open spec fn methods_declared_text(class: Class) -> Seq<char> {
    "pub trait"@
        .beside(methods_trait_name(class))
        .beside("{"@)
        .beside(spaced(class_methods(class).map_values(|m: Method| method_trait_fn_text(m))))
        .beside("} impl"@)
        .beside(methods_trait_name(class))
        .beside("for"@)
        .beside(class.name@)
        .beside("{"@)
        .beside(spaced(class_methods(class).map_values(|m: Method| method_impl_fn_text(m))))
        .beside("}"@)
}

/// The methods that every class has.
pub open spec fn always_impl_text(class: Class) -> Seq<char> {
    let name = class.name@;
    let private_name = private_struct(class).name@;
    "impl"@
        .beside(name)
        .beside("{ pub fn new ( ) -> :: gnome_class_shims :: G <"@)
        .beside(name)
        .beside("> { use gnome_class_shims :: G ; use gnome_class_shims :: GInstance ;"@)
        .beside("use gnome_class_shims :: gobject_sys :: { self , GObject } ;"@)
        .beside("use std :: ptr ; unsafe {"@)
        .beside("let data : * mut GObject = gobject_sys :: g_object_new ("@)
        .beside(name)
        .beside(":: get_type ( ) , ptr :: null_mut ( ) ) ; G :: new ( data as * mut"@)
        .beside(name)
        .beside(") } } fn private ( & self ) -> &"@)
        .beside(private_name)
        .beside("{ use gnome_class_shims :: GInstance ;"@)
        .beside("use gnome_class_shims :: gobject_sys :: { self , GTypeInstance } ;"@)
        .beside("unsafe { let this = self as * const"@)
        .beside(name)
        .beside("as * mut GTypeInstance ;"@)
        .beside("let private = gobject_sys :: g_type_instance_get_private ( this ,"@)
        .beside(name)
        .beside(":: get_type ( ) ) ; let private = private as * const"@)
        .beside(private_name)
        .beside("; & * private } } pub fn to_ref ( & self ) -> :: gnome_class_shims :: G <"@)
        .beside(name)
        .beside("> { :: gnome_class_shims :: to_object_ref ( self ) . clone ( ) }"@)
        .beside("pub fn upcast ( & self ) -> &"@)
        .beside(parent_instance_text(class))
        .beside("{ & self . parent } }"@)
}

/// The method on the instance that calls what its class holds for it.
pub open spec fn method_redirect_text(method: Method) -> Seq<char> {
    "pub fn"@
        .beside(method.name@)
        .beside("( & self ,"@)
        .beside(field_list_text(method.fn_def.sig.args@))
        .beside(")"@)
        .beside(return_ty_text(method.fn_def.sig))
        .beside("{ let klass = :: gnome_class_shims :: get_class ( self ) ; ( klass ."@)
        .beside(method.name@)
        .beside(". unwrap ( ) ) ( self ,"@)
        .beside(arg_names_text(method.fn_def.sig.args@))
        .beside(") }"@)
}

/// The methods on the instance.
pub open spec fn method_redirects_text(class: Class) -> Seq<char> {
    "impl"@
        .beside(class.name@)
        .beside("{"@)
        .beside(spaced(class_methods(class).map_values(|m: Method| method_redirect_text(m))))
        .beside("}"@)
}

/// The C symbol of a method, where `prefix` is the one of its class.
pub open spec fn c_symbol_name(prefix: Seq<char>, method_name: Seq<char>) -> Seq<char> {
    prefix + "_"@ + method_name
}

/// The C symbol of the function that returns the type, where `prefix` is the one of the class.
pub open spec fn get_type_symbol_name(prefix: Seq<char>) -> Seq<char> {
    prefix + "_get_type"@
}

/// The C function of a method.
pub open spec fn method_c_symbol_text(
    class: Class,
    prefix: Seq<char>,
    method: Method,
) -> Seq<char> {
    "# [ no_mangle ] pub extern fn"@
        .beside(c_symbol_name(prefix, method.name@))
        .beside("( __this : &"@)
        .beside(class.name@)
        .beside(","@)
        .beside(field_list_text(method.fn_def.sig.args@))
        .beside(")"@)
        .beside(return_ty_text(method.fn_def.sig))
        .beside("{"@)
        .beside(class.name@)
        .beside("::"@)
        .beside(method.name@)
        .beside("( __this ,"@)
        .beside(arg_names_text(method.fn_def.sig.args@))
        .beside(") }"@)
}

/// The C functions of a class, where their names start with `prefix`.
pub open spec fn c_symbols_text(class: Class, prefix: Seq<char>) -> Seq<char> {
    "# [ no_mangle ] pub extern fn"@
        .beside(get_type_symbol_name(prefix))
        .beside("( ) -> :: gnome_class_shims :: glib_sys :: GType {"@)
        .beside("use gnome_class_shims :: GInstance ;"@)
        .beside(class.name@)
        .beside(":: get_type ( ) }"@)
        .beside(
            spaced(
                class_methods(class).map_values(
                    |m: Method| method_c_symbol_text(class, prefix, m),
                ),
            ),
        )
}

/// Everything that is generated for a class.
#[verifier::opaque]
pub open spec fn class_text(class: Class) -> Seq<char> {
    type_decls_text(class)
        .beside(impls_text(class))
        .beside(methods_declared_text(class))
        .beside(always_impl_text(class))
        .beside(method_redirects_text(class))
        .beside(c_symbols_text(class, lower_cased_first(class.name@)))
}

/// Whether the generator gets as far as a class: it stops at the first one that declares no
/// private struct.
pub open spec fn is_reached(classes: Seq<Class>, i: int) -> bool {
    &&& 0 <= i < classes.len()
    &&& forall|j: int| 0 <= j <= i ==> has_private_struct(#[trigger] classes[j])
}

/// Everything that is generated for a list of classes.
pub open spec fn classes_text(classes: Seq<Class>) -> Seq<char> {
    spaced(classes.map_values(|class: Class| class_text(class)))
}

} // verus!

use gnome_class_gen::ast::{
    Class, Field, FnDef, FnSig, Member, Method, OpaqueTokens, PrivateStruct, Program, Type,
};
use gnome_class_gen::balance::{class_closes_what_it_opens, classes_close_what_they_open};
use gnome_class_gen::class::{classes, ClassContext, Error};
use gnome_class_gen::names::Identifier;
use quote::Tokens;

fn id(name: &str) -> Identifier {
    Identifier::new(name)
}

fn named(name: &str) -> Type {
    Type::Name(id(name))
}

fn code(text: &str) -> OpaqueTokens {
    let mut tokens = Tokens::new();
    tokens.append(text);
    OpaqueTokens { tokens }
}

fn method(name: &str, args: Vec<Field>, return_ty: Option<Type>, body: &str) -> Member {
    Member::Method(Method {
        name: id(name),
        fn_def: FnDef { sig: FnSig { args, return_ty }, code: code(body) },
    })
}

fn private(name: &str, fields: Vec<Field>) -> Member {
    Member::PrivateStruct(PrivateStruct { name: id(name), fields })
}

fn counter() -> Class {
    Class {
        name: id("Counter"),
        extends: None,
        members: vec![
            private(
                "CounterPrivate",
                vec![
                    Field { name: id("f"), ty: Type::Args(id("Cell"), vec![named("u32")]) },
                    Field { name: id("g"), ty: Type::Array(Box::new(named("u8"))) },
                ],
            ),
            method(
                "add",
                vec![
                    Field { name: id("x"), ty: named("u32") },
                    Field { name: id("y"), ty: Type::Sum(vec![named("A"), named("B")]) },
                ],
                Some(named("u32")),
                "{ self . private ( ) . f . get ( ) + x }",
            ),
            Member::Init(code("{ CounterPrivate { f : Cell :: new ( 0 ) } }")),
            method("reset", vec![], None, "{ }"),
        ],
    }
}

fn button() -> Class {
    Class {
        name: id("Button"),
        extends: Some(id("Widget")),
        members: vec![private("ButtonPrivate", vec![])],
    }
}

fn program(classes: Vec<Class>) -> Program {
    Program { classes }
}

fn strings(pieces: &[Tokens]) -> Vec<String> {
    pieces.iter().map(|piece| piece.as_str().to_string()).collect()
}

#[test]
fn counter_type_decls() {
    let program = program(vec![counter()]);
    let cx = ClassContext::new(&program, &program.classes[0]).unwrap();
    let expected: &str = &[
        "# [ repr ( C ) ] pub struct Counter { parent : :: gnome_class_shims :: gobject_sys",
        " :: GObject , } struct CounterPrivate { f : Cell < u32 > , g : [ u8 ] } impl",
        " CounterPrivate { pub fn new ( ) -> Self { CounterPrivate { f : Cell :: new ( 0 ) }",
        " } } # [ repr ( C ) ] pub struct CounterClass { parent_class : < ::",
        " gnome_class_shims :: gobject_sys :: GObject as :: gnome_class_shims :: GInstance >",
        " :: Class , add : Option < extern fn( & Counter ,  u32 ,  A + B ,  )  ->  u32 > ,",
        " reset : Option < extern fn( & Counter ,  ) > , }",
    ].concat();
    assert_eq!(cx.type_decls().as_str(), expected);
}

#[test]
fn button_type_decls() {
    let program = program(vec![button()]);
    let cx = ClassContext::new(&program, &program.classes[0]).unwrap();
    let expected: &str = &[
        "# [ repr ( C ) ] pub struct Button { parent : Widget , } struct ButtonPrivate { }",
        " impl ButtonPrivate { pub fn new ( ) -> Self ButtonPrivate :: default ( ) } # [ repr",
        " ( C ) ] pub struct ButtonClass { parent_class : < Widget as :: gnome_class_shims ::",
        " GInstance > :: Class , }",
    ].concat();
    assert_eq!(cx.type_decls().as_str(), expected);
}

#[test]
fn counter_impls() {
    let program = program(vec![counter()]);
    let cx = ClassContext::new(&program, &program.classes[0]).unwrap();
    let expected: &str = &[
        "unsafe impl :: gnome_class_shims :: GInstance for Counter { type Class =",
        " CounterClass ; fn get_type ( ) -> :: gnome_class_shims :: glib_sys :: GType { use",
        " gnome_class_shims as shims ; use gnome_class_shims :: gobject_sys :: { self ,",
        " GObject , GObjectClass , GTypeInstance , GTypeFlags } ; use gnome_class_shims ::",
        " glib_sys :: { GType , gpointer } ; use std :: { mem , ptr } ; extern fn",
        " instance_init ( this : * mut GTypeInstance , _klass : gpointer ) { unsafe { let",
        " private = gobject_sys :: g_type_instance_get_private ( this , Counter :: get_type (",
        " ) ) ; let private = private as * mut CounterPrivate ; ptr :: write ( private ,",
        " CounterPrivate :: new ( ) ) ; } } extern fn finalize ( this : * mut GObject ) { let",
        " this = this as * mut Counter ; unsafe { ptr :: read ( ( * this ) . private ( ) ) ;",
        " let object_class = shims :: get_class ( & * this ) ; let parent_class = shims ::",
        " get_parent_class ( object_class ) ; if let Some ( f ) = parent_class . finalize { f",
        " ( this as * mut GObject ) ; } } } extern fn class_init ( klass : gpointer ,",
        " _klass_data : gpointer ) { unsafe { let g_object_class = klass as * mut",
        " GObjectClass ; ( * g_object_class ) . finalize = Some ( finalize ) ; gobject_sys ::",
        " g_type_class_add_private ( klass , mem :: size_of :: < CounterPrivate > ( ) ) ; let",
        " klass = klass as * mut CounterClass ; let klass : & mut CounterClass = & mut *",
        " klass ; klass . add = Some ( < Counter as __MethodsFromCounter > :: add ) ; klass .",
        " reset = Some ( < Counter as __MethodsFromCounter > :: reset ) ; } } fn register ( )",
        " -> GType { unsafe { gobject_sys :: g_type_register_static_simple ( ::",
        " gnome_class_shims :: gobject_sys :: GObject :: get_type ( ) , b\"Counter\\0\" as *",
        " const u8 as * const i8 , mem :: size_of :: < CounterClass > ( ) as u32 , Some (",
        " class_init ) , mem :: size_of :: < Counter > ( ) as u32 , Some ( instance_init ) ,",
        " GTypeFlags :: empty ( ) ) } } lazy_static ! { static ref GTYPE : GType = register (",
        " ) ; } * GTYPE } } unsafe impl :: gnome_class_shims :: GClass for CounterClass {",
        " type Instance = Counter ; } unsafe impl :: gnome_class_shims :: GSubclass for",
        " CounterClass { type ParentClass = < :: gnome_class_shims :: gobject_sys :: GObject",
        " as :: gnome_class_shims :: GInstance > :: Class ; }",
    ].concat();
    assert_eq!(cx.impls().as_str(), expected);
}

#[test]
fn button_impls() {
    let program = program(vec![button()]);
    let cx = ClassContext::new(&program, &program.classes[0]).unwrap();
    let expected: &str = &[
        "unsafe impl :: gnome_class_shims :: GInstance for Button { type Class = ButtonClass",
        " ; fn get_type ( ) -> :: gnome_class_shims :: glib_sys :: GType { use",
        " gnome_class_shims as shims ; use gnome_class_shims :: gobject_sys :: { self ,",
        " GObject , GObjectClass , GTypeInstance , GTypeFlags } ; use gnome_class_shims ::",
        " glib_sys :: { GType , gpointer } ; use std :: { mem , ptr } ; extern fn",
        " instance_init ( this : * mut GTypeInstance , _klass : gpointer ) { unsafe { let",
        " private = gobject_sys :: g_type_instance_get_private ( this , Button :: get_type (",
        " ) ) ; let private = private as * mut ButtonPrivate ; ptr :: write ( private ,",
        " ButtonPrivate :: new ( ) ) ; } } extern fn finalize ( this : * mut GObject ) { let",
        " this = this as * mut Button ; unsafe { ptr :: read ( ( * this ) . private ( ) ) ;",
        " let object_class = shims :: get_class ( & * this ) ; let parent_class = shims ::",
        " get_parent_class ( object_class ) ; if let Some ( f ) = parent_class . finalize { f",
        " ( this as * mut GObject ) ; } } } extern fn class_init ( klass : gpointer ,",
        " _klass_data : gpointer ) { unsafe { let g_object_class = klass as * mut",
        " GObjectClass ; ( * g_object_class ) . finalize = Some ( finalize ) ; gobject_sys ::",
        " g_type_class_add_private ( klass , mem :: size_of :: < ButtonPrivate > ( ) ) ; let",
        " klass = klass as * mut ButtonClass ; let klass : & mut ButtonClass = & mut * klass",
        " ; } } fn register ( ) -> GType { unsafe { gobject_sys ::",
        " g_type_register_static_simple ( Widget :: get_type ( ) , b\"Button\\0\" as * const u8",
        " as * const i8 , mem :: size_of :: < ButtonClass > ( ) as u32 , Some ( class_init )",
        " , mem :: size_of :: < Button > ( ) as u32 , Some ( instance_init ) , GTypeFlags ::",
        " empty ( ) ) } } lazy_static ! { static ref GTYPE : GType = register ( ) ; } * GTYPE",
        " } } unsafe impl :: gnome_class_shims :: GClass for ButtonClass { type Instance =",
        " Button ; } unsafe impl :: gnome_class_shims :: GSubclass for ButtonClass { type",
        " ParentClass = < Widget as :: gnome_class_shims :: GInstance > :: Class ; }",
    ].concat();
    assert_eq!(cx.impls().as_str(), expected);
}

#[test]
fn counter_methods_declared_in_instance() {
    let program = program(vec![counter()]);
    let cx = ClassContext::new(&program, &program.classes[0]).unwrap();
    let expected: &str = &[
        "pub trait __MethodsFromCounter { extern fn add ( & self , x : u32 , y : A + B )  ->  u32",
        " ; extern fn reset ( & self , ) ; } impl __MethodsFromCounter for Counter { extern",
        " fn add ( & self , x : u32 , y : A + B )  ->  u32 { self . private ( ) . f . get ( )",
        " + x } extern fn reset ( & self , ) { } }",
    ].concat();
    assert_eq!(cx.methods_declared_in_instance().as_str(), expected);
}

#[test]
fn button_methods_declared_in_instance() {
    let program = program(vec![button()]);
    let cx = ClassContext::new(&program, &program.classes[0]).unwrap();
    let expected: &str = &[
        "pub trait __MethodsFromButton { } impl __MethodsFromButton for Button { }",
    ].concat();
    assert_eq!(cx.methods_declared_in_instance().as_str(), expected);
}

#[test]
fn counter_always_impl() {
    let program = program(vec![counter()]);
    let cx = ClassContext::new(&program, &program.classes[0]).unwrap();
    let expected: &str = &[
        "impl Counter { pub fn new ( ) -> :: gnome_class_shims :: G < Counter > { use",
        " gnome_class_shims :: G ; use gnome_class_shims :: GInstance ; use gnome_class_shims",
        " :: gobject_sys :: { self , GObject } ; use std :: ptr ; unsafe { let data : * mut",
        " GObject = gobject_sys :: g_object_new ( Counter :: get_type ( ) , ptr :: null_mut (",
        " ) ) ; G :: new ( data as * mut Counter ) } } fn private ( & self ) -> &",
        " CounterPrivate { use gnome_class_shims :: GInstance ; use gnome_class_shims ::",
        " gobject_sys :: { self , GTypeInstance } ; unsafe { let this = self as * const",
        " Counter as * mut GTypeInstance ; let private = gobject_sys ::",
        " g_type_instance_get_private ( this , Counter :: get_type ( ) ) ; let private =",
        " private as * const CounterPrivate ; & * private } } pub fn to_ref ( & self ) -> ::",
        " gnome_class_shims :: G < Counter > { :: gnome_class_shims :: to_object_ref ( self )",
        " . clone ( ) } pub fn upcast ( & self ) -> & :: gnome_class_shims :: gobject_sys ::",
        " GObject { & self . parent } }",
    ].concat();
    assert_eq!(cx.always_impl().as_str(), expected);
}

#[test]
fn button_always_impl() {
    let program = program(vec![button()]);
    let cx = ClassContext::new(&program, &program.classes[0]).unwrap();
    let expected: &str = &[
        "impl Button { pub fn new ( ) -> :: gnome_class_shims :: G < Button > { use",
        " gnome_class_shims :: G ; use gnome_class_shims :: GInstance ; use gnome_class_shims",
        " :: gobject_sys :: { self , GObject } ; use std :: ptr ; unsafe { let data : * mut",
        " GObject = gobject_sys :: g_object_new ( Button :: get_type ( ) , ptr :: null_mut (",
        " ) ) ; G :: new ( data as * mut Button ) } } fn private ( & self ) -> &",
        " ButtonPrivate { use gnome_class_shims :: GInstance ; use gnome_class_shims ::",
        " gobject_sys :: { self , GTypeInstance } ; unsafe { let this = self as * const",
        " Button as * mut GTypeInstance ; let private = gobject_sys ::",
        " g_type_instance_get_private ( this , Button :: get_type ( ) ) ; let private =",
        " private as * const ButtonPrivate ; & * private } } pub fn to_ref ( & self ) -> ::",
        " gnome_class_shims :: G < Button > { :: gnome_class_shims :: to_object_ref ( self )",
        " . clone ( ) } pub fn upcast ( & self ) -> & Widget { & self . parent } }",
    ].concat();
    assert_eq!(cx.always_impl().as_str(), expected);
}

#[test]
fn counter_method_redirects() {
    let program = program(vec![counter()]);
    let cx = ClassContext::new(&program, &program.classes[0]).unwrap();
    let expected: &str = &[
        "impl Counter { pub fn add ( & self , x : u32 , y : A + B )  ->  u32 { let klass = ::",
        " gnome_class_shims :: get_class ( self ) ; ( klass . add . unwrap ( ) ) ( self , x ,",
        " y ) } pub fn reset ( & self , ) { let klass = :: gnome_class_shims :: get_class (",
        " self ) ; ( klass . reset . unwrap ( ) ) ( self , ) } }",
    ].concat();
    assert_eq!(cx.method_redirects().as_str(), expected);
}

#[test]
fn button_method_redirects() {
    let program = program(vec![button()]);
    let cx = ClassContext::new(&program, &program.classes[0]).unwrap();
    let expected: &str = &[
        "impl Button { }",
    ].concat();
    assert_eq!(cx.method_redirects().as_str(), expected);
}

#[test]
fn counter_c_symbols() {
    let program = program(vec![counter()]);
    let cx = ClassContext::new(&program, &program.classes[0]).unwrap();
    let expected: &str = &[
        "# [ no_mangle ] pub extern fn counter_get_type ( ) -> :: gnome_class_shims ::",
        " glib_sys :: GType { use gnome_class_shims :: GInstance ; Counter :: get_type ( ) }",
        " # [ no_mangle ] pub extern fn counter_add ( __this : & Counter , x : u32 , y : A +",
        " B )  ->  u32 { Counter :: add ( __this , x , y ) } # [ no_mangle ] pub extern fn",
        " counter_reset ( __this : & Counter , ) { Counter :: reset ( __this , ) }",
    ].concat();
    assert_eq!(cx.c_symbols().as_str(), expected);
}

#[test]
fn button_c_symbols() {
    let program = program(vec![button()]);
    let cx = ClassContext::new(&program, &program.classes[0]).unwrap();
    let expected: &str = &[
        "# [ no_mangle ] pub extern fn button_get_type ( ) -> :: gnome_class_shims ::",
        " glib_sys :: GType { use gnome_class_shims :: GInstance ; Button :: get_type ( ) }",
    ].concat();
    assert_eq!(cx.c_symbols().as_str(), expected);
}

#[test]
fn counter_get_type_fn() {
    let program = program(vec![counter()]);
    let cx = ClassContext::new(&program, &program.classes[0]).unwrap();
    let expected: &str = &[
        "fn get_type ( ) -> :: gnome_class_shims :: glib_sys :: GType { use gnome_class_shims",
        " as shims ; use gnome_class_shims :: gobject_sys :: { self , GObject , GObjectClass",
        " , GTypeInstance , GTypeFlags } ; use gnome_class_shims :: glib_sys :: { GType ,",
        " gpointer } ; use std :: { mem , ptr } ; extern fn instance_init ( this : * mut",
        " GTypeInstance , _klass : gpointer ) { unsafe { let private = gobject_sys ::",
        " g_type_instance_get_private ( this , Counter :: get_type ( ) ) ; let private =",
        " private as * mut CounterPrivate ; ptr :: write ( private , CounterPrivate :: new (",
        " ) ) ; } } extern fn finalize ( this : * mut GObject ) { let this = this as * mut",
        " Counter ; unsafe { ptr :: read ( ( * this ) . private ( ) ) ; let object_class =",
        " shims :: get_class ( & * this ) ; let parent_class = shims :: get_parent_class (",
        " object_class ) ; if let Some ( f ) = parent_class . finalize { f ( this as * mut",
        " GObject ) ; } } } extern fn class_init ( klass : gpointer , _klass_data : gpointer",
        " ) { unsafe { let g_object_class = klass as * mut GObjectClass ; ( * g_object_class",
        " ) . finalize = Some ( finalize ) ; gobject_sys :: g_type_class_add_private ( klass",
        " , mem :: size_of :: < CounterPrivate > ( ) ) ; let klass = klass as * mut",
        " CounterClass ; let klass : & mut CounterClass = & mut * klass ; klass . add = Some",
        " ( < Counter as __MethodsFromCounter > :: add ) ; klass . reset = Some ( < Counter",
        " as __MethodsFromCounter > :: reset ) ; } } fn register ( ) -> GType { unsafe {",
        " gobject_sys :: g_type_register_static_simple ( :: gnome_class_shims :: gobject_sys",
        " :: GObject :: get_type ( ) , b\"Counter\\0\" as * const u8 as * const i8 , mem ::",
        " size_of :: < CounterClass > ( ) as u32 , Some ( class_init ) , mem :: size_of :: <",
        " Counter > ( ) as u32 , Some ( instance_init ) , GTypeFlags :: empty ( ) ) } }",
        " lazy_static ! { static ref GTYPE : GType = register ( ) ; } * GTYPE }",
    ].concat();
    assert_eq!(cx.get_type_fn().as_str(), expected);
}

#[test]
fn counter_method_fn_tys() {
    let program = program(vec![counter()]);
    let cx = ClassContext::new(&program, &program.classes[0]).unwrap();
    assert_eq!(
        strings(&cx.method_fn_tys()),
        vec![
            "extern fn( & Counter ,  u32 ,  A + B ,  )  ->  u32",
            "extern fn( & Counter ,  )",
        ],
    );
}

#[test]
fn counter_method_trait_fns() {
    let program = program(vec![counter()]);
    let cx = ClassContext::new(&program, &program.classes[0]).unwrap();
    assert_eq!(
        strings(&cx.method_trait_fns()),
        vec![
            "extern fn add ( & self , x : u32 , y : A + B )  ->  u32 ;",
            "extern fn reset ( & self , ) ;",
        ],
    );
}

#[test]
fn counter_method_impl_fns() {
    let program = program(vec![counter()]);
    let cx = ClassContext::new(&program, &program.classes[0]).unwrap();
    assert_eq!(
        strings(&cx.method_impl_fns()),
        vec![
            "extern fn add ( & self , x : u32 , y : A + B )  ->  u32 { self . private ( ) . f . get ( ) + x }",
            "extern fn reset ( & self , ) { }",
        ],
    );
}

#[test]
fn the_class_is_its_parts_in_order() {
    let program = program(vec![counter()]);
    let cx = ClassContext::new(&program, &program.classes[0]).unwrap();
    let parts = vec![
        cx.type_decls(),
        cx.impls(),
        cx.methods_declared_in_instance(),
        cx.always_impl(),
        cx.method_redirects(),
        cx.c_symbols(),
    ];
    assert_eq!(cx.gen_class().unwrap().as_str(), strings(&parts).join(" "));
}

#[test]
fn the_program_is_its_classes_in_order() {
    let both = program(vec![counter(), button()]);
    let first = ClassContext::new(&both, &both.classes[0]).unwrap().gen_class().unwrap();
    let second = ClassContext::new(&both, &both.classes[1]).unwrap().gen_class().unwrap();
    let expected = [first.as_str(), second.as_str()].join(" ");
    assert_eq!(classes(&both).unwrap().as_str(), expected);
    let alone = program(vec![counter()]);
    assert_eq!(classes(&alone).unwrap().as_str(), first.as_str());
}

#[test]
fn no_classes_generate_nothing() {
    assert_eq!(classes(&program(vec![])).unwrap().as_str(), "");
}

#[test]
fn a_class_without_private_struct_is_refused() {
    let bare = Class { name: id("Bare"), extends: None, members: vec![method("m", vec![], None, "{ }")] };
    let program = program(vec![counter(), bare]);
    assert_eq!(ClassContext::new(&program, &program.classes[1]).err(), Some(Error::NoPrivateStruct));
    assert_eq!(classes(&program).err(), Some(Error::NoPrivateStruct));
    assert_eq!(Error::NoPrivateStruct.message(), "no private struct found");
}

#[test]
fn a_class_after_the_refused_one_is_not_reached() {
    let bare = Class { name: id("Bare"), extends: None, members: vec![] };
    let nameless = Class { name: id(""), extends: None, members: vec![private("P", vec![])] };
    assert_eq!(classes(&program(vec![bare, nameless])).err(), Some(Error::NoPrivateStruct));
}

#[test]
fn only_the_first_private_struct_and_initializer_count() {
    let mut more = counter();
    more.members.push(private("Other", vec![Field { name: id("z"), ty: named("u8") }]));
    more.members.push(Member::Init(code("{ Other }")));
    let expected = classes(&program(vec![counter()])).unwrap();
    assert_eq!(classes(&program(vec![more])).unwrap().as_str(), expected.as_str());
}

#[test]
fn initializer_or_default() {
    let program = program(vec![counter()]);
    let cx = ClassContext::new(&program, &program.classes[0]).unwrap();
    assert_eq!(cx.init_fn().as_str(), "{ CounterPrivate { f : Cell :: new ( 0 ) } }");
    let other = Program { classes: vec![button()] };
    let cx = ClassContext::new(&other, &other.classes[0]).unwrap();
    assert_eq!(cx.init_fn().as_str(), "ButtonPrivate :: default ( )");
}

#[test]
fn methods_in_the_order_of_declaration() {
    let program = program(vec![counter()]);
    let cx = ClassContext::new(&program, &program.classes[0]).unwrap();
    let methods: Vec<String> = cx.methods().iter().map(|m| m.name.text()).collect();
    assert_eq!(methods, vec!["add", "reset"]);
    let names: Vec<String> = cx.method_names().iter().map(|name| name.text()).collect();
    assert_eq!(names, vec!["add", "reset"]);
}

#[test]
fn class_name_in_lower_case() {
    let program = program(vec![
        Class { name: id("MyWidget"), extends: None, members: vec![private("P", vec![])] },
        Class { name: id("_Raw"), extends: None, members: vec![private("P", vec![])] },
        Class { name: id("\u{c9}tat"), extends: None, members: vec![private("P", vec![])] },
        Class { name: id("\u{130}x"), extends: None, members: vec![private("P", vec![])] },
    ]);
    let lower = |i: usize| {
        ClassContext::new(&program, &program.classes[i]).unwrap().lower_case_class_name()
    };
    assert_eq!(lower(0), "myWidget");
    assert_eq!(lower(1), "_Raw");
    assert_eq!(lower(2), "\u{e9}tat");
    assert_eq!(lower(3), "i\u{307}x");
}

#[test]
fn c_symbols_with_a_given_prefix() {
    let program = program(vec![button()]);
    let cx = ClassContext::new(&program, &program.classes[0]).unwrap();
    let expected = "# [ no_mangle ] pub extern fn button_get_type ( ) -> :: gnome_class_shims :: glib_sys :: GType { use gnome_class_shims :: GInstance ; Button :: get_type ( ) }".replace("button_", "gtk_button_");
    assert_eq!(cx.c_symbols_from("gtk_button").as_str(), expected);
}

#[test]
fn every_method_has_its_place_in_each_part() {
    let program = program(vec![counter()]);
    let cx = ClassContext::new(&program, &program.classes[0]).unwrap();
    let types = strings(&cx.method_fn_tys());
    let declared = strings(&cx.method_trait_fns());
    let implemented = strings(&cx.method_impl_fns());
    for (i, name) in ["add", "reset"].iter().enumerate() {
        let slot = format!("{} : Option < {} > ,", name, types[i]);
        assert!(cx.type_decls().as_str().contains(&slot));
        let filled = format!("klass . {0} = Some ( < Counter as __MethodsFromCounter > :: {0} ) ;", name);
        assert!(cx.get_type_fn().as_str().contains(&filled));
        assert!(cx.methods_declared_in_instance().as_str().contains(&declared[i]));
        assert!(cx.methods_declared_in_instance().as_str().contains(&implemented[i]));
        assert!(cx.method_redirects().as_str().contains(&format!("pub fn {} (", name)));
        assert!(cx.c_symbols().as_str().contains(&format!("pub extern fn counter_{} (", name)));
    }
}

#[test]
fn other_members_may_stand_anywhere() {
    let mut moved = counter();
    let private_data = moved.members.remove(0);
    moved.members.push(private_data);
    let expected = classes(&program(vec![counter()])).unwrap();
    assert_eq!(classes(&program(vec![moved])).unwrap().as_str(), expected.as_str());
}

#[test]
fn no_parent_is_gobject() {
    let mut explicit = counter();
    explicit.extends = Some(id(":: gnome_class_shims :: gobject_sys :: GObject"));
    let expected = classes(&program(vec![counter()])).unwrap();
    assert_eq!(classes(&program(vec![explicit])).unwrap().as_str(), expected.as_str());
}

fn open_after(text: &str) -> Option<Vec<char>> {
    let mut open = Vec::new();
    for c in text.chars() {
        match c {
            '(' | '[' | '{' => open.push(c),
            ')' if open.pop() != Some('(') => return None,
            ']' if open.pop() != Some('[') => return None,
            '}' if open.pop() != Some('{') => return None,
            _ => {}
        }
    }
    Some(open)
}

#[test]
fn generated_code_closes_what_it_opens() {
    let both = program(vec![counter(), button()]);
    assert_eq!(open_after(classes(&both).unwrap().as_str()), Some(vec![]));
}

#[test]
fn helpers_are_hidden_in_get_type() {
    let program = program(vec![counter()]);
    let cx = ClassContext::new(&program, &program.classes[0]).unwrap();
    let tokens = cx.get_type_fn();
    let text = tokens.as_str();
    for helper in ["extern fn instance_init", "extern fn finalize", "extern fn class_init", "fn register"] {
        let start = text.find(helper).unwrap();
        assert_eq!(open_after(&text[..start]), Some(vec!['{']));
    }
    assert_eq!(open_after(text), Some(vec![]));
}

#[test]
fn different_methods_have_different_c_symbols() {
    let program = program(vec![counter()]);
    let cx = ClassContext::new(&program, &program.classes[0]).unwrap();
    let tokens = cx.c_symbols();
    for symbol in ["counter_get_type", "counter_add", "counter_reset"] {
        assert_eq!(tokens.as_str().matches(symbol).count(), 1);
    }
}

#[test]
fn counter_method_assignments() {
    let program = program(vec![counter()]);
    let cx = ClassContext::new(&program, &program.classes[0]).unwrap();
    assert_eq!(
        strings(&cx.method_assignments()),
        vec![
            "klass . add = Some ( < Counter as __MethodsFromCounter > :: add ) ;",
            "klass . reset = Some ( < Counter as __MethodsFromCounter > :: reset ) ;",
        ],
    );
}

#[test]
fn delimiters_in_the_name_of_a_class() {
    let named = |name: &str| Class { name: id(name), ..button() };
    let bare = Class { name: id("Bare"), extends: None, members: vec![] };
    let good = program(vec![counter(), button()]);
    assert!(class_closes_what_it_opens(&good, &good.classes[0]));
    assert!(classes_close_what_they_open(&good));
    assert!(classes_close_what_they_open(&program(vec![])));
    assert!(!classes_close_what_they_open(&program(vec![counter(), named("A{")])));
    assert!(!classes_close_what_they_open(&program(vec![named(")")])));
    assert!(!classes_close_what_they_open(&program(vec![named("")])));
    assert!(!classes_close_what_they_open(&program(vec![bare])));
}

#[test]
fn different_classes_have_different_structs_and_traits() {
    let both = program(vec![counter(), button()]);
    let text = classes(&both).unwrap();
    for name in ["pub struct CounterClass", "pub struct ButtonClass"] {
        assert_eq!(text.as_str().matches(name).count(), 1);
    }
    for name in ["pub trait __MethodsFromCounter", "pub trait __MethodsFromButton"] {
        assert_eq!(text.as_str().matches(name).count(), 1);
    }
}

#[test]
fn a_method_called_get_type_meets_the_symbol_of_the_class() {
    let mut class = button();
    class.members.push(method("get_type", vec![], None, "{ }"));
    let program = program(vec![class]);
    let cx = ClassContext::new(&program, &program.classes[0]).unwrap();
    assert_eq!(cx.c_symbols().as_str().matches("pub extern fn button_get_type (").count(), 2);
}

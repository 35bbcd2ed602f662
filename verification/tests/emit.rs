use gnome_class_gen::ast::{Field, FnSig, OpaqueTokens, Type};
use gnome_class_gen::emit::{ByteString, MethodTy};
use gnome_class_gen::letters::{lower_case_first, replace_first};
use gnome_class_gen::names::Identifier;
use gnome_class_gen::nesting::holds_no_delimiter;
use quote::{ToTokens, Tokens};

fn id(name: &str) -> Identifier {
    Identifier::new(name)
}

fn named(name: &str) -> Type {
    Type::Name(id(name))
}

fn text<T: ToTokens>(item: &T) -> String {
    let mut tokens = Tokens::new();
    item.to_tokens(&mut tokens);
    tokens.into_string()
}

fn get() -> FnSig {
    FnSig {
        args: vec![
            Field { name: id("x"), ty: named("u32") },
            Field { name: id("y"), ty: named("u32") },
        ],
        return_ty: Some(named("u32")),
    }
}

fn unit() -> FnSig {
    FnSig { args: vec![], return_ty: None }
}

#[test]
fn types() {
    assert_eq!(text(&named("u8")), "u8");
    assert_eq!(text(&Type::Array(Box::new(named("u8")))), "[ u8 ]");
    assert_eq!(text(&Type::Args(id("Vec"), vec![named("u8")])), "Vec < u8 >");
    assert_eq!(text(&Type::Args(id("Map"), vec![named("A"), named("B")])), "Map < A , B >");
    assert_eq!(text(&Type::Args(id("Unit"), vec![])), "Unit < >");
    assert_eq!(text(&Type::Sum(vec![named("A"), named("B"), named("C")])), "A + B + C");
    assert_eq!(text(&Type::Sum(vec![])), "");
    let nested = Type::Args(id("Box"), vec![Type::Array(Box::new(Type::Sum(vec![named("A")])))]);
    assert_eq!(text(&nested), "Box < [ A ] >");
}

#[test]
fn fields_and_names() {
    assert_eq!(text(&Field { name: id("x"), ty: named("u32") }), "x : u32");
    assert_eq!(text(&id("x")), "x");
    assert_eq!(text(&id("")), "");
}

#[test]
fn text_goes_after_what_is_there() {
    let mut tokens = Tokens::new();
    tokens.append("struct S {");
    Field { name: id("x"), ty: named("u32") }.to_tokens(&mut tokens);
    tokens.append("}");
    assert_eq!(tokens.as_str(), "struct S { x : u32 }");
}

#[test]
fn opaque_code_is_passed_on() {
    let mut tokens = Tokens::new();
    tokens.append("{ a  +  b }");
    assert_eq!(text(&OpaqueTokens { tokens }), "{ a  +  b }");
}

#[test]
fn byte_string_ends_in_nul() {
    assert_eq!(text(&ByteString(id("Counter"))), "b\"Counter\\0\"");
}

#[test]
fn signature_bits() {
    assert_eq!(text(&get().arg_decls()), "x : u32 , y : u32");
    assert_eq!(text(&get().arg_names()), "x , y");
    assert_eq!(text(&get().return_ty()), " ->  u32");
    assert_eq!(text(&unit().arg_decls()), "");
    assert_eq!(text(&unit().arg_names()), "");
    assert_eq!(text(&unit().return_ty()), "");
}

#[test]
fn method_types() {
    let sig = get();
    let ty = MethodTy { class_name: id("Counter"), sig: &sig };
    assert_eq!(text(&ty), "extern fn( & Counter ,  u32 ,  u32 ,  )  ->  u32");
    let sig = unit();
    let ty = MethodTy { class_name: id("Counter"), sig: &sig };
    assert_eq!(text(&ty), "extern fn( & Counter ,  )");
}

#[test]
fn first_letter() {
    assert_eq!(replace_first("Counter", "xy"), "xyounter");
    assert_eq!(replace_first("C", "c"), "c");
    assert_eq!(lower_case_first("Counter"), "counter");
    assert_eq!(lower_case_first("counter"), "counter");
    assert_eq!(lower_case_first("9A"), "9A");
}

#[test]
fn delimiters() {
    for text in ["(", "a)", "[b", "c]", "{", "x}y"] {
        assert!(!holds_no_delimiter(text));
    }
    for text in ["", "counter", "a < b > :: c"] {
        assert!(holds_no_delimiter(text));
    }
}

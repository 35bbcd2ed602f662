//! How the parts of a class declaration read as generated code.

use crate::ast::Field;
use crate::ast::FnSig;
use crate::ast::OpaqueTokens;
use crate::ast::Type;
use crate::names::Identifier;
use crate::tokens::append;
use crate::tokens::append_all;
use crate::tokens::append_ident;
use crate::tokens::append_tokens;
use crate::tokens::lemma_beside_associative;
use crate::tokens::lemma_beside_nothing;
use crate::tokens::lemma_separated_push;
use crate::tokens::lemma_spaced_push;
use crate::tokens::separated;
use crate::tokens::spaced;
use crate::tokens::tokens_text;
use crate::tokens::Beside;
use quote::ToTokens;
use quote::Tokens;
use vstd::prelude::*;

verus! {

impl ToTokens for Identifier {
    fn to_tokens(&self, tokens: &mut Tokens)
        ensures
            tokens_text(*final(tokens)) == tokens_text(*old(tokens)).beside(self@),
    {
        append_ident(tokens, self.text().as_str());
    }
}

impl ToTokens for OpaqueTokens {
    fn to_tokens(&self, tokens: &mut Tokens)
        ensures
            tokens_text(*final(tokens)) == tokens_text(*old(tokens)).beside(self@),
    {
        append_tokens(tokens, &self.tokens);
    }
}

/// How a type reads.
pub open spec fn type_text(ty: Type) -> Seq<char>
    decreases ty,
{
    match ty {
        Type::Name(id) => id@,
        Type::Args(id, tys) => id@.beside("<"@).beside(
            separated(type_texts(tys@), ","@),
        ).beside(">"@),
        Type::Array(ty) => "["@.beside(type_text(*ty)).beside("]"@),
        Type::Sum(tys) => separated(type_texts(tys@), "+"@),
    }
}

/// How each of several types reads.
pub open spec fn type_texts(tys: Seq<Type>) -> Seq<Seq<char>>
    decreases tys,
{
    if tys.len() == 0 {
        Seq::empty()
    } else {
        type_texts(tys.drop_last()).push(type_text(tys.last()))
    }
}

impl ToTokens for Type {
    fn to_tokens(&self, tokens: &mut Tokens)
        ensures
            tokens_text(*final(tokens)) == tokens_text(*old(tokens)).beside(type_text(*self)),
        decreases self,
    {
        match self {
            Type::Name(id) => id.to_tokens(tokens),
            Type::Args(id, tys) => {
                let mut q = Tokens::new();
                id.to_tokens(&mut q);
                append(&mut q, "<");
                append_types(&mut q, tys, ",");
                append(&mut q, ">");
                append_all(tokens, Some(q));
            },
            Type::Array(ty) => {
                let mut q = Tokens::new();
                append(&mut q, "[");
                (**ty).to_tokens(&mut q);
                append(&mut q, "]");
                append_all(tokens, Some(q));
            },
            Type::Sum(tys) => {
                let mut q = Tokens::new();
                append_types(&mut q, tys, "+");
                append_all(tokens, Some(q));
            },
        }
    }
}

/// Appends each of the types, with `separator` between any two of them.
fn append_types(tokens: &mut Tokens, tys: &Vec<Type>, separator: &str)
    ensures
        tokens_text(*final(tokens)) == tokens_text(*old(tokens)).beside(
            separated(type_texts(tys@), separator@),
        ),
    decreases tys,
{
    broadcast use lemma_beside_associative, lemma_beside_nothing, lemma_separated_push;

    let ghost before = tokens_text(*tokens);
    let mut i: usize = 0;
    while i < tys.len()
        invariant
            i <= tys.len(),
            tokens_text(*tokens) == before.beside(
                separated(type_texts(tys@.take(i as int)), separator@),
            ),
        decreases tys.len() - i,
    {
        broadcast use lemma_beside_associative, lemma_beside_nothing, lemma_separated_push;

        proof {
            assert(tys@.take(i + 1).drop_last() =~= tys@.take(i as int));
            lemma_type_texts(tys@.take(i as int));
            assert(type_texts(tys@.take(i + 1)) == type_texts(tys@.take(i as int)).push(
                type_text(tys@[i as int]),
            ));
        }
        if i > 0 {
            append(tokens, separator);
        }
        tys[i].to_tokens(tokens);
        i += 1;
    }
    assert(tys@.take(tys@.len() as int) =~= tys@);
}

/// There is one text for each type.
proof fn lemma_type_texts(tys: Seq<Type>)
    ensures
        type_texts(tys).len() == tys.len(),
    decreases tys.len(),
{
    if tys.len() > 0 {
        lemma_type_texts(tys.drop_last());
    }
}

/// How a name with its type reads.
pub open spec fn field_text(field: Field) -> Seq<char> {
    field.name@.beside(":"@).beside(type_text(field.ty))
}

/// How a list of names with their types reads.
pub open spec fn field_list_text(fields: Seq<Field>) -> Seq<char> {
    separated(fields.map_values(|field: Field| field_text(field)), ","@)
}

impl ToTokens for Field {
    fn to_tokens(&self, tokens: &mut Tokens)
        ensures
            tokens_text(*final(tokens)) == tokens_text(*old(tokens)).beside(field_text(*self)),
    {
        broadcast use lemma_beside_associative;

        self.name.to_tokens(tokens);
        append(tokens, ":");
        self.ty.to_tokens(tokens);
    }
}

/// Appends each of the fields, with a comma between any two of them.
pub(crate) fn append_fields(tokens: &mut Tokens, fields: &Vec<Field>)
    ensures
        tokens_text(*final(tokens)) == tokens_text(*old(tokens)).beside(field_list_text(fields@)),
{
    broadcast use lemma_beside_nothing;

    let ghost before = tokens_text(*tokens);
    let mut i: usize = 0;
    while i < fields.len()
        invariant
            i <= fields.len(),
            tokens_text(*tokens) == before.beside(field_list_text(fields@.take(i as int))),
        decreases fields.len() - i,
    {
        broadcast use lemma_beside_associative, lemma_beside_nothing, lemma_separated_push;

        proof {
            let f = |field: Field| field_text(field);
            assert(fields@.take(i + 1).map_values(f) =~= fields@.take(i as int).map_values(f).push(
                field_text(fields@[i as int]),
            ));
        }
        if i > 0 {
            append(tokens, ",");
        }
        fields[i].to_tokens(tokens);
        i += 1;
    }
    assert(fields@.take(fields@.len() as int) =~= fields@);
}

/// A name as a byte string literal with a nul at its end.
///
/// The name of a class is a legal identifier, so nothing in it needs an escape.
pub struct ByteString(pub Identifier);

/// How the literal reads.
pub open spec fn byte_string_text(name: Seq<char>) -> Seq<char> {
    "b\""@ + name + "\\0\""@
}

impl ToTokens for ByteString {
    fn to_tokens(&self, tokens: &mut Tokens)
        ensures
            tokens_text(*final(tokens)) == tokens_text(*old(tokens)).beside(
                byte_string_text(self.0@),
            ),
    {
        let mut s = String::new();
        s.append("b\"");
        s.append(self.0.text().as_str());
        s.append("\\0\"");
        assert(s@ =~= byte_string_text(self.0@));
        append(tokens, s.as_str());
    }
}

/// The type of the function behind a method, as a pointer to it is stored in the class.
pub struct MethodTy<'ast> {
    /// The class, which is the type of the receiver.
    pub class_name: Identifier,
    /// The signature of the method.
    pub sig: &'ast FnSig,
}

/// How the types of the arguments read, each with a comma after it.
pub open spec fn arg_types_text(args: Seq<Field>) -> Seq<char> {
    spaced(args.map_values(|arg: Field| type_text(arg.ty).beside(", "@)))
}

/// How the type of the function reads.
pub open spec fn method_ty_text(class_name: Seq<char>, sig: FnSig) -> Seq<char> {
    "extern fn("@.beside("&"@).beside(class_name).beside(", "@).beside(
        arg_types_text(sig.args@),
    ).beside(")"@).beside(return_ty_text(sig))
}

impl<'ast> ToTokens for MethodTy<'ast> {
    fn to_tokens(&self, tokens: &mut Tokens)
        ensures
            tokens_text(*final(tokens)) == tokens_text(*old(tokens)).beside(
                method_ty_text(self.class_name@, *self.sig),
            ),
    {
        broadcast use lemma_beside_associative, lemma_beside_nothing;

        append(tokens, "extern fn(");

        append(tokens, "&");
        self.class_name.to_tokens(tokens);
        append(tokens, ", ");

        let args = &self.sig.args;
        let ghost before = tokens_text(*tokens);
        let mut i: usize = 0;
        while i < args.len()
            invariant
                i <= args.len(),
                tokens_text(*tokens) == before.beside(arg_types_text(args@.take(i as int))),
            decreases args.len() - i,
        {
            broadcast use lemma_beside_associative, lemma_spaced_push;

            proof {
                let f = |arg: Field| type_text(arg.ty).beside(", "@);
                assert(args@.take(i + 1).map_values(f) =~= args@.take(i as int).map_values(f).push(
                    type_text(args@[i as int].ty).beside(", "@),
                ));
            }
            args[i].ty.to_tokens(tokens);
            append(tokens, ", ");
            i += 1;
        }
        assert(args@.take(args@.len() as int) =~= args@);
        append(tokens, ")");

        self.sig.return_ty().to_tokens(tokens);
    }
}

/// The bits of a method signature. For each of the comments below, assume an example method
/// `fn get(&self, x: u32, y: u32) -> u32`.
impl FnSig {
    /// Generates `x: u32, y: u32`.
    pub fn arg_decls<'a>(&'a self) -> (decls: ArgDecls<'a>)
        ensures
            decls.sig == self,
    {
        ArgDecls { sig: self }
    }

    /// Generates `x, y`.
    pub fn arg_names<'a>(&'a self) -> (names: ArgNames<'a>)
        ensures
            names.sig == self,
    {
        ArgNames { sig: self }
    }

    /// Generates `-> u32`, or nothing for the unit type.
    pub fn return_ty<'a>(&'a self) -> (ty: ReturnTy<'a>)
        ensures
            ty.sig == self,
    {
        ReturnTy { sig: self }
    }
}

/// The arguments of a signature as they are declared.
pub struct ArgDecls<'ast> {
    /// The signature.
    pub sig: &'ast FnSig,
}

impl<'ast> ToTokens for ArgDecls<'ast> {
    fn to_tokens(&self, tokens: &mut Tokens)
        ensures
            tokens_text(*final(tokens)) == tokens_text(*old(tokens)).beside(
                field_list_text(self.sig.args@),
            ),
    {
        let mut q = Tokens::new();
        append_fields(&mut q, &self.sig.args);
        append_all(tokens, Some(q));
    }
}

/// The arguments of a signature as they are passed on.
pub struct ArgNames<'ast> {
    /// The signature.
    pub sig: &'ast FnSig,
}

/// How the names of the arguments read.
pub open spec fn arg_names_text(args: Seq<Field>) -> Seq<char> {
    separated(args.map_values(|arg: Field| arg.name@), ","@)
}

impl<'ast> ToTokens for ArgNames<'ast> {
    fn to_tokens(&self, tokens: &mut Tokens)
        ensures
            tokens_text(*final(tokens)) == tokens_text(*old(tokens)).beside(
                arg_names_text(self.sig.args@),
            ),
    {
        let args = &self.sig.args;
        let mut q = Tokens::new();
        let mut i: usize = 0;
        while i < args.len()
            invariant
                i <= args.len(),
                tokens_text(q) == arg_names_text(args@.take(i as int)),
            decreases args.len() - i,
        {
            broadcast use lemma_separated_push;

            proof {
                let f = |arg: Field| arg.name@;
                assert(args@.take(i + 1).map_values(f) =~= args@.take(i as int).map_values(f).push(
                    args@[i as int].name@,
                ));
            }
            if i > 0 {
                append(&mut q, ",");
            }
            args[i].name.to_tokens(&mut q);
            i += 1;
        }
        assert(args@.take(args@.len() as int) =~= args@);
        append_all(tokens, Some(q));
    }
}

/// The type of the result of a signature, with the arrow before it.
pub struct ReturnTy<'ast> {
    /// The signature.
    pub sig: &'ast FnSig,
}

/// How the type of the result reads.
pub open spec fn return_ty_text(sig: FnSig) -> Seq<char> {
    match sig.return_ty {
        Some(ty) => " -> "@.beside(type_text(ty)),
        None => Seq::empty(),
    }
}

impl<'ast> ToTokens for ReturnTy<'ast> {
    fn to_tokens(&self, tokens: &mut Tokens)
        ensures
            tokens_text(*final(tokens)) == tokens_text(*old(tokens)).beside(
                return_ty_text(*self.sig),
            ),
    {
        broadcast use lemma_beside_associative, lemma_beside_nothing;

        if let Some(return_ty) = &self.sig.return_ty {
            append(tokens, " -> ");
            return_ty.to_tokens(tokens);
        }
    }
}

} // verus!

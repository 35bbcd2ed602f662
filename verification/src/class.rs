//! The generator: from class declarations to their items.

use crate::ast::Class;
use crate::ast::Member;
use crate::ast::Method;
use crate::ast::OpaqueTokens;
use crate::ast::PrivateStruct;
use crate::ast::Program;
use crate::emit::append_fields;
use crate::emit::method_ty_text;
use crate::emit::ByteString;
use crate::emit::MethodTy;
use crate::letters::ascii_lower_cased_first;
use crate::letters::lower_case_first;
use crate::letters::lower_cased_first;
use crate::letters::starts_in_ascii;
use crate::names::Identifier;
use crate::template::always_impl_text;
use crate::template::assignment_text;
use crate::template::c_symbol_name;
use crate::template::c_symbols_text;
use crate::template::class_init_text;
use crate::template::class_methods;
use crate::template::class_struct_name;
use crate::template::class_text;
use crate::template::classes_text;
use crate::template::finalize_text;
use crate::template::get_type_fn_text;
use crate::template::get_type_symbol_name;
use crate::template::gobject_class_text;
use crate::template::gobject_text;
use crate::template::has_private_struct;
use crate::template::impls_text;
use crate::template::init_text;
use crate::template::inits;
use crate::template::instance_init_text;
use crate::template::is_reached;
use crate::template::method_c_symbol_text;
use crate::template::method_impl_fn_text;
use crate::template::method_redirect_text;
use crate::template::method_redirects_text;
use crate::template::method_trait_fn_text;
use crate::template::methods_among;
use crate::template::methods_declared_text;
use crate::template::methods_trait_name;
use crate::template::parent_class_text;
use crate::template::parent_instance_text;
use crate::template::private_struct;
use crate::template::private_structs;
use crate::template::register_text;
use crate::template::slot_text;
use crate::template::type_decls_text;
use crate::tokens::append;
use crate::tokens::append_each;
use crate::tokens::append_ident;
use crate::tokens::append_tokens;
use crate::tokens::lemma_beside_associative;
use crate::tokens::texts;
use crate::tokens::tokens_text;
use crate::tokens::Beside;
use quote::ToTokens;
use quote::Tokens;
use vstd::prelude::*;

verus! {

// The generated names that start with `__` are visible to the user of a class, but are meant to be
// hidden by hygiene.

/// Why nothing can be generated.
#[derive(Debug, Clone, Copy, PartialEq, Eq, Structural)]
pub enum Error {
    /// A class declares no private struct.
    NoPrivateStruct,
}

impl Error {
    /// The message for the user.
    pub fn message(&self) -> (text: String)
        ensures
            text@ == "no private struct found"@,
    {
        match self {
            Error::NoPrivateStruct => "no private struct found".to_owned(),
        }
    }
}

/// Generates the items of every class of a program.
pub fn classes(program: &Program) -> (result: Result<Tokens, Error>)
    requires
        forall|i: int| #[trigger]
            is_reached(program.classes@, i) ==> program.classes@[i].name@.len() > 0,
    ensures
        match result {
            Ok(tokens) => {
                &&& forall|i: int|
                    0 <= i < program.classes@.len() ==> has_private_struct(
                        #[trigger] program.classes@[i],
                    )
                &&& tokens_text(tokens) == classes_text(program.classes@)
                &&& forall|i: int|
                    0 <= i < program.classes@.len() && starts_in_ascii(
                        (#[trigger] program.classes@[i]).name@,
                    ) ==> lower_cased_first(program.classes@[i].name@)
                        == ascii_lower_cased_first(program.classes@[i].name@)
            },
            Err(error) => {
                &&& error == Error::NoPrivateStruct
                &&& exists|i: int|
                    0 <= i < program.classes@.len() && !has_private_struct(
                        #[trigger] program.classes@[i],
                    )
            },
        },
{
    let mut class_tokens: Vec<Tokens> = Vec::new();
    let mut i: usize = 0;
    while i < program.classes.len()
        invariant
            i <= program.classes.len(),
            forall|k: int| #[trigger]
                is_reached(program.classes@, k) ==> program.classes@[k].name@.len() > 0,
            forall|k: int| 0 <= k < i ==> has_private_struct(#[trigger] program.classes@[k]),
            forall|k: int|
                0 <= k < i && starts_in_ascii((#[trigger] program.classes@[k]).name@)
                    ==> lower_cased_first(program.classes@[k].name@) == ascii_lower_cased_first(
                    program.classes@[k].name@,
                ),
            texts(class_tokens@) == program.classes@.take(i as int).map_values(
                |class: Class| class_text(class),
            ),
        decreases program.classes.len() - i,
    {
        let class = &program.classes[i];
        match ClassContext::new(program, class) {
            Ok(cx) => {
                assert(is_reached(program.classes@, i as int));
                match cx.gen_class() {
                    Ok(tokens) => {
                        proof {
                            let text = |class: Class| class_text(class);
                            assert(texts(class_tokens@.push(tokens)) =~= texts(class_tokens@).push(
                                tokens_text(tokens),
                            ));
                            assert(program.classes@.take(i + 1).map_values(text)
                                =~= program.classes@.take(i as int).map_values(text).push(
                                class_text(*class),
                            ));
                        }
                        class_tokens.push(tokens);
                    },
                    Err(error) => return Err(error),
                }
            },
            Err(error) => return Err(error),
        }
        i += 1;
    }
    assert(program.classes@.take(program.classes@.len() as int) =~= program.classes@);

    let mut tokens = Tokens::new();
    append_each(&mut tokens, &class_tokens);
    Ok(tokens)
}

/// The first private struct among the members.
fn first_private_struct<'ast>(members: &'ast Vec<Member>) -> (found: Option<&'ast PrivateStruct>)
    ensures
        match found {
            Some(private) => private_structs(members@).len() > 0 && *private == private_structs(
                members@,
            )[0],
            None => private_structs(members@).len() == 0,
        },
{
    let mut found: Option<&'ast PrivateStruct> = None;
    let mut i: usize = 0;
    while i < members.len()
        invariant
            i <= members.len(),
            match found {
                Some(private) => {
                    &&& private_structs(members@.take(i as int)).len() > 0
                    &&& *private == private_structs(members@.take(i as int))[0]
                },
                None => private_structs(members@.take(i as int)).len() == 0,
            },
        decreases members.len() - i,
    {
        proof {
            assert(members@.take(i + 1).drop_last() =~= members@.take(i as int));
        }
        if let Member::PrivateStruct(private) = &members[i] {
            if found.is_none() {
                found = Some(private);
            }
        }
        i += 1;
    }
    assert(members@.take(members@.len() as int) =~= members@);
    found
}

/// The first initializer among the members.
fn first_init<'ast>(members: &'ast Vec<Member>) -> (found: Option<&'ast OpaqueTokens>)
    ensures
        match found {
            Some(code) => inits(members@).len() > 0 && *code == inits(members@)[0],
            None => inits(members@).len() == 0,
        },
{
    let mut found: Option<&'ast OpaqueTokens> = None;
    let mut i: usize = 0;
    while i < members.len()
        invariant
            i <= members.len(),
            match found {
                Some(code) => {
                    &&& inits(members@.take(i as int)).len() > 0
                    &&& *code == inits(members@.take(i as int))[0]
                },
                None => inits(members@.take(i as int)).len() == 0,
            },
        decreases members.len() - i,
    {
        proof {
            assert(members@.take(i + 1).drop_last() =~= members@.take(i as int));
        }
        if let Member::Init(code) = &members[i] {
            if found.is_none() {
                found = Some(code);
            }
        }
        i += 1;
    }
    assert(members@.take(members@.len() as int) =~= members@);
    found
}

/// A class declaration, with the names that the generated code uses for it.
#[allow(non_snake_case, dead_code)]
pub struct ClassContext<'ast> {
    program: &'ast Program,
    class: &'ast Class,
    private_struct: &'ast PrivateStruct,
    GClassName: Identifier,
    MethodsFrom: Identifier,
    ParentInstance: Tokens,
    ParentGClass: Tokens,
    GObject: Tokens,
    GObjectClass: Tokens,
}

impl<'ast> ClassContext<'ast> {
    /// The names are those of the class, and the private struct is its first one.
    #[verifier::type_invariant]
    spec fn well_formed(self) -> bool {
        &&& has_private_struct(*self.class)
        &&& *self.private_struct == private_struct(*self.class)
        &&& self.GClassName@ == class_struct_name(*self.class)
        &&& self.MethodsFrom@ == methods_trait_name(*self.class)
        &&& tokens_text(self.ParentInstance) == parent_instance_text(*self.class)
        &&& tokens_text(self.ParentGClass) == parent_class_text(*self.class)
        &&& tokens_text(self.GObject) == gobject_text()
        &&& tokens_text(self.GObjectClass) == gobject_class_text()
    }

    /// The declaration that this context is for.
    pub closed spec fn declaration(self) -> Class {
        *self.class
    }

    /// The program that the declaration is from.
    pub closed spec fn whole_program(self) -> Program {
        *self.program
    }

    /// Prepares the generation of a class.
    #[allow(non_snake_case)]
    pub fn new(program: &'ast Program, class: &'ast Class) -> (result: Result<Self, Error>)
        ensures
            match result {
                Ok(cx) => {
                    &&& has_private_struct(*class)
                    &&& cx.declaration() == *class
                    &&& cx.whole_program() == *program
                },
                Err(error) => !has_private_struct(*class) && error == Error::NoPrivateStruct,
            },
    {
        let private_struct = match first_private_struct(&class.members) {
            Some(private) => private,
            None => return Err(Error::NoPrivateStruct),
        };

        let mut class_struct = class.name.text();
        class_struct.append("Class");
        let GClassName = Identifier::new(class_struct.as_str());

        let mut GObject = Tokens::new();
        append(&mut GObject, ":: gnome_class_shims :: gobject_sys :: GObject");
        let mut GObjectClass = Tokens::new();
        append(&mut GObjectClass, ":: gnome_class_shims :: gobject_sys :: GObjectClass");

        let ParentInstance = match &class.extends {
            Some(parent) => {
                let mut tokens = Tokens::new();
                parent.to_tokens(&mut tokens);
                tokens
            },
            None => GObject.clone(),
        };
        let mut ParentGClass = Tokens::new();
        append(&mut ParentGClass, "<");
        append_tokens(&mut ParentGClass, &ParentInstance);
        append(&mut ParentGClass, "as :: gnome_class_shims :: GInstance > :: Class");

        let mut methods_trait = String::new();
        methods_trait.append("__MethodsFrom");
        methods_trait.append(class.name.text().as_str());
        let MethodsFrom = Identifier::new(methods_trait.as_str());
        assert(MethodsFrom@ =~= methods_trait_name(*class));

        Ok(
            ClassContext {
                program,
                class,
                private_struct,
                GClassName,
                MethodsFrom,
                ParentInstance,
                ParentGClass,
                GObject,
                GObjectClass,
            },
        )
    }

    /// Generates the items of the class.
    pub fn gen_class(&self) -> (result: Result<Tokens, Error>)
        requires
            self.declaration().name@.len() > 0,
        ensures
            result matches Ok(tokens) && tokens_text(tokens) == class_text(self.declaration()),
            starts_in_ascii(self.declaration().name@) ==> lower_cased_first(
                self.declaration().name@,
            ) == ascii_lower_cased_first(self.declaration().name@),
    {
        proof {
            reveal(class_text);
        }
        let mut all = Tokens::new();
        append_tokens(&mut all, &self.type_decls());
        append_tokens(&mut all, &self.impls());
        append_tokens(&mut all, &self.methods_declared_in_instance());
        append_tokens(&mut all, &self.always_impl());
        append_tokens(&mut all, &self.method_redirects());
        append_tokens(&mut all, &self.c_symbols());
        Ok(all)
    }

    /// Generates the structs of the class.
    pub fn type_decls(&self) -> (tokens: Tokens)
        ensures
            tokens_text(tokens) == type_decls_text(self.declaration()),
    {
        proof {
            use_type_invariant(self);
        }
        let name = &self.class.name;
        let private_name = &self.private_struct.name;
        let init_fn = self.init_fn();
        let slots = self.slots();

        let mut tokens = Tokens::new();
        append(&mut tokens, "# [ repr ( C ) ] pub struct");
        name.to_tokens(&mut tokens);
        append(&mut tokens, "{ parent :");
        append_tokens(&mut tokens, &self.ParentInstance);
        append(&mut tokens, ", } struct");
        private_name.to_tokens(&mut tokens);
        append(&mut tokens, "{");
        append_fields(&mut tokens, &self.private_struct.fields);
        append(&mut tokens, "} impl");
        private_name.to_tokens(&mut tokens);
        append(&mut tokens, "{ pub fn new ( ) -> Self");
        append_tokens(&mut tokens, &init_fn);
        append(&mut tokens, "} # [ repr ( C ) ] pub struct");
        self.GClassName.to_tokens(&mut tokens);
        append(&mut tokens, "{ parent_class :");
        append_tokens(&mut tokens, &self.ParentGClass);
        append(&mut tokens, ",");
        append_each(&mut tokens, &slots);
        append(&mut tokens, "}");
        tokens
    }

    /// Generates the fields of the class struct, one for each method.
    fn slots(&self) -> (pieces: Vec<Tokens>)
        ensures
            texts(pieces@) == class_methods(self.declaration()).map_values(
                |m: Method| slot_text(self.declaration(), m),
            ),
    {
        let method_names = self.method_names();
        let method_fn_tys = self.method_fn_tys();
        let ghost text = |m: Method| slot_text(self.declaration(), m);
        let ghost all = class_methods(self.declaration());
        proof {
            assert(method_names@.map_values(|id: Identifier| id@).len() == all.len());
            assert(texts(method_fn_tys@).len() == all.len());
        }
        let mut pieces: Vec<Tokens> = Vec::new();
        let mut i: usize = 0;
        while i < method_names.len()
            invariant
                i <= method_names.len(),
                method_names.len() == all.len(),
                method_fn_tys.len() == all.len(),
                all == class_methods(self.declaration()),
                method_names@.map_values(|id: Identifier| id@) == all.map_values(
                    |m: Method| m.name@,
                ),
                texts(method_fn_tys@) == all.map_values(
                    |m: Method| method_ty_text(self.declaration().name@, m.fn_def.sig),
                ),
                text == (|m: Method| slot_text(self.declaration(), m)),
                texts(pieces@) == all.take(i as int).map_values(text),
            decreases method_names.len() - i,
        {
            let mut q = Tokens::new();
            method_names[i].to_tokens(&mut q);
            append(&mut q, ": Option <");
            append_tokens(&mut q, &method_fn_tys[i]);
            append(&mut q, "> ,");
            proof {
                assert(method_names@[i as int]@ == all[i as int].name@) by {
                    assert(method_names@.map_values(|id: Identifier| id@)[i as int] == all.map_values(
                        |m: Method| m.name@,
                    )[i as int]);
                }
                assert(tokens_text(method_fn_tys@[i as int]) == texts(method_fn_tys@)[i as int]);
                assert(texts(pieces@.push(q)) =~= texts(pieces@).push(tokens_text(q)));
                assert(all.take(i + 1).map_values(text) =~= all.take(i as int).map_values(text).push(
                    slot_text(self.declaration(), all[i as int]),
                ));
            }
            pieces.push(q);
            i += 1;
        }
        assert(all.take(all.len() as int) =~= all);
        pieces
    }

    /// Generates the impls of the shim traits.
    pub fn impls(&self) -> (tokens: Tokens)
        ensures
            tokens_text(tokens) == impls_text(self.declaration()),
    {
        proof {
            use_type_invariant(self);
        }
        let name = &self.class.name;
        let get_type_fn = self.get_type_fn();

        let mut tokens = Tokens::new();
        append(&mut tokens, "unsafe impl :: gnome_class_shims :: GInstance for");
        name.to_tokens(&mut tokens);
        append(&mut tokens, "{ type Class =");
        self.GClassName.to_tokens(&mut tokens);
        append(&mut tokens, ";");
        append_tokens(&mut tokens, &get_type_fn);
        append(&mut tokens, "} unsafe impl :: gnome_class_shims :: GClass for");
        self.GClassName.to_tokens(&mut tokens);
        append(&mut tokens, "{ type Instance =");
        name.to_tokens(&mut tokens);
        append(&mut tokens, "; } unsafe impl :: gnome_class_shims :: GSubclass for");
        self.GClassName.to_tokens(&mut tokens);
        append(&mut tokens, "{ type ParentClass =");
        append_tokens(&mut tokens, &self.ParentGClass);
        append(&mut tokens, "; }");
        tokens
    }

    /// Generates the body of the function that makes the private data.
    pub fn init_fn(&self) -> (tokens: Tokens)
        ensures
            tokens_text(tokens) == init_text(self.declaration()),
    {
        proof {
            use_type_invariant(self);
        }
        let mut tokens = Tokens::new();
        match first_init(&self.class.members) {
            Some(code) => {
                code.to_tokens(&mut tokens);
            },
            None => {
                self.private_struct.name.to_tokens(&mut tokens);
                append(&mut tokens, ":: default ( )");
            },
        }
        tokens
    }

    /// The methods of the class, in the order of their declaration.
    pub fn methods(&self) -> (methods: Vec<&'ast Method>)
        ensures
            methods@.unref() == class_methods(self.declaration()),
    {
        let members = &self.class.members;
        let mut methods: Vec<&'ast Method> = Vec::new();
        let mut i: usize = 0;
        while i < members.len()
            invariant
                i <= members.len(),
                methods@.unref() == methods_among(members@.take(i as int)),
            decreases members.len() - i,
        {
            proof {
                assert(members@.take(i + 1).drop_last() =~= members@.take(i as int));
            }
            if let Member::Method(method) = &members[i] {
                proof {
                    assert(methods@.push(method).unref() =~= methods@.unref() + seq![*method]);
                }
                methods.push(method);
            }
            i += 1;
        }
        assert(members@.take(members@.len() as int) =~= members@);
        methods
    }

    /// The names of the methods, in the order of their declaration.
    pub fn method_names(&self) -> (names: Vec<Identifier>)
        ensures
            names@.map_values(|id: Identifier| id@) == class_methods(self.declaration()).map_values(
                |m: Method| m.name@,
            ),
    {
        let methods = self.methods();
        let ghost all = class_methods(self.declaration());
        let ghost name = |m: Method| m.name@;
        let ghost view = |id: Identifier| id@;
        let mut names: Vec<Identifier> = Vec::new();
        let mut i: usize = 0;
        while i < methods.len()
            invariant
                i <= methods.len(),
                methods@.unref() == all,
                name == (|m: Method| m.name@),
                view == (|id: Identifier| id@),
                names@.map_values(view) == all.take(i as int).map_values(name),
            decreases methods.len() - i,
        {
            let id = methods[i].name;
            proof {
                assert(methods@.unref()[i as int] == all[i as int]);
                assert(names@.push(id).map_values(view) =~= names@.map_values(view).push(id@));
                assert(all.take(i + 1).map_values(name) =~= all.take(i as int).map_values(name).push(
                    all[i as int].name@,
                ));
            }
            names.push(id);
            i += 1;
        }
        assert(all.take(all.len() as int) =~= all);
        names
    }

    /// What `generate` makes of each method, in the order of their declaration.
    fn each_method<F: Fn(&'ast Method) -> Tokens>(
        &self,
        generate: F,
        Ghost(text): Ghost<spec_fn(Method) -> Seq<char>>,
    ) -> (pieces: Vec<Tokens>)
        requires
            forall|m: &'ast Method| call_requires(generate, (m,)),
            forall|m: &'ast Method, tokens: Tokens|
                call_ensures(generate, (m,), tokens) ==> tokens_text(tokens) == text(*m),
        ensures
            texts(pieces@) == class_methods(self.declaration()).map_values(text),
    {
        let methods = self.methods();
        let ghost all = class_methods(self.declaration());
        let mut pieces: Vec<Tokens> = Vec::new();
        let mut i: usize = 0;
        while i < methods.len()
            invariant
                i <= methods.len(),
                methods@.unref() == all,
                forall|m: &'ast Method| call_requires(generate, (m,)),
                forall|m: &'ast Method, tokens: Tokens|
                    call_ensures(generate, (m,), tokens) ==> tokens_text(tokens) == text(*m),
                texts(pieces@) == all.take(i as int).map_values(text),
            decreases methods.len() - i,
        {
            let piece = generate(methods[i]);
            proof {
                assert(methods@.unref()[i as int] == all[i as int]);
                assert(texts(pieces@.push(piece)) =~= texts(pieces@).push(tokens_text(piece)));
                assert(all.take(i + 1).map_values(text) =~= all.take(i as int).map_values(text).push(
                    text(all[i as int]),
                ));
            }
            pieces.push(piece);
            i += 1;
        }
        assert(all.take(all.len() as int) =~= all);
        pieces
    }

    /// Generates the statements that put each method into the class struct.
    pub fn method_assignments(&self) -> (pieces: Vec<Tokens>)
        ensures
            pieces@.len() == class_methods(self.declaration()).len(),
            forall|i: int|
                0 <= i < pieces@.len() ==> tokens_text(#[trigger] pieces@[i]) == assignment_text(
                    self.declaration(),
                    class_methods(self.declaration())[i],
                ),
            texts(pieces@) == class_methods(self.declaration()).map_values(
                |m: Method| assignment_text(self.declaration(), m),
            ),
    {
        proof {
            use_type_invariant(self);
        }
        let name = &self.class.name;
        let pieces = self.each_method(
            |method: &'ast Method| -> (q: Tokens)
                ensures
                    tokens_text(q) == assignment_text(self.declaration(), *method)
            {
                let mut q = Tokens::new();
                append(&mut q, "klass .");
                method.name.to_tokens(&mut q);
                append(&mut q, "= Some ( <");
                name.to_tokens(&mut q);
                append(&mut q, "as");
                self.MethodsFrom.to_tokens(&mut q);
                append(&mut q, "> ::");
                method.name.to_tokens(&mut q);
                append(&mut q, ") ;");
                q
            },
            Ghost(|m: Method| assignment_text(self.declaration(), m)),
        );
        assert(texts(pieces@).len() == pieces@.len());
        assert forall|i: int| 0 <= i < pieces@.len() implies tokens_text(#[trigger] pieces@[i])
            == assignment_text(self.declaration(), class_methods(self.declaration())[i]) by {
            let all = class_methods(self.declaration());
            let text = |m: Method| assignment_text(self.declaration(), m);
            assert(texts(pieces@)[i] == tokens_text(pieces@[i]));
            assert(all.map_values(text)[i] == text(all[i]));
        }
        pieces
    }

    /// Generates the types of the functions behind the methods.
    pub fn method_fn_tys(&self) -> (pieces: Vec<Tokens>)
        ensures
            texts(pieces@) == class_methods(self.declaration()).map_values(
                |m: Method| method_ty_text(self.declaration().name@, m.fn_def.sig),
            ),
    {
        self.each_method(
            |method: &'ast Method| -> (q: Tokens)
                ensures
                    tokens_text(q) == method_ty_text(
                        self.declaration().name@,
                        method.fn_def.sig,
                    )
            {
                let method_fn_ty = MethodTy {
                    class_name: self.class.name,
                    sig: &method.fn_def.sig,
                };
                let mut q = Tokens::new();
                method_fn_ty.to_tokens(&mut q);
                q
            },
            Ghost(|m: Method| method_ty_text(self.declaration().name@, m.fn_def.sig)),
        )
    }

    /// Generates the trait that declares the methods, and its impl.
    pub fn methods_declared_in_instance(&self) -> (tokens: Tokens)
        ensures
            tokens_text(tokens) == methods_declared_text(self.declaration()),
    {
        proof {
            use_type_invariant(self);
        }
        let name = &self.class.name;
        let method_trait_fns = self.method_trait_fns();
        let method_impl_fns = self.method_impl_fns();

        let mut tokens = Tokens::new();
        append(&mut tokens, "pub trait");
        self.MethodsFrom.to_tokens(&mut tokens);
        append(&mut tokens, "{");
        append_each(&mut tokens, &method_trait_fns);
        append(&mut tokens, "} impl");
        self.MethodsFrom.to_tokens(&mut tokens);
        append(&mut tokens, "for");
        name.to_tokens(&mut tokens);
        append(&mut tokens, "{");
        append_each(&mut tokens, &method_impl_fns);
        append(&mut tokens, "}");
        tokens
    }

    /// Generates the declarations of the methods in the trait.
    pub fn method_trait_fns(&self) -> (pieces: Vec<Tokens>)
        ensures
            texts(pieces@) == class_methods(self.declaration()).map_values(
                |m: Method| method_trait_fn_text(m),
            ),
    {
        self.each_method(
            |method: &'ast Method| -> (q: Tokens)
                ensures
                    tokens_text(q) == method_trait_fn_text(*method)
            {
                let mut q = Tokens::new();
                append(&mut q, "extern fn");
                method.name.to_tokens(&mut q);
                append(&mut q, "( & self ,");
                method.fn_def.sig.arg_decls().to_tokens(&mut q);
                append(&mut q, ")");
                method.fn_def.sig.return_ty().to_tokens(&mut q);
                append(&mut q, ";");
                q
            },
            Ghost(|m: Method| method_trait_fn_text(m)),
        )
    }

    /// Generates the implementations of the methods.
    pub fn method_impl_fns(&self) -> (pieces: Vec<Tokens>)
        ensures
            texts(pieces@) == class_methods(self.declaration()).map_values(
                |m: Method| method_impl_fn_text(m),
            ),
    {
        self.each_method(
            |method: &'ast Method| -> (q: Tokens)
                ensures
                    tokens_text(q) == method_impl_fn_text(*method)
            {
                let mut q = Tokens::new();
                append(&mut q, "extern fn");
                method.name.to_tokens(&mut q);
                append(&mut q, "( & self ,");
                method.fn_def.sig.arg_decls().to_tokens(&mut q);
                append(&mut q, ")");
                method.fn_def.sig.return_ty().to_tokens(&mut q);
                method.fn_def.code.to_tokens(&mut q);
                q
            },
            Ghost(|m: Method| method_impl_fn_text(m)),
        )
    }

    /// Generates the methods that every class has.
    pub fn always_impl(&self) -> (tokens: Tokens)
        ensures
            tokens_text(tokens) == always_impl_text(self.declaration()),
    {
        proof {
            use_type_invariant(self);
        }
        let name = &self.class.name;
        let private_name = &self.private_struct.name;

        let mut tokens = Tokens::new();
        append(&mut tokens, "impl");
        name.to_tokens(&mut tokens);
        append(&mut tokens, "{ pub fn new ( ) -> :: gnome_class_shims :: G <");
        name.to_tokens(&mut tokens);
        append(
            &mut tokens,
            "> { use gnome_class_shims :: G ; use gnome_class_shims :: GInstance ;",
        );
        append(&mut tokens, "use gnome_class_shims :: gobject_sys :: { self , GObject } ;");
        append(&mut tokens, "use std :: ptr ; unsafe {");
        append(&mut tokens, "let data : * mut GObject = gobject_sys :: g_object_new (");
        name.to_tokens(&mut tokens);
        append(&mut tokens, ":: get_type ( ) , ptr :: null_mut ( ) ) ; G :: new ( data as * mut");
        name.to_tokens(&mut tokens);
        append(&mut tokens, ") } } fn private ( & self ) -> &");
        private_name.to_tokens(&mut tokens);
        append(&mut tokens, "{ use gnome_class_shims :: GInstance ;");
        append(&mut tokens, "use gnome_class_shims :: gobject_sys :: { self , GTypeInstance } ;");
        append(&mut tokens, "unsafe { let this = self as * const");
        name.to_tokens(&mut tokens);
        append(&mut tokens, "as * mut GTypeInstance ;");
        append(&mut tokens, "let private = gobject_sys :: g_type_instance_get_private ( this ,");
        name.to_tokens(&mut tokens);
        append(&mut tokens, ":: get_type ( ) ) ; let private = private as * const");
        private_name.to_tokens(&mut tokens);
        append(
            &mut tokens,
            "; & * private } } pub fn to_ref ( & self ) -> :: gnome_class_shims :: G <",
        );
        name.to_tokens(&mut tokens);
        append(&mut tokens, "> { :: gnome_class_shims :: to_object_ref ( self ) . clone ( ) }");
        append(&mut tokens, "pub fn upcast ( & self ) -> &");
        append_tokens(&mut tokens, &self.ParentInstance);
        append(&mut tokens, "{ & self . parent } }");
        tokens
    }

    /// Generates the methods on the instance, each of which calls what the class holds for it.
    pub fn method_redirects(&self) -> (tokens: Tokens)
        ensures
            tokens_text(tokens) == method_redirects_text(self.declaration()),
    {
        let name = &self.class.name;
        let method_tokens = self.each_method(
            |method: &'ast Method| -> (q: Tokens)
                ensures
                    tokens_text(q) == method_redirect_text(*method)
            {
                let mut q = Tokens::new();
                append(&mut q, "pub fn");
                method.name.to_tokens(&mut q);
                append(&mut q, "( & self ,");
                method.fn_def.sig.arg_decls().to_tokens(&mut q);
                append(&mut q, ")");
                method.fn_def.sig.return_ty().to_tokens(&mut q);
                append(
                    &mut q,
                    "{ let klass = :: gnome_class_shims :: get_class ( self ) ; ( klass .",
                );
                method.name.to_tokens(&mut q);
                append(&mut q, ". unwrap ( ) ) ( self ,");
                method.fn_def.sig.arg_names().to_tokens(&mut q);
                append(&mut q, ") }");
                q
            },
            Ghost(|m: Method| method_redirect_text(m)),
        );

        let mut tokens = Tokens::new();
        append(&mut tokens, "impl");
        name.to_tokens(&mut tokens);
        append(&mut tokens, "{");
        append_each(&mut tokens, &method_tokens);
        append(&mut tokens, "}");
        tokens
    }

    /// The name of the class with its first letter in lower case.
    pub fn lower_case_class_name(&self) -> (lower: String)
        requires
            self.declaration().name@.len() > 0,
        ensures
            lower@ == lower_cased_first(self.declaration().name@),
            starts_in_ascii(self.declaration().name@) ==> lower@ == ascii_lower_cased_first(
                self.declaration().name@,
            ),
    {
        lower_case_first(self.class.name.text().as_str())
    }

    /// Generates the C functions of the class.
    pub fn c_symbols(&self) -> (tokens: Tokens)
        requires
            self.declaration().name@.len() > 0,
        ensures
            tokens_text(tokens) == c_symbols_text(
                self.declaration(),
                lower_cased_first(self.declaration().name@),
            ),
            starts_in_ascii(self.declaration().name@) ==> lower_cased_first(
                self.declaration().name@,
            ) == ascii_lower_cased_first(self.declaration().name@),
    {
        let instance_name = self.lower_case_class_name();
        self.c_symbols_from(instance_name.as_str())
    }

    /// Generates the C functions of the class, with names that start with `prefix`.
    pub fn c_symbols_from(&self, prefix: &str) -> (tokens: Tokens)
        ensures
            tokens_text(tokens) == c_symbols_text(self.declaration(), prefix@),
    {
        let name = &self.class.name;
        let method_tokens = self.each_method(
            |method: &'ast Method| -> (q: Tokens)
                ensures
                    tokens_text(q) == method_c_symbol_text(self.declaration(), prefix@, *method)
            {
                let mut c_name = String::new();
                c_name.append(prefix);
                c_name.append("_");
                c_name.append(method.name.text().as_str());
                assert(c_name@ =~= c_symbol_name(prefix@, method.name@));

                let mut q = Tokens::new();
                append(&mut q, "# [ no_mangle ] pub extern fn");
                append_ident(&mut q, c_name.as_str());
                append(&mut q, "( __this : &");
                name.to_tokens(&mut q);
                append(&mut q, ",");
                method.fn_def.sig.arg_decls().to_tokens(&mut q);
                append(&mut q, ")");
                method.fn_def.sig.return_ty().to_tokens(&mut q);
                append(&mut q, "{");
                name.to_tokens(&mut q);
                append(&mut q, "::");
                method.name.to_tokens(&mut q);
                append(&mut q, "( __this ,");
                method.fn_def.sig.arg_names().to_tokens(&mut q);
                append(&mut q, ") }");
                q
            },
            Ghost(|m: Method| method_c_symbol_text(self.declaration(), prefix@, m)),
        );

        let mut get_type_name = String::new();
        get_type_name.append(prefix);
        get_type_name.append("_get_type");
        assert(get_type_name@ =~= get_type_symbol_name(prefix@));

        let mut tokens = Tokens::new();
        append(&mut tokens, "# [ no_mangle ] pub extern fn");
        append_ident(&mut tokens, get_type_name.as_str());
        append(&mut tokens, "( ) -> :: gnome_class_shims :: glib_sys :: GType {");
        append(&mut tokens, "use gnome_class_shims :: GInstance ;");
        name.to_tokens(&mut tokens);
        append(&mut tokens, ":: get_type ( ) }");
        append_each(&mut tokens, &method_tokens);
        tokens
    }

    /// Generates the function that returns the type of the class.
    pub fn get_type_fn(&self) -> (tokens: Tokens)
        ensures
            tokens_text(tokens) == get_type_fn_text(self.declaration()),
    {
        broadcast use lemma_beside_associative;

        proof {
            use_type_invariant(self);
        }
        let name = &self.class.name;
        let private_name = &self.private_struct.name;

        // The function which initializes an instance of the class. It simply sets up the private
        // fields.
        let mut instance_init = Tokens::new();
        append(
            &mut instance_init,
            "extern fn instance_init ( this : * mut GTypeInstance , _klass : gpointer ) {",
        );
        append(
            &mut instance_init,
            "unsafe { let private = gobject_sys :: g_type_instance_get_private ( this ,",
        );
        name.to_tokens(&mut instance_init);
        append(&mut instance_init, ":: get_type ( ) ) ; let private = private as * mut");
        private_name.to_tokens(&mut instance_init);
        append(&mut instance_init, "; ptr :: write ( private ,");
        private_name.to_tokens(&mut instance_init);
        append(&mut instance_init, ":: new ( ) ) ; } }");
        assert(tokens_text(instance_init) == instance_init_text(self.declaration()));

        // The finalizer. It drops the private fields and then invokes the parent class finalizer,
        // which it loads from the parent class struct.
        let mut finalize = Tokens::new();
        append(
            &mut finalize,
            "extern fn finalize ( this : * mut GObject ) { let this = this as * mut",
        );
        name.to_tokens(&mut finalize);
        append(&mut finalize, "; unsafe { ptr :: read ( ( * this ) . private ( ) ) ;");
        append(&mut finalize, "let object_class = shims :: get_class ( & * this ) ;");
        append(&mut finalize, "let parent_class = shims :: get_parent_class ( object_class ) ;");
        append(&mut finalize, "if let Some ( f ) = parent_class . finalize {");
        append(&mut finalize, "f ( this as * mut GObject ) ; } } }");
        assert(tokens_text(finalize) == finalize_text(self.declaration()));

        // Class initializer. Sets up the finalizer, private field size, and initializes the fields
        // for each of the methods.
        let method_assignments = self.method_assignments();
        let mut class_init = Tokens::new();
        append(
            &mut class_init,
            "extern fn class_init ( klass : gpointer , _klass_data : gpointer ) {",
        );
        append(&mut class_init, "unsafe { let g_object_class = klass as * mut GObjectClass ;");
        append(&mut class_init, "( * g_object_class ) . finalize = Some ( finalize ) ;");
        append(
            &mut class_init,
            "gobject_sys :: g_type_class_add_private ( klass , mem :: size_of :: <",
        );
        private_name.to_tokens(&mut class_init);
        append(&mut class_init, "> ( ) ) ; let klass = klass as * mut");
        self.GClassName.to_tokens(&mut class_init);
        append(&mut class_init, "; let klass : & mut");
        self.GClassName.to_tokens(&mut class_init);
        append(&mut class_init, "= & mut * klass ;");
        append_each(&mut class_init, &method_assignments);
        append(&mut class_init, "} }");
        assert(tokens_text(class_init) == class_init_text(self.declaration()));

        // Registration function. Creates the `GType`. Intended to be run at most once, returns the
        // `GType` that it created.
        let byte_string = ByteString(*name);
        let mut register = Tokens::new();
        append(
            &mut register,
            "fn register ( ) -> GType { unsafe { gobject_sys :: g_type_register_static_simple (",
        );
        append_tokens(&mut register, &self.ParentInstance);
        append(&mut register, ":: get_type ( ) ,");
        byte_string.to_tokens(&mut register);
        append(&mut register, "as * const u8 as * const i8 , mem :: size_of :: <");
        self.GClassName.to_tokens(&mut register);
        append(&mut register, "> ( ) as u32 , Some ( class_init ) , mem :: size_of :: <");
        name.to_tokens(&mut register);
        append(
            &mut register,
            "> ( ) as u32 , Some ( instance_init ) , GTypeFlags :: empty ( ) ) } }",
        );
        assert(tokens_text(register) == register_text(self.declaration()));

        // All these helper functions are intentionally hidden inside of `get_type` so as not to
        // pollute the user's namespace.
        let mut tokens = Tokens::new();
        append(&mut tokens, "fn get_type ( ) -> :: gnome_class_shims :: glib_sys :: GType {");
        append(&mut tokens, "use gnome_class_shims as shims ;");
        append(&mut tokens, "use gnome_class_shims :: gobject_sys :: {");
        append(&mut tokens, "self , GObject , GObjectClass , GTypeInstance , GTypeFlags } ;");
        append(&mut tokens, "use gnome_class_shims :: glib_sys :: { GType , gpointer } ;");
        append(&mut tokens, "use std :: { mem , ptr } ;");
        append_tokens(&mut tokens, &instance_init);
        append_tokens(&mut tokens, &finalize);
        append_tokens(&mut tokens, &class_init);
        append_tokens(&mut tokens, &register);
        append(
            &mut tokens,
            "lazy_static ! { static ref GTYPE : GType = register ( ) ; } * GTYPE }",
        );
        tokens
    }
}

} // verus!

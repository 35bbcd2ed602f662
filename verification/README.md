# gnome_class_gen

Generates the Rust items behind a GObject class declaration: the instance and class structs, the
registration of the type, the trait with its methods, the methods on the instance, and the C
functions.

- `ast`: class declarations.
- `names`: names, held by `lalrpop_intern`.
- `tokens`: generated code, held by `quote`, and how pieces of text stand next to each other.
- `letters`: the case of the first letter.
- `emit`: how the parts of a declaration read.
- `template`: what is generated for a class, as a function of the declaration.
- `class`: the generator.
- `nesting`, `balance`: generated code closes what it opens.
- `laws`: what else holds of the generated code as a whole.

What is taken on trust stands in `names`, `tokens` and `letters`: the contracts of the functions of
`lalrpop_intern`, `quote` and the standard library that are called there.

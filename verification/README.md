# barracuda

A verified library for the Barracuda bytecode toolchain, written in Verus.

- `src/` — the library: the VM's operation and instruction sets, program
  code tables and their `.bct` text form, the bytecode generator that turns
  a syntax tree into program code (`compile_ast`), the stack-size estimator
  that follows the generated code's paths, the program-code builder with
  label resolution, symbol tables and scope tracking of the compiler, the
  emulator heap, the VM's thread state and the step that runs its stack,
  integer and environment operations, the command-line description of
  environment variables, and string packing. Every function carries a
  contract that Verus proves; the laws of the library are public proof
  functions.
- `tests/` — tests on concrete values.
- `app/` — what stands around the library: command-line options and the
  conversion of values to and from floating-point numbers.

Not part of this library:

- the parser of the Barracuda source language (`.bc`): compilation here
  starts from a syntax tree;
- semantic analysis (type checking, function overloads, arrays), the
  generator for typed trees and the construction of symbol tables from a
  tree: they work on node kinds that the syntax tree defined here does not
  have (typed nodes, datatype nodes, empty constructs, arrays and array
  indexing, qualifiers, references, ternary operators, bare function calls);
- running a whole program on the VM: `step` runs the stack, integer,
  environment, heap and jump instructions and reports the operations that
  compute with floating-point numbers or print to its caller.

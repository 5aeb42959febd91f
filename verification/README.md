# cot_constructs

The CIR constructs (arith, arrays, enums, errors, flow, generics, memory,
optionals, slices, structs, traits, unions, vwt), verified with Verus.

`src/` is the library. For each construct it states and proves:

- the operations it registers with the `cir` dialect, with their traits
  (`register_ops`), and that their names are distinct and found again;
- the operation each builder creates: name, operands, result types and
  attributes (`*_op`), over generic value and type handles;
- the descriptors of its extension types (`*_type`), and that equal
  descriptors come exactly from equal parameters;
- for arith, errors and slices, the decisions of the Cranelift lowering:
  which step lowers each operation, predicate to condition code, how a
  constant is materialized, the instruction plans of the float remainder,
  slice element and array-to-slice lowerings, the test of `is_error`, and
  the stack layouts of error unions and
  slices, with the read-back facts of those layouts.

`app/` hands these descriptions to the MLIF IR (context, dialects, builders,
`ConstructLowering`) and emits the Cranelift instructions.

`tests/` runs the library on concrete values.

# rfvp

The scene tables of a visual-novel engine, verified with Verus.

- `src/subsystem/resources/prim.rs`: the prim table. Prims are drawable nodes
  addressed by `i16` handles; group prims hold their members in a linked list
  made of handles (`child`, `group_args2`, `parent`, `grand_parent`,
  `grand_son`). Every operation is specified as a function on the sequence of
  prim states (`PrimView`), and each `requires` names exactly the inputs on
  which the operation would index outside the table or touch one prim twice.
- `src/subsystem/resources/parts_manager.rs`: parts, their fade motions and the
  pool of motion ids.
- `app/`: the resource table and the entity world, which rest on `TypeId`,
  downcasting and the `hecs` ECS; they are not verified.

# litsdf

Scene model and editing logic of an SDF (signed distance function) shape editor,
verified with Verus.

A scene is a tree of bones; each bone carries shapes (a primitive, a transform, a
material, domain modifiers and the way it combines with the shapes before it).  Every
`f32` quantity is held as the `u32` bit pattern of the number.

- `src/` — the verified library: bones and shapes (`bone`, `shape`, `scene`), the edits
  the command-line tool makes (`commands`), the shader encodings and generated shader
  text (`encode`, `flat`, `codegen`), the editor's actions on the scene (shortcuts,
  menus, bone-tree context actions and selection, with undo snapshots: `actions`,
  using the exact scene comparison of `same`), its gizmo edits and property panels
  (`editor`, `panel`), the demo scenes, the primitive gallery among them, placed at
  positions the caller computes (`demo_scenes`), inverse-kinematics chains (`ik`), the
  expression parser (`expression`), the node catalogue (`nodes`) and which connections
  the node editor accepts (`wiring`), the starter animation graphs, which demos attach
  to their bones and shapes (`presets`), undo history (`undo`), scene-file decisions
  (`persist`).  Laws relating the operations are public proof functions
  (`law_*`).
- `app/` — the `litsdf-cli` program: argument parsing, YAML files, and the
  floating-point computation (distance functions, world transforms, physics, IK
  solving, expression evaluation, the gallery's positions on its arc) and writing the
  shader file.
- `tests/` — tests of the library.

The graphical editor itself is not included: its drawing, input handling, camera,
viewport picking and rendering, the physics engine binding, and the node-graph editor's
drawing and its floating-point graph evaluation.  The library holds the decisions those parts
make about the scene; the program here is the command-line tool.

## Where the code and the feature list differ

Some figures in the feature list of the editor's own README are older than its code;
this library follows the code:

- `BoneOutput` has 13 input pins, not 7: the seven transform pins (position, rotation,
  scale) are followed by Force X/Y/Z and Torque X/Y/Z.  The node's own documentation
  says it writes "bone transform + physics forces", its pin count is annotated
  `transform(7) + force(3) + torque(3)`, and the wave-force and walker demos drive
  `BoneOutput` Force Y and Force X.
- There are 35 node types, not 24 (the logic, state and physics-sensing nodes came
  later).
- The default scene is the five-shape "Floating Islands" scene.  An older test of the
  flattener still expects one sphere; the code, and the shader-generation test that
  reads the fifth shape's parameters, have five.  The test here checks five.

# cview

A crystal structure toolkit for DFT users: reading and writing VASP
(POSCAR/CONTCAR, CHGCAR), Quantum Espresso, CIF, XYZ and SPR-KKR files,
element and bond valence data, Miller plane bases, Bravais classification,
chemical formulas, and the geometry of charge density isolines.

The library in `src/` is written in Verus. Every function carries a
contract that the verifier proves: what a reader extracts from each line of
a file, which basis `find_basis` chooses for a plane, which parameters the
bond valence tables give for a pair, and so on. Alongside the functions,
proof functions state properties of the library as a whole, for instance
that indices with a common factor give the same plane basis, that a formula
does not depend on the order of the atoms, or that a POSCAR file lists every
atom exactly once.

All quantities in the library are integers or text: lengths are kept in
thousandths or millionths of an ångström, electronegativities as exact
binary fractions. Floating point lives in `app/`, a command-line program
that reads files, parses their numbers and runs the numerical parts
(symmetry search with moyo, XRD patterns, slabs, supercells, density
slices, k-paths and Brillouin zones, void analysis) around the verified library.

Layout:

- `src/text.rs`: character-level string helpers shared by the readers.
- `src/symop.rs`: the grammar of CIF symmetry operations.
- `src/cif.rs`, `src/qe.rs`, `src/poscar.rs`, `src/xyz.rs`, `src/sprkkr.rs`,
  `src/chgcar.rs`, `src/formats.rs`: the file formats.
- `src/elements.rs`, `src/bond_valence.rs`, `src/bvs.rs`: element and bond
  valence data.
- `src/miller.rs`, `src/lattice.rs`, `src/bravais.rs`, `src/xrd.rs`,
  `src/symmetry.rs`, `src/charge_density.rs`: crystallography.
- `src/formula.rs`, `src/conversion.rs`, `src/selection.rs`: operations on
  the list of atoms.
- `src/config.rs`: preference values.
- `tests/`: tests of the library on concrete inputs.
- `app/`: the command-line program.

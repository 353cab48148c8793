use vstd::prelude::*;

pub mod config;
pub mod text;
pub mod miller;
pub mod lattice;
pub mod elements;
pub mod bond_valence;
pub mod xrd;
pub mod charge_density;
pub mod bravais;
pub mod cif;
pub mod qe;
pub mod chgcar;
pub mod formats;
pub mod bvs;
pub mod selection;
pub mod formula;
pub mod poscar;
pub mod xyz;
pub mod sprkkr;
pub mod conversion;
pub mod symmetry;
pub mod symop;

verus! {

} // verus!

use vstd::prelude::*;

verus! {

/// Point the view rotates about.
#[derive(Debug, Clone, Copy, PartialEq, Eq, Structural)]
pub enum RotationCenter {
    Centroid,
    UnitCell,
}

impl Default for RotationCenter {
    fn default() -> (r: Self)
        ensures
            r == RotationCenter::Centroid,
    {
        RotationCenter::Centroid
    }
}

/// File format of exported images.
#[derive(Debug, Clone, Copy, PartialEq, Eq, Structural)]
pub enum ExportFormat {
    Png,
    Pdf,
}

/// What decides the colour of an atom.
#[derive(Debug, Clone, Copy, PartialEq, Eq, Structural)]
pub enum ColorMode {
    Element,
    BondValence,
    Coordination,
    Charge,
}

impl Default for ColorMode {
    fn default() -> (r: Self)
        ensures
            r == ColorMode::Element,
    {
        ColorMode::Element
    }
}

#[derive(Debug, Clone, Copy, PartialEq, Eq, Structural)]
pub enum RenderQuality {
    Fast,
    High,
}

impl Default for RenderQuality {
    fn default() -> (r: Self)
        ensures
            r == RenderQuality::Fast,
    {
        RenderQuality::Fast
    }
}

#[derive(Debug, Clone, Copy, PartialEq, Eq, Structural)]
pub enum AntialiasLevel {
    /// No antialiasing (`None` in saved settings).
    Off,
    Fast,
    Good,
    Best,
}

impl Default for AntialiasLevel {
    fn default() -> (r: Self)
        ensures
            r == AntialiasLevel::Good,
    {
        AntialiasLevel::Good
    }
}

/// Default for boolean settings that are on unless the user turns them off.
pub fn d_true() -> (r: bool)
    ensures
        r,
{
    true
}

/// Default colormap of charge density exports: 0 (Viridis).
pub fn d_colormap_idx() -> (r: usize)
    ensures
        r == 0,
{
    0
}

/// Default cap on the number of atoms drawn.
pub fn d_max_atoms() -> (r: usize)
    ensures
        r == 10000,
{
    10000
}

/// Default sprite cache size, in megabytes.
pub fn d_cache() -> (r: usize)
    ensures
        r == 200,
{
    200
}

} // verus!
